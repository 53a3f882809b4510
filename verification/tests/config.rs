use orbterm::color::TermColor;
use orbterm::config::{decode_hex, Config, Hex, HexError, ScaleSource};

#[test]
fn decode_hex_reads_pairs_of_digits() {
    assert_eq!(decode_hex(""), Ok(vec![]));
    assert_eq!(decode_hex("00"), Ok(vec![0]));
    assert_eq!(decode_hex("ff"), Ok(vec![255]));
    assert_eq!(decode_hex("FF"), Ok(vec![255]));
    assert_eq!(decode_hex("1e90ff"), Ok(vec![0x1e, 0x90, 0xff]));
    assert_eq!(decode_hex("0a1B2c3D"), Ok(vec![0x0a, 0x1b, 0x2c, 0x3d]));
}

#[test]
fn decode_hex_agrees_with_std_on_every_pair_of_ascii() {
    for high in 0u8..128 {
        for low in 0u8..128 {
            let text = String::from_utf8(vec![high, low]).unwrap();
            let expected = u8::from_str_radix(&text, 16).ok().map(|byte| vec![byte]);
            assert_eq!(decode_hex(&text).ok(), expected, "{:?}", text);
        }
    }
}

#[test]
fn decode_hex_refuses_what_is_no_digit() {
    assert_eq!(decode_hex("zz"), Err(HexError::InvalidDigit));
    assert_eq!(decode_hex("0g"), Err(HexError::InvalidDigit));
    assert_eq!(decode_hex("-1"), Err(HexError::InvalidDigit));
    assert_eq!(decode_hex("12 3"), Err(HexError::InvalidDigit));
    assert_eq!(decode_hex("é"), Err(HexError::InvalidDigit));
    assert_eq!(decode_hex("#00000"), Err(HexError::InvalidDigit));
    assert_eq!(decode_hex("zzz"), Err(HexError::InvalidDigit));
}

#[test]
fn decode_hex_refuses_an_odd_length() {
    assert_eq!(decode_hex("f"), Err(HexError::OddLength));
    assert_eq!(decode_hex("abc"), Err(HexError::OddLength));
}

#[test]
fn a_hex_text_gives_its_color() {
    assert_eq!(Hex::new("#1e90ff".to_string()).try_into(), Ok(TermColor::TrueColor(0x1e, 0x90, 0xff)));
    assert_eq!(Hex::new("000000".to_string()).try_into(), Ok(TermColor::TrueColor(0, 0, 0)));
    assert_eq!(Hex::new("##FFffFF".to_string()).try_into(), Ok(TermColor::TrueColor(255, 255, 255)));
    assert_eq!(Hex::new("#01020304".to_string()).try_into(), Ok(TermColor::TrueColor(1, 2, 3)));
}

#[test]
fn a_malformed_hex_text_gives_its_error() {
    assert_eq!(Hex::new("".to_string()).try_into(), Err(HexError::TooShort));
    assert_eq!(Hex::new("#".to_string()).try_into(), Err(HexError::TooShort));
    assert_eq!(Hex::new("#ffff".to_string()).try_into(), Err(HexError::TooShort));
    assert_eq!(Hex::new("#fffff".to_string()).try_into(), Err(HexError::OddLength));
    assert_eq!(Hex::new("#ggffff".to_string()).try_into(), Err(HexError::InvalidDigit));
    assert_eq!(Hex::new("ff#ffff".to_string()).try_into(), Err(HexError::InvalidDigit));
    assert_eq!(Hex::new("red".to_string()).try_into(), Err(HexError::InvalidDigit));
}

#[test]
fn a_true_color_is_written_as_hex() {
    assert_eq!(Hex::from(TermColor::TrueColor(0x1e, 0x90, 0xff)).as_str(), "#1e90ff");
    assert_eq!(Hex::from(TermColor::TrueColor(0, 0, 0)).as_str(), "#000000");
    assert_eq!(Hex::from(TermColor::TrueColor(0x0a, 0xb0, 0x09)).as_str(), "#0ab009");
}

#[test]
fn an_indexed_color_is_written_with_its_palette_entry() {
    let named = [
        "#000000", "#800000", "#008000", "#808000", "#000080", "#800080", "#008080", "#c0c0c0",
        "#808080", "#ff0000", "#00ff00", "#ffff00", "#0000ff", "#ff00ff", "#00ffff", "#ffffff",
    ];
    for (value, text) in named.iter().enumerate() {
        assert_eq!(Hex::from(TermColor::Ansi(value as u8)).as_str(), *text);
    }
    assert_eq!(Hex::from(TermColor::Ansi(16)).as_str(), "#000000");
    assert_eq!(Hex::from(TermColor::Ansi(17)).as_str(), "#000050");
    assert_eq!(Hex::from(TermColor::Ansi(21)).as_str(), "#0000f0");
    assert_eq!(Hex::from(TermColor::Ansi(196)).as_str(), "#f00000");
    assert_eq!(Hex::from(TermColor::Ansi(231)).as_str(), "#f0f0f0");
    assert_eq!(Hex::from(TermColor::Ansi(232)).as_str(), "#080808");
    assert_eq!(Hex::from(TermColor::Ansi(255)).as_str(), "#eeeeee");
}

#[test]
fn a_color_written_and_read_back_has_the_same_channels() {
    for value in 0..=255u8 {
        let color = TermColor::Ansi(value);
        let (r, g, b) = color.to_channels();
        assert_eq!(Hex::from(color).try_into(), Ok(TermColor::TrueColor(r, g, b)));
    }
}

#[test]
fn as_rgb_packs_the_channels_under_full_opacity() {
    assert_eq!(TermColor::TrueColor(0x12, 0x34, 0x56).as_rgb(), 0xFF123456);
    assert_eq!(TermColor::Ansi(0).as_rgb(), 0xFF000000);
    assert_eq!(TermColor::Ansi(7).as_rgb(), 0xFFC0C0C0);
    assert_eq!(TermColor::Ansi(9).as_rgb(), 0xFFFF0000);
    assert_eq!(TermColor::Ansi(255).as_rgb(), 0xFFEEEEEE);
    for value in 0..=255u8 {
        let color = TermColor::Ansi(value);
        let (r, g, b) = color.to_channels();
        let packed = 0xFF000000 | ((r as u32) << 16) | ((g as u32) << 8) | (b as u32);
        assert_eq!(color.as_rgb(), packed);
    }
}

#[test]
fn the_default_settings() {
    let config = Config::default();
    assert_eq!(config.font, None);
    assert_eq!(config.font_bold, None);
    assert_eq!(config.background_color, None);
    assert_eq!(config.save_scale, Some(true));
    assert_eq!(config.columns, None);
    assert_eq!(config.rows, None);
    assert_eq!(config.initial_columns(), 80);
    assert_eq!(config.initial_rows(), 24);
    assert!(config.saves_scale());
    assert_eq!(config.background(), Ok(None));
}

#[test]
fn settings_that_name_values() {
    let mut config = Config::default();
    config.columns = Some(132);
    config.rows = Some(50);
    config.save_scale = None;
    config.background_color = Some(Hex::new("#102030".to_string()));
    assert_eq!(config.initial_columns(), 132);
    assert_eq!(config.initial_rows(), 50);
    assert!(!config.saves_scale());
    assert_eq!(config.background(), Ok(Some(TermColor::TrueColor(0x10, 0x20, 0x30))));
    config.save_scale = Some(false);
    assert!(!config.saves_scale());
    config.background_color = Some(Hex::new("#10203".to_string()));
    assert_eq!(config.background(), Err(HexError::OddLength));
}

#[test]
fn the_default_scale_grows_with_the_display() {
    assert_eq!(Config::default_scale(0), 1);
    assert_eq!(Config::default_scale(1080), 1);
    assert_eq!(Config::default_scale(1599), 1);
    assert_eq!(Config::default_scale(1600), 2);
    assert_eq!(Config::default_scale(2160), 2);
    assert_eq!(Config::default_scale(3200), 3);
    assert_eq!(Config::default_scale(u32::MAX), 2684355);
}

#[test]
fn where_the_zoom_comes_from() {
    let mut config = Config::default();
    assert_eq!(config.scale_source(true), ScaleSource::Stored);
    assert_eq!(config.scale_source(false), ScaleSource::DisplayAndStore);
    config.save_scale = Some(false);
    assert_eq!(config.scale_source(true), ScaleSource::Display);
    assert_eq!(config.scale_source(false), ScaleSource::Display);
    config.save_scale = None;
    assert_eq!(config.scale_source(true), ScaleSource::Display);
    assert_eq!(config.scale_source(false), ScaleSource::Display);
}
