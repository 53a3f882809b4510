//! The settings of the terminal, and colors written as hexadecimal text.

use crate::color::TermColor;
use vstd::prelude::*;
use vstd::string::StringSliceAdditionalSpecFns;

verus! {

/// Why a text is no color.
#[derive(Clone, Copy, Debug, PartialEq, Eq, Structural)]
pub enum HexError {
    /// A pair of characters is no byte in hexadecimal.
    InvalidDigit,
    /// The text has an odd number of bytes.
    OddLength,
    /// The text has fewer than three bytes in hexadecimal.
    TooShort,
}

/// The value of a hexadecimal digit, if `byte` is one.
pub open spec fn digit_value(byte: u8) -> Option<u8> {
    if 0x30 <= byte <= 0x39 {
        Some((byte - 0x30) as u8)
    } else if 0x61 <= byte <= 0x66 {
        Some((byte - 0x61 + 10) as u8)
    } else if 0x41 <= byte <= 0x46 {
        Some((byte - 0x41 + 10) as u8)
    } else {
        None
    }
}

/// The byte that two characters stand for, read as `u8::from_str_radix`
/// reads a text of two characters in base 16: two hexadecimal digits, or a
/// plus sign and one hexadecimal digit.
pub open spec fn pair_value(high: u8, low: u8) -> Option<u8> {
    if high == 0x2B {
        digit_value(low)
    } else {
        match (digit_value(high), digit_value(low)) {
            (Some(h), Some(l)) => Some((16 * h + l) as u8),
            _ => None,
        }
    }
}

/// The bytes that a hexadecimal text stands for, pair by pair from the
/// left. The first pair that stands for no byte, or a last character without
/// a partner, makes the whole text an error.
pub open spec fn decoded(text: Seq<u8>) -> Result<Seq<u8>, HexError>
    decreases text.len(),
{
    if text.len() == 0 {
        Ok(Seq::empty())
    } else if text.len() == 1 {
        Err(HexError::OddLength)
    } else {
        match pair_value(text[0], text[1]) {
            None => Err(HexError::InvalidDigit),
            Some(byte) => match decoded(text.skip(2)) {
                Ok(rest) => Ok(seq![byte] + rest),
                Err(error) => Err(error),
            },
        }
    }
}

/// `text` without the `#` signs it begins with.
pub open spec fn without_hashes(text: Seq<u8>) -> Seq<u8>
    decreases text.len(),
{
    if text.len() > 0 && text[0] == 0x23 {
        without_hashes(text.skip(1))
    } else {
        text
    }
}

/// The color that a text stands for: its first three bytes in hexadecimal,
/// after any `#` signs, are red, green and blue.
pub open spec fn color_of_text(text: Seq<u8>) -> Result<TermColor, HexError> {
    match decoded(without_hashes(text)) {
        Ok(bytes) => if bytes.len() < 3 {
            Err(HexError::TooShort)
        } else {
            Ok(TermColor::TrueColor(bytes[0], bytes[1], bytes[2]))
        },
        Err(error) => Err(error),
    }
}

/// The hexadecimal digit of a value below 16, in lower case.
pub open spec fn digit_char(value: int) -> char {
    if value == 0 {
        '0'
    } else if value == 1 {
        '1'
    } else if value == 2 {
        '2'
    } else if value == 3 {
        '3'
    } else if value == 4 {
        '4'
    } else if value == 5 {
        '5'
    } else if value == 6 {
        '6'
    } else if value == 7 {
        '7'
    } else if value == 8 {
        '8'
    } else if value == 9 {
        '9'
    } else if value == 10 {
        'a'
    } else if value == 11 {
        'b'
    } else if value == 12 {
        'c'
    } else if value == 13 {
        'd'
    } else if value == 14 {
        'e'
    } else {
        'f'
    }
}

/// A color as text: `#` and two hexadecimal digits each for red, green and
/// blue.
pub open spec fn hex_text(r: u8, g: u8, b: u8) -> Seq<char> {
    seq![
        '#',
        digit_char(r as int / 16),
        digit_char(r as int % 16),
        digit_char(g as int / 16),
        digit_char(g as int % 16),
        digit_char(b as int / 16),
        digit_char(b as int % 16),
    ]
}

/// The value of a hexadecimal digit, if `byte` is one.
fn hex_digit(byte: u8) -> (value: Option<u8>)
    ensures
        value == digit_value(byte),
{
    if 0x30 <= byte && byte <= 0x39 {
        Some(byte - 0x30)
    } else if 0x61 <= byte && byte <= 0x66 {
        Some(byte - 0x61 + 10)
    } else if 0x41 <= byte && byte <= 0x46 {
        Some(byte - 0x41 + 10)
    } else {
        None
    }
}

/// The byte that two characters stand for.
fn hex_pair(high: u8, low: u8) -> (value: Option<u8>)
    ensures
        value == pair_value(high, low),
{
    if high == 0x2B {
        hex_digit(low)
    } else {
        match (hex_digit(high), hex_digit(low)) {
            (Some(h), Some(l)) => Some(16 * h + l),
            _ => None,
        }
    }
}

/// The bytes that `text` stands for from the place `start` on.
fn decode_from(text: &[u8], start: usize) -> (bytes: Result<Vec<u8>, HexError>)
    requires
        start <= text@.len(),
    ensures
        match bytes {
            Ok(out) => decoded(text@.skip(start as int)) == Ok::<Seq<u8>, HexError>(out@),
            Err(error) => decoded(text@.skip(start as int)) == Err::<Seq<u8>, HexError>(error),
        },
{
    let mut out: Vec<u8> = Vec::new();
    let mut i: usize = start;
    let len: usize = text.len();
    assert(text@.skip(start as int) =~= text@.skip(i as int));
    while i < len
        invariant
            start <= i <= len,
            len == text@.len(),
            decoded(text@.skip(start as int)) == match decoded(text@.skip(i as int)) {
                Ok(rest) => Ok::<Seq<u8>, HexError>(out@ + rest),
                Err(error) => Err(error),
            },
        decreases len - i,
    {
        let ghost here = text@.skip(i as int);
        if len - i < 2 {
            assert(here.len() == 1);
            return Err(HexError::OddLength);
        }
        assert(here[0] == text@[i as int] && here[1] == text@[i + 1]);
        assert(here.skip(2) =~= text@.skip(i + 2));
        match hex_pair(text[i], text[i + 1]) {
            None => {
                return Err(HexError::InvalidDigit);
            },
            Some(byte) => {
                proof {
                    match decoded(text@.skip(i + 2)) {
                        Ok(rest) => {
                            assert(out@ + (seq![byte] + rest) =~= out@.push(byte) + rest);
                        },
                        Err(_) => {},
                    }
                }
                out.push(byte);
            },
        }
        i = i + 2;
    }
    proof {
        assert(text@.skip(i as int).len() == 0);
        assert(out@ + Seq::<u8>::empty() =~= out@);
    }
    Ok(out)
}

/// The bytes that a hexadecimal text stands for, as [`decoded`] tells of the
/// bytes of `s`.
pub fn decode_hex(s: &str) -> (bytes: Result<Vec<u8>, HexError>)
    ensures
        match bytes {
            Ok(out) => decoded(s.spec_bytes()) == Ok::<Seq<u8>, HexError>(out@),
            Err(error) => decoded(s.spec_bytes()) == Err::<Seq<u8>, HexError>(error),
        },
{
    let text = s.as_bytes();
    assert(text@.skip(0) =~= text@);
    decode_from(text, 0)
}

/// The text of one hexadecimal digit.
fn digit_text(value: u8) -> (text: &'static str)
    requires
        value < 16,
    ensures
        text@ == seq![digit_char(value as int)],
{
    proof {
        reveal_strlit("0");
        reveal_strlit("1");
        reveal_strlit("2");
        reveal_strlit("3");
        reveal_strlit("4");
        reveal_strlit("5");
        reveal_strlit("6");
        reveal_strlit("7");
        reveal_strlit("8");
        reveal_strlit("9");
        reveal_strlit("a");
        reveal_strlit("b");
        reveal_strlit("c");
        reveal_strlit("d");
        reveal_strlit("e");
        reveal_strlit("f");
    }
    let text = if value == 0 {
        "0"
    } else if value == 1 {
        "1"
    } else if value == 2 {
        "2"
    } else if value == 3 {
        "3"
    } else if value == 4 {
        "4"
    } else if value == 5 {
        "5"
    } else if value == 6 {
        "6"
    } else if value == 7 {
        "7"
    } else if value == 8 {
        "8"
    } else if value == 9 {
        "9"
    } else if value == 10 {
        "a"
    } else if value == 11 {
        "b"
    } else if value == 12 {
        "c"
    } else if value == 13 {
        "d"
    } else if value == 14 {
        "e"
    } else {
        "f"
    };
    assert(text@ =~= seq![digit_char(value as int)]);
    text
}

/// A color written as hexadecimal text, such as `#1e90ff`.
#[derive(Clone, Debug, PartialEq, Eq)]
pub struct Hex(pub String);

impl View for Hex {
    type V = Seq<char>;

    open spec fn view(&self) -> Seq<char> {
        self.0@
    }
}

impl Hex {
    /// The text as it stands, valid or not.
    pub fn new(text: String) -> (hex: Hex)
        ensures
            hex@ == text@,
    {
        Hex(text)
    }

    /// The text.
    pub fn as_str(&self) -> (text: &str)
        ensures
            text@ == self@,
    {
        self.0.as_str()
    }

    /// The text of a color: `#` and two digits each for red, green and blue.
    /// An indexed color is written with the channels of its palette entry.
    pub fn from(value: TermColor) -> (hex: Hex)
        ensures
            hex@ == hex_text(value.channels().0, value.channels().1, value.channels().2),
    {
        let (r, g, b) = value.to_channels();
        let mut text = String::new();
        proof {
            reveal_strlit("#");
        }
        text.append("#");
        text.append(digit_text(r / 16));
        text.append(digit_text(r % 16));
        text.append(digit_text(g / 16));
        text.append(digit_text(g % 16));
        text.append(digit_text(b / 16));
        text.append(digit_text(b % 16));
        assert(text@ =~= hex_text(r, g, b));
        Hex(text)
    }

    /// The color that the text stands for, as [`color_of_text`] tells of its
    /// bytes.
    pub fn try_into(self) -> (color: Result<TermColor, HexError>)
        ensures
            color == color_of_text(vstd::utf8::encode_utf8(self@)),
    {
        self.to_color()
    }

    /// The color that the text stands for, as [`color_of_text`] tells of its
    /// bytes.
    pub fn to_color(&self) -> (color: Result<TermColor, HexError>)
        ensures
            color == color_of_text(vstd::utf8::encode_utf8(self@)),
    {
        let text = self.0.as_str().as_bytes();
        let len: usize = text.len();
        let mut start: usize = 0;
        assert(text@.skip(0) =~= text@);
        while start < len && text[start] == 0x23
            invariant
                start <= len,
                len == text@.len(),
                without_hashes(text@) == without_hashes(text@.skip(start as int)),
            decreases len - start,
        {
            assert(text@.skip(start as int).skip(1) =~= text@.skip(start + 1));
            start = start + 1;
        }
        match decode_from(text, start) {
            Ok(bytes) => {
                if bytes.len() < 3 {
                    Err(HexError::TooShort)
                } else {
                    Ok(TermColor::TrueColor(bytes[0], bytes[1], bytes[2]))
                }
            },
            Err(error) => Err(error),
        }
    }
}

/// Where the zoom of a new terminal comes from.
#[derive(Clone, Copy, Debug, PartialEq, Eq, Structural)]
pub enum ScaleSource {
    /// The zoom that was remembered is read and used.
    Stored,
    /// The zoom of the display is used and remembered.
    DisplayAndStore,
    /// The zoom of the display is used, and nothing is remembered.
    Display,
}

/// Where the zoom comes from: the remembered one where the zoom is
/// remembered and one is stored, and the display's otherwise, which is
/// stored where the zoom is remembered.
pub open spec fn scale_source_of(saves: bool, stored: bool) -> ScaleSource {
    if saves && stored {
        ScaleSource::Stored
    } else if saves {
        ScaleSource::DisplayAndStore
    } else {
        ScaleSource::Display
    }
}

/// The columns of a terminal whose settings name none.
pub const DEFAULT_COLUMNS: u32 = 80;

/// The rows of a terminal whose settings name none.
pub const DEFAULT_ROWS: u32 = 24;

/// The settings of the terminal.
#[derive(Clone, Debug, PartialEq, Eq)]
pub struct Config {
    /// The path of the regular font, if it is not the built-in one.
    pub font: Option<String>,
    /// The path of the bold font, if it is not the built-in one.
    pub font_bold: Option<String>,
    /// The background of the theme, if it is not black.
    pub background_color: Option<Hex>,
    /// Whether the zoom is remembered from one run to the next.
    pub save_scale: Option<bool>,
    /// The columns of a new terminal.
    pub columns: Option<u32>,
    /// The rows of a new terminal.
    pub rows: Option<u32>,
}

impl Default for Config {
    /// The settings of a terminal that has none: the built-in fonts and
    /// background, the usual size, and a zoom that is remembered.
    fn default() -> (config: Self)
        ensures
            config.font == None::<String>,
            config.font_bold == None::<String>,
            config.background_color == None::<Hex>,
            config.save_scale == Some(true),
            config.columns == None::<u32>,
            config.rows == None::<u32>,
    {
        Config {
            font: None,
            font_bold: None,
            background_color: None,
            save_scale: Some(true),
            columns: None,
            rows: None,
        }
    }
}

impl Config {
    /// The background of the theme: `Ok(None)` where the settings name
    /// none, and an error where they name one that is no color.
    pub open spec fn background_spec(&self) -> Result<Option<TermColor>, HexError> {
        match self.background_color {
            Some(hex) => match color_of_text(vstd::utf8::encode_utf8(hex@)) {
                Ok(color) => Ok(Some(color)),
                Err(error) => Err(error),
            },
            None => Ok(None),
        }
    }

    /// The background of the theme.
    pub fn background(&self) -> (color: Result<Option<TermColor>, HexError>)
        ensures
            color == self.background_spec(),
    {
        match &self.background_color {
            Some(hex) => match hex.to_color() {
                Ok(color) => Ok(Some(color)),
                Err(error) => Err(error),
            },
            None => Ok(None),
        }
    }

    /// The columns of a new terminal.
    pub fn initial_columns(&self) -> (columns: u32)
        ensures
            columns == match self.columns {
                Some(columns) => columns,
                None => DEFAULT_COLUMNS,
            },
    {
        match self.columns {
            Some(columns) => columns,
            None => DEFAULT_COLUMNS,
        }
    }

    /// The rows of a new terminal.
    pub fn initial_rows(&self) -> (rows: u32)
        ensures
            rows == match self.rows {
                Some(rows) => rows,
                None => DEFAULT_ROWS,
            },
    {
        match self.rows {
            Some(rows) => rows,
            None => DEFAULT_ROWS,
        }
    }

    /// Whether the zoom is remembered from one run to the next.
    pub fn saves_scale(&self) -> (saves: bool)
        ensures
            saves == (self.save_scale == Some(true)),
    {
        match self.save_scale {
            Some(saves) => saves,
            None => false,
        }
    }

    /// Where the zoom of a new terminal comes from, given whether a zoom is
    /// stored.
    pub fn scale_source(&self, stored: bool) -> (source: ScaleSource)
        ensures
            source == scale_source_of(self.save_scale == Some(true), stored),
    {
        if self.saves_scale() {
            if stored {
                ScaleSource::Stored
            } else {
                ScaleSource::DisplayAndStore
            }
        } else {
            ScaleSource::Display
        }
    }

    /// The zoom of a terminal that remembers none: one more than the number
    /// of times that 1600 pixels go into the height of the display.
    pub fn default_scale(display_height: u32) -> (scale: u32)
        ensures
            scale == display_height / 1600 + 1,
    {
        display_height / 1600 + 1
    }
}

} // verus!
