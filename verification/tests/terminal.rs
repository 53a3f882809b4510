use std::ops::{Deref, DerefMut};

use orbterm::color::TermColor;
use orbterm::config::{Config, Hex, HexError};
use orbterm::console::Terminal;
use orbterm::event::{Command, TermEvent, VtState};
use orbterm::grid::Block;
use orbterm::input::InputEvent;
use orbterm::vt::{color_into, event_from, state_from};

/// An engine beside the parser that feeds it, as the program runs them.
struct Session {
    parser: ransid::Console,
    terminal: Terminal,
}

impl Deref for Session {
    type Target = Terminal;

    fn deref(&self) -> &Terminal {
        &self.terminal
    }
}

impl DerefMut for Session {
    fn deref_mut(&mut self) -> &mut Terminal {
        &mut self.terminal
    }
}

impl Session {
    fn new(config: &Config, width: u32, height: u32, block_width: usize, block_height: usize) -> Session {
        let mut parser = ransid::Console::new(width as usize / block_width, height as usize / block_height);
        if let Ok(Some(color)) = config.background() {
            parser.state.background = color_into(color);
            parser.state.background_default = color_into(color);
        }
        let state = state_from(&parser.state);
        let terminal = Terminal::new(config, state, width, height, block_width, block_height).unwrap();
        Session { parser, terminal }
    }

    fn write(&mut self, bytes: &[u8], sync: bool) -> usize {
        let mut events = Vec::new();
        self.parser.write(bytes, |event| events.push(event_from(event)));
        self.terminal.write(&events, state_from(&self.parser.state), sync);
        bytes.len()
    }

    fn input(&mut self, event: InputEvent) {
        let cells = (self.terminal.grid.width, self.terminal.grid.height);
        self.terminal.input(event);
        if (self.terminal.grid.width, self.terminal.grid.height) != cells {
            self.parser.resize(self.terminal.grid.width, self.terminal.grid.height);
        }
    }
}

fn start() -> VtState {
    VtState { x: 0, y: 0, cursor: true, mouse_rxvt: false, mouse_btn: false }
}

fn terminal() -> Session {
    let mut session = Session::new(&Config::default(), 640, 384, 8, 16);
    session.take_commands();
    session
}

fn count_syncs(commands: &[Command]) -> usize {
    commands.iter().filter(|command| **command == Command::Sync).count()
}

fn press(terminal: &mut Session, character: char, scancode: u8) {
    terminal.input(InputEvent::Key { character, scancode, pressed: true });
    terminal.input(InputEvent::Key { character, scancode, pressed: false });
}

fn text_row(terminal: &Terminal, y: usize) -> String {
    (0..terminal.grid.width)
        .map(|x| terminal.grid.get(x, y).unwrap().c)
        .filter(|c| *c != '\0')
        .collect()
}

#[test]
fn a_new_terminal_has_a_blank_grid_that_fits_the_window() {
    let mut terminal = Session::new(&Config::default(), 640, 384, 8, 16);
    assert_eq!(terminal.grid.width, 80);
    assert_eq!(terminal.grid.height, 24);
    let blank = Block { c: '\0', fg: 0xFFC0C0C0, bg: 0xFF000000, bold: false };
    assert_eq!(terminal.grid.blank, blank);
    for y in 0..24 {
        for x in 0..80 {
            assert_eq!(terminal.grid.get(x, y), Some(blank));
        }
    }
    assert!(!terminal.grid.has_dirty());
    assert_eq!(terminal.block.get(), (8, 16));
    assert_eq!(terminal.take_commands(), vec![Command::Clear { color: 0xFF000000 }, Command::Sync]);
    assert_eq!(terminal.take_input(), Vec::<u8>::new());
    let small = Session::new(&Config::default(), 647, 399, 12, 24);
    assert_eq!((small.grid.width, small.grid.height), (53, 16));
}

#[test]
fn the_theme_background_comes_from_the_settings() {
    let mut config = Config::default();
    config.background_color = Some(Hex::new("#102030".to_string()));
    let mut terminal = Session::new(&config, 80, 32, 8, 16);
    assert_eq!(terminal.grid.blank.bg, 0xFF102030);
    assert_eq!(terminal.grid.get(0, 0).unwrap().bg, 0xFF102030);
    assert_eq!(terminal.take_commands()[0], Command::Clear { color: 0xFF102030 });
    terminal.write(b"x\x1B[2J", true);
    for y in 0..2 {
        for x in 0..10 {
            assert_eq!(terminal.grid.get(x, y).unwrap(), Block { c: '\0', fg: 0xFFC0C0C0, bg: 0xFF102030, bold: false });
        }
    }
}

#[test]
fn a_background_that_is_no_color_is_an_error() {
    let mut config = Config::default();
    config.background_color = Some(Hex::new("#12345".to_string()));
    assert_eq!(Terminal::new(&config, start(), 640, 384, 8, 16).err(), Some(HexError::OddLength));
    config.background_color = Some(Hex::new("blue".to_string()));
    assert_eq!(Terminal::new(&config, start(), 640, 384, 8, 16).err(), Some(HexError::InvalidDigit));
    config.background_color = Some(Hex::new("#ff".to_string()));
    assert_eq!(Terminal::new(&config, start(), 640, 384, 8, 16).err(), Some(HexError::TooShort));
}

#[test]
fn hello_end_to_end() {
    let mut terminal = terminal();
    assert_eq!(terminal.write(b"Hello", false), 5);
    let expected = ['H', 'e', 'l', 'l', 'o'];
    for (x, c) in expected.iter().enumerate() {
        let cell = terminal.grid.get(x, 0).unwrap();
        assert_eq!(cell.c, *c);
        assert_eq!(cell.fg, 0xFFC0C0C0);
        assert_eq!(cell.bg, 0xFF000000);
        assert!(!cell.bold);
    }
    assert_eq!(terminal.grid.get(5, 0).unwrap().c, '\0');
    assert!(terminal.grid.is_dirty(0));
    assert!(!terminal.grid.is_dirty(1));
    terminal.sync();
    assert!(!terminal.grid.has_dirty());
    assert_eq!(count_syncs(&terminal.take_commands()), 1);
}

#[test]
fn a_write_queues_its_commands_in_order() {
    let mut terminal = terminal();
    terminal.write(b"A", true);
    assert_eq!(
        terminal.take_commands(),
        vec![
            Command::Invert { x: 0, y: 0, w: 8, h: 16 },
            Command::Rect { x: 0, y: 0, w: 8, h: 16, color: 0xFF000000 },
            Command::Glyph { x: 0, y: 0, c: 'A', bold: false, color: 0xFFC0C0C0, size: 16 },
            Command::Invert { x: 8, y: 0, w: 8, h: 16 },
            Command::Sync,
        ]
    );
    terminal.write(b"\r\nB", false);
    assert_eq!(
        terminal.take_commands(),
        vec![
            Command::Invert { x: 8, y: 0, w: 8, h: 16 },
            Command::Rect { x: 0, y: 16, w: 8, h: 16, color: 0xFF000000 },
            Command::Glyph { x: 0, y: 16, c: 'B', bold: false, color: 0xFFC0C0C0, size: 16 },
            Command::Invert { x: 8, y: 16, w: 8, h: 16 },
        ]
    );
    assert!(terminal.grid.is_dirty(0));
    assert!(terminal.grid.is_dirty(1));
}

#[test]
fn bold_and_color_reach_the_grid() {
    let mut terminal = terminal();
    terminal.write(b"\x1B[1;31mR\x1B[0m\x1B[38;2;1;2;3mT", true);
    let cell = terminal.grid.get(0, 0).unwrap();
    assert_eq!((cell.c, cell.fg, cell.bold), ('R', 0xFF800000, true));
    let cell = terminal.grid.get(1, 0).unwrap();
    assert_eq!((cell.c, cell.fg, cell.bold), ('T', 0xFF010203, false));
}

#[test]
fn a_hidden_cursor_is_not_inverted() {
    let mut terminal = terminal();
    terminal.write(b"\x1B[?25l", true);
    terminal.take_commands();
    terminal.write(b"A", false);
    assert_eq!(
        terminal.take_commands(),
        vec![
            Command::Rect { x: 0, y: 0, w: 8, h: 16, color: 0xFF000000 },
            Command::Glyph { x: 0, y: 0, c: 'A', bold: false, color: 0xFFC0C0C0, size: 16 },
        ]
    );
}

#[test]
fn writing_a_row_twice_then_syncing_syncs_once() {
    let mut terminal = terminal();
    let color = TermColor::Ansi(2);
    terminal.apply(&TermEvent::Char { x: 3, y: 5, c: 'a', bold: false, color });
    terminal.apply(&TermEvent::Char { x: 4, y: 5, c: 'b', bold: false, color });
    assert!(terminal.grid.is_dirty(5));
    assert_eq!(terminal.grid.changed.rows.len(), 1);
    terminal.sync();
    assert_eq!(count_syncs(&terminal.take_commands()), 1);
    assert!(!terminal.grid.has_dirty());
    terminal.sync();
    assert_eq!(terminal.take_commands(), vec![]);
}

#[test]
fn redraw_syncs_even_when_nothing_waits() {
    let mut terminal = terminal();
    terminal.redraw();
    assert_eq!(terminal.take_commands(), vec![Command::Sync]);
    terminal.apply(&TermEvent::Char { x: 0, y: 0, c: 'a', bold: false, color: TermColor::Ansi(2) });
    terminal.redraw();
    assert!(!terminal.grid.has_dirty());
}

#[test]
fn a_char_event_is_read_back_from_the_grid() {
    let mut terminal = terminal();
    let color = TermColor::TrueColor(9, 8, 7);
    terminal.apply(&TermEvent::Char { x: 79, y: 23, c: 'ß', bold: true, color });
    let cell = terminal.grid.get(79, 23).unwrap();
    assert_eq!((cell.c, cell.fg, cell.bold), ('ß', 0xFF090807, true));
    assert_eq!(
        terminal.take_commands(),
        vec![Command::Glyph { x: 632, y: 368, c: 'ß', bold: true, color: 0xFF090807, size: 16 }]
    );
}

#[test]
fn a_char_event_outside_the_grid_is_passed_over() {
    let mut terminal = terminal();
    let color = TermColor::Ansi(1);
    terminal.apply(&TermEvent::Char { x: 80, y: 0, c: 'a', bold: false, color });
    terminal.apply(&TermEvent::Char { x: 0, y: 24, c: 'a', bold: false, color });
    terminal.apply(&TermEvent::Char { x: usize::MAX, y: usize::MAX, c: 'a', bold: false, color });
    assert_eq!(terminal.take_commands(), vec![]);
    assert!(!terminal.grid.has_dirty());
}

#[test]
fn a_rect_event_is_cut_to_the_grid() {
    let mut terminal = terminal();
    let color = TermColor::Ansi(4);
    terminal.apply(&TermEvent::Rect { x: 70, y: 20, w: 100, h: 100, color });
    assert_eq!(
        terminal.take_commands(),
        vec![Command::Rect { x: 560, y: 320, w: 80, h: 64, color: 0xFF000080 }]
    );
    assert_eq!(terminal.grid.get(70, 20).unwrap().bg, 0xFF000080);
    assert_eq!(terminal.grid.get(69, 20).unwrap().bg, 0xFF000000);
    terminal.apply(&TermEvent::Rect { x: usize::MAX, y: 5, w: usize::MAX, h: usize::MAX, color });
    assert_eq!(
        terminal.take_commands(),
        vec![Command::Rect { x: 640, y: 80, w: 0, h: 304, color: 0xFF000080 }]
    );
}

#[test]
fn a_move_event_moves_cells_and_pixels() {
    let mut terminal = terminal();
    terminal.write(b"one\r\ntwo\r\nthree", true);
    terminal.take_commands();
    terminal.apply(&TermEvent::Move { from_x: 0, from_y: 1, to_x: 0, to_y: 0, w: 80, h: 23 });
    assert_eq!(text_row(&terminal, 0), "two");
    assert_eq!(text_row(&terminal, 1), "three");
    assert_eq!(text_row(&terminal, 2), "");
    assert_eq!(
        terminal.take_commands(),
        vec![Command::Move { from_x: 0, from_y: 16, to_x: 0, to_y: 0, w: 640, h: 368 }]
    );
    terminal.apply(&TermEvent::Move { from_x: 0, from_y: 1, to_x: 0, to_y: 0, w: 80, h: 1000 });
    assert_eq!(text_row(&terminal, 0), "three");
    assert_eq!(
        terminal.take_commands(),
        vec![Command::Move { from_x: 0, from_y: 16, to_x: 0, to_y: 0, w: 640, h: 368 }]
    );
    terminal.apply(&TermEvent::Move { from_x: 1, from_y: 0, to_x: 0, to_y: 0, w: 80, h: 1 });
    assert_eq!(text_row(&terminal, 0), "three");
    assert_eq!(terminal.take_commands(), vec![]);
}

#[test]
fn output_that_fills_the_screen_scrolls_it() {
    let mut terminal = terminal();
    for line in 0..24 {
        terminal.write(format!("line{}\r\n", line).as_bytes(), false);
    }
    assert_eq!(text_row(&terminal, 0), "line1");
    assert_eq!(text_row(&terminal, 22), "line23");
    assert_eq!(text_row(&terminal, 23), "");
    let moves = terminal
        .take_commands()
        .into_iter()
        .filter(|command| matches!(command, Command::Move { .. }))
        .count();
    assert_eq!(moves, 1);
}

#[test]
fn switching_buffers_twice_restores_the_screen() {
    let mut terminal = terminal();
    terminal.write(b"kept", true);
    let shown = terminal.grid.grid.clone();
    terminal.take_commands();
    terminal.write(b"\x1B[?1049h", true);
    assert!(terminal.grid.alternate);
    assert_eq!(terminal.grid.get(0, 0).unwrap().c, '\0');
    let commands = terminal.take_commands();
    assert_eq!(commands[1], Command::Clear { color: 0xFF000000 });
    assert_eq!(commands.len(), 1 + 1 + 80 * 24 + 1 + 1);
    terminal.write(b"other", true);
    terminal.write(b"\x1B[?1049l", true);
    assert!(!terminal.grid.alternate);
    assert_eq!(terminal.grid.grid, shown);
    assert_eq!(text_row(&terminal, 0), "kept");
}

#[test]
fn a_repaint_draws_every_cell_and_its_character() {
    let mut terminal = Session::new(&Config::default(), 16, 32, 8, 16);
    terminal.apply(&TermEvent::Char { x: 1, y: 0, c: 'a', bold: true, color: TermColor::Ansi(9) });
    terminal.take_commands();
    terminal.apply(&TermEvent::ScreenBuffer { alternate: true, clear: false });
    terminal.apply(&TermEvent::ScreenBuffer { alternate: true, clear: false });
    assert_eq!(
        terminal.take_commands(),
        vec![
            Command::Clear { color: 0xFF000000 },
            Command::Rect { x: 0, y: 0, w: 8, h: 16, color: 0xFF000000 },
            Command::Rect { x: 8, y: 0, w: 8, h: 16, color: 0xFF000000 },
            Command::Rect { x: 0, y: 16, w: 8, h: 16, color: 0xFF000000 },
            Command::Rect { x: 8, y: 16, w: 8, h: 16, color: 0xFF000000 },
        ]
    );
    terminal.apply(&TermEvent::ScreenBuffer { alternate: false, clear: false });
    assert_eq!(
        terminal.take_commands(),
        vec![
            Command::Clear { color: 0xFF000000 },
            Command::Rect { x: 0, y: 0, w: 8, h: 16, color: 0xFF000000 },
            Command::Rect { x: 8, y: 0, w: 8, h: 16, color: 0xFF000000 },
            Command::Glyph { x: 8, y: 0, c: 'a', bold: true, color: 0xFFFF0000, size: 16 },
            Command::Rect { x: 0, y: 16, w: 8, h: 16, color: 0xFF000000 },
            Command::Rect { x: 8, y: 16, w: 8, h: 16, color: 0xFF000000 },
        ]
    );
    assert!(terminal.grid.is_dirty(0) && terminal.grid.is_dirty(1));
}

#[test]
fn title_resize_and_input_events_are_passed_on() {
    let mut terminal = terminal();
    terminal.write(b"\x1B]0;shell\x07", false);
    terminal.write(b"\x1B[6n", false);
    let commands = terminal.take_commands();
    assert!(commands.contains(&Command::Title { title: "shell".to_string() }));
    assert_eq!(terminal.take_input(), b"\x1B[1;1R");
    assert_eq!(terminal.take_input(), Vec::<u8>::new());
    terminal.apply(&TermEvent::Resize { w: 132, h: 24 });
    terminal.apply(&TermEvent::Resize { w: usize::MAX, h: usize::MAX });
    terminal.apply(&TermEvent::Input { data: vec![1, 2, 3] });
    assert_eq!(
        terminal.take_commands(),
        vec![
            Command::Resize { width: 1056, height: 384 },
            Command::Resize { width: 65535 * 8, height: 65535 * 16 },
        ]
    );
    assert_eq!(terminal.take_input(), vec![1, 2, 3]);
    assert_eq!((terminal.grid.width, terminal.grid.height), (80, 24));
}

#[test]
fn a_resize_keeps_what_fits_and_drops_the_selection() {
    let mut terminal = terminal();
    terminal.write(b"0123456789", true);
    terminal.input(InputEvent::Mouse { x: 0, y: 0 });
    terminal.input(InputEvent::Button { left: true, middle: false, right: false });
    terminal.input(InputEvent::Mouse { x: 40, y: 0 });
    assert_eq!(terminal.selection_text(), "01234");
    terminal.take_commands();
    terminal.resize(5, 2);
    assert_eq!((terminal.grid.width, terminal.grid.height), (5, 2));
    assert_eq!(text_row(&terminal, 0), "01234");
    assert_eq!(text_row(&terminal, 1), "");
    assert_eq!(terminal.selection.selection, None);
    assert_eq!(terminal.selection.shown, None);
    assert_eq!(terminal.selection_text(), "");
    assert!(terminal.grid.is_dirty(0) && terminal.grid.is_dirty(1));
    let commands = terminal.take_commands();
    assert_eq!(commands[0], Command::Clear { color: 0xFF000000 });
    assert_eq!(commands.len(), 1 + 10 + 5);
    terminal.resize(8, 3);
    assert_eq!(text_row(&terminal, 0), "01234");
    assert_eq!(terminal.grid.get(7, 2), Some(terminal.grid.blank));
}

#[test]
fn a_resized_window_gives_the_grid_the_size_that_fits() {
    let mut terminal = terminal();
    terminal.input(InputEvent::Resize { width: 800, height: 480 });
    assert_eq!((terminal.grid.width, terminal.grid.height), (100, 30));
    assert_eq!((terminal.window_width, terminal.window_height), (800, 480));
    assert!(!terminal.grid.has_dirty());
    assert_eq!(count_syncs(&terminal.take_commands()), 1);
    let long = vec![b'x'; 90];
    terminal.write(&long, true);
    assert_eq!(text_row(&terminal, 0).len(), 90);
    assert_eq!(text_row(&terminal, 1), "");
    terminal.input(InputEvent::Resize { width: u32::MAX, height: 3 });
    assert_eq!((terminal.grid.width, terminal.grid.height), (65535, 0));
}

#[test]
fn zoom_keys_change_the_cell_size_and_the_grid() {
    let mut terminal = terminal();
    terminal.input(InputEvent::Key { character: '\0', scancode: 0x1D, pressed: true });
    press(&mut terminal, '=', 0x0D);
    assert_eq!(terminal.block.get(), (9, 18));
    assert_eq!((terminal.grid.width, terminal.grid.height), (71, 21));
    let commands = terminal.take_commands();
    assert_eq!(commands[0], Command::SaveScale { block_width: 9 });
    assert_eq!(commands[1], Command::Clear { color: 0xFF000000 });
    assert_eq!(commands[2], Command::Rect { x: 0, y: 0, w: 9, h: 18, color: 0xFF000000 });
    assert_eq!(commands[commands.len() - 1], Command::Sync);
    press(&mut terminal, '-', 0x0C);
    press(&mut terminal, '-', 0x0C);
    assert_eq!(terminal.block.get(), (7, 14));
    assert_eq!((terminal.grid.width, terminal.grid.height), (91, 27));
    press(&mut terminal, '0', 0x0B);
    assert_eq!(terminal.block.get(), (8, 16));
    assert_eq!((terminal.grid.width, terminal.grid.height), (80, 24));
    assert_eq!(terminal.take_input(), Vec::<u8>::new());
    terminal.input(InputEvent::Key { character: '\0', scancode: 0x1D, pressed: false });
    press(&mut terminal, '=', 0x0D);
    assert_eq!(terminal.block.get(), (8, 16));
    assert_eq!(terminal.take_input(), b"=");
}

#[test]
fn keys_are_sent_to_the_child() {
    let mut terminal = terminal();
    press(&mut terminal, 'l', 0x26);
    press(&mut terminal, 's', 0x1F);
    press(&mut terminal, '\0', 0x48);
    terminal.input(InputEvent::Key { character: '\0', scancode: 0x1D, pressed: true });
    press(&mut terminal, 'c', 0x2E);
    press(&mut terminal, '1', 0x02);
    terminal.input(InputEvent::Key { character: '\0', scancode: 0x1D, pressed: false });
    press(&mut terminal, 'é', 0x10);
    assert_eq!(terminal.take_input(), b"ls\x1B[A\x03\xC3\xA9");
    assert_eq!(terminal.take_commands(), vec![]);
}

#[test]
fn copy_and_paste_are_asked_of_the_window() {
    let mut terminal = terminal();
    terminal.input(InputEvent::Key { character: '\0', scancode: 0x1D, pressed: true });
    terminal.input(InputEvent::Key { character: '\0', scancode: 0x2A, pressed: true });
    press(&mut terminal, 'C', 0x2E);
    press(&mut terminal, 'V', 0x2F);
    assert_eq!(terminal.take_commands(), vec![Command::Copy, Command::Paste]);
    assert_eq!(terminal.take_input(), Vec::<u8>::new());
    terminal.input(InputEvent::Key { character: '\0', scancode: 0x2A, pressed: false });
    press(&mut terminal, 'c', 0x2E);
    assert_eq!(terminal.take_input(), vec![3]);
    terminal.paste("echo é");
    assert_eq!(terminal.take_input(), "echo é".as_bytes());
}

#[test]
fn a_drag_selects_text_and_highlights_it() {
    let mut terminal = terminal();
    terminal.write(b"ABCDEFG", true);
    terminal.take_commands();
    terminal.input(InputEvent::Mouse { x: 24, y: 3 });
    assert_eq!((terminal.mouse_x, terminal.mouse_y), (4, 1));
    terminal.input(InputEvent::Button { left: true, middle: false, right: false });
    assert_eq!(terminal.selection.selection, Some((3, 3)));
    assert_eq!(terminal.take_commands(), vec![]);
    terminal.input(InputEvent::Mouse { x: 57, y: 15 });
    assert_eq!(terminal.selection.selection, Some((3, 7)));
    assert_eq!(terminal.selection.shown, Some((3, 7)));
    assert_eq!(terminal.selection_text(), "DEFG");
    assert_eq!(
        terminal.take_commands(),
        vec![
            Command::Invert { x: 24, y: 0, w: 8, h: 16 },
            Command::Invert { x: 32, y: 0, w: 8, h: 16 },
            Command::Invert { x: 40, y: 0, w: 8, h: 16 },
            Command::Invert { x: 48, y: 0, w: 8, h: 16 },
        ]
    );
    terminal.input(InputEvent::Mouse { x: 8, y: 0 });
    assert_eq!(terminal.selection.selection, Some((3, 1)));
    assert_eq!(terminal.selection_text(), "BC");
    assert_eq!(
        terminal.take_commands(),
        vec![
            Command::Invert { x: 24, y: 0, w: 8, h: 16 },
            Command::Invert { x: 32, y: 0, w: 8, h: 16 },
            Command::Invert { x: 40, y: 0, w: 8, h: 16 },
            Command::Invert { x: 48, y: 0, w: 8, h: 16 },
            Command::Invert { x: 8, y: 0, w: 8, h: 16 },
            Command::Invert { x: 16, y: 0, w: 8, h: 16 },
        ]
    );
    terminal.input(InputEvent::Button { left: false, middle: false, right: false });
    assert_eq!(terminal.selection_text(), "BC");
    assert_eq!(terminal.grid.get(1, 0).unwrap(), Block { c: 'B', fg: 0xFFC0C0C0, bg: 0xFF000000, bold: false });
    assert_eq!(terminal.take_input(), Vec::<u8>::new());
}

#[test]
fn a_click_without_a_drag_drops_the_selection() {
    let mut terminal = terminal();
    terminal.write(b"ABCDEFG", true);
    terminal.input(InputEvent::Mouse { x: 0, y: 0 });
    terminal.input(InputEvent::Button { left: true, middle: false, right: false });
    terminal.input(InputEvent::Mouse { x: 16, y: 0 });
    terminal.input(InputEvent::Button { left: false, middle: false, right: false });
    assert_eq!(terminal.selection_text(), "AB");
    terminal.take_commands();
    terminal.input(InputEvent::Button { left: true, middle: false, right: false });
    terminal.input(InputEvent::Button { left: false, middle: false, right: false });
    assert_eq!(terminal.selection.selection, None);
    assert_eq!(terminal.selection.shown, None);
    assert_eq!(terminal.selection_text(), "");
    assert_eq!(
        terminal.take_commands(),
        vec![
            Command::Invert { x: 0, y: 0, w: 8, h: 16 },
            Command::Invert { x: 8, y: 0, w: 8, h: 16 },
            Command::Invert { x: 0, y: 0, w: 8, h: 16 },
            Command::Invert { x: 8, y: 0, w: 8, h: 16 },
            Command::Invert { x: 0, y: 0, w: 8, h: 16 },
            Command::Invert { x: 8, y: 0, w: 8, h: 16 },
        ]
    );
}

#[test]
fn the_mouse_is_reported_when_the_child_asks_for_it() {
    let mut terminal = terminal();
    terminal.write(b"\x1B[?1015h", true);
    terminal.input(InputEvent::Mouse { x: 16, y: 32 });
    terminal.input(InputEvent::Button { left: true, middle: false, right: false });
    terminal.input(InputEvent::Button { left: true, middle: false, right: false });
    terminal.input(InputEvent::Mouse { x: 24, y: 32 });
    terminal.input(InputEvent::Scroll { x: 0, y: 1 });
    terminal.input(InputEvent::Scroll { x: 0, y: -1 });
    terminal.input(InputEvent::Scroll { x: 5, y: 0 });
    terminal.input(InputEvent::Button { left: false, middle: false, right: false });
    assert_eq!(terminal.take_input(), b"\x1B[<0;3;3M\x1B[<64;4;3M\x1B[<65;4;3M\x1B[<0;4;3m");
    assert_eq!(terminal.selection.selection, None);
    terminal.write(b"\x1B[?1002h", true);
    terminal.input(InputEvent::Button { left: true, middle: false, right: false });
    terminal.input(InputEvent::Mouse { x: 0, y: 0 });
    terminal.input(InputEvent::Mouse { x: 1, y: 1 });
    assert_eq!(terminal.take_input(), b"\x1B[<0;4;3M\x1B[<32;4;3M");
    terminal.write(b"\x1B[?1015l", true);
    terminal.input(InputEvent::Scroll { x: 0, y: 1 });
    assert_eq!(terminal.take_input(), Vec::<u8>::new());
}

#[test]
fn a_pointer_left_of_the_window_counts_as_on_its_edge() {
    let mut terminal = terminal();
    terminal.input(InputEvent::Mouse { x: -5, y: -1 });
    assert_eq!((terminal.mouse_x, terminal.mouse_y), (1, 1));
    terminal.input(InputEvent::Mouse { x: i32::MAX, y: i32::MIN });
    assert_eq!((terminal.mouse_x, terminal.mouse_y), ((i32::MAX / 8 + 1) as u16, 1));
    terminal.input(InputEvent::Other);
    assert_eq!(terminal.take_commands(), vec![]);
}

#[test]
fn invert_queues_the_rectangle() {
    let mut terminal = terminal();
    terminal.invert(1, 2, 3, 4);
    assert_eq!(terminal.take_commands(), vec![Command::Invert { x: 1, y: 2, w: 3, h: 4 }]);
    assert!(!terminal.grid.has_dirty());
}

#[test]
fn apply_all_applies_in_order() {
    let mut terminal = terminal();
    let color = TermColor::Ansi(7);
    let events = vec![
        TermEvent::Char { x: 0, y: 0, c: 'a', bold: false, color },
        TermEvent::Rect { x: 0, y: 0, w: 1, h: 1, color: TermColor::Ansi(1) },
        TermEvent::Char { x: 0, y: 0, c: 'b', bold: false, color },
        TermEvent::Title { title: "t".to_string() },
    ];
    terminal.apply_all(&events);
    assert_eq!(terminal.grid.get(0, 0).unwrap(), Block { c: 'b', fg: 0xFFC0C0C0, bg: 0xFF800000, bold: false });
    assert_eq!(terminal.take_commands().len(), 4);
}

#[test]
fn events_with_places_far_outside_the_grid_are_survived() {
    let mut terminal = terminal();
    terminal.write(b"abc", true);
    let before = terminal.grid.grid.clone();
    let color = TermColor::Ansi(0);
    let wild = vec![
        TermEvent::Move { from_x: 0, from_y: 100, to_x: 0, to_y: 0, w: 80, h: usize::MAX - 75 },
        TermEvent::Move { from_x: usize::MAX, from_y: 0, to_x: 0, to_y: usize::MAX, w: usize::MAX, h: 1 },
        TermEvent::Rect { x: 0, y: usize::MAX - 75, w: 80, h: 100, color },
        TermEvent::Char { x: usize::MAX, y: 0, c: 'x', bold: false, color },
    ];
    let state = terminal.state;
    terminal.terminal.write(&wild, state, true);
    assert_eq!((terminal.grid.width, terminal.grid.height), (80, 24));
    assert_eq!(terminal.grid.grid, before);
    assert!(!terminal.grid.has_dirty());
}

#[test]
fn a_write_takes_the_state_it_is_given() {
    let mut terminal = Terminal::new(&Config::default(), start(), 640, 384, 8, 16).unwrap();
    terminal.take_commands();
    let after = VtState { x: 3, y: 2, cursor: true, mouse_rxvt: true, mouse_btn: false };
    terminal.write(&vec![], after, false);
    assert_eq!(terminal.state, after);
    assert_eq!(
        terminal.take_commands(),
        vec![
            Command::Invert { x: 0, y: 0, w: 8, h: 16 },
            Command::Invert { x: 24, y: 32, w: 8, h: 16 },
        ]
    );
    assert!(terminal.grid.is_dirty(0) && terminal.grid.is_dirty(2));
    let gone = VtState { x: 80, y: 2, cursor: true, mouse_rxvt: true, mouse_btn: false };
    terminal.write(&vec![], gone, true);
    assert_eq!(
        terminal.take_commands(),
        vec![Command::Invert { x: 24, y: 32, w: 8, h: 16 }, Command::Sync]
    );
}
