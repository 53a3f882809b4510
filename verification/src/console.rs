//! The engine as a whole: it takes the output of the child process and the
//! events of the window, keeps the grid, and queues what the window has to
//! do and what the child process has to be sent.

use crate::block_handler::{is_block_size, BlockHandler};
use crate::color::TermColor;
use crate::config::{Config, HexError};
use crate::event::{Command, TermEvent, VtState};
use crate::grid::{lesser, Block, ScreenGrid, MAX_COLUMNS, MAX_ROWS};
use crate::input::{
    key_local, mouse_mode, push_key, push_mouse_report, InputEvent, LocalAction, MouseMode,
    K_CTRL, K_LEFT_SHIFT, K_RIGHT_SHIFT,
};
use crate::model::{
    cell_commands, pixel_x, pixel_y, repaint_commands, row_commands, rows_commands, ConsoleView,
};
use crate::selection::{selected_text, SelectionTracker};
use vstd::prelude::*;

verus! {

/// The engine of one terminal.
pub struct Terminal {
    /// What was last read of the parser's state.
    pub state: VtState,
    pub grid: ScreenGrid,
    pub block: BlockHandler,
    pub selection: SelectionTracker,
    /// The cell under the pointer, counted from 1.
    pub mouse_x: u16,
    pub mouse_y: u16,
    /// Whether the left button is held down.
    pub mouse_left: bool,
    /// Whether the pointer has changed its cell since the left button went
    /// down.
    pub dragged: bool,
    pub ctrl: bool,
    pub shift: bool,
    /// The bytes that wait to be sent to the child process.
    pub input: Vec<u8>,
    /// The commands that wait to be carried out.
    pub commands: Vec<Command>,
    /// The size of the window in pixels.
    pub window_width: u32,
    pub window_height: u32,
}

impl View for Terminal {
    type V = ConsoleView;

    open spec fn view(&self) -> ConsoleView {
        ConsoleView {
            state: self.state,
            grid: self.grid@,
            block: self.block,
            selection: self.selection,
            mouse_x: self.mouse_x,
            mouse_y: self.mouse_y,
            mouse_left: self.mouse_left,
            dragged: self.dragged,
            ctrl: self.ctrl,
            shift: self.shift,
            input: self.input@,
            commands: self.commands@,
            window_width: self.window_width as int,
            window_height: self.window_height as int,
        }
    }
}

/// Appends `data` to `buf`.
fn extend_bytes(buf: &mut Vec<u8>, data: &[u8])
    ensures
        final(buf)@ == old(buf)@ + data@,
{
    let mut i: usize = 0;
    assert(buf@ =~= old(buf)@ + data@.take(0));
    while i < data.len()
        invariant
            i <= data@.len(),
            buf@ == old(buf)@ + data@.take(i as int),
        decreases data@.len() - i,
    {
        buf.push(data[i]);
        assert(buf@ =~= old(buf)@ + data@.take(i + 1));
        i = i + 1;
    }
    assert(data@.take(i as int) =~= data@);
}

/// The number of cells of `size` pixels that fit into `pixels` pixels,
/// capped at `most`.
fn cells_that_fit(pixels: u32, size: usize, most: usize) -> (cells: usize)
    requires
        size > 0,
    ensures
        cells == lesser(pixels as int / size as int, most as int),
{
    let fit: usize = pixels as usize / size;
    if fit < most {
        fit
    } else {
        most
    }
}

impl Terminal {
    /// The grid and the cell size are well formed.
    pub open spec fn wf(&self) -> bool {
        self@.wf()
    }

    /// The engine of a terminal in a window of `width` by `height` pixels,
    /// with cells of `block_width` by `block_height` pixels, beside a parser
    /// in the state `state`. The grid has as many cells as fit, all blank in
    /// the colors of the theme, whose background the settings may name. The
    /// first commands paint the window in that background. Settings that
    /// name a background which is no color give their error.
    pub fn new(
        config: &Config,
        state: VtState,
        width: u32,
        height: u32,
        block_width: usize,
        block_height: usize,
    ) -> (console: Result<Terminal, HexError>)
        requires
            is_block_size(block_width as int, block_height as int),
        ensures
            match console {
                Ok(console) => {
                    let background = match config.background_spec() {
                        Ok(Some(color)) => color,
                        _ => TermColor::Ansi(0),
                    };
                    let blank = Block {
                        c: '\0',
                        fg: TermColor::Ansi(7).rgb(),
                        bg: background.rgb(),
                        bold: false,
                    };
                    &&& config.background_spec() is Ok
                    &&& console.wf()
                    &&& console@.state == state
                    &&& console@.block == BlockHandler::new_spec(block_width, block_height)
                    &&& console@.grid.width == lesser(
                        width as int / block_width as int,
                        MAX_COLUMNS as int,
                    )
                    &&& console@.grid.height == lesser(
                        height as int / block_height as int,
                        MAX_ROWS as int,
                    )
                    &&& console@.grid.blank == blank
                    &&& console@.grid.cells == Seq::new(
                        (console@.grid.width * console@.grid.height) as nat,
                        |k: int| blank,
                    )
                    &&& console@.grid.alt_cells == console@.grid.cells
                    &&& !console@.grid.alternate
                    &&& console@.grid.dirty == Set::<usize>::empty()
                    &&& console@.selection == (SelectionTracker { selection: None, shown: None })
                    &&& console@.mouse_x == 0 && console@.mouse_y == 0
                    &&& !console@.mouse_left && !console@.dragged
                    &&& !console@.ctrl && !console@.shift
                    &&& console@.input == Seq::<u8>::empty()
                    &&& console@.commands == seq![
                        Command::Clear { color: blank.bg },
                        Command::Sync,
                    ]
                    &&& console@.window_width == width
                    &&& console@.window_height == height
                },
                Err(error) => config.background_spec() == Err::<Option<TermColor>, HexError>(error),
            },
    {
        let background = match config.background() {
            Ok(background) => background,
            Err(error) => {
                return Err(error);
            },
        };
        let block = BlockHandler::new(block_width, block_height);
        let columns = cells_that_fit(width, block_width, MAX_COLUMNS);
        let rows = cells_that_fit(height, block_height, MAX_ROWS);
        let bg = match background {
            Some(color) => color.as_rgb(),
            None => TermColor::Ansi(0).as_rgb(),
        };
        let fg = TermColor::Ansi(7).as_rgb();
        let ghost blank = Block { c: '\0', fg, bg, bold: false };
        let mut commands: Vec<Command> = Vec::new();
        commands.push(Command::Clear { color: bg });
        commands.push(Command::Sync);
        let console = Terminal {
            state,
            grid: ScreenGrid::new(columns, rows, fg, bg),
            block,
            selection: SelectionTracker::new(),
            mouse_x: 0,
            mouse_y: 0,
            mouse_left: false,
            dragged: false,
            ctrl: false,
            shift: false,
            input: Vec::new(),
            commands,
            window_width: width,
            window_height: height,
        };
        proof {
            assert(console@.commands =~= seq![Command::Clear { color: blank.bg }, Command::Sync]);
        }
        Ok(console)
    }

    /// The pixel at the top left corner of the cell `(x, y)`.
    fn pixel(&self, x: usize, y: usize) -> (pixel: (usize, usize))
        requires
            self.block.wf(),
            x <= MAX_COLUMNS,
            y <= MAX_ROWS,
        ensures
            pixel.0 == pixel_x(self.block, x as int),
            pixel.1 == pixel_y(self.block, y as int),
    {
        assert(x * self.block.block_width <= 0xFFFF * 48) by (nonlinear_arith)
            requires
                x <= 0xFFFF,
                self.block.block_width <= 48,
        ;
        assert(y * self.block.block_height <= 0xFFFF * 96) by (nonlinear_arith)
            requires
                y <= 0xFFFF,
                self.block.block_height <= 96,
        ;
        self.block.get_pixels_from_block(x, y)
    }

    /// Queues the command that inverts the cell `(x, y)`, and marks its row.
    fn invert_cell(&mut self, x: usize, y: usize)
        requires
            old(self).wf(),
            x <= MAX_COLUMNS,
            y <= MAX_ROWS,
        ensures
            final(self).wf(),
            final(self)@ == old(self)@.invert_cell(x as int, y as int),
    {
        let (px, py) = self.pixel(x, y);
        let (w, h) = self.block.get();
        self.commands.push(Command::Invert { x: px, y: py, w, h });
        self.grid.mark_row(y);
    }

    /// Inverts the cursor on the surface if it is shown.
    fn invert_cursor(&mut self)
        requires
            old(self).wf(),
        ensures
            final(self).wf(),
            final(self)@ == old(self)@.invert_cursor(),
    {
        if self.state.cursor && self.state.x < self.grid.width && self.state.y < self.grid.height {
            let x = self.state.x;
            let y = self.state.y;
            self.invert_cell(x, y);
        }
    }

    /// Queues the commands that paint the whole surface from the shown
    /// buffer.
    fn repaint(&mut self)
        requires
            old(self).wf(),
        ensures
            final(self).wf(),
            final(self)@ == old(self)@.repaint(),
    {
        let ghost before = self.commands@;
        let ghost block = self.block;
        let ghost grid = self.grid@;
        self.commands.push(Command::Clear { color: self.grid.blank.bg });
        let (w, h) = self.block.get();
        let mut y: usize = 0;
        assert(self.commands@ =~= before + (seq![Command::Clear { color: grid.blank.bg }]
            + rows_commands(block, grid, 0)));
        while y < self.grid.height
            invariant
                self.wf(),
                y <= self.grid.height,
                self.block == block,
                self.grid@ == grid,
                w == block.block_width,
                h == block.block_height,
                self@ == (ConsoleView { commands: self.commands@, ..old(self)@ }),
                self.commands@ == before + (seq![Command::Clear { color: grid.blank.bg }]
                    + rows_commands(block, grid, y as int)),
            decreases self.grid.height - y,
        {
            let ghost row_start = self.commands@;
            let mut x: usize = 0;
            assert(self.commands@ =~= row_start + row_commands(block, grid, y as int, 0));
            while x < self.grid.width
                invariant
                    self.wf(),
                    y < self.grid.height,
                    x <= self.grid.width,
                    self.block == block,
                    self.grid@ == grid,
                    w == block.block_width,
                    h == block.block_height,
                    self@ == (ConsoleView { commands: self.commands@, ..old(self)@ }),
                    self.commands@ == row_start + row_commands(block, grid, y as int, x as int),
                decreases self.grid.width - x,
            {
                let cell = crate::region::get_item(
                    &self.grid.grid,
                    self.grid.width,
                    self.grid.height,
                    x,
                    y,
                );
                let (px, py) = self.pixel(x, y);
                let ghost so_far = self.commands@;
                self.commands.push(Command::Rect { x: px, y: py, w, h, color: cell.bg });
                if cell.c != '\0' {
                    self.commands.push(
                        Command::Glyph {
                            x: px,
                            y: py,
                            c: cell.c,
                            bold: cell.bold,
                            color: cell.fg,
                            size: h,
                        },
                    );
                }
                proof {
                    assert(pixel_x(block, 1) == w && pixel_y(block, 1) == h);
                    assert(self.commands@ =~= so_far + cell_commands(
                        block,
                        grid.cell(x as int, y as int),
                        x as int,
                        y as int,
                    ));
                    assert(self.commands@ =~= row_start + row_commands(
                        block,
                        grid,
                        y as int,
                        x + 1,
                    ));
                }
                x = x + 1;
            }
            proof {
                assert(self.commands@ =~= before + (seq![Command::Clear { color: grid.blank.bg }]
                    + rows_commands(block, grid, y + 1)));
            }
            y = y + 1;
        }
        self.selection.shown = None;
        proof {
            assert(self.commands@ =~= before + repaint_commands(block, grid));
        }
    }

    /// Lets one event of the parser take effect, on the grid and as
    /// commands for the surface. A place outside the grid is no error: a
    /// character there is passed over, a rectangle is cut to the grid, and a
    /// move leaves out the rows that the grid does not have.
    pub fn apply(&mut self, event: &TermEvent)
        requires
            old(self).wf(),
        ensures
            final(self).wf(),
            final(self)@ == old(self)@.apply(*event),
    {
        match event {
            TermEvent::Char { x, y, c, bold, color } => {
                let rgb = color.as_rgb();
                if self.grid.put_char(*x, *y, *c, rgb, *bold) {
                    let (px, py) = self.pixel(*x, *y);
                    let (_, size) = self.block.get();
                    self.commands.push(
                        Command::Glyph { x: px, y: py, c: *c, bold: *bold, color: rgb, size },
                    );
                }
            },
            TermEvent::Input { data } => {
                extend_bytes(&mut self.input, data.as_slice());
            },
            TermEvent::Rect { x, y, w, h, color } => {
                let rgb = color.as_rgb();
                let width = self.grid.width;
                let height = self.grid.height;
                let left: usize = if *x < width {
                    *x
                } else {
                    width
                };
                let right: usize = if *w < width - left {
                    left + *w
                } else {
                    width
                };
                let top: usize = if *y < height {
                    *y
                } else {
                    height
                };
                let bottom: usize = if *h < height - top {
                    top + *h
                } else {
                    height
                };
                let (px, py) = self.pixel(left, top);
                let (pw, ph) = self.pixel(right - left, bottom - top);
                self.commands.push(Command::Rect { x: px, y: py, w: pw, h: ph, color: rgb });
                self.grid.fill_rect(*x, *y, *w, *h, rgb);
            },
            TermEvent::ScreenBuffer { alternate, clear } => {
                if self.grid.switch_buffer(*alternate, *clear) {
                    self.repaint();
                }
            },
            TermEvent::Move { from_x, from_y, to_x, to_y, w, h } => {
                let width = self.grid.width;
                let height = self.grid.height;
                let lower: usize = if *from_y > *to_y {
                    *from_y
                } else {
                    *to_y
                };
                let rows: usize = if lower >= height {
                    0
                } else if *h <= height - lower {
                    *h
                } else {
                    height - lower
                };
                if *w > 0 && rows > 0 && *w <= width && *from_x <= width - *w && *to_x <= width
                    - *w {
                    let (fx, fy) = self.pixel(*from_x, *from_y);
                    let (tx, ty) = self.pixel(*to_x, *to_y);
                    let (pw, ph) = self.pixel(*w, rows);
                    self.commands.push(
                        Command::Move { from_x: fx, from_y: fy, to_x: tx, to_y: ty, w: pw, h: ph },
                    );
                }
                self.grid.move_block(*from_x, *from_y, *to_x, *to_y, *w, *h);
            },
            TermEvent::Resize { w, h } => {
                let columns: usize = if *w < MAX_COLUMNS {
                    *w
                } else {
                    MAX_COLUMNS
                };
                let rows: usize = if *h < MAX_ROWS {
                    *h
                } else {
                    MAX_ROWS
                };
                let (width, height) = self.pixel(columns, rows);
                self.commands.push(Command::Resize { width, height });
            },
            TermEvent::Title { title } => {
                self.commands.push(Command::Title { title: title.clone() });
            },
        }
    }

    /// Lets the events take effect one after the other, in their order.
    pub fn apply_all(&mut self, events: &Vec<TermEvent>)
        requires
            old(self).wf(),
        ensures
            final(self).wf(),
            final(self)@ == old(self)@.apply_all(events@),
    {
        let mut i: usize = 0;
        assert(events@.take(0) =~= Seq::<TermEvent>::empty());
        while i < events.len()
            invariant
                self.wf(),
                i <= events@.len(),
                self@ == old(self)@.apply_all(events@.take(i as int)),
            decreases events@.len() - i,
        {
            self.apply(&events[i]);
            proof {
                let next = events@.take(i + 1);
                assert(next.drop_last() =~= events@.take(i as int));
                assert(next.last() == events@[i as int]);
            }
            i = i + 1;
        }
        assert(events@.take(i as int) =~= events@);
    }

    /// Syncs the rows that wait: queues one sync if any row waits and none
    /// if none does. No row waits afterwards.
    pub fn sync(&mut self)
        requires
            old(self).wf(),
        ensures
            final(self).wf(),
            final(self)@ == old(self)@.sync(),
    {
        if self.grid.flush() {
            self.commands.push(Command::Sync);
        } else {
            assert(self.grid@ == old(self).grid@);
        }
    }

    /// Queues a sync whether or not a row waits. No row waits afterwards.
    pub fn redraw(&mut self)
        requires
            old(self).wf(),
        ensures
            final(self).wf(),
            final(self)@ == old(self)@.redraw(),
    {
        self.commands.push(Command::Sync);
        let _ = self.grid.flush();
    }

    /// Takes what the parser has made of output of the child process: the
    /// events it reported, in their order, and its state afterwards. The
    /// cursor is taken off the surface, the events take effect, the cursor is
    /// put back where the parser has it now, and the surface is synced if
    /// `sync` is set.
    pub fn write(&mut self, events: &Vec<TermEvent>, after: VtState, sync: bool)
        requires
            old(self).wf(),
        ensures
            final(self).wf(),
            final(self)@ == old(self)@.write(events@, after, sync),
    {
        self.invert_cursor();
        self.apply_all(events);
        self.state = after;
        self.invert_cursor();
        if sync {
            self.sync();
        }
    }

    /// Hands over the bytes that wait to be sent to the child process: key
    /// presses, mouse reports, answers of the parser and pasted text, in the
    /// order in which they came. None waits afterwards.
    pub fn take_input(&mut self) -> (bytes: Vec<u8>)
        ensures
            bytes@ == old(self)@.input,
            final(self)@ == (ConsoleView { input: Seq::empty(), ..old(self)@ }),
    {
        let mut bytes: Vec<u8> = Vec::new();
        std::mem::swap(&mut self.input, &mut bytes);
        bytes
    }

    /// Hands over the commands that wait to be carried out, in their order.
    /// None waits afterwards.
    pub fn take_commands(&mut self) -> (commands: Vec<Command>)
        ensures
            commands@ == old(self)@.commands,
            final(self)@ == (ConsoleView { commands: Seq::empty(), ..old(self)@ }),
    {
        let mut commands: Vec<Command> = Vec::new();
        std::mem::swap(&mut self.commands, &mut commands);
        commands
    }

    /// Queues the command that inverts the colors of a rectangle of pixels.
    /// Only the surface is inverted: no cell's stored colors change.
    pub fn invert(&mut self, x: usize, y: usize, w: usize, h: usize)
        ensures
            final(self)@ == (ConsoleView {
                commands: old(self)@.commands.push(Command::Invert { x, y, w, h }),
                ..old(self)@
            }),
    {
        self.commands.push(Command::Invert { x, y, w, h });
    }

    /// Inverts the cells at the places from `from` up to, and not including,
    /// `to`, counted row after row.
    fn invert_cells(&mut self, from: usize, to: usize)
        requires
            old(self).wf(),
            to <= old(self).grid.grid@.len(),
        ensures
            final(self).wf(),
            final(self)@ == old(self)@.invert_cells(from as int, to as int),
            final(self).grid.grid@ == old(self).grid.grid@,
            final(self).selection == old(self).selection,
    {
        if to <= from || self.grid.width == 0 {
            return ;
        }
        let width = self.grid.width;
        let mut i: usize = from;
        while i < to
            invariant
                self.wf(),
                from <= i <= to,
                width == self.grid.width,
                width > 0,
                self.grid.width == old(self).grid.width,
                self.grid.height == old(self).grid.height,
                to <= self.grid.width * self.grid.height,
                self.grid.grid@ == old(self).grid.grid@,
                self.selection == old(self).selection,
                self@ == old(self)@.invert_cells(from as int, i as int),
            decreases to - i,
        {
            proof {
                crate::region::lemma_place_is_item(
                    self.grid.width as int,
                    self.grid.height as int,
                    i as int,
                );
            }
            self.invert_cell(i % width, i / width);
            i = i + 1;
        }
    }

    /// Lets the highlight on the surface follow the selection: what was
    /// highlighted last is inverted back, then the selected cells are
    /// inverted.
    pub fn show_selection(&mut self)
        requires
            old(self).wf(),
        ensures
            final(self).wf(),
            final(self)@ == old(self)@.show_selection(),
    {
        let cells = self.grid.grid.len();
        match self.selection.shown {
            Some((from, to)) => {
                let end: usize = if to < cells {
                    to
                } else {
                    cells
                };
                self.invert_cells(from, end);
            },
            None => {},
        }
        let range = self.selection.normalized_range();
        match range {
            Some((from, to)) => {
                let end: usize = if to < cells {
                    to
                } else {
                    cells
                };
                self.invert_cells(from, end);
            },
            None => {},
        }
        self.selection.shown = range;
    }

    /// The text of the selection in the shown buffer.
    pub fn selection_text(&self) -> (text: String)
        ensures
            text@ == selected_text(self@.grid.cells, self@.selection.selection),
    {
        self.selection.extract_text(&self.grid)
    }

    /// Queues `text` for the child process, as pasted text is.
    pub fn paste(&mut self, text: &str)
        ensures
            final(self)@ == (ConsoleView {
                input: old(self)@.input + vstd::utf8::encode_utf8(text@),
                ..old(self)@
            }),
    {
        extend_bytes(&mut self.input, text.as_bytes());
    }

    /// Gives the grid a new size: both buffers are resized, the surface is
    /// painted anew, the cursor is put back if the new grid has its cell, and
    /// the selection is dropped. Every row waits for a sync afterwards.
    pub fn resize(&mut self, columns: usize, rows: usize)
        requires
            old(self).wf(),
            columns <= MAX_COLUMNS,
            rows <= MAX_ROWS,
        ensures
            final(self).wf(),
            final(self)@ == old(self)@.resize(columns as int, rows as int),
    {
        self.grid.resize(columns, rows);
        self.selection = SelectionTracker::new();
        self.repaint();
        self.invert_cursor();
    }

    /// Gives the grid the size that fits the window with cells of the
    /// current size.
    pub fn update_cell_size(&mut self)
        requires
            old(self).wf(),
        ensures
            final(self).wf(),
            final(self)@ == old(self)@.update_cell_size(),
    {
        let (width, height) = self.block.get();
        let columns = cells_that_fit(self.window_width, width, MAX_COLUMNS);
        let rows = cells_that_fit(self.window_height, height, MAX_ROWS);
        self.resize(columns, rows);
    }

    /// Makes the cells `delta` pixels wider, within the zoom bounds.
    fn change_cell_size(&mut self, delta: isize)
        requires
            old(self).wf(),
        ensures
            final(self).wf(),
            final(self)@ == old(self)@.change_cell_size(delta as int),
    {
        self.block.increase_block_size(delta);
        let (block_width, _) = self.block.get();
        self.commands.push(Command::SaveScale { block_width });
        self.update_cell_size();
        self.sync();
    }

    /// Gives the cells their first size again.
    fn reset_cell_size(&mut self)
        requires
            old(self).wf(),
        ensures
            final(self).wf(),
            final(self)@ == old(self)@.reset_cell_size(),
    {
        self.block.reset_to_default();
        self.update_cell_size();
        self.sync();
    }

    /// Begins the selection at the cell under the pointer, or extends it to
    /// that cell.
    fn select_at_pointer(&mut self, cx: u16, cy: u16)
        requires
            old(self).wf(),
        ensures
            final(self).wf(),
            final(self)@ == old(self)@.select_at_pointer(cx, cy),
    {
        let column: usize = if cx == 0 {
            0
        } else {
            (cx - 1) as usize
        };
        let row: usize = if cy == 0 {
            0
        } else {
            (cy - 1) as usize
        };
        assert(row * self.grid.width <= 0xFFFF * 0xFFFF) by (nonlinear_arith)
            requires
                row <= 0xFFFF,
                self.grid.width <= 0xFFFF,
        ;
        let index: usize = row * self.grid.width + column;
        self.selection.start_or_extend(index);
        self.show_selection();
    }

    /// Takes a key that went down or up.
    fn key(&mut self, character: char, scancode: u8, pressed: bool)
        requires
            old(self).wf(),
        ensures
            final(self).wf(),
            final(self)@ == old(self)@.key(character, scancode, pressed),
    {
        if scancode == K_CTRL {
            self.ctrl = pressed;
        } else if scancode == K_LEFT_SHIFT || scancode == K_RIGHT_SHIFT {
            self.shift = pressed;
        } else if pressed {
            match key_local(self.ctrl, self.shift, scancode) {
                LocalAction::Forward => {
                    push_key(&mut self.input, self.ctrl, character, scancode);
                },
                LocalAction::ResetSize => {
                    self.reset_cell_size();
                },
                LocalAction::Shrink => {
                    self.change_cell_size(-1);
                },
                LocalAction::Grow => {
                    self.change_cell_size(1);
                },
                LocalAction::Copy => {
                    self.commands.push(Command::Copy);
                },
                LocalAction::Paste => {
                    self.commands.push(Command::Paste);
                },
            }
        }
    }

    /// Takes the pointer's move to the pixel `(x, y)`.
    fn mouse(&mut self, x: i32, y: i32)
        requires
            old(self).wf(),
        ensures
            final(self).wf(),
            final(self)@ == old(self)@.mouse(x, y),
    {
        let px: usize = if x < 0 {
            0
        } else {
            x as usize
        };
        let py: usize = if y < 0 {
            0
        } else {
            y as usize
        };
        let (cx, cy) = self.block.get_block_from_coordinate(px, py);
        let drag = self.mouse_left && (cx != self.mouse_x || cy != self.mouse_y);
        match mouse_mode(&self.state) {
            MouseMode::Report { drag: reported } => {
                if drag && reported {
                    push_mouse_report(&mut self.input, 32, self.mouse_x, self.mouse_y, false);
                }
            },
            MouseMode::Select => {
                if drag {
                    self.dragged = true;
                    self.select_at_pointer(cx, cy);
                }
            },
        }
        self.mouse_x = cx;
        self.mouse_y = cy;
    }

    /// Takes the news of whether the left button is held down.
    fn button(&mut self, left: bool)
        requires
            old(self).wf(),
        ensures
            final(self).wf(),
            final(self)@ == old(self)@.button(left),
    {
        match mouse_mode(&self.state) {
            MouseMode::Report { drag } => {
                if left && !self.mouse_left {
                    push_mouse_report(&mut self.input, 0, self.mouse_x, self.mouse_y, false);
                } else if !left && self.mouse_left {
                    push_mouse_report(&mut self.input, 0, self.mouse_x, self.mouse_y, true);
                } else {
                    assert(self.input@ + Seq::<u8>::empty() =~= self.input@);
                }
                self.mouse_left = left;
            },
            MouseMode::Select => {
                if left && !self.mouse_left {
                    self.mouse_left = true;
                    self.dragged = false;
                    let cx = self.mouse_x;
                    let cy = self.mouse_y;
                    self.select_at_pointer(cx, cy);
                } else if !left && self.mouse_left {
                    self.mouse_left = false;
                    if !self.dragged {
                        self.selection.clear();
                        self.show_selection();
                    }
                }
            },
        }
    }

    /// Takes a turn of the wheel.
    fn scroll(&mut self, y: i32)
        requires
            old(self).wf(),
        ensures
            final(self).wf(),
            final(self)@ == old(self)@.scroll(y),
    {
        match mouse_mode(&self.state) {
            MouseMode::Report { drag } => {
                if y > 0 {
                    push_mouse_report(&mut self.input, 64, self.mouse_x, self.mouse_y, false);
                } else if y < 0 {
                    push_mouse_report(&mut self.input, 65, self.mouse_x, self.mouse_y, false);
                }
            },
            MouseMode::Select => {},
        }
    }

    /// Takes an event of the window: a key is sent to the child process or
    /// acts on the engine, the mouse is reported or selects text, and a new
    /// size of the window gives the grid the size that fits.
    pub fn input(&mut self, event: InputEvent)
        requires
            old(self).wf(),
        ensures
            final(self).wf(),
            final(self)@ == old(self)@.input_event(event),
    {
        match event {
            InputEvent::Key { character, scancode, pressed } => {
                self.key(character, scancode, pressed);
            },
            InputEvent::Mouse { x, y } => {
                self.mouse(x, y);
            },
            InputEvent::Button { left, middle, right } => {
                self.button(left);
            },
            InputEvent::Scroll { x, y } => {
                self.scroll(y);
            },
            InputEvent::Resize { width, height } => {
                self.window_width = width;
                self.window_height = height;
                self.update_cell_size();
                self.sync();
            },
            InputEvent::Other => {},
        }
    }
}

} // verus!
