//! What the engine is and what each of its steps makes of it, told over
//! sequences and sets. The functions of the console are proved against
//! these.

use crate::block_handler::BlockHandler;
use crate::color::TermColor;
use crate::event::{Command, TermEvent, VtState};
use crate::grid::{
    lemma_move_keeps_outside, lemma_read_after_write, lemma_resize_keeps_shared_cells,
    lemma_switch_twice, lesser, Block, GridView, MAX_COLUMNS, MAX_ROWS,
};
use crate::input::{
    key_sequence, local_action, mouse_mode_of, mouse_report, InputEvent, LocalAction, MouseMode,
    K_CTRL, K_LEFT_SHIFT, K_RIGHT_SHIFT,
};
use crate::region::{columns_fit, rows_moved};
use crate::selection::{normalized, SelectionTracker};
use vstd::prelude::*;

verus! {

/// How far the cell column `x` lies from the left edge, in pixels.
pub open spec fn pixel_x(block: BlockHandler, x: int) -> usize {
    (x * block.block_width) as usize
}

/// How far the cell row `y` lies from the top edge, in pixels.
pub open spec fn pixel_y(block: BlockHandler, y: int) -> usize {
    (y * block.block_height) as usize
}

/// The command that paints a rectangle of cells.
pub open spec fn rect_command(
    block: BlockHandler,
    x: int,
    y: int,
    w: int,
    h: int,
    color: u32,
) -> Command {
    Command::Rect {
        x: pixel_x(block, x),
        y: pixel_y(block, y),
        w: pixel_x(block, w),
        h: pixel_y(block, h),
        color,
    }
}

/// The command that draws a character into the cell `(x, y)`.
pub open spec fn glyph_command(
    block: BlockHandler,
    x: int,
    y: int,
    c: char,
    bold: bool,
    color: u32,
) -> Command {
    Command::Glyph {
        x: pixel_x(block, x),
        y: pixel_y(block, y),
        c,
        bold,
        color,
        size: block.block_height,
    }
}

/// The command that inverts the cell `(x, y)`.
pub open spec fn invert_command(block: BlockHandler, x: int, y: int) -> Command {
    Command::Invert {
        x: pixel_x(block, x),
        y: pixel_y(block, y),
        w: block.block_width,
        h: block.block_height,
    }
}

/// The command that paints the part of a rectangle of cells that lies
/// inside the grid.
pub open spec fn clipped_rect_command(
    block: BlockHandler,
    grid: GridView,
    x: int,
    y: int,
    w: int,
    h: int,
    color: u32,
) -> Command {
    let left = lesser(x, grid.width);
    let right = lesser(x + w, grid.width);
    let top = lesser(y, grid.height);
    let bottom = lesser(y + h, grid.height);
    rect_command(block, left, top, right - left, bottom - top, color)
}

/// The command that moves the pixels of a rectangle of cells, if the move
/// moves any cell of the grid.
pub open spec fn move_command(
    block: BlockHandler,
    grid: GridView,
    from_x: int,
    from_y: int,
    to_x: int,
    to_y: int,
    w: int,
    h: int,
) -> Option<Command> {
    let rows = rows_moved(grid.height, from_y, to_y, h);
    if w > 0 && rows > 0 && columns_fit(grid.width, from_x, to_x, w) {
        Some(
            Command::Move {
                from_x: pixel_x(block, from_x),
                from_y: pixel_y(block, from_y),
                to_x: pixel_x(block, to_x),
                to_y: pixel_y(block, to_y),
                w: pixel_x(block, w),
                h: pixel_y(block, rows),
            },
        )
    } else {
        None
    }
}

/// The command that asks for a window of `w` by `h` cells, each side capped
/// at what a grid can have.
pub open spec fn resize_command(block: BlockHandler, w: int, h: int) -> Command {
    Command::Resize {
        width: pixel_x(block, lesser(w, MAX_COLUMNS as int)),
        height: pixel_y(block, lesser(h, MAX_ROWS as int)),
    }
}

/// The commands that paint one cell: its background, and its character if
/// it has one.
pub open spec fn cell_commands(block: BlockHandler, cell: Block, x: int, y: int) -> Seq<Command> {
    if cell.c == '\0' {
        seq![rect_command(block, x, y, 1, 1, cell.bg)]
    } else {
        seq![
            rect_command(block, x, y, 1, 1, cell.bg),
            glyph_command(block, x, y, cell.c, cell.bold, cell.fg),
        ]
    }
}

/// The commands that paint the first `n` cells of the row `y`.
pub open spec fn row_commands(block: BlockHandler, grid: GridView, y: int, n: int) -> Seq<
    Command,
>
    decreases n,
{
    if n <= 0 {
        Seq::empty()
    } else {
        row_commands(block, grid, y, n - 1) + cell_commands(
            block,
            grid.cell(n - 1, y),
            n - 1,
            y,
        )
    }
}

/// The commands that paint the first `m` rows.
pub open spec fn rows_commands(block: BlockHandler, grid: GridView, m: int) -> Seq<Command>
    decreases m,
{
    if m <= 0 {
        Seq::empty()
    } else {
        rows_commands(block, grid, m - 1) + row_commands(block, grid, m - 1, grid.width)
    }
}

/// The commands that paint the whole surface from the shown buffer: the
/// background of the theme, then every cell, row after row.
pub open spec fn repaint_commands(block: BlockHandler, grid: GridView) -> Seq<Command> {
    seq![Command::Clear { color: grid.blank.bg }] + rows_commands(block, grid, grid.height)
}

/// The cell under the pixel `(x, y)`, counted from 1. A pixel left of or
/// above the surface counts as one on its edge.
pub open spec fn pointer_cell(block: BlockHandler, x: i32, y: i32) -> (u16, u16) {
    let px = if x < 0 {
        0
    } else {
        x as int
    };
    let py = if y < 0 {
        0
    } else {
        y as int
    };
    (
        ((px / block.block_width as int + 1) % 0x1_0000) as u16,
        ((py / block.block_height as int + 1) % 0x1_0000) as u16,
    )
}

/// The place of the cell that the pointer is on, counted row after row.
pub open spec fn pointer_index(width: int, cx: u16, cy: u16) -> usize {
    let column = if cx == 0 {
        0
    } else {
        cx - 1
    };
    let row = if cy == 0 {
        0
    } else {
        cy - 1
    };
    (row * width + column) as usize
}

/// What the engine is.
pub ghost struct ConsoleView {
    /// What was last read of the parser's state.
    pub state: VtState,
    pub grid: GridView,
    pub block: BlockHandler,
    pub selection: SelectionTracker,
    /// The cell under the pointer, counted from 1.
    pub mouse_x: u16,
    pub mouse_y: u16,
    /// Whether the left button is held down.
    pub mouse_left: bool,
    /// Whether the pointer has changed its cell since the left button went
    /// down.
    pub dragged: bool,
    pub ctrl: bool,
    pub shift: bool,
    /// The bytes that wait to be sent to the child process.
    pub input: Seq<u8>,
    /// The commands that wait to be carried out.
    pub commands: Seq<Command>,
    /// The size of the window in pixels.
    pub window_width: int,
    pub window_height: int,
}

impl ConsoleView {
    /// The grid and the cell size are well formed.
    pub open spec fn wf(self) -> bool {
        &&& self.grid.wf()
        &&& self.block.wf()
        &&& 0 <= self.window_width <= u32::MAX
        &&& 0 <= self.window_height <= u32::MAX
    }

    /// Whether the cursor is visible and inside the grid.
    pub open spec fn cursor_shown(self) -> bool {
        self.state.cursor && self.grid.in_bounds(self.state.x as int, self.state.y as int)
    }

    /// The cell `(x, y)` is inverted on the surface and its row marked.
    pub open spec fn invert_cell(self, x: int, y: int) -> ConsoleView {
        ConsoleView {
            commands: self.commands.push(invert_command(self.block, x, y)),
            grid: self.grid.mark_row(y),
            ..self
        }
    }

    /// The cursor is inverted if it is shown. Done twice, this leaves the
    /// surface as it was.
    pub open spec fn invert_cursor(self) -> ConsoleView {
        if self.cursor_shown() {
            self.invert_cell(self.state.x as int, self.state.y as int)
        } else {
            self
        }
    }

    /// The cells at the places from `from` up to, and not including, `to`
    /// are inverted, in their order.
    pub open spec fn invert_cells(self, from: int, to: int) -> ConsoleView
        decreases to - from,
    {
        if to <= from || self.grid.width <= 0 {
            self
        } else {
            self.invert_cells(from, to - 1).invert_cell(
                (to - 1) % self.grid.width,
                (to - 1) / self.grid.width,
            )
        }
    }

    /// The surface is painted anew from the shown buffer. What was
    /// highlighted is painted over.
    pub open spec fn repaint(self) -> ConsoleView {
        ConsoleView {
            commands: self.commands + repaint_commands(self.block, self.grid),
            selection: SelectionTracker { selection: self.selection.selection, shown: None },
            ..self
        }
    }

    /// One event of the parser takes effect: on the grid, and as commands
    /// for the surface, as one step.
    pub open spec fn apply(self, event: TermEvent) -> ConsoleView {
        match event {
            TermEvent::Char { x, y, c, bold, color } => {
                if self.grid.in_bounds(x as int, y as int) {
                    ConsoleView {
                        grid: self.grid.put_char(x as int, y as int, c, color.rgb(), bold),
                        commands: self.commands.push(
                            glyph_command(self.block, x as int, y as int, c, bold, color.rgb()),
                        ),
                        ..self
                    }
                } else {
                    self
                }
            },
            TermEvent::Input { data } => ConsoleView { input: self.input + data@, ..self },
            TermEvent::Rect { x, y, w, h, color } => ConsoleView {
                grid: self.grid.fill_rect(x as int, y as int, w as int, h as int, color.rgb()),
                commands: self.commands.push(
                    clipped_rect_command(
                        self.block,
                        self.grid,
                        x as int,
                        y as int,
                        w as int,
                        h as int,
                        color.rgb(),
                    ),
                ),
                ..self
            },
            TermEvent::ScreenBuffer { alternate, clear } => {
                if alternate == self.grid.alternate {
                    self
                } else {
                    (ConsoleView {
                        grid: self.grid.switch_buffer(alternate, clear),
                        ..self
                    }).repaint()
                }
            },
            TermEvent::Move { from_x, from_y, to_x, to_y, w, h } => ConsoleView {
                grid: self.grid.move_block(
                    from_x as int,
                    from_y as int,
                    to_x as int,
                    to_y as int,
                    w as int,
                    h as int,
                ),
                commands: match move_command(
                    self.block,
                    self.grid,
                    from_x as int,
                    from_y as int,
                    to_x as int,
                    to_y as int,
                    w as int,
                    h as int,
                ) {
                    Some(command) => self.commands.push(command),
                    None => self.commands,
                },
                ..self
            },
            TermEvent::Resize { w, h } => ConsoleView {
                commands: self.commands.push(resize_command(self.block, w as int, h as int)),
                ..self
            },
            TermEvent::Title { title } => ConsoleView {
                commands: self.commands.push(Command::Title { title }),
                ..self
            },
        }
    }

    /// The events take effect one after the other, in their order.
    pub open spec fn apply_all(self, events: Seq<TermEvent>) -> ConsoleView
        decreases events.len(),
    {
        if events.len() == 0 {
            self
        } else {
            self.apply_all(events.drop_last()).apply(events.last())
        }
    }

    /// The rows that wait are synced: one command if any row waits, none if
    /// none does, and no row waits afterwards.
    pub open spec fn sync(self) -> ConsoleView {
        if self.grid.dirty != Set::<usize>::empty() {
            ConsoleView {
                commands: self.commands.push(Command::Sync),
                grid: self.grid.flush(),
                ..self
            }
        } else {
            self
        }
    }

    /// The surface is synced whether or not a row waits.
    pub open spec fn redraw(self) -> ConsoleView {
        ConsoleView {
            commands: self.commands.push(Command::Sync),
            grid: self.grid.flush(),
            ..self
        }
    }

    /// Output of the child process takes effect: the cursor is taken off the
    /// surface, the events that the parser made of the output are applied,
    /// the cursor is put back where the parser has it afterwards, and the
    /// surface is synced if `sync` is set.
    pub open spec fn write(
        self,
        events: Seq<TermEvent>,
        after: VtState,
        sync: bool,
    ) -> ConsoleView {
        let applied = self.invert_cursor().apply_all(events);
        let shown = (ConsoleView { state: after, ..applied }).invert_cursor();
        if sync {
            shown.sync()
        } else {
            shown
        }
    }

    /// The grid takes a new size: both buffers are resized, the surface is
    /// painted anew, the cursor is put back if the new grid has its cell, and
    /// the selection is dropped.
    pub open spec fn resize(self, columns: int, rows: int) -> ConsoleView {
        (ConsoleView {
            grid: self.grid.resize(columns, rows),
            selection: SelectionTracker { selection: None, shown: None },
            ..self
        }).repaint().invert_cursor()
    }

    /// The grid takes the size that fits the window with cells of the
    /// current size, each side capped at what a grid can have.
    pub open spec fn update_cell_size(self) -> ConsoleView {
        self.resize(
            lesser(self.window_width / self.block.block_width as int, MAX_COLUMNS as int),
            lesser(self.window_height / self.block.block_height as int, MAX_ROWS as int),
        )
    }

    /// The cells become `delta` pixels wider, within the zoom bounds; the
    /// new zoom is to be remembered, the grid takes the size that fits, and
    /// the surface is synced.
    pub open spec fn change_cell_size(self, delta: int) -> ConsoleView {
        let block = self.block.with_width(self.block.block_width + delta);
        (ConsoleView {
            block,
            commands: self.commands.push(Command::SaveScale { block_width: block.block_width }),
            ..self
        }).update_cell_size().sync()
    }

    /// The cells go back to their first size, the grid takes the size that
    /// fits, and the surface is synced.
    pub open spec fn reset_cell_size(self) -> ConsoleView {
        (ConsoleView { block: self.block.reset(), ..self }).update_cell_size().sync()
    }

    /// The highlight on the surface follows the selection: what was
    /// highlighted last is inverted back, then the selected cells are
    /// inverted. No cell's stored colors change.
    pub open spec fn show_selection(self) -> ConsoleView {
        let cells = self.grid.cells.len() as int;
        let cleared = match self.selection.shown {
            Some((from, to)) => self.invert_cells(from as int, lesser(to as int, cells)),
            None => self,
        };
        let range = normalized(self.selection.selection);
        let shown = match range {
            Some((from, to)) => cleared.invert_cells(from as int, lesser(to as int, cells)),
            None => cleared,
        };
        ConsoleView {
            selection: SelectionTracker { selection: self.selection.selection, shown: range },
            ..shown
        }
    }

    /// The selection begins at the cell under the pointer, or is extended
    /// to it, and the highlight follows.
    pub open spec fn select_at_pointer(self, cx: u16, cy: u16) -> ConsoleView {
        let index = pointer_index(self.grid.width, cx, cy);
        (ConsoleView {
            selection: SelectionTracker {
                selection: Some(
                    match self.selection.selection {
                        Some((start, _)) => (start, index),
                        None => (index, index),
                    },
                ),
                shown: self.selection.shown,
            },
            ..self
        }).show_selection()
    }

    /// A key went down or up. The modifier keys are remembered; a pressed
    /// key acts on the engine or is sent to the child process.
    pub open spec fn key(self, character: char, scancode: u8, pressed: bool) -> ConsoleView {
        if scancode == K_CTRL {
            ConsoleView { ctrl: pressed, ..self }
        } else if scancode == K_LEFT_SHIFT || scancode == K_RIGHT_SHIFT {
            ConsoleView { shift: pressed, ..self }
        } else if !pressed {
            self
        } else {
            match local_action(self.ctrl, self.shift, scancode) {
                LocalAction::Forward => ConsoleView {
                    input: self.input + key_sequence(self.ctrl, character, scancode),
                    ..self
                },
                LocalAction::ResetSize => self.reset_cell_size(),
                LocalAction::Shrink => self.change_cell_size(-1),
                LocalAction::Grow => self.change_cell_size(1),
                LocalAction::Copy => ConsoleView {
                    commands: self.commands.push(Command::Copy),
                    ..self
                },
                LocalAction::Paste => ConsoleView {
                    commands: self.commands.push(Command::Paste),
                    ..self
                },
            }
        }
    }

    /// The pointer moved to the pixel `(x, y)`. With the left button held
    /// and the pointer on a new cell, the move is a drag: it is reported to
    /// the child process if it asked for that, with the cell the pointer came
    /// from, and extends the selection if the mouse selects.
    pub open spec fn mouse(self, x: i32, y: i32) -> ConsoleView {
        let (cx, cy) = pointer_cell(self.block, x, y);
        let drag = self.mouse_left && (cx != self.mouse_x || cy != self.mouse_y);
        let next = match mouse_mode_of(self.state) {
            MouseMode::Report { drag: reported } => if drag && reported {
                ConsoleView {
                    input: self.input + mouse_report(32, self.mouse_x, self.mouse_y, false),
                    ..self
                }
            } else {
                self
            },
            MouseMode::Select => if drag {
                (ConsoleView { dragged: true, ..self }).select_at_pointer(cx, cy)
            } else {
                self
            },
        };
        ConsoleView { mouse_x: cx, mouse_y: cy, ..next }
    }

    /// The left button is held down, or not. Its press and its release are
    /// reported to the child process if it asked for that. If the mouse
    /// selects, a press begins or extends the selection, and a release
    /// without a drag in between drops it.
    pub open spec fn button(self, left: bool) -> ConsoleView {
        match mouse_mode_of(self.state) {
            MouseMode::Report { drag } => {
                let report = if left && !self.mouse_left {
                    mouse_report(0, self.mouse_x, self.mouse_y, false)
                } else if !left && self.mouse_left {
                    mouse_report(0, self.mouse_x, self.mouse_y, true)
                } else {
                    Seq::empty()
                };
                ConsoleView { input: self.input + report, mouse_left: left, ..self }
            },
            MouseMode::Select => {
                if left && !self.mouse_left {
                    (ConsoleView {
                        mouse_left: true,
                        dragged: false,
                        ..self
                    }).select_at_pointer(self.mouse_x, self.mouse_y)
                } else if !left && self.mouse_left {
                    if self.dragged {
                        ConsoleView { mouse_left: false, ..self }
                    } else {
                        (ConsoleView {
                            mouse_left: false,
                            selection: SelectionTracker {
                                selection: None,
                                shown: self.selection.shown,
                            },
                            ..self
                        }).show_selection()
                    }
                } else {
                    self
                }
            },
        }
    }

    /// The wheel turned by `y`. This is reported to the child process if it
    /// asked for that, and does nothing otherwise.
    pub open spec fn scroll(self, y: i32) -> ConsoleView {
        match mouse_mode_of(self.state) {
            MouseMode::Report { drag } => if y > 0 {
                ConsoleView {
                    input: self.input + mouse_report(64, self.mouse_x, self.mouse_y, false),
                    ..self
                }
            } else if y < 0 {
                ConsoleView {
                    input: self.input + mouse_report(65, self.mouse_x, self.mouse_y, false),
                    ..self
                }
            } else {
                self
            },
            MouseMode::Select => self,
        }
    }

    /// The window has a new size: the grid takes the size that fits, and the
    /// surface is synced.
    pub open spec fn window_resized(self, width: u32, height: u32) -> ConsoleView {
        (ConsoleView {
            window_width: width as int,
            window_height: height as int,
            ..self
        }).update_cell_size().sync()
    }

    /// What an event of the window makes of the engine.
    pub open spec fn input_event(self, event: InputEvent) -> ConsoleView {
        match event {
            InputEvent::Key { character, scancode, pressed } => self.key(
                character,
                scancode,
                pressed,
            ),
            InputEvent::Mouse { x, y } => self.mouse(x, y),
            InputEvent::Button { left, middle, right } => self.button(left),
            InputEvent::Scroll { x, y } => self.scroll(y),
            InputEvent::Resize { width, height } => self.window_resized(
                width,
                height,
            ),
            InputEvent::Other => self,
        }
    }
}

/// A character that the parser reports for a cell of the grid is read back
/// from that cell with its color and its weight, and its row waits for a
/// sync.
pub proof fn lemma_char_event_is_read_back(
    console: ConsoleView,
    x: usize,
    y: usize,
    c: char,
    bold: bool,
    color: TermColor,
)
    requires
        console.wf(),
        console.grid.in_bounds(x as int, y as int),
    ensures
        console.apply(TermEvent::Char { x, y, c, bold, color }).grid.cell(x as int, y as int).c
            == c,
        console.apply(TermEvent::Char { x, y, c, bold, color }).grid.cell(x as int, y as int).fg
            == color.rgb(),
        console.apply(TermEvent::Char { x, y, c, bold, color }).grid.cell(
            x as int,
            y as int,
        ).bold == bold,
        console.apply(TermEvent::Char { x, y, c, bold, color }).grid.dirty.contains(y),
{
    lemma_read_after_write(console.grid, x as int, y as int, c, color.rgb(), bold);
}

/// A resize of the engine keeps every cell that the old and the new size
/// share, leaves every other cell blank, and drops the selection.
pub proof fn lemma_resize_keeps_what_fits(
    console: ConsoleView,
    columns: int,
    rows: int,
    x: int,
    y: int,
)
    requires
        console.wf(),
        0 <= x < columns,
        0 <= y < rows,
    ensures
        console.resize(columns, rows).grid.width == columns,
        console.resize(columns, rows).grid.height == rows,
        console.resize(columns, rows).grid.cell(x, y) == if x < console.grid.width && y
            < console.grid.height {
            console.grid.cell(x, y)
        } else {
            console.grid.blank
        },
        console.resize(columns, rows).grid.alt_cell(x, y) == if x < console.grid.width && y
            < console.grid.height {
            console.grid.alt_cell(x, y)
        } else {
            console.grid.blank
        },
        console.resize(columns, rows).selection.selection == None::<(usize, usize)>,
{
    lemma_resize_keeps_shared_cells(console.grid, columns, rows, x, y);
}

/// Two switches of the buffer, there and back, show again what was shown
/// before, cell for cell.
pub proof fn lemma_buffer_switches_restore(console: ConsoleView, clear: bool)
    requires
        console.wf(),
    ensures
        console.apply(
            TermEvent::ScreenBuffer { alternate: !console.grid.alternate, clear },
        ).apply(
            TermEvent::ScreenBuffer { alternate: console.grid.alternate, clear: false },
        ).grid.cells == console.grid.cells,
        !clear ==> console.apply(
            TermEvent::ScreenBuffer { alternate: !console.grid.alternate, clear },
        ).apply(
            TermEvent::ScreenBuffer { alternate: console.grid.alternate, clear: false },
        ).grid.alt_cells == console.grid.alt_cells,
{
    lemma_switch_twice(console.grid, !console.grid.alternate, clear);
}

/// A move that the parser reports changes no cell outside the rectangle it
/// moves to, however source and destination overlap.
pub proof fn lemma_move_event_keeps_outside(
    console: ConsoleView,
    from_x: usize,
    from_y: usize,
    to_x: usize,
    to_y: usize,
    w: usize,
    h: usize,
    x: int,
    y: int,
)
    requires
        console.wf(),
        console.grid.in_bounds(x, y),
        !(to_x <= x < to_x + w && to_y <= y < to_y + h),
    ensures
        console.apply(TermEvent::Move { from_x, from_y, to_x, to_y, w, h }).grid.cell(x, y)
            == console.grid.cell(x, y),
{
    lemma_move_keeps_outside(
        console.grid,
        from_x as int,
        from_y as int,
        to_x as int,
        to_y as int,
        w as int,
        h as int,
        x,
        y,
    );
}

/// However often a row was written, one sync takes it off the waiting list:
/// two characters written into one row and a sync queue exactly one sync
/// after the two glyphs, and a second sync queues nothing.
pub proof fn lemma_one_sync_for_a_row(
    console: ConsoleView,
    x1: usize,
    x2: usize,
    y: usize,
    c1: char,
    c2: char,
    color: TermColor,
)
    requires
        console.wf(),
        console.grid.in_bounds(x1 as int, y as int),
        console.grid.in_bounds(x2 as int, y as int),
    ensures
        ({
            let first = TermEvent::Char { x: x1, y, c: c1, bold: false, color };
            let second = TermEvent::Char { x: x2, y, c: c2, bold: false, color };
            let written = console.apply(first).apply(second);
            &&& written.grid.dirty == console.grid.dirty.insert(y)
            &&& written.sync().commands == written.commands.push(Command::Sync)
            &&& written.sync().grid.dirty == Set::<usize>::empty()
            &&& written.sync().sync() == written.sync()
        }),
{
    let first = TermEvent::Char { x: x1, y, c: c1, bold: false, color };
    let second = TermEvent::Char { x: x2, y, c: c2, bold: false, color };
    let written = console.apply(first).apply(second);
    assert(written.grid.dirty =~= console.grid.dirty.insert(y));
    assert(written.grid.dirty.contains(y));
}

/// After a sync no row waits, and a sync of an engine where none waits
/// queues nothing.
pub proof fn lemma_sync_empties_the_waiting_rows(console: ConsoleView)
    ensures
        console.sync().grid.dirty == Set::<usize>::empty(),
        console.grid.dirty == Set::<usize>::empty() ==> console.sync() == console,
        console.grid.dirty != Set::<usize>::empty() ==> console.sync().commands
            == console.commands.push(Command::Sync),
        console.sync().sync() == console.sync(),
{
}

/// Inverting cells on the surface changes no cell of the grid: only
/// commands are queued and rows marked.
pub proof fn lemma_invert_cells_keeps_the_grid(console: ConsoleView, from: int, to: int)
    ensures
        console.invert_cells(from, to).grid.cells == console.grid.cells,
        console.invert_cells(from, to).grid.alt_cells == console.grid.alt_cells,
        console.invert_cells(from, to).grid.width == console.grid.width,
        console.invert_cells(from, to).grid.height == console.grid.height,
        console.invert_cells(from, to).selection == console.selection,
        console.invert_cells(from, to).input == console.input,
    decreases to - from,
{
    if to > from && console.grid.width > 0 {
        lemma_invert_cells_keeps_the_grid(console, from, to - 1);
    }
}

/// A highlight is drawn on the surface alone: whatever is selected, every
/// cell of both buffers keeps its character and its stored colors.
pub proof fn lemma_highlight_keeps_the_grid(console: ConsoleView)
    ensures
        console.show_selection().grid.cells == console.grid.cells,
        console.show_selection().grid.alt_cells == console.grid.alt_cells,
        console.show_selection().selection.selection == console.selection.selection,
        console.show_selection().selection.shown == normalized(console.selection.selection),
{
    let cells = console.grid.cells.len() as int;
    let cleared = match console.selection.shown {
        Some((from, to)) => console.invert_cells(from as int, lesser(to as int, cells)),
        None => console,
    };
    match console.selection.shown {
        Some((from, to)) => {
            lemma_invert_cells_keeps_the_grid(console, from as int, lesser(to as int, cells));
        },
        None => {},
    }
    match normalized(console.selection.selection) {
        Some((from, to)) => {
            lemma_invert_cells_keeps_the_grid(cleared, from as int, lesser(to as int, cells));
        },
        None => {},
    }
}

} // verus!
