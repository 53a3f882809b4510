//! The character grid: two buffers of cells of one size, the flag that tells
//! which of them is shown, and the rows that wait for a display sync.

use crate::dirty::DirtyRows;
use crate::region::{
    filled, get_item, grid_of, is_written, item_at, lemma_grid_of_item, lemma_is_grid_of,
    lemma_offset_in_range, move_block, moved_items, offset, resized, resized_items, set_item,
};
use vstd::prelude::*;

verus! {

/// The most columns a grid can have.
pub const MAX_COLUMNS: usize = 0xFFFF;

/// The most rows a grid can have.
pub const MAX_ROWS: usize = 0xFFFF;

/// One cell: a character, or `'\0'` for none, with its colors.
#[derive(Clone, Copy, Debug, PartialEq, Eq, Structural)]
pub struct Block {
    pub c: char,
    pub fg: u32,
    pub bg: u32,
    pub bold: bool,
}

impl Block {
    /// This cell with a character written into it. The background stays.
    pub open spec fn with_char(self, c: char, fg: u32, bold: bool) -> Block {
        Block { c, fg, bg: self.bg, bold }
    }

    /// This cell with its character taken out and its background painted.
    pub open spec fn erased(self, color: u32) -> Block {
        Block { c: '\0', fg: self.fg, bg: color, bold: self.bold }
    }

    /// A cell without a character.
    pub fn blank(fg: u32, bg: u32) -> (block: Block)
        ensures
            block == (Block { c: '\0', fg, bg, bold: false }),
    {
        Block { c: '\0', fg, bg, bold: false }
    }

    /// Whether the cell holds no character.
    pub fn is_empty(&self) -> (empty: bool)
        ensures
            empty == (self.c == '\0'),
    {
        self.c == '\0'
    }
}

/// The rows from `from` up to, and not including, `to`.
pub open spec fn rows_in(from: int, to: int) -> Set<usize> {
    Set::new(|row: usize| from <= row < to)
}

/// The smaller of two numbers.
pub open spec fn lesser(a: int, b: int) -> int {
    if a < b {
        a
    } else {
        b
    }
}

/// What a grid is: its size, the cells of the shown and of the hidden
/// buffer, row after row, the flag that tells whether the alternate buffer is
/// the shown one, the rows that wait for a sync, and the cell that stands for
/// nothing.
pub ghost struct GridView {
    pub width: int,
    pub height: int,
    pub cells: Seq<Block>,
    pub alt_cells: Seq<Block>,
    pub alternate: bool,
    pub dirty: Set<usize>,
    pub blank: Block,
}

impl GridView {
    /// Both buffers have the grid's size, only rows of the grid wait for a
    /// sync, and the cell that stands for nothing holds no character and is
    /// not bold.
    pub open spec fn wf(self) -> bool {
        &&& 0 <= self.width <= MAX_COLUMNS
        &&& 0 <= self.height <= MAX_ROWS
        &&& self.cells.len() == self.width * self.height
        &&& self.alt_cells.len() == self.width * self.height
        &&& forall|row: usize| self.dirty.contains(row) ==> row < self.height
        &&& self.blank.c == '\0'
        &&& !self.blank.bold
    }

    /// Whether `(x, y)` is a cell of the grid.
    pub open spec fn in_bounds(self, x: int, y: int) -> bool {
        0 <= x < self.width && 0 <= y < self.height
    }

    /// The cell `(x, y)` of the shown buffer.
    pub open spec fn cell(self, x: int, y: int) -> Block {
        item_at(self.cells, self.width, x, y)
    }

    /// The cell `(x, y)` of the hidden buffer.
    pub open spec fn alt_cell(self, x: int, y: int) -> Block {
        item_at(self.alt_cells, self.width, x, y)
    }

    /// A character is written at `(x, y)` and its row marked. A place outside
    /// the grid is passed over.
    pub open spec fn put_char(self, x: int, y: int, c: char, fg: u32, bold: bool) -> GridView {
        if self.in_bounds(x, y) {
            GridView {
                cells: self.cells.update(
                    offset(self.width, x, y),
                    self.cell(x, y).with_char(c, fg, bold),
                ),
                dirty: self.dirty.insert(y as usize),
                ..self
            }
        } else {
            self
        }
    }

    /// The cells of the rectangle lose their characters and take `color` as
    /// background, as far as the rectangle lies inside the grid, and its rows
    /// are marked.
    pub open spec fn fill_rect(self, x: int, y: int, w: int, h: int, color: u32) -> GridView {
        GridView {
            cells: grid_of(
                self.width,
                self.height,
                |cx: int, cy: int|
                    if x <= cx < x + w && y <= cy < y + h {
                        self.cell(cx, cy).erased(color)
                    } else {
                        self.cell(cx, cy)
                    },
            ),
            dirty: self.dirty.union(rows_in(y, lesser(y + h, self.height))),
            ..self
        }
    }

    /// The buffer asked for becomes the shown one. Where it is shown already,
    /// nothing changes. Otherwise the two buffers change places, the one that
    /// comes in is blanked if `clear` is set, and every row is marked.
    pub open spec fn switch_buffer(self, alternate: bool, clear: bool) -> GridView {
        if alternate == self.alternate {
            self
        } else {
            GridView {
                cells: if clear {
                    Seq::new(self.alt_cells.len(), |k: int| self.blank)
                } else {
                    self.alt_cells
                },
                alt_cells: self.cells,
                alternate,
                dirty: self.dirty.union(rows_in(0, self.height)),
                ..self
            }
        }
    }

    /// A rectangle of cells moves inside the shown buffer, and the rows it
    /// moves to are marked.
    pub open spec fn move_block(
        self,
        from_x: int,
        from_y: int,
        to_x: int,
        to_y: int,
        w: int,
        h: int,
    ) -> GridView {
        GridView {
            cells: moved_items(
                self.cells,
                self.width,
                self.height,
                from_x,
                from_y,
                to_x,
                to_y,
                w,
                h,
            ),
            dirty: self.dirty.union(rows_in(to_y, lesser(to_y + h, self.height))),
            ..self
        }
    }

    /// Both buffers take the new size. The cells that the old and the new
    /// size share stay, every other cell is blank, and every row is marked.
    pub open spec fn resize(self, width: int, height: int) -> GridView {
        GridView {
            width,
            height,
            cells: resized_items(self.cells, self.width, self.height, width, height, self.blank),
            alt_cells: resized_items(
                self.alt_cells,
                self.width,
                self.height,
                width,
                height,
                self.blank,
            ),
            dirty: rows_in(0, height),
            ..self
        }
    }

    /// The row `y` is marked if it is a row of the grid.
    pub open spec fn mark_row(self, y: int) -> GridView {
        if 0 <= y < self.height {
            GridView { dirty: self.dirty.insert(y as usize), ..self }
        } else {
            self
        }
    }

    /// No row waits any more.
    pub open spec fn flush(self) -> GridView {
        GridView { dirty: Set::empty(), ..self }
    }
}

/// The grid of a terminal.
pub struct ScreenGrid {
    pub width: usize,
    pub height: usize,
    pub grid: Vec<Block>,
    pub alt_grid: Vec<Block>,
    pub alternate: bool,
    pub changed: DirtyRows,
    pub blank: Block,
}

impl View for ScreenGrid {
    type V = GridView;

    open spec fn view(&self) -> GridView {
        GridView {
            width: self.width as int,
            height: self.height as int,
            cells: self.grid@,
            alt_cells: self.alt_grid@,
            alternate: self.alternate,
            dirty: self.changed@,
            blank: self.blank,
        }
    }
}

impl ScreenGrid {
    /// The grid is what its view says, and the view is well formed.
    pub open spec fn wf(&self) -> bool {
        self@.wf()
    }

    /// A grid of blank cells in the colors `fg` and `bg` that shows its
    /// normal buffer and has no row waiting.
    pub fn new(width: usize, height: usize, fg: u32, bg: u32) -> (grid: Self)
        requires
            width <= MAX_COLUMNS,
            height <= MAX_ROWS,
        ensures
            grid.wf(),
            grid@.width == width,
            grid@.height == height,
            grid@.blank == (Block { c: '\0', fg, bg, bold: false }),
            grid@.cells == Seq::new((width * height) as nat, |k: int| grid@.blank),
            grid@.alt_cells == grid@.cells,
            !grid@.alternate,
            grid@.dirty == Set::<usize>::empty(),
    {
        let blank = Block::blank(fg, bg);
        assert(width * height <= 0xFFFF * 0xFFFF) by (nonlinear_arith)
            requires
                width <= 0xFFFF,
                height <= 0xFFFF,
        ;
        ScreenGrid {
            width,
            height,
            grid: filled(width * height, blank),
            alt_grid: filled(width * height, blank),
            alternate: false,
            changed: DirtyRows::new(),
            blank,
        }
    }

    /// The cell `(x, y)` of the shown buffer, if the grid has it.
    pub fn get(&self, x: usize, y: usize) -> (cell: Option<Block>)
        requires
            self.wf(),
        ensures
            cell == if self@.in_bounds(x as int, y as int) {
                Some(self@.cell(x as int, y as int))
            } else {
                None
            },
    {
        if x < self.width && y < self.height {
            Some(get_item(&self.grid, self.width, self.height, x, y))
        } else {
            None
        }
    }

    /// Whether the row `y` waits for a sync.
    pub fn is_dirty(&self, y: usize) -> (dirty: bool)
        ensures
            dirty == self@.dirty.contains(y),
    {
        self.changed.contains(y)
    }

    /// Whether any row waits for a sync.
    pub fn has_dirty(&self) -> (any: bool)
        ensures
            any == (self@.dirty != Set::<usize>::empty()),
    {
        !self.changed.is_empty()
    }

    /// Writes a character into the cell `(x, y)` and marks its row. A place
    /// outside the grid is passed over: nothing is written and nothing
    /// marked. Tells whether the cell was written.
    pub fn put_char(&mut self, x: usize, y: usize, c: char, fg: u32, bold: bool) -> (written: bool)
        requires
            old(self).wf(),
        ensures
            final(self).wf(),
            final(self)@ == old(self)@.put_char(x as int, y as int, c, fg, bold),
            written == old(self)@.in_bounds(x as int, y as int),
            written ==> final(self)@.cell(x as int, y as int) == (Block {
                c,
                fg,
                bg: old(self)@.cell(x as int, y as int).bg,
                bold,
            }),
    {
        if x < self.width && y < self.height {
            let before = get_item(&self.grid, self.width, self.height, x, y);
            let block = Block { c, fg, bg: before.bg, bold };
            set_item(&mut self.grid, self.width, self.height, x, y, block);
            self.changed.insert(y);
            assert forall|row: usize| self@.dirty.contains(row) implies row < self.height by {
                assert(row == y || old(self)@.dirty.contains(row));
            }
            true
        } else {
            false
        }
    }

    /// Takes the characters out of the cells of a rectangle and paints their
    /// background, as far as the rectangle lies inside the grid, and marks
    /// the rows of the rectangle that the grid has.
    pub fn fill_rect(&mut self, x: usize, y: usize, w: usize, h: usize, color: u32)
        requires
            old(self).wf(),
        ensures
            final(self).wf(),
            final(self)@ == old(self)@.fill_rect(x as int, y as int, w as int, h as int, color),
    {
        let width = self.width;
        let height = self.height;
        let x_end: usize = if x >= width {
            x
        } else if w >= width - x {
            width
        } else {
            x + w
        };
        let y_end: usize = if y >= height {
            y
        } else if h >= height - y {
            height
        } else {
            y + h
        };
        let ghost before = self.grid@;
        let mut cy: usize = y;
        while cy < y_end
            invariant
                y <= cy <= y_end,
                x <= x_end,
                y_end <= height || y_end == y,
                x_end <= width || x_end == x,
                width == self.width,
                height == self.height,
                before.len() == width * height,
                self.grid@.len() == before.len(),
                self.alt_grid@ == old(self).alt_grid@,
                self.changed@ == old(self).changed@,
                self.alternate == old(self).alternate,
                self.blank == old(self).blank,
                forall|a: int, b: int|
                    0 <= a < width && 0 <= b < height ==> #[trigger] item_at(
                        self.grid@,
                        width as int,
                        a,
                        b,
                    ) == if x <= a < x_end && y <= b < cy {
                        item_at(before, width as int, a, b).erased(color)
                    } else {
                        item_at(before, width as int, a, b)
                    },
            decreases y_end - cy,
        {
            let mut cx: usize = x;
            while cx < x_end
                invariant
                    x <= cx <= x_end,
                    y <= cy < y_end,
                    y_end <= height,
                    x_end <= width || x_end == x,
                    width == self.width,
                    height == self.height,
                    before.len() == width * height,
                    self.grid@.len() == before.len(),
                    self.alt_grid@ == old(self).alt_grid@,
                    self.changed@ == old(self).changed@,
                    self.alternate == old(self).alternate,
                    self.blank == old(self).blank,
                    forall|a: int, b: int|
                        0 <= a < width && 0 <= b < height ==> #[trigger] item_at(
                            self.grid@,
                            width as int,
                            a,
                            b,
                        ) == if x <= a < x_end && (y <= b < cy || (b == cy && a < cx)) {
                            item_at(before, width as int, a, b).erased(color)
                        } else {
                            item_at(before, width as int, a, b)
                        },
                decreases x_end - cx,
            {
                let cell = get_item(&self.grid, width, height, cx, cy);
                let block = Block { c: '\0', fg: cell.fg, bg: color, bold: cell.bold };
                set_item(&mut self.grid, width, height, cx, cy, block);
                cx = cx + 1;
            }
            cy = cy + 1;
        }
        let row_end: usize = if y >= height {
            y
        } else {
            y_end
        };
        self.changed.insert_range(y, row_end);
        proof {
            let view = old(self)@;
            let f = |cx: int, cy: int|
                if x as int <= cx < x as int + w as int && y as int <= cy < y as int + h as int {
                    view.cell(cx, cy).erased(color)
                } else {
                    view.cell(cx, cy)
                };
            assert forall|a: int, b: int|
                0 <= a < width && 0 <= b < height implies #[trigger] item_at(
                self.grid@,
                width as int,
                a,
                b,
            ) == f(a, b) by {
                assert((x <= a < x_end) == (x as int <= a < x as int + w as int));
                assert((y <= b < y_end) == (y as int <= b < y as int + h as int));
            }
            lemma_is_grid_of(self.grid@, width as int, height as int, f);
            assert(self@.dirty =~= view.dirty.union(
                rows_in(y as int, lesser(y as int + h as int, height as int)),
            ));
            assert(self@.cells =~= view.fill_rect(
                x as int,
                y as int,
                w as int,
                h as int,
                color,
            ).cells);
        }
    }

    /// Makes the buffer asked for the shown one. Where it is shown already,
    /// nothing changes. Otherwise the two buffers change places, the one
    /// that comes in is blanked if `clear` is set, and every row is marked.
    /// Tells whether the buffers changed places.
    pub fn switch_buffer(&mut self, alternate: bool, clear: bool) -> (switched: bool)
        requires
            old(self).wf(),
        ensures
            final(self).wf(),
            final(self)@ == old(self)@.switch_buffer(alternate, clear),
            switched == (alternate != old(self)@.alternate),
    {
        if self.alternate == alternate {
            return false;
        }
        std::mem::swap(&mut self.grid, &mut self.alt_grid);
        if clear {
            assert(self.width * self.height <= 0xFFFF * 0xFFFF) by (nonlinear_arith)
                requires
                    self.width <= 0xFFFF,
                    self.height <= 0xFFFF,
            ;
            self.grid = filled(self.width * self.height, self.blank);
        }
        self.alternate = alternate;
        self.changed.insert_range(0, self.height);
        proof {
            assert(self@.dirty =~= old(self)@.dirty.union(rows_in(0, self.height as int)));
            assert(self@.cells =~= old(self)@.switch_buffer(alternate, clear).cells);
        }
        true
    }

    /// Moves a rectangle of cells inside the shown buffer and marks the rows
    /// it moves to, as far as the grid has them. Rows that lie outside the
    /// grid at the source or at the destination are not moved, and nothing
    /// is moved where the columns do not fit into the grid.
    pub fn move_block(
        &mut self,
        from_x: usize,
        from_y: usize,
        to_x: usize,
        to_y: usize,
        w: usize,
        h: usize,
    )
        requires
            old(self).wf(),
        ensures
            final(self).wf(),
            final(self)@ == old(self)@.move_block(
                from_x as int,
                from_y as int,
                to_x as int,
                to_y as int,
                w as int,
                h as int,
            ),
    {
        move_block(&mut self.grid, self.width, self.height, from_x, from_y, to_x, to_y, w, h);
        let row_end: usize = if to_y >= self.height {
            to_y
        } else if h >= self.height - to_y {
            self.height
        } else {
            to_y + h
        };
        self.changed.insert_range(to_y, row_end);
        proof {
            assert(self@.dirty =~= old(self)@.dirty.union(
                rows_in(to_y as int, lesser(to_y as int + h as int, self.height as int)),
            ));
        }
    }

    /// Gives both buffers a new size. The cells that the old and the new size
    /// share stay in place, every other cell is blank, and every row is
    /// marked.
    pub fn resize(&mut self, width: usize, height: usize)
        requires
            old(self).wf(),
            width <= MAX_COLUMNS,
            height <= MAX_ROWS,
        ensures
            final(self).wf(),
            final(self)@ == old(self)@.resize(width as int, height as int),
    {
        assert(width * height <= 0xFFFF * 0xFFFF) by (nonlinear_arith)
            requires
                width <= 0xFFFF,
                height <= 0xFFFF,
        ;
        let grid = resized(&self.grid, self.width, self.height, width, height, self.blank);
        let alt_grid = resized(&self.alt_grid, self.width, self.height, width, height, self.blank);
        self.grid = grid;
        self.alt_grid = alt_grid;
        self.width = width;
        self.height = height;
        self.changed.clear();
        self.changed.insert_range(0, height);
        proof {
            assert(self@.dirty =~= rows_in(0, height as int));
        }
    }

    /// Marks the row `y` if the grid has it.
    pub fn mark_row(&mut self, y: usize)
        requires
            old(self).wf(),
        ensures
            final(self).wf(),
            final(self)@ == old(self)@.mark_row(y as int),
    {
        if y < self.height {
            self.changed.insert(y);
            assert forall|row: usize| self@.dirty.contains(row) implies row < self.height by {
                assert(row == y || old(self)@.dirty.contains(row));
            }
        }
    }

    /// Takes every row off the waiting list. Tells whether any row waited.
    pub fn flush(&mut self) -> (waited: bool)
        requires
            old(self).wf(),
        ensures
            final(self).wf(),
            final(self)@ == old(self)@.flush(),
            waited == (old(self)@.dirty != Set::<usize>::empty()),
    {
        let waited = !self.changed.is_empty();
        self.changed.clear();
        waited
    }
}

/// A character written into a cell of the grid is read back from that cell
/// with its color and its weight.
pub proof fn lemma_read_after_write(
    grid: GridView,
    x: int,
    y: int,
    c: char,
    fg: u32,
    bold: bool,
)
    requires
        grid.wf(),
        grid.in_bounds(x, y),
    ensures
        grid.put_char(x, y, c, fg, bold).cell(x, y).c == c,
        grid.put_char(x, y, c, fg, bold).cell(x, y).fg == fg,
        grid.put_char(x, y, c, fg, bold).cell(x, y).bold == bold,
        grid.put_char(x, y, c, fg, bold).dirty.contains(y as usize),
{
    lemma_offset_in_range(grid.width, grid.height, x, y);
}

/// A resize keeps every cell that the old and the new size share, in both
/// buffers, and leaves every other cell blank.
pub proof fn lemma_resize_keeps_shared_cells(
    grid: GridView,
    width: int,
    height: int,
    x: int,
    y: int,
)
    requires
        grid.wf(),
        0 <= x < width,
        0 <= y < height,
    ensures
        grid.resize(width, height).cell(x, y) == if x < grid.width && y < grid.height {
            grid.cell(x, y)
        } else {
            grid.blank
        },
        grid.resize(width, height).alt_cell(x, y) == if x < grid.width && y < grid.height {
            grid.alt_cell(x, y)
        } else {
            grid.blank
        },
{
    crate::region::lemma_item_is_place(width, height, x, y);
}

/// Switching to a buffer and back shows again what was shown before, cell
/// for cell. Where the first switch does not clear, the hidden buffer is as
/// it was, too.
pub proof fn lemma_switch_twice(grid: GridView, alternate: bool, clear: bool)
    ensures
        grid.switch_buffer(alternate, clear).switch_buffer(grid.alternate, false).cells
            == grid.cells,
        grid.switch_buffer(alternate, clear).switch_buffer(grid.alternate, false).alternate
            == grid.alternate,
        !clear ==> grid.switch_buffer(alternate, clear).switch_buffer(
            grid.alternate,
            false,
        ).alt_cells == grid.alt_cells,
{
}

/// A move changes no cell outside the rectangle it moves to, and none of
/// the hidden buffer.
pub proof fn lemma_move_keeps_outside(
    grid: GridView,
    from_x: int,
    from_y: int,
    to_x: int,
    to_y: int,
    w: int,
    h: int,
    x: int,
    y: int,
)
    requires
        grid.wf(),
        grid.in_bounds(x, y),
        !(to_x <= x < to_x + w && to_y <= y < to_y + h),
    ensures
        grid.move_block(from_x, from_y, to_x, to_y, w, h).cell(x, y) == grid.cell(x, y),
        grid.move_block(from_x, from_y, to_x, to_y, w, h).alt_cells == grid.alt_cells,
{
    let f = |a: int, b: int|
        crate::region::moved_item(
            grid.cells,
            grid.width,
            grid.height,
            from_x,
            from_y,
            to_x,
            to_y,
            w,
            h,
            a,
            b,
        );
    lemma_grid_of_item(grid.width, grid.height, f, x, y);
}

/// A move that lies inside the grid leaves in every cell of the rectangle it
/// moves to what stood at the matching cell of the source before the move.
pub proof fn lemma_move_copies(
    grid: GridView,
    from_x: int,
    from_y: int,
    to_x: int,
    to_y: int,
    w: int,
    h: int,
    x: int,
    y: int,
)
    requires
        grid.wf(),
        0 <= from_x,
        0 <= from_y,
        0 <= to_x,
        0 <= to_y,
        from_x + w <= grid.width,
        to_x + w <= grid.width,
        from_y + h <= grid.height,
        to_y + h <= grid.height,
        to_x <= x < to_x + w,
        to_y <= y < to_y + h,
    ensures
        grid.move_block(from_x, from_y, to_x, to_y, w, h).cell(x, y) == grid.cell(
            x - to_x + from_x,
            y - to_y + from_y,
        ),
{
    let f = |a: int, b: int|
        crate::region::moved_item(
            grid.cells,
            grid.width,
            grid.height,
            from_x,
            from_y,
            to_x,
            to_y,
            w,
            h,
            a,
            b,
        );
    lemma_grid_of_item(grid.width, grid.height, f, x, y);
    assert(is_written(grid.width, grid.height, from_x, from_y, to_x, to_y, w, h, x, y));
}

/// What a clearing switch brings in holds no character anywhere, and
/// neither does any cell that a resize adds.
pub proof fn lemma_cleared_cells_are_empty(
    grid: GridView,
    alternate: bool,
    width: int,
    height: int,
    x: int,
    y: int,
)
    requires
        grid.wf(),
        alternate != grid.alternate,
        0 <= x < width,
        0 <= y < height,
    ensures
        grid.in_bounds(x, y) ==> grid.switch_buffer(alternate, true).cell(x, y).c == '\0',
        !grid.in_bounds(x, y) ==> grid.resize(width, height).cell(x, y).c == '\0',
        !grid.in_bounds(x, y) ==> grid.resize(width, height).alt_cell(x, y).c == '\0',
{
    if grid.in_bounds(x, y) {
        lemma_offset_in_range(grid.width, grid.height, x, y);
    } else {
        lemma_resize_keeps_shared_cells(grid, width, height, x, y);
    }
}

} // verus!
