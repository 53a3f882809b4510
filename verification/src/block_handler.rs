//! The pixel size of one cell, and the conversions between pixels and cells.

use vstd::prelude::*;

verus! {

/// The narrowest cell, in pixels.
pub const MIN_BLOCK_WIDTH: usize = 4;

/// The widest cell, in pixels.
pub const MAX_BLOCK_WIDTH: usize = 48;

/// `width` brought into the range of cell widths.
pub open spec fn clamp_width(width: int) -> int {
    if width < MIN_BLOCK_WIDTH {
        MIN_BLOCK_WIDTH as int
    } else if width > MAX_BLOCK_WIDTH {
        MAX_BLOCK_WIDTH as int
    } else {
        width
    }
}

/// Whether `width` and `height` are the sides of a cell: the width is within
/// the zoom bounds and the height is twice the width.
pub open spec fn is_block_size(width: int, height: int) -> bool {
    MIN_BLOCK_WIDTH <= width <= MAX_BLOCK_WIDTH && height == 2 * width
}

/// The current cell size and the one to go back to on a reset.
pub struct BlockHandler {
    pub block_width: usize,
    pub block_height: usize,
    pub default_block_width: usize,
    pub default_block_height: usize,
}

impl BlockHandler {
    /// Both the current and the remembered size are sizes of a cell.
    pub open spec fn wf(&self) -> bool {
        &&& is_block_size(self.block_width as int, self.block_height as int)
        &&& is_block_size(self.default_block_width as int, self.default_block_height as int)
    }

    /// The handler after its width was set to `width`: the width is brought
    /// into the zoom bounds, the height is twice the width, and the
    /// remembered size stays.
    pub open spec fn with_width(self, width: int) -> BlockHandler {
        BlockHandler {
            block_width: clamp_width(width) as usize,
            block_height: (2 * clamp_width(width)) as usize,
            default_block_width: self.default_block_width,
            default_block_height: self.default_block_height,
        }
    }

    /// The handler after it went back to the remembered size.
    pub open spec fn reset(self) -> BlockHandler {
        BlockHandler {
            block_width: self.default_block_width,
            block_height: self.default_block_height,
            default_block_width: self.default_block_width,
            default_block_height: self.default_block_height,
        }
    }

    /// The handler whose current and remembered size are the given one.
    pub open spec fn new_spec(block_width: usize, block_height: usize) -> BlockHandler {
        BlockHandler {
            block_width,
            block_height,
            default_block_width: block_width,
            default_block_height: block_height,
        }
    }

    /// A handler whose current and remembered size are the given one.
    pub fn new(block_width: usize, block_height: usize) -> (handler: Self)
        requires
            is_block_size(block_width as int, block_height as int),
        ensures
            handler.wf(),
            handler == Self::new_spec(block_width, block_height),
            handler.block_width == block_width,
            handler.block_height == block_height,
            handler.default_block_width == block_width,
            handler.default_block_height == block_height,
    {
        BlockHandler {
            block_width,
            block_height,
            default_block_width: block_width,
            default_block_height: block_height,
        }
    }

    /// The current width and height of a cell.
    pub fn get(&self) -> (size: (usize, usize))
        ensures
            size == (self.block_width, self.block_height),
    {
        (self.block_width, self.block_height)
    }

    /// The cell that holds the pixel `(x, y)`, counted from 1 as terminals
    /// count their cells. A number past `u16::MAX` wraps around.
    pub fn get_block_from_coordinate(&self, x: usize, y: usize) -> (cell: (u16, u16))
        requires
            self.wf(),
        ensures
            cell.0 as int == (x as int / self.block_width as int + 1) % 0x1_0000,
            cell.1 as int == (y as int / self.block_height as int + 1) % 0x1_0000,
    {
        assert(x as int / self.block_width as int <= x as int / 4) by (nonlinear_arith)
            requires
                self.block_width >= 4,
                x >= 0,
        ;
        assert(y as int / self.block_height as int <= y as int / 8) by (nonlinear_arith)
            requires
                self.block_height >= 8,
                y >= 0,
        ;
        let column: usize = (x / self.block_width + 1) % 0x1_0000;
        let row: usize = (y / self.block_height + 1) % 0x1_0000;
        (column as u16, row as u16)
    }

    /// The pixel at the top left corner of the cell `(x, y)`, counted from 0.
    pub fn get_pixels_from_block(&self, x: usize, y: usize) -> (pixel: (usize, usize))
        requires
            x * self.block_width <= usize::MAX,
            y * self.block_height <= usize::MAX,
        ensures
            pixel.0 == x * self.block_width,
            pixel.1 == y * self.block_height,
    {
        (x * self.block_width, y * self.block_height)
    }

    /// How many whole columns and rows of cells fit into a window of the
    /// given pixel size.
    pub fn how_many_blocks_fit(&self, window_width: usize, window_height: usize) -> (fit: (
        usize,
        usize,
    ))
        requires
            self.wf(),
        ensures
            fit.0 == window_width / self.block_width,
            fit.1 == window_height / self.block_height,
    {
        (window_width / self.block_width, window_height / self.block_height)
    }

    /// Widens the cell by `size` pixels, or narrows it where `size` is
    /// negative, within the zoom bounds.
    pub fn increase_block_size(&mut self, size: isize)
        requires
            old(self).wf(),
        ensures
            final(self).wf(),
            *final(self) == old(self).with_width(old(self).block_width + size),
            final(self).block_width == clamp_width(old(self).block_width + size),
            final(self).block_height == 2 * final(self).block_width,
    {
        let reach: isize = 44;
        let width: usize = if size >= reach {
            MAX_BLOCK_WIDTH
        } else if size <= -reach {
            MIN_BLOCK_WIDTH
        } else {
            let sum: isize = self.block_width as isize + size;
            if sum < 4 {
                MIN_BLOCK_WIDTH
            } else {
                sum as usize
            }
        };
        self.set_block_size(width);
    }

    /// Goes back to the remembered size.
    pub fn reset_to_default(&mut self)
        requires
            old(self).wf(),
        ensures
            final(self).wf(),
            *final(self) == old(self).reset(),
    {
        self.block_width = self.default_block_width;
        self.block_height = self.default_block_height;
    }

    /// Sets the width of a cell to `block_width` brought into the zoom
    /// bounds, and the height to twice that. This is the one place where a
    /// width is clamped, so no cell ever has a side of zero pixels.
    pub fn set_block_size(&mut self, block_width: usize)
        requires
            is_block_size(
                old(self).default_block_width as int,
                old(self).default_block_height as int,
            ),
        ensures
            final(self).wf(),
            *final(self) == old(self).with_width(block_width as int),
            final(self).block_width == clamp_width(block_width as int),
            final(self).block_height == 2 * final(self).block_width,
    {
        self.block_width = if block_width < MIN_BLOCK_WIDTH {
            MIN_BLOCK_WIDTH
        } else if block_width > MAX_BLOCK_WIDTH {
            MAX_BLOCK_WIDTH
        } else {
            block_width
        };
        self.block_height = self.block_width * 2;
    }
}

/// Whatever width is asked for, the cell stays within the zoom bounds and
/// twice as high as wide, and a reset keeps it so.
pub proof fn lemma_zoom_keeps_the_shape(handler: BlockHandler, width: int)
    requires
        handler.wf(),
    ensures
        handler.with_width(width).wf(),
        MIN_BLOCK_WIDTH <= handler.with_width(width).block_width <= MAX_BLOCK_WIDTH,
        handler.with_width(width).block_height == 2 * handler.with_width(width).block_width,
        handler.reset().wf(),
        handler.reset().block_height == 2 * handler.reset().block_width,
{
}

} // verus!
