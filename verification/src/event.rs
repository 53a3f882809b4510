//! What the terminal parser reports, and what the engine asks of the window.

use crate::color::TermColor;
use vstd::prelude::*;

verus! {

/// One step of the terminal's output, as the parser reports it. Places and
/// sizes are in cells, counted from 0.
#[derive(Clone, Debug, PartialEq, Eq)]
pub enum TermEvent {
    /// A character to show at `(x, y)`.
    Char { x: usize, y: usize, c: char, bold: bool, color: TermColor },
    /// Bytes owed to the child process, such as the answer to a query.
    Input { data: Vec<u8> },
    /// A rectangle to clear to `color`.
    Rect { x: usize, y: usize, w: usize, h: usize, color: TermColor },
    /// The buffer to show from now on.
    ScreenBuffer { alternate: bool, clear: bool },
    /// A rectangle to move inside the shown buffer.
    Move { from_x: usize, from_y: usize, to_x: usize, to_y: usize, w: usize, h: usize },
    /// A wish for a window of `w` by `h` cells.
    Resize { w: usize, h: usize },
    /// A new window title.
    Title { title: String },
}

/// What the engine reads of the parser's state: the cursor and the mouse
/// modes that the child process has set.
#[derive(Clone, Copy, Debug, PartialEq, Eq, Structural)]
pub struct VtState {
    pub x: usize,
    pub y: usize,
    pub cursor: bool,
    pub mouse_rxvt: bool,
    pub mouse_btn: bool,
}

/// One thing for the program around the engine to do. Places and sizes are
/// in pixels. The commands of a queue are carried out in their order.
#[derive(Clone, Debug, PartialEq, Eq)]
pub enum Command {
    /// Paint the whole surface in `color`.
    Clear { color: u32 },
    /// Paint a rectangle in `color`.
    Rect { x: usize, y: usize, w: usize, h: usize, color: u32 },
    /// Draw the character `c`, `size` pixels high, with its top left corner
    /// at `(x, y)`.
    Glyph { x: usize, y: usize, c: char, bold: bool, color: u32, size: usize },
    /// Invert the colors of a rectangle.
    Invert { x: usize, y: usize, w: usize, h: usize },
    /// Move a rectangle of pixels.
    Move { from_x: usize, from_y: usize, to_x: usize, to_y: usize, w: usize, h: usize },
    /// Give the window this size.
    Resize { width: usize, height: usize },
    /// Give the window this title.
    Title { title: String },
    /// Show on the display what has been drawn.
    Sync,
    /// Put the selected text on the clipboard.
    Copy,
    /// Hand the clipboard's text to the engine.
    Paste,
    /// Remember the zoom that makes a cell `block_width` pixels wide.
    SaveScale { block_width: usize },
}

} // verus!
