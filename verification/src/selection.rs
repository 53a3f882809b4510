//! The text that the mouse has selected: a range of cells, counted row after
//! row from the top left corner of the grid.

use crate::grid::{lesser, Block, ScreenGrid};
use vstd::prelude::*;

verus! {

/// The two ends of a selection, the lower one first.
pub open spec fn normalized(selection: Option<(usize, usize)>) -> Option<(usize, usize)> {
    match selection {
        Some((start, end)) => if start <= end {
            Some((start, end))
        } else {
            Some((end, start))
        },
        None => None,
    }
}

/// The text of the cells from `from` up to, and not including, `to`: the
/// characters of the cells that hold one, in their order, with one line
/// break for every run of empty cells that a character follows.
pub open spec fn text_of(cells: Seq<Block>, from: int, to: int) -> Seq<char>
    decreases to - from,
{
    if to <= from {
        Seq::empty()
    } else {
        let before = text_of(cells, from, to - 1);
        let c = cells[to - 1].c;
        if c == '\0' {
            before
        } else if to - 1 > from && cells[to - 2].c == '\0' {
            before.push('\n').push(c)
        } else {
            before.push(c)
        }
    }
}

/// The text of a selection over `cells`. The range is half open: the cell at
/// its upper end is not part of it. Places past the last cell hold nothing.
pub open spec fn selected_text(cells: Seq<Block>, selection: Option<(usize, usize)>) -> Seq<
    char,
> {
    match normalized(selection) {
        Some((from, to)) => text_of(cells, from as int, lesser(to as int, cells.len() as int)),
        None => Seq::empty(),
    }
}

/// `String::push`: appends one character to a string.
#[verifier::external_body]
fn string_push(text: &mut String, c: char)
    ensures
        final(text)@ == old(text)@.push(c),
{
    text.push(c)
}

/// The selection as the mouse has drawn it, and the one that is highlighted
/// on the surface.
#[derive(Clone, Copy, Debug, PartialEq, Eq)]
pub struct SelectionTracker {
    /// Where the selection began and where it ends now.
    pub selection: Option<(usize, usize)>,
    /// The range that was highlighted last, the lower end first.
    pub shown: Option<(usize, usize)>,
}

impl SelectionTracker {
    /// A tracker without a selection.
    pub fn new() -> (tracker: Self)
        ensures
            tracker.selection == None::<(usize, usize)>,
            tracker.shown == None::<(usize, usize)>,
    {
        SelectionTracker { selection: None, shown: None }
    }

    /// Begins a selection at `index` where there is none, and moves the end
    /// of the selection to `index` where there is one.
    pub fn start_or_extend(&mut self, index: usize)
        ensures
            final(self).selection == Some(
                match old(self).selection {
                    Some((start, _)) => (start, index),
                    None => (index, index),
                },
            ),
            final(self).shown == old(self).shown,
    {
        self.selection = match self.selection {
            Some((start, _)) => Some((start, index)),
            None => Some((index, index)),
        };
    }

    /// Drops the selection.
    pub fn clear(&mut self)
        ensures
            final(self).selection == None::<(usize, usize)>,
            final(self).shown == old(self).shown,
    {
        self.selection = None;
    }

    /// The two ends of the selection, the lower one first, whichever way the
    /// mouse was dragged.
    pub fn normalized_range(&self) -> (range: Option<(usize, usize)>)
        ensures
            range == normalized(self.selection),
    {
        match self.selection {
            Some((start, end)) => if start <= end {
                Some((start, end))
            } else {
                Some((end, start))
            },
            None => None,
        }
    }

    /// The text of the selection in the shown buffer of `grid`.
    pub fn extract_text(&self, grid: &ScreenGrid) -> (text: String)
        ensures
            text@ == selected_text(grid@.cells, self.selection),
    {
        let mut text = String::new();
        match self.normalized_range() {
            Some((from, to)) => {
                let end: usize = if to < grid.grid.len() {
                    to
                } else {
                    grid.grid.len()
                };
                let mut skipping = false;
                let mut i: usize = from;
                while i < end
                    invariant
                        from <= i,
                        i <= end || (end <= from && i == from),
                        end <= grid.grid@.len(),
                        skipping == (i > from && grid.grid@[i - 1].c == '\0'),
                        text@ == text_of(grid.grid@, from as int, i as int),
                    decreases end - i,
                {
                    let block = grid.grid[i];
                    if block.c == '\0' {
                        skipping = true;
                    } else {
                        if skipping {
                            string_push(&mut text, '\n');
                            skipping = false;
                        }
                        string_push(&mut text, block.c);
                    }
                    i = i + 1;
                }
                proof {
                    if end <= from {
                        assert(i == from);
                        assert(text_of(grid.grid@, from as int, from as int) =~= Seq::<char>::empty());
                        assert(text_of(grid.grid@, from as int, end as int) =~= Seq::<char>::empty());
                    } else {
                        assert(i == end);
                    }
                    assert(text@ == text_of(grid.grid@, from as int, end as int));
                    assert(end as int == lesser(to as int, grid@.cells.len() as int));
                    assert(normalized(self.selection) == Some((from, to)));
                }
            },
            None => {},
        }
        text
    }
}

/// A selection is the same range, and so the same text, whichever way the
/// mouse was dragged.
pub proof fn lemma_selection_has_no_direction(cells: Seq<Block>, start: usize, end: usize)
    ensures
        normalized(Some((start, end))) == normalized(Some((end, start))),
        selected_text(cells, Some((start, end))) == selected_text(cells, Some((end, start))),
{
}

} // verus!
