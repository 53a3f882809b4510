//! The rows of the grid that wait for a display sync.

use std::collections::BTreeSet;
use vstd::prelude::*;

verus! {

broadcast use vstd::laws_cmp::group_laws_cmp;

/// The rows from `from` up to, and not including, `to`.
pub open spec fn rows_between(from: usize, to: usize) -> Set<usize> {
    Set::new(|row: usize| from <= row < to)
}

/// A set of row numbers. A row that is marked twice is held once.
pub struct DirtyRows {
    pub rows: BTreeSet<usize>,
}

impl View for DirtyRows {
    type V = Set<usize>;

    open spec fn view(&self) -> Set<usize> {
        self.rows@
    }
}

impl DirtyRows {
    /// No row.
    pub fn new() -> (dirty: Self)
        ensures
            dirty@ == Set::<usize>::empty(),
    {
        DirtyRows { rows: BTreeSet::new() }
    }

    /// Marks `row`.
    pub fn insert(&mut self, row: usize)
        ensures
            final(self)@ == old(self)@.insert(row),
    {
        let _ = self.rows.insert(row);
    }

    /// Marks the rows from `from` up to, and not including, `to`.
    pub fn insert_range(&mut self, from: usize, to: usize)
        ensures
            final(self)@ == old(self)@.union(rows_between(from, to)),
    {
        if to <= from {
            assert(self@ =~= old(self)@.union(rows_between(from, to)));
            return ;
        }
        let mut row: usize = from;
        assert(self@ =~= old(self)@.union(rows_between(from, row)));
        while row < to
            invariant
                from <= row <= to,
                self@ == old(self)@.union(rows_between(from, row)),
            decreases to - row,
        {
            let ghost marked = self@;
            let next: usize = row + 1;
            let _ = self.rows.insert(row);
            assert(self@ == marked.insert(row));
            assert(self@ =~= old(self)@.union(rows_between(from, next)));
            row = next;
        }
    }

    /// Whether `row` is marked.
    pub fn contains(&self, row: usize) -> (marked: bool)
        ensures
            marked == self@.contains(row),
    {
        self.rows.contains(&row)
    }

    /// Whether no row is marked.
    pub fn is_empty(&self) -> (empty: bool)
        ensures
            empty == (self@ == Set::<usize>::empty()),
    {
        let empty = self.rows.is_empty();
        assert(self@.is_empty() == (self@ =~= Set::<usize>::empty()));
        empty
    }

    /// Unmarks every row.
    pub fn clear(&mut self)
        ensures
            final(self)@ == Set::<usize>::empty(),
    {
        self.rows.clear();
    }
}

} // verus!
