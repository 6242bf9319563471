//! The bookkeeping of a scan: the row budget and the running row offset.

use crate::frame::IdxSize;
use polars_core::frame::DataFrame;
use vstd::prelude::*;

verus! {

/// `a - b`, and zero where `b` is the larger.
pub open spec fn monus(a: nat, b: nat) -> nat {
    if a >= b {
        (a - b) as nat
    } else {
        0
    }
}

/// The rows of the first `upto` row groups together.
pub open spec fn rows_before(sizes: Seq<nat>, upto: int) -> nat
    decreases upto,
{
    if upto <= 0 {
        0
    } else {
        rows_before(sizes, upto - 1) + sizes[upto - 1]
    }
}

/// The rows of all the row groups together.
pub open spec fn rows_in_all(sizes: Seq<nat>) -> nat {
    rows_before(sizes, sizes.len() as int)
}

/// The row budget that is left when the first `upto` row groups have been
/// visited: each took its full size from the budget, which stops at zero.
pub open spec fn budget_before(limit: nat, sizes: Seq<nat>, upto: int) -> nat
    decreases upto,
{
    if upto <= 0 {
        limit
    } else {
        monus(budget_before(limit, sizes, upto - 1), sizes[upto - 1])
    }
}

/// The cap on the rows to decode from a row group of `num_rows` rows under a
/// budget of `remaining` rows: the budget where it is the smaller, else none.
pub open spec fn cap_for(remaining: usize, num_rows: usize) -> Option<usize> {
    if remaining < num_rows {
        Some(remaining)
    } else {
        None
    }
}

/// The state that a scan carries from one row group to the next.
pub struct ScanState {
    /// The rows that may still be read.
    pub remaining_rows: usize,
    /// The rows of all the row groups visited so far, skipped ones included.
    pub previous_row_count: IdxSize,
    /// The tables of the row groups read so far, in the order of the visits.
    pub tables: Vec<DataFrame>,
}

impl ScanState {
    /// The state before the first row group.
    pub fn new(limit: usize) -> (state: ScanState)
        ensures
            state.remaining_rows == limit,
            state.previous_row_count == 0,
            state.tables@ == Seq::<DataFrame>::empty(),
    {
        ScanState { remaining_rows: limit, previous_row_count: 0, tables: Vec::new() }
    }

    /// The cap on the rows to decode from a row group of `num_rows` rows.
    pub fn row_cap(&self, num_rows: usize) -> (cap: Option<usize>)
        ensures
            cap == cap_for(self.remaining_rows, num_rows),
    {
        if self.remaining_rows < num_rows {
            Some(self.remaining_rows)
        } else {
            None
        }
    }

    /// Moves both counters past a row group of `num_rows` rows, read or
    /// skipped: the budget goes down by the group's full size and stops at
    /// zero, the offset goes up by it. The tables stay.
    pub fn advance(&mut self, num_rows: usize)
        requires
            old(self).previous_row_count + num_rows <= IdxSize::MAX,
        ensures
            final(self).remaining_rows == monus(old(self).remaining_rows as nat, num_rows as nat),
            final(self).previous_row_count == old(self).previous_row_count + num_rows,
            final(self).tables@ == old(self).tables@,
    {
        self.remaining_rows = self.remaining_rows.saturating_sub(num_rows);
        self.previous_row_count = self.previous_row_count + (num_rows as IdxSize);
    }

    /// Appends the table of the row group just read; the counters stay.
    pub fn accumulate(&mut self, table: DataFrame)
        ensures
            final(self).tables@ == old(self).tables@.push(table),
            final(self).remaining_rows == old(self).remaining_rows,
            final(self).previous_row_count == old(self).previous_row_count,
    {
        self.tables.push(table);
    }
}

/// The budget never grows from one row group to the next, and is never above
/// the limit.
pub proof fn lemma_budget_monotone(limit: nat, sizes: Seq<nat>, upto: int)
    requires
        0 <= upto < sizes.len(),
    ensures
        budget_before(limit, sizes, upto + 1) <= budget_before(limit, sizes, upto),
        budget_before(limit, sizes, upto) <= limit,
    decreases upto,
{
    if upto > 0 {
        lemma_budget_monotone(limit, sizes, upto - 1);
    }
}

/// The budget after some row groups is the limit less their rows, stopping at
/// zero: it depends on the sizes alone.
pub proof fn lemma_budget_closed_form(limit: nat, sizes: Seq<nat>, upto: int)
    requires
        0 <= upto <= sizes.len(),
    ensures
        budget_before(limit, sizes, upto) == monus(limit, rows_before(sizes, upto)),
    decreases upto,
{
    if upto > 0 {
        lemma_budget_closed_form(limit, sizes, upto - 1);
    }
}

/// The offset grows with every row group.
pub proof fn lemma_rows_before_monotone(sizes: Seq<nat>, from: int, upto: int)
    requires
        0 <= from <= upto <= sizes.len(),
    ensures
        rows_before(sizes, from) <= rows_before(sizes, upto),
    decreases upto - from,
{
    if from < upto {
        lemma_rows_before_monotone(sizes, from, upto - 1);
    }
}

} // verus!
