//! The steps that turn the columns of one row group into its table.

use crate::error::{fault, follows, Fault, ScanError, Stage};
use crate::frame::{
    columns_of, counted, frame_columns, frame_from_columns, height, keeps_columns, rectangular,
    row_count_column, series_len, series_view, table_of_columns, views, with_row_count, IdxSize,
};
use crate::source::{Predicate, Reducer, RowCount};
use polars_core::frame::DataFrame;
use polars_core::series::Series;
use vstd::prelude::*;

verus! {

/// The text of the error for columns that differ in length.
pub open spec fn ragged_text() -> Seq<char> {
    "the columns differ in length"@
}

/// The text of the error for a row count that would pass the row counter.
pub open spec fn counter_text() -> Seq<char> {
    "more rows than the row counter holds"@
}

/// Makes a table of the columns, in their order, where all have one length;
/// else it is an error of the given stage. Nothing else is checked.
pub fn assemble(columns: Vec<Series>, stage: Stage) -> (table: Result<DataFrame, ScanError>)
    ensures
        table is Ok <==> rectangular(views(columns@)),
        table matches Ok(frame) ==> frame == table_of_columns(columns@) && frame_columns(frame)
            == views(columns@),
        table matches Err(error) ==> error.stage == stage && error.message@ == ragged_text(),
{
    let width = columns.len();
    if width > 0 {
        let first = series_len(&columns[0]);
        let mut i: usize = 1;
        while i < width
            invariant
                1 <= i <= width == columns@.len(),
                first == series_view(columns@[0]).len,
                forall|j: int| 0 <= j < i ==> series_view(#[trigger] columns@[j]).len == first,
            decreases width - i,
        {
            if series_len(&columns[i]) != first {
                assert(views(columns@)[i as int].len != height(views(columns@)));
                return Err(ScanError::new(stage, "the columns differ in length"));
            }
            i += 1;
        }
    }
    Ok(frame_from_columns(columns))
}

/// The number of rows of a table: the length of its first column, and zero
/// for a table without columns.
pub fn table_height(frame: &DataFrame) -> (rows: usize)
    ensures
        rows == height(frame_columns(*frame)),
{
    let columns = columns_of(frame);
    if columns.len() == 0 {
        0
    } else {
        assert(views(columns@)[0] == series_view(columns@[0]));
        series_len(&columns[0])
    }
}

/// The height of a table whose columns all have one length; `None` for a
/// table whose columns differ in length.
pub fn rectangular_height(frame: &DataFrame) -> (rows: Option<usize>)
    ensures
        rows is Some <==> rectangular(frame_columns(*frame)),
        rows matches Some(n) ==> n == height(frame_columns(*frame)),
{
    let columns = columns_of(frame);
    let rows = table_height(frame);
    let mut i: usize = 0;
    while i < columns.len()
        invariant
            i <= columns@.len(),
            views(columns@) == frame_columns(*frame),
            rows == height(frame_columns(*frame)),
            forall|j: int| 0 <= j < i ==> (#[trigger] frame_columns(*frame)[j]).len == rows,
        decreases columns@.len() - i,
    {
        assert(views(columns@)[i as int] == series_view(columns@[i as int]));
        if series_len(&columns[i]) != rows {
            return None;
        }
        i += 1;
    }
    Some(rows)
}

/// Puts the row-count column in front of the table of a row group: it counts
/// the rows that the table holds now, starting at the rows of all the row
/// groups before plus the offset asked for. It is a decode error where the
/// last number would not fit the row counter; the table then stays as it is.
pub fn attach_row_count(table: &mut DataFrame, row_count: &RowCount, previous_row_count: IdxSize) -> (attached: Result<(), ScanError>)
    requires
        previous_row_count + row_count.offset <= IdxSize::MAX,
    ensures
        attached is Ok <==> height(frame_columns(*old(table))) + previous_row_count
            + row_count.offset <= IdxSize::MAX,
        attached is Ok ==> *final(table) == counted(
            *old(table),
            row_count.name@,
            (previous_row_count + row_count.offset) as IdxSize,
        ),
        attached is Ok ==> frame_columns(*final(table)) == seq![
            row_count_column(row_count.name@, height(frame_columns(*old(table)))),
        ] + frame_columns(*old(table)),
        attached matches Err(error) ==> error.stage == Stage::Decode && error.message@
            == counter_text() && *final(table) == *old(table),
{
    let start: IdxSize = previous_row_count + row_count.offset;
    let rows = table_height(table);
    if rows > (IdxSize::MAX - start) as usize {
        return Err(ScanError::new(Stage::Decode, "more rows than the row counter holds"));
    }
    with_row_count(table, row_count.name.as_str(), start);
    Ok(())
}

/// Applies the row-level predicate, where there is one: the table becomes
/// what the predicate keeps of it, with the same columns. It is a predicate
/// error, with the predicate's text, where the predicate fails.
pub fn apply_predicate<P: Predicate>(table: DataFrame, predicate: Option<&P>) -> (kept: Result<DataFrame, ScanError>)
    ensures
        match predicate {
            None => kept == Ok::<DataFrame, ScanError>(table),
            Some(predicate) => match predicate.filtered(table) {
                Ok(filtered) => kept == Ok::<DataFrame, ScanError>(filtered),
                Err(failure) => kept matches Err(error) && error.stage == Stage::Predicate
                    && error.message@ == failure.text(),
            },
        },
        rectangular(frame_columns(table)) ==> (kept matches Ok(frame) ==> keeps_columns(
            frame_columns(table),
            frame_columns(frame),
        )),
{
    match predicate {
        None => Ok(table),
        Some(predicate) => match predicate.filter(table) {
            Ok(kept) => Ok(kept),
            Err(failure) => Err(failure.at(Stage::Predicate)),
        },
    }
}

/// The first of the first `upto` reducers that refuses the table; `None`
/// where each of them gives a column.
pub open spec fn first_refusal<A: Reducer>(
    table: DataFrame,
    reducers: Seq<A>,
    upto: int,
) -> Option<int>
    decreases upto,
{
    if upto <= 0 {
        None
    } else {
        match first_refusal(table, reducers, upto - 1) {
            Some(i) => Some(i),
            None => if reducers[upto - 1].reduced(table) is Err {
                Some(upto - 1)
            } else {
                None
            },
        }
    }
}

/// The columns that the reducers make of the table, in the reducers' order.
pub open spec fn reduced_columns<A: Reducer>(table: DataFrame, reducers: Seq<A>) -> Seq<Series> {
    Seq::new(reducers.len(), |i: int| reducers[i].reduced(table)->Ok_0)
}

/// What the reducers make of the table, where there are any.
///
/// Each reducer is handed the table as it is, once, in the reducers' order.
/// Where each gives a column and the columns have one length, the table of
/// those columns in that order; where they differ in length, an aggregation
/// error; where a reducer refuses, an aggregation error with the text of the
/// first that does. Without reducers, the table itself.
pub open spec fn aggregated<A: Reducer>(
    table: DataFrame,
    aggregate: Option<&Vec<A>>,
) -> Result<DataFrame, Fault> {
    match aggregate {
        None => Ok(table),
        Some(reducers) => match first_refusal(table, reducers@, reducers@.len() as int) {
            Some(i) => Err(fault(Stage::Aggregation, reducers@[i].reduced(table)->Err_0)),
            None => if rectangular(views(reduced_columns(table, reducers@))) {
                Ok(table_of_columns(reduced_columns(table, reducers@)))
            } else {
                Err(fault(Stage::Aggregation, ragged_text()))
            },
        },
    }
}

/// A reducer that refuses among the first stays the first to refuse among
/// more.
pub proof fn lemma_first_refusal_stays<A: Reducer>(
    table: DataFrame,
    reducers: Seq<A>,
    upto: int,
    later: int,
)
    requires
        0 <= upto <= later,
        first_refusal(table, reducers, upto) is Some,
    ensures
        first_refusal(table, reducers, later) == first_refusal(table, reducers, upto),
    decreases later - upto,
{
    if upto < later {
        lemma_first_refusal_stays(table, reducers, upto, later - 1);
    }
}

/// Applies the reducers, where there are any: the table becomes one column
/// per reducer, in the reducers' order. It is an aggregation error where a
/// reducer fails, with the text of the first that does, or where the columns
/// differ in length.
pub fn apply_aggregations<A: Reducer>(table: DataFrame, aggregate: Option<&Vec<A>>) -> (made: Result<DataFrame, ScanError>)
    ensures
        follows(made, aggregated(table, aggregate)),
        aggregate matches Some(reducers) ==> (made matches Ok(frame) ==> frame_columns(
            frame,
        ).len() == reducers@.len() && rectangular(frame_columns(frame))),
        made matches Err(error) ==> error.stage == Stage::Aggregation,
{
    match aggregate {
        None => Ok(table),
        Some(reducers) => {
            let mut columns: Vec<Series> = Vec::new();
            let mut i: usize = 0;
            while i < reducers.len()
                invariant
                    aggregate == Some(reducers),
                    i <= reducers@.len(),
                    columns@.len() == i,
                    first_refusal(table, reducers@, i as int) is None,
                    forall|j: int|
                        0 <= j < i ==> (#[trigger] columns@[j]) == reducers@[j].reduced(table)->Ok_0,
                decreases reducers@.len() - i,
            {
                match reducers[i].finish(&table) {
                    Ok(series) => columns.push(series),
                    Err(failure) => {
                        proof {
                            lemma_first_refusal_stays(
                                table,
                                reducers@,
                                i as int + 1,
                                reducers@.len() as int,
                            );
                        }
                        return Err(failure.at(Stage::Aggregation));
                    },
                }
                i += 1;
            }
            assert(columns@ =~= reduced_columns(table, reducers@));
            assemble(columns, Stage::Aggregation)
        },
    }
}

} // verus!
