//! The scan finalizer: from the tables of the row groups to the one result.

use crate::chunk::empty_chunk;
use crate::error::{fault, fault_at, follows, Fault, ScanError, Stage};
use crate::frame::{
    all_rectangular, all_stackable, chunked_series, cut, error_text, first_rows, frame_columns,
    frame_views, head, height, lemma_stack_all_rectangular, rectangular, series_view, stack_all,
    stacked, table_of_columns, total_height, views, vstack, ColumnView, IdxSize,
};
use crate::materialize::{empty_column, empty_series};
use crate::schema::{projected, projection_fits, Field};
use crate::source::Reducer;
use crate::table::{aggregated, apply_aggregations, assemble, ragged_text, rectangular_height};
use polars_core::frame::DataFrame;
use polars_core::series::Series;
use vstd::prelude::*;

verus! {

/// The empty columns of some fields.
pub open spec fn empty_series_of(fields: Seq<Field>) -> Seq<Series> {
    Seq::new(
        fields.len(),
        |i: int| chunked_series(fields[i].name@, seq![empty_chunk(fields[i].data_type)]),
    )
}

/// The views of the empty columns of some fields.
pub open spec fn empty_columns(fields: Seq<Field>) -> Seq<ColumnView> {
    Seq::new(fields.len(), |i: int| empty_column(fields[i]))
}

/// The table without rows over the projected schema: one empty column per
/// projected field, under its name and of its type.
pub fn empty_table(schema: &Vec<Field>, projection: &Vec<usize>) -> (table: Result<DataFrame, ScanError>)
    requires
        projection_fits(projection@, schema@.len()),
    ensures
        table matches Ok(frame) && frame == table_of_columns(
            empty_series_of(projected(schema@, projection@)),
        ) && frame_columns(frame) == empty_columns(projected(schema@, projection@)),
{
    let mut columns: Vec<Series> = Vec::new();
    let mut i: usize = 0;
    while i < projection.len()
        invariant
            i <= projection@.len(),
            projection_fits(projection@, schema@.len()),
            columns@.len() == i,
            forall|j: int|
                0 <= j < i ==> series_view(#[trigger] columns@[j]) == empty_column(
                    schema@[projection@[j] as int],
                ),
            forall|j: int|
                0 <= j < i ==> (#[trigger] columns@[j]) == empty_series_of(
                    projected(schema@, projection@),
                )[j],
        decreases projection@.len() - i,
    {
        match empty_series(&schema[projection[i]]) {
            Ok(series) => columns.push(series),
            Err(error) => {
                return Err(error);
            },
        }
        i += 1;
    }
    assert(views(columns@) =~= empty_columns(projected(schema@, projection@)));
    assert(columns@ =~= empty_series_of(projected(schema@, projection@)));
    assemble(columns, Stage::Decode)
}

proof fn lemma_total_height_take(tables: Seq<Seq<ColumnView>>, upto: int)
    requires
        0 <= upto <= tables.len(),
    ensures
        total_height(tables.take(upto)) <= total_height(tables),
        upto < tables.len() ==> total_height(tables.take(upto + 1)) == total_height(
            tables.take(upto),
        ) + height(tables[upto]),
    decreases tables.len() - upto,
{
    if upto < tables.len() {
        assert(tables.take(upto + 1).drop_last() =~= tables.take(upto));
        lemma_total_height_take(tables, upto + 1);
    } else {
        assert(tables.take(upto) =~= tables);
    }
}

/// The rows of all the tables together, where every table is rectangular and
/// the rows fit the row counter.
pub fn stacked_height(tables: &Vec<DataFrame>) -> (rows: Option<usize>)
    ensures
        rows is Some <==> all_rectangular(frame_views(tables@)) && total_height(
            frame_views(tables@),
        ) <= IdxSize::MAX,
        rows matches Some(n) ==> n == total_height(frame_views(tables@)),
{
    let ghost all = frame_views(tables@);
    let mut total: usize = 0;
    let mut i: usize = 0;
    while i < tables.len()
        invariant
            i <= tables@.len(),
            all == frame_views(tables@),
            total == total_height(all.take(i as int)),
            total <= IdxSize::MAX,
            forall|j: int| 0 <= j < i ==> rectangular(#[trigger] all[j]),
        decreases tables@.len() - i,
    {
        proof {
            lemma_total_height_take(all, i as int);
        }
        match rectangular_height(&tables[i]) {
            None => {
                assert(!rectangular(all[i as int]));
                return None;
            },
            Some(rows) => {
                if rows > (IdxSize::MAX as usize) - total {
                    proof {
                        lemma_total_height_take(all, i as int + 1);
                    }
                    return None;
                }
                total = total + rows;
            },
        }
        i += 1;
    }
    assert(all.take(i as int) =~= all);
    Some(total)
}

/// The table cut to its first `limit` rows: the table itself where it has no
/// more.
pub open spec fn truncated(frame: DataFrame, limit: usize) -> DataFrame {
    if limit < height(frame_columns(frame)) {
        first_rows(frame, limit)
    } else {
        frame
    }
}

/// Cuts a table to its first `limit` rows. It is a concatenation error where
/// the columns of the table differ in length.
pub fn truncate(frame: DataFrame, limit: usize) -> (out: Result<DataFrame, ScanError>)
    ensures
        out is Ok <==> rectangular(frame_columns(frame)),
        out matches Ok(cut_frame) ==> cut_frame == truncated(frame, limit) && frame_columns(
            cut_frame,
        ) == cut(frame_columns(frame), limit as nat),
        out matches Err(error) ==> error.stage == Stage::Concatenation && error.message@
            == ragged_text(),
{
    match rectangular_height(&frame) {
        None => Err(ScanError::new(Stage::Concatenation, "the columns differ in length")),
        Some(rows) => {
            if limit < rows {
                Ok(head(&frame, limit))
            } else {
                assert(frame_columns(frame) =~= cut(frame_columns(frame), limit as nat));
                Ok(frame)
            }
        },
    }
}

/// `columns` is what a finalizer without reducers makes of tables with the
/// given columns: the tables put under one another in their order, cut to the
/// limit.
pub open spec fn concatenated(tables: Seq<Seq<ColumnView>>, limit: usize) -> Seq<ColumnView> {
    cut(stack_all(tables), limit as nat)
}

/// Tables that can go under one another, put together and cut to the limit,
/// are as high as all of them together, and as high as the limit where that
/// is less: the rows of a scan never pass the limit.
pub proof fn lemma_concatenated_height(tables: Seq<Seq<ColumnView>>, limit: usize)
    requires
        tables.len() > 0,
        all_rectangular(tables),
        all_stackable(tables),
    ensures
        rectangular(concatenated(tables, limit)),
        height(concatenated(tables, limit)) == if total_height(tables) < limit {
            total_height(tables)
        } else {
            limit as nat
        },
{
    lemma_stack_all_rectangular(tables);
    let whole = stack_all(tables);
    let cut_whole = concatenated(tables, limit);
    assert forall|i: int| 0 <= i < cut_whole.len() implies (#[trigger] cut_whole[i]).len == height(
        cut_whole,
    ) by {
        assert(whole[i].len == height(whole));
        assert(whole[0].len == height(whole));
    }
}

/// The text of the error for tables that do not fit one table: one of them
/// has columns that differ in length, or together they pass the row counter.
pub open spec fn unfit_text() -> Seq<char> {
    "the tables do not fit one table"@
}

/// What the finalizer makes of the tables, or the fault with which it fails.
///
/// Without tables, the empty table over the projected schema. Else the tables
/// put under one another in their order; of that, what the reducers make; and
/// of that, the first `limit` rows.
pub open spec fn finished<A: Reducer>(
    tables: Seq<DataFrame>,
    schema: Seq<Field>,
    projection: Seq<usize>,
    aggregate: Option<&Vec<A>>,
    limit: usize,
) -> Result<DataFrame, Fault> {
    if tables.len() == 0 {
        Ok(table_of_columns(empty_series_of(projected(schema, projection))))
    } else if !all_rectangular(frame_views(tables)) || total_height(frame_views(tables))
        > IdxSize::MAX {
        Err(fault(Stage::Concatenation, unfit_text()))
    } else {
        match stacked(tables) {
            None => Err(fault_at(Stage::Concatenation)),
            Some(whole) => match aggregated(whole, aggregate) {
                Err(fault) => Err(fault),
                Ok(reduced) => if rectangular(frame_columns(reduced)) {
                    Ok(truncated(reduced, limit))
                } else {
                    Err(fault(Stage::Concatenation, ragged_text()))
                },
            },
        }
    }
}

/// Finishes a scan.
///
/// Without tables the result is the empty table over the projected schema.
/// Else the tables are put under one another in their order, the reducers are
/// applied to the result, and that is cut to the first `limit` rows: the
/// result is what `finished` says.
pub fn finalize<A: Reducer>(tables: Vec<DataFrame>, schema: &Vec<Field>, projection: &Vec<usize>, aggregate: Option<&Vec<A>>, limit: usize) -> (out: Result<DataFrame, ScanError>)
    requires
        projection_fits(projection@, schema@.len()),
    ensures
        out matches Ok(frame) ==> rectangular(frame_columns(frame)) && height(
            frame_columns(frame),
        ) <= limit,
        out matches Err(error) ==> error.stage == Stage::Concatenation || (aggregate is Some
            && error.stage == Stage::Aggregation),
        tables@.len() == 0 ==> (out matches Ok(frame) && frame_columns(frame) == empty_columns(
            projected(schema@, projection@),
        )),
        tables@.len() > 0 && !(all_rectangular(frame_views(tables@)) && total_height(
            frame_views(tables@),
        ) <= IdxSize::MAX) ==> (out matches Err(error) && error.stage == Stage::Concatenation),
        tables@.len() > 0 ==> (aggregate matches Some(reducers) ==> (out matches Ok(frame)
            ==> frame_columns(frame).len() == reducers@.len())),
        follows(out, finished(tables@, schema@, projection@, aggregate, limit)),
        tables@.len() > 0 && aggregate is None ==> (out matches Ok(frame) ==> frame_columns(frame)
            == concatenated(frame_views(tables@), limit)),
        tables@.len() > 0 && aggregate is None && all_rectangular(frame_views(tables@))
            && total_height(frame_views(tables@)) <= IdxSize::MAX && all_stackable(
            frame_views(tables@),
        ) ==> out is Ok,
{
    if tables.is_empty() {
        let table = empty_table(schema, projection);
        proof {
            let columns = empty_columns(projected(schema@, projection@));
            assert(rectangular(columns));
            assert(height(columns) == 0);
        }
        return table;
    }
    if stacked_height(&tables).is_none() {
        return Err(ScanError::new(Stage::Concatenation, "the tables do not fit one table"));
    }
    proof {
        if all_stackable(frame_views(tables@)) {
            lemma_stack_all_rectangular(frame_views(tables@));
        }
    }
    let whole = match vstack(tables) {
        Ok(frame) => frame,
        Err(error) => {
            return Err(ScanError { stage: Stage::Concatenation, message: error_text(&error) });
        },
    };
    let reduced = match apply_aggregations(whole, aggregate) {
        Ok(frame) => frame,
        Err(error) => {
            return Err(error);
        },
    };
    let out = truncate(reduced, limit);
    proof {
        if out is Ok {
            let before = frame_columns(reduced);
            let after = frame_columns(out->Ok_0);
            assert(after == cut(before, limit as nat));
            assert(rectangular(after)) by {
                assert forall|i: int| 0 <= i < after.len() implies (#[trigger] after[i]).len
                    == height(after) by {
                    assert(before[i].len == height(before));
                }
            }
        }
    }
    out
}

} // verus!
