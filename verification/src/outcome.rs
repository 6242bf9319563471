//! What a scan gives: the table itself, as the scan makes it step by step of
//! what the collaborators give, or the fault with which it fails.

use crate::budget::{budget_before, cap_for, rows_before};
use crate::error::{fault, fault_at, follows, Fault, ScanError, Stage};
use crate::fanout::{all_made, columns};
use crate::finish::{concatenated, empty_columns, finished};
use crate::frame::{
    counted, frame_columns, frame_views, height, rectangular, table_of_columns, total_height,
    views, IdxSize,
};
use crate::plan::{
    all_open, countable, evidence, evidence_fails, group_items, nothing_read, plain_scan, shaped,
    template, verdict,
};
use crate::schema::{projected, Field};
use crate::select::{is_fatal, rules_out};
use crate::source::{Predicate, Reducer, RowCount, Source, Statistics};
use crate::table::{aggregated, counter_text, ragged_text};
use polars_core::frame::DataFrame;
use vstd::prelude::*;

verus! {

/// The table with the row count in front, where one is asked for; `None`
/// where the row count would pass the row counter.
pub open spec fn with_count(
    table: DataFrame,
    row_count: Option<RowCount>,
    previous: IdxSize,
) -> Option<DataFrame> {
    match row_count {
        None => Some(table),
        Some(row_count) => if height(frame_columns(table)) + previous + row_count.offset
            > IdxSize::MAX {
            None
        } else {
            Some(counted(table, row_count.name@, (previous + row_count.offset) as IdxSize))
        },
    }
}

/// What the predicate keeps of the table, where there is one; where it fails,
/// a predicate error of its text.
pub open spec fn kept<P: Predicate>(
    table: DataFrame,
    predicate: Option<&P>,
) -> Result<DataFrame, Fault> {
    match predicate {
        None => Ok(table),
        Some(predicate) => match predicate.filtered(table) {
            Ok(table) => Ok(table),
            Err(failure) => Err(fault(Stage::Predicate, failure.text())),
        },
    }
}

/// The table of a row group of `num_rows` rows, read under a budget of
/// `remaining` rows after `previous` rows of the file: the projected columns
/// in the order of the projection, each made of the items of its decoder
/// under the cap that the budget sets; the row count in front, counting from
/// the rows before plus the offset asked for; of that, what the predicate
/// keeps; and of that, what the reducers make.
pub open spec fn group_outcome<S: Source, P: Predicate, A: Reducer>(
    source: S,
    predicate: Option<&P>,
    aggregate: Option<&Vec<A>>,
    row_group: usize,
    num_rows: usize,
    schema: Seq<Field>,
    projection: Seq<usize>,
    remaining: usize,
    previous: IdxSize,
    row_count: Option<RowCount>,
) -> Result<DataFrame, Fault> {
    let items = group_items(source, row_group, schema, projection, remaining, num_rows);
    let cap = cap_for(remaining, num_rows);
    let made = columns(items, schema, projection, cap);
    if !all_open(source, row_group, schema, projection, remaining, num_rows, projection.len() as int)
        || !all_made(items, schema, projection, cap, projection.len() as int) {
        Err(fault_at(Stage::Decode))
    } else if !rectangular(views(made)) {
        Err(fault(Stage::Decode, ragged_text()))
    } else {
        match with_count(table_of_columns(made), row_count, previous) {
            None => Err(fault(Stage::Decode, counter_text())),
            Some(table) => match kept(table, predicate) {
                Err(fault) => Err(fault),
                Ok(table) => aggregated(table, aggregate),
            },
        }
    }
}

/// The tables after the first `upto` row groups, in the order of the visits:
/// a row group that the statistics rule out adds none, every other adds its
/// own. Where a row group fails, the fault of the first that does; where the
/// statistics evaluator fails on a row group for another reason than missing
/// statistics, a statistics error of its text, and nothing of that row group
/// is read.
pub open spec fn tables_after<S: Source, P: Predicate, A: Reducer>(
    source: S,
    predicate: Option<&P>,
    aggregate: Option<&Vec<A>>,
    evidence: Option<Statistics>,
    sizes: Seq<nat>,
    schema: Seq<Field>,
    projection: Seq<usize>,
    limit: usize,
    row_count: Option<RowCount>,
    upto: int,
) -> Result<Seq<DataFrame>, Fault>
    decreases upto,
{
    if upto <= 0 {
        Ok(Seq::empty())
    } else {
        match tables_after(
            source,
            predicate,
            aggregate,
            evidence,
            sizes,
            schema,
            projection,
            limit,
            row_count,
            upto - 1,
        ) {
            Err(fault) => Err(fault),
            Ok(tables) => {
                let answer = verdict(predicate, evidence, (upto - 1) as usize);
                if is_fatal(answer) {
                    Err(fault(Stage::Statistics, answer->0->Err_0.text()))
                } else if rules_out(answer) {
                    Ok(tables)
                } else {
                    match group_outcome(
                        source,
                        predicate,
                        aggregate,
                        (upto - 1) as usize,
                        sizes[upto - 1] as usize,
                        schema,
                        projection,
                        budget_before(limit as nat, sizes, upto - 1) as usize,
                        rows_before(sizes, upto - 1) as IdxSize,
                        row_count,
                    ) {
                        Ok(table) => Ok(tables.push(table)),
                        Err(fault) => Err(fault),
                    }
                }
            },
        }
    }
}

/// The tables of a scan over row groups of the given sizes, or the fault with
/// which the scan fails before it has them all: on the metadata where the
/// rows cannot be counted; on the statistics, with the text of the failure,
/// where they are asked for and cannot be collected; else as `tables_after`
/// says.
pub open spec fn scanned_tables<S: Source, P: Predicate, A: Reducer>(
    source: S,
    predicate: Option<&P>,
    aggregate: Option<&Vec<A>>,
    sizes: Seq<nat>,
    schema: Seq<Field>,
    projection: Seq<usize>,
    limit: usize,
    row_count: Option<RowCount>,
) -> Result<Seq<DataFrame>, Fault> {
    if !countable(sizes, row_count) {
        Err(fault(Stage::Metadata, counter_text()))
    } else if evidence_fails(source, predicate, schema, sizes.len()) {
        Err(fault(Stage::Statistics, source.statistics(schema)->Err_0.text()))
    } else {
        tables_after(
            source,
            predicate,
            aggregate,
            evidence(source, predicate, schema, sizes.len()),
            sizes,
            schema,
            projection,
            limit,
            row_count,
            sizes.len() as int,
        )
    }
}

/// The table that a scan gives, or the fault with which it fails.
pub open spec fn scan_outcome<S: Source, P: Predicate, A: Reducer>(
    source: S,
    predicate: Option<&P>,
    aggregate: Option<&Vec<A>>,
    sizes: Seq<nat>,
    schema: Seq<Field>,
    projection: Seq<usize>,
    limit: usize,
    row_count: Option<RowCount>,
) -> Result<DataFrame, Fault> {
    match scanned_tables(
        source,
        predicate,
        aggregate,
        sizes,
        schema,
        projection,
        limit,
        row_count,
    ) {
        Ok(tables) => finished(tables, schema, projection, aggregate, limit),
        Err(fault) => Err(fault),
    }
}

/// A scan over row groups of the given sizes went as it is bound to go.
///
/// It gives the table of `scan_outcome`, or fails with its fault. So it fails
/// on the metadata where the rows cannot be counted, and only there. Where
/// nothing of the file is read, it gives the empty table over the projected
/// schema. Without predicate and reducers it gives columns of the names,
/// types and lengths of `plain_scan`. Without reducers its columns are the
/// projected fields, in the order of the projection, behind the row count
/// where one is asked for; and once every row group is read or skipped, it
/// succeeds where the tables together fit the row counter, with the tables
/// put under one another in the order of the row groups and cut to the
/// limit.
pub open spec fn went_as_planned<S: Source, P: Predicate, A: Reducer>(
    source: S,
    predicate: Option<&P>,
    aggregate: Option<&Vec<A>>,
    sizes: Seq<nat>,
    schema: Seq<Field>,
    projection: Seq<usize>,
    limit: usize,
    row_count: Option<RowCount>,
    out: Result<DataFrame, ScanError>,
) -> bool {
    &&& follows(
        out,
        scan_outcome(source, predicate, aggregate, sizes, schema, projection, limit, row_count),
    )
    &&& !countable(sizes, row_count) <==> (out matches Err(error) && error.stage == Stage::Metadata)
    &&& countable(sizes, row_count) && nothing_read(source, predicate, schema, sizes.len()) ==> (
    out matches Ok(frame) && frame_columns(frame) == empty_columns(projected(schema, projection)))
    &&& predicate is None && aggregate is None ==> match plain_scan(
        source,
        sizes,
        schema,
        projection,
        limit,
        row_count,
    ) {
        Ok(columns) => out matches Ok(frame) && frame_columns(frame) == columns,
        Err(stage) => out matches Err(error) && error.stage == stage,
    }
    &&& aggregate is None ==> (out matches Ok(frame) ==> shaped(
        frame_columns(frame),
        template(schema, projection, row_count),
    ) || frame_columns(frame) == empty_columns(projected(schema, projection)))
    &&& aggregate is None ==> match scanned_tables(
        source,
        predicate,
        aggregate,
        sizes,
        schema,
        projection,
        limit,
        row_count,
    ) {
        Ok(tables) => tables.len() > 0 && total_height(frame_views(tables)) <= IdxSize::MAX ==> (
        out matches Ok(frame) && frame_columns(frame) == concatenated(frame_views(tables), limit)),
        Err(_) => true,
    }
}

/// Two scans of the same file, with the same projection, predicate, reducers,
/// limit and row count, agree, whichever of them sent its columns through the
/// worker pool: both give the same table, or both fail at the same stage,
/// with the same text where the text is settled.
pub proof fn lemma_scans_agree<S: Source, P: Predicate, A: Reducer>(
    source: S,
    predicate: Option<&P>,
    aggregate: Option<&Vec<A>>,
    sizes: Seq<nat>,
    schema: Seq<Field>,
    projection: Seq<usize>,
    limit: usize,
    row_count: Option<RowCount>,
    one: Result<DataFrame, ScanError>,
    other: Result<DataFrame, ScanError>,
)
    requires
        went_as_planned(source, predicate, aggregate, sizes, schema, projection, limit, row_count, one),
        went_as_planned(
            source,
            predicate,
            aggregate,
            sizes,
            schema,
            projection,
            limit,
            row_count,
            other,
        ),
    ensures
        one is Ok <==> other is Ok,
        one is Ok ==> one->Ok_0 == other->Ok_0,
        one is Err ==> one->Err_0.stage == other->Err_0.stage,
        one is Err && scan_outcome(
            source,
            predicate,
            aggregate,
            sizes,
            schema,
            projection,
            limit,
            row_count,
        )->Err_0.text is Some ==> one->Err_0.message@ == other->Err_0.message@,
{
}

/// Where the first row groups fail, so do more of them, with the same fault.
pub proof fn lemma_tables_after_fail<S: Source, P: Predicate, A: Reducer>(
    source: S,
    predicate: Option<&P>,
    aggregate: Option<&Vec<A>>,
    evidence: Option<Statistics>,
    sizes: Seq<nat>,
    schema: Seq<Field>,
    projection: Seq<usize>,
    limit: usize,
    row_count: Option<RowCount>,
    upto: int,
    later: int,
)
    requires
        0 <= upto <= later,
        tables_after(
            source,
            predicate,
            aggregate,
            evidence,
            sizes,
            schema,
            projection,
            limit,
            row_count,
            upto,
        ) is Err,
    ensures
        tables_after(
            source,
            predicate,
            aggregate,
            evidence,
            sizes,
            schema,
            projection,
            limit,
            row_count,
            later,
        ) == tables_after(
            source,
            predicate,
            aggregate,
            evidence,
            sizes,
            schema,
            projection,
            limit,
            row_count,
            upto,
        ),
    decreases later - upto,
{
    if upto < later {
        lemma_tables_after_fail(
            source,
            predicate,
            aggregate,
            evidence,
            sizes,
            schema,
            projection,
            limit,
            row_count,
            upto,
            later - 1,
        );
    }
}

} // verus!
