//! What is settled before a scan runs: which row groups the statistics rule
//! out, and, for a scan without predicate and reducers, the names, types and
//! lengths of the columns of every table on the way, from the sizes of the row
//! groups and the items that the decoders yield.

use crate::budget::{budget_before, cap_for, rows_before};
use crate::chunk::Chunk;
use crate::error::{Failure, Stage};
use crate::fanout::{all_made, column_views};
use crate::finish::{concatenated, empty_columns, lemma_concatenated_height};
use crate::frame::{
    all_rectangular, all_stackable, height, keeps_columns, rectangular, row_count_column,
    stack_all,
    total_height, ColumnView, IdxSize,
};
use crate::schema::{identity, projected, Field};
use crate::select::{is_fatal, rules_out};
use crate::source::{Predicate, RowCount, Source, Statistics};
use vstd::prelude::*;

verus! {

/// The number at which the row count starts: the offset asked for, and zero
/// where no row count is asked for.
pub open spec fn first_row(row_count: Option<RowCount>) -> nat {
    match row_count {
        Some(row_count) => row_count.offset as nat,
        None => 0,
    }
}

/// The rows of the file, counted from the first row's number, fit the row
/// counter.
pub open spec fn countable(sizes: Seq<nat>, row_count: Option<RowCount>) -> bool {
    rows_before(sizes, sizes.len() as int) + first_row(row_count) <= IdxSize::MAX
}

/// The statistics by which the predicate judges the row groups; `None` where
/// there is no predicate, it has no statistics evaluator, the file has no row
/// group or no statistics, or collecting them fails.
pub open spec fn evidence<S: Source, P: Predicate>(
    source: S,
    predicate: Option<&P>,
    schema: Seq<Field>,
    groups: nat,
) -> Option<Statistics> {
    match predicate {
        Some(predicate) => if groups > 0 && predicate.judges() {
            match source.statistics(schema) {
                Ok(statistics) => statistics,
                Err(_) => None,
            }
        } else {
            None
        },
        None => None,
    }
}

/// The statistics are asked for, and collecting them fails.
pub open spec fn evidence_fails<S: Source, P: Predicate>(
    source: S,
    predicate: Option<&P>,
    schema: Seq<Field>,
    groups: nat,
) -> bool {
    predicate matches Some(predicate) && groups > 0 && predicate.judges() && source.statistics(
        schema,
    ) is Err
}

/// The answer of the statistics evaluator on a row group; `None` where there
/// is nothing to judge by.
pub open spec fn verdict<P: Predicate>(
    predicate: Option<&P>,
    evidence: Option<Statistics>,
    row_group: usize,
) -> Option<Result<bool, Failure>> {
    match (predicate, evidence) {
        (Some(predicate), Some(statistics)) => Some(predicate.judgement(statistics, row_group)),
        _ => None,
    }
}

/// The number of row groups among the first `upto` that are read, not
/// skipped.
pub open spec fn reads_before<P: Predicate>(
    predicate: Option<&P>,
    evidence: Option<Statistics>,
    upto: int,
) -> nat
    decreases upto,
{
    if upto <= 0 {
        0
    } else if rules_out(verdict(predicate, evidence, (upto - 1) as usize)) {
        reads_before(predicate, evidence, upto - 1)
    } else {
        reads_before(predicate, evidence, upto - 1) + 1
    }
}

/// The statistics rule out every one of the first `upto` row groups.
pub open spec fn all_ruled_out<P: Predicate>(
    predicate: Option<&P>,
    evidence: Option<Statistics>,
    upto: int,
) -> bool {
    forall|row_group: int|
        0 <= row_group < upto ==> rules_out(
            #[trigger] verdict(predicate, evidence, row_group as usize),
        )
}

/// Nothing of the file is read: the statistics are there where they are asked
/// for, and rule out every row group. A file without row groups is such a
/// file.
pub open spec fn nothing_read<S: Source, P: Predicate>(
    source: S,
    predicate: Option<&P>,
    schema: Seq<Field>,
    groups: nat,
) -> bool {
    !evidence_fails(source, predicate, schema, groups) && all_ruled_out(
        predicate,
        evidence(source, predicate, schema, groups),
        groups as int,
    )
}

/// The number of row groups of the file that are read, not skipped.
pub open spec fn reads<S: Source, P: Predicate>(
    source: S,
    predicate: Option<&P>,
    schema: Seq<Field>,
    groups: nat,
) -> nat {
    reads_before(predicate, evidence(source, predicate, schema, groups), groups as int)
}

/// No row group gets an answer from the statistics evaluator that ends the
/// scan.
pub open spec fn none_fatal<S: Source, P: Predicate>(
    source: S,
    predicate: Option<&P>,
    schema: Seq<Field>,
    groups: nat,
) -> bool {
    forall|row_group: int|
        0 <= row_group < groups ==> !is_fatal(
            #[trigger] verdict(
                predicate,
                evidence(source, predicate, schema, groups),
                row_group as usize,
            ),
        )
}

/// The projection of a scan: the one given, or the whole schema.
pub open spec fn chosen(projection: Option<&Vec<usize>>, width: nat) -> Seq<usize> {
    match projection {
        Some(projection) => projection@,
        None => identity(width),
    }
}

/// Where every row group is ruled out, none is read.
pub proof fn lemma_none_read<P: Predicate>(
    predicate: Option<&P>,
    evidence: Option<Statistics>,
    upto: int,
)
    requires
        all_ruled_out(predicate, evidence, upto),
    ensures
        reads_before(predicate, evidence, upto) == 0,
    decreases upto,
{
    if upto > 0 {
        lemma_none_read(predicate, evidence, upto - 1);
        assert(rules_out(verdict(predicate, evidence, (upto - 1) as usize)));
    }
}

/// The decoder of every projected column of the row group can be opened.
pub open spec fn all_open<S: Source>(
    source: S,
    row_group: usize,
    schema: Seq<Field>,
    projection: Seq<usize>,
    remaining: usize,
    num_rows: usize,
    upto: int,
) -> bool {
    forall|j: int|
        0 <= j < upto ==> (#[trigger] source.decoded(
            row_group,
            schema[projection[j] as int],
            remaining,
            num_rows,
        )) is Some
}

/// The items of the projected columns of the row group, in the order of the
/// projection.
pub open spec fn group_items<S: Source>(
    source: S,
    row_group: usize,
    schema: Seq<Field>,
    projection: Seq<usize>,
    remaining: usize,
    num_rows: usize,
) -> Seq<Seq<Result<Chunk, Failure>>> {
    Seq::new(
        projection.len(),
        |j: int|
            source.decoded(row_group, schema[projection[j] as int], remaining, num_rows)->0,
    )
}

/// The columns of the table that is made of the given items: the projected
/// columns, behind the row-count column where one is asked for. `None` where
/// a column cannot be made, the columns differ in length, or the row count
/// would pass the row counter.
pub open spec fn table_of(
    items: Seq<Seq<Result<Chunk, Failure>>>,
    schema: Seq<Field>,
    projection: Seq<usize>,
    cap: Option<usize>,
    row_count: Option<RowCount>,
    previous: nat,
) -> Option<Seq<ColumnView>> {
    let columns = column_views(items, schema, projection, cap);
    if !all_made(items, schema, projection, cap, projection.len() as int) || !rectangular(columns) {
        None
    } else {
        match row_count {
            None => Some(columns),
            Some(row_count) => if height(columns) + previous + row_count.offset > IdxSize::MAX {
                None
            } else {
                Some(seq![row_count_column(row_count.name@, height(columns))] + columns)
            },
        }
    }
}

/// The columns of the table of a row group of `num_rows` rows, read under a
/// budget of `remaining` rows after `previous` rows of the file; `None` where
/// the row group cannot be read.
pub open spec fn group_table<S: Source>(
    source: S,
    row_group: usize,
    num_rows: usize,
    schema: Seq<Field>,
    projection: Seq<usize>,
    remaining: usize,
    previous: nat,
    row_count: Option<RowCount>,
) -> Option<Seq<ColumnView>> {
    if all_open(source, row_group, schema, projection, remaining, num_rows, projection.len() as int) {
        table_of(
            group_items(source, row_group, schema, projection, remaining, num_rows),
            schema,
            projection,
            cap_for(remaining, num_rows),
            row_count,
            previous,
        )
    } else {
        None
    }
}

/// The columns of the tables of the first `upto` row groups, in file order;
/// `None` where one of them cannot be read.
pub open spec fn tables_before<S: Source>(
    source: S,
    sizes: Seq<nat>,
    schema: Seq<Field>,
    projection: Seq<usize>,
    limit: usize,
    row_count: Option<RowCount>,
    upto: int,
) -> Option<Seq<Seq<ColumnView>>>
    decreases upto,
{
    if upto <= 0 {
        Some(Seq::empty())
    } else {
        match (
            tables_before(source, sizes, schema, projection, limit, row_count, upto - 1),
            group_table(
                source,
                (upto - 1) as usize,
                sizes[upto - 1] as usize,
                schema,
                projection,
                budget_before(limit as nat, sizes, upto - 1) as usize,
                rows_before(sizes, upto - 1),
                row_count,
            ),
        ) {
            (Some(tables), Some(table)) => Some(tables.push(table)),
            _ => None,
        }
    }
}

/// Where the first row groups cannot all be read, no more of them can.
pub proof fn lemma_tables_before_none<S: Source>(
    source: S,
    sizes: Seq<nat>,
    schema: Seq<Field>,
    projection: Seq<usize>,
    limit: usize,
    row_count: Option<RowCount>,
    upto: int,
    later: int,
)
    requires
        0 <= upto <= later,
        tables_before(source, sizes, schema, projection, limit, row_count, upto) is None,
    ensures
        tables_before(source, sizes, schema, projection, limit, row_count, later) is None,
    decreases later - upto,
{
    if upto < later {
        lemma_tables_before_none(source, sizes, schema, projection, limit, row_count, upto, later - 1);
    }
}

/// The columns that every table of a scan has, each without rows: the
/// projected fields, behind the row-count column where one is asked for.
pub open spec fn template(
    schema: Seq<Field>,
    projection: Seq<usize>,
    row_count: Option<RowCount>,
) -> Seq<ColumnView> {
    match row_count {
        None => empty_columns(projected(schema, projection)),
        Some(row_count) => seq![row_count_column(row_count.name@, 0)] + empty_columns(
            projected(schema, projection),
        ),
    }
}

/// The columns have the names and types of the template, all types known.
pub open spec fn shaped(columns: Seq<ColumnView>, template: Seq<ColumnView>) -> bool {
    columns.len() == template.len() && forall|j: int|
        0 <= j < columns.len() ==> (#[trigger] columns[j]).name == template[j].name
            && columns[j].data_type == template[j].data_type && columns[j].data_type is Some
}

/// Every table has the columns of the template, all of one length.
pub open spec fn all_shaped(tables: Seq<Seq<ColumnView>>, template: Seq<ColumnView>) -> bool {
    forall|i: int|
        0 <= i < tables.len() ==> shaped(#[trigger] tables[i], template) && rectangular(tables[i])
}

/// What is left of a table with the columns of the template when rows are
/// taken out of it has those columns too.
pub proof fn lemma_kept_shaped(
    before: Seq<ColumnView>,
    after: Seq<ColumnView>,
    template: Seq<ColumnView>,
)
    requires
        shaped(before, template),
        keeps_columns(before, after),
    ensures
        shaped(after, template),
{
    assert forall|j: int| 0 <= j < after.len() implies (#[trigger] after[j]).name
        == template[j].name && after[j].data_type == template[j].data_type
        && after[j].data_type is Some by {
        assert(before[j].name == template[j].name);
    }
}

/// The table of a row group has the columns of the template, all of one
/// length.
pub proof fn lemma_table_of_shaped(
    items: Seq<Seq<Result<Chunk, Failure>>>,
    schema: Seq<Field>,
    projection: Seq<usize>,
    cap: Option<usize>,
    row_count: Option<RowCount>,
    previous: nat,
)
    requires
        table_of(items, schema, projection, cap, row_count, previous) is Some,
    ensures
        shaped(
            table_of(items, schema, projection, cap, row_count, previous)->0,
            template(schema, projection, row_count),
        ),
        rectangular(table_of(items, schema, projection, cap, row_count, previous)->0),
{
    let columns = column_views(items, schema, projection, cap);
    let table = table_of(items, schema, projection, cap, row_count, previous)->0;
    if row_count is Some {
        assert forall|j: int| 0 <= j < table.len() implies (#[trigger] table[j]).len == height(
            table,
        ) by {
            if j > 0 {
                assert(table[j] == columns[j - 1]);
                assert(columns[j - 1].len == height(columns));
            }
        }
    }
}

/// The tables of the first row groups all have the columns of the template,
/// each table of one length.
pub proof fn lemma_tables_shaped<S: Source>(
    source: S,
    sizes: Seq<nat>,
    schema: Seq<Field>,
    projection: Seq<usize>,
    limit: usize,
    row_count: Option<RowCount>,
    upto: int,
)
    requires
        0 <= upto,
        tables_before(source, sizes, schema, projection, limit, row_count, upto) is Some,
    ensures
        ({
            let tables = tables_before(source, sizes, schema, projection, limit, row_count, upto)->0;
            &&& tables.len() == upto
            &&& all_rectangular(tables)
            &&& forall|i: int|
                0 <= i < tables.len() ==> shaped(
                    #[trigger] tables[i],
                    template(schema, projection, row_count),
                )
        }),
    decreases upto,
{
    if upto > 0 {
        lemma_tables_shaped(source, sizes, schema, projection, limit, row_count, upto - 1);
        let remaining = budget_before(limit as nat, sizes, upto - 1) as usize;
        let num_rows = sizes[upto - 1] as usize;
        lemma_table_of_shaped(
            group_items(source, (upto - 1) as usize, schema, projection, remaining, num_rows),
            schema,
            projection,
            cap_for(remaining, num_rows),
            row_count,
            rows_before(sizes, upto - 1),
        );
    }
}

/// Tables that all have the columns of one template can go under one another,
/// and together have those columns again.
pub proof fn lemma_shaped_stackable(tables: Seq<Seq<ColumnView>>, template: Seq<ColumnView>)
    requires
        tables.len() > 0,
        forall|i: int| 0 <= i < tables.len() ==> shaped(#[trigger] tables[i], template),
    ensures
        all_stackable(tables),
        shaped(stack_all(tables), template),
    decreases tables.len(),
{
    if tables.len() > 1 {
        let before = tables.drop_last();
        assert forall|i: int| 0 <= i < before.len() implies shaped(#[trigger] before[i], template) by {
            assert(before[i] == tables[i]);
        }
        lemma_shaped_stackable(before, template);
        assert(shaped(tables.last(), template)) by {
            assert(tables.last() == tables[tables.len() - 1]);
        }
    } else {
        assert(shaped(tables[0], template));
    }
}

/// The columns of the table that a scan without predicate and reducers
/// gives, or the stage at which it fails.
pub open spec fn plain_scan<S: Source>(
    source: S,
    sizes: Seq<nat>,
    schema: Seq<Field>,
    projection: Seq<usize>,
    limit: usize,
    row_count: Option<RowCount>,
) -> Result<Seq<ColumnView>, Stage> {
    if !countable(sizes, row_count) {
        Err(Stage::Metadata)
    } else {
        match tables_before(source, sizes, schema, projection, limit, row_count, sizes.len() as int) {
            None => Err(Stage::Decode),
            Some(tables) => if tables.len() == 0 {
                Ok(empty_columns(projected(schema, projection)))
            } else if total_height(tables) > IdxSize::MAX {
                Err(Stage::Concatenation)
            } else {
                Ok(concatenated(tables, limit))
            },
        }
    }
}

/// The table of a scan without predicate and reducers has columns of one
/// length. It is as high as the tables of its row groups together, and as high
/// as the limit where that is less: no scan gives more rows than the limit.
pub proof fn lemma_plain_scan_height<S: Source>(
    source: S,
    sizes: Seq<nat>,
    schema: Seq<Field>,
    projection: Seq<usize>,
    limit: usize,
    row_count: Option<RowCount>,
)
    requires
        plain_scan(source, sizes, schema, projection, limit, row_count) is Ok,
    ensures
        ({
            let tables = tables_before(
                source,
                sizes,
                schema,
                projection,
                limit,
                row_count,
                sizes.len() as int,
            )->0;
            let columns = plain_scan(source, sizes, schema, projection, limit, row_count)->Ok_0;
            &&& rectangular(columns)
            &&& height(columns) <= limit
            &&& height(columns) == if total_height(tables) < limit {
                total_height(tables)
            } else {
                limit as nat
            }
        }),
{
    let groups = sizes.len() as int;
    let tables = tables_before(source, sizes, schema, projection, limit, row_count, groups)->0;
    lemma_tables_shaped(source, sizes, schema, projection, limit, row_count, groups);
    if tables.len() > 0 {
        lemma_shaped_stackable(tables, template(schema, projection, row_count));
        lemma_concatenated_height(tables, limit);
    } else {
        assert(total_height(tables) == 0);
    }
}

/// Where the table of each row group is as high as the row group, a scan
/// without predicate and reducers gives all the rows of the file, or as many
/// as the limit allows where that is less.
pub proof fn lemma_plain_scan_full<S: Source>(
    source: S,
    sizes: Seq<nat>,
    schema: Seq<Field>,
    projection: Seq<usize>,
    limit: usize,
    row_count: Option<RowCount>,
)
    requires
        plain_scan(source, sizes, schema, projection, limit, row_count) is Ok,
        forall|i: int|
            0 <= i < sizes.len() ==> height(
                #[trigger] tables_before(
                    source,
                    sizes,
                    schema,
                    projection,
                    limit,
                    row_count,
                    sizes.len() as int,
                )->0[i],
            ) == sizes[i],
    ensures
        height(plain_scan(source, sizes, schema, projection, limit, row_count)->Ok_0) == if rows_before(
            sizes,
            sizes.len() as int,
        ) < limit {
            rows_before(sizes, sizes.len() as int)
        } else {
            limit as nat
        },
{
    let groups = sizes.len() as int;
    let tables = tables_before(source, sizes, schema, projection, limit, row_count, groups)->0;
    lemma_plain_scan_height(source, sizes, schema, projection, limit, row_count);
    lemma_tables_shaped(source, sizes, schema, projection, limit, row_count, groups);
    lemma_heights_are_sizes(tables, sizes, groups);
    assert(tables.take(groups) =~= tables);
}

/// Tables that are each as high as a row group are together as high as the
/// row groups.
proof fn lemma_heights_are_sizes(tables: Seq<Seq<ColumnView>>, sizes: Seq<nat>, upto: int)
    requires
        0 <= upto <= tables.len() == sizes.len(),
        forall|i: int| 0 <= i < sizes.len() ==> height(#[trigger] tables[i]) == sizes[i],
    ensures
        total_height(tables.take(upto)) == rows_before(sizes, upto),
    decreases upto,
{
    if upto > 0 {
        lemma_heights_are_sizes(tables, sizes, upto - 1);
        assert(tables.take(upto).drop_last() =~= tables.take(upto - 1));
        assert(tables.take(upto).last() == tables[upto - 1]);
    }
}

} // verus!
