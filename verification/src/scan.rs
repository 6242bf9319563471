//! The row-group scan loop.

use crate::budget::{
    budget_before, lemma_rows_before_monotone, monus, rows_before, rows_in_all, ScanState,
};
use crate::error::{Fault, ScanError, Stage};
use crate::fanout::{read_columns, use_pool};
use crate::finish::finalize;
use crate::frame::{cut, frame_columns, frame_views, height, rectangular, stack_all, IdxSize};
use crate::materialize::finite;
use crate::outcome::{
    group_outcome, lemma_tables_after_fail, scanned_tables, tables_after,
    went_as_planned,
};
use crate::plan::{
    all_open, all_ruled_out, chosen, countable, evidence, evidence_fails, first_row, group_items,
    group_table, lemma_none_read, lemma_shaped_stackable, lemma_tables_before_none,
    all_shaped, lemma_kept_shaped, lemma_table_of_shaped, lemma_tables_shaped, none_fatal,
    nothing_read, reads, reads_before, shaped, tables_before,
    template, verdict,
};
use crate::schema::{identity_projection, projected, projection_fits, Field};
use crate::select::{is_fatal, select_row_group, Selection};
use crate::source::{FileMetaData, Predicate, Reducer, RowCount, Source, Statistics};
use crate::table::{apply_aggregations, apply_predicate, assemble, attach_row_count};
use polars_core::frame::DataFrame;
use rayon::ThreadPool;
use vstd::prelude::*;
use vstd::std_specs::iter::IteratorSpec;

verus! {

/// Whether the rows of the file can be counted.
pub fn check_countable(metadata: &FileMetaData, row_count: &Option<RowCount>) -> (fits: bool)
    ensures
        fits == countable(metadata.sizes(), *row_count),
{
    let ghost sizes = metadata.sizes();
    let mut total: usize = match row_count {
        Some(row_count) => row_count.offset as usize,
        None => 0,
    };
    let mut i: usize = 0;
    while i < metadata.row_groups.len()
        invariant
            i <= metadata.row_groups@.len() == sizes.len(),
            sizes == metadata.sizes(),
            total == rows_before(sizes, i as int) + first_row(*row_count),
            total <= IdxSize::MAX,
        decreases metadata.row_groups@.len() - i,
    {
        let num_rows = metadata.row_groups[i].num_rows;
        if num_rows > (IdxSize::MAX as usize) - total {
            proof {
                lemma_rows_before_monotone(sizes, i as int + 1, sizes.len() as int);
            }
            return false;
        }
        total = total + num_rows;
        i += 1;
    }
    true
}

/// Opens the decoders of the projected columns of one row group, in the order
/// of the projection.
fn open_columns<S: Source>(source: &S, row_group: usize, schema: &Vec<Field>, projection: &Vec<usize>, num_rows: usize, chunk_size: usize) -> (opened: Result<Vec<S::Chunks>, ScanError>)
    requires
        projection_fits(projection@, schema@.len()),
    ensures
        opened matches Ok(iters) ==> iters@.len() == projection@.len() && forall|i: int|
            0 <= i < iters@.len() ==> finite(#[trigger] &iters@[i]),
        opened matches Ok(iters) ==> iters@.map_values(|iter: S::Chunks| iter.remaining())
            == group_items(*source, row_group, schema@, projection@, num_rows, chunk_size),
        opened is Ok <==> all_open(
            *source,
            row_group,
            schema@,
            projection@,
            num_rows,
            chunk_size,
            projection@.len() as int,
        ),
        opened matches Err(error) ==> error.stage == Stage::Decode,
{
    let ghost items = group_items(*source, row_group, schema@, projection@, num_rows, chunk_size);
    let mut iters: Vec<S::Chunks> = Vec::new();
    let mut i: usize = 0;
    while i < projection.len()
        invariant
            i <= projection@.len(),
            projection_fits(projection@, schema@.len()),
            items == group_items(*source, row_group, schema@, projection@, num_rows, chunk_size),
            iters@.len() == i,
            forall|j: int| 0 <= j < i ==> finite(#[trigger] &iters@[j]),
            forall|j: int| 0 <= j < i ==> (#[trigger] iters@[j]).remaining() == items[j],
            all_open(*source, row_group, schema@, projection@, num_rows, chunk_size, i as int),
        decreases projection@.len() - i,
    {
        match source.column_chunks(row_group, &schema[projection[i]], num_rows, chunk_size) {
            Ok(chunks) => iters.push(chunks),
            Err(failure) => {
                assert(source.decoded(
                    row_group,
                    schema@[projection@[i as int] as int],
                    num_rows,
                    chunk_size,
                ) is None);
                return Err(failure.at(Stage::Decode));
            },
        }
        i += 1;
    }
    assert(iters@.map_values(|iter: S::Chunks| iter.remaining()) =~= items);
    Ok(iters)
}

/// Reads one row group and appends its table to the state.
///
/// The projected columns are decoded, capped at the budget where the budget is
/// smaller than the row group; the table is made of them; the row-count
/// column, the predicate and the reducers are applied in that order. Then both
/// counters move past the row group by its full size, whatever the predicate
/// kept. On an error the state is as it was. The table appended is that of
/// `group_outcome`, and the error bears its fault.
pub fn read_row_group<S: Source, P: Predicate, A: Reducer>(
    source: &S,
    state: &mut ScanState,
    row_group: usize,
    num_rows: usize,
    schema: &Vec<Field>,
    projection: &Vec<usize>,
    predicate: Option<&P>,
    aggregate: Option<&Vec<A>>,
    parallel: bool,
    row_count: &Option<RowCount>,
    pool: &ThreadPool,
) -> (read: Result<(), ScanError>)
    requires
        projection_fits(projection@, schema@.len()),
        old(state).previous_row_count + num_rows + first_row(*row_count) <= IdxSize::MAX,
    ensures
        read is Ok ==> final(state).tables@.len() == old(state).tables@.len() + 1,
        read is Ok ==> final(state).tables@.drop_last() == old(state).tables@,
        read is Ok ==> final(state).remaining_rows == monus(
            old(state).remaining_rows as nat,
            num_rows as nat,
        ),
        read is Ok ==> final(state).previous_row_count == old(state).previous_row_count + num_rows,
        read is Err ==> *final(state) == *old(state),
        read matches Err(error) ==> error.stage == Stage::Decode || (predicate is Some
            && error.stage == Stage::Predicate) || (aggregate is Some && error.stage
            == Stage::Aggregation),
        predicate is None && aggregate is None ==> match group_table(
            *source,
            row_group,
            num_rows,
            schema@,
            projection@,
            old(state).remaining_rows,
            old(state).previous_row_count as nat,
            *row_count,
        ) {
            Some(table) => read is Ok && frame_columns(final(state).tables@.last()) == table,
            None => read is Err,
        },
        match group_outcome(
            *source,
            predicate,
            aggregate,
            row_group,
            num_rows,
            schema@,
            projection@,
            old(state).remaining_rows,
            old(state).previous_row_count,
            *row_count,
        ) {
            Ok(table) => read is Ok && final(state).tables@.last() == table,
            Err(fault) => read matches Err(error) && error.carries(fault),
        },
        aggregate is None && read is Ok ==> shaped(
            frame_columns(final(state).tables@.last()),
            template(schema@, projection@, *row_count),
        ) && rectangular(frame_columns(final(state).tables@.last())),
{
    let cap = state.row_cap(num_rows);
    let iters = match open_columns(source, row_group, schema, projection, state.remaining_rows, num_rows) {
        Ok(iters) => iters,
        Err(error) => {
            return Err(error);
        },
    };
    let columns = match read_columns(pool, iters, schema, projection, cap, parallel) {
        Ok(columns) => columns,
        Err(error) => {
            return Err(error);
        },
    };
    let mut table = match assemble(columns, Stage::Decode) {
        Ok(table) => table,
        Err(error) => {
            return Err(error);
        },
    };
    match row_count {
        Some(row_count) => match attach_row_count(&mut table, row_count, state.previous_row_count) {
            Ok(()) => {},
            Err(error) => {
                return Err(error);
            },
        },
        None => {},
    }
    proof {
        let items = group_items(
            *source,
            row_group,
            schema@,
            projection@,
            state.remaining_rows,
            num_rows,
        );
        lemma_table_of_shaped(
            items,
            schema@,
            projection@,
            cap,
            *row_count,
            state.previous_row_count as nat,
        );
    }
    let ghost whole = frame_columns(table);
    let table = match apply_predicate(table, predicate) {
        Ok(table) => table,
        Err(error) => {
            return Err(error);
        },
    };
    proof {
        lemma_kept_shaped(whole, frame_columns(table), template(schema@, projection@, *row_count));
    }
    let table = match apply_aggregations(table, aggregate) {
        Ok(table) => table,
        Err(error) => {
            return Err(error);
        },
    };
    state.advance(num_rows);
    state.accumulate(table);
    proof {
        assert(state.tables@.drop_last() =~= old(state).tables@);
    }
    Ok(())
}

/// Visits the row groups of a file in file order, and gives the state after
/// the last.
///
/// A row group that the statistics rule out is skipped: nothing of it is
/// decoded and no table comes of it. Every other row group is read. Read or
/// skipped, each row group moves both counters by its full size. The first
/// answer of the statistics evaluator that is a failure other than missing
/// statistics ends the scan with an error of its text. The tables are those
/// of `scanned_tables`, and the error bears its fault.
pub fn scan_row_groups<S: Source, P: Predicate, A: Reducer>(
    source: &S,
    metadata: &FileMetaData,
    limit: usize,
    schema: &Vec<Field>,
    projection: &Vec<usize>,
    predicate: Option<&P>,
    aggregate: Option<&Vec<A>>,
    parallel: bool,
    row_count: &Option<RowCount>,
    pool: &ThreadPool,
) -> (scanned: Result<ScanState, ScanError>)
    requires
        projection_fits(projection@, schema@.len()),
    ensures
        !countable(metadata.sizes(), *row_count) <==> (scanned matches Err(error) && error.stage
            == Stage::Metadata),
        countable(metadata.sizes(), *row_count) && nothing_read(
            *source,
            predicate,
            schema@,
            metadata.sizes().len(),
        ) ==> scanned is Ok,
        scanned matches Ok(state) ==> state.previous_row_count == rows_in_all(metadata.sizes()),
        scanned matches Ok(state) ==> state.remaining_rows == budget_before(
            limit as nat,
            metadata.sizes(),
            metadata.sizes().len() as int,
        ),
        scanned matches Ok(state) ==> state.tables@.len() == reads(
            *source,
            predicate,
            schema@,
            metadata.sizes().len(),
        ),
        scanned is Ok ==> none_fatal(*source, predicate, schema@, metadata.sizes().len()),
        scanned matches Err(error) ==> error.stage != Stage::Concatenation && (error.stage
            == Stage::Statistics || error.stage == Stage::Predicate ==> predicate is Some) && (
        error.stage == Stage::Aggregation ==> aggregate is Some),
        predicate is None && aggregate is None && countable(metadata.sizes(), *row_count)
            ==> match tables_before(
            *source,
            metadata.sizes(),
            schema@,
            projection@,
            limit,
            *row_count,
            metadata.sizes().len() as int,
        ) {
            Some(tables) => scanned matches Ok(state) && frame_views(state.tables@) == tables,
            None => scanned matches Err(error) && error.stage == Stage::Decode,
        },
        match scanned_tables(
            *source,
            predicate,
            aggregate,
            metadata.sizes(),
            schema@,
            projection@,
            limit,
            *row_count,
        ) {
            Ok(tables) => scanned matches Ok(state) && state.tables@ == tables,
            Err(fault) => scanned matches Err(error) && error.carries(fault),
        },
        aggregate is None ==> (scanned matches Ok(state) ==> all_shaped(
            frame_views(state.tables@),
            template(schema@, projection@, *row_count),
        )),
{
    if !check_countable(metadata, row_count) {
        return Err(ScanError::new(Stage::Metadata, "more rows than the row counter holds"));
    }
    let ghost sizes = metadata.sizes();
    let groups = metadata.row_groups.len();
    let pooled = use_pool(parallel, projection.len());
    let judged = match predicate {
        Some(predicate) => groups > 0 && predicate.has_stats_evaluator(),
        None => false,
    };
    let statistics: Option<Statistics> = if judged {
        match source.collect_statistics(schema) {
            Ok(statistics) => statistics,
            Err(failure) => {
                return Err(failure.at(Stage::Statistics));
            },
        }
    } else {
        None
    };
    let mut state = ScanState::new(limit);
    let mut rg: usize = 0;
    while rg < groups
        invariant
            rg <= groups == metadata.row_groups@.len() == sizes.len(),
            sizes == metadata.sizes(),
            countable(sizes, *row_count),
            projection_fits(projection@, schema@.len()),
            state.previous_row_count == rows_before(sizes, rg as int),
            state.remaining_rows == budget_before(limit as nat, sizes, rg as int),
            predicate is None ==> statistics is None,
            statistics == evidence(*source, predicate, schema@, sizes.len()),
            !evidence_fails(*source, predicate, schema@, sizes.len()),
            state.tables@.len() == reads_before(predicate, statistics, rg as int),
            forall|row_group: int|
                0 <= row_group < rg ==> !is_fatal(
                    #[trigger] verdict(predicate, statistics, row_group as usize),
                ),
            predicate is None && aggregate is None ==> tables_before(
                *source,
                sizes,
                schema@,
                projection@,
                limit,
                *row_count,
                rg as int,
            ) == Some(frame_views(state.tables@)),
            tables_after(
                *source,
                predicate,
                aggregate,
                statistics,
                sizes,
                schema@,
                projection@,
                limit,
                *row_count,
                rg as int,
            ) == Ok::<Seq<DataFrame>, Fault>(state.tables@),
            aggregate is None ==> all_shaped(
                frame_views(state.tables@),
                template(schema@, projection@, *row_count),
            ),
        decreases groups - rg,
    {
        let num_rows = metadata.row_groups[rg].num_rows;
        let ghost before = frame_views(state.tables@);
        let ghost tables = state.tables@;
        proof {
            lemma_rows_before_monotone(sizes, rg as int + 1, sizes.len() as int);
            assert(sizes[rg as int] == num_rows);
        }
        let answer = match (predicate, &statistics) {
            (Some(predicate), Some(statistics)) => Some(predicate.should_read(statistics, rg)),
            _ => None,
        };
        assert(answer == verdict(predicate, statistics, rg));
        let selection = match select_row_group(answer) {
            Ok(selection) => selection,
            Err(error) => {
                assert(!all_ruled_out(predicate, statistics, sizes.len() as int));
                proof {
                    lemma_tables_after_fail(
                        *source,
                        predicate,
                        aggregate,
                        statistics,
                        sizes,
                        schema@,
                        projection@,
                        limit,
                        *row_count,
                        rg as int + 1,
                        sizes.len() as int,
                    );
                }
                return Err(error);
            },
        };
        match selection {
            Selection::Skip => {
                state.advance(num_rows);
            },
            Selection::Read => {
                match read_row_group(
                    source,
                    &mut state,
                    rg,
                    num_rows,
                    schema,
                    projection,
                    predicate,
                    aggregate,
                    pooled,
                    row_count,
                    pool,
                ) {
                    Ok(()) => {
                        assert(state.tables@ =~= tables.push(state.tables@.last()));
                        assert(frame_views(state.tables@) =~= before.push(
                            frame_columns(state.tables@.last()),
                        )) by {
                            assert(state.tables@.drop_last().len() == before.len());
                            assert forall|i: int| 0 <= i < before.len() implies frame_views(
                                state.tables@,
                            )[i] == before[i] by {
                                assert(state.tables@.drop_last()[i] == state.tables@[i]);
                            }
                        }
                    },
                    Err(error) => {
                        assert(!all_ruled_out(predicate, statistics, sizes.len() as int));
                        proof {
                            lemma_tables_after_fail(
                                *source,
                                predicate,
                                aggregate,
                                statistics,
                                sizes,
                                schema@,
                                projection@,
                                limit,
                                *row_count,
                                rg as int + 1,
                                sizes.len() as int,
                            );
                            if predicate is None && aggregate is None {
                                lemma_tables_before_none(
                                    *source,
                                    sizes,
                                    schema@,
                                    projection@,
                                    limit,
                                    *row_count,
                                    rg as int + 1,
                                    sizes.len() as int,
                                );
                            }
                        }
                        return Err(error);
                    },
                }
            },
        }
        rg += 1;
    }
    Ok(state)
}

/// Scans one file into one table.
///
/// The footer is parsed where no metadata is given, and the projection is the
/// whole schema where none is given. The row groups are visited in file order;
/// their tables are put under one another in that order, reduced, and cut to
/// `limit` rows. A scan that reads no row group gives the empty table over the
/// projected schema.
///
/// Whatever the collaborators do, the table has columns of one length and no
/// more than `limit` rows. Over the layout given or parsed, the scan goes as
/// `went_as_planned` says.
pub fn read_parquet<S: Source, P: Predicate, A: Reducer>(
    source: S,
    limit: usize,
    projection: Option<&Vec<usize>>,
    schema: &Vec<Field>,
    metadata: Option<FileMetaData>,
    predicate: Option<&P>,
    aggregate: Option<&Vec<A>>,
    parallel: bool,
    row_count: Option<RowCount>,
    pool: &ThreadPool,
) -> (out: Result<DataFrame, ScanError>)
    requires
        projection matches Some(projection) ==> projection_fits(projection@, schema@.len()),
    ensures
        out matches Ok(frame) ==> rectangular(frame_columns(frame)) && height(
            frame_columns(frame),
        ) <= limit,
        out matches Err(error) ==> (error.stage == Stage::Statistics || error.stage
            == Stage::Predicate ==> predicate is Some) && (error.stage == Stage::Aggregation
            ==> aggregate is Some),
        match metadata {
            Some(metadata) => went_as_planned(
                source,
                predicate,
                aggregate,
                metadata.sizes(),
                schema@,
                chosen(projection, schema@.len()),
                limit,
                row_count,
                out,
            ),
            None => match source.layout() {
                Some(sizes) => went_as_planned(
                    source.parsed(),
                    predicate,
                    aggregate,
                    sizes,
                    schema@,
                    chosen(projection, schema@.len()),
                    limit,
                    row_count,
                    out,
                ),
                None => out matches Err(error) && error.stage == Stage::Metadata,
            },
        },
{
    let mut source = source;
    let metadata = match metadata {
        Some(metadata) => metadata,
        None => match source.read_metadata() {
            Ok(metadata) => metadata,
            Err(failure) => {
                return Err(failure.at(Stage::Metadata));
            },
        },
    };
    let whole = identity_projection(schema.len());
    let projection = match projection {
        Some(projection) => projection,
        None => &whole,
    };
    let state = match scan_row_groups(
        &source,
        &metadata,
        limit,
        schema,
        projection,
        predicate,
        aggregate,
        parallel,
        &row_count,
        pool,
    ) {
        Ok(state) => state,
        Err(error) => {
            return Err(error);
        },
    };
    proof {
        let groups = metadata.sizes().len();
        if nothing_read(source, predicate, schema@, groups) {
            lemma_none_read(predicate, evidence(source, predicate, schema@, groups), groups as int);
        }
        if aggregate is None && state.tables@.len() > 0 {
            let shape = template(schema@, projection@, row_count);
            lemma_shaped_stackable(frame_views(state.tables@), shape);
            assert forall|j: int|
                0 <= j < stack_all(frame_views(state.tables@)).len() implies (#[trigger] cut(
                stack_all(frame_views(state.tables@)),
                limit as nat,
            )[j]).name == shape[j].name by {
                assert(stack_all(frame_views(state.tables@))[j].name == shape[j].name);
            }
        }
        if predicate is None && aggregate is None {
            let groups = metadata.sizes().len() as int;
            lemma_tables_shaped(
                source,
                metadata.sizes(),
                schema@,
                projection@,
                limit,
                row_count,
                groups,
            );
            if groups > 0 {
                lemma_shaped_stackable(
                    frame_views(state.tables@),
                    template(schema@, projection@, row_count),
                );
            }
        }
    }
    finalize(state.tables, schema, projection, aggregate, limit)
}

} // verus!
