//! The column fan-out: one column per projected field of a row group, made one
//! after the other or across a worker pool.

use crate::chunk::Chunk;
use crate::error::{Failure, ScanError, Stage};
use crate::frame::{series_view, views, ColumnView};
use crate::materialize::{
    array_iter_to_series, finite, made_column, materialized, pull, pull_error,
};
use crate::schema::{projection_fits, Field};
use polars_core::series::Series;
use rayon::iter::{IndexedParallelIterator, IntoParallelIterator, IntoParallelRefIterator, ParallelIterator};
use rayon::ThreadPool;
use vstd::prelude::*;
use vstd::std_specs::iter::IteratorSpec;

verus! {

#[verifier::external_type_specification]
#[verifier::external_body]
pub struct ExThreadPool(rayon::ThreadPool);

/// Whether the columns of a row group go to the worker pool: only where the
/// caller asked for it and more than one column is projected.
pub open spec fn goes_parallel(parallel: bool, width: nat) -> bool {
    parallel && width != 1
}

/// Decides whether the columns of a row group go to the worker pool. A
/// projection of exactly one field never does.
pub fn use_pool(parallel: bool, width: usize) -> (pooled: bool)
    ensures
        pooled == goes_parallel(parallel, width as nat),
        width == 1 ==> !pooled,
{
    parallel && width != 1
}

/// The column of the `i`-th projected field, made of the `i`-th sequence of
/// decoded items; `None` where that fails.
pub open spec fn column(
    items: Seq<Seq<Result<Chunk, Failure>>>,
    schema: Seq<Field>,
    projection: Seq<usize>,
    cap: Option<usize>,
    i: int,
) -> Option<Series> {
    materialized(items[i], schema[projection[i] as int], cap)
}

/// The text of the error with which the `i`-th column fails, where it fails.
pub open spec fn column_error(
    items: Seq<Seq<Result<Chunk, Failure>>>,
    schema: Seq<Field>,
    projection: Seq<usize>,
    cap: Option<usize>,
    i: int,
) -> Seq<char> {
    pull_error(items[i], schema[projection[i] as int].data_type, cap, 0)
}

/// The first `upto` columns can all be made.
pub open spec fn all_made(
    items: Seq<Seq<Result<Chunk, Failure>>>,
    schema: Seq<Field>,
    projection: Seq<usize>,
    cap: Option<usize>,
    upto: int,
) -> bool {
    forall|i: int| 0 <= i < upto ==> (#[trigger] column(items, schema, projection, cap, i)) is Some
}

/// The columns of the projected fields, in the order of the projection.
pub open spec fn columns(
    items: Seq<Seq<Result<Chunk, Failure>>>,
    schema: Seq<Field>,
    projection: Seq<usize>,
    cap: Option<usize>,
) -> Seq<Series> {
    Seq::new(projection.len(), |i: int| column(items, schema, projection, cap, i)->0)
}

/// The views of the columns of the projected fields: each bears its field's
/// name, stores its field's type and is as long as the chunks taken for it.
pub open spec fn column_views(
    items: Seq<Seq<Result<Chunk, Failure>>>,
    schema: Seq<Field>,
    projection: Seq<usize>,
    cap: Option<usize>,
) -> Seq<ColumnView> {
    Seq::new(
        projection.len(),
        |i: int|
            made_column(
                schema[projection[i] as int],
                pull(items[i], schema[projection[i] as int].data_type, cap, 0)->0,
            ),
    )
}

/// What a fan-out gives, one way or the other: where every column can be
/// made, the columns in the order of the projection; where one cannot,
/// a decode error with the text of a column that fails.
pub open spec fn fanned_out(
    items: Seq<Seq<Result<Chunk, Failure>>>,
    schema: Seq<Field>,
    projection: Seq<usize>,
    cap: Option<usize>,
    made: Result<Vec<Series>, ScanError>,
) -> bool {
    if all_made(items, schema, projection, cap, projection.len() as int) {
        made matches Ok(series) && series@ == columns(items, schema, projection, cap) && views(
            series@,
        ) == column_views(items, schema, projection, cap)
    } else {
        made matches Err(error) && error.stage == Stage::Decode && exists|i: int|
            0 <= i < projection.len() && (#[trigger] column(items, schema, projection, cap, i))
                is None && error.message@ == column_error(items, schema, projection, cap, i)
    }
}

/// Materializes the column of the field at `index` of the schema.
pub fn materialize_projected<I>(iter: I, schema: &Vec<Field>, index: usize, num_rows: Option<usize>) -> (made: Result<Series, ScanError>)
    where I: Iterator<Item = Result<Chunk, Failure>>
    requires
        finite(&iter),
        index < schema@.len(),
    ensures
        match materialized(iter.remaining(), schema@[index as int], num_rows) {
            Some(series) => made == Ok::<Series, ScanError>(series) && series_view(series)
                == made_column(
                schema@[index as int],
                pull(iter.remaining(), schema@[index as int].data_type, num_rows, 0)->0,
            ),
            None => made matches Err(error) && error.stage == Stage::Decode && error.message@
                == pull_error(iter.remaining(), schema@[index as int].data_type, num_rows, 0),
        },
{
    array_iter_to_series(iter, &schema[index], num_rows)
}

/// `ThreadPool::install` of `rayon` around `into_par_iter`, `zip`, `map` and
/// `collect`: each sequence is materialized for its field on some worker of
/// the pool.
///
/// Claimed of `rayon`: `zip` pairs the `i`-th sequence with the `i`-th index of
/// the projection; `map` hands each pair to the closure once at most;
/// `collect` into a `Result` of a `Vec` keeps the order of the items, and
/// gives the error of one of the failed items, unchanged, where any failed.
/// Claimed of the closure: what `materialize_projected` ensures.
#[verifier::external_body]
fn materialize_in_pool<I>(pool: &ThreadPool, iters: Vec<I>, schema: &Vec<Field>, projection: &Vec<usize>, num_rows: Option<usize>) -> (made: Result<Vec<Series>, ScanError>)
    where I: Iterator<Item = Result<Chunk, Failure>> + Send
    requires
        iters@.len() == projection@.len(),
        projection_fits(projection@, schema@.len()),
        forall|i: int| 0 <= i < iters@.len() ==> finite(#[trigger] &iters@[i]),
    ensures
        fanned_out(
            iters@.map_values(|iter: I| iter.remaining()),
            schema@,
            projection@,
            num_rows,
            made,
        ),
{
    pool.install(|| {
        iters.into_par_iter().zip(projection.par_iter())
            .map(|(iter, index)| materialize_projected(iter, schema, *index, num_rows))
            .collect()
    })
}

/// The next item of an iterator that ends.
fn next_of<J: Iterator>(iter: &mut J) -> (item: Option<J::Item>)
    requires
        finite(&*old(iter)),
    ensures
        finite(&*final(iter)),
        (*old(iter)).remaining().len() > 0 ==> item == Some((*old(iter)).remaining()[0]),
        (*old(iter)).remaining().len() > 0 ==> (*final(iter)).remaining() == (*old(iter)).remaining().drop_first(),
        (*old(iter)).remaining().len() > 0 ==> decreases_to!((*old(iter)).decrease()->0 => (*final(iter)).decrease()->0),
        (*old(iter)).remaining().len() == 0 ==> item is None,
{
    iter.next()
}

/// Makes the columns one after the other, in the order of the projection, and
/// stops at the first that fails.
fn materialize_in_turn<I>(iters: Vec<I>, schema: &Vec<Field>, projection: &Vec<usize>, num_rows: Option<usize>) -> (made: Result<Vec<Series>, ScanError>)
    where I: Iterator<Item = Result<Chunk, Failure>>
    requires
        iters@.len() == projection@.len(),
        projection_fits(projection@, schema@.len()),
        forall|i: int| 0 <= i < iters@.len() ==> finite(#[trigger] &iters@[i]),
    ensures
        fanned_out(
            iters@.map_values(|iter: I| iter.remaining()),
            schema@,
            projection@,
            num_rows,
            made,
        ),
{
    broadcast use vstd::std_specs::vec::axiom_spec_into_iter;

    let ghost items = iters@.map_values(|iter: I| iter.remaining());
    let ghost sources = iters@;
    let mut rest = iters.into_iter();
    let mut out: Vec<Series> = Vec::new();
    let width = projection.len();
    let mut k: usize = 0;
    loop
        invariant
            k <= width == projection@.len(),
            sources == iters@,
            sources.len() == projection@.len(),
            projection_fits(projection@, schema@.len()),
            forall|i: int| 0 <= i < sources.len() ==> finite(#[trigger] &sources[i]),
            items == sources.map_values(|iter: I| iter.remaining()),
            finite(&rest),
            rest.remaining() == sources.skip(k as int),
            out@.len() == k,
            all_made(items, schema@, projection@, num_rows, k as int),
            forall|i: int| 0 <= i < k ==> out@[i] == (#[trigger] column(items, schema@, projection@, num_rows, i))->0,
            forall|i: int| 0 <= i < k ==> series_view(#[trigger] out@[i]) == column_views(items, schema@, projection@, num_rows)[i],
        decreases rest.decrease()->0,
    {
        match next_of(&mut rest) {
            None => {
                assert(sources.skip(k as int).len() == 0);
                assert(k == projection@.len());
                assert(out@ =~= columns(items, schema@, projection@, num_rows));
                assert(views(out@) =~= column_views(items, schema@, projection@, num_rows));
                return Ok(out);
            },
            Some(iter) => {
                assert(sources.skip(k as int).len() > 0);
                assert(k < projection@.len());
                assert(iter == sources[k as int]);
                assert(items[k as int] == iter.remaining());
                assert(sources.skip(k as int).drop_first() =~= sources.skip(k as int + 1));
                let index = projection[k];
                match materialize_projected(iter, schema, index, num_rows) {
                    Ok(series) => {
                        out.push(series);
                    },
                    Err(error) => {
                        assert(column(items, schema@, projection@, num_rows, k as int) is None);
                        assert(error.message@ == column_error(
                            items,
                            schema@,
                            projection@,
                            num_rows,
                            k as int,
                        ));
                        return Err(error);
                    },
                }
                k = k + 1;
            },
        }
    }
}

/// Makes one column per projected field of a row group: the `i`-th of the
/// `i`-th sequence of decoded items, for the `i`-th field of the projection.
/// With `parallel` the columns are made across the worker pool, else one after
/// the other. Both give the same columns in the same order; where a column
/// fails, both give a decode error.
pub fn read_columns<I>(pool: &ThreadPool, iters: Vec<I>, schema: &Vec<Field>, projection: &Vec<usize>, num_rows: Option<usize>, parallel: bool) -> (made: Result<Vec<Series>, ScanError>)
    where I: Iterator<Item = Result<Chunk, Failure>> + Send
    requires
        iters@.len() == projection@.len(),
        projection_fits(projection@, schema@.len()),
        forall|i: int| 0 <= i < iters@.len() ==> finite(#[trigger] &iters@[i]),
    ensures
        fanned_out(
            iters@.map_values(|iter: I| iter.remaining()),
            schema@,
            projection@,
            num_rows,
            made,
        ),
{
    if parallel {
        materialize_in_pool(pool, iters, schema, projection, num_rows)
    } else {
        materialize_in_turn(iters, schema, projection, num_rows)
    }
}

/// Two fan-outs over the same decoded items, fields and cap agree: one
/// succeeds where the other does, and then both hold the same columns in the
/// same order, whichever of them went through the worker pool.
pub proof fn lemma_fan_out_agrees(
    items: Seq<Seq<Result<Chunk, Failure>>>,
    schema: Seq<Field>,
    projection: Seq<usize>,
    cap: Option<usize>,
    one: Result<Vec<Series>, ScanError>,
    other: Result<Vec<Series>, ScanError>,
)
    requires
        fanned_out(items, schema, projection, cap, one),
        fanned_out(items, schema, projection, cap, other),
    ensures
        one is Ok <==> other is Ok,
        one is Ok ==> one->Ok_0@ == other->Ok_0@,
        one is Err ==> one->Err_0.stage == other->Err_0.stage,
{
}

} // verus!
