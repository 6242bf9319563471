//! The array materializer: from a lazy sequence of decoded chunks to one column.

use crate::chunk::{chunk_rows, chunk_type, empty_chunk, Chunk};
use crate::error::{Failure, ScanError, Stage};
use crate::frame::{
    chunked_series, error_text, series_from_chunks, series_view, total_rows,
    uniform, ColumnView, MAX_ROWS,
};
use crate::schema::{DataType, Field};
use polars_core::series::Series;
use vstd::prelude::*;
use vstd::std_specs::iter::IteratorSpec;

verus! {

/// The iterator ends: it gives a finite sequence of items, then `None` for
/// good, and has a measure that each item lowers.
pub open spec fn finite<I: Iterator>(iter: &I) -> bool {
    iter.obeys_prophetic_iter_laws() && iter.decrease() is Some
}

/// The chunks that a pull takes from `items`, `taken` rows having been taken
/// before; `None` where the pull fails.
///
/// A pull takes the items in order. It fails at an item that is a failure, at
/// a chunk of another type than `data_type`, and at a chunk with which the rows
/// would exceed what a column can count. Under a cap it stops with the chunk
/// at which the rows taken reach the cap, and takes nothing after it. Without
/// a cap it takes every item.
pub open spec fn pull(
    items: Seq<Result<Chunk, Failure>>,
    data_type: DataType,
    cap: Option<usize>,
    taken: nat,
) -> Option<Seq<Chunk>>
    decreases items.len(),
{
    if items.len() == 0 {
        Some(Seq::empty())
    } else {
        match items[0] {
            Err(_) => None,
            Ok(chunk) => {
                let rows = taken + chunk_rows(chunk);
                if chunk_type(chunk) != Some(data_type) || rows > MAX_ROWS {
                    None
                } else if cap is Some && rows >= cap->0 {
                    Some(seq![chunk])
                } else {
                    match pull(items.drop_first(), data_type, cap, rows) {
                        Some(rest) => Some(seq![chunk] + rest),
                        None => None,
                    }
                }
            },
        }
    }
}

/// The text of the error with which a pull refuses a chunk of another type
/// than the field's.
pub open spec fn wrong_type_text() -> Seq<char> {
    "a chunk is not of the field's type"@
}

/// The text of the error with which a pull refuses more rows than a column
/// can count.
pub open spec fn too_many_rows_text() -> Seq<char> {
    "more rows than a column can count"@
}

/// The text of the error of a pull that fails: the text of the failure at
/// which it fails, where it fails at an item that is a failure; else the text
/// with which the pull itself refuses the chunk.
pub open spec fn pull_error(
    items: Seq<Result<Chunk, Failure>>,
    data_type: DataType,
    cap: Option<usize>,
    taken: nat,
) -> Seq<char>
    decreases items.len(),
{
    if items.len() == 0 {
        Seq::empty()
    } else {
        match items[0] {
            Err(failure) => failure.text(),
            Ok(chunk) => {
                let rows = taken + chunk_rows(chunk);
                if chunk_type(chunk) != Some(data_type) {
                    wrong_type_text()
                } else if rows > MAX_ROWS {
                    too_many_rows_text()
                } else if cap is Some && rows >= cap->0 {
                    Seq::empty()
                } else {
                    pull_error(items.drop_first(), data_type, cap, rows)
                }
            },
        }
    }
}

/// The chunks of which a column is made: those taken, or one empty chunk of
/// the column's type where none was taken.
pub open spec fn filled(chunks: Seq<Chunk>, data_type: DataType) -> Seq<Chunk> {
    if chunks.len() == 0 {
        seq![empty_chunk(data_type)]
    } else {
        chunks
    }
}

/// The column that materializing `items` for `field` under `cap` gives;
/// `None` where it fails.
pub open spec fn materialized(
    items: Seq<Result<Chunk, Failure>>,
    field: Field,
    cap: Option<usize>,
) -> Option<Series> {
    match pull(items, field.data_type, cap, 0) {
        Some(chunks) => Some(chunked_series(field.name@, filled(chunks, field.data_type))),
        None => None,
    }
}

/// The view of the column of `field` made of the chunks taken: it bears the
/// field's name, stores the field's type and is as long as the chunks
/// together.
pub open spec fn made_column(field: Field, chunks: Seq<Chunk>) -> ColumnView {
    ColumnView {
        name: field.name@,
        data_type: Some(field.data_type.stored()),
        len: total_rows(chunks),
    }
}

/// `pull` after `before`, with the chunks of `before` in front.
spec fn pull_after(
    before: Seq<Chunk>,
    items: Seq<Result<Chunk, Failure>>,
    data_type: DataType,
    cap: Option<usize>,
) -> Option<Seq<Chunk>> {
    match pull(items, data_type, cap, total_rows(before)) {
        Some(rest) => Some(before + rest),
        None => None,
    }
}

/// The rows of a chunk in front of others add to theirs.
pub proof fn lemma_total_rows_front(chunk: Chunk, rest: Seq<Chunk>)
    ensures
        total_rows(seq![chunk] + rest) == chunk_rows(chunk) + total_rows(rest),
    decreases rest.len(),
{
    let all = seq![chunk] + rest;
    if rest.len() == 0 {
        assert(all.drop_last() =~= Seq::<Chunk>::empty());
        reveal_with_fuel(total_rows, 2);
    } else {
        assert(all.drop_last() =~= seq![chunk] + rest.drop_last());
        assert(all.last() == rest.last());
        lemma_total_rows_front(chunk, rest.drop_last());
    }
}

/// What a pull takes is the shortest run of leading items that will do.
///
/// The chunks taken are the leading items, in their order, all of the type
/// asked for. Without a cap they are all the items. Under a cap either they
/// are all the items, or their rows reach the cap; and no shorter run of one
/// chunk or more reaches it, so that nothing is taken once the cap is reached.
pub proof fn lemma_pull_takes_shortest_prefix(
    items: Seq<Result<Chunk, Failure>>,
    data_type: DataType,
    cap: Option<usize>,
    taken: nat,
)
    requires
        pull(items, data_type, cap, taken) is Some,
    ensures
        ({
            let chunks = pull(items, data_type, cap, taken)->0;
            &&& chunks.len() <= items.len()
            &&& forall|i: int|
                0 <= i < chunks.len() ==> items[i] == Ok::<Chunk, Failure>(#[trigger] chunks[i])
            &&& uniform(chunks, data_type)
            &&& taken + total_rows(chunks) <= MAX_ROWS || chunks.len() == 0
            &&& cap is None ==> chunks.len() == items.len()
            &&& cap is Some ==> chunks.len() == items.len() || taken + total_rows(chunks)
                >= cap->0
            &&& cap is Some ==> forall|k: int|
                0 < k < chunks.len() ==> taken + total_rows(#[trigger] chunks.take(k)) < cap->0
        }),
    decreases items.len(),
{
    let chunks = pull(items, data_type, cap, taken)->0;
    if items.len() > 0 {
        let first = items[0]->Ok_0;
        let rows = taken + chunk_rows(first);
        if cap is Some && rows >= cap->0 {
            assert(chunks =~= seq![first]);
            assert(chunks =~= seq![first] + Seq::<Chunk>::empty());
            lemma_total_rows_front(first, Seq::empty());
        } else {
            let rest = pull(items.drop_first(), data_type, cap, rows)->0;
            lemma_pull_takes_shortest_prefix(items.drop_first(), data_type, cap, rows);
            lemma_total_rows_front(first, rest);
            assert(chunks == seq![first] + rest);
            assert forall|i: int| 0 <= i < chunks.len() implies items[i] == Ok::<Chunk, Failure>(
                #[trigger] chunks[i],
            ) by {
                if i > 0 {
                    assert(chunks[i] == rest[i - 1]);
                    assert(items.drop_first()[i - 1] == items[i]);
                }
            }
            assert forall|i: int| 0 <= i < chunks.len() implies chunk_type(#[trigger] chunks[i])
                == Some(data_type) by {
                if i > 0 {
                    assert(chunks[i] == rest[i - 1]);
                }
            }
            if cap is Some {
                assert forall|k: int| 0 < k < chunks.len() implies taken + total_rows(
                    #[trigger] chunks.take(k),
                ) < cap->0 by {
                    assert(chunks.take(k) =~= seq![first] + rest.take(k - 1));
                    lemma_total_rows_front(first, rest.take(k - 1));
                    if k == 1 {
                        assert(rest.take(0) =~= Seq::<Chunk>::empty());
                    }
                }
            }
        }
    }
}

proof fn lemma_total_rows_push(chunks: Seq<Chunk>, chunk: Chunk)
    ensures
        total_rows(chunks.push(chunk)) == total_rows(chunks) + chunk_rows(chunk),
{
    assert(chunks.push(chunk).drop_last() =~= chunks);
}

/// The view of the empty column of a field.
pub open spec fn empty_column(field: Field) -> ColumnView {
    ColumnView { name: field.name@, data_type: Some(field.data_type.stored()), len: 0 }
}

/// The empty column of a field: no rows, under the field's name and of its
/// type.
pub fn empty_series(field: &Field) -> (made: Result<Series, ScanError>)
    ensures
        made matches Ok(series) && series == chunked_series(
            field.name@,
            seq![empty_chunk(field.data_type)],
        ) && series_view(series) == empty_column(*field),
{
    let empty = Chunk::empty(field.data_type);
    let chunks = vec![empty];
    proof {
        assert(chunks@ =~= seq![empty]);
        assert(chunks@.drop_last() =~= Seq::<Chunk>::empty());
        assert(total_rows(chunks@) == 0) by {
            reveal_with_fuel(total_rows, 2);
        }
    }
    match series_from_chunks(field.name.as_str(), chunks) {
        Ok(series) => Ok(series),
        Err(error) => Err(ScanError { stage: Stage::Decode, message: error_text(&error) }),
    }
}

/// The column of the chunks taken for `field`.
fn column_of(chunks: Vec<Chunk>, field: &Field) -> (made: Result<Series, ScanError>)
    requires
        uniform(chunks@, field.data_type),
        total_rows(chunks@) <= MAX_ROWS,
    ensures
        made matches Ok(series) && series == chunked_series(
            field.name@,
            filled(chunks@, field.data_type),
        ) && series_view(series) == made_column(*field, chunks@),
{
    if chunks.is_empty() {
        assert(chunks@ =~= Seq::<Chunk>::empty());
        empty_series(field)
    } else {
        match series_from_chunks(field.name.as_str(), chunks) {
            Ok(series) => Ok(series),
            Err(error) => Err(ScanError { stage: Stage::Decode, message: error_text(&error) }),
        }
    }
}

/// Pulls decoded chunks from `iter`: all of them without `num_rows`; with
/// `num_rows`, until the rows pulled reach it. Nothing is pulled after that:
/// the items behind the chunks taken are still in the iterator. A failure
/// among the items pulled ends the pull with a decode error of its text.
pub fn pull_chunks<I>(iter: &mut I, data_type: DataType, num_rows: Option<usize>) -> (taken: Result<Vec<Chunk>, ScanError>)
    where I: Iterator<Item = Result<Chunk, Failure>>
    requires
        finite(&*old(iter)),
    ensures
        finite(&*final(iter)),
        match pull((*old(iter)).remaining(), data_type, num_rows, 0) {
            Some(chunks) => taken matches Ok(out) && out@ == chunks && (*final(iter)).remaining()
                == (*old(iter)).remaining().skip(chunks.len() as int),
            None => taken matches Err(error) && error.stage == Stage::Decode && error.message@
                == pull_error((*old(iter)).remaining(), data_type, num_rows, 0),
        },
{
    let ghost items = (*iter).remaining();
    let mut out: Vec<Chunk> = Vec::new();
    let mut total: usize = 0;
    loop
        invariant
            finite(&*iter),
            items == (*old(iter)).remaining(),
            out@.len() <= items.len(),
            (*iter).remaining() == items.skip(out@.len() as int),
            total == total_rows(out@),
            total <= MAX_ROWS,
            pull(items, data_type, num_rows, 0) == pull_after(
                out@,
                (*iter).remaining(),
                data_type,
                num_rows,
            ),
            pull_error(items, data_type, num_rows, 0) == pull_error(
                (*iter).remaining(),
                data_type,
                num_rows,
                total as nat,
            ),
        decreases (*iter).decrease()->0,
    {
        let ghost taken = out@;
        match iter.next() {
            None => {
                assert(taken + Seq::<Chunk>::empty() =~= taken);
                return Ok(out);
            },
            Some(Err(failure)) => {
                return Err(failure.at(Stage::Decode));
            },
            Some(Ok(chunk)) => {
                let fits = match chunk.data_type() {
                    Some(found) => found == data_type,
                    None => false,
                };
                if !fits {
                    return Err(ScanError::new(Stage::Decode, "a chunk is not of the field's type"));
                }
                let len = chunk.len();
                if len > MAX_ROWS - total {
                    return Err(ScanError::new(Stage::Decode, "more rows than a column can count"));
                }
                total = total + len;
                out.push(chunk);
                proof {
                    lemma_total_rows_push(taken, chunk);
                    assert(taken + (seq![chunk] + Seq::<Chunk>::empty()) =~= out@);
                    assert(taken + seq![chunk] =~= out@);
                    assert forall|rest: Seq<Chunk>| taken + (seq![chunk] + rest) == out@ + rest by {
                        assert(taken + (seq![chunk] + rest) =~= out@ + rest);
                    }
                    assert(items.skip(taken.len() as int).drop_first() =~= items.skip(
                        out@.len() as int,
                    ));
                }
                let full = match num_rows {
                    Some(n) => total >= n,
                    None => false,
                };
                if full {
                    return Ok(out);
                }
            },
        }
    }
}

/// Materializes one column: pulls decoded chunks from `iter` and makes of them
/// the column of `field`.
///
/// Without `num_rows` the sequence is drained. With `num_rows` chunks are
/// pulled until the rows pulled reach it, and none after that. Where no chunk
/// was pulled, the column is the empty column of the field's type. Where an
/// item pulled is a failure, there is no column: the error is a decode error
/// with the text of that failure.
pub fn array_iter_to_series<I>(iter: I, field: &Field, num_rows: Option<usize>) -> (made: Result<Series, ScanError>)
    where I: Iterator<Item = Result<Chunk, Failure>>
    requires
        finite(&iter),
    ensures
        match materialized(iter.remaining(), *field, num_rows) {
            Some(series) => made == Ok::<Series, ScanError>(series) && series_view(series)
                == made_column(*field, pull(iter.remaining(), field.data_type, num_rows, 0)->0),
            None => made matches Err(error) && error.stage == Stage::Decode && error.message@
                == pull_error(iter.remaining(), field.data_type, num_rows, 0),
        },
{
    let mut source = iter;
    match pull_chunks(&mut source, field.data_type, num_rows) {
        Ok(chunks) => {
            proof {
                lemma_pull_takes_shortest_prefix(iter.remaining(), field.data_type, num_rows, 0);
            }
            column_of(chunks, field)
        },
        Err(error) => Err(error),
    }
}

} // verus!
