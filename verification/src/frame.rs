//! Columns and tables.
//!
//! A column is a `polars_core` `Series`, a table a `polars_core` `DataFrame`.
//! Verus cannot look into either. `series_view` and `frame_columns` name what
//! the scan reads from them: the name, the type and the number of rows of each
//! column. Nothing is said of the values in the rows. The functions of this
//! module that call into `polars_core` are believed, not proved; each says
//! which function it calls and what is claimed of it.

use crate::chunk::{chunk_rows, chunk_type, Chunk};
use crate::schema::DataType;
use polars_core::error::PolarsError;
use polars_core::frame::DataFrame;
use polars_core::series::Series;
use vstd::prelude::*;

verus! {

#[verifier::external_type_specification]
#[verifier::external_body]
pub struct ExSeries(polars_core::series::Series);

#[verifier::external_type_specification]
#[verifier::external_body]
pub struct ExDataFrame(polars_core::frame::DataFrame);

#[verifier::external_type_specification]
#[verifier::external_body]
pub struct ExPolarsError(polars_core::error::PolarsError);

/// The type in which `polars_core` counts the rows of a column.
pub type IdxSize = u32;

/// The largest number of rows that a column can hold: the largest `IdxSize`.
pub const MAX_ROWS: usize = 4294967295;

/// What the scan reads from a column.
pub ghost struct ColumnView {
    pub name: Seq<char>,
    /// The type of the column where it is one of `DataType`, text counting as
    /// `LargeUtf8`; `None` for every other type of column. No column is of
    /// type `Utf8`, `Float16` or `Null`: see `DataType::stored`.
    pub data_type: Option<DataType>,
    pub len: nat,
}

/// The name of a column (`Series::name`), its type (`Series::dtype`) and its
/// length (`Series::len`).
pub uninterp spec fn series_view(series: Series) -> ColumnView;

/// The views of the columns of a table (`DataFrame::get_columns`), in order.
pub uninterp spec fn frame_columns(frame: DataFrame) -> Seq<ColumnView>;

/// The column that `Series::try_from` makes of the given chunks under the
/// given name.
pub uninterp spec fn chunked_series(name: Seq<char>, chunks: Seq<Chunk>) -> Series;

/// The table that `DataFrame::new_no_checks` makes of the given columns.
pub uninterp spec fn table_of_columns(columns: Seq<Series>) -> DataFrame;

/// The table that `DataFrame::with_row_count_mut` makes of the given table: the
/// row-count column of the given name, counting from `offset`, in front of
/// it.
pub uninterp spec fn counted(frame: DataFrame, name: Seq<char>, offset: IdxSize) -> DataFrame;

/// The table that `DataFrame::slice` cuts from row 0 of the given table, over
/// `length` rows.
pub uninterp spec fn first_rows(frame: DataFrame, length: usize) -> DataFrame;

/// The table that `accumulate_dataframes_vertical` makes of the given tables;
/// `None` where it fails.
pub uninterp spec fn stacked(tables: Seq<DataFrame>) -> Option<DataFrame>;

/// The rows of all the chunks together.
pub open spec fn total_rows(chunks: Seq<Chunk>) -> nat
    decreases chunks.len(),
{
    if chunks.len() == 0 {
        0
    } else {
        total_rows(chunks.drop_last()) + chunk_rows(chunks.last())
    }
}

/// Every chunk has the given type.
pub open spec fn uniform(chunks: Seq<Chunk>, data_type: DataType) -> bool {
    forall|i: int| 0 <= i < chunks.len() ==> chunk_type(#[trigger] chunks[i]) == Some(data_type)
}

/// The number of rows of a table: the length of its first column, and zero for
/// a table without columns.
pub open spec fn height(columns: Seq<ColumnView>) -> nat {
    if columns.len() == 0 {
        0
    } else {
        columns[0].len
    }
}

/// All columns have the same length.
pub open spec fn rectangular(columns: Seq<ColumnView>) -> bool {
    forall|i: int| 0 <= i < columns.len() ==> (#[trigger] columns[i]).len == height(columns)
}

/// `after` has the columns of `before` by name and type, all of one length,
/// and is no higher than `before`: what is left of a table when rows are
/// taken out of it.
pub open spec fn keeps_columns(before: Seq<ColumnView>, after: Seq<ColumnView>) -> bool {
    &&& after.len() == before.len()
    &&& forall|j: int|
        0 <= j < before.len() ==> (#[trigger] after[j]).name == before[j].name
            && after[j].data_type == before[j].data_type
    &&& rectangular(after)
    &&& height(after) <= height(before)
}

/// The views of some columns, in order.
pub open spec fn views(columns: Seq<Series>) -> Seq<ColumnView> {
    Seq::new(columns.len(), |i: int| series_view(columns[i]))
}

/// The columns with every length cut to `length`.
pub open spec fn cut(columns: Seq<ColumnView>, length: nat) -> Seq<ColumnView> {
    Seq::new(
        columns.len(),
        |i: int|
            ColumnView {
                name: columns[i].name,
                data_type: columns[i].data_type,
                len: if columns[i].len < length { columns[i].len } else { length },
            },
    )
}

/// The row-count column of the given name over `rows` rows.
pub open spec fn row_count_column(name: Seq<char>, rows: nat) -> ColumnView {
    ColumnView { name, data_type: Some(DataType::UInt32), len: rows }
}

/// `next` can go under `top`: `top` has no columns, or both have the same
/// columns by name and type, every type one of `DataType`.
pub open spec fn stackable(top: Seq<ColumnView>, next: Seq<ColumnView>) -> bool {
    top.len() == 0 || (top.len() == next.len() && forall|j: int|
        0 <= j < top.len() ==> (#[trigger] top[j]).name == next[j].name && top[j].data_type
            == next[j].data_type && top[j].data_type is Some)
}

/// `next` put under `top`: column by column the lengths add up; a `top`
/// without columns gives way to `next`.
pub open spec fn stack(top: Seq<ColumnView>, next: Seq<ColumnView>) -> Seq<ColumnView> {
    if top.len() == 0 {
        next
    } else {
        Seq::new(
            top.len(),
            |j: int|
                ColumnView {
                    name: top[j].name,
                    data_type: top[j].data_type,
                    len: top[j].len + next[j].len,
                },
        )
    }
}

/// The tables put under one another, first on top.
pub open spec fn stack_all(tables: Seq<Seq<ColumnView>>) -> Seq<ColumnView>
    decreases tables.len(),
{
    if tables.len() == 0 {
        Seq::empty()
    } else if tables.len() == 1 {
        tables[0]
    } else {
        stack(stack_all(tables.drop_last()), tables.last())
    }
}

/// Each table can go under those before it.
pub open spec fn all_stackable(tables: Seq<Seq<ColumnView>>) -> bool
    decreases tables.len(),
{
    tables.len() <= 1 || (all_stackable(tables.drop_last()) && stackable(
        stack_all(tables.drop_last()),
        tables.last(),
    ))
}

/// The heights of the tables added up.
pub open spec fn total_height(tables: Seq<Seq<ColumnView>>) -> nat
    decreases tables.len(),
{
    if tables.len() == 0 {
        0
    } else {
        total_height(tables.drop_last()) + height(tables.last())
    }
}

/// The column views of some tables, in order.
pub open spec fn frame_views(tables: Seq<DataFrame>) -> Seq<Seq<ColumnView>> {
    Seq::new(tables.len(), |i: int| frame_columns(tables[i]))
}

/// Every table is rectangular.
pub open spec fn all_rectangular(tables: Seq<Seq<ColumnView>>) -> bool {
    forall|i: int| 0 <= i < tables.len() ==> rectangular(#[trigger] tables[i])
}

/// The view of the column made of the given chunks under the given name: it
/// stores the type of the first chunk and is as long as the chunks together.
pub open spec fn column_of_chunks(name: Seq<char>, chunks: Seq<Chunk>) -> ColumnView {
    ColumnView {
        name,
        data_type: match chunk_type(chunks[0]) {
            Some(data_type) => Some(data_type.stored()),
            None => None,
        },
        len: total_rows(chunks),
    }
}

/// Tables of one length each that can go under one another give a table of
/// one length, as high as all of them together.
pub proof fn lemma_stack_all_rectangular(tables: Seq<Seq<ColumnView>>)
    requires
        tables.len() > 0,
        all_rectangular(tables),
        all_stackable(tables),
    ensures
        rectangular(stack_all(tables)),
        height(stack_all(tables)) == total_height(tables),
    decreases tables.len(),
{
    if tables.len() > 1 {
        let before = tables.drop_last();
        let next = tables.last();
        assert(total_height(before.drop_last()) + height(before.last()) + height(next)
            == total_height(tables)) by {
            reveal_with_fuel(total_height, 2);
        }
        assert forall|i: int| 0 <= i < before.len() implies rectangular(#[trigger] before[i]) by {
            assert(before[i] == tables[i]);
        }
        lemma_stack_all_rectangular(before);
        let top = stack_all(before);
        assert(rectangular(next)) by {
            assert(next == tables[tables.len() - 1]);
        }
        if top.len() > 0 {
            let all = stack(top, next);
            assert forall|j: int| 0 <= j < all.len() implies (#[trigger] all[j]).len == height(
                all,
            ) by {
                assert(top[j].len == height(top));
                assert(next[j].len == height(next));
                assert(top[0].len == height(top));
                assert(next[0].len == height(next));
            }
        }
    } else {
        assert(rectangular(tables[0]));
        assert(tables.drop_last() =~= Seq::<Seq<ColumnView>>::empty());
        assert(total_height(tables) == height(tables[0])) by {
            reveal_with_fuel(total_height, 2);
        }
    }
}

/// `Series::try_from((name, chunks))` of `polars_core`, on at least one chunk,
/// all of one type of `DataType` and together of no more rows than a column
/// can count. On those it succeeds: the column bears the name, has the type
/// under which `polars_core` keeps the chunks' type (`DataType::stored`: it
/// casts text to 64-bit offsets and half-precision numbers to `Float32`, and
/// makes of `Null` chunks a `UInt32` column of missing values, as built here
/// without its feature `dtype-i8`) and is as long as the chunks together. On
/// other types it may panic, on more rows miscount.
#[verifier::external_body]
pub(crate) fn series_from_chunks(name: &str, chunks: Vec<Chunk>) -> (made: Result<Series, PolarsError>)
    requires
        chunks@.len() > 0,
        chunk_type(chunks@[0]) is Some,
        uniform(chunks@, chunk_type(chunks@[0])->0),
        total_rows(chunks@) <= MAX_ROWS,
    ensures
        made is Ok,
        made->Ok_0 == chunked_series(name@, chunks@),
        series_view(made->Ok_0) == column_of_chunks(name@, chunks@),
{
    let arrays: Vec<Box<dyn arrow2::array::Array>> = chunks.into_iter().map(|c| c.array).collect();
    Series::try_from((name, arrays))
}

/// `Series::len` of `polars_core`.
#[verifier::external_body]
pub(crate) fn series_len(series: &Series) -> (len: usize)
    ensures
        len == series_view(*series).len,
{
    series.len()
}

/// `DataFrame::new_no_checks` of `polars_core`, on columns of one length, as
/// it asks of its callers: the table holds the columns as given.
#[verifier::external_body]
pub(crate) fn frame_from_columns(columns: Vec<Series>) -> (frame: DataFrame)
    requires
        rectangular(views(columns@)),
    ensures
        frame == table_of_columns(columns@),
        frame_columns(frame) == views(columns@),
{
    DataFrame::new_no_checks(columns)
}

/// `DataFrame::get_columns` of `polars_core`: the columns of the table, in
/// order.
#[verifier::external_body]
pub(crate) fn columns_of(frame: &DataFrame) -> (columns: &Vec<Series>)
    ensures
        views(columns@) == frame_columns(*frame),
{
    frame.get_columns()
}

/// `DataFrame::with_row_count_mut` of `polars_core`, where the last number fits
/// the row counter (it adds the height to `offset` in `IdxSize`): a column of
/// type `UInt32` under the given name, as long as the table is high, comes in
/// front; the others stay.
#[verifier::external_body]
pub(crate) fn with_row_count(frame: &mut DataFrame, name: &str, offset: IdxSize)
    requires
        height(frame_columns(*old(frame))) + offset <= IdxSize::MAX,
    ensures
        *final(frame) == counted(*old(frame), name@, offset),
        frame_columns(*final(frame)) == seq![
            row_count_column(name@, height(frame_columns(*old(frame)))),
        ] + frame_columns(*old(frame)),
{
    frame.with_row_count_mut(name, Some(offset));
}

/// `DataFrame::slice(0, length)` of `polars_core`, on a rectangular table with
/// more than `length` rows: every column keeps its name and type and is cut
/// to `length` rows.
#[verifier::external_body]
pub(crate) fn head(frame: &DataFrame, length: usize) -> (cut_frame: DataFrame)
    requires
        rectangular(frame_columns(*frame)),
        length < height(frame_columns(*frame)),
    ensures
        cut_frame == first_rows(*frame, length),
        frame_columns(cut_frame) == cut(frame_columns(*frame), length as nat),
{
    frame.slice(0, length)
}

/// `accumulate_dataframes_vertical` of `polars_core::utils`, on at least one
/// table (it unwraps the first), all rectangular and together within the row
/// counter (it adds the lengths in `IdxSize`). It appends each table to the
/// first with `DataFrame::vstack_mut`, in the order given: where it succeeds,
/// the result is the tables put under one another; it succeeds where each
/// table has the columns of those before it by name and type.
#[verifier::external_body]
pub(crate) fn vstack(tables: Vec<DataFrame>) -> (made: Result<DataFrame, PolarsError>)
    requires
        tables@.len() > 0,
        all_rectangular(frame_views(tables@)),
        total_height(frame_views(tables@)) <= IdxSize::MAX,
    ensures
        match stacked(tables@) {
            Some(frame) => made == Ok::<DataFrame, PolarsError>(frame),
            None => made is Err,
        },
        made matches Ok(frame) ==> frame_columns(frame) == stack_all(frame_views(tables@)),
        all_stackable(frame_views(tables@)) ==> made is Ok,
{
    polars_core::utils::accumulate_dataframes_vertical(tables)
}

/// The `Display` text of a `PolarsError`.
#[verifier::external_body]
pub(crate) fn error_text(error: &PolarsError) -> (text: String) {
    format!("{}", error)
}

} // verus!
