//! What a scan is given: the layout of the file, and the collaborators that
//! decode it, filter its rows and reduce its columns.
//!
//! The contracts on the methods of `Source`, `Predicate` and `Reducer` are
//! what a scan assumes of them: that they answer the same question the same
//! way, that a decoder ends, and that a predicate takes rows out of a table
//! and leaves its columns. Of an implementation outside this crate they are
//! assumed, not proved. How they answer is left open: the spec functions
//! `layout`, `parsed`, `statistics`, `decoded`, `judges`, `judgement`,
//! `filtered` and `reduced` only give the answers a name.

use crate::chunk::Chunk;
use crate::error::Failure;
use crate::frame::{frame_columns, keeps_columns, rectangular, IdxSize};
use crate::materialize::finite;
use crate::schema::Field;
use polars_core::frame::DataFrame;
use polars_core::series::Series;
use vstd::prelude::*;
use vstd::std_specs::iter::IteratorSpec;

verus! {

/// The layout of one row group, as far as the scan reads it.
#[derive(Clone, Copy, Debug)]
pub struct RowGroupMetaData {
    /// The number of rows of the row group.
    pub num_rows: usize,
}

/// The layout of a file: its row groups in file order.
#[derive(Debug)]
pub struct FileMetaData {
    pub row_groups: Vec<RowGroupMetaData>,
}

impl FileMetaData {
    /// The sizes of the row groups, in file order.
    pub open spec fn sizes(&self) -> Seq<nat> {
        Seq::new(self.row_groups@.len(), |i: int| self.row_groups@[i].num_rows as nat)
    }

    /// The layout of a file with row groups of the given sizes.
    pub fn from_row_counts(row_counts: &Vec<usize>) -> (metadata: FileMetaData)
        ensures
            metadata.sizes() == Seq::new(row_counts@.len(), |i: int| row_counts@[i] as nat),
    {
        let mut row_groups: Vec<RowGroupMetaData> = Vec::new();
        let mut i: usize = 0;
        while i < row_counts.len()
            invariant
                i <= row_counts@.len(),
                row_groups@.len() == i,
                forall|j: int| 0 <= j < i ==> (#[trigger] row_groups@[j]).num_rows == row_counts@[j],
            decreases row_counts@.len() - i,
        {
            row_groups.push(RowGroupMetaData { num_rows: row_counts[i] });
            i += 1;
        }
        let metadata = FileMetaData { row_groups };
        assert(metadata.sizes() =~= Seq::new(row_counts@.len(), |i: int| row_counts@[i] as nat));
        metadata
    }
}

/// A request for a row-count column: its name, and the number of the first
/// row of the file.
#[derive(Debug)]
pub struct RowCount {
    pub name: String,
    pub offset: IdxSize,
}

/// The statistics of one column: one entry per row group in each series that
/// is there.
#[derive(Debug)]
pub struct ColumnStatistics {
    pub name: String,
    pub null_count: Option<Series>,
    pub min_value: Option<Series>,
    pub max_value: Option<Series>,
}

/// The statistics of a file, column by column.
#[derive(Debug)]
pub struct Statistics {
    pub columns: Vec<ColumnStatistics>,
}

/// The file under the scan: its footer, its statistics and its column
/// decoders. The file does not change while it is scanned.
pub trait Source: Sized {
    /// A lazy sequence of decoded chunks of one column of one row group.
    type Chunks: Iterator<Item = Result<Chunk, Failure>> + Send;

    /// The sizes of the row groups that parsing the footer gives; `None` where
    /// the footer cannot be parsed.
    open spec fn layout(&self) -> Option<Seq<nat>> {
        vstd::pervasive::arbitrary::<spec_fn(Self) -> Option<Seq<nat>>>()(*self)
    }

    /// The source once its footer has been parsed.
    open spec fn parsed(&self) -> Self {
        vstd::pervasive::arbitrary::<spec_fn(Self) -> Self>()(*self)
    }

    /// Parses the footer.
    fn read_metadata(&mut self) -> (metadata: Result<FileMetaData, Failure>)
        ensures
            match old(self).layout() {
                Some(sizes) => metadata matches Ok(layout) && layout.sizes() == sizes,
                None => metadata is Err,
            },
            *final(self) == old(self).parsed(),
    ;

    /// What collecting the statistics of the file gives: they are a matter of
    /// the file and the schema alone.
    open spec fn statistics(&self, schema: Seq<Field>) -> Result<Option<Statistics>, Failure> {
        let answers = vstd::pervasive::arbitrary::<
            spec_fn(Self, Seq<Field>) -> Result<Option<Statistics>, Failure>,
        >();
        answers(*self, schema)
    }

    /// Collects the statistics of all row groups; `None` where the file has
    /// none.
    fn collect_statistics(&self, schema: &Vec<Field>) -> (collected: Result<Option<Statistics>, Failure>)
        ensures
            collected == self.statistics(schema@),
    ;

    /// The items that the decoder of one column of one row group yields when
    /// asked for at most `num_rows` rows in chunks of at most `chunk_size`
    /// rows; `None` where the decoder cannot be opened. They are a matter of
    /// the file and the request alone.
    open spec fn decoded(&self, row_group: usize, field: Field, num_rows: usize, chunk_size: usize) -> Option<Seq<Result<Chunk, Failure>>> {
        let answers = vstd::pervasive::arbitrary::<
            spec_fn(Self, usize, Field, usize, usize) -> Option<Seq<Result<Chunk, Failure>>>,
        >();
        answers(*self, row_group, field, num_rows, chunk_size)
    }

    /// Opens the decoder of one column of one row group, for at most
    /// `num_rows` rows in chunks of at most `chunk_size` rows. Nothing is
    /// decoded before the first chunk is pulled. The sequence ends, and holds
    /// the items of `decoded`.
    fn column_chunks(&self, row_group: usize, field: &Field, num_rows: usize, chunk_size: usize) -> (opened: Result<Self::Chunks, Failure>)
        ensures
            match self.decoded(row_group, *field, num_rows, chunk_size) {
                Some(items) => opened matches Ok(chunks) && finite(&chunks) && chunks.remaining()
                    == items,
                None => opened is Err,
            },
    ;
}

/// A row filter that may also judge a row group by its statistics.
pub trait Predicate: Sized {
    /// What filtering a table gives: it is a matter of the predicate and the
    /// table alone.
    open spec fn filtered(&self, table: DataFrame) -> Result<DataFrame, Failure> {
        let answers = vstd::pervasive::arbitrary::<
            spec_fn(Self, DataFrame) -> Result<DataFrame, Failure>,
        >();
        answers(*self, table)
    }

    /// Keeps the rows of the table that meet the predicate, and every
    /// column of it: of a table with columns of one length, what is kept has
    /// the same columns by name and type, of one length again, and no more
    /// rows.
    fn filter(&self, table: DataFrame) -> (kept: Result<DataFrame, Failure>)
        ensures
            kept == self.filtered(table),
            rectangular(frame_columns(table)) ==> (kept matches Ok(frame) ==> keeps_columns(
                frame_columns(table),
                frame_columns(frame),
            )),
    ;

    /// The predicate has a statistics evaluator.
    open spec fn judges(&self) -> bool {
        vstd::pervasive::arbitrary::<spec_fn(Self) -> bool>()(*self)
    }

    /// Whether the predicate can judge a row group by statistics.
    fn has_stats_evaluator(&self) -> (able: bool)
        ensures
            able == self.judges(),
    ;

    /// What the statistics evaluator says of a row group: it is a matter of
    /// the predicate, the statistics and the row group alone.
    open spec fn judgement(&self, statistics: Statistics, row_group: usize) -> Result<bool, Failure> {
        let answers = vstd::pervasive::arbitrary::<
            spec_fn(Self, Statistics, usize) -> Result<bool, Failure>,
        >();
        answers(*self, statistics, row_group)
    }

    /// Whether the row group may hold a row that meets the predicate, going
    /// by the statistics alone. `Failure::NotFound` where the statistics do
    /// not cover what the predicate reads.
    fn should_read(&self, statistics: &Statistics, row_group: usize) -> (answer: Result<bool, Failure>)
        ensures
            answer == self.judgement(*statistics, row_group),
    ;
}

/// A column-level reducer.
pub trait Reducer: Sized {
    /// What reducing a table gives, the column or the text of the failure: it
    /// is a matter of the reducer and the table alone.
    open spec fn reduced(&self, table: DataFrame) -> Result<Series, Seq<char>> {
        let answers = vstd::pervasive::arbitrary::<
            spec_fn(Self, DataFrame) -> Result<Series, Seq<char>>,
        >();
        answers(*self, table)
    }

    /// Reduces the table to one column.
    fn finish(&self, table: &DataFrame) -> (made: Result<Series, Failure>)
        ensures
            match self.reduced(*table) {
                Ok(series) => made == Ok::<Series, Failure>(series),
                Err(text) => made matches Err(failure) && failure.text() == text,
            },
    ;
}

/// The file without row groups. A scan of it gives the empty table over the
/// projected schema. Its footer parses to a layout without row groups, it has
/// no statistics, and no column of it can be opened: asking for one fails
/// with `Failure::NotFound` of the field's name.
#[derive(Clone, Copy, Debug)]
pub struct EmptyFile;

impl Source for EmptyFile {
    type Chunks = std::vec::IntoIter<Result<Chunk, Failure>>;

    open spec fn layout(&self) -> Option<Seq<nat>> {
        Some(Seq::empty())
    }

    open spec fn parsed(&self) -> Self {
        *self
    }

    fn read_metadata(&mut self) -> (metadata: Result<FileMetaData, Failure>) {
        let layout = FileMetaData { row_groups: Vec::new() };
        assert(layout.sizes() =~= Seq::<nat>::empty());
        Ok(layout)
    }

    open spec fn statistics(&self, schema: Seq<Field>) -> Result<Option<Statistics>, Failure> {
        Ok(None)
    }

    fn collect_statistics(&self, schema: &Vec<Field>) -> (collected: Result<Option<Statistics>, Failure>) {
        Ok(None)
    }

    open spec fn decoded(&self, row_group: usize, field: Field, num_rows: usize, chunk_size: usize) -> Option<Seq<Result<Chunk, Failure>>> {
        None
    }

    fn column_chunks(&self, row_group: usize, field: &Field, num_rows: usize, chunk_size: usize) -> (opened: Result<Self::Chunks, Failure>)
        ensures
            opened matches Err(Failure::NotFound(name)) && name == field.name,
    {
        Err(Failure::NotFound(field.name.clone()))
    }
}

/// The predicate of a scan that has none: it keeps every row and judges no
/// row group.
#[derive(Clone, Copy, Debug)]
pub struct NoPredicate;

impl Predicate for NoPredicate {
    open spec fn filtered(&self, table: DataFrame) -> Result<DataFrame, Failure> {
        Ok(table)
    }

    fn filter(&self, table: DataFrame) -> (kept: Result<DataFrame, Failure>) {
        Ok(table)
    }

    open spec fn judges(&self) -> bool {
        false
    }

    fn has_stats_evaluator(&self) -> (able: bool) {
        false
    }

    open spec fn judgement(&self, statistics: Statistics, row_group: usize) -> Result<bool, Failure> {
        Ok(true)
    }

    fn should_read(&self, statistics: &Statistics, row_group: usize) -> (answer: Result<bool, Failure>) {
        Ok(true)
    }
}

/// The text with which `NoReducer` refuses a table.
pub open spec fn no_reducer_text() -> Seq<char> {
    "no reducer"@
}

/// The reducer of a scan that has none. It reduces nothing: a list of them is
/// only ever empty or refused. Asked to reduce a table, it refuses with a
/// failure of the text `no_reducer_text`, whatever the table.
#[derive(Clone, Copy, Debug)]
pub struct NoReducer;

impl Reducer for NoReducer {
    open spec fn reduced(&self, table: DataFrame) -> Result<Series, Seq<char>> {
        Err(no_reducer_text())
    }

    fn finish(&self, table: &DataFrame) -> (made: Result<Series, Failure>)
        ensures
            made matches Err(Failure::Other(message)) && message@ == no_reducer_text(),
    {
        Err(Failure::Other("no reducer".to_owned()))
    }
}

} // verus!
