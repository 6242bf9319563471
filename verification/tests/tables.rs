use parquet_scan::budget::ScanState;
use parquet_scan::error::{stage_label, Failure, ScanError, Stage};
use parquet_scan::scan::check_countable;
use parquet_scan::finish::{empty_table, finalize, stacked_height, truncate};
use parquet_scan::schema::{identity_projection, DataType, Field};
use parquet_scan::source::{FileMetaData, NoPredicate, NoReducer, Predicate, Reducer, RowCount, Statistics};
use parquet_scan::table::{
    apply_aggregations, apply_predicate, assemble, attach_row_count, rectangular_height,
    table_height,
};
use polars_core::datatypes::DataType as PolarsType;
use polars_core::frame::DataFrame;
use polars_core::prelude::NamedFrom;
use polars_core::series::Series;

fn ints(name: &str, values: &[i32]) -> Series {
    Series::new(name, values)
}

fn table(a: &[i32], b: &[i32]) -> DataFrame {
    DataFrame::new(vec![ints("a", a), ints("b", b)]).unwrap()
}

fn values(table: &DataFrame, name: &str) -> Vec<i32> {
    table.column(name).unwrap().i32().unwrap().into_no_null_iter().collect()
}

fn schema() -> Vec<Field> {
    vec![
        Field::new("a".to_string(), DataType::Int32),
        Field::new("b".to_string(), DataType::Utf8),
        Field::new("c".to_string(), DataType::Float64),
    ]
}

fn no_reducers() -> Option<&'static Vec<NoReducer>> {
    None
}

/// Counts the rows of the table.
struct Rows;

impl Reducer for Rows {
    fn finish(&self, table: &DataFrame) -> Result<Series, Failure> {
        Ok(Series::new("rows", &[table.height() as i32]))
    }
}

/// Hands the whole column `a` back: as long as the table.
struct Whole;

impl Reducer for Whole {
    fn finish(&self, table: &DataFrame) -> Result<Series, Failure> {
        Ok(table.column("a").unwrap().clone())
    }
}

/// One row, or the whole column.
enum Mixed {
    Rows,
    Whole,
}

impl Reducer for Mixed {
    fn finish(&self, table: &DataFrame) -> Result<Series, Failure> {
        match self {
            Mixed::Rows => Rows.finish(table),
            Mixed::Whole => Whole.finish(table),
        }
    }
}

/// Keeps the first row only.
struct First;

impl Predicate for First {
    fn filter(&self, table: DataFrame) -> Result<DataFrame, Failure> {
        Ok(table.head(Some(1)))
    }

    fn has_stats_evaluator(&self) -> bool {
        false
    }

    fn should_read(&self, _statistics: &Statistics, _row_group: usize) -> Result<bool, Failure> {
        Ok(true)
    }
}

#[test]
fn columns_of_one_length_make_a_table_in_their_order() {
    let made = assemble(vec![ints("x", &[1, 2]), ints("y", &[3, 4])], Stage::Decode).unwrap();
    assert_eq!(made.get_column_names(), vec!["x", "y"]);
    assert_eq!(made.shape(), (2, 2));
    assert_eq!(values(&made, "y"), vec![3, 4]);
}

#[test]
fn no_columns_make_the_table_without_columns() {
    let made = assemble(Vec::new(), Stage::Decode).unwrap();
    assert_eq!(made.shape(), (0, 0));
}

#[test]
fn names_are_not_checked_when_a_table_is_made() {
    let made = assemble(vec![ints("x", &[1]), ints("x", &[2])], Stage::Decode).unwrap();
    assert_eq!(made.get_column_names(), vec!["x", "x"]);
}

#[test]
fn columns_of_different_length_make_no_table() {
    let error = assemble(vec![ints("x", &[1, 2]), ints("y", &[3])], Stage::Aggregation).unwrap_err();
    assert_eq!(error.stage, Stage::Aggregation);
    let error = assemble(vec![ints("x", &[]), ints("y", &[]), ints("z", &[3])], Stage::Decode).unwrap_err();
    assert_eq!(error.stage, Stage::Decode);
}

#[test]
fn the_height_of_a_table_is_told_where_its_columns_agree() {
    assert_eq!(rectangular_height(&table(&[1, 2, 3], &[4, 5, 6])), Some(3));
    assert_eq!(rectangular_height(&DataFrame::new_no_checks(Vec::new())), Some(0));
    let ragged = DataFrame::new_no_checks(vec![ints("a", &[1, 2]), ints("b", &[3])]);
    assert_eq!(rectangular_height(&ragged), None);
}

#[test]
fn the_row_count_comes_in_front_and_starts_behind_the_rows_before() {
    let mut counted = table(&[7, 8, 9], &[1, 2, 3]);
    let row_count = RowCount { name: "row_nr".to_string(), offset: 10 };
    attach_row_count(&mut counted, &row_count, 30).unwrap();
    assert_eq!(counted.get_column_names(), vec!["row_nr", "a", "b"]);
    let numbers: Vec<u32> = counted.column("row_nr").unwrap().u32().unwrap().into_no_null_iter().collect();
    assert_eq!(numbers, vec![40, 41, 42]);
    assert_eq!(counted.column("row_nr").unwrap().dtype(), &PolarsType::UInt32);
    assert_eq!(values(&counted, "a"), vec![7, 8, 9]);
}

#[test]
fn a_row_count_up_to_the_last_number_is_attached() {
    let mut counted = table(&[7, 8], &[1, 2]);
    let row_count = RowCount { name: "row_nr".to_string(), offset: 0 };
    attach_row_count(&mut counted, &row_count, u32::MAX - 2).unwrap();
    let numbers: Vec<u32> = counted.column("row_nr").unwrap().u32().unwrap().into_no_null_iter().collect();
    assert_eq!(numbers, vec![u32::MAX - 2, u32::MAX - 1]);
}

#[test]
fn a_row_count_beyond_the_row_counter_is_a_decode_error() {
    let mut counted = table(&[7, 8, 9], &[1, 2, 3]);
    let row_count = RowCount { name: "row_nr".to_string(), offset: 1 };
    let error = attach_row_count(&mut counted, &row_count, u32::MAX - 3).unwrap_err();
    assert_eq!(error.stage, Stage::Decode);
    assert_eq!(counted.get_column_names(), vec!["a", "b"]);
    assert_eq!(counted.height(), 3);
}

#[test]
fn without_a_predicate_the_table_stays() {
    let none: Option<&NoPredicate> = None;
    let kept = apply_predicate(table(&[1, 2], &[3, 4]), none).unwrap();
    assert_eq!(values(&kept, "a"), vec![1, 2]);
    let kept = apply_predicate(table(&[1, 2], &[3, 4]), Some(&NoPredicate)).unwrap();
    assert_eq!(values(&kept, "b"), vec![3, 4]);
    let kept = apply_predicate(table(&[1, 2], &[3, 4]), Some(&First)).unwrap();
    assert_eq!(values(&kept, "a"), vec![1]);
}

#[test]
fn reducers_give_one_column_each_in_their_order() {
    let reduced = apply_aggregations(table(&[1, 2, 3], &[4, 5, 6]), Some(&vec![Rows, Rows])).unwrap();
    assert_eq!(reduced.shape(), (1, 2));
    assert_eq!(reduced.get_column_names(), vec!["rows", "rows"]);

    let kept = apply_aggregations(table(&[1, 2, 3], &[4, 5, 6]), no_reducers()).unwrap();
    assert_eq!(kept.shape(), (3, 2));

    let none: Vec<NoReducer> = Vec::new();
    let reduced = apply_aggregations(table(&[1, 2, 3], &[4, 5, 6]), Some(&none)).unwrap();
    assert_eq!(reduced.shape(), (0, 0));
}

#[test]
fn reduced_columns_of_different_length_are_an_aggregation_error() {
    let whole = apply_aggregations(table(&[1, 2], &[3, 4]), Some(&vec![Whole, Whole])).unwrap();
    assert_eq!(whole.shape(), (2, 2));

    let error = apply_aggregations(table(&[1, 2], &[3, 4]), Some(&vec![Mixed::Rows, Mixed::Whole])).unwrap_err();
    assert_eq!(error.stage, Stage::Aggregation);
}

#[test]
fn a_cut_keeps_the_first_rows() {
    let cut = truncate(table(&[1, 2, 3, 4], &[5, 6, 7, 8]), 3).unwrap();
    assert_eq!(values(&cut, "a"), vec![1, 2, 3]);
    assert_eq!(values(&cut, "b"), vec![5, 6, 7]);
    let cut = truncate(table(&[1, 2, 3, 4], &[5, 6, 7, 8]), 0).unwrap();
    assert_eq!(cut.shape(), (0, 2));
    let cut = truncate(table(&[1, 2, 3, 4], &[5, 6, 7, 8]), 4).unwrap();
    assert_eq!(cut.shape(), (4, 2));
    let cut = truncate(table(&[1, 2, 3, 4], &[5, 6, 7, 8]), usize::MAX).unwrap();
    assert_eq!(values(&cut, "b"), vec![5, 6, 7, 8]);
}

#[test]
fn a_ragged_table_is_not_cut() {
    let ragged = DataFrame::new_no_checks(vec![ints("a", &[1, 2]), ints("b", &[3])]);
    let error = truncate(ragged, 1).unwrap_err();
    assert_eq!(error.stage, Stage::Concatenation);
}

#[test]
fn the_empty_table_has_the_projected_names_and_types() {
    let empty = empty_table(&schema(), &vec![2, 0]).unwrap();
    assert_eq!(empty.shape(), (0, 2));
    assert_eq!(empty.get_column_names(), vec!["c", "a"]);
    assert_eq!(empty.dtypes(), vec![PolarsType::Float64, PolarsType::Int32]);

    let whole = identity_projection(3);
    assert_eq!(whole, vec![0, 1, 2]);
    let empty = empty_table(&schema(), &whole).unwrap();
    assert_eq!(empty.get_column_names(), vec!["a", "b", "c"]);
    assert_eq!(empty.dtypes(), vec![PolarsType::Int32, PolarsType::Utf8, PolarsType::Float64]);
    assert_eq!(identity_projection(0), Vec::<usize>::new());
}

#[test]
fn tables_are_added_up_where_they_fit() {
    assert_eq!(stacked_height(&vec![table(&[1], &[2]), table(&[3, 4], &[5, 6])]), Some(3));
    assert_eq!(stacked_height(&Vec::new()), Some(0));
    let ragged = DataFrame::new_no_checks(vec![ints("a", &[1, 2]), ints("b", &[3])]);
    assert_eq!(stacked_height(&vec![table(&[1], &[2]), ragged]), None);
}

#[test]
fn the_finalizer_stacks_in_order_then_reduces_then_cuts() {
    let tables = vec![table(&[1, 2], &[10, 20]), table(&[3], &[30]), table(&[4, 5], &[40, 50])];
    let whole = finalize(tables, &schema(), &vec![0, 1], no_reducers(), 4).unwrap();
    assert_eq!(values(&whole, "a"), vec![1, 2, 3, 4]);
    assert_eq!(values(&whole, "b"), vec![10, 20, 30, 40]);

    let tables = vec![table(&[1, 2], &[10, 20]), table(&[3], &[30])];
    let counted = finalize(tables, &schema(), &vec![0, 1], Some(&vec![Rows]), 10).unwrap();
    assert_eq!(values(&counted, "rows"), vec![3]);

    let tables = vec![table(&[1, 2], &[10, 20]), table(&[3], &[30])];
    let cut = finalize(tables, &schema(), &vec![0, 1], Some(&vec![Whole]), 2).unwrap();
    assert_eq!(values(&cut, "a"), vec![1, 2]);
}

#[test]
fn the_finalizer_without_tables_gives_the_typed_empty_table() {
    let empty = finalize(Vec::new(), &schema(), &vec![1], Some(&vec![Rows]), 5).unwrap();
    assert_eq!(empty.shape(), (0, 1));
    assert_eq!(empty.get_column_names(), vec!["b"]);
    assert_eq!(empty.dtypes(), vec![PolarsType::Utf8]);
}

#[test]
fn tables_that_do_not_stack_are_a_concatenation_error() {
    let narrow = DataFrame::new(vec![ints("a", &[1])]).unwrap();
    let error: ScanError =
        finalize(vec![table(&[1], &[2]), narrow], &schema(), &vec![0, 1], no_reducers(), 5).unwrap_err();
    assert_eq!(error.stage, Stage::Concatenation);
    assert!(!error.message.is_empty());

    let renamed = DataFrame::new(vec![ints("a", &[1]), ints("z", &[2])]).unwrap();
    let error =
        finalize(vec![table(&[1], &[2]), renamed], &schema(), &vec![0, 1], no_reducers(), 5).unwrap_err();
    assert_eq!(error.stage, Stage::Concatenation);

    let ragged = DataFrame::new_no_checks(vec![ints("a", &[1, 2]), ints("b", &[3])]);
    let error =
        finalize(vec![table(&[1], &[2]), ragged], &schema(), &vec![0, 1], no_reducers(), 5).unwrap_err();
    assert_eq!(error.stage, Stage::Concatenation);
}

#[test]
fn a_table_without_columns_gives_way_to_the_next() {
    let bare = DataFrame::new_no_checks(Vec::new());
    let whole = finalize(vec![bare, table(&[1], &[2])], &schema(), &vec![0, 1], no_reducers(), 5).unwrap();
    assert_eq!(whole.shape(), (1, 2));
}

#[test]
fn the_state_appends_tables_and_keeps_the_counters() {
    let mut state = ScanState::new(9);
    state.accumulate(table(&[1], &[2]));
    state.accumulate(table(&[3, 4], &[5, 6]));
    assert_eq!(state.tables.len(), 2);
    assert_eq!(values(&state.tables[1], "a"), vec![3, 4]);
    assert_eq!((state.remaining_rows, state.previous_row_count), (9, 0));
}

#[test]
fn the_layout_keeps_the_sizes_of_the_row_groups() {
    let metadata = FileMetaData::from_row_counts(&vec![10, 0, 30]);
    let sizes: Vec<usize> = metadata.row_groups.iter().map(|row_group| row_group.num_rows).collect();
    assert_eq!(sizes, vec![10, 0, 30]);
}

#[test]
fn errors_name_their_stage() {
    let stages = [
        (Stage::Metadata, "metadata: m"),
        (Stage::Statistics, "statistics: m"),
        (Stage::Decode, "decode: m"),
        (Stage::Predicate, "predicate: m"),
        (Stage::Aggregation, "aggregation: m"),
        (Stage::Concatenation, "concatenation: m"),
    ];
    for (stage, line) in stages {
        assert_eq!(ScanError::new(stage, "m").describe(), line);
    }
    let error = Failure::NotFound("gone".to_string()).at(Stage::Decode);
    assert_eq!((error.stage, error.message.as_str()), (Stage::Decode, "gone"));
}

#[test]
fn the_rows_of_a_file_are_counted_against_the_row_counter() {
    let metadata = FileMetaData::from_row_counts(&vec![u32::MAX as usize - 5, 5]);
    assert!(check_countable(&metadata, &None));
    let row_count = Some(RowCount { name: "nr".to_string(), offset: 1 });
    assert!(!check_countable(&metadata, &row_count));
    let metadata = FileMetaData::from_row_counts(&vec![u32::MAX as usize - 5, 5, 1]);
    assert!(!check_countable(&metadata, &None));
    let metadata = FileMetaData::from_row_counts(&Vec::new());
    let row_count = Some(RowCount { name: "nr".to_string(), offset: u32::MAX });
    assert!(check_countable(&metadata, &row_count));
}

#[test]
fn the_height_of_a_table_is_that_of_its_first_column() {
    assert_eq!(table_height(&table(&[1, 2, 3], &[4, 5, 6])), 3);
    assert_eq!(table_height(&DataFrame::new_no_checks(Vec::new())), 0);
    let ragged = DataFrame::new_no_checks(vec![ints("a", &[1, 2]), ints("b", &[3])]);
    assert_eq!(table_height(&ragged), 2);
}

#[test]
fn stages_have_their_names() {
    assert_eq!(stage_label(Stage::Decode), "decode");
    assert_eq!(stage_label(Stage::Concatenation), "concatenation");
}

/// Refuses every table with its own text.
struct Refusing(&'static str);

impl Reducer for Refusing {
    fn finish(&self, _table: &DataFrame) -> Result<Series, Failure> {
        Err(Failure::Other(self.0.to_string()))
    }
}

/// A reducer of one kind or the other.
enum Either {
    Rows,
    Refusing(&'static str),
}

impl Reducer for Either {
    fn finish(&self, table: &DataFrame) -> Result<Series, Failure> {
        match self {
            Either::Rows => Rows.finish(table),
            Either::Refusing(text) => Refusing(text).finish(table),
        }
    }
}

#[test]
fn the_first_reducer_that_refuses_gives_the_error() {
    let reducers = vec![Either::Rows, Either::Refusing("second"), Either::Refusing("third")];
    let error = apply_aggregations(table(&[1, 2], &[3, 4]), Some(&reducers)).unwrap_err();
    assert_eq!((error.stage, error.message.as_str()), (Stage::Aggregation, "second"));

    let error = apply_aggregations(table(&[1], &[3]), Some(&vec![Refusing("only")])).unwrap_err();
    assert_eq!((error.stage, error.message.as_str()), (Stage::Aggregation, "only"));
}

#[test]
fn reducers_are_handed_the_table_as_it_is() {
    let reduced = apply_aggregations(table(&[1, 2, 3], &[4, 5, 6]), Some(&vec![Mixed::Whole, Mixed::Rows])).unwrap_err();
    assert_eq!(reduced.message, "the columns differ in length");
    let reduced = apply_aggregations(table(&[7], &[8]), Some(&vec![Mixed::Whole, Mixed::Rows])).unwrap();
    assert_eq!(reduced.get_column_names(), vec!["a", "rows"]);
    assert_eq!(values(&reduced, "a"), vec![7]);
    assert_eq!(values(&reduced, "rows"), vec![1]);
}

#[test]
fn the_errors_of_the_steps_bear_their_texts() {
    let error = assemble(vec![ints("x", &[1, 2]), ints("y", &[3])], Stage::Decode).unwrap_err();
    assert_eq!(error.message, "the columns differ in length");
    let mut counted = table(&[7, 8, 9], &[1, 2, 3]);
    let row_count = RowCount { name: "row_nr".to_string(), offset: u32::MAX - 1 };
    let error = attach_row_count(&mut counted, &row_count, 0).unwrap_err();
    assert_eq!(error.message, "more rows than the row counter holds");
    let ragged = DataFrame::new_no_checks(vec![ints("a", &[1, 2]), ints("b", &[3])]);
    assert_eq!(truncate(ragged, 1).unwrap_err().message, "the columns differ in length");
    let ragged = DataFrame::new_no_checks(vec![ints("a", &[1, 2]), ints("b", &[3])]);
    let error = finalize(vec![ragged], &schema(), &vec![0], no_reducers(), 5).unwrap_err();
    assert_eq!(error.message, "the tables do not fit one table");
}

#[test]
fn the_finalizer_hands_on_the_text_of_a_reducer_that_refuses() {
    let tables = vec![table(&[1, 2], &[10, 20]), table(&[3], &[30])];
    let error = finalize(tables, &schema(), &vec![0, 1], Some(&vec![Refusing("no sum")]), 10).unwrap_err();
    assert_eq!((error.stage, error.message.as_str()), (Stage::Aggregation, "no sum"));
}
