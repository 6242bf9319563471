use parquet_scan::error::{Failure, Stage};
use parquet_scan::select::{select_row_group, Selection};

#[test]
fn a_plain_no_skips_the_row_group() {
    assert_eq!(select_row_group(Some(Ok(false))).unwrap(), Selection::Skip);
}

#[test]
fn a_yes_reads_the_row_group() {
    assert_eq!(select_row_group(Some(Ok(true))).unwrap(), Selection::Read);
}

#[test]
fn no_evaluator_reads_the_row_group() {
    assert_eq!(select_row_group(None).unwrap(), Selection::Read);
}

#[test]
fn missing_statistics_never_skip() {
    let answer = Some(Err(Failure::NotFound("max of column b".to_string())));
    assert_eq!(select_row_group(answer).unwrap(), Selection::Read);
}

#[test]
fn another_failure_of_the_evaluator_ends_the_scan() {
    let answer = Some(Err(Failure::Other("cannot compare".to_string())));
    let error = select_row_group(answer).unwrap_err();
    assert_eq!(error.stage, Stage::Statistics);
    assert_eq!(error.message, "cannot compare");
    assert_eq!(error.describe(), "statistics: cannot compare");
}
