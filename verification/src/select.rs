//! The row group selector: read a row group, or skip it on the word of its
//! statistics.

use crate::error::{Failure, ScanError, Stage};
use vstd::prelude::*;

verus! {

/// What to do with a row group.
#[derive(Clone, Copy, Debug, PartialEq, Eq, Structural)]
pub enum Selection {
    Read,
    Skip,
}

/// The answer of a statistics evaluator is a plain "no": the only answer on
/// which a row group is skipped.
pub open spec fn rules_out(answer: Option<Result<bool, Failure>>) -> bool {
    answer == Some(Ok::<bool, Failure>(false))
}

/// The answer is a failure other than missing statistics: the only answer that
/// ends the scan.
pub open spec fn is_fatal(answer: Option<Result<bool, Failure>>) -> bool {
    answer matches Some(Err(Failure::Other(_)))
}

/// Decides on a row group from the answer of the statistics evaluator; `None`
/// stands for no evaluator or no statistics.
///
/// The row group is skipped on a plain "no" and on nothing else. Missing
/// statistics are no evidence, and the row group is read. Any other failure is
/// the scan's error, with the failure's text.
pub fn select_row_group(answer: Option<Result<bool, Failure>>) -> (selected: Result<Selection, ScanError>)
    ensures
        is_fatal(answer) <==> selected is Err,
        selected matches Err(error) ==> error.stage == Stage::Statistics && error.message@ == (
        answer->0->Err_0).text(),
        selected matches Ok(selection) ==> (selection == Selection::Skip <==> rules_out(answer)),
{
    match answer {
        None => Ok(Selection::Read),
        Some(Ok(true)) => Ok(Selection::Read),
        Some(Ok(false)) => Ok(Selection::Skip),
        Some(Err(Failure::NotFound(_))) => Ok(Selection::Read),
        Some(Err(Failure::Other(message))) => Err(ScanError { stage: Stage::Statistics, message }),
    }
}

} // verus!
