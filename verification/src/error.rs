//! Errors of a scan, each tagged with the stage that failed.

use vstd::prelude::*;
use vstd::string::StringExecFns;

verus! {

/// The stage of a scan at which an error arose.
#[derive(Clone, Copy, Debug, PartialEq, Eq, Structural)]
pub enum Stage {
    /// The footer or the row-group layout is unusable.
    Metadata,
    /// The statistics evaluator failed on something other than missing statistics.
    Statistics,
    /// A column of a row group could not be decoded.
    Decode,
    /// The row-level predicate failed.
    Predicate,
    /// A reducer failed.
    Aggregation,
    /// The per-group tables could not be stacked.
    Concatenation,
}

/// A fatal error of a scan.
#[derive(Debug)]
pub struct ScanError {
    pub stage: Stage,
    pub message: String,
}

/// What is settled of an error before it arises: its stage, and its text
/// where that is settled too.
pub ghost struct Fault {
    pub stage: Stage,
    pub text: Option<Seq<char>>,
}

/// The fault of the given stage and text.
pub open spec fn fault(stage: Stage, text: Seq<char>) -> Fault {
    Fault { stage, text: Some(text) }
}

/// The fault of the given stage, its text left open.
pub open spec fn fault_at(stage: Stage) -> Fault {
    Fault { stage, text: None }
}

/// `out` is what was planned: the planned value, or an error of the planned
/// stage that bears the planned text.
pub open spec fn follows<T>(out: Result<T, ScanError>, planned: Result<T, Fault>) -> bool {
    match planned {
        Ok(value) => out == Ok::<T, ScanError>(value),
        Err(fault) => out matches Err(error) && error.carries(fault),
    }
}

/// What a collaborator reports when it fails.
#[derive(Debug)]
pub enum Failure {
    /// The column or its statistics are not there.
    NotFound(String),
    /// Anything else.
    Other(String),
}

impl Failure {
    /// The text of the failure.
    pub open spec fn text(self) -> Seq<char> {
        match self {
            Failure::NotFound(message) => message@,
            Failure::Other(message) => message@,
        }
    }

    /// Turns the failure into the error of the given stage, keeping its text.
    pub fn at(self, stage: Stage) -> (error: ScanError)
        ensures
            error.stage == stage,
            error.message@ == self.text(),
    {
        match self {
            Failure::NotFound(message) => ScanError { stage, message },
            Failure::Other(message) => ScanError { stage, message },
        }
    }
}

impl ScanError {
    /// The error is of the fault's stage and bears its text, where that is
    /// settled.
    pub open spec fn carries(self, fault: Fault) -> bool {
        self.stage == fault.stage && (fault.text matches Some(text) ==> self.message@ == text)
    }

    pub fn new(stage: Stage, message: &str) -> (error: ScanError)
        ensures
            error.stage == stage,
            error.message@ == message@,
    {
        ScanError { stage, message: message.to_owned() }
    }

    /// A line that names the stage and gives the message.
    pub fn describe(&self) -> (line: String)
        ensures
            line@ == stage_name(self.stage) + ": "@ + self.message@,
    {
        let mut line = stage_label(self.stage).to_owned();
        line.append(": ");
        line.append(self.message.as_str());
        line
    }
}

/// The name under which a stage appears in an error line.
pub open spec fn stage_name(stage: Stage) -> Seq<char> {
    match stage {
        Stage::Metadata => "metadata"@,
        Stage::Statistics => "statistics"@,
        Stage::Decode => "decode"@,
        Stage::Predicate => "predicate"@,
        Stage::Aggregation => "aggregation"@,
        Stage::Concatenation => "concatenation"@,
    }
}

/// The name of a stage, as it appears in an error line.
pub fn stage_label(stage: Stage) -> (label: &'static str)
    ensures
        label@ == stage_name(stage),
{
    match stage {
        Stage::Metadata => "metadata",
        Stage::Statistics => "statistics",
        Stage::Decode => "decode",
        Stage::Predicate => "predicate",
        Stage::Aggregation => "aggregation",
        Stage::Concatenation => "concatenation",
    }
}

} // verus!
