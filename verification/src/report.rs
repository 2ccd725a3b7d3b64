//! Classification of a finished subprocess into a normalized report.
//!
//! Success is decided by the exit status alone, never by the captured text:
//! a zero exit is a success report holding the captured output; a nonzero
//! exit is a failure report holding the captured output and the invocation's
//! label, so a caller chaining several tools can tell which one failed.
//! A tool that ran and failed is a reportable outcome, not an error; a
//! subprocess that could not be started at all is `ToolError::LaunchFailure`
//! (see `session`), and never reaches this classification.

use vstd::prelude::*;
use vstd::string::StringExecFns;

verus! {

/// The outcome of one completed invocation.
#[derive(Debug)]
pub enum ExecutionReport {
    /// The subprocess exited with status zero; `output` is its captured
    /// standard output and standard error, unchanged.
    Success { output: String },
    /// The subprocess exited with a nonzero status; `output` is its captured
    /// text and `label` names the invocation that failed.
    Failure { label: String, output: String },
}

/// What `ExecutionReport::render` returns, character for character: the
/// captured output exactly on success, annotated with the label on failure.
pub open spec fn spec_render(r: ExecutionReport) -> Seq<char> {
    match r {
        ExecutionReport::Success { output } => output@,
        ExecutionReport::Failure { label, output } => label@ + " failed\n"@ + output@,
    }
}

impl ExecutionReport {
    /// Whether the classification is a success.
    pub open spec fn spec_is_success(self) -> bool {
        self is Success
    }

    /// Classifies a completed subprocess by its exit status code: zero is a
    /// success carrying the captured output; anything else is a failure
    /// carrying the captured output and the invocation's label.
    pub fn classify_exit(exit_code: i32, output: String, label: String) -> (r: ExecutionReport)
        ensures
            r.spec_is_success() <==> exit_code == 0,
            exit_code == 0 ==> r == (ExecutionReport::Success { output }),
            exit_code != 0 ==> r == (ExecutionReport::Failure { label, output }),
    {
        if exit_code == 0 {
            ExecutionReport::Success { output }
        } else {
            ExecutionReport::Failure { label, output }
        }
    }

    /// The caller-facing report text: the captured output exactly, prefixed
    /// on failure by the label and the word `failed` on a line of their own.
    pub fn render(self) -> (r: String)
        ensures
            r@ == spec_render(self),
    {
        match self {
            ExecutionReport::Success { output } => output,
            ExecutionReport::Failure { label, output } => label.concat(" failed\n").concat(
                output.as_str(),
            ),
        }
    }
}

} // verus!
