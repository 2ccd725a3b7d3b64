//! Session-scoped state and its resolution rules.
//!
//! A session holds the active project directory and an optional default
//! toolchain. Every tool invocation reads the session; none of the functions
//! here mutate it. Project resolution fails when no project is configured;
//! toolchain resolution falls back from the explicit request value to the
//! session default to none.

use vstd::prelude::*;
use vstd::string::StringExecFns;

verus! {

/// An invocation-level fault: either the session has no project configured,
/// or the subprocess could not be started at all. A tool that ran and exited
/// nonzero is not an error (see `report`), so neither case here carries a
/// tool outcome.
#[derive(Debug)]
pub enum ToolError {
    /// No project has been configured for the session; nothing was run.
    NoProjectConfigured,
    /// The subprocess could not be launched (missing binary, bad working
    /// directory). `label` names the invocation, `detail` the host's reason.
    LaunchFailure { label: String, detail: String },
}

/// What `ToolError::message` returns, character for character.
pub open spec fn spec_error_message(e: ToolError) -> Seq<char> {
    match e {
        ToolError::NoProjectConfigured => "no project configured for this session"@,
        ToolError::LaunchFailure { label, detail } => "failed to launch "@ + label@ + ": "@
            + detail@,
    }
}

impl ToolError {
    /// A human-readable description of the fault.
    pub fn message(&self) -> (r: String)
        ensures
            r@ == spec_error_message(*self),
    {
        match self {
            ToolError::NoProjectConfigured => String::from_str(
                "no project configured for this session",
            ),
            ToolError::LaunchFailure { label, detail } => String::from_str("failed to launch ")
                .concat(label.as_str()).concat(": ").concat(detail.as_str()),
        }
    }
}

/// Process-scoped session state: the active project directory and the default
/// toolchain, both optional. Mutated only by explicit set operations outside
/// this core; the resolvers below only read it.
pub struct Session {
    pub project_path: Option<String>,
    pub default_toolchain: Option<String>,
}

impl Session {
    /// The session's active project directory, or `NoProjectConfigured` when
    /// none has been set. There is no filesystem auto-discovery fallback.
    pub fn resolve_project(&self) -> (r: Result<String, ToolError>)
        ensures
            r is Ok <==> self.project_path is Some,
            r matches Ok(p) ==> self.project_path matches Some(q) && p == q,
            r matches Err(e) ==> e is NoProjectConfigured,
    {
        match &self.project_path {
            Some(p) => Ok(p.clone()),
            None => Err(ToolError::NoProjectConfigured),
        }
    }

    /// Toolchain precedence: the explicit per-request value wins; otherwise
    /// the session default; otherwise none (the build tool's own default).
    pub fn resolve_toolchain(&self, explicit: Option<String>) -> (r: Option<String>)
        ensures
            explicit is Some ==> r == explicit,
            explicit is None ==> r == self.default_toolchain,
    {
        match explicit {
            Some(t) => Some(t),
            None => match &self.default_toolchain {
                Some(d) => Some(d.clone()),
                None => None,
            },
        }
    }
}

} // verus!
