//! Failure taxonomy for runs of the external transcoding tool, and the
//! classification of a finished invocation into that taxonomy.

use vstd::prelude::*;

verus! {

/// Why a job, or a whole batch, could not be completed.
///
/// `ToolMissing` is an environment problem that aborts a batch before
/// any job runs; the other variants are per-job failures that never
/// abort sibling jobs.
#[derive(Debug, Clone)]
pub enum ToolError {
    /// The external tool is not on the search path.
    ToolMissing,
    /// The process could not be started at all.
    SpawnFailed(String),
    /// The tool ran and exited non-zero; the captured diagnostic text.
    ToolFailed(String),
    /// A caller-supplied path or parameter was unusable.
    InvalidInput(String),
    /// A filesystem step failed after the tool itself succeeded.
    IoFailure(String),
}

/// The reader-facing description of each failure.
pub open spec fn spec_message(e: ToolError) -> Seq<char> {
    match e {
        ToolError::ToolMissing => "FFmpeg is not installed. Please install FFmpeg to use this tool."@,
        ToolError::SpawnFailed(d) => "Failed to execute ffmpeg: "@ + d@,
        ToolError::ToolFailed(d) => "FFmpeg error: "@ + d@,
        ToolError::InvalidInput(d) => "Invalid input: "@ + d@,
        ToolError::IoFailure(d) => "I/O failure: "@ + d@,
    }
}

impl ToolError {
    /// A human-readable description of the failure.
    pub fn message(&self) -> (r: String)
        ensures
            r@ == spec_message(*self),
    {
        match self {
            ToolError::ToolMissing => String::from_str(
                "FFmpeg is not installed. Please install FFmpeg to use this tool.",
            ),
            ToolError::SpawnFailed(d) => {
                let mut s = String::from_str("Failed to execute ffmpeg: ");
                s.append(d.as_str());
                s
            },
            ToolError::ToolFailed(d) => {
                let mut s = String::from_str("FFmpeg error: ");
                s.append(d.as_str());
                s
            },
            ToolError::InvalidInput(d) => {
                let mut s = String::from_str("Invalid input: ");
                s.append(d.as_str());
                s
            },
            ToolError::IoFailure(d) => {
                let mut s = String::from_str("I/O failure: ");
                s.append(d.as_str());
                s
            },
        }
    }
}

/// Classify a finished invocation of the external tool.
///
/// `started` says whether the process could be spawned at all, and
/// `exit_ok` whether it exited with status zero; `diagnostic` is the
/// captured diagnostic text of the run. A non-zero exit becomes
/// `ToolFailed` carrying that text, and a spawn failure becomes
/// `SpawnFailed`, so callers can tell an environment problem from an
/// input that the tool rejected.
pub fn classify_tool_outcome(started: bool, exit_ok: bool, diagnostic: String) -> (r: Result<
    (),
    ToolError,
>)
    ensures
        started && exit_ok ==> r is Ok,
        !started ==> r == Result::<(), ToolError>::Err(ToolError::SpawnFailed(diagnostic)),
        started && !exit_ok ==> r == Result::<(), ToolError>::Err(
            ToolError::ToolFailed(diagnostic),
        ),
{
    if !started {
        Err(ToolError::SpawnFailed(diagnostic))
    } else if !exit_ok {
        Err(ToolError::ToolFailed(diagnostic))
    } else {
        Ok(())
    }
}

} // verus!
