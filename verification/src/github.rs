//! The status-check model: the check run attached to a commit, its lifecycle
//! from `in_progress` to `completed`, and the two versions of it that one
//! commit sees — the initial one sent at creation and the final one sent at
//! update.

use vstd::prelude::*;

use crate::command::{CommandResult, summary_text};

verus! {

/// Where a check run stands in its lifecycle.
#[derive(Clone, Copy, Debug, PartialEq, Eq, Structural)]
pub enum CheckStatus {
    InProgress,
    Completed,
}

/// How a completed check run ended.
#[derive(Clone, Copy, Debug, PartialEq, Eq, Structural)]
pub enum Conclusion {
    Success,
    Failure,
}

/// The human-readable part of a check run.
#[derive(Debug)]
pub struct CheckOutput {
    pub title: String,
    pub summary: String,
    pub text: Option<String>,
}

/// A named status entity attached to one commit.
#[derive(Debug)]
pub struct CheckRun {
    pub name: String,
    pub head_sha: String,
    pub status: CheckStatus,
    pub conclusion: Option<Conclusion>,
    pub output: Option<CheckOutput>,
}

/// What the remote status-check API answers on creation or update.
#[derive(Debug)]
pub struct CheckRunResponse {
    pub id: u64,
    pub name: String,
    pub status: String,
}

/// The initial check run for a commit: in progress, no conclusion yet, an
/// output that says execution has started.
pub open spec fn is_initial_check(sha: Seq<char>, c: CheckRun) -> bool {
    &&& c.name@ == "smoked-tofu"@
    &&& c.head_sha@ == sha
    &&& c.status is InProgress
    &&& c.conclusion is None
    &&& c.output matches Some(o) && {
        &&& o.title@ == "Running command"@
        &&& o.summary@ == "Executing configured command for this commit"@
        &&& o.text is None
    }
}

/// The final check run for a commit: completed, concluded successful exactly
/// when the command was, with both captured output streams in the text.
pub open spec fn is_completed_check(sha: Seq<char>, result: CommandResult, c: CheckRun) -> bool {
    &&& c.name@ == "smoked-tofu"@
    &&& c.head_sha@ == sha
    &&& c.status is Completed
    &&& c.conclusion == Some(
        if result.success {
            Conclusion::Success
        } else {
            Conclusion::Failure
        },
    )
    &&& c.output matches Some(o) && {
        &&& o.title@ == (if result.success {
            "Command succeeded"@
        } else {
            "Command failed"@
        })
        &&& o.summary@ == summary_text(result)
        &&& o.text matches Some(t) && t@ == "STDOUT:\n"@ + result.stdout@ + "\n\nSTDERR:\n"@
            + result.stderr@
    }
}

impl CheckRun {
    /// A check run is well formed when its conclusion is set exactly on
    /// completion; it is never set on creation.
    pub open spec fn wf(self) -> bool {
        self.conclusion is Some <==> self.status is Completed
    }

    /// The check run sent when work on a commit begins.
    pub fn initial(head_sha: String) -> (r: CheckRun)
        ensures
            r.wf(),
            is_initial_check(head_sha@, r),
    {
        CheckRun {
            name: String::from_str("smoked-tofu"),
            head_sha,
            status: CheckStatus::InProgress,
            conclusion: None,
            output: Some(
                CheckOutput {
                    title: String::from_str("Running command"),
                    summary: String::from_str("Executing configured command for this commit"),
                    text: None,
                },
            ),
        }
    }

    /// The check run sent once the command has finished.
    pub fn completed(head_sha: String, result: &CommandResult) -> (r: CheckRun)
        ensures
            r.wf(),
            is_completed_check(head_sha@, *result, r),
    {
        let title = if result.success {
            String::from_str("Command succeeded")
        } else {
            String::from_str("Command failed")
        };
        let summary = result.summary();
        let mut text = String::from_str("STDOUT:\n");
        text.append(result.stdout.as_str());
        text.append("\n\nSTDERR:\n");
        text.append(result.stderr.as_str());
        let conclusion = if result.success {
            Conclusion::Success
        } else {
            Conclusion::Failure
        };
        proof {
            assert(text@ =~= "STDOUT:\n"@ + result.stdout@ + "\n\nSTDERR:\n"@ + result.stderr@);
        }
        CheckRun {
            name: String::from_str("smoked-tofu"),
            head_sha,
            status: CheckStatus::Completed,
            conclusion: Some(conclusion),
            output: Some(CheckOutput { title, summary, text: Some(text) }),
        }
    }
}

} // verus!
