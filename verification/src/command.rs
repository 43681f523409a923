//! The configured command and the captured outcome of one run of it.
//!
//! The command itself is fixed at process start and identical for every
//! invocation; spawning it is the caller's business. What the library owns is
//! the shape of a captured result: the two output streams decoded leniently
//! from their raw bytes, the exit code, and the summary line built from them.

use vstd::prelude::*;

use crate::numtext::{int_text, i32_to_string};

verus! {

/// The configuration the process is started with: loaded once, immutable
/// thereafter.
pub struct Args {
    /// Access token for the remote status-check API.
    pub token: String,
    /// Shared secret for webhook signature verification.
    pub secret: String,
    /// Port the webhook server listens on.
    pub port: u16,
    /// Command to run when commits are received.
    pub command: String,
    /// Arguments to pass to the command.
    pub args: Vec<String>,
}

/// One fixed command name and argument list, identical for every invocation.
pub struct CommandExecutor {
    pub command: String,
    pub args: Vec<String>,
}

impl CommandExecutor {
    pub fn new(command: String, args: Vec<String>) -> (r: CommandExecutor)
        ensures
            r.command == command,
            r.args == args,
    {
        CommandExecutor { command, args }
    }
}

/// What the lenient UTF-8 decoding of a byte string yields; determined by the
/// bytes alone.
pub uninterp spec fn utf8_lossy_of(bytes: Seq<u8>) -> Seq<char>;

/// Relies on String::from_utf8_lossy: the result is a function of the bytes
/// alone, and an empty input gives an empty result.
#[verifier::external_body]
fn utf8_lossy(bytes: &Vec<u8>) -> (r: String)
    ensures
        r@ == utf8_lossy_of(bytes@),
        bytes@.len() == 0 ==> r@.len() == 0,
{
    String::from_utf8_lossy(bytes).into_owned()
}

/// The outcome of one command invocation.
#[derive(Debug)]
pub struct CommandResult {
    pub success: bool,
    pub stdout: String,
    pub stderr: String,
    pub exit_code: Option<i32>,
}

/// The exit code as the summary line shows it: the code when the process
/// exited normally, `None` when a signal terminated it.
pub open spec fn exit_code_text(code: Option<i32>) -> Seq<char> {
    match code {
        Option::None => "None"@,
        Option::Some(n) => "Some("@ + int_text(n as int) + ")"@,
    }
}

/// The one-line summary of a command result.
pub open spec fn summary_text(r: CommandResult) -> Seq<char> {
    if r.success {
        "Command succeeded (exit code: "@ + exit_code_text(r.exit_code) + ")"@
    } else {
        "Command failed (exit code: "@ + exit_code_text(r.exit_code) + ")"@
    }
}

impl CommandResult {
    /// Assemble the result of a finished command from what was captured: both
    /// output streams are decoded leniently rather than failing on invalid
    /// encoding.
    pub fn from_captured(
        success: bool,
        stdout: &Vec<u8>,
        stderr: &Vec<u8>,
        exit_code: Option<i32>,
    ) -> (r: CommandResult)
        ensures
            r.success == success,
            r.stdout@ == utf8_lossy_of(stdout@),
            r.stderr@ == utf8_lossy_of(stderr@),
            r.exit_code == exit_code,
    {
        CommandResult {
            success,
            stdout: utf8_lossy(stdout),
            stderr: utf8_lossy(stderr),
            exit_code,
        }
    }

    pub fn summary(&self) -> (s: String)
        ensures
            s@ == summary_text(*self),
    {
        let mut s = if self.success {
            String::from_str("Command succeeded (exit code: ")
        } else {
            String::from_str("Command failed (exit code: ")
        };
        match &self.exit_code {
            Option::None => {
                s.append("None");
            },
            Option::Some(n) => {
                s.append("Some(");
                let digits = i32_to_string(*n);
                s.append(digits.as_str());
                s.append(")");
            },
        }
        s.append(")");
        proof {
            assert(s@ =~= summary_text(*self));
        }
        s
    }
}

} // verus!
