//! The external dump or restore tool as the library sees it: what to run, and
//! what became of the run.
//!
//! The library starts no process. An operation is a function from an [`Event`]
//! to a [`Step`]: on [`Event::Start`] it says which tool to run, if any; the
//! caller runs it, feeding and draining its streams, and comes back with
//! [`Event::Finished`], on which the operation gives its result.

use crate::blob::blob_bytes;
use crate::error::BackupError;
use bytes::Bytes;
use vstd::prelude::*;

verus! {

/// One run of an external program.
#[derive(Debug, Clone, PartialEq, Eq)]
pub struct Invocation {
    /// The program's name, looked up as the system does.
    pub program: String,
    /// The arguments, in order, without the program's name. They are visible to
    /// every user of the machine while the program runs.
    pub args: Vec<String>,
    /// Variables to add to the program's environment, as name and value.
    pub env: Vec<(String, String)>,
    /// What to write to the program's standard input before closing it; `None`
    /// where the program is given no input.
    pub stdin: Option<Bytes>,
}

/// An [`Invocation`] as plain text and bytes.
pub struct InvocationView {
    pub program: Seq<char>,
    pub args: Seq<Seq<char>>,
    pub env: Seq<(Seq<char>, Seq<char>)>,
    pub stdin: Option<Seq<u8>>,
}

impl View for Invocation {
    type V = InvocationView;

    open spec fn view(&self) -> InvocationView {
        InvocationView {
            program: self.program@,
            args: self.args.deep_view(),
            env: self.env.deep_view(),
            stdin: match self.stdin {
                Some(blob) => Some(blob_bytes(blob)),
                None => None,
            },
        }
    }
}

/// Whether an exit status reports success: it is there, and it is 0.
pub open spec fn is_success(code: Option<i32>) -> bool {
    code == Some(0i32)
}

/// Whether an exit status reports success.
pub fn exit_is_success(code: Option<i32>) -> (success: bool)
    ensures
        success == is_success(code),
{
    match code {
        Some(status) => status == 0,
        None => false,
    }
}

/// What became of one run of a tool.
#[derive(Debug, Clone, PartialEq, Eq)]
pub enum ToolReport {
    /// The program could not be started.
    NotStarted { detail: String },
    /// The program was started, and a read or write on one of its streams failed
    /// before it ended.
    StreamBroken { detail: String },
    /// The program ran to its end. `code` is its exit status, `None` where it
    /// ended without one; `stdout` and `stderr` are all that it wrote to its
    /// standard output and standard error streams.
    Exited { code: Option<i32>, stdout: Vec<u8>, stderr: String },
}

/// The report of a run that was started, from what became of each of its
/// parts: `fed`, writing the input and closing it; `stdout` and `stderr`,
/// reading each stream to its end; `exit`, waiting for the exit status.
///
/// Output that was not read to its end is never reported as a run's output, and
/// a run that was not given all of its input is never reported as a success.
/// Where the tool itself reports failure, that is the report, with its
/// diagnostics, even if it stopped reading its input.
pub open spec fn run_report(
    fed: Result<(), String>,
    stdout: Result<Vec<u8>, String>,
    stderr: Result<String, String>,
    exit: Result<Option<i32>, String>,
) -> ToolReport {
    match (stdout, stderr, exit) {
        (Err(detail), _, _) => ToolReport::StreamBroken { detail },
        (Ok(_), Err(detail), _) => ToolReport::StreamBroken { detail },
        (Ok(_), Ok(_), Err(detail)) => ToolReport::StreamBroken { detail },
        (Ok(stdout), Ok(stderr), Ok(code)) => match fed {
            Err(detail) if is_success(code) => ToolReport::StreamBroken { detail },
            _ => ToolReport::Exited { code, stdout, stderr },
        },
    }
}

impl ToolReport {
    /// Whether the tool ran to its end and reported success: exit status 0.
    pub open spec fn succeeded(self) -> bool {
        self matches ToolReport::Exited { code, .. } && is_success(code)
    }

    /// All that the tool wrote to standard output; nothing where it did not run
    /// to its end.
    pub open spec fn output(self) -> Seq<u8> {
        match self {
            ToolReport::Exited { stdout, .. } => stdout@,
            _ => Seq::empty(),
        }
    }

    /// Makes the report of a run that was started.
    pub fn from_run(
        fed: Result<(), String>,
        stdout: Result<Vec<u8>, String>,
        stderr: Result<String, String>,
        exit: Result<Option<i32>, String>,
    ) -> (report: ToolReport)
        ensures
            report == run_report(fed, stdout, stderr, exit),
            !(report is NotStarted),
            report.succeeded() <==> fed is Ok && stdout is Ok && stderr is Ok && (exit matches Ok(
                code,
            ) && is_success(code)),
            report.succeeded() ==> (stdout matches Ok(bytes) && report.output() == bytes@),
    {
        let stdout = match stdout {
            Ok(bytes) => bytes,
            Err(detail) => {
                return ToolReport::StreamBroken { detail };
            },
        };
        let stderr = match stderr {
            Ok(text) => text,
            Err(detail) => {
                return ToolReport::StreamBroken { detail };
            },
        };
        let code = match exit {
            Ok(code) => code,
            Err(detail) => {
                return ToolReport::StreamBroken { detail };
            },
        };
        match fed {
            Err(detail) => {
                if exit_is_success(code) {
                    ToolReport::StreamBroken { detail }
                } else {
                    ToolReport::Exited { code, stdout, stderr }
                }
            },
            Ok(_) => ToolReport::Exited { code, stdout, stderr },
        }
    }
}

/// What the caller tells an operation.
#[derive(Debug, Clone, PartialEq, Eq)]
pub enum Event {
    /// The operation begins.
    Start,
    /// The tool that the operation asked for has been run.
    Finished(ToolReport),
}

impl Event {
    /// Whether the event reports a tool that ran to its end with exit status 0.
    pub open spec fn tool_succeeded(self) -> bool {
        self matches Event::Finished(report) && report.succeeded()
    }
}

/// What an operation tells the caller.
#[derive(Debug, PartialEq, Eq)]
pub enum Step<T> {
    /// Run this, then come back with [`Event::Finished`] and its report.
    Run(Invocation),
    /// The operation is over, with this result.
    Done(Result<T, BackupError>),
}

impl<T> Step<T> {
    /// Whether the operation is over and succeeded.
    pub open spec fn succeeded(self) -> bool {
        self matches Step::Done(result) && result is Ok
    }

    /// Whether the operation is over and failed.
    pub open spec fn failed(self) -> bool {
        self matches Step::Done(result) && result is Err
    }
}

} // verus!
