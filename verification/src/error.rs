//! The ways in which a backup or a restore fails.

use crate::databases::configs::Engine;
use crate::decimal::{signed_decimal_digits, signed_decimal_text};
use vstd::prelude::*;

verus! {

/// Why a backup or a restore did not succeed. Nothing is retried: each failure
/// goes to the caller as it is, with the text that the tool or the system gave.
#[derive(Debug, Clone, PartialEq, Eq)]
pub enum BackupError {
    /// The configuration names an engine for which no adapter can do the work.
    UnsupportedBackend { engine: Engine },
    /// A restore was asked for with a dump of zero length: invalid input, refused
    /// before any tool is started.
    EmptyDump,
    /// The tool could not be started. Nothing was read or changed.
    Spawn { detail: String },
    /// The dump tool ran and did not end with exit status 0 (`code` is `None`
    /// where it ended without one). `diagnostics` is what it wrote to its standard
    /// error stream. Whatever it had written to standard output is dropped.
    ToolFailed { code: Option<i32>, diagnostics: String },
    /// Reading the dump tool's streams failed.
    Stream { detail: String },
    /// A restore failed after the restore tool had been started: the target
    /// database may be left without objects that were dropped and not yet
    /// created again. `code` is the tool's exit status where it ended with one;
    /// `diagnostics` is its standard error text, or the account of the broken
    /// stream where it did not run to its end.
    PartialRestore { code: Option<i32>, diagnostics: String },
}

/// What is said of an exit status in a message: the status in decimal and a
/// colon where there is one, nothing where there is none.
pub open spec fn status_text(code: Option<i32>) -> Seq<char> {
    match code {
        Some(status) => "exit status "@ + signed_decimal_digits(status as int) + ": "@,
        None => Seq::empty(),
    }
}

/// The message of an error: what went wrong, followed by all of the text that
/// the tool or the system gave.
pub open spec fn error_text(error: BackupError) -> Seq<char> {
    match error {
        BackupError::UnsupportedBackend { engine } => "unsupported backend: "@
            + engine.spec_name(),
        BackupError::EmptyDump => "invalid input: the dump is empty"@,
        BackupError::Spawn { detail } => "the tool could not be started: "@ + detail@,
        BackupError::ToolFailed { code, diagnostics } => "the dump tool failed: "@ + status_text(
            code,
        ) + diagnostics@,
        BackupError::Stream { detail } => "the dump could not be read: "@ + detail@,
        BackupError::PartialRestore {
            code,
            diagnostics,
        } => "partial restore, the database may be inconsistent: "@ + status_text(code)
            + diagnostics@,
    }
}

fn append_status(text: &mut String, code: Option<i32>)
    ensures
        final(text)@ == old(text)@ + status_text(code),
{
    if let Some(status) = code {
        let ghost before = text@;
        text.append("exit status ");
        text.append(signed_decimal_text(status).as_str());
        text.append(": ");
        assert(text@ =~= before + status_text(code));
    } else {
        assert(text@ =~= text@ + status_text(code));
    }
}

impl BackupError {
    /// The error as a message for the user.
    pub fn message(&self) -> (text: String)
        ensures
            text@ == error_text(*self),
    {
        match self {
            BackupError::UnsupportedBackend { engine } => {
                let mut text = "unsupported backend: ".to_owned();
                text.append(engine.name());
                text
            },
            BackupError::EmptyDump => "invalid input: the dump is empty".to_owned(),
            BackupError::Spawn { detail } => {
                let mut text = "the tool could not be started: ".to_owned();
                text.append(detail.as_str());
                text
            },
            BackupError::ToolFailed { code, diagnostics } => {
                let mut text = "the dump tool failed: ".to_owned();
                append_status(&mut text, *code);
                text.append(diagnostics.as_str());
                text
            },
            BackupError::Stream { detail } => {
                let mut text = "the dump could not be read: ".to_owned();
                text.append(detail.as_str());
                text
            },
            BackupError::PartialRestore { code, diagnostics } => {
                let mut text = "partial restore, the database may be inconsistent: ".to_owned();
                append_status(&mut text, *code);
                text.append(diagnostics.as_str());
                text
            },
        }
    }
}

} // verus!
