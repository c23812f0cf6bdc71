//! Command-line decisions for stage validation: which command an argument
//! selects, the process exit code, and the combined stage 0 verdict.
use vstd::prelude::*;

use crate::stage_zero::{stage_zero_error_text, StageZeroError, StageZeroSummary};
use crate::text::str_is;

verus! {

/// What the first command-line argument asks for.
#[derive(Debug, Clone, Copy, PartialEq, Eq, Structural)]
pub enum CliCommand {
    /// No argument, `help` or `--help`: print usage.
    Help,
    /// `validate-stage-0`: run every stage 0 boundary check.
    ValidateStageZero,
    /// Anything else.
    Unknown,
}

/// The command selected by the first argument.
pub open spec fn command_for(first: Option<Seq<char>>) -> CliCommand {
    match first {
        None => CliCommand::Help,
        Some(a) => if a == "help"@ || a == "--help"@ {
            CliCommand::Help
        } else if a == "validate-stage-0"@ {
            CliCommand::ValidateStageZero
        } else {
            CliCommand::Unknown
        },
    }
}

/// Selects the command named by the first argument, if any.
pub fn select_command(first: Option<&str>) -> (command: CliCommand)
    ensures
        command == command_for(
            match first {
                Some(a) => Some(a@),
                None => None,
            },
        ),
{
    match first {
        None => CliCommand::Help,
        Some(argument) => {
            if str_is(argument, "help") || str_is(argument, "--help") {
                CliCommand::Help
            } else if str_is(argument, "validate-stage-0") {
                CliCommand::ValidateStageZero
            } else {
                CliCommand::Unknown
            }
        },
    }
}

/// The process exit code: 0 for usage, 0 or 1 for a passing or failing
/// validation, 2 for an unknown command.
pub fn exit_code(command: CliCommand, validation_passed: bool) -> (code: i32)
    ensures
        code == match command {
            CliCommand::Help => 0i32,
            CliCommand::ValidateStageZero => if validation_passed {
                0i32
            } else {
                1i32
            },
            CliCommand::Unknown => 2i32,
        },
{
    match command {
        CliCommand::Help => 0,
        CliCommand::ValidateStageZero => if validation_passed {
            0
        } else {
            1
        },
        CliCommand::Unknown => 2,
    }
}

/// Runs all stage 0 boundary checks, given the outcome of validating the
/// stage 0 documents: the storage, synchronization and transport boundaries
/// always pass, so the verdict is the documents' summary or their error text.
pub fn validate_stage_zero(documents: Result<StageZeroSummary, StageZeroError>) -> (result:
    Result<StageZeroSummary, String>)
    ensures
        match documents {
            Ok(summary) => result == Ok::<StageZeroSummary, String>(summary),
            Err(e) => result matches Err(text) && text@ == stage_zero_error_text(e),
        },
{
    let summary = match documents {
        Ok(summary) => summary,
        Err(e) => return Err(e.message()),
    };
    match crate::storage::validate_stage_zero() {
        Ok(()) => {},
        Err(e) => return Err(e.message()),
    }
    match crate::sync::validate_stage_zero() {
        Ok(()) => {},
        Err(e) => {
            let mut text = String::from_str("sync validation failed: ");
            let detail = e.debug_text();
            text.append(detail.as_str());
            return Err(text);
        },
    }
    match crate::transport::validate_stage_zero() {
        Ok(()) => {},
        Err(e) => {
            let mut text = String::from_str("transport validation failed: ");
            let detail = e.debug_text();
            text.append(detail.as_str());
            return Err(text);
        },
    }
    Ok(summary)
}

/// `validate-stage-0` is the only argument that runs the stage 0 checks; no
/// argument, `help` and `--help` print usage; every other argument is an
/// unknown command, answered with exit code 2.
pub proof fn lemma_only_the_exact_command_validates(first: Option<Seq<char>>)
    ensures
        command_for(first) == CliCommand::ValidateStageZero <==> first == Some(
            "validate-stage-0"@,
        ),
        command_for(first) == CliCommand::Help <==> (first is None || first == Some("help"@)
            || first == Some("--help"@)),
        command_for(first) == CliCommand::Unknown <==> (first is Some && first != Some(
            "help"@,
        ) && first != Some("--help"@) && first != Some("validate-stage-0"@)),
{
    reveal_strlit("help");
    reveal_strlit("--help");
    reveal_strlit("validate-stage-0");
    assert("help"@ != "validate-stage-0"@) by {
        assert("help"@.len() != "validate-stage-0"@.len());
    }
    assert("--help"@ != "validate-stage-0"@) by {
        assert("--help"@.len() != "validate-stage-0"@.len());
    }
}

} // verus!
