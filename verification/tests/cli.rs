use lattice::cli::{exit_code, select_command, validate_stage_zero, CliCommand};
use lattice::stage_zero::{StageZeroError, StageZeroSummary};

#[test]
fn selects_commands() {
    assert_eq!(select_command(None), CliCommand::Help);
    assert_eq!(select_command(Some("help")), CliCommand::Help);
    assert_eq!(select_command(Some("--help")), CliCommand::Help);
    assert_eq!(select_command(Some("validate-stage-0")), CliCommand::ValidateStageZero);
    assert_eq!(select_command(Some("unknown")), CliCommand::Unknown);
    assert_eq!(select_command(Some("")), CliCommand::Unknown);
}

#[test]
fn exit_codes() {
    assert_eq!(exit_code(CliCommand::Help, false), 0);
    assert_eq!(exit_code(CliCommand::ValidateStageZero, true), 0);
    assert_eq!(exit_code(CliCommand::ValidateStageZero, false), 1);
    assert_eq!(exit_code(CliCommand::Unknown, true), 2);
}

#[test]
fn passes_the_document_summary_through() {
    let summary = StageZeroSummary {
        spec_version: "0.1".to_owned(),
        fault_cases: 16,
        transition_rules: 5,
        spec_hash: "0123456789abcdef".to_owned(),
    };
    assert_eq!(validate_stage_zero(Ok(summary.clone())), Ok(summary));
}

#[test]
fn reports_document_errors_as_text() {
    let result = validate_stage_zero(Err(StageZeroError::Validation("bad field".to_owned())));
    assert_eq!(result, Err("stage 0 validation error: bad field".to_owned()));
}
