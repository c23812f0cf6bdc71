use lattice::documents::{FAULT_MATRIX_DOCUMENT, FROZEN_SPEC_DOCUMENT};
use lattice::frozen_sections::{
    validate_filesystem, validate_frame_layout, validate_identifiers, validate_sequences,
    Filesystem, FrameLayout, Identifiers, Sequences,
};
use lattice::stage_zero::{
    require, stable_hash, validate_durability, validate_fault_case, validate_frame_types,
    validate_matrix, validate_parsed_documents, validate_required_values, validate_spec,
    validate_transitions, validate_unique_values, Durability, FaultCase, FaultMatrix,
    FrameTypes, FrozenSpec, StageZeroError, StageZeroSummary, TransitionRule,
};

const REQUIRED_ERROR_CODES: [&str; 9] = [
    "E_FORMAT_VERSION",
    "E_FRAME_TYPE",
    "E_FRAME_LENGTH",
    "E_CHECKSUM",
    "E_TRUNCATED_TAIL",
    "E_DISK_FULL",
    "E_SEQUENCE_GAP",
    "E_DUPLICATE_OPERATION",
    "E_QUARANTINED_EVENT",
];
const REQUIRED_OUTCOMES: [&str; 5] = [
    "accepted",
    "duplicate",
    "pending_gap",
    "rejected",
    "quarantined",
];

// Reading the TOML documents into the library's types, field by field.

fn field<'a>(table: &'a toml::Table, key: &str) -> Result<&'a toml::Value, String> {
    table.get(key).ok_or_else(|| format!("missing field `{key}`"))
}

fn text(table: &toml::Table, key: &str) -> Result<String, String> {
    field(table, key)?
        .as_str()
        .map(str::to_owned)
        .ok_or_else(|| format!("`{key}` is not a string"))
}

fn number<T: TryFrom<i64>>(table: &toml::Table, key: &str) -> Result<T, String> {
    let value = field(table, key)?
        .as_integer()
        .ok_or_else(|| format!("`{key}` is not an integer"))?;
    T::try_from(value).map_err(|_| format!("`{key}` is out of range"))
}

fn texts(table: &toml::Table, key: &str) -> Result<Vec<String>, String> {
    field(table, key)?
        .as_array()
        .ok_or_else(|| format!("`{key}` is not an array"))?
        .iter()
        .map(|v| v.as_str().map(str::to_owned).ok_or_else(|| format!("`{key}` holds a non-string")))
        .collect()
}

fn table<'a>(table: &'a toml::Table, key: &str) -> Result<&'a toml::Table, String> {
    field(table, key)?
        .as_table()
        .ok_or_else(|| format!("`{key}` is not a table"))
}

fn tables<'a>(table: &'a toml::Table, key: &str) -> Result<Vec<&'a toml::Table>, String> {
    field(table, key)?
        .as_array()
        .ok_or_else(|| format!("`{key}` is not an array"))?
        .iter()
        .map(|v| v.as_table().ok_or_else(|| format!("`{key}` holds a non-table")))
        .collect()
}

fn flag(table: &toml::Table, key: &str) -> Result<bool, String> {
    field(table, key)?
        .as_bool()
        .ok_or_else(|| format!("`{key}` is not a boolean"))
}

fn read_identifiers(t: &toml::Table) -> Result<Identifiers, String> {
    Ok(Identifiers {
        node_encoding: text(t, "node_encoding")?,
        node_bytes: number(t, "node_bytes")?,
        node_generator: text(t, "node_generator")?,
        node_persistence: text(t, "node_persistence")?,
        node_immutable: flag(t, "node_immutable")?,
        transaction_encoding: text(t, "transaction_encoding")?,
        transaction_bytes: number(t, "transaction_bytes")?,
        transaction_generator: text(t, "transaction_generator")?,
        transaction_reuse: text(t, "transaction_reuse")?,
        operation_encoding: text(t, "operation_encoding")?,
        operation_bytes: number(t, "operation_bytes")?,
        operation_generator: text(t, "operation_generator")?,
        operation_reuse: text(t, "operation_reuse")?,
        operation_dedup_key: text(t, "operation_dedup_key")?,
        text_encoding: text(t, "text_encoding")?,
        text_min_bytes: number(t, "text_min_bytes")?,
        text_max_bytes: number(t, "text_max_bytes")?,
        text_length_prefix: text(t, "text_length_prefix")?,
        text_equality: text(t, "text_equality")?,
        text_normalization: text(t, "text_normalization")?,
        text_nul: text(t, "text_nul")?,
    })
}

fn read_sequences(t: &toml::Table) -> Result<Sequences, String> {
    Ok(Sequences {
        origin_scope: text(t, "origin_scope")?,
        origin_width_bits: number(t, "origin_width_bits")?,
        origin_initial: number(t, "origin_initial")?,
        origin_assignment: text(t, "origin_assignment")?,
        origin_persistence: text(t, "origin_persistence")?,
        origin_restart: text(t, "origin_restart")?,
        origin_overflow: text(t, "origin_overflow")?,
        partition_scope: text(t, "partition_scope")?,
        partition_width_bits: number(t, "partition_width_bits")?,
        partition_initial: number(t, "partition_initial")?,
        partition_assignment: text(t, "partition_assignment")?,
        partition_gaps: text(t, "partition_gaps")?,
        partition_overflow: text(t, "partition_overflow")?,
        cursor_key: text(t, "cursor_key")?,
        cursor_kinds: texts(t, "cursor_kinds")?,
        cursor_value: text(t, "cursor_value")?,
        cursor_initial: number(t, "cursor_initial")?,
        cursor_advance: text(t, "cursor_advance")?,
        duplicate_effect: text(t, "duplicate_effect")?,
        gap_effect: text(t, "gap_effect")?,
    })
}

fn read_filesystem(t: &toml::Table) -> Result<Filesystem, String> {
    Ok(Filesystem {
        data_root: text(t, "data_root")?,
        format_meta: text(t, "format_meta")?,
        lock_file: text(t, "lock_file")?,
        partition_directory: text(t, "partition_directory")?,
        segment_pattern: text(t, "segment_pattern")?,
        snapshot_pattern: text(t, "snapshot_pattern")?,
        cursor_pattern: text(t, "cursor_pattern")?,
        quarantine_pattern: text(t, "quarantine_pattern")?,
        temporary_directory: text(t, "temporary_directory")?,
        temporary_suffix: text(t, "temporary_suffix")?,
        path_input_rule: text(t, "path_input_rule")?,
        atomic_write_steps: texts(t, "atomic_write_steps")?,
    })
}

fn read_frame_layout(t: &toml::Table) -> Result<FrameLayout, String> {
    Ok(FrameLayout {
        magic_offset: number(t, "magic_offset")?,
        magic_width: number(t, "magic_width")?,
        version_offset: number(t, "version_offset")?,
        version_width: number(t, "version_width")?,
        type_offset: number(t, "type_offset")?,
        flags_offset: number(t, "flags_offset")?,
        payload_length_offset: number(t, "payload_length_offset")?,
        payload_length_width: number(t, "payload_length_width")?,
        sequence_offset: number(t, "sequence_offset")?,
        sequence_width: number(t, "sequence_width")?,
        checksum_offset: number(t, "checksum_offset")?,
        checksum_width: number(t, "checksum_width")?,
        reserved_offset: number(t, "reserved_offset")?,
        reserved_width: number(t, "reserved_width")?,
        reserved_value: number(t, "reserved_value")?,
        checksum_coverage: text(t, "checksum_coverage")?,
        unknown_type: text(t, "unknown_type")?,
        nonzero_flags: text(t, "nonzero_flags")?,
    })
}
fn read_spec(document: &str) -> Result<FrozenSpec, String> {
    let root: toml::Table = toml::from_str(document).map_err(|e| e.to_string())?;
    let frames = table(&root, "frame_types")?;
    let durability = table(&root, "durability")?;
    let mut transitions = Vec::new();
    for rule in tables(&root, "transitions")? {
        transitions.push(TransitionRule {
            from: text(rule, "from")?,
            to: text(rule, "to")?,
            trigger: text(rule, "trigger")?,
            persisted: text(rule, "persisted")?,
            cursor_effect: text(rule, "cursor_effect")?,
        });
    }
    Ok(FrozenSpec {
        spec_version: text(&root, "spec_version")?,
        protocol_version: number(&root, "protocol_version")?,
        file_format_version: number(&root, "file_format_version")?,
        encoding: text(&root, "encoding")?,
        text_encoding: text(&root, "text_encoding")?,
        checksum: text(&root, "checksum")?,
        max_record_bytes: number(&root, "max_record_bytes")?,
        max_batch_bytes: number(&root, "max_batch_bytes")?,
        max_transaction_operations: number(&root, "max_transaction_operations")?,
        log_segment_bytes: number(&root, "log_segment_bytes")?,
        snapshot_bytes: number(&root, "snapshot_bytes")?,
        pending_queue_bytes: number(&root, "pending_queue_bytes")?,
        node_id_bytes: number(&root, "node_id_bytes")?,
        dataset_id_max_bytes: number(&root, "dataset_id_max_bytes")?,
        partition_id_max_bytes: number(&root, "partition_id_max_bytes")?,
        record_id_max_bytes: number(&root, "record_id_max_bytes")?,
        sequence_bytes: number(&root, "sequence_bytes")?,
        frame_magic: text(&root, "frame_magic")?,
        frame_header_bytes: number(&root, "frame_header_bytes")?,
        identifiers: read_identifiers(table(&root, "identifiers")?)?,
        sequences: read_sequences(table(&root, "sequences")?)?,
        filesystem: read_filesystem(table(&root, "filesystem")?)?,
        frame_layout: read_frame_layout(table(&root, "frame_layout")?)?,
        frame_types: FrameTypes {
            begin: number(frames, "begin")?,
            operation: number(frames, "operation")?,
            commit: number(frames, "commit")?,
            change_event: number(frames, "change_event")?,
            cursor: number(frames, "cursor")?,
            snapshot_marker: number(frames, "snapshot_marker")?,
        },
        durability: Durability {
            local_committed: text(durability, "local_committed")?,
            hub_received: text(durability, "hub_received")?,
            hub_applied: text(durability, "hub_applied")?,
        },
        error_codes: texts(&root, "error_codes")?,
        event_outcomes: texts(&root, "event_outcomes")?,
        transitions,
    })
}

fn read_matrix(document: &str) -> Result<FaultMatrix, String> {
    let root: toml::Table = toml::from_str(document).map_err(|e| e.to_string())?;
    let mut cases = Vec::new();
    for case in tables(&root, "cases")? {
        cases.push(FaultCase {
            id: text(case, "id")?,
            category: text(case, "category")?,
            injection_point: text(case, "injection_point")?,
            precondition: text(case, "precondition")?,
            input: text(case, "input")?,
            expected_outcome: text(case, "expected_outcome")?,
            durable_artifacts: text(case, "durable_artifacts")?,
            error_code: text(case, "error_code")?,
            retry_action: text(case, "retry_action")?,
            cursor_effect: text(case, "cursor_effect")?,
            isolation_scope: text(case, "isolation_scope")?,
        });
    }
    Ok(FaultMatrix { schema_version: text(&root, "schema_version")?, cases })
}

fn documents_from(
    spec_document: &str,
    matrix_document: &str,
) -> Result<StageZeroSummary, StageZeroError> {
    let spec = read_spec(spec_document)
        .map_err(|e| StageZeroError::Parse(format!("frozen specification: {e}")))?;
    let matrix = read_matrix(matrix_document)
        .map_err(|e| StageZeroError::Parse(format!("fault matrix: {e}")))?;
    validate_parsed_documents(&spec, &matrix, spec_document, matrix_document)
}

fn valid_spec() -> FrozenSpec {
    read_spec(FROZEN_SPEC_DOCUMENT).expect("test specification is valid")
}

fn valid_matrix() -> FaultMatrix {
    read_matrix(FAULT_MATRIX_DOCUMENT).expect("test matrix is valid")
}

#[test]
fn validates_embedded_documents_and_hashes_them() {
    let summary =
        documents_from(FROZEN_SPEC_DOCUMENT, FAULT_MATRIX_DOCUMENT).expect("embedded documents are valid");
    assert_eq!(summary.spec_version, "0.1");
    assert_eq!(summary.fault_cases, 16);
    assert_eq!(summary.transition_rules, 5);
    assert_eq!(summary.spec_hash.len(), 16);
}

#[test]
fn formats_parse_and_validation_errors() {
    let parse = StageZeroError::Parse("bad toml".to_owned());
    let validation = StageZeroError::Validation("bad field".to_owned());
    assert!(parse.message().contains("parse"));
    assert!(validation.message().contains("validation"));
    assert!(read_spec("spec_version = [").is_err());
    assert!(read_matrix("cases = [").is_err());
    assert!(documents_from("spec_version = [", FAULT_MATRIX_DOCUMENT).is_err());
    assert!(documents_from(FROZEN_SPEC_DOCUMENT, "cases = [").is_err());
    let invalid_spec =
        FROZEN_SPEC_DOCUMENT.replacen("spec_version = \"0.1\"", "spec_version = \"0.2\"", 1);
    assert!(documents_from(&invalid_spec, FAULT_MATRIX_DOCUMENT).is_err());
    let invalid_matrix =
        FAULT_MATRIX_DOCUMENT.replacen("schema_version = \"0.1\"", "schema_version = \"0.2\"", 1);
    assert!(documents_from(FROZEN_SPEC_DOCUMENT, &invalid_matrix).is_err());
}

#[test]
fn stable_hash_changes_when_documents_change() {
    assert_ne!(stable_hash("a", "b"), stable_hash("a", "c"));
    assert_eq!(stable_hash("", ""), "af63bd4c8601b7df");
}

#[test]
fn require_and_value_lists_cover_success_and_failure() {
    assert!(require(true, "unused").is_ok());
    assert!(require(false, "missing").is_err());
    let values = vec!["one".to_owned(), "one".to_owned()];
    assert!(validate_unique_values("values", &values).is_err());
    assert!(validate_required_values("values", &values, &["missing"]).is_err());
    assert!(validate_required_values("values", &values, &["one"]).is_ok());
}

#[test]
fn rejects_each_scalar_spec_rule() {
    fn rejected(change: impl FnOnce(&mut FrozenSpec), name: &str) {
        let mut spec = valid_spec();
        change(&mut spec);
        assert!(validate_spec(&spec).is_err(), "{name}");
    }
    rejected(|s| s.spec_version = "0.2".to_owned(), "spec_version");
    rejected(|s| s.protocol_version = 2, "protocol_version");
    rejected(|s| s.file_format_version = 2, "file_format_version");
    rejected(|s| s.encoding = "big-endian".to_owned(), "encoding");
    rejected(|s| s.text_encoding = "ascii".to_owned(), "text_encoding");
    rejected(|s| s.checksum = "sha256".to_owned(), "checksum");
    rejected(|s| s.max_record_bytes = 0, "max_record_bytes");
    rejected(|s| s.max_batch_bytes = 0, "max_batch_bytes");
    rejected(|s| s.max_transaction_operations = 0, "max_transaction_operations");
    rejected(|s| s.log_segment_bytes = 0, "log_segment_bytes");
    rejected(|s| s.snapshot_bytes = 0, "snapshot_bytes");
    rejected(|s| s.pending_queue_bytes = 0, "pending_queue_bytes");
    rejected(|s| s.node_id_bytes = 0, "node_id_bytes");
    rejected(|s| s.dataset_id_max_bytes = 0, "dataset_id_max_bytes");
    rejected(|s| s.partition_id_max_bytes = 0, "partition_id_max_bytes");
    rejected(|s| s.record_id_max_bytes = 0, "record_id_max_bytes");
    rejected(|s| s.sequence_bytes = 0, "sequence_bytes");
    rejected(|s| s.frame_magic = "BAD!".to_owned(), "frame_magic");
    rejected(|s| s.frame_header_bytes = 0, "frame_header_bytes");

    let mut spec = valid_spec();
    spec.max_batch_bytes = spec.max_record_bytes - 1;
    assert!(validate_spec(&spec).is_err());
    let mut spec = valid_spec();
    spec.log_segment_bytes = spec.max_batch_bytes - 1;
    assert!(validate_spec(&spec).is_err());
    let mut spec = valid_spec();
    spec.snapshot_bytes = spec.max_record_bytes - 1;
    assert!(validate_spec(&spec).is_err());
    let mut spec = valid_spec();
    spec.pending_queue_bytes = spec.max_batch_bytes - 1;
    assert!(validate_spec(&spec).is_err());
}

#[test]
fn propagates_nested_spec_and_matrix_errors() {
    let mut spec = valid_spec();
    spec.frame_types.begin = 2;
    assert!(validate_spec(&spec).is_err());

    let mut spec = valid_spec();
    spec.durability.local_committed.clear();
    assert!(validate_spec(&spec).is_err());

    let mut spec = valid_spec();
    spec.error_codes[0] = spec.error_codes[1].clone();
    assert!(validate_spec(&spec).is_err());

    let mut spec = valid_spec();
    spec.error_codes.retain(|code| code != REQUIRED_ERROR_CODES[0]);
    assert!(validate_spec(&spec).is_err());

    let mut spec = valid_spec();
    spec.event_outcomes[0] = spec.event_outcomes[1].clone();
    assert!(validate_spec(&spec).is_err());

    let mut spec = valid_spec();
    spec.event_outcomes.retain(|outcome| outcome != REQUIRED_OUTCOMES[0]);
    assert!(validate_spec(&spec).is_err());

    let mut spec = valid_spec();
    spec.transitions.pop();
    assert!(validate_spec(&spec).is_err());

    let spec = valid_spec();
    let mut matrix = valid_matrix();
    matrix.cases[0].expected_outcome = "unknown".to_owned();
    assert!(validate_matrix(&spec, &matrix).is_err());
}

#[test]
fn validates_frame_types_and_durability_rules() {
    let valid = FrameTypes {
        begin: 1,
        operation: 2,
        commit: 3,
        change_event: 4,
        cursor: 5,
        snapshot_marker: 6,
    };
    assert!(validate_frame_types(&valid).is_ok());
    let invalid_frames = [
        FrameTypes { begin: 2, ..valid },
        FrameTypes { operation: 7, ..valid },
        FrameTypes { commit: 7, ..valid },
        FrameTypes { change_event: 7, ..valid },
        FrameTypes { cursor: 7, ..valid },
        FrameTypes { snapshot_marker: 7, ..valid },
        FrameTypes { operation: 1, ..valid },
    ];
    for frame_types in invalid_frames {
        assert!(validate_frame_types(&frame_types).is_err());
    }

    let valid = Durability {
        local_committed: "local".to_owned(),
        hub_received: "received".to_owned(),
        hub_applied: "applied".to_owned(),
    };
    assert!(validate_durability(&valid).is_ok());
    assert!(validate_durability(&Durability {
        local_committed: String::new(),
        ..valid.clone()
    })
    .is_err());
    assert!(validate_durability(&Durability {
        hub_received: String::new(),
        ..valid.clone()
    })
    .is_err());
    assert!(validate_durability(&Durability {
        hub_applied: String::new(),
        ..valid
    })
    .is_err());
}

#[test]
fn rejects_invalid_transition_rules() {
    let mut spec = valid_spec();
    spec.transitions.pop();
    assert!(validate_transitions(&spec.transitions).is_err());

    let mut spec = valid_spec();
    spec.transitions[0].trigger.clear();
    assert!(validate_transitions(&spec.transitions).is_err());
    let mut spec = valid_spec();
    spec.transitions[0].persisted.clear();
    assert!(validate_transitions(&spec.transitions).is_err());
    let mut spec = valid_spec();
    spec.transitions[0].cursor_effect.clear();
    assert!(validate_transitions(&spec.transitions).is_err());

    let mut spec = valid_spec();
    spec.transitions[1].from = spec.transitions[0].from.clone();
    spec.transitions[1].to = spec.transitions[0].to.clone();
    assert!(validate_transitions(&spec.transitions).is_err());
    let mut spec = valid_spec();
    spec.transitions[0].from = "unknown".to_owned();
    assert!(validate_transitions(&spec.transitions).is_err());
}

#[test]
fn rejects_invalid_fault_matrix_structure() {
    let spec = valid_spec();
    let mut matrix = valid_matrix();
    matrix.schema_version = "0.2".to_owned();
    assert!(validate_matrix(&spec, &matrix).is_err());
    let mut matrix = valid_matrix();
    matrix.cases.pop();
    assert!(validate_matrix(&spec, &matrix).is_err());
    let mut matrix = valid_matrix();
    matrix.cases[1].id = matrix.cases[0].id.clone();
    assert!(validate_matrix(&spec, &matrix).is_err());
    let mut matrix = valid_matrix();
    matrix.cases[0].id = "F-999".to_owned();
    assert!(validate_matrix(&spec, &matrix).is_err());
    let mut matrix = valid_matrix();
    for case in &mut matrix.cases {
        if case.category == "network" {
            case.category = "capacity".to_owned();
        }
    }
    assert!(validate_matrix(&spec, &matrix).is_err());
}

#[test]
fn rejects_invalid_fault_case_fields_and_references() {
    let spec = valid_spec();
    let mut base = valid_matrix().cases[0].clone();
    let errors = &spec.error_codes;
    let outcomes = &spec.event_outcomes;
    let fields: [fn(&mut FaultCase); 9] = [
        |c| c.category.clear(),
        |c| c.injection_point.clear(),
        |c| c.precondition.clear(),
        |c| c.input.clear(),
        |c| c.expected_outcome.clear(),
        |c| c.durable_artifacts.clear(),
        |c| c.retry_action.clear(),
        |c| c.cursor_effect.clear(),
        |c| c.isolation_scope.clear(),
    ];
    for clear in fields {
        let mut case = base.clone();
        clear(&mut case);
        assert!(validate_fault_case(&case, errors, outcomes).is_err());
    }

    base.expected_outcome = "accepted".to_owned();
    base.cursor_effect = "unchanged or advances".to_owned();
    assert!(validate_fault_case(&base, errors, outcomes).is_err());
    base.cursor_effect = "unchanged".to_owned();
    base.expected_outcome = "unknown".to_owned();
    assert!(validate_fault_case(&base, errors, outcomes).is_err());
    base.expected_outcome = "accepted".to_owned();
    base.error_code = "E_UNKNOWN".to_owned();
    assert!(validate_fault_case(&base, errors, outcomes).is_err());
}

// Further cases: exact detail texts and the rules' order.

fn detail(result: Result<(), StageZeroError>) -> String {
    match result {
        Err(StageZeroError::Validation(text)) => text,
        other => panic!("expected a validation error, got {other:?}"),
    }
}

#[test]
fn embedded_documents_pass_each_validator() {
    let spec = valid_spec();
    let matrix = valid_matrix();
    assert!(validate_spec(&spec).is_ok());
    assert!(validate_matrix(&spec, &matrix).is_ok());
    let summary = validate_parsed_documents(&spec, &matrix, "x", "y").unwrap();
    assert_eq!(summary.spec_hash, stable_hash("x", "y"));
}

#[test]
fn reports_the_first_failing_scalar_rule() {
    let mut spec = valid_spec();
    spec.node_id_bytes = 0;
    spec.frame_magic = "BAD!".to_owned();
    assert_eq!(detail(validate_spec(&spec)), "node_id_bytes must be 16");
    let mut spec = valid_spec();
    spec.frame_header_bytes = 26;
    assert_eq!(detail(validate_spec(&spec)), "frame_header_bytes must be 32");
}

#[test]
fn reports_frame_type_details() {
    let valid = FrameTypes {
        begin: 1,
        operation: 2,
        commit: 3,
        change_event: 4,
        cursor: 5,
        snapshot_marker: 6,
    };
    assert_eq!(
        detail(validate_frame_types(&FrameTypes { operation: 1, ..valid })),
        "frame type values duplicate"
    );
    assert_eq!(
        detail(validate_frame_types(&FrameTypes { cursor: 9, ..valid })),
        "frame type cursor must be 5"
    );
}

#[test]
fn whitespace_only_texts_count_as_empty() {
    let valid = Durability {
        local_committed: "local".to_owned(),
        hub_received: " \t\u{3000}\n".to_owned(),
        hub_applied: "applied".to_owned(),
    };
    assert_eq!(
        detail(validate_durability(&valid)),
        "durability rule hub_received is empty"
    );
}

#[test]
fn reports_list_details() {
    let values = vec!["one".to_owned(), "one".to_owned()];
    assert_eq!(
        detail(validate_unique_values("values", &values)),
        "values contain duplicate values"
    );
    assert_eq!(
        detail(validate_required_values("values", &values, &["one", "two", "three"])),
        "values missing two"
    );
    assert_eq!(
        detail(require(false, "missing")),
        "missing"
    );
}

#[test]
fn reports_transition_details() {
    let mut spec = valid_spec();
    spec.transitions[4].from = "local_committed".to_owned();
    spec.transitions[4].to = "hub_applied".to_owned();
    assert_eq!(
        detail(validate_transitions(&spec.transitions)),
        "missing transition hub_applied -> hub_applied"
    );
    let mut spec = valid_spec();
    spec.transitions[3] = spec.transitions[1].clone();
    assert_eq!(
        detail(validate_transitions(&spec.transitions)),
        "transition pair is duplicated"
    );
    let mut spec = valid_spec();
    spec.transitions.push(spec.transitions[0].clone());
    assert_eq!(
        detail(validate_transitions(&spec.transitions)),
        "transition rule count mismatch"
    );
}

#[test]
fn reports_matrix_details() {
    let spec = valid_spec();
    let mut matrix = valid_matrix();
    matrix.cases[3].id = "F-001".to_owned();
    assert_eq!(detail(validate_matrix(&spec, &matrix)), "fault case IDs duplicate");
    let mut matrix = valid_matrix();
    matrix.cases[6].id = "F-999".to_owned();
    assert_eq!(detail(validate_matrix(&spec, &matrix)), "missing fault case F-007");
    let mut matrix = valid_matrix();
    for case in &mut matrix.cases {
        if case.category == "restart" {
            case.category = "network".to_owned();
        }
    }
    assert_eq!(
        detail(validate_matrix(&spec, &matrix)),
        "missing fault category restart"
    );
    let mut matrix = valid_matrix();
    matrix.cases[2].error_code = "E_UNKNOWN".to_owned();
    assert_eq!(
        detail(validate_matrix(&spec, &matrix)),
        "F-003 references unknown error code"
    );
    let mut case = valid_matrix().cases[4].clone();
    case.retry_action = "  ".to_owned();
    assert_eq!(
        detail(validate_fault_case(&case, &spec.error_codes, &spec.event_outcomes)),
        "F-005 has empty retry_action"
    );
}

#[test]
fn formats_stage_zero_errors() {
    assert_eq!(
        StageZeroError::Parse("x".to_owned()).message(),
        "stage 0 parse error: x"
    );
    assert_eq!(
        StageZeroError::Validation("y".to_owned()).message(),
        "stage 0 validation error: y"
    );
}

#[test]
fn stable_hash_matches_fnv1a_with_a_separator() {
    let mut hash = 0xcbf29ce484222325_u64;
    for byte in "spec".bytes().chain([0_u8]).chain("matrix".bytes()) {
        hash ^= u64::from(byte);
        hash = hash.wrapping_mul(0x100000001b3);
    }
    assert_eq!(stable_hash("spec", "matrix"), format!("{hash:016x}"));
    assert_ne!(stable_hash("ab", ""), stable_hash("a", "b"));
}

#[test]
fn rejects_each_structured_freeze_rule() {
    fn identifier(change: impl FnOnce(&mut Identifiers), name: &str) {
        let mut value = valid_spec().identifiers;
        change(&mut value);
        assert!(validate_identifiers(&value).is_err(), "{name}");
    }
    identifier(|v| v.node_encoding = "other".to_owned(), "node_encoding");
    identifier(|v| v.node_bytes = 0, "node_bytes");
    identifier(|v| v.node_generator = "other".to_owned(), "node_generator");
    identifier(|v| v.node_persistence = "other".to_owned(), "node_persistence");
    identifier(|v| v.node_immutable = false, "node_immutable");
    identifier(|v| v.transaction_encoding = "other".to_owned(), "transaction_encoding");
    identifier(|v| v.transaction_bytes = 0, "transaction_bytes");
    identifier(|v| v.transaction_generator = "other".to_owned(), "transaction_generator");
    identifier(|v| v.transaction_reuse = "other".to_owned(), "transaction_reuse");
    identifier(|v| v.operation_encoding = "other".to_owned(), "operation_encoding");
    identifier(|v| v.operation_bytes = 0, "operation_bytes");
    identifier(|v| v.operation_generator = "other".to_owned(), "operation_generator");
    identifier(|v| v.operation_reuse = "other".to_owned(), "operation_reuse");
    identifier(|v| v.operation_dedup_key = "other".to_owned(), "operation_dedup_key");
    identifier(|v| v.text_encoding = "other".to_owned(), "text_encoding");
    identifier(|v| v.text_min_bytes = 0, "text_min_bytes");
    identifier(|v| v.text_max_bytes = 0, "text_max_bytes");
    identifier(|v| v.text_length_prefix = "other".to_owned(), "text_length_prefix");
    identifier(|v| v.text_equality = "other".to_owned(), "text_equality");
    identifier(|v| v.text_normalization = "other".to_owned(), "text_normalization");
    identifier(|v| v.text_nul = "allowed".to_owned(), "text_nul");

    fn sequence(change: impl FnOnce(&mut Sequences), name: &str) {
        let mut value = valid_spec().sequences;
        change(&mut value);
        assert!(validate_sequences(&value).is_err(), "{name}");
    }
    sequence(|v| v.origin_scope = "other".to_owned(), "origin_scope");
    sequence(|v| v.origin_width_bits = 0, "origin_width_bits");
    sequence(|v| v.origin_initial = 0, "origin_initial");
    sequence(|v| v.origin_assignment = "other".to_owned(), "origin_assignment");
    sequence(|v| v.origin_persistence = "other".to_owned(), "origin_persistence");
    sequence(|v| v.origin_restart = "other".to_owned(), "origin_restart");
    sequence(|v| v.origin_overflow = "other".to_owned(), "origin_overflow");
    sequence(|v| v.partition_scope = "other".to_owned(), "partition_scope");
    sequence(|v| v.partition_width_bits = 0, "partition_width_bits");
    sequence(|v| v.partition_initial = 0, "partition_initial");
    sequence(|v| v.partition_assignment = "other".to_owned(), "partition_assignment");
    sequence(|v| v.partition_gaps = "other".to_owned(), "partition_gaps");
    sequence(|v| v.partition_overflow = "other".to_owned(), "partition_overflow");
    sequence(|v| v.cursor_key = "other".to_owned(), "cursor_key");
    sequence(|v| v.cursor_kinds = vec!["other".to_owned()], "cursor_kinds");
    sequence(|v| v.cursor_value = "other".to_owned(), "cursor_value");
    sequence(|v| v.cursor_initial = 1, "cursor_initial");
    sequence(|v| v.cursor_advance = "other".to_owned(), "cursor_advance");
    sequence(|v| v.duplicate_effect = "other".to_owned(), "duplicate_effect");
    sequence(|v| v.gap_effect = "other".to_owned(), "gap_effect");

    fn filesystem(change: impl FnOnce(&mut Filesystem), name: &str) {
        let mut value = valid_spec().filesystem;
        change(&mut value);
        assert!(validate_filesystem(&value).is_err(), "{name}");
    }
    filesystem(|v| v.data_root = "other".to_owned(), "data_root");
    filesystem(|v| v.format_meta = "other".to_owned(), "format_meta");
    filesystem(|v| v.lock_file = "other".to_owned(), "lock_file");
    filesystem(|v| v.partition_directory = "other".to_owned(), "partition_directory");
    filesystem(|v| v.segment_pattern = "other".to_owned(), "segment_pattern");
    filesystem(|v| v.snapshot_pattern = "other".to_owned(), "snapshot_pattern");
    filesystem(|v| v.cursor_pattern = "other".to_owned(), "cursor_pattern");
    filesystem(|v| v.quarantine_pattern = "other".to_owned(), "quarantine_pattern");
    filesystem(|v| v.temporary_directory = "other".to_owned(), "temporary_directory");
    filesystem(|v| v.temporary_suffix = "other".to_owned(), "temporary_suffix");
    filesystem(|v| v.path_input_rule = "other".to_owned(), "path_input_rule");
    filesystem(|v| v.atomic_write_steps = vec!["other".to_owned()], "atomic_write_steps");

    fn layout(change: impl FnOnce(&mut FrameLayout), name: &str) {
        let mut value = valid_spec().frame_layout;
        change(&mut value);
        assert!(validate_frame_layout(&value).is_err(), "{name}");
    }
    layout(|v| v.magic_offset = 1, "magic_offset");
    layout(|v| v.magic_width = 0, "magic_width");
    layout(|v| v.version_offset = 0, "version_offset");
    layout(|v| v.version_width = 0, "version_width");
    layout(|v| v.type_offset = 0, "type_offset");
    layout(|v| v.flags_offset = 0, "flags_offset");
    layout(|v| v.payload_length_offset = 0, "payload_length_offset");
    layout(|v| v.payload_length_width = 0, "payload_length_width");
    layout(|v| v.sequence_offset = 0, "sequence_offset");
    layout(|v| v.sequence_width = 0, "sequence_width");
    layout(|v| v.checksum_offset = 0, "checksum_offset");
    layout(|v| v.checksum_width = 0, "checksum_width");
    layout(|v| v.reserved_offset = 0, "reserved_offset");
    layout(|v| v.reserved_width = 0, "reserved_width");
    layout(|v| v.reserved_value = 1, "reserved_value");
    layout(|v| v.checksum_coverage = "other".to_owned(), "checksum_coverage");
    layout(|v| v.unknown_type = "other".to_owned(), "unknown_type");
    layout(|v| v.nonzero_flags = "other".to_owned(), "nonzero_flags");

    let mut spec = valid_spec();
    spec.identifiers.node_bytes = 0;
    assert!(validate_spec(&spec).is_err());
    let mut spec = valid_spec();
    spec.sequences.origin_width_bits = 0;
    assert!(validate_spec(&spec).is_err());
    let mut spec = valid_spec();
    spec.filesystem.data_root = "other".to_owned();
    assert!(validate_spec(&spec).is_err());
    let mut spec = valid_spec();
    spec.frame_layout.magic_offset = 1;
    assert!(validate_spec(&spec).is_err());
}

#[test]
fn reports_structured_section_details() {
    let mut spec = valid_spec();
    spec.sequences.cursor_initial = 3;
    spec.frame_layout.reserved_value = 1;
    assert_eq!(detail(validate_spec(&spec)), "sequences.cursor_initial must be 0");
    let mut spec = valid_spec();
    spec.filesystem.atomic_write_steps.swap(0, 1);
    assert_eq!(
        detail(validate_spec(&spec)),
        "filesystem.atomic_write_steps must be write_temporary, fsync_temporary, rename, fsync_parent"
    );
    let layout = valid_spec().frame_layout;
    assert_eq!(layout.reserved_offset + layout.reserved_width, 32);
}

#[test]
fn rejects_a_case_outside_the_required_categories() {
    let spec = valid_spec();
    let mut matrix = valid_matrix();
    matrix.cases.push(matrix.cases[0].clone());
    matrix.cases.remove(0);
    assert!(validate_matrix(&spec, &matrix).is_ok());
    let mut case = matrix.cases[3].clone();
    case.category = "cosmic_rays".to_owned();
    assert_eq!(
        detail(validate_fault_case(&case, &spec.error_codes, &spec.event_outcomes)),
        "F-005 has unknown category"
    );
    let mut matrix = valid_matrix();
    matrix.cases[0].category = "cosmic_rays".to_owned();
    assert_eq!(detail(validate_matrix(&spec, &matrix)), "F-001 has unknown category");
}
