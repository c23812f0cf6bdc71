use lattice::baseline::{
    stage_zero_baseline, FormatError, ProtocolBaseline, CURRENT_FILE_FORMAT_VERSION,
    CURRENT_PROTOCOL_VERSION,
};

#[test]
fn validates_default_baseline() {
    assert!(stage_zero_baseline().validate().is_ok());
}

#[test]
fn rejects_each_invalid_baseline_value() {
    let mut baseline = stage_zero_baseline();
    baseline.protocol_version = 2;
    assert_eq!(
        baseline.validate(),
        Err(FormatError::UnsupportedProtocolVersion(2))
    );

    let mut baseline = stage_zero_baseline();
    baseline.file_format_version = 2;
    assert_eq!(
        baseline.validate(),
        Err(FormatError::UnsupportedFileFormatVersion(2))
    );

    let mut baseline = stage_zero_baseline();
    baseline.max_record_bytes = 0;
    assert_eq!(baseline.validate(), Err(FormatError::ZeroRecordCapacity));

    let mut baseline = stage_zero_baseline();
    baseline.max_batch_bytes = baseline.max_record_bytes - 1;
    assert_eq!(
        baseline.validate(),
        Err(FormatError::BatchSmallerThanRecord)
    );
}

#[test]
fn formats_each_baseline_error() {
    assert!(FormatError::UnsupportedProtocolVersion(2)
        .message()
        .contains("protocol"));
    assert!(FormatError::UnsupportedFileFormatVersion(2)
        .message()
        .contains("file format"));
    assert!(FormatError::ZeroRecordCapacity.message().contains("record"));
    assert!(FormatError::BatchSmallerThanRecord.message().contains("batch"));
}

#[test]
fn stage_zero_baseline_values() {
    assert_eq!(
        stage_zero_baseline(),
        ProtocolBaseline {
            protocol_version: CURRENT_PROTOCOL_VERSION,
            file_format_version: CURRENT_FILE_FORMAT_VERSION,
            max_record_bytes: 1024 * 1024,
            max_batch_bytes: 4 * 1024 * 1024,
        }
    );
}

#[test]
fn reports_the_first_violated_rule() {
    let baseline = ProtocolBaseline {
        protocol_version: 7,
        file_format_version: 9,
        max_record_bytes: 0,
        max_batch_bytes: 0,
    };
    assert_eq!(
        baseline.validate(),
        Err(FormatError::UnsupportedProtocolVersion(7))
    );
    let baseline = ProtocolBaseline {
        protocol_version: 1,
        file_format_version: 1,
        max_record_bytes: 5,
        max_batch_bytes: 5,
    };
    assert!(baseline.validate().is_ok());
}

#[test]
fn formats_baseline_errors_exactly() {
    assert_eq!(
        FormatError::UnsupportedProtocolVersion(65535).message(),
        "unsupported protocol version: 65535"
    );
    assert_eq!(
        FormatError::UnsupportedFileFormatVersion(0).message(),
        "unsupported file format version: 0"
    );
    assert_eq!(
        FormatError::UnsupportedFileFormatVersion(40).message(),
        "unsupported file format version: 40"
    );
    assert_eq!(
        FormatError::ZeroRecordCapacity.message(),
        "record capacity must be non-zero"
    );
    assert_eq!(
        FormatError::BatchSmallerThanRecord.message(),
        "batch capacity must be at least record capacity"
    );
}
