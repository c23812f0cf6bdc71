//! Versioned protocol and file-format baseline: the version numbers this
//! implementation accepts and the capacity relationships that must hold.
use vstd::prelude::*;

use crate::text::{decimal_digits, decimal_text};

verus! {

/// On-disk frame and segment revision accepted by this implementation.
pub const CURRENT_FILE_FORMAT_VERSION: u16 = 1;

/// Wire protocol revision accepted by this implementation.
pub const CURRENT_PROTOCOL_VERSION: u16 = 1;

/// Version numbers and capacity limits that storage code relies on.
#[derive(Debug, Clone, PartialEq, Eq, Structural)]
pub struct ProtocolBaseline {
    pub protocol_version: u16,
    pub file_format_version: u16,
    pub max_record_bytes: u64,
    pub max_batch_bytes: u64,
}

/// Reasons a baseline is rejected.
#[derive(Debug, Clone, Copy, PartialEq, Eq, Structural)]
pub enum FormatError {
    UnsupportedProtocolVersion(u16),
    UnsupportedFileFormatVersion(u16),
    ZeroRecordCapacity,
    BatchSmallerThanRecord,
}

/// The verdict on a baseline: the first violated rule, checked in the order
/// protocol version, file-format version, record capacity, batch capacity.
pub open spec fn baseline_verdict(b: ProtocolBaseline) -> Result<(), FormatError> {
    if b.protocol_version != CURRENT_PROTOCOL_VERSION {
        Err(FormatError::UnsupportedProtocolVersion(b.protocol_version))
    } else if b.file_format_version != CURRENT_FILE_FORMAT_VERSION {
        Err(FormatError::UnsupportedFileFormatVersion(b.file_format_version))
    } else if b.max_record_bytes == 0 {
        Err(FormatError::ZeroRecordCapacity)
    } else if b.max_batch_bytes < b.max_record_bytes {
        Err(FormatError::BatchSmallerThanRecord)
    } else {
        Ok(())
    }
}

/// A baseline is safe to use when both versions are current, a record may
/// hold at least one byte, and a batch can hold at least one whole record.
pub open spec fn baseline_is_safe(b: ProtocolBaseline) -> bool {
    &&& b.protocol_version == CURRENT_PROTOCOL_VERSION
    &&& b.file_format_version == CURRENT_FILE_FORMAT_VERSION
    &&& b.max_record_bytes > 0
    &&& b.max_batch_bytes >= b.max_record_bytes
}

/// The text a format error is displayed with.
pub open spec fn format_error_text(e: FormatError) -> Seq<char> {
    match e {
        FormatError::UnsupportedProtocolVersion(v) => "unsupported protocol version: "@
            + decimal_digits(v as nat),
        FormatError::UnsupportedFileFormatVersion(v) => "unsupported file format version: "@
            + decimal_digits(v as nat),
        FormatError::ZeroRecordCapacity => "record capacity must be non-zero"@,
        FormatError::BatchSmallerThanRecord => "batch capacity must be at least record capacity"@,
    }
}

impl FormatError {
    /// Human-readable description of the error.
    pub fn message(&self) -> (text: String)
        ensures
            text@ == format_error_text(*self),
    {
        match self {
            FormatError::UnsupportedProtocolVersion(version) => {
                let mut text = String::from_str("unsupported protocol version: ");
                let number = decimal_text(*version as u64);
                text.append(number.as_str());
                text
            },
            FormatError::UnsupportedFileFormatVersion(version) => {
                let mut text = String::from_str("unsupported file format version: ");
                let number = decimal_text(*version as u64);
                text.append(number.as_str());
                text
            },
            FormatError::ZeroRecordCapacity => String::from_str("record capacity must be non-zero"),
            FormatError::BatchSmallerThanRecord => String::from_str(
                "batch capacity must be at least record capacity",
            ),
        }
    }
}

/// Returns the initial version and capacity values used by boundary checks.
pub fn stage_zero_baseline() -> (baseline: ProtocolBaseline)
    ensures
        baseline == (ProtocolBaseline {
            protocol_version: CURRENT_PROTOCOL_VERSION,
            file_format_version: CURRENT_FILE_FORMAT_VERSION,
            max_record_bytes: 1048576,
            max_batch_bytes: 4194304,
        }),
        baseline_is_safe(baseline),
{
    ProtocolBaseline {
        protocol_version: CURRENT_PROTOCOL_VERSION,
        file_format_version: CURRENT_FILE_FORMAT_VERSION,
        max_record_bytes: 1048576,
        max_batch_bytes: 4194304,
    }
}

impl ProtocolBaseline {
    /// Checks that protocol versions and capacity relationships are safe to use.
    pub fn validate(&self) -> (result: Result<(), FormatError>)
        ensures
            result == baseline_verdict(*self),
            result is Ok <==> baseline_is_safe(*self),
    {
        if self.protocol_version != CURRENT_PROTOCOL_VERSION {
            return Err(FormatError::UnsupportedProtocolVersion(self.protocol_version));
        }
        if self.file_format_version != CURRENT_FILE_FORMAT_VERSION {
            return Err(FormatError::UnsupportedFileFormatVersion(self.file_format_version));
        }
        if self.max_record_bytes == 0 {
            return Err(FormatError::ZeroRecordCapacity);
        }
        if self.max_batch_bytes < self.max_record_bytes {
            return Err(FormatError::BatchSmallerThanRecord);
        }
        Ok(())
    }
}

} // verus!
