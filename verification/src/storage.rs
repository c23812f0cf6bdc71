//! Storage-engine boundary: storage code may only start on a valid baseline.
use vstd::prelude::*;

use crate::baseline::{
    baseline_verdict, format_error_text, stage_zero_baseline, FormatError, ProtocolBaseline,
};

verus! {

/// Reasons the storage boundary refuses to start.
#[derive(Debug, PartialEq, Eq, Structural)]
pub enum CoreError {
    InvalidFormat(FormatError),
}

/// The text a storage error is displayed with.
pub open spec fn core_error_text(e: CoreError) -> Seq<char> {
    match e {
        CoreError::InvalidFormat(inner) => "invalid format baseline: "@ + format_error_text(inner),
    }
}

impl CoreError {
    /// Human-readable description of the error.
    pub fn message(&self) -> (text: String)
        ensures
            text@ == core_error_text(*self),
    {
        match self {
            CoreError::InvalidFormat(inner) => {
                let mut text = String::from_str("invalid format baseline: ");
                let detail = inner.message();
                text.append(detail.as_str());
                text
            },
        }
    }
}

/// Validates the format baseline before storage code is allowed to start.
pub fn validate_baseline(baseline: &ProtocolBaseline) -> (result: Result<(), CoreError>)
    ensures
        match baseline_verdict(*baseline) {
            Ok(()) => result is Ok,
            Err(e) => result == Err::<(), CoreError>(CoreError::InvalidFormat(e)),
        },
{
    match baseline.validate() {
        Ok(()) => Ok(()),
        Err(e) => Err(CoreError::InvalidFormat(e)),
    }
}

/// Runs the storage boundary check used by the stage 0 executable.
pub fn validate_stage_zero() -> (result: Result<(), CoreError>)
    ensures
        result is Ok,
{
    validate_baseline(&stage_zero_baseline())
}

} // verus!
