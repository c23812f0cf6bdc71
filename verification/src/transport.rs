//! Transport boundary kept independent from storage semantics.
use vstd::prelude::*;

verus! {

/// Default maximum encoded frame size: one mebibyte.
pub const DEFAULT_MAX_FRAME_BYTES: usize = 1048576;

/// Transport limits used before a real wire adapter is selected.
///
/// The limit is an encoded frame bound, not a hint for an unbounded buffer.
#[derive(Debug, Clone, Copy, PartialEq, Eq, Structural)]
pub struct TransportConfig {
    /// Maximum accepted frame size in bytes; zero is never valid.
    pub max_frame_bytes: usize,
}

/// Failures that would make a transport buffer unusable or unbounded.
#[derive(Debug, Clone, Copy, PartialEq, Eq, Structural)]
pub enum TransportError {
    ZeroFrameCapacity,
}

impl TransportError {
    /// The variant name, as `{:?}` renders it.
    pub fn debug_text(&self) -> (text: String)
        ensures
            text@ == "ZeroFrameCapacity"@,
    {
        match self {
            TransportError::ZeroFrameCapacity => String::from_str("ZeroFrameCapacity"),
        }
    }
}

/// Returns the initial transport configuration for the stage 0 executable.
pub fn stage_zero_config() -> (config: TransportConfig)
    ensures
        config.max_frame_bytes == DEFAULT_MAX_FRAME_BYTES,
{
    TransportConfig { max_frame_bytes: DEFAULT_MAX_FRAME_BYTES }
}

impl TransportConfig {
    /// Whether this configuration bounds frames by a usable, nonzero size.
    pub open spec fn is_valid(self) -> bool {
        self.max_frame_bytes > 0
    }

    /// Ensures the transport cannot accept an empty frame size.
    pub fn validate(self) -> (result: Result<(), TransportError>)
        ensures
            result is Ok <==> self.is_valid(),
            result is Err ==> result == Err::<(), TransportError>(TransportError::ZeroFrameCapacity),
    {
        if self.max_frame_bytes == 0 {
            return Err(TransportError::ZeroFrameCapacity);
        }
        Ok(())
    }
}

/// Checks the transport boundary used by the stage 0 executable.
pub fn validate_stage_zero() -> (result: Result<(), TransportError>)
    ensures
        result is Ok,
{
    stage_zero_config().validate()
}

} // verus!
