use lattice::transport::{
    stage_zero_config, validate_stage_zero, TransportConfig, TransportError,
    DEFAULT_MAX_FRAME_BYTES,
};

#[test]
fn stage_zero_configuration_is_valid() {
    assert!(validate_stage_zero().is_ok());
}

#[test]
fn rejects_zero_frame_capacity() {
    assert_eq!(
        (TransportConfig { max_frame_bytes: 0 }).validate(),
        Err(TransportError::ZeroFrameCapacity)
    );
}

#[test]
fn stage_zero_frame_limit_is_one_mebibyte() {
    assert_eq!(stage_zero_config().max_frame_bytes, 1024 * 1024);
    assert_eq!(DEFAULT_MAX_FRAME_BYTES, 1024 * 1024);
    assert!((TransportConfig { max_frame_bytes: 1 }).validate().is_ok());
}

#[test]
fn formats_transport_error_like_debug() {
    let error = TransportError::ZeroFrameCapacity;
    assert_eq!(error.debug_text(), format!("{error:?}"));
}
