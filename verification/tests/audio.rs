use cadence::audio::{
    check_output_request, check_sdl_format, drain_target_bytes, queue_capacity, AudioOpenError, SampleFormat,
    SinkFailure,
};

#[test]
fn audio_output_unsupported_audio_formats_return_sink_errors() {
    let error = check_output_request(&None, SampleFormat::F64).unwrap_err();
    assert!(matches!(error.sink_error(), SinkFailure::InvalidParams(_)));
    assert_eq!(error, AudioOpenError::InvalidInput("audio output does not support F64 samples".to_owned()));
}

#[test]
fn audio_unsupported_audio_formats_return_sink_errors() {
    let error = check_sdl_format(SampleFormat::F64).unwrap_err();
    assert!(matches!(error.sink_error(), SinkFailure::InvalidParams(_)));
    assert_eq!(error, AudioOpenError::InvalidFormat("SDL does not support F64 output".to_owned()));
    assert!(check_sdl_format(SampleFormat::S16).is_ok());
}

#[test]
fn integer_input_formats_are_rejected_instead_of_ignoring_dithering() {
    for format in [SampleFormat::S16, SampleFormat::S32] {
        let error = check_output_request(&None, format).unwrap_err();
        assert!(matches!(error.sink_error(), SinkFailure::InvalidParams(_)));
    }
    assert!(check_output_request(&None, SampleFormat::F32).is_ok());
    assert!(check_output_request(&Some("USB".to_owned()), SampleFormat::F32).is_err());
}

#[test]
fn hardware_open_failures_are_retryable_but_invalid_input_is_not() {
    assert!(AudioOpenError::Connection(String::new()).retryable());
    assert!(AudioOpenError::InvalidFormat(String::new()).retryable());
    assert!(!AudioOpenError::InvalidInput(String::new()).retryable());
}

#[test]
fn playback_buffer_holds_150_milliseconds() {
    assert_eq!(queue_capacity(44_100, 2).unwrap(), 13_230);
}

#[test]
fn playback_buffer_rejects_unbounded_device_formats() {
    assert!(queue_capacity(u32::MAX, u16::MAX).is_err());
}

#[test]
fn sdl_writers_wait_once_150_milliseconds_are_queued() {
    assert_eq!(drain_target_bytes(44_100, 2, 4), 52_920);
    assert_eq!(drain_target_bytes(44_100, 2, 2), 26_460);
}

#[test]
fn connection_failures_are_refused_connections() {
    assert_eq!(
        AudioOpenError::Connection("no device".to_owned()).sink_error(),
        SinkFailure::ConnectionRefused("no device".to_owned())
    );
}
