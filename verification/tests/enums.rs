use tgcalls::enums::{
    ntg_connection_mode_enum, ntg_error_code_enum, ntg_log_level_enum, ntg_media_source_enum,
    ntg_stream_device_enum,
};

#[test]
fn error_codes() {
    assert_eq!(ntg_error_code_enum::NTG_ERROR_CONNECTION_NOT_FOUND.code(), -101);
    assert_eq!(ntg_error_code_enum::NTG_ERROR_RTC_CONNECTION_NEEDED.code(), -306);
    assert_eq!(ntg_error_code_enum::from_code(-4), Some(ntg_error_code_enum::NTG_ERROR_ASYNC_NOT_READY));
    assert_eq!(ntg_error_code_enum::from_code(-103), None);
    assert_eq!(ntg_error_code_enum::from_code(0), None);
}

#[test]
fn flag_values() {
    assert_eq!(ntg_media_source_enum::NTG_EXTERNAL.code(), 32);
    assert_eq!(ntg_media_source_enum::from_code(4), Some(ntg_media_source_enum::NTG_FFMPEG));
    assert_eq!(ntg_media_source_enum::from_code(3), None);
    assert_eq!(ntg_log_level_enum::NTG_LOG_UNKNOWN.code(), -1);
    assert_eq!(ntg_log_level_enum::from_code(8), Some(ntg_log_level_enum::NTG_LOG_ERROR));
}

#[test]
fn ordinal_values_round_trip() {
    for d in [
        ntg_stream_device_enum::NTG_STREAM_MICROPHONE,
        ntg_stream_device_enum::NTG_STREAM_SPEAKER,
        ntg_stream_device_enum::NTG_STREAM_CAMERA,
        ntg_stream_device_enum::NTG_STREAM_SCREEN,
    ] {
        assert_eq!(ntg_stream_device_enum::from_code(d.code()), Some(d));
    }
    assert_eq!(ntg_connection_mode_enum::NTG_CONNECTION_MODE_RTMP.code(), 3);
    assert_eq!(ntg_connection_mode_enum::from_code(4), None);
}
