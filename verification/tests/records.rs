use tgcalls::enums::{
    ntg_log_level_enum, ntg_log_source_enum, ntg_media_source_enum, ntg_stream_status_enum,
};
use tgcalls::records::{
    ntg_audio_description_struct, ntg_auth_params_struct, ntg_call_info_struct,
    ntg_device_info_struct, ntg_dh_config_struct, ntg_frame_data_struct, ntg_frame_struct,
    ntg_log_message_struct, ntg_media_description_struct, ntg_media_devices_struct,
    ntg_protocol_struct, ntg_rtc_server_struct, ntg_ssrc_group_struct, ntg_video_description_struct,
};

#[test]
fn audio_description_round_trip() {
    let a = ntg_audio_description_struct::__construct(
        ntg_media_source_enum::NTG_FILE,
        "song.mp3".to_string(),
        48000,
        2,
        true,
    );
    assert_eq!(a.get_input(), "song.mp3");
    assert_eq!(a.sample_rate, 48000);
    assert_eq!(a.channel_count, 2);
    assert!(a.keep_open);
}

#[test]
fn media_description_keeps_streams() {
    let mic = ntg_audio_description_struct::__construct(ntg_media_source_enum::NTG_DEVICE, "hw:0".to_string(), 44100, 1, false);
    let cam = ntg_video_description_struct::__construct(ntg_media_source_enum::NTG_SHELL, "ffmpeg -i x".to_string(), 1280, 720, 30, false);
    let d = ntg_media_description_struct::__construct(Some(&mic), None, Some(&cam), None);
    let got_mic = d.get_microphone().unwrap();
    assert_eq!(got_mic.get_input(), "hw:0");
    assert_eq!(got_mic.sample_rate, 44100);
    assert!(d.get_speaker().is_none());
    let got_cam = d.get_camera().unwrap();
    assert_eq!(got_cam.get_input(), "ffmpeg -i x");
    assert_eq!((got_cam.width, got_cam.height, got_cam.fps), (1280, 720, 30));
    assert!(d.get_screen().is_none());
}

#[test]
fn rtc_server_round_trip() {
    let s = ntg_rtc_server_struct::__construct(
        9,
        "149.154.167.51".to_string(),
        "2001:b28:f23d:f001::a".to_string(),
        443,
        true,
        false,
        true,
        "user".to_string(),
        "secret".to_string(),
        vec![1, 2, 3],
    );
    assert_eq!(s.get_ipv4(), "149.154.167.51");
    assert_eq!(s.get_ipv6(), "2001:b28:f23d:f001::a");
    assert_eq!(s.get_username(), "user");
    assert_eq!(s.get_password(), "secret");
    assert_eq!(s.get_peer_tag(), vec![1, 2, 3]);
    assert_eq!((s.id, s.port, s.turn, s.stun, s.tcp), (9, 443, true, false, true));
}

#[test]
fn protocol_round_trip() {
    let p = ntg_protocol_struct::__construct(65, 92, true, true, vec!["11.0.0".to_string(), "7.0.0".to_string()]);
    assert_eq!(p.get_library_versions(), vec!["11.0.0".to_string(), "7.0.0".to_string()]);
    assert_eq!((p.min_layer, p.max_layer), (65, 92));
}

#[test]
fn dh_config_round_trip() {
    let d = ntg_dh_config_struct::__construct(3, vec![0xc7, 0x1c], vec![5, 6, 7]);
    assert_eq!(d.g, 3);
    assert_eq!(d.get_p(), vec![0xc7, 0x1c]);
    assert_eq!(d.get_random(), vec![5, 6, 7]);
}

#[test]
fn ssrc_group_keeps_low_32_bits() {
    let g = ntg_ssrc_group_struct::__construct("FID".to_string(), vec![1, -1, 4294967297, 123456]);
    assert_eq!(g.get_semantics(), "FID");
    assert_eq!(g.get_ssrcs(), vec![1, 4294967295, 1, 123456]);
}

#[test]
fn device_listing() {
    let mic = ntg_device_info_struct::__construct("Built-in".to_string(), "{\"id\":0}".to_string());
    let list = ntg_media_devices_struct::__construct(Some(mic), None, None, None);
    let got = list.get_microphone();
    assert_eq!(got.len(), 1);
    assert_eq!(got[0].get_name(), "Built-in");
    assert_eq!(got[0].get_metadata(), "{\"id\":0}");
    assert!(list.get_speaker().is_empty());
    assert!(list.get_camera().is_empty());
    assert!(list.get_screen().is_empty());
}

#[test]
fn frame_round_trip() {
    let meta = ntg_frame_data_struct::__construct(17, 640, 480, 270);
    let f = ntg_frame_struct::__construct(12, vec![1, 1, 2, 3, 5], &meta);
    assert_eq!(f.get_data(), vec![1, 1, 2, 3, 5]);
    assert_eq!(f.get_frame_data(), meta);
    assert_eq!(f.ssrc, 12);
}

#[test]
fn auth_params_round_trip() {
    let a = ntg_auth_params_struct::__construct(vec![9; 256], -77);
    assert_eq!(a.get_g_a_or_b(), vec![9; 256]);
    assert_eq!(a.key_fingerprint, -77);
}

#[test]
fn small_records() {
    let c = ntg_call_info_struct::__construct(-100, ntg_stream_status_enum::NTG_ACTIVE, ntg_stream_status_enum::NTG_IDLING);
    assert_eq!((c.chat_id, c.capture, c.playback), (-100, ntg_stream_status_enum::NTG_ACTIVE, ntg_stream_status_enum::NTG_IDLING));
    let m = ntg_log_message_struct::__construct(
        ntg_log_level_enum::NTG_LOG_WARNING,
        ntg_log_source_enum::NTG_LOG_SELF,
        "a.cpp".to_string(),
        3,
        "hello".to_string(),
    );
    assert_eq!((m.file.as_str(), m.line, m.message.as_str()), ("a.cpp", 3, "hello"));
}
