use tgcalls::enums::{
    ntg_connection_kind_enum, ntg_connection_state_enum, ntg_media_segment_quality_enum,
    ntg_stream_device_enum, ntg_stream_mode_enum, ntg_stream_status_enum, ntg_stream_type_enum,
};
use tgcalls::packet::{
    encode_packet, BroadcastPartEvent, BroadcastTimestampEvent, ConnectionEvent, FrameEvent,
    NtgEvent, RemoteSourceEvent, SignalingEvent, StreamEvent, UpgradeEvent,
};
use tgcalls::records::{
    ntg_frame_data_struct, ntg_frame_struct, ntg_media_state_struct, ntg_network_info_struct,
    ntg_remote_source_struct, ntg_segment_part_request_struct,
};

fn le64(x: i64) -> Vec<u8> {
    x.to_le_bytes().to_vec()
}

fn le32(x: i32) -> Vec<u8> {
    x.to_le_bytes().to_vec()
}

/// Where the packet at the front of `bytes` ends, by the reader's rule.
fn frame_length(bytes: &[u8]) -> Option<usize> {
    match bytes.first()? {
        1 | 3 => Some(17),
        2 => Some(13),
        4 => Some(13 + u32::from_le_bytes(bytes.get(9..13)?.try_into().ok()?) as usize),
        5 => Some(51 + u32::from_le_bytes(bytes.get(25..29)?.try_into().ok()?) as usize),
        6 => Some(21),
        7 => Some(9),
        8 => Some(42),
        _ => None,
    }
}

#[test]
fn stream_packet_layout() {
    let p = encode_packet(NtgEvent::Stream(StreamEvent {
        chat_id: -1001234567890,
        stream_type: ntg_stream_type_enum::NTG_STREAM_VIDEO,
        device: ntg_stream_device_enum::NTG_STREAM_SCREEN,
    }));
    let mut want = vec![1u8];
    want.extend(le64(-1001234567890));
    want.extend(le32(1));
    want.extend(le32(3));
    assert_eq!(p, want);
    assert_eq!(p.len(), 17);
}

#[test]
fn upgrade_packet_layout() {
    let p = encode_packet(NtgEvent::Upgrade(UpgradeEvent {
        chat_id: 42,
        media_state: ntg_media_state_struct::__construct(true, false, true, false),
    }));
    assert_eq!(p, vec![2, 42, 0, 0, 0, 0, 0, 0, 0, 1, 0, 1, 0]);
}

#[test]
fn connection_packet_layout() {
    let p = encode_packet(NtgEvent::Connection(ConnectionEvent {
        chat_id: 7,
        network_info: ntg_network_info_struct::__construct(
            ntg_connection_kind_enum::NTG_KIND_PRESENTATION,
            ntg_connection_state_enum::NTG_STATE_CLOSED,
        ),
    }));
    assert_eq!(p, vec![3, 7, 0, 0, 0, 0, 0, 0, 0, 1, 0, 0, 0, 4, 0, 0, 0]);
}

#[test]
fn signaling_packet_layout() {
    let p = encode_packet(NtgEvent::Signaling(SignalingEvent { chat_id: 5, data: vec![9, 8, 7] }));
    assert_eq!(p, vec![4, 5, 0, 0, 0, 0, 0, 0, 0, 3, 0, 0, 0, 9, 8, 7]);
    let empty = encode_packet(NtgEvent::Signaling(SignalingEvent { chat_id: 5, data: vec![] }));
    assert_eq!(empty.len(), 13);
}

#[test]
fn frame_packet_layout() {
    let frame = ntg_frame_struct::__construct(
        -2,
        vec![0xaa, 0xbb],
        &ntg_frame_data_struct::__construct(1_700_000_000_000, 1280, 720, 90),
    );
    let p = encode_packet(NtgEvent::Frame(FrameEvent {
        chat_id: 3,
        stream_mode: ntg_stream_mode_enum::NTG_STREAM_PLAYBACK,
        device: ntg_stream_device_enum::NTG_STREAM_CAMERA,
        frame,
        frame_count: 11,
    }));
    let mut want = vec![5u8];
    want.extend(le64(3));
    want.extend(le32(1));
    want.extend(le32(2));
    want.extend(le64(-2));
    want.extend(2u32.to_le_bytes());
    want.extend([0xaa, 0xbb]);
    want.extend(le64(1_700_000_000_000));
    want.extend(1280u16.to_le_bytes());
    want.extend(720u16.to_le_bytes());
    want.extend(90u16.to_le_bytes());
    want.extend(11u64.to_le_bytes());
    assert_eq!(p, want);
    assert_eq!(p.len(), 51 + 2);
}

#[test]
fn remote_source_packet_layout() {
    let p = encode_packet(NtgEvent::RemoteSource(RemoteSourceEvent {
        chat_id: 1,
        remote_source: ntg_remote_source_struct::__construct(
            0xdeadbeef,
            ntg_stream_status_enum::NTG_PAUSED,
            ntg_stream_device_enum::NTG_STREAM_MICROPHONE,
        ),
    }));
    let mut want = vec![6u8];
    want.extend(le64(1));
    want.extend(0xdeadbeefu32.to_le_bytes());
    want.extend(le32(1));
    want.extend(le32(0));
    assert_eq!(p, want);
    assert_eq!(p.len(), 21);
}

#[test]
fn broadcast_timestamp_packet_layout() {
    let p = encode_packet(NtgEvent::BroadcastTimestamp(BroadcastTimestampEvent { chat_id: -1 }));
    assert_eq!(p, vec![7, 0xff, 0xff, 0xff, 0xff, 0xff, 0xff, 0xff, 0xff]);
}

#[test]
fn broadcast_part_packet_layout() {
    let request = ntg_segment_part_request_struct::__construct(
        100,
        -3,
        4,
        123456789,
        true,
        9,
        ntg_media_segment_quality_enum::NTG_MEDIA_SEGMENT_QUALITY_FULL,
    );
    let p = encode_packet(NtgEvent::BroadcastPart(BroadcastPartEvent { chat_id: 2, request }));
    let mut want = vec![8u8];
    want.extend(le64(2));
    want.extend(le64(100));
    want.extend(le32(-3));
    want.extend(le32(4));
    want.extend(le64(123456789));
    want.push(1);
    want.extend(le32(9));
    want.extend(le32(3));
    assert_eq!(p, want);
    assert_eq!(p.len(), 42);
}

#[test]
fn packets_are_self_delimiting_on_a_stream() {
    let events = vec![
        NtgEvent::Signaling(SignalingEvent { chat_id: 5, data: vec![1, 2, 3, 4, 5] }),
        NtgEvent::BroadcastTimestamp(BroadcastTimestampEvent { chat_id: 8 }),
        NtgEvent::Frame(FrameEvent {
            chat_id: 3,
            stream_mode: ntg_stream_mode_enum::NTG_STREAM_CAPTURE,
            device: ntg_stream_device_enum::NTG_STREAM_SPEAKER,
            frame: ntg_frame_struct::__construct(1, vec![7; 300], &ntg_frame_data_struct::__construct(0, 1, 1, 0)),
            frame_count: 1,
        }),
        NtgEvent::Stream(StreamEvent {
            chat_id: 4,
            stream_type: ntg_stream_type_enum::NTG_STREAM_AUDIO,
            device: ntg_stream_device_enum::NTG_STREAM_MICROPHONE,
        }),
    ];
    let packets: Vec<Vec<u8>> = events.into_iter().map(encode_packet).collect();
    let stream: Vec<u8> = packets.concat();
    let mut at = 0;
    for p in &packets {
        let n = frame_length(&stream[at..]).unwrap();
        assert_eq!(&stream[at..at + n], &p[..]);
        at += n;
    }
    assert_eq!(at, stream.len());
}

#[test]
fn packet_header_holds_kind_and_chat() {
    let p = encode_packet(NtgEvent::BroadcastTimestamp(BroadcastTimestampEvent { chat_id: i64::MIN }));
    assert_eq!(p[0], 7);
    assert_eq!(i64::from_le_bytes(p[1..9].try_into().unwrap()), i64::MIN);
}
