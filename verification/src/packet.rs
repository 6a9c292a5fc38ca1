//! The events that the engine reports, and the byte packets in which they are
//! written to the PHP side's socket. Every integer is little-endian; every
//! enumeration is written as its 32-bit C value; every flag is one byte, 1 or 0.
use vstd::prelude::*;
use vstd::bytes::{
    spec_u16_from_le_bytes, spec_u16_to_le_bytes, spec_u32_from_le_bytes, spec_u32_to_le_bytes, spec_u64_from_le_bytes,
    spec_u64_to_le_bytes, u16_to_le_bytes, u32_to_le_bytes, u64_to_le_bytes,
    lemma_auto_spec_u16_to_from_le_bytes, lemma_auto_spec_u32_to_from_le_bytes,
    lemma_auto_spec_u64_to_from_le_bytes,
};
use crate::enums::{ntg_stream_device_enum, ntg_stream_mode_enum, ntg_stream_type_enum};
use crate::records::{
    ntg_frame_struct, ntg_media_state_struct, ntg_network_info_struct, ntg_remote_source_struct,
    ntg_segment_part_request_struct,
};

verus! {

/// A stream of a call ended.
#[derive(Debug)]
pub struct StreamEvent {
    pub chat_id: i64,
    pub stream_type: ntg_stream_type_enum,
    pub device: ntg_stream_device_enum,
}

/// The remote side changed its media state.
#[derive(Debug)]
pub struct UpgradeEvent {
    pub chat_id: i64,
    pub media_state: ntg_media_state_struct,
}

/// The network connection of a call changed.
#[derive(Debug)]
pub struct ConnectionEvent {
    pub chat_id: i64,
    pub network_info: ntg_network_info_struct,
}

/// Signaling data to relay to the peer of a private call.
#[derive(Debug)]
pub struct SignalingEvent {
    pub chat_id: i64,
    pub data: Vec<u8>,
}

/// A batch of frames of a stream.
#[derive(Debug)]
pub struct FrameEvent {
    pub chat_id: i64,
    pub stream_mode: ntg_stream_mode_enum,
    pub device: ntg_stream_device_enum,
    pub frame: ntg_frame_struct,
    pub frame_count: u64,
}

/// A remote participant's source changed.
#[derive(Debug)]
pub struct RemoteSourceEvent {
    pub chat_id: i64,
    pub remote_source: ntg_remote_source_struct,
}

/// The engine asks for the broadcast's current timestamp.
#[derive(Debug)]
pub struct BroadcastTimestampEvent {
    pub chat_id: i64,
}

/// The engine asks for a part of a broadcast segment.
#[derive(Debug)]
pub struct BroadcastPartEvent {
    pub chat_id: i64,
    pub request: ntg_segment_part_request_struct,
}

/// Any event of the engine.
#[derive(Debug)]
pub enum NtgEvent {
    Stream(StreamEvent),
    Upgrade(UpgradeEvent),
    Connection(ConnectionEvent),
    Signaling(SignalingEvent),
    Frame(FrameEvent),
    RemoteSource(RemoteSourceEvent),
    BroadcastTimestamp(BroadcastTimestampEvent),
    BroadcastPart(BroadcastPartEvent),
}

/// Little-endian bytes of a signed 64-bit integer (its two's complement).
pub open spec fn le_i64(x: i64) -> Seq<u8> {
    spec_u64_to_le_bytes(x as u64)
}

/// Little-endian bytes of a signed 32-bit integer (its two's complement).
pub open spec fn le_i32(x: i32) -> Seq<u8> {
    spec_u32_to_le_bytes(x as u32)
}

/// The byte of a flag.
pub open spec fn flag_byte(b: bool) -> u8 {
    if b { 1 } else { 0 }
}

/// The identifier that opens the packet of each kind of event.
pub open spec fn kind_id(e: NtgEvent) -> u8 {
    match e {
        NtgEvent::Stream(_) => 1,
        NtgEvent::Upgrade(_) => 2,
        NtgEvent::Connection(_) => 3,
        NtgEvent::Signaling(_) => 4,
        NtgEvent::Frame(_) => 5,
        NtgEvent::RemoteSource(_) => 6,
        NtgEvent::BroadcastTimestamp(_) => 7,
        NtgEvent::BroadcastPart(_) => 8,
    }
}

/// The chat an event is about.
pub open spec fn chat_of(e: NtgEvent) -> i64 {
    match e {
        NtgEvent::Stream(s) => s.chat_id,
        NtgEvent::Upgrade(u) => u.chat_id,
        NtgEvent::Connection(c) => c.chat_id,
        NtgEvent::Signaling(s) => s.chat_id,
        NtgEvent::Frame(f) => f.chat_id,
        NtgEvent::RemoteSource(r) => r.chat_id,
        NtgEvent::BroadcastTimestamp(b) => b.chat_id,
        NtgEvent::BroadcastPart(b) => b.chat_id,
    }
}

/// The fields of an event after its kind and chat, in packet order.
pub open spec fn body(e: NtgEvent) -> Seq<u8> {
    match e {
        NtgEvent::Stream(s) => le_i32(s.stream_type.value()) + le_i32(s.device.value()),
        NtgEvent::Upgrade(u) => seq![
            flag_byte(u.media_state.muted),
            flag_byte(u.media_state.video_paused),
            flag_byte(u.media_state.video_stopped),
            flag_byte(u.media_state.presentation_paused),
        ],
        NtgEvent::Connection(c) => le_i32(c.network_info.kind.value()) + le_i32(c.network_info.state.value()),
        NtgEvent::Signaling(s) => spec_u32_to_le_bytes(s.data@.len() as u32) + s.data@,
        NtgEvent::Frame(f) =>
            le_i32(f.stream_mode.value()) + le_i32(f.device.value())
            + le_i64(f.frame.ssrc) + spec_u32_to_le_bytes(f.frame.data@.len() as u32) + f.frame.data@
            + le_i64(f.frame.frame_data.absolute_capture_timestamp_ms)
            + spec_u16_to_le_bytes(f.frame.frame_data.width)
            + spec_u16_to_le_bytes(f.frame.frame_data.height)
            + spec_u16_to_le_bytes(f.frame.frame_data.rotation)
            + spec_u64_to_le_bytes(f.frame_count),
        NtgEvent::RemoteSource(r) =>
            spec_u32_to_le_bytes(r.remote_source.ssrc) + le_i32(r.remote_source.state.value())
            + le_i32(r.remote_source.device.value()),
        NtgEvent::BroadcastTimestamp(_) => Seq::empty(),
        NtgEvent::BroadcastPart(b) =>
            le_i64(b.request.segment_id) + le_i32(b.request.part_id) + le_i32(b.request.limit)
            + le_i64(b.request.timestamp) + seq![flag_byte(b.request.quality_update)]
            + le_i32(b.request.channel_id) + le_i32(b.request.quality.value()),
    }
}

/// The packet of an event: kind, chat, then the event's fields.
pub open spec fn packet(e: NtgEvent) -> Seq<u8> {
    seq![kind_id(e)] + le_i64(chat_of(e)) + body(e)
}

fn put(p: &mut Vec<u8>, bytes: Vec<u8>)
    ensures
        final(p)@ == old(p)@ + bytes@,
{
    let mut bytes = bytes;
    p.append(&mut bytes);
}

fn put_flag(p: &mut Vec<u8>, b: bool)
    ensures
        final(p)@ == old(p)@.push(flag_byte(b)),
{
    p.push(if b { 1 } else { 0 });
}

fn put_data(p: &mut Vec<u8>, data: &Vec<u8>)
    ensures
        final(p)@ == old(p)@ + data@,
{
    let ghost start = p@;
    for i in 0..data.len()
        invariant
            p@ == start + data@.take(i as int),
    {
        p.push(data[i]);
        assert(data@.take(i + 1) == data@.take(i as int).push(data@[i as int]));
    }
    assert(data@.take(data.len() as int) == data@);
}

/// The packet that tells the PHP side of an event.
#[verifier::rlimit(40)]
pub fn encode_packet(event: NtgEvent) -> (p: Vec<u8>)
    ensures
        p@ == packet(event),
        p@.len() >= 9,
        event is Stream ==> p@[0] == 1u8,
        event is Upgrade ==> p@[0] == 2u8,
        event is Connection ==> p@[0] == 3u8,
        event is Signaling ==> p@[0] == 4u8,
        event is Frame ==> p@[0] == 5u8,
        event is RemoteSource ==> p@[0] == 6u8,
        event is BroadcastTimestamp ==> p@[0] == 7u8,
        event is BroadcastPart ==> p@[0] == 8u8,
{
    proof {
        lemma_packet_kind(event);
    }
    let mut p: Vec<u8> = Vec::new();
    match event {
        NtgEvent::Stream(s) => {
            p.push(1);
            put(&mut p, u64_to_le_bytes(s.chat_id as u64));
            put(&mut p, u32_to_le_bytes(s.stream_type.code() as u32));
            put(&mut p, u32_to_le_bytes(s.device.code() as u32));
            assert(p@ == packet(NtgEvent::Stream(s)));
        },
        NtgEvent::Upgrade(u) => {
            p.push(2);
            put(&mut p, u64_to_le_bytes(u.chat_id as u64));
            put_flag(&mut p, u.media_state.muted);
            put_flag(&mut p, u.media_state.video_paused);
            put_flag(&mut p, u.media_state.video_stopped);
            put_flag(&mut p, u.media_state.presentation_paused);
            assert(p@ == packet(NtgEvent::Upgrade(u)));
        },
        NtgEvent::Connection(c) => {
            p.push(3);
            put(&mut p, u64_to_le_bytes(c.chat_id as u64));
            put(&mut p, u32_to_le_bytes(c.network_info.kind.code() as u32));
            put(&mut p, u32_to_le_bytes(c.network_info.state.code() as u32));
            assert(p@ == packet(NtgEvent::Connection(c)));
        },
        NtgEvent::Signaling(sig) => {
            p.push(4);
            put(&mut p, u64_to_le_bytes(sig.chat_id as u64));
            put(&mut p, u32_to_le_bytes(sig.data.len() as u32));
            put_data(&mut p, &sig.data);
            assert(p@ == packet(NtgEvent::Signaling(sig)));
        },
        NtgEvent::Frame(f) => {
            p.push(5);
            put(&mut p, u64_to_le_bytes(f.chat_id as u64));
            put(&mut p, u32_to_le_bytes(f.stream_mode.code() as u32));
            put(&mut p, u32_to_le_bytes(f.device.code() as u32));
            put(&mut p, u64_to_le_bytes(f.frame.ssrc as u64));
            put(&mut p, u32_to_le_bytes(f.frame.data.len() as u32));
            put_data(&mut p, &f.frame.data);
            put(&mut p, u64_to_le_bytes(f.frame.frame_data.absolute_capture_timestamp_ms as u64));
            put(&mut p, u16_to_le_bytes(f.frame.frame_data.width));
            put(&mut p, u16_to_le_bytes(f.frame.frame_data.height));
            put(&mut p, u16_to_le_bytes(f.frame.frame_data.rotation));
            put(&mut p, u64_to_le_bytes(f.frame_count));
            assert(p@ == packet(NtgEvent::Frame(f)));
        },
        NtgEvent::RemoteSource(r) => {
            p.push(6);
            put(&mut p, u64_to_le_bytes(r.chat_id as u64));
            put(&mut p, u32_to_le_bytes(r.remote_source.ssrc));
            put(&mut p, u32_to_le_bytes(r.remote_source.state.code() as u32));
            put(&mut p, u32_to_le_bytes(r.remote_source.device.code() as u32));
            assert(p@ == packet(NtgEvent::RemoteSource(r)));
        },
        NtgEvent::BroadcastTimestamp(bt) => {
            p.push(7);
            put(&mut p, u64_to_le_bytes(bt.chat_id as u64));
            assert(p@ == packet(NtgEvent::BroadcastTimestamp(bt)));
        },
        NtgEvent::BroadcastPart(bp) => {
            p.push(8);
            put(&mut p, u64_to_le_bytes(bp.chat_id as u64));
            put(&mut p, u64_to_le_bytes(bp.request.segment_id as u64));
            put(&mut p, u32_to_le_bytes(bp.request.part_id as u32));
            put(&mut p, u32_to_le_bytes(bp.request.limit as u32));
            put(&mut p, u64_to_le_bytes(bp.request.timestamp as u64));
            put_flag(&mut p, bp.request.quality_update);
            put(&mut p, u32_to_le_bytes(bp.request.channel_id as u32));
            put(&mut p, u32_to_le_bytes(bp.request.quality.code() as u32));
            assert(p@ == packet(NtgEvent::BroadcastPart(bp)));
        },
    }
    p
}

/// The length of an event's packet.
pub open spec fn packet_len(e: NtgEvent) -> int {
    match e {
        NtgEvent::Stream(_) => 17int,
        NtgEvent::Upgrade(_) => 13,
        NtgEvent::Connection(_) => 17,
        NtgEvent::Signaling(s) => 13 + s.data@.len() as int,
        NtgEvent::Frame(f) => 51 + f.frame.data@.len() as int,
        NtgEvent::RemoteSource(_) => 21,
        NtgEvent::BroadcastTimestamp(_) => 9,
        NtgEvent::BroadcastPart(_) => 42,
    }
}

/// How a reader of the socket finds where the packet at the front of `bytes` ends:
/// from its kind byte and, for signaling data and frames, from the 32-bit length
/// field that precedes the variable part. `None` where the front is no packet start.
pub open spec fn frame_length(bytes: Seq<u8>) -> Option<int> {
    if bytes.len() == 0 {
        None
    } else if bytes[0] == 1 || bytes[0] == 3 {
        Some(17)
    } else if bytes[0] == 2 {
        Some(13)
    } else if bytes[0] == 4 {
        if bytes.len() >= 13 {
            Some(13 + spec_u32_from_le_bytes(bytes.subrange(9, 13)))
        } else {
            None
        }
    } else if bytes[0] == 5 {
        if bytes.len() >= 29 {
            Some(51 + spec_u32_from_le_bytes(bytes.subrange(25, 29)))
        } else {
            None
        }
    } else if bytes[0] == 6 {
        Some(21)
    } else if bytes[0] == 7 {
        Some(9)
    } else if bytes[0] == 8 {
        Some(42)
    } else {
        None
    }
}

/// The variable part of an event (signaling data, frame bytes) fits the 32-bit
/// length field that announces it.
pub open spec fn lengths_fit(e: NtgEvent) -> bool {
    match e {
        NtgEvent::Signaling(s) => s.data@.len() <= u32::MAX,
        NtgEvent::Frame(f) => f.frame.data@.len() <= u32::MAX,
        _ => true,
    }
}

/// The first byte of a packet depends only on the kind of event: 1 for a stream
/// end, 2 for a media-state upgrade, 3 for a connection change, 4 for signaling
/// data, 5 for frames, 6 for a remote source change, 7 for a broadcast timestamp
/// request and 8 for a broadcast part request.
pub proof fn lemma_packet_kind(e: NtgEvent)
    ensures
        packet(e).len() >= 9,
        e is Stream ==> packet(e)[0] == 1u8,
        e is Upgrade ==> packet(e)[0] == 2u8,
        e is Connection ==> packet(e)[0] == 3u8,
        e is Signaling ==> packet(e)[0] == 4u8,
        e is Frame ==> packet(e)[0] == 5u8,
        e is RemoteSource ==> packet(e)[0] == 6u8,
        e is BroadcastTimestamp ==> packet(e)[0] == 7u8,
        e is BroadcastPart ==> packet(e)[0] == 8u8,
{
    lemma_auto_spec_u64_to_from_le_bytes();
}

/// Every packet has the fixed length of its kind, plus the length of its variable part.
pub proof fn lemma_packet_length(e: NtgEvent)
    ensures
        packet(e).len() == packet_len(e),
{
    lemma_auto_spec_u16_to_from_le_bytes();
    lemma_auto_spec_u32_to_from_le_bytes();
    lemma_auto_spec_u64_to_from_le_bytes();
}

/// Every packet starts with its kind's identifier, followed by the chat id in
/// little-endian; reading those eight bytes back gives the chat id.
pub proof fn lemma_packet_header(e: NtgEvent)
    ensures
        packet(e).len() >= 9,
        packet(e)[0] == kind_id(e),
        packet(e).subrange(1, 9) == le_i64(chat_of(e)),
        spec_u64_from_le_bytes(packet(e).subrange(1, 9)) as i64 == chat_of(e),
{
    lemma_auto_spec_u16_to_from_le_bytes();
    lemma_auto_spec_u32_to_from_le_bytes();
    lemma_auto_spec_u64_to_from_le_bytes();
    let p = packet(e);
    assert(p.subrange(1, 9) == le_i64(chat_of(e)));
    let c = chat_of(e);
    assert((c as u64) as i64 == c) by (bit_vector);
}

/// Packets are self-delimiting: whatever follows a packet on the socket, the
/// reader's rule finds exactly the end of that packet. This holds whenever the
/// variable part fits its 32-bit length field.
pub proof fn lemma_packet_framing(e: NtgEvent, rest: Seq<u8>)
    requires
        lengths_fit(e),
    ensures
        frame_length(packet(e) + rest) == Some(packet(e).len() as int),
{
    lemma_auto_spec_u16_to_from_le_bytes();
    lemma_auto_spec_u32_to_from_le_bytes();
    lemma_auto_spec_u64_to_from_le_bytes();
    lemma_packet_length(e);
    let p = packet(e);
    let b = p + rest;
    assert(b[0] == kind_id(e));
    match e {
        NtgEvent::Signaling(s) => {
            let n = s.data@.len();
            assert(b.subrange(9, 13) == spec_u32_to_le_bytes(n as u32));
            assert((n as u32) as int == n);
        },
        NtgEvent::Frame(f) => {
            let n = f.frame.data@.len();
            assert(b.subrange(25, 29) == spec_u32_to_le_bytes(n as u32));
            assert((n as u32) as int == n);
        },
        _ => {},
    }
}

/// The variable part of signaling and frame packets is carried unchanged right
/// after its length field.
pub proof fn lemma_packet_payload(e: NtgEvent)
    ensures
        e matches NtgEvent::Signaling(s) ==> packet(e).subrange(13, 13 + s.data@.len() as int) == s.data@,
        e matches NtgEvent::Frame(f) ==> packet(e).subrange(29, 29 + f.frame.data@.len() as int) == f.frame.data@,
{
    lemma_auto_spec_u16_to_from_le_bytes();
    lemma_auto_spec_u32_to_from_le_bytes();
    lemma_auto_spec_u64_to_from_le_bytes();
    match e {
        NtgEvent::Signaling(s) => {
            assert(packet(e).subrange(13, 13 + s.data@.len() as int) == s.data@);
        },
        NtgEvent::Frame(f) => {
            assert(packet(e).subrange(29, 29 + f.frame.data@.len() as int) == f.frame.data@);
        },
        _ => {},
    }
}

/// The signed 64-bit integer written little-endian at `at`.
pub open spec fn read_i64(p: Seq<u8>, at: int) -> i64 {
    spec_u64_from_le_bytes(p.subrange(at, at + 8)) as i64
}

/// The unsigned 64-bit integer written little-endian at `at`.
pub open spec fn read_u64(p: Seq<u8>, at: int) -> u64 {
    spec_u64_from_le_bytes(p.subrange(at, at + 8))
}

/// The signed 32-bit integer written little-endian at `at`.
pub open spec fn read_i32(p: Seq<u8>, at: int) -> i32 {
    spec_u32_from_le_bytes(p.subrange(at, at + 4)) as i32
}

/// The unsigned 32-bit integer written little-endian at `at`.
pub open spec fn read_u32(p: Seq<u8>, at: int) -> u32 {
    spec_u32_from_le_bytes(p.subrange(at, at + 4))
}

/// The unsigned 16-bit integer written little-endian at `at`.
pub open spec fn read_u16(p: Seq<u8>, at: int) -> u16 {
    spec_u16_from_le_bytes(p.subrange(at, at + 2))
}

proof fn lemma_i64_round_trip(x: i64)
    ensures
        spec_u64_from_le_bytes(le_i64(x)) as i64 == x,
        le_i64(x).len() == 8,
{
    lemma_auto_spec_u64_to_from_le_bytes();
    assert((x as u64) as i64 == x) by (bit_vector);
}

proof fn lemma_i32_round_trip(x: i32)
    ensures
        spec_u32_from_le_bytes(le_i32(x)) as i32 == x,
        le_i32(x).len() == 4,
{
    lemma_auto_spec_u32_to_from_le_bytes();
    assert((x as u32) as i32 == x) by (bit_vector);
}

/// Every fixed field of a packet reads back, at its offset, as the value the
/// event holds; enumerations read back as their variants and flags as 1 or 0.
#[verifier::rlimit(40)]
pub proof fn lemma_packet_fields(e: NtgEvent)
    ensures
        read_i64(packet(e), 1) == chat_of(e),
        e matches NtgEvent::Stream(s) ==> {
            &&& ntg_stream_type_enum::of_value(read_i32(packet(e), 9)) == Some(s.stream_type)
            &&& ntg_stream_device_enum::of_value(read_i32(packet(e), 13)) == Some(s.device)
        },
        e matches NtgEvent::Upgrade(u) ==> {
            &&& packet(e)[9] == (if u.media_state.muted { 1u8 } else { 0u8 })
            &&& packet(e)[10] == (if u.media_state.video_paused { 1u8 } else { 0u8 })
            &&& packet(e)[11] == (if u.media_state.video_stopped { 1u8 } else { 0u8 })
            &&& packet(e)[12] == (if u.media_state.presentation_paused { 1u8 } else { 0u8 })
        },
        e matches NtgEvent::Connection(c) ==> {
            &&& crate::enums::ntg_connection_kind_enum::of_value(read_i32(packet(e), 9)) == Some(c.network_info.kind)
            &&& crate::enums::ntg_connection_state_enum::of_value(read_i32(packet(e), 13)) == Some(c.network_info.state)
        },
        e matches NtgEvent::Frame(f) ==> {
            let p = packet(e);
            let n = f.frame.data@.len() as int;
            &&& ntg_stream_mode_enum::of_value(read_i32(p, 9)) == Some(f.stream_mode)
            &&& ntg_stream_device_enum::of_value(read_i32(p, 13)) == Some(f.device)
            &&& read_i64(p, 17) == f.frame.ssrc
            &&& read_i64(p, 29 + n) == f.frame.frame_data.absolute_capture_timestamp_ms
            &&& read_u16(p, 37 + n) == f.frame.frame_data.width
            &&& read_u16(p, 39 + n) == f.frame.frame_data.height
            &&& read_u16(p, 41 + n) == f.frame.frame_data.rotation
            &&& read_u64(p, 43 + n) == f.frame_count
        },
        e matches NtgEvent::RemoteSource(r) ==> {
            let p = packet(e);
            &&& read_u32(p, 9) == r.remote_source.ssrc
            &&& crate::enums::ntg_stream_status_enum::of_value(read_i32(p, 13)) == Some(r.remote_source.state)
            &&& ntg_stream_device_enum::of_value(read_i32(p, 17)) == Some(r.remote_source.device)
        },
        e matches NtgEvent::BroadcastPart(b) ==> {
            let p = packet(e);
            &&& read_i64(p, 9) == b.request.segment_id
            &&& read_i32(p, 17) == b.request.part_id
            &&& read_i32(p, 21) == b.request.limit
            &&& read_i64(p, 25) == b.request.timestamp
            &&& p[33] == (if b.request.quality_update { 1u8 } else { 0u8 })
            &&& read_i32(p, 34) == b.request.channel_id
            &&& crate::enums::ntg_media_segment_quality_enum::of_value(read_i32(p, 38)) == Some(b.request.quality)
        },
{
    lemma_auto_spec_u16_to_from_le_bytes();
    lemma_auto_spec_u32_to_from_le_bytes();
    lemma_auto_spec_u64_to_from_le_bytes();
    lemma_i64_round_trip(chat_of(e));
    let p = packet(e);
    assert(p.subrange(1, 9) == le_i64(chat_of(e)));
    match e {
        NtgEvent::Stream(s) => {
            assert(p.subrange(9, 13) == le_i32(s.stream_type.value()));
            lemma_i32_round_trip(s.stream_type.value());
            assert(p.subrange(13, 17) == le_i32(s.device.value()));
            lemma_i32_round_trip(s.device.value());
            s.stream_type.lemma_value_round_trip(s.stream_type);
            s.device.lemma_value_round_trip(s.device);
        },
        NtgEvent::Upgrade(u) => {},
        NtgEvent::Connection(c) => {
            assert(p.subrange(9, 13) == le_i32(c.network_info.kind.value()));
            lemma_i32_round_trip(c.network_info.kind.value());
            assert(p.subrange(13, 17) == le_i32(c.network_info.state.value()));
            lemma_i32_round_trip(c.network_info.state.value());
            c.network_info.kind.lemma_value_round_trip(c.network_info.kind);
            c.network_info.state.lemma_value_round_trip(c.network_info.state);
        },
        NtgEvent::Signaling(_) => {},
        NtgEvent::Frame(f) => {
            let n = f.frame.data@.len() as int;
            let fd = f.frame.frame_data;
            assert(p.subrange(9, 13) == le_i32(f.stream_mode.value()));
            lemma_i32_round_trip(f.stream_mode.value());
            assert(p.subrange(13, 17) == le_i32(f.device.value()));
            lemma_i32_round_trip(f.device.value());
            assert(p.subrange(17, 25) == le_i64(f.frame.ssrc));
            lemma_i64_round_trip(f.frame.ssrc);
            assert(p.subrange(29 + n, 37 + n) == le_i64(fd.absolute_capture_timestamp_ms));
            lemma_i64_round_trip(fd.absolute_capture_timestamp_ms);
            assert(p.subrange(37 + n, 39 + n) == spec_u16_to_le_bytes(fd.width));
            assert(p.subrange(39 + n, 41 + n) == spec_u16_to_le_bytes(fd.height));
            assert(p.subrange(41 + n, 43 + n) == spec_u16_to_le_bytes(fd.rotation));
            assert(p.subrange(43 + n, 51 + n) == spec_u64_to_le_bytes(f.frame_count));
            f.stream_mode.lemma_value_round_trip(f.stream_mode);
            f.device.lemma_value_round_trip(f.device);
        },
        NtgEvent::RemoteSource(r) => {
            assert(p.subrange(9, 13) == spec_u32_to_le_bytes(r.remote_source.ssrc));
            assert(p.subrange(13, 17) == le_i32(r.remote_source.state.value()));
            lemma_i32_round_trip(r.remote_source.state.value());
            assert(p.subrange(17, 21) == le_i32(r.remote_source.device.value()));
            lemma_i32_round_trip(r.remote_source.device.value());
            r.remote_source.state.lemma_value_round_trip(r.remote_source.state);
            r.remote_source.device.lemma_value_round_trip(r.remote_source.device);
        },
        NtgEvent::BroadcastTimestamp(_) => {},
        NtgEvent::BroadcastPart(b) => {
            let q = b.request;
            assert(p.subrange(9, 17) == le_i64(q.segment_id));
            lemma_i64_round_trip(q.segment_id);
            assert(p.subrange(17, 21) == le_i32(q.part_id));
            lemma_i32_round_trip(q.part_id);
            assert(p.subrange(21, 25) == le_i32(q.limit));
            lemma_i32_round_trip(q.limit);
            assert(p.subrange(25, 33) == le_i64(q.timestamp));
            lemma_i64_round_trip(q.timestamp);
            assert(p.subrange(34, 38) == le_i32(q.channel_id));
            lemma_i32_round_trip(q.channel_id);
            assert(p.subrange(38, 42) == le_i32(q.quality.value()));
            lemma_i32_round_trip(q.quality.value());
            q.quality.lemma_value_round_trip(q.quality);
        },
    }
}

} // verus!
