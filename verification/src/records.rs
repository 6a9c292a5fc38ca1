//! The records that travel between PHP and the engine, held as plain values.
//! Text fields are Rust strings; byte buffers are vectors; optional sub-records
//! are `Option`s.
use vstd::prelude::*;
use crate::enums::{
    ntg_connection_kind_enum, ntg_connection_state_enum, ntg_log_level_enum,
    ntg_log_source_enum, ntg_media_segment_quality_enum, ntg_media_source_enum,
    ntg_stream_device_enum, ntg_stream_status_enum,
};

verus! {

/// A text that can be handed to C as a NUL-terminated string: it holds no NUL.
pub open spec fn c_compatible(s: Seq<char>) -> bool {
    forall|i: int| 0 <= i < s.len() ==> s[i] != '\0'
}

/// Copies a byte buffer.
pub fn copy_bytes(v: &Vec<u8>) -> (r: Vec<u8>)
    ensures
        r@ == v@,
{
    let mut r: Vec<u8> = Vec::new();
    for i in 0..v.len()
        invariant
            r@ == v@.take(i as int),
    {
        r.push(v[i]);
        assert(v@.take(i + 1) == v@.take(i as int).push(v@[i as int]));
    }
    assert(v@.take(v.len() as int) == v@);
    r
}

/// Copies a list of texts.
pub fn copy_texts(v: &Vec<String>) -> (r: Vec<String>)
    ensures
        r.len() == v.len(),
        forall|i: int| 0 <= i < v.len() ==> #[trigger] r[i]@ == v[i]@,
{
    let mut r: Vec<String> = Vec::new();
    for i in 0..v.len()
        invariant
            r.len() == i,
            forall|j: int| 0 <= j < i ==> #[trigger] r[j]@ == v[j]@,
    {
        r.push(v[i].clone());
    }
    r
}

/// State of the network connection of a call.
#[derive(Clone, Copy, Debug, PartialEq, Eq, Structural)]
pub struct ntg_network_info_struct {
    pub kind: ntg_connection_kind_enum,
    pub state: ntg_connection_state_enum,
}

impl ntg_network_info_struct {
    pub fn __construct(kind: ntg_connection_kind_enum, state: ntg_connection_state_enum) -> (r: Self)
        ensures
            r.kind == kind,
            r.state == state,
    {
        ntg_network_info_struct { kind, state }
    }
}

/// Configuration of an audio stream (microphone or speaker).
#[derive(Debug)]
pub struct ntg_audio_description_struct {
    pub media_source: ntg_media_source_enum,
    pub input: String,
    pub sample_rate: u32,
    pub channel_count: u8,
    pub keep_open: bool,
}

impl ntg_audio_description_struct {
    /// Both descriptions say the same.
    pub open spec fn same_as(self, other: Self) -> bool {
        &&& self.media_source == other.media_source
        &&& self.input@ == other.input@
        &&& self.sample_rate == other.sample_rate
        &&& self.channel_count == other.channel_count
        &&& self.keep_open == other.keep_open
    }

    /// A description; the input must be passable to C.
    pub fn __construct(
        media_source: ntg_media_source_enum,
        input: String,
        sample_rate: u32,
        channel_count: u8,
        keep_open: bool,
    ) -> (r: Self)
        requires
            c_compatible(input@),
        ensures
            r.media_source == media_source,
            r.input@ == input@,
            r.sample_rate == sample_rate,
            r.channel_count == channel_count,
            r.keep_open == keep_open,
    {
        ntg_audio_description_struct { media_source, input, sample_rate, channel_count, keep_open }
    }

    /// The input (a path, a shell command or a device id).
    pub fn get_input(&self) -> (r: String)
        ensures
            r@ == self.input@,
    {
        self.input.clone()
    }

    pub fn duplicate(&self) -> (r: Self)
        ensures
            r.same_as(*self),
    {
        ntg_audio_description_struct {
            media_source: self.media_source,
            input: self.input.clone(),
            sample_rate: self.sample_rate,
            channel_count: self.channel_count,
            keep_open: self.keep_open,
        }
    }
}

/// Configuration of a video stream (camera or screen).
#[derive(Debug)]
pub struct ntg_video_description_struct {
    pub media_source: ntg_media_source_enum,
    pub input: String,
    pub width: i16,
    pub height: i16,
    pub fps: u8,
    pub keep_open: bool,
}

impl ntg_video_description_struct {
    /// Both descriptions say the same.
    pub open spec fn same_as(self, other: Self) -> bool {
        &&& self.media_source == other.media_source
        &&& self.input@ == other.input@
        &&& self.width == other.width
        &&& self.height == other.height
        &&& self.fps == other.fps
        &&& self.keep_open == other.keep_open
    }

    /// A description; the input must be passable to C.
    pub fn __construct(
        media_source: ntg_media_source_enum,
        input: String,
        width: i16,
        height: i16,
        fps: u8,
        keep_open: bool,
    ) -> (r: Self)
        requires
            c_compatible(input@),
        ensures
            r.media_source == media_source,
            r.input@ == input@,
            r.width == width,
            r.height == height,
            r.fps == fps,
            r.keep_open == keep_open,
    {
        ntg_video_description_struct { media_source, input, width, height, fps, keep_open }
    }

    /// The input (a path, a shell command or a device id).
    pub fn get_input(&self) -> (r: String)
        ensures
            r@ == self.input@,
    {
        self.input.clone()
    }

    pub fn duplicate(&self) -> (r: Self)
        ensures
            r.same_as(*self),
    {
        ntg_video_description_struct {
            media_source: self.media_source,
            input: self.input.clone(),
            width: self.width,
            height: self.height,
            fps: self.fps,
            keep_open: self.keep_open,
        }
    }
}

/// Both optional audio descriptions are absent, or present and the same.
pub open spec fn same_audio(a: Option<ntg_audio_description_struct>, b: Option<ntg_audio_description_struct>) -> bool {
    match (a, b) {
        (Some(x), Some(y)) => x.same_as(y),
        (None, None) => true,
        _ => false,
    }
}

/// Both optional video descriptions are absent, or present and the same.
pub open spec fn same_video(a: Option<ntg_video_description_struct>, b: Option<ntg_video_description_struct>) -> bool {
    match (a, b) {
        (Some(x), Some(y)) => x.same_as(y),
        (None, None) => true,
        _ => false,
    }
}

fn copy_audio(a: &Option<ntg_audio_description_struct>) -> (r: Option<ntg_audio_description_struct>)
    ensures
        same_audio(r, *a),
{
    match a {
        Some(x) => Some(x.duplicate()),
        None => None,
    }
}

fn copy_video(a: &Option<ntg_video_description_struct>) -> (r: Option<ntg_video_description_struct>)
    ensures
        same_video(r, *a),
{
    match a {
        Some(x) => Some(x.duplicate()),
        None => None,
    }
}

/// The media of a call: each of the four streams is configured or absent.
#[derive(Debug)]
pub struct ntg_media_description_struct {
    pub microphone: Option<ntg_audio_description_struct>,
    pub speaker: Option<ntg_audio_description_struct>,
    pub camera: Option<ntg_video_description_struct>,
    pub screen: Option<ntg_video_description_struct>,
}

impl ntg_media_description_struct {
    pub fn __construct(
        microphone: Option<&ntg_audio_description_struct>,
        speaker: Option<&ntg_audio_description_struct>,
        camera: Option<&ntg_video_description_struct>,
        screen: Option<&ntg_video_description_struct>,
    ) -> (r: Self)
        ensures
            same_audio(r.microphone, match microphone { Some(x) => Some(*x), None => None }),
            same_audio(r.speaker, match speaker { Some(x) => Some(*x), None => None }),
            same_video(r.camera, match camera { Some(x) => Some(*x), None => None }),
            same_video(r.screen, match screen { Some(x) => Some(*x), None => None }),
    {
        let microphone = match microphone { Some(x) => Some(x.duplicate()), None => None };
        let speaker = match speaker { Some(x) => Some(x.duplicate()), None => None };
        let camera = match camera { Some(x) => Some(x.duplicate()), None => None };
        let screen = match screen { Some(x) => Some(x.duplicate()), None => None };
        ntg_media_description_struct { microphone, speaker, camera, screen }
    }

    pub fn get_microphone(&self) -> (r: Option<ntg_audio_description_struct>)
        ensures
            same_audio(r, self.microphone),
    {
        copy_audio(&self.microphone)
    }

    pub fn get_speaker(&self) -> (r: Option<ntg_audio_description_struct>)
        ensures
            same_audio(r, self.speaker),
    {
        copy_audio(&self.speaker)
    }

    pub fn get_camera(&self) -> (r: Option<ntg_video_description_struct>)
        ensures
            same_video(r, self.camera),
    {
        copy_video(&self.camera)
    }

    pub fn get_screen(&self) -> (r: Option<ntg_video_description_struct>)
        ensures
            same_video(r, self.screen),
    {
        copy_video(&self.screen)
    }
}

/// Status of the two streams of one active call.
#[derive(Clone, Copy, Debug, PartialEq, Eq, Structural)]
pub struct ntg_call_info_struct {
    pub chat_id: i64,
    pub capture: ntg_stream_status_enum,
    pub playback: ntg_stream_status_enum,
}

impl ntg_call_info_struct {
    pub fn __construct(chat_id: i64, capture: ntg_stream_status_enum, playback: ntg_stream_status_enum) -> (r: Self)
        ensures
            r.chat_id == chat_id,
            r.capture == capture,
            r.playback == playback,
    {
        ntg_call_info_struct { chat_id, capture, playback }
    }
}

/// Muting and pausing state of a call.
#[derive(Clone, Copy, Debug, PartialEq, Eq, Structural)]
pub struct ntg_media_state_struct {
    pub muted: bool,
    pub video_paused: bool,
    pub video_stopped: bool,
    pub presentation_paused: bool,
}

impl ntg_media_state_struct {
    pub fn __construct(muted: bool, video_paused: bool, video_stopped: bool, presentation_paused: bool) -> (r: Self)
        ensures
            r.muted == muted,
            r.video_paused == video_paused,
            r.video_stopped == video_stopped,
            r.presentation_paused == presentation_paused,
    {
        ntg_media_state_struct { muted, video_paused, video_stopped, presentation_paused }
    }
}

/// A relay or STUN/TURN server offered for a private call.
#[derive(Debug)]
pub struct ntg_rtc_server_struct {
    pub id: u64,
    pub ipv4: String,
    pub ipv6: String,
    pub username: String,
    pub password: String,
    pub port: u16,
    pub turn: bool,
    pub stun: bool,
    pub tcp: bool,
    pub peer_tag: Vec<u8>,
}

impl ntg_rtc_server_struct {
    /// A server; the four texts must be passable to C.
    pub fn __construct(
        id: u64,
        ipv4: String,
        ipv6: String,
        port: u16,
        turn: bool,
        stun: bool,
        tcp: bool,
        username: String,
        password: String,
        peer_tag: Vec<u8>,
    ) -> (r: Self)
        requires
            c_compatible(ipv4@),
            c_compatible(ipv6@),
            c_compatible(username@),
            c_compatible(password@),
        ensures
            r.id == id,
            r.ipv4@ == ipv4@,
            r.ipv6@ == ipv6@,
            r.port == port,
            r.turn == turn,
            r.stun == stun,
            r.tcp == tcp,
            r.username@ == username@,
            r.password@ == password@,
            r.peer_tag@ == peer_tag@,
    {
        ntg_rtc_server_struct { id, ipv4, ipv6, username, password, port, turn, stun, tcp, peer_tag }
    }

    pub fn get_ipv4(&self) -> (r: String)
        ensures
            r@ == self.ipv4@,
    {
        self.ipv4.clone()
    }

    pub fn get_ipv6(&self) -> (r: String)
        ensures
            r@ == self.ipv6@,
    {
        self.ipv6.clone()
    }

    pub fn get_username(&self) -> (r: String)
        ensures
            r@ == self.username@,
    {
        self.username.clone()
    }

    pub fn get_password(&self) -> (r: String)
        ensures
            r@ == self.password@,
    {
        self.password.clone()
    }

    pub fn get_peer_tag(&self) -> (r: Vec<u8>)
        ensures
            r@ == self.peer_tag@,
    {
        copy_bytes(&self.peer_tag)
    }
}

/// The call protocol that the engine speaks.
#[derive(Debug)]
pub struct ntg_protocol_struct {
    pub min_layer: i32,
    pub max_layer: i32,
    pub udp_p2p: bool,
    pub udp_reflector: bool,
    pub library_versions: Vec<String>,
}

impl ntg_protocol_struct {
    /// A protocol description; every version text must be passable to C.
    pub fn __construct(
        min_layer: i32,
        max_layer: i32,
        udp_p2p: bool,
        udp_reflector: bool,
        library_versions: Vec<String>,
    ) -> (r: Self)
        requires
            forall|i: int| 0 <= i < library_versions.len() ==> c_compatible(#[trigger] library_versions[i]@),
        ensures
            r.min_layer == min_layer,
            r.max_layer == max_layer,
            r.udp_p2p == udp_p2p,
            r.udp_reflector == udp_reflector,
            r.library_versions.len() == library_versions.len(),
            forall|i: int| 0 <= i < library_versions.len() ==> #[trigger] r.library_versions[i]@ == library_versions[i]@,
    {
        ntg_protocol_struct { min_layer, max_layer, udp_p2p, udp_reflector, library_versions }
    }

    pub fn get_library_versions(&self) -> (r: Vec<String>)
        ensures
            r.len() == self.library_versions.len(),
            forall|i: int| 0 <= i < r.len() ==> #[trigger] r[i]@ == self.library_versions[i]@,
    {
        copy_texts(&self.library_versions)
    }
}

/// Diffie-Hellman parameters for the key exchange of a private call.
#[derive(Debug)]
pub struct ntg_dh_config_struct {
    pub g: i32,
    pub p: Vec<u8>,
    pub random: Vec<u8>,
}

impl ntg_dh_config_struct {
    pub fn __construct(g: i32, p: Vec<u8>, random: Vec<u8>) -> (r: Self)
        ensures
            r.g == g,
            r.p@ == p@,
            r.random@ == random@,
    {
        ntg_dh_config_struct { g, p, random }
    }

    pub fn get_p(&self) -> (r: Vec<u8>)
        ensures
            r@ == self.p@,
    {
        copy_bytes(&self.p)
    }

    pub fn get_random(&self) -> (r: Vec<u8>)
        ensures
            r@ == self.random@,
    {
        copy_bytes(&self.random)
    }
}

/// Metadata of one video frame.
#[derive(Clone, Copy, Debug, PartialEq, Eq, Structural)]
pub struct ntg_frame_data_struct {
    pub absolute_capture_timestamp_ms: i64,
    pub width: u16,
    pub height: u16,
    pub rotation: u16,
}

impl ntg_frame_data_struct {
    pub fn __construct(absolute_capture_timestamp_ms: i64, width: u16, height: u16, rotation: u16) -> (r: Self)
        ensures
            r.absolute_capture_timestamp_ms == absolute_capture_timestamp_ms,
            r.width == width,
            r.height == height,
            r.rotation == rotation,
    {
        ntg_frame_data_struct { absolute_capture_timestamp_ms, width, height, rotation }
    }
}

/// A media source of a remote participant.
#[derive(Clone, Copy, Debug, PartialEq, Eq, Structural)]
pub struct ntg_remote_source_struct {
    pub ssrc: u32,
    pub state: ntg_stream_status_enum,
    pub device: ntg_stream_device_enum,
}

impl ntg_remote_source_struct {
    pub fn __construct(ssrc: u32, state: ntg_stream_status_enum, device: ntg_stream_device_enum) -> (r: Self)
        ensures
            r.ssrc == ssrc,
            r.state == state,
            r.device == device,
    {
        ntg_remote_source_struct { ssrc, state, device }
    }
}

/// A group of synchronisation-source identifiers with its semantics.
#[derive(Debug)]
pub struct ntg_ssrc_group_struct {
    pub semantics: String,
    pub ssrcs: Vec<u32>,
}

impl ntg_ssrc_group_struct {
    /// A group; each identifier is kept as its low 32 bits.
    pub fn __construct(semantics: String, ssrcs: Vec<i64>) -> (r: Self)
        requires
            c_compatible(semantics@),
        ensures
            r.semantics@ == semantics@,
            r.ssrcs@ == ssrcs@.map_values(|x: i64| x as u32),
    {
        let mut out: Vec<u32> = Vec::new();
        for i in 0..ssrcs.len()
            invariant
                out@ == ssrcs@.take(i as int).map_values(|x: i64| x as u32),
        {
            out.push(ssrcs[i] as u32);
            assert(ssrcs@.take(i + 1) == ssrcs@.take(i as int).push(ssrcs@[i as int]));
        }
        assert(ssrcs@.take(ssrcs.len() as int) == ssrcs@);
        ntg_ssrc_group_struct { semantics, ssrcs: out }
    }

    pub fn get_semantics(&self) -> (r: String)
        ensures
            r@ == self.semantics@,
    {
        self.semantics.clone()
    }

    pub fn get_ssrcs(&self) -> (r: Vec<u32>)
        ensures
            r@ == self.ssrcs@,
    {
        let mut r: Vec<u32> = Vec::new();
        for i in 0..self.ssrcs.len()
            invariant
                r@ == self.ssrcs@.take(i as int),
        {
            r.push(self.ssrcs[i]);
            assert(self.ssrcs@.take(i + 1) == self.ssrcs@.take(i as int).push(self.ssrcs@[i as int]));
        }
        assert(self.ssrcs@.take(self.ssrcs.len() as int) == self.ssrcs@);
        r
    }
}

/// A media device known to the engine.
#[derive(Debug)]
pub struct ntg_device_info_struct {
    pub name: String,
    pub metadata: String,
}

impl ntg_device_info_struct {
    /// Both records name the same device.
    pub open spec fn same_as(self, other: Self) -> bool {
        self.name@ == other.name@ && self.metadata@ == other.metadata@
    }

    /// A device record; both texts must be passable to C.
    pub fn __construct(name: String, metadata: String) -> (r: Self)
        requires
            c_compatible(name@),
            c_compatible(metadata@),
        ensures
            r.name@ == name@,
            r.metadata@ == metadata@,
    {
        ntg_device_info_struct { name, metadata }
    }

    pub fn get_name(&self) -> (r: String)
        ensures
            r@ == self.name@,
    {
        self.name.clone()
    }

    pub fn get_metadata(&self) -> (r: String)
        ensures
            r@ == self.metadata@,
    {
        self.metadata.clone()
    }

    pub fn duplicate(&self) -> (r: Self)
        ensures
            r.same_as(*self),
    {
        ntg_device_info_struct { name: self.name.clone(), metadata: self.metadata.clone() }
    }
}

/// Both device lists hold the same devices in the same order.
pub open spec fn same_devices(a: Seq<ntg_device_info_struct>, b: Seq<ntg_device_info_struct>) -> bool {
    a.len() == b.len() && forall|i: int| 0 <= i < a.len() ==> #[trigger] a[i].same_as(b[i])
}

/// The list that holds the given device, or no device.
pub open spec fn devices_of(d: Option<ntg_device_info_struct>) -> Seq<ntg_device_info_struct> {
    match d {
        Some(x) => seq![x],
        None => Seq::empty(),
    }
}

fn copy_devices(v: &Vec<ntg_device_info_struct>) -> (r: Vec<ntg_device_info_struct>)
    ensures
        same_devices(r@, v@),
{
    let mut r: Vec<ntg_device_info_struct> = Vec::new();
    for i in 0..v.len()
        invariant
            r.len() == i,
            forall|j: int| 0 <= j < i ==> #[trigger] r@[j].same_as(v@[j]),
    {
        r.push(v[i].duplicate());
    }
    r
}

fn device_list(d: Option<ntg_device_info_struct>) -> (r: Vec<ntg_device_info_struct>)
    ensures
        r@ == devices_of(d),
{
    match d {
        Some(x) => {
            let mut r = Vec::new();
            r.push(x);
            r
        },
        None => Vec::new(),
    }
}

/// The media devices of the machine, by kind.
#[derive(Debug)]
pub struct ntg_media_devices_struct {
    pub microphone: Vec<ntg_device_info_struct>,
    pub speaker: Vec<ntg_device_info_struct>,
    pub camera: Vec<ntg_device_info_struct>,
    pub screen: Vec<ntg_device_info_struct>,
}

impl ntg_media_devices_struct {
    /// A device listing with at most one device of each kind.
    pub fn __construct(
        microphone: Option<ntg_device_info_struct>,
        speaker: Option<ntg_device_info_struct>,
        camera: Option<ntg_device_info_struct>,
        screen: Option<ntg_device_info_struct>,
    ) -> (r: Self)
        ensures
            r.microphone@ == devices_of(microphone),
            r.speaker@ == devices_of(speaker),
            r.camera@ == devices_of(camera),
            r.screen@ == devices_of(screen),
    {
        ntg_media_devices_struct {
            microphone: device_list(microphone),
            speaker: device_list(speaker),
            camera: device_list(camera),
            screen: device_list(screen),
        }
    }

    pub fn get_microphone(&self) -> (r: Vec<ntg_device_info_struct>)
        ensures
            same_devices(r@, self.microphone@),
    {
        copy_devices(&self.microphone)
    }

    pub fn get_speaker(&self) -> (r: Vec<ntg_device_info_struct>)
        ensures
            same_devices(r@, self.speaker@),
    {
        copy_devices(&self.speaker)
    }

    pub fn get_camera(&self) -> (r: Vec<ntg_device_info_struct>)
        ensures
            same_devices(r@, self.camera@),
    {
        copy_devices(&self.camera)
    }

    pub fn get_screen(&self) -> (r: Vec<ntg_device_info_struct>)
        ensures
            same_devices(r@, self.screen@),
    {
        copy_devices(&self.screen)
    }
}

/// One video frame: its source, its bytes and its metadata.
#[derive(Debug)]
pub struct ntg_frame_struct {
    pub ssrc: i64,
    pub data: Vec<u8>,
    pub frame_data: ntg_frame_data_struct,
}

impl ntg_frame_struct {
    pub fn __construct(ssrc: i64, data: Vec<u8>, frame_data: &ntg_frame_data_struct) -> (r: Self)
        ensures
            r.ssrc == ssrc,
            r.data@ == data@,
            r.frame_data == *frame_data,
    {
        ntg_frame_struct { ssrc, data, frame_data: *frame_data }
    }

    pub fn get_data(&self) -> (r: Vec<u8>)
        ensures
            r@ == self.data@,
    {
        copy_bytes(&self.data)
    }

    pub fn get_frame_data(&self) -> (r: ntg_frame_data_struct)
        ensures
            r == self.frame_data,
    {
        self.frame_data
    }
}

/// A request of the engine for one part of a broadcast segment.
#[derive(Clone, Copy, Debug, PartialEq, Eq, Structural)]
pub struct ntg_segment_part_request_struct {
    pub segment_id: i64,
    pub part_id: i32,
    pub limit: i32,
    pub timestamp: i64,
    pub quality_update: bool,
    pub channel_id: i32,
    pub quality: ntg_media_segment_quality_enum,
}

impl ntg_segment_part_request_struct {
    pub fn __construct(
        segment_id: i64,
        part_id: i32,
        limit: i32,
        timestamp: i64,
        quality_update: bool,
        channel_id: i32,
        quality: ntg_media_segment_quality_enum,
    ) -> (r: Self)
        ensures
            r == (ntg_segment_part_request_struct {
                segment_id, part_id, limit, timestamp, quality_update, channel_id, quality,
            }),
    {
        ntg_segment_part_request_struct { segment_id, part_id, limit, timestamp, quality_update, channel_id, quality }
    }
}

/// The result of a key exchange: the peer's public value and the key fingerprint.
#[derive(Debug)]
pub struct ntg_auth_params_struct {
    pub g_a_or_b: Vec<u8>,
    pub key_fingerprint: i64,
}

impl ntg_auth_params_struct {
    pub fn __construct(g_a_or_b: Vec<u8>, key_fingerprint: i64) -> (r: Self)
        ensures
            r.g_a_or_b@ == g_a_or_b@,
            r.key_fingerprint == key_fingerprint,
    {
        ntg_auth_params_struct { g_a_or_b, key_fingerprint }
    }

    pub fn get_g_a_or_b(&self) -> (r: Vec<u8>)
        ensures
            r@ == self.g_a_or_b@,
    {
        copy_bytes(&self.g_a_or_b)
    }
}

/// One log message of the engine.
#[derive(Debug)]
pub struct ntg_log_message_struct {
    pub level: ntg_log_level_enum,
    pub source: ntg_log_source_enum,
    pub file: String,
    pub line: u32,
    pub message: String,
}

impl ntg_log_message_struct {
    /// A log message; file and message must be passable to C.
    pub fn __construct(
        level: ntg_log_level_enum,
        source: ntg_log_source_enum,
        file: String,
        line: u32,
        message: String,
    ) -> (r: Self)
        requires
            c_compatible(file@),
            c_compatible(message@),
        ensures
            r.level == level,
            r.source == source,
            r.file@ == file@,
            r.line == line,
            r.message@ == message@,
    {
        ntg_log_message_struct { level, source, file, line, message }
    }
}

} // verus!
