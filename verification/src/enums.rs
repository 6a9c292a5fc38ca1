//! The engine's enumerations, each with the integer value that the C interface
//! gives it, and the conversion back from that value.
use vstd::prelude::*;

verus! {
/// Result codes that the engine reports.
#[derive(Clone, Copy, Debug, PartialEq, Eq, Structural)]
pub enum ntg_error_code_enum {
    NTG_ERROR_CONNECTION_NOT_FOUND,
    NTG_ERROR_CRYPTO,
    NTG_ERROR_SIGNALING,
    NTG_ERROR_SIGNALING_UNSUPPORTED,
    NTG_ERROR_INVALID_PARAMS,
    NTG_ERROR_FILE,
    NTG_ERROR_FFMPEG,
    NTG_ERROR_SHELL,
    NTG_ERROR_MEDIA_DEVICE,
    NTG_ERROR_RTMP_STREAMING_UNSUPPORTED,
    NTG_ERROR_PARSE_TRANSPORT,
    NTG_ERROR_CONNECTION,
    NTG_ERROR_TELEGRAM_SERVER,
    NTG_ERROR_WEBRTC,
    NTG_ERROR_PARSE_SDP,
    NTG_ERROR_RTC_CONNECTION_NEEDED,
    NTG_ERROR_UNKNOWN,
    NTG_ERROR_NULL_POINTER,
    NTG_ERROR_TOO_SMALL,
    NTG_ERROR_ASYNC_NOT_READY,
}

impl ntg_error_code_enum {

    /// The C value of each variant is the constant of the engine's C header,
    /// reading that constant gives the variant back, and no other value reads as
    /// a variant.
    pub proof fn lemma_c_constants(c: i32)
        ensures
            Self::of_value(c) matches Some(v) ==> v.value() == c,
            ntg_error_code_enum::NTG_ERROR_CONNECTION_NOT_FOUND.value() == -101i32,
            Self::of_value(-101i32) == Some(ntg_error_code_enum::NTG_ERROR_CONNECTION_NOT_FOUND),
            ntg_error_code_enum::NTG_ERROR_CRYPTO.value() == -102i32,
            Self::of_value(-102i32) == Some(ntg_error_code_enum::NTG_ERROR_CRYPTO),
            ntg_error_code_enum::NTG_ERROR_SIGNALING.value() == -104i32,
            Self::of_value(-104i32) == Some(ntg_error_code_enum::NTG_ERROR_SIGNALING),
            ntg_error_code_enum::NTG_ERROR_SIGNALING_UNSUPPORTED.value() == -105i32,
            Self::of_value(-105i32) == Some(ntg_error_code_enum::NTG_ERROR_SIGNALING_UNSUPPORTED),
            ntg_error_code_enum::NTG_ERROR_INVALID_PARAMS.value() == -106i32,
            Self::of_value(-106i32) == Some(ntg_error_code_enum::NTG_ERROR_INVALID_PARAMS),
            ntg_error_code_enum::NTG_ERROR_FILE.value() == -200i32,
            Self::of_value(-200i32) == Some(ntg_error_code_enum::NTG_ERROR_FILE),
            ntg_error_code_enum::NTG_ERROR_FFMPEG.value() == -202i32,
            Self::of_value(-202i32) == Some(ntg_error_code_enum::NTG_ERROR_FFMPEG),
            ntg_error_code_enum::NTG_ERROR_SHELL.value() == -203i32,
            Self::of_value(-203i32) == Some(ntg_error_code_enum::NTG_ERROR_SHELL),
            ntg_error_code_enum::NTG_ERROR_MEDIA_DEVICE.value() == -204i32,
            Self::of_value(-204i32) == Some(ntg_error_code_enum::NTG_ERROR_MEDIA_DEVICE),
            ntg_error_code_enum::NTG_ERROR_RTMP_STREAMING_UNSUPPORTED.value() == -300i32,
            Self::of_value(-300i32) == Some(ntg_error_code_enum::NTG_ERROR_RTMP_STREAMING_UNSUPPORTED),
            ntg_error_code_enum::NTG_ERROR_PARSE_TRANSPORT.value() == -301i32,
            Self::of_value(-301i32) == Some(ntg_error_code_enum::NTG_ERROR_PARSE_TRANSPORT),
            ntg_error_code_enum::NTG_ERROR_CONNECTION.value() == -302i32,
            Self::of_value(-302i32) == Some(ntg_error_code_enum::NTG_ERROR_CONNECTION),
            ntg_error_code_enum::NTG_ERROR_TELEGRAM_SERVER.value() == -303i32,
            Self::of_value(-303i32) == Some(ntg_error_code_enum::NTG_ERROR_TELEGRAM_SERVER),
            ntg_error_code_enum::NTG_ERROR_WEBRTC.value() == -304i32,
            Self::of_value(-304i32) == Some(ntg_error_code_enum::NTG_ERROR_WEBRTC),
            ntg_error_code_enum::NTG_ERROR_PARSE_SDP.value() == -305i32,
            Self::of_value(-305i32) == Some(ntg_error_code_enum::NTG_ERROR_PARSE_SDP),
            ntg_error_code_enum::NTG_ERROR_RTC_CONNECTION_NEEDED.value() == -306i32,
            Self::of_value(-306i32) == Some(ntg_error_code_enum::NTG_ERROR_RTC_CONNECTION_NEEDED),
            ntg_error_code_enum::NTG_ERROR_UNKNOWN.value() == -1i32,
            Self::of_value(-1i32) == Some(ntg_error_code_enum::NTG_ERROR_UNKNOWN),
            ntg_error_code_enum::NTG_ERROR_NULL_POINTER.value() == -2i32,
            Self::of_value(-2i32) == Some(ntg_error_code_enum::NTG_ERROR_NULL_POINTER),
            ntg_error_code_enum::NTG_ERROR_TOO_SMALL.value() == -3i32,
            Self::of_value(-3i32) == Some(ntg_error_code_enum::NTG_ERROR_TOO_SMALL),
            ntg_error_code_enum::NTG_ERROR_ASYNC_NOT_READY.value() == -4i32,
            Self::of_value(-4i32) == Some(ntg_error_code_enum::NTG_ERROR_ASYNC_NOT_READY),
    {
    }

    /// The value that the C interface uses for this variant.
    pub open spec fn value(self) -> i32 {
        match self {
            ntg_error_code_enum::NTG_ERROR_CONNECTION_NOT_FOUND => -101i32,
            ntg_error_code_enum::NTG_ERROR_CRYPTO => -102i32,
            ntg_error_code_enum::NTG_ERROR_SIGNALING => -104i32,
            ntg_error_code_enum::NTG_ERROR_SIGNALING_UNSUPPORTED => -105i32,
            ntg_error_code_enum::NTG_ERROR_INVALID_PARAMS => -106i32,
            ntg_error_code_enum::NTG_ERROR_FILE => -200i32,
            ntg_error_code_enum::NTG_ERROR_FFMPEG => -202i32,
            ntg_error_code_enum::NTG_ERROR_SHELL => -203i32,
            ntg_error_code_enum::NTG_ERROR_MEDIA_DEVICE => -204i32,
            ntg_error_code_enum::NTG_ERROR_RTMP_STREAMING_UNSUPPORTED => -300i32,
            ntg_error_code_enum::NTG_ERROR_PARSE_TRANSPORT => -301i32,
            ntg_error_code_enum::NTG_ERROR_CONNECTION => -302i32,
            ntg_error_code_enum::NTG_ERROR_TELEGRAM_SERVER => -303i32,
            ntg_error_code_enum::NTG_ERROR_WEBRTC => -304i32,
            ntg_error_code_enum::NTG_ERROR_PARSE_SDP => -305i32,
            ntg_error_code_enum::NTG_ERROR_RTC_CONNECTION_NEEDED => -306i32,
            ntg_error_code_enum::NTG_ERROR_UNKNOWN => -1i32,
            ntg_error_code_enum::NTG_ERROR_NULL_POINTER => -2i32,
            ntg_error_code_enum::NTG_ERROR_TOO_SMALL => -3i32,
            ntg_error_code_enum::NTG_ERROR_ASYNC_NOT_READY => -4i32,
        }
    }

    /// The variant whose C value is `c`, if there is one.
    pub open spec fn of_value(c: i32) -> Option<Self> {
        match c {
            -101 => Some(ntg_error_code_enum::NTG_ERROR_CONNECTION_NOT_FOUND),
            -102 => Some(ntg_error_code_enum::NTG_ERROR_CRYPTO),
            -104 => Some(ntg_error_code_enum::NTG_ERROR_SIGNALING),
            -105 => Some(ntg_error_code_enum::NTG_ERROR_SIGNALING_UNSUPPORTED),
            -106 => Some(ntg_error_code_enum::NTG_ERROR_INVALID_PARAMS),
            -200 => Some(ntg_error_code_enum::NTG_ERROR_FILE),
            -202 => Some(ntg_error_code_enum::NTG_ERROR_FFMPEG),
            -203 => Some(ntg_error_code_enum::NTG_ERROR_SHELL),
            -204 => Some(ntg_error_code_enum::NTG_ERROR_MEDIA_DEVICE),
            -300 => Some(ntg_error_code_enum::NTG_ERROR_RTMP_STREAMING_UNSUPPORTED),
            -301 => Some(ntg_error_code_enum::NTG_ERROR_PARSE_TRANSPORT),
            -302 => Some(ntg_error_code_enum::NTG_ERROR_CONNECTION),
            -303 => Some(ntg_error_code_enum::NTG_ERROR_TELEGRAM_SERVER),
            -304 => Some(ntg_error_code_enum::NTG_ERROR_WEBRTC),
            -305 => Some(ntg_error_code_enum::NTG_ERROR_PARSE_SDP),
            -306 => Some(ntg_error_code_enum::NTG_ERROR_RTC_CONNECTION_NEEDED),
            -1 => Some(ntg_error_code_enum::NTG_ERROR_UNKNOWN),
            -2 => Some(ntg_error_code_enum::NTG_ERROR_NULL_POINTER),
            -3 => Some(ntg_error_code_enum::NTG_ERROR_TOO_SMALL),
            -4 => Some(ntg_error_code_enum::NTG_ERROR_ASYNC_NOT_READY),
            _ => None,
        }
    }

    /// The C value of this variant.
    pub fn code(&self) -> (c: i32)
        ensures
            c == self.value(),
    {
        match self {
            ntg_error_code_enum::NTG_ERROR_CONNECTION_NOT_FOUND => -101,
            ntg_error_code_enum::NTG_ERROR_CRYPTO => -102,
            ntg_error_code_enum::NTG_ERROR_SIGNALING => -104,
            ntg_error_code_enum::NTG_ERROR_SIGNALING_UNSUPPORTED => -105,
            ntg_error_code_enum::NTG_ERROR_INVALID_PARAMS => -106,
            ntg_error_code_enum::NTG_ERROR_FILE => -200,
            ntg_error_code_enum::NTG_ERROR_FFMPEG => -202,
            ntg_error_code_enum::NTG_ERROR_SHELL => -203,
            ntg_error_code_enum::NTG_ERROR_MEDIA_DEVICE => -204,
            ntg_error_code_enum::NTG_ERROR_RTMP_STREAMING_UNSUPPORTED => -300,
            ntg_error_code_enum::NTG_ERROR_PARSE_TRANSPORT => -301,
            ntg_error_code_enum::NTG_ERROR_CONNECTION => -302,
            ntg_error_code_enum::NTG_ERROR_TELEGRAM_SERVER => -303,
            ntg_error_code_enum::NTG_ERROR_WEBRTC => -304,
            ntg_error_code_enum::NTG_ERROR_PARSE_SDP => -305,
            ntg_error_code_enum::NTG_ERROR_RTC_CONNECTION_NEEDED => -306,
            ntg_error_code_enum::NTG_ERROR_UNKNOWN => -1,
            ntg_error_code_enum::NTG_ERROR_NULL_POINTER => -2,
            ntg_error_code_enum::NTG_ERROR_TOO_SMALL => -3,
            ntg_error_code_enum::NTG_ERROR_ASYNC_NOT_READY => -4,
        }
    }

    /// The variant with C value `c`; `None` for a value that no variant has.
    pub fn from_code(c: i32) -> (r: Option<Self>)
        ensures
            r == Self::of_value(c),
    {
        match c {
            -101 => Some(ntg_error_code_enum::NTG_ERROR_CONNECTION_NOT_FOUND),
            -102 => Some(ntg_error_code_enum::NTG_ERROR_CRYPTO),
            -104 => Some(ntg_error_code_enum::NTG_ERROR_SIGNALING),
            -105 => Some(ntg_error_code_enum::NTG_ERROR_SIGNALING_UNSUPPORTED),
            -106 => Some(ntg_error_code_enum::NTG_ERROR_INVALID_PARAMS),
            -200 => Some(ntg_error_code_enum::NTG_ERROR_FILE),
            -202 => Some(ntg_error_code_enum::NTG_ERROR_FFMPEG),
            -203 => Some(ntg_error_code_enum::NTG_ERROR_SHELL),
            -204 => Some(ntg_error_code_enum::NTG_ERROR_MEDIA_DEVICE),
            -300 => Some(ntg_error_code_enum::NTG_ERROR_RTMP_STREAMING_UNSUPPORTED),
            -301 => Some(ntg_error_code_enum::NTG_ERROR_PARSE_TRANSPORT),
            -302 => Some(ntg_error_code_enum::NTG_ERROR_CONNECTION),
            -303 => Some(ntg_error_code_enum::NTG_ERROR_TELEGRAM_SERVER),
            -304 => Some(ntg_error_code_enum::NTG_ERROR_WEBRTC),
            -305 => Some(ntg_error_code_enum::NTG_ERROR_PARSE_SDP),
            -306 => Some(ntg_error_code_enum::NTG_ERROR_RTC_CONNECTION_NEEDED),
            -1 => Some(ntg_error_code_enum::NTG_ERROR_UNKNOWN),
            -2 => Some(ntg_error_code_enum::NTG_ERROR_NULL_POINTER),
            -3 => Some(ntg_error_code_enum::NTG_ERROR_TOO_SMALL),
            -4 => Some(ntg_error_code_enum::NTG_ERROR_ASYNC_NOT_READY),
            _ => None,
        }
    }

    /// Reading back the C value of a variant gives that variant; distinct variants
    /// have distinct values.
    pub proof fn lemma_value_round_trip(self, other: Self)
        ensures
            Self::of_value(self.value()) == Some(self),
            self.value() == other.value() ==> self == other,
    {
    }
}

/// Where a stream's media comes from (bit flags).
#[derive(Clone, Copy, Debug, PartialEq, Eq, Structural)]
pub enum ntg_media_source_enum {
    NTG_FILE,
    NTG_SHELL,
    NTG_FFMPEG,
    NTG_DEVICE,
    NTG_DESKTOP,
    NTG_EXTERNAL,
}

impl ntg_media_source_enum {

    /// The C value of each variant is the constant of the engine's C header,
    /// reading that constant gives the variant back, and no other value reads as
    /// a variant.
    pub proof fn lemma_c_constants(c: i32)
        ensures
            Self::of_value(c) matches Some(v) ==> v.value() == c,
            ntg_media_source_enum::NTG_FILE.value() == 1i32,
            Self::of_value(1i32) == Some(ntg_media_source_enum::NTG_FILE),
            ntg_media_source_enum::NTG_SHELL.value() == 2i32,
            Self::of_value(2i32) == Some(ntg_media_source_enum::NTG_SHELL),
            ntg_media_source_enum::NTG_FFMPEG.value() == 4i32,
            Self::of_value(4i32) == Some(ntg_media_source_enum::NTG_FFMPEG),
            ntg_media_source_enum::NTG_DEVICE.value() == 8i32,
            Self::of_value(8i32) == Some(ntg_media_source_enum::NTG_DEVICE),
            ntg_media_source_enum::NTG_DESKTOP.value() == 16i32,
            Self::of_value(16i32) == Some(ntg_media_source_enum::NTG_DESKTOP),
            ntg_media_source_enum::NTG_EXTERNAL.value() == 32i32,
            Self::of_value(32i32) == Some(ntg_media_source_enum::NTG_EXTERNAL),
    {
    }

    /// The value that the C interface uses for this variant.
    pub open spec fn value(self) -> i32 {
        match self {
            ntg_media_source_enum::NTG_FILE => 1i32,
            ntg_media_source_enum::NTG_SHELL => 2i32,
            ntg_media_source_enum::NTG_FFMPEG => 4i32,
            ntg_media_source_enum::NTG_DEVICE => 8i32,
            ntg_media_source_enum::NTG_DESKTOP => 16i32,
            ntg_media_source_enum::NTG_EXTERNAL => 32i32,
        }
    }

    /// The variant whose C value is `c`, if there is one.
    pub open spec fn of_value(c: i32) -> Option<Self> {
        match c {
            1 => Some(ntg_media_source_enum::NTG_FILE),
            2 => Some(ntg_media_source_enum::NTG_SHELL),
            4 => Some(ntg_media_source_enum::NTG_FFMPEG),
            8 => Some(ntg_media_source_enum::NTG_DEVICE),
            16 => Some(ntg_media_source_enum::NTG_DESKTOP),
            32 => Some(ntg_media_source_enum::NTG_EXTERNAL),
            _ => None,
        }
    }

    /// The C value of this variant.
    pub fn code(&self) -> (c: i32)
        ensures
            c == self.value(),
    {
        match self {
            ntg_media_source_enum::NTG_FILE => 1,
            ntg_media_source_enum::NTG_SHELL => 2,
            ntg_media_source_enum::NTG_FFMPEG => 4,
            ntg_media_source_enum::NTG_DEVICE => 8,
            ntg_media_source_enum::NTG_DESKTOP => 16,
            ntg_media_source_enum::NTG_EXTERNAL => 32,
        }
    }

    /// The variant with C value `c`; `None` for a value that no variant has.
    pub fn from_code(c: i32) -> (r: Option<Self>)
        ensures
            r == Self::of_value(c),
    {
        match c {
            1 => Some(ntg_media_source_enum::NTG_FILE),
            2 => Some(ntg_media_source_enum::NTG_SHELL),
            4 => Some(ntg_media_source_enum::NTG_FFMPEG),
            8 => Some(ntg_media_source_enum::NTG_DEVICE),
            16 => Some(ntg_media_source_enum::NTG_DESKTOP),
            32 => Some(ntg_media_source_enum::NTG_EXTERNAL),
            _ => None,
        }
    }

    /// Reading back the C value of a variant gives that variant; distinct variants
    /// have distinct values.
    pub proof fn lemma_value_round_trip(self, other: Self)
        ensures
            Self::of_value(self.value()) == Some(self),
            self.value() == other.value() ==> self == other,
    {
    }
}

/// The device a stream belongs to.
#[derive(Clone, Copy, Debug, PartialEq, Eq, Structural)]
pub enum ntg_stream_device_enum {
    NTG_STREAM_MICROPHONE,
    NTG_STREAM_SPEAKER,
    NTG_STREAM_CAMERA,
    NTG_STREAM_SCREEN,
}

impl ntg_stream_device_enum {

    /// The C value of each variant is the constant of the engine's C header,
    /// reading that constant gives the variant back, and no other value reads as
    /// a variant.
    pub proof fn lemma_c_constants(c: i32)
        ensures
            Self::of_value(c) matches Some(v) ==> v.value() == c,
            ntg_stream_device_enum::NTG_STREAM_MICROPHONE.value() == 0i32,
            Self::of_value(0i32) == Some(ntg_stream_device_enum::NTG_STREAM_MICROPHONE),
            ntg_stream_device_enum::NTG_STREAM_SPEAKER.value() == 1i32,
            Self::of_value(1i32) == Some(ntg_stream_device_enum::NTG_STREAM_SPEAKER),
            ntg_stream_device_enum::NTG_STREAM_CAMERA.value() == 2i32,
            Self::of_value(2i32) == Some(ntg_stream_device_enum::NTG_STREAM_CAMERA),
            ntg_stream_device_enum::NTG_STREAM_SCREEN.value() == 3i32,
            Self::of_value(3i32) == Some(ntg_stream_device_enum::NTG_STREAM_SCREEN),
    {
    }

    /// The value that the C interface uses for this variant.
    pub open spec fn value(self) -> i32 {
        match self {
            ntg_stream_device_enum::NTG_STREAM_MICROPHONE => 0i32,
            ntg_stream_device_enum::NTG_STREAM_SPEAKER => 1i32,
            ntg_stream_device_enum::NTG_STREAM_CAMERA => 2i32,
            ntg_stream_device_enum::NTG_STREAM_SCREEN => 3i32,
        }
    }

    /// The variant whose C value is `c`, if there is one.
    pub open spec fn of_value(c: i32) -> Option<Self> {
        match c {
            0 => Some(ntg_stream_device_enum::NTG_STREAM_MICROPHONE),
            1 => Some(ntg_stream_device_enum::NTG_STREAM_SPEAKER),
            2 => Some(ntg_stream_device_enum::NTG_STREAM_CAMERA),
            3 => Some(ntg_stream_device_enum::NTG_STREAM_SCREEN),
            _ => None,
        }
    }

    /// The C value of this variant.
    pub fn code(&self) -> (c: i32)
        ensures
            c == self.value(),
    {
        match self {
            ntg_stream_device_enum::NTG_STREAM_MICROPHONE => 0,
            ntg_stream_device_enum::NTG_STREAM_SPEAKER => 1,
            ntg_stream_device_enum::NTG_STREAM_CAMERA => 2,
            ntg_stream_device_enum::NTG_STREAM_SCREEN => 3,
        }
    }

    /// The variant with C value `c`; `None` for a value that no variant has.
    pub fn from_code(c: i32) -> (r: Option<Self>)
        ensures
            r == Self::of_value(c),
    {
        match c {
            0 => Some(ntg_stream_device_enum::NTG_STREAM_MICROPHONE),
            1 => Some(ntg_stream_device_enum::NTG_STREAM_SPEAKER),
            2 => Some(ntg_stream_device_enum::NTG_STREAM_CAMERA),
            3 => Some(ntg_stream_device_enum::NTG_STREAM_SCREEN),
            _ => None,
        }
    }

    /// Reading back the C value of a variant gives that variant; distinct variants
    /// have distinct values.
    pub proof fn lemma_value_round_trip(self, other: Self)
        ensures
            Self::of_value(self.value()) == Some(self),
            self.value() == other.value() ==> self == other,
    {
    }
}

/// Direction of a stream.
#[derive(Clone, Copy, Debug, PartialEq, Eq, Structural)]
pub enum ntg_stream_mode_enum {
    NTG_STREAM_CAPTURE,
    NTG_STREAM_PLAYBACK,
}

impl ntg_stream_mode_enum {

    /// The C value of each variant is the constant of the engine's C header,
    /// reading that constant gives the variant back, and no other value reads as
    /// a variant.
    pub proof fn lemma_c_constants(c: i32)
        ensures
            Self::of_value(c) matches Some(v) ==> v.value() == c,
            ntg_stream_mode_enum::NTG_STREAM_CAPTURE.value() == 0i32,
            Self::of_value(0i32) == Some(ntg_stream_mode_enum::NTG_STREAM_CAPTURE),
            ntg_stream_mode_enum::NTG_STREAM_PLAYBACK.value() == 1i32,
            Self::of_value(1i32) == Some(ntg_stream_mode_enum::NTG_STREAM_PLAYBACK),
    {
    }

    /// The value that the C interface uses for this variant.
    pub open spec fn value(self) -> i32 {
        match self {
            ntg_stream_mode_enum::NTG_STREAM_CAPTURE => 0i32,
            ntg_stream_mode_enum::NTG_STREAM_PLAYBACK => 1i32,
        }
    }

    /// The variant whose C value is `c`, if there is one.
    pub open spec fn of_value(c: i32) -> Option<Self> {
        match c {
            0 => Some(ntg_stream_mode_enum::NTG_STREAM_CAPTURE),
            1 => Some(ntg_stream_mode_enum::NTG_STREAM_PLAYBACK),
            _ => None,
        }
    }

    /// The C value of this variant.
    pub fn code(&self) -> (c: i32)
        ensures
            c == self.value(),
    {
        match self {
            ntg_stream_mode_enum::NTG_STREAM_CAPTURE => 0,
            ntg_stream_mode_enum::NTG_STREAM_PLAYBACK => 1,
        }
    }

    /// The variant with C value `c`; `None` for a value that no variant has.
    pub fn from_code(c: i32) -> (r: Option<Self>)
        ensures
            r == Self::of_value(c),
    {
        match c {
            0 => Some(ntg_stream_mode_enum::NTG_STREAM_CAPTURE),
            1 => Some(ntg_stream_mode_enum::NTG_STREAM_PLAYBACK),
            _ => None,
        }
    }

    /// Reading back the C value of a variant gives that variant; distinct variants
    /// have distinct values.
    pub proof fn lemma_value_round_trip(self, other: Self)
        ensures
            Self::of_value(self.value()) == Some(self),
            self.value() == other.value() ==> self == other,
    {
    }
}

/// Kind of media in a stream.
#[derive(Clone, Copy, Debug, PartialEq, Eq, Structural)]
pub enum ntg_stream_type_enum {
    NTG_STREAM_AUDIO,
    NTG_STREAM_VIDEO,
}

impl ntg_stream_type_enum {

    /// The C value of each variant is the constant of the engine's C header,
    /// reading that constant gives the variant back, and no other value reads as
    /// a variant.
    pub proof fn lemma_c_constants(c: i32)
        ensures
            Self::of_value(c) matches Some(v) ==> v.value() == c,
            ntg_stream_type_enum::NTG_STREAM_AUDIO.value() == 0i32,
            Self::of_value(0i32) == Some(ntg_stream_type_enum::NTG_STREAM_AUDIO),
            ntg_stream_type_enum::NTG_STREAM_VIDEO.value() == 1i32,
            Self::of_value(1i32) == Some(ntg_stream_type_enum::NTG_STREAM_VIDEO),
    {
    }

    /// The value that the C interface uses for this variant.
    pub open spec fn value(self) -> i32 {
        match self {
            ntg_stream_type_enum::NTG_STREAM_AUDIO => 0i32,
            ntg_stream_type_enum::NTG_STREAM_VIDEO => 1i32,
        }
    }

    /// The variant whose C value is `c`, if there is one.
    pub open spec fn of_value(c: i32) -> Option<Self> {
        match c {
            0 => Some(ntg_stream_type_enum::NTG_STREAM_AUDIO),
            1 => Some(ntg_stream_type_enum::NTG_STREAM_VIDEO),
            _ => None,
        }
    }

    /// The C value of this variant.
    pub fn code(&self) -> (c: i32)
        ensures
            c == self.value(),
    {
        match self {
            ntg_stream_type_enum::NTG_STREAM_AUDIO => 0,
            ntg_stream_type_enum::NTG_STREAM_VIDEO => 1,
        }
    }

    /// The variant with C value `c`; `None` for a value that no variant has.
    pub fn from_code(c: i32) -> (r: Option<Self>)
        ensures
            r == Self::of_value(c),
    {
        match c {
            0 => Some(ntg_stream_type_enum::NTG_STREAM_AUDIO),
            1 => Some(ntg_stream_type_enum::NTG_STREAM_VIDEO),
            _ => None,
        }
    }

    /// Reading back the C value of a variant gives that variant; distinct variants
    /// have distinct values.
    pub proof fn lemma_value_round_trip(self, other: Self)
        ensures
            Self::of_value(self.value()) == Some(self),
            self.value() == other.value() ==> self == other,
    {
    }
}

/// Activity of a stream.
#[derive(Clone, Copy, Debug, PartialEq, Eq, Structural)]
pub enum ntg_stream_status_enum {
    NTG_ACTIVE,
    NTG_PAUSED,
    NTG_IDLING,
}

impl ntg_stream_status_enum {

    /// The C value of each variant is the constant of the engine's C header,
    /// reading that constant gives the variant back, and no other value reads as
    /// a variant.
    pub proof fn lemma_c_constants(c: i32)
        ensures
            Self::of_value(c) matches Some(v) ==> v.value() == c,
            ntg_stream_status_enum::NTG_ACTIVE.value() == 0i32,
            Self::of_value(0i32) == Some(ntg_stream_status_enum::NTG_ACTIVE),
            ntg_stream_status_enum::NTG_PAUSED.value() == 1i32,
            Self::of_value(1i32) == Some(ntg_stream_status_enum::NTG_PAUSED),
            ntg_stream_status_enum::NTG_IDLING.value() == 2i32,
            Self::of_value(2i32) == Some(ntg_stream_status_enum::NTG_IDLING),
    {
    }

    /// The value that the C interface uses for this variant.
    pub open spec fn value(self) -> i32 {
        match self {
            ntg_stream_status_enum::NTG_ACTIVE => 0i32,
            ntg_stream_status_enum::NTG_PAUSED => 1i32,
            ntg_stream_status_enum::NTG_IDLING => 2i32,
        }
    }

    /// The variant whose C value is `c`, if there is one.
    pub open spec fn of_value(c: i32) -> Option<Self> {
        match c {
            0 => Some(ntg_stream_status_enum::NTG_ACTIVE),
            1 => Some(ntg_stream_status_enum::NTG_PAUSED),
            2 => Some(ntg_stream_status_enum::NTG_IDLING),
            _ => None,
        }
    }

    /// The C value of this variant.
    pub fn code(&self) -> (c: i32)
        ensures
            c == self.value(),
    {
        match self {
            ntg_stream_status_enum::NTG_ACTIVE => 0,
            ntg_stream_status_enum::NTG_PAUSED => 1,
            ntg_stream_status_enum::NTG_IDLING => 2,
        }
    }

    /// The variant with C value `c`; `None` for a value that no variant has.
    pub fn from_code(c: i32) -> (r: Option<Self>)
        ensures
            r == Self::of_value(c),
    {
        match c {
            0 => Some(ntg_stream_status_enum::NTG_ACTIVE),
            1 => Some(ntg_stream_status_enum::NTG_PAUSED),
            2 => Some(ntg_stream_status_enum::NTG_IDLING),
            _ => None,
        }
    }

    /// Reading back the C value of a variant gives that variant; distinct variants
    /// have distinct values.
    pub proof fn lemma_value_round_trip(self, other: Self)
        ensures
            Self::of_value(self.value()) == Some(self),
            self.value() == other.value() ==> self == other,
    {
    }
}

/// State of a call's network connection.
#[derive(Clone, Copy, Debug, PartialEq, Eq, Structural)]
pub enum ntg_connection_state_enum {
    NTG_STATE_CONNECTING,
    NTG_STATE_CONNECTED,
    NTG_STATE_TIMEOUT,
    NTG_STATE_FAILED,
    NTG_STATE_CLOSED,
}

impl ntg_connection_state_enum {

    /// The C value of each variant is the constant of the engine's C header,
    /// reading that constant gives the variant back, and no other value reads as
    /// a variant.
    pub proof fn lemma_c_constants(c: i32)
        ensures
            Self::of_value(c) matches Some(v) ==> v.value() == c,
            ntg_connection_state_enum::NTG_STATE_CONNECTING.value() == 0i32,
            Self::of_value(0i32) == Some(ntg_connection_state_enum::NTG_STATE_CONNECTING),
            ntg_connection_state_enum::NTG_STATE_CONNECTED.value() == 1i32,
            Self::of_value(1i32) == Some(ntg_connection_state_enum::NTG_STATE_CONNECTED),
            ntg_connection_state_enum::NTG_STATE_TIMEOUT.value() == 2i32,
            Self::of_value(2i32) == Some(ntg_connection_state_enum::NTG_STATE_TIMEOUT),
            ntg_connection_state_enum::NTG_STATE_FAILED.value() == 3i32,
            Self::of_value(3i32) == Some(ntg_connection_state_enum::NTG_STATE_FAILED),
            ntg_connection_state_enum::NTG_STATE_CLOSED.value() == 4i32,
            Self::of_value(4i32) == Some(ntg_connection_state_enum::NTG_STATE_CLOSED),
    {
    }

    /// The value that the C interface uses for this variant.
    pub open spec fn value(self) -> i32 {
        match self {
            ntg_connection_state_enum::NTG_STATE_CONNECTING => 0i32,
            ntg_connection_state_enum::NTG_STATE_CONNECTED => 1i32,
            ntg_connection_state_enum::NTG_STATE_TIMEOUT => 2i32,
            ntg_connection_state_enum::NTG_STATE_FAILED => 3i32,
            ntg_connection_state_enum::NTG_STATE_CLOSED => 4i32,
        }
    }

    /// The variant whose C value is `c`, if there is one.
    pub open spec fn of_value(c: i32) -> Option<Self> {
        match c {
            0 => Some(ntg_connection_state_enum::NTG_STATE_CONNECTING),
            1 => Some(ntg_connection_state_enum::NTG_STATE_CONNECTED),
            2 => Some(ntg_connection_state_enum::NTG_STATE_TIMEOUT),
            3 => Some(ntg_connection_state_enum::NTG_STATE_FAILED),
            4 => Some(ntg_connection_state_enum::NTG_STATE_CLOSED),
            _ => None,
        }
    }

    /// The C value of this variant.
    pub fn code(&self) -> (c: i32)
        ensures
            c == self.value(),
    {
        match self {
            ntg_connection_state_enum::NTG_STATE_CONNECTING => 0,
            ntg_connection_state_enum::NTG_STATE_CONNECTED => 1,
            ntg_connection_state_enum::NTG_STATE_TIMEOUT => 2,
            ntg_connection_state_enum::NTG_STATE_FAILED => 3,
            ntg_connection_state_enum::NTG_STATE_CLOSED => 4,
        }
    }

    /// The variant with C value `c`; `None` for a value that no variant has.
    pub fn from_code(c: i32) -> (r: Option<Self>)
        ensures
            r == Self::of_value(c),
    {
        match c {
            0 => Some(ntg_connection_state_enum::NTG_STATE_CONNECTING),
            1 => Some(ntg_connection_state_enum::NTG_STATE_CONNECTED),
            2 => Some(ntg_connection_state_enum::NTG_STATE_TIMEOUT),
            3 => Some(ntg_connection_state_enum::NTG_STATE_FAILED),
            4 => Some(ntg_connection_state_enum::NTG_STATE_CLOSED),
            _ => None,
        }
    }

    /// Reading back the C value of a variant gives that variant; distinct variants
    /// have distinct values.
    pub proof fn lemma_value_round_trip(self, other: Self)
        ensures
            Self::of_value(self.value()) == Some(self),
            self.value() == other.value() ==> self == other,
    {
    }
}

/// Which connection of a call a report is about.
#[derive(Clone, Copy, Debug, PartialEq, Eq, Structural)]
pub enum ntg_connection_kind_enum {
    NTG_KIND_NORMAL,
    NTG_KIND_PRESENTATION,
}

impl ntg_connection_kind_enum {

    /// The C value of each variant is the constant of the engine's C header,
    /// reading that constant gives the variant back, and no other value reads as
    /// a variant.
    pub proof fn lemma_c_constants(c: i32)
        ensures
            Self::of_value(c) matches Some(v) ==> v.value() == c,
            ntg_connection_kind_enum::NTG_KIND_NORMAL.value() == 0i32,
            Self::of_value(0i32) == Some(ntg_connection_kind_enum::NTG_KIND_NORMAL),
            ntg_connection_kind_enum::NTG_KIND_PRESENTATION.value() == 1i32,
            Self::of_value(1i32) == Some(ntg_connection_kind_enum::NTG_KIND_PRESENTATION),
    {
    }

    /// The value that the C interface uses for this variant.
    pub open spec fn value(self) -> i32 {
        match self {
            ntg_connection_kind_enum::NTG_KIND_NORMAL => 0i32,
            ntg_connection_kind_enum::NTG_KIND_PRESENTATION => 1i32,
        }
    }

    /// The variant whose C value is `c`, if there is one.
    pub open spec fn of_value(c: i32) -> Option<Self> {
        match c {
            0 => Some(ntg_connection_kind_enum::NTG_KIND_NORMAL),
            1 => Some(ntg_connection_kind_enum::NTG_KIND_PRESENTATION),
            _ => None,
        }
    }

    /// The C value of this variant.
    pub fn code(&self) -> (c: i32)
        ensures
            c == self.value(),
    {
        match self {
            ntg_connection_kind_enum::NTG_KIND_NORMAL => 0,
            ntg_connection_kind_enum::NTG_KIND_PRESENTATION => 1,
        }
    }

    /// The variant with C value `c`; `None` for a value that no variant has.
    pub fn from_code(c: i32) -> (r: Option<Self>)
        ensures
            r == Self::of_value(c),
    {
        match c {
            0 => Some(ntg_connection_kind_enum::NTG_KIND_NORMAL),
            1 => Some(ntg_connection_kind_enum::NTG_KIND_PRESENTATION),
            _ => None,
        }
    }

    /// Reading back the C value of a variant gives that variant; distinct variants
    /// have distinct values.
    pub proof fn lemma_value_round_trip(self, other: Self)
        ensures
            Self::of_value(self.value()) == Some(self),
            self.value() == other.value() ==> self == other,
    {
    }
}

/// Quality of a broadcast segment.
#[derive(Clone, Copy, Debug, PartialEq, Eq, Structural)]
pub enum ntg_media_segment_quality_enum {
    NTG_MEDIA_SEGMENT_QUALITY_NONE,
    NTG_MEDIA_SEGMENT_QUALITY_THUMBNAIL,
    NTG_MEDIA_SEGMENT_QUALITY_MEDIUM,
    NTG_MEDIA_SEGMENT_QUALITY_FULL,
}

impl ntg_media_segment_quality_enum {

    /// The C value of each variant is the constant of the engine's C header,
    /// reading that constant gives the variant back, and no other value reads as
    /// a variant.
    pub proof fn lemma_c_constants(c: i32)
        ensures
            Self::of_value(c) matches Some(v) ==> v.value() == c,
            ntg_media_segment_quality_enum::NTG_MEDIA_SEGMENT_QUALITY_NONE.value() == 0i32,
            Self::of_value(0i32) == Some(ntg_media_segment_quality_enum::NTG_MEDIA_SEGMENT_QUALITY_NONE),
            ntg_media_segment_quality_enum::NTG_MEDIA_SEGMENT_QUALITY_THUMBNAIL.value() == 1i32,
            Self::of_value(1i32) == Some(ntg_media_segment_quality_enum::NTG_MEDIA_SEGMENT_QUALITY_THUMBNAIL),
            ntg_media_segment_quality_enum::NTG_MEDIA_SEGMENT_QUALITY_MEDIUM.value() == 2i32,
            Self::of_value(2i32) == Some(ntg_media_segment_quality_enum::NTG_MEDIA_SEGMENT_QUALITY_MEDIUM),
            ntg_media_segment_quality_enum::NTG_MEDIA_SEGMENT_QUALITY_FULL.value() == 3i32,
            Self::of_value(3i32) == Some(ntg_media_segment_quality_enum::NTG_MEDIA_SEGMENT_QUALITY_FULL),
    {
    }

    /// The value that the C interface uses for this variant.
    pub open spec fn value(self) -> i32 {
        match self {
            ntg_media_segment_quality_enum::NTG_MEDIA_SEGMENT_QUALITY_NONE => 0i32,
            ntg_media_segment_quality_enum::NTG_MEDIA_SEGMENT_QUALITY_THUMBNAIL => 1i32,
            ntg_media_segment_quality_enum::NTG_MEDIA_SEGMENT_QUALITY_MEDIUM => 2i32,
            ntg_media_segment_quality_enum::NTG_MEDIA_SEGMENT_QUALITY_FULL => 3i32,
        }
    }

    /// The variant whose C value is `c`, if there is one.
    pub open spec fn of_value(c: i32) -> Option<Self> {
        match c {
            0 => Some(ntg_media_segment_quality_enum::NTG_MEDIA_SEGMENT_QUALITY_NONE),
            1 => Some(ntg_media_segment_quality_enum::NTG_MEDIA_SEGMENT_QUALITY_THUMBNAIL),
            2 => Some(ntg_media_segment_quality_enum::NTG_MEDIA_SEGMENT_QUALITY_MEDIUM),
            3 => Some(ntg_media_segment_quality_enum::NTG_MEDIA_SEGMENT_QUALITY_FULL),
            _ => None,
        }
    }

    /// The C value of this variant.
    pub fn code(&self) -> (c: i32)
        ensures
            c == self.value(),
    {
        match self {
            ntg_media_segment_quality_enum::NTG_MEDIA_SEGMENT_QUALITY_NONE => 0,
            ntg_media_segment_quality_enum::NTG_MEDIA_SEGMENT_QUALITY_THUMBNAIL => 1,
            ntg_media_segment_quality_enum::NTG_MEDIA_SEGMENT_QUALITY_MEDIUM => 2,
            ntg_media_segment_quality_enum::NTG_MEDIA_SEGMENT_QUALITY_FULL => 3,
        }
    }

    /// The variant with C value `c`; `None` for a value that no variant has.
    pub fn from_code(c: i32) -> (r: Option<Self>)
        ensures
            r == Self::of_value(c),
    {
        match c {
            0 => Some(ntg_media_segment_quality_enum::NTG_MEDIA_SEGMENT_QUALITY_NONE),
            1 => Some(ntg_media_segment_quality_enum::NTG_MEDIA_SEGMENT_QUALITY_THUMBNAIL),
            2 => Some(ntg_media_segment_quality_enum::NTG_MEDIA_SEGMENT_QUALITY_MEDIUM),
            3 => Some(ntg_media_segment_quality_enum::NTG_MEDIA_SEGMENT_QUALITY_FULL),
            _ => None,
        }
    }

    /// Reading back the C value of a variant gives that variant; distinct variants
    /// have distinct values.
    pub proof fn lemma_value_round_trip(self, other: Self)
        ensures
            Self::of_value(self.value()) == Some(self),
            self.value() == other.value() ==> self == other,
    {
    }
}

/// Status of a broadcast segment part.
#[derive(Clone, Copy, Debug, PartialEq, Eq, Structural)]
pub enum ntg_media_segment_status_enum {
    NTG_MEDIA_SEGMENT_NOT_READY,
    NTG_MEDIA_SEGMENT_RESYNC_NEEDED,
    NTG_MEDIA_SEGMENT_SUCCESS,
}

impl ntg_media_segment_status_enum {

    /// The C value of each variant is the constant of the engine's C header,
    /// reading that constant gives the variant back, and no other value reads as
    /// a variant.
    pub proof fn lemma_c_constants(c: i32)
        ensures
            Self::of_value(c) matches Some(v) ==> v.value() == c,
            ntg_media_segment_status_enum::NTG_MEDIA_SEGMENT_NOT_READY.value() == 0i32,
            Self::of_value(0i32) == Some(ntg_media_segment_status_enum::NTG_MEDIA_SEGMENT_NOT_READY),
            ntg_media_segment_status_enum::NTG_MEDIA_SEGMENT_RESYNC_NEEDED.value() == 1i32,
            Self::of_value(1i32) == Some(ntg_media_segment_status_enum::NTG_MEDIA_SEGMENT_RESYNC_NEEDED),
            ntg_media_segment_status_enum::NTG_MEDIA_SEGMENT_SUCCESS.value() == 2i32,
            Self::of_value(2i32) == Some(ntg_media_segment_status_enum::NTG_MEDIA_SEGMENT_SUCCESS),
    {
    }

    /// The value that the C interface uses for this variant.
    pub open spec fn value(self) -> i32 {
        match self {
            ntg_media_segment_status_enum::NTG_MEDIA_SEGMENT_NOT_READY => 0i32,
            ntg_media_segment_status_enum::NTG_MEDIA_SEGMENT_RESYNC_NEEDED => 1i32,
            ntg_media_segment_status_enum::NTG_MEDIA_SEGMENT_SUCCESS => 2i32,
        }
    }

    /// The variant whose C value is `c`, if there is one.
    pub open spec fn of_value(c: i32) -> Option<Self> {
        match c {
            0 => Some(ntg_media_segment_status_enum::NTG_MEDIA_SEGMENT_NOT_READY),
            1 => Some(ntg_media_segment_status_enum::NTG_MEDIA_SEGMENT_RESYNC_NEEDED),
            2 => Some(ntg_media_segment_status_enum::NTG_MEDIA_SEGMENT_SUCCESS),
            _ => None,
        }
    }

    /// The C value of this variant.
    pub fn code(&self) -> (c: i32)
        ensures
            c == self.value(),
    {
        match self {
            ntg_media_segment_status_enum::NTG_MEDIA_SEGMENT_NOT_READY => 0,
            ntg_media_segment_status_enum::NTG_MEDIA_SEGMENT_RESYNC_NEEDED => 1,
            ntg_media_segment_status_enum::NTG_MEDIA_SEGMENT_SUCCESS => 2,
        }
    }

    /// The variant with C value `c`; `None` for a value that no variant has.
    pub fn from_code(c: i32) -> (r: Option<Self>)
        ensures
            r == Self::of_value(c),
    {
        match c {
            0 => Some(ntg_media_segment_status_enum::NTG_MEDIA_SEGMENT_NOT_READY),
            1 => Some(ntg_media_segment_status_enum::NTG_MEDIA_SEGMENT_RESYNC_NEEDED),
            2 => Some(ntg_media_segment_status_enum::NTG_MEDIA_SEGMENT_SUCCESS),
            _ => None,
        }
    }

    /// Reading back the C value of a variant gives that variant; distinct variants
    /// have distinct values.
    pub proof fn lemma_value_round_trip(self, other: Self)
        ensures
            Self::of_value(self.value()) == Some(self),
            self.value() == other.value() ==> self == other,
    {
    }
}

/// How a call is connected.
#[derive(Clone, Copy, Debug, PartialEq, Eq, Structural)]
pub enum ntg_connection_mode_enum {
    NTG_CONNECTION_MODE_NONE,
    NTG_CONNECTION_MODE_RTC,
    NTG_CONNECTION_MODE_STREAM,
    NTG_CONNECTION_MODE_RTMP,
}

impl ntg_connection_mode_enum {

    /// The C value of each variant is the constant of the engine's C header,
    /// reading that constant gives the variant back, and no other value reads as
    /// a variant.
    pub proof fn lemma_c_constants(c: i32)
        ensures
            Self::of_value(c) matches Some(v) ==> v.value() == c,
            ntg_connection_mode_enum::NTG_CONNECTION_MODE_NONE.value() == 0i32,
            Self::of_value(0i32) == Some(ntg_connection_mode_enum::NTG_CONNECTION_MODE_NONE),
            ntg_connection_mode_enum::NTG_CONNECTION_MODE_RTC.value() == 1i32,
            Self::of_value(1i32) == Some(ntg_connection_mode_enum::NTG_CONNECTION_MODE_RTC),
            ntg_connection_mode_enum::NTG_CONNECTION_MODE_STREAM.value() == 2i32,
            Self::of_value(2i32) == Some(ntg_connection_mode_enum::NTG_CONNECTION_MODE_STREAM),
            ntg_connection_mode_enum::NTG_CONNECTION_MODE_RTMP.value() == 3i32,
            Self::of_value(3i32) == Some(ntg_connection_mode_enum::NTG_CONNECTION_MODE_RTMP),
    {
    }

    /// The value that the C interface uses for this variant.
    pub open spec fn value(self) -> i32 {
        match self {
            ntg_connection_mode_enum::NTG_CONNECTION_MODE_NONE => 0i32,
            ntg_connection_mode_enum::NTG_CONNECTION_MODE_RTC => 1i32,
            ntg_connection_mode_enum::NTG_CONNECTION_MODE_STREAM => 2i32,
            ntg_connection_mode_enum::NTG_CONNECTION_MODE_RTMP => 3i32,
        }
    }

    /// The variant whose C value is `c`, if there is one.
    pub open spec fn of_value(c: i32) -> Option<Self> {
        match c {
            0 => Some(ntg_connection_mode_enum::NTG_CONNECTION_MODE_NONE),
            1 => Some(ntg_connection_mode_enum::NTG_CONNECTION_MODE_RTC),
            2 => Some(ntg_connection_mode_enum::NTG_CONNECTION_MODE_STREAM),
            3 => Some(ntg_connection_mode_enum::NTG_CONNECTION_MODE_RTMP),
            _ => None,
        }
    }

    /// The C value of this variant.
    pub fn code(&self) -> (c: i32)
        ensures
            c == self.value(),
    {
        match self {
            ntg_connection_mode_enum::NTG_CONNECTION_MODE_NONE => 0,
            ntg_connection_mode_enum::NTG_CONNECTION_MODE_RTC => 1,
            ntg_connection_mode_enum::NTG_CONNECTION_MODE_STREAM => 2,
            ntg_connection_mode_enum::NTG_CONNECTION_MODE_RTMP => 3,
        }
    }

    /// The variant with C value `c`; `None` for a value that no variant has.
    pub fn from_code(c: i32) -> (r: Option<Self>)
        ensures
            r == Self::of_value(c),
    {
        match c {
            0 => Some(ntg_connection_mode_enum::NTG_CONNECTION_MODE_NONE),
            1 => Some(ntg_connection_mode_enum::NTG_CONNECTION_MODE_RTC),
            2 => Some(ntg_connection_mode_enum::NTG_CONNECTION_MODE_STREAM),
            3 => Some(ntg_connection_mode_enum::NTG_CONNECTION_MODE_RTMP),
            _ => None,
        }
    }

    /// Reading back the C value of a variant gives that variant; distinct variants
    /// have distinct values.
    pub proof fn lemma_value_round_trip(self, other: Self)
        ensures
            Self::of_value(self.value()) == Some(self),
            self.value() == other.value() ==> self == other,
    {
    }
}

/// Severity of a log message (bit flags; unknown is all bits).
#[derive(Clone, Copy, Debug, PartialEq, Eq, Structural)]
pub enum ntg_log_level_enum {
    NTG_LOG_DEBUG,
    NTG_LOG_INFO,
    NTG_LOG_WARNING,
    NTG_LOG_ERROR,
    NTG_LOG_UNKNOWN,
}

impl ntg_log_level_enum {

    /// The C value of each variant is the constant of the engine's C header,
    /// reading that constant gives the variant back, and no other value reads as
    /// a variant.
    pub proof fn lemma_c_constants(c: i32)
        ensures
            Self::of_value(c) matches Some(v) ==> v.value() == c,
            ntg_log_level_enum::NTG_LOG_DEBUG.value() == 1i32,
            Self::of_value(1i32) == Some(ntg_log_level_enum::NTG_LOG_DEBUG),
            ntg_log_level_enum::NTG_LOG_INFO.value() == 2i32,
            Self::of_value(2i32) == Some(ntg_log_level_enum::NTG_LOG_INFO),
            ntg_log_level_enum::NTG_LOG_WARNING.value() == 4i32,
            Self::of_value(4i32) == Some(ntg_log_level_enum::NTG_LOG_WARNING),
            ntg_log_level_enum::NTG_LOG_ERROR.value() == 8i32,
            Self::of_value(8i32) == Some(ntg_log_level_enum::NTG_LOG_ERROR),
            ntg_log_level_enum::NTG_LOG_UNKNOWN.value() == -1i32,
            Self::of_value(-1i32) == Some(ntg_log_level_enum::NTG_LOG_UNKNOWN),
    {
    }

    /// The value that the C interface uses for this variant.
    pub open spec fn value(self) -> i32 {
        match self {
            ntg_log_level_enum::NTG_LOG_DEBUG => 1i32,
            ntg_log_level_enum::NTG_LOG_INFO => 2i32,
            ntg_log_level_enum::NTG_LOG_WARNING => 4i32,
            ntg_log_level_enum::NTG_LOG_ERROR => 8i32,
            ntg_log_level_enum::NTG_LOG_UNKNOWN => -1i32,
        }
    }

    /// The variant whose C value is `c`, if there is one.
    pub open spec fn of_value(c: i32) -> Option<Self> {
        match c {
            1 => Some(ntg_log_level_enum::NTG_LOG_DEBUG),
            2 => Some(ntg_log_level_enum::NTG_LOG_INFO),
            4 => Some(ntg_log_level_enum::NTG_LOG_WARNING),
            8 => Some(ntg_log_level_enum::NTG_LOG_ERROR),
            -1 => Some(ntg_log_level_enum::NTG_LOG_UNKNOWN),
            _ => None,
        }
    }

    /// The C value of this variant.
    pub fn code(&self) -> (c: i32)
        ensures
            c == self.value(),
    {
        match self {
            ntg_log_level_enum::NTG_LOG_DEBUG => 1,
            ntg_log_level_enum::NTG_LOG_INFO => 2,
            ntg_log_level_enum::NTG_LOG_WARNING => 4,
            ntg_log_level_enum::NTG_LOG_ERROR => 8,
            ntg_log_level_enum::NTG_LOG_UNKNOWN => -1,
        }
    }

    /// The variant with C value `c`; `None` for a value that no variant has.
    pub fn from_code(c: i32) -> (r: Option<Self>)
        ensures
            r == Self::of_value(c),
    {
        match c {
            1 => Some(ntg_log_level_enum::NTG_LOG_DEBUG),
            2 => Some(ntg_log_level_enum::NTG_LOG_INFO),
            4 => Some(ntg_log_level_enum::NTG_LOG_WARNING),
            8 => Some(ntg_log_level_enum::NTG_LOG_ERROR),
            -1 => Some(ntg_log_level_enum::NTG_LOG_UNKNOWN),
            _ => None,
        }
    }

    /// Reading back the C value of a variant gives that variant; distinct variants
    /// have distinct values.
    pub proof fn lemma_value_round_trip(self, other: Self)
        ensures
            Self::of_value(self.value()) == Some(self),
            self.value() == other.value() ==> self == other,
    {
    }
}

/// Origin of a log message (bit flags).
#[derive(Clone, Copy, Debug, PartialEq, Eq, Structural)]
pub enum ntg_log_source_enum {
    NTG_LOG_WEBRTC,
    NTG_LOG_SELF,
}

impl ntg_log_source_enum {

    /// The C value of each variant is the constant of the engine's C header,
    /// reading that constant gives the variant back, and no other value reads as
    /// a variant.
    pub proof fn lemma_c_constants(c: i32)
        ensures
            Self::of_value(c) matches Some(v) ==> v.value() == c,
            ntg_log_source_enum::NTG_LOG_WEBRTC.value() == 1i32,
            Self::of_value(1i32) == Some(ntg_log_source_enum::NTG_LOG_WEBRTC),
            ntg_log_source_enum::NTG_LOG_SELF.value() == 2i32,
            Self::of_value(2i32) == Some(ntg_log_source_enum::NTG_LOG_SELF),
    {
    }

    /// The value that the C interface uses for this variant.
    pub open spec fn value(self) -> i32 {
        match self {
            ntg_log_source_enum::NTG_LOG_WEBRTC => 1i32,
            ntg_log_source_enum::NTG_LOG_SELF => 2i32,
        }
    }

    /// The variant whose C value is `c`, if there is one.
    pub open spec fn of_value(c: i32) -> Option<Self> {
        match c {
            1 => Some(ntg_log_source_enum::NTG_LOG_WEBRTC),
            2 => Some(ntg_log_source_enum::NTG_LOG_SELF),
            _ => None,
        }
    }

    /// The C value of this variant.
    pub fn code(&self) -> (c: i32)
        ensures
            c == self.value(),
    {
        match self {
            ntg_log_source_enum::NTG_LOG_WEBRTC => 1,
            ntg_log_source_enum::NTG_LOG_SELF => 2,
        }
    }

    /// The variant with C value `c`; `None` for a value that no variant has.
    pub fn from_code(c: i32) -> (r: Option<Self>)
        ensures
            r == Self::of_value(c),
    {
        match c {
            1 => Some(ntg_log_source_enum::NTG_LOG_WEBRTC),
            2 => Some(ntg_log_source_enum::NTG_LOG_SELF),
            _ => None,
        }
    }

    /// Reading back the C value of a variant gives that variant; distinct variants
    /// have distinct values.
    pub proof fn lemma_value_round_trip(self, other: Self)
        ensures
            Self::of_value(self.value()) == Some(self),
            self.value() == other.value() ==> self == other,
    {
    }
}

} // verus!
