//! The rules by which an asynchronous engine command ends. A command is first
//! submitted; the engine answers at once with a code, and a non-zero code ends the
//! command with an error. Otherwise the caller waits for the engine's completion
//! callback, which reports a code of its own; zero is success. A wait that times
//! out ends the command with an error that carries the reason.
use vstd::prelude::*;
use vstd::string::StringExecFns;
use crate::text::{decimal, decimal_value, lemma_decimal_read_back, push_decimal, utf8_text};
use vstd::utf8::{decode_utf8, valid_utf8};

verus! {

/// The asynchronous commands of the engine, as far as their error texts differ.
#[derive(Clone, Copy, Debug, PartialEq, Eq, Structural)]
pub enum Operation {
    /// Creating a group call (or a private call).
    Create,
    /// Setting the media sources of a call.
    SetStream,
    /// Joining a group call.
    Connect,
    /// Starting the key exchange of a private call.
    InitExchange,
    /// Completing the key exchange.
    ExchangeKeys,
    /// Using a known key instead of an exchange.
    SkipExchange,
    /// Connecting a private call to its servers.
    ConnectP2p,
    /// Relaying signaling data to the engine.
    SendSignalingData,
    /// Starting a presentation (screen sharing).
    InitPresentation,
    /// Receiving a participant's video.
    AddIncomingVideo,
    /// No longer receiving a participant's video.
    RemoveIncomingVideo,
    /// Feeding a frame of an external source.
    SendExternalFrame,
    /// Answering a broadcast timestamp request.
    SendBroadcastTimestamp,
    /// Answering a broadcast part request.
    SendBroadcastPart,
    /// Reading the engine's CPU usage.
    CpuUsage,
    /// Reading how a call is connected.
    ConnectionMode,
    /// Listing the active calls.
    Calls,
    /// Reading a stream's playing time.
    Time,
    /// Reading a call's media state.
    State,
    /// A plain call command: stop, stop presentation, pause, resume, mute, unmute.
    Command,
}

/// The text that opens the error of a command whose submission the engine refused.
pub open spec fn rejected_text(op: Operation) -> Seq<char> {
    match op {
        Operation::Create => "ntg_create failed with code : "@,
        Operation::SetStream => "ntg_set_stream_sources failed : "@,
        Operation::Connect => "ntg_connect immediate fail : "@,
        Operation::InitExchange => "ntg_init_exchange failed with code : "@,
        Operation::ExchangeKeys => "ntg_exchange_keys failed with code : "@,
        Operation::SkipExchange => "ntg_skip_exchange failed with code : "@,
        Operation::ConnectP2p => "ntg_connect_p2p failed with code : "@,
        Operation::SendSignalingData => "ntg_send_signaling_data failed with code : "@,
        Operation::InitPresentation => "ntg_init_presentation failed with code : "@,
        Operation::AddIncomingVideo => "ntg_add_incoming_video failed with code : "@,
        Operation::RemoveIncomingVideo => "ntg_remove_incoming_video failed with code : "@,
        Operation::SendExternalFrame => "ntg_send_external_frame failed with code : "@,
        Operation::SendBroadcastTimestamp => "ntg_send_broadcast_timestamp failed with code : "@,
        Operation::SendBroadcastPart => "ntg_send_broadcast_part failed with code : "@,
        Operation::CpuUsage => "ntg_cpu_usage failed with code : "@,
        Operation::ConnectionMode => "ntg_get_connection_mode failed with code : "@,
        Operation::Calls => "ntg_calls failed with code : "@,
        Operation::Time => "ntg_time failed with code : "@,
        Operation::State => "C call failed with code : "@,
        Operation::Command => "C Command failed : "@,
    }
}

fn rejected_prefix(op: Operation) -> (s: &'static str)
    ensures
        s@ == rejected_text(op),
{
    match op {
        Operation::Create => "ntg_create failed with code : ",
        Operation::SetStream => "ntg_set_stream_sources failed : ",
        Operation::Connect => "ntg_connect immediate fail : ",
        Operation::InitExchange => "ntg_init_exchange failed with code : ",
        Operation::ExchangeKeys => "ntg_exchange_keys failed with code : ",
        Operation::SkipExchange => "ntg_skip_exchange failed with code : ",
        Operation::ConnectP2p => "ntg_connect_p2p failed with code : ",
        Operation::SendSignalingData => "ntg_send_signaling_data failed with code : ",
        Operation::InitPresentation => "ntg_init_presentation failed with code : ",
        Operation::AddIncomingVideo => "ntg_add_incoming_video failed with code : ",
        Operation::RemoveIncomingVideo => "ntg_remove_incoming_video failed with code : ",
        Operation::SendExternalFrame => "ntg_send_external_frame failed with code : ",
        Operation::SendBroadcastTimestamp => "ntg_send_broadcast_timestamp failed with code : ",
        Operation::SendBroadcastPart => "ntg_send_broadcast_part failed with code : ",
        Operation::CpuUsage => "ntg_cpu_usage failed with code : ",
        Operation::ConnectionMode => "ntg_get_connection_mode failed with code : ",
        Operation::Calls => "ntg_calls failed with code : ",
        Operation::Time => "ntg_time failed with code : ",
        Operation::State => "C call failed with code : ",
        Operation::Command => "C Command failed : ",
    }
}

/// The text that opens the error of a command that completed with a non-zero code.
pub open spec fn failed_text(op: Operation) -> Seq<char> {
    match op {
        Operation::Create => "Async create failed with error code : "@,
        Operation::SetStream => "Async set_stream failed : "@,
        Operation::Connect => "Async connect failed with code : "@,
        Operation::InitExchange => "Async init_exchange failed with error code : "@,
        Operation::ExchangeKeys => "Async exchange_keys failed with error code : "@,
        Operation::SkipExchange => "Async skip_exchange failed with error code : "@,
        Operation::ConnectP2p => "Async connect_p2p failed with error code : "@,
        Operation::SendSignalingData => "Async send_signaling_data failed with error code : "@,
        Operation::InitPresentation => "Async init_presentation failed with error code : "@,
        Operation::AddIncomingVideo => "Async add_incoming_video failed with error code : "@,
        Operation::RemoveIncomingVideo => "Async remove_incoming_video failed with error code : "@,
        Operation::SendExternalFrame => "Async send_external_frame failed with error code : "@,
        Operation::SendBroadcastTimestamp => "Async send_broadcast_timestamp failed with error code : "@,
        Operation::SendBroadcastPart => "Async send_broadcast_part failed with error code : "@,
        Operation::CpuUsage => "Async cpu_usage failed with error code : "@,
        Operation::ConnectionMode => "Async get_connection_mode failed with error code : "@,
        Operation::Calls => "Async get_calls failed with error code : "@,
        Operation::Time => "Async get_time failed with error code : "@,
        Operation::State => "Async error : "@,
        Operation::Command => "Async error : "@,
    }
}

fn failed_prefix(op: Operation) -> (s: &'static str)
    ensures
        s@ == failed_text(op),
{
    match op {
        Operation::Create => "Async create failed with error code : ",
        Operation::SetStream => "Async set_stream failed : ",
        Operation::Connect => "Async connect failed with code : ",
        Operation::InitExchange => "Async init_exchange failed with error code : ",
        Operation::ExchangeKeys => "Async exchange_keys failed with error code : ",
        Operation::SkipExchange => "Async skip_exchange failed with error code : ",
        Operation::ConnectP2p => "Async connect_p2p failed with error code : ",
        Operation::SendSignalingData => "Async send_signaling_data failed with error code : ",
        Operation::InitPresentation => "Async init_presentation failed with error code : ",
        Operation::AddIncomingVideo => "Async add_incoming_video failed with error code : ",
        Operation::RemoveIncomingVideo => "Async remove_incoming_video failed with error code : ",
        Operation::SendExternalFrame => "Async send_external_frame failed with error code : ",
        Operation::SendBroadcastTimestamp => "Async send_broadcast_timestamp failed with error code : ",
        Operation::SendBroadcastPart => "Async send_broadcast_part failed with error code : ",
        Operation::CpuUsage => "Async cpu_usage failed with error code : ",
        Operation::ConnectionMode => "Async get_connection_mode failed with error code : ",
        Operation::Calls => "Async get_calls failed with error code : ",
        Operation::Time => "Async get_time failed with error code : ",
        Operation::State => "Async error : ",
        Operation::Command => "Async error : ",
    }
}

/// The text that opens the error of a command whose wait timed out.
pub open spec fn timeout_text(op: Operation) -> Seq<char> {
    match op {
        Operation::Create => "Timeout in create : "@,
        Operation::SetStream => "Timeout in set_stream : "@,
        Operation::Connect => "Timeout in connect : "@,
        Operation::InitExchange => "Timeout in init_exchange : "@,
        Operation::ExchangeKeys => "Timeout in exchange_keys : "@,
        Operation::SkipExchange => "Timeout in skip_exchange : "@,
        Operation::ConnectP2p => "Timeout in connect_p2p : "@,
        Operation::SendSignalingData => "Timeout in send_signaling_data : "@,
        Operation::InitPresentation => "Timeout in init_presentation : "@,
        Operation::AddIncomingVideo => "Timeout in add_incoming_video : "@,
        Operation::RemoveIncomingVideo => "Timeout in remove_incoming_video : "@,
        Operation::SendExternalFrame => "Timeout in send_external_frame : "@,
        Operation::SendBroadcastTimestamp => "Timeout in send_broadcast_timestamp : "@,
        Operation::SendBroadcastPart => "Timeout in send_broadcast_part : "@,
        Operation::CpuUsage => "Timeout in cpu_usage : "@,
        Operation::ConnectionMode => "Timeout in get_connection_mode : "@,
        Operation::Calls => "Timeout in get_calls : "@,
        Operation::Time => "Timeout in get_time : "@,
        Operation::State => "Timeout : "@,
        Operation::Command => "Timeout : "@,
    }
}

fn timeout_prefix(op: Operation) -> (s: &'static str)
    ensures
        s@ == timeout_text(op),
{
    match op {
        Operation::Create => "Timeout in create : ",
        Operation::SetStream => "Timeout in set_stream : ",
        Operation::Connect => "Timeout in connect : ",
        Operation::InitExchange => "Timeout in init_exchange : ",
        Operation::ExchangeKeys => "Timeout in exchange_keys : ",
        Operation::SkipExchange => "Timeout in skip_exchange : ",
        Operation::ConnectP2p => "Timeout in connect_p2p : ",
        Operation::SendSignalingData => "Timeout in send_signaling_data : ",
        Operation::InitPresentation => "Timeout in init_presentation : ",
        Operation::AddIncomingVideo => "Timeout in add_incoming_video : ",
        Operation::RemoveIncomingVideo => "Timeout in remove_incoming_video : ",
        Operation::SendExternalFrame => "Timeout in send_external_frame : ",
        Operation::SendBroadcastTimestamp => "Timeout in send_broadcast_timestamp : ",
        Operation::SendBroadcastPart => "Timeout in send_broadcast_part : ",
        Operation::CpuUsage => "Timeout in cpu_usage : ",
        Operation::ConnectionMode => "Timeout in get_connection_mode : ",
        Operation::Calls => "Timeout in get_calls : ",
        Operation::Time => "Timeout in get_time : ",
        Operation::State => "Timeout : ",
        Operation::Command => "Timeout : ",
    }
}

/// Why a command or a query of the engine failed.
#[derive(Debug)]
pub enum NtgError {
    /// The engine refused the submission of the command with this code.
    Rejected { operation: Operation, code: i32 },
    /// The command completed with this non-zero code.
    Failed { operation: Operation, code: i32 },
    /// Waiting for the command's completion timed out, for this reason.
    TimedOut { operation: Operation, reason: String },
    /// The engine could not describe its protocol (code of the query).
    ProtocolUnavailable { code: i32 },
    /// The engine could not list the media devices (code of the query).
    DevicesUnavailable { code: i32 },
    /// The engine gave no version text.
    VersionUnavailable,
}

/// The message of an error, as the PHP exception carries it.
pub open spec fn error_text(e: NtgError) -> Seq<char> {
    match e {
        NtgError::Rejected { operation, code } => rejected_text(operation) + decimal(code as int),
        NtgError::Failed { operation, code } => failed_text(operation) + decimal(code as int),
        NtgError::TimedOut { operation, reason } => timeout_text(operation) + reason@,
        NtgError::ProtocolUnavailable { code } => "Failed to get protocol : "@ + decimal(code as int),
        NtgError::DevicesUnavailable { code } => "Failed : "@ + decimal(code as int),
        NtgError::VersionUnavailable => "Failed to get version string"@,
    }
}

/// The message of an error with a code ends with the code in decimal, which
/// reads back as the code; the message of a timeout ends with its reason.
pub proof fn lemma_error_text_code(e: NtgError)
    ensures
        e matches NtgError::Rejected { operation, code } ==> exists|d: Seq<char>|
            #![trigger decimal_value(d)]
            decimal_value(d) == code as int && error_text(e) == rejected_text(operation) + d,
        e matches NtgError::Failed { operation, code } ==> exists|d: Seq<char>|
            #![trigger decimal_value(d)]
            decimal_value(d) == code as int && error_text(e) == failed_text(operation) + d,
        e matches NtgError::TimedOut { operation, reason } ==> error_text(e) == timeout_text(operation) + reason@,
        e matches NtgError::ProtocolUnavailable { code } ==> exists|d: Seq<char>|
            #![trigger decimal_value(d)]
            decimal_value(d) == code as int && error_text(e) == "Failed to get protocol : "@ + d,
        e matches NtgError::DevicesUnavailable { code } ==> exists|d: Seq<char>|
            #![trigger decimal_value(d)]
            decimal_value(d) == code as int && error_text(e) == "Failed : "@ + d,
{
    match e {
        NtgError::Rejected { operation, code } => {
            lemma_decimal_read_back(code as int);
            assert(decimal_value(decimal(code as int)) == code as int);
        },
        NtgError::Failed { operation, code } => {
            lemma_decimal_read_back(code as int);
            assert(decimal_value(decimal(code as int)) == code as int);
        },
        NtgError::ProtocolUnavailable { code } => {
            lemma_decimal_read_back(code as int);
            assert(decimal_value(decimal(code as int)) == code as int);
        },
        NtgError::DevicesUnavailable { code } => {
            lemma_decimal_read_back(code as int);
            assert(decimal_value(decimal(code as int)) == code as int);
        },
        _ => {},
    }
}

fn string_of(s: &str) -> (r: String)
    ensures
        r@ == s@,
{
    s.to_string()
}

impl NtgError {
    /// The message of the error.
    pub fn message(&self) -> (r: String)
        ensures
            r@ == error_text(*self),
    {
        match self {
            NtgError::Rejected { operation, code } => {
                let mut r = string_of(rejected_prefix(*operation));
                push_decimal(&mut r, *code as i64);
                r
            },
            NtgError::Failed { operation, code } => {
                let mut r = string_of(failed_prefix(*operation));
                push_decimal(&mut r, *code as i64);
                r
            },
            NtgError::TimedOut { operation, reason } => {
                let mut r = string_of(timeout_prefix(*operation));
                r.append(reason.as_str());
                r
            },
            NtgError::ProtocolUnavailable { code } => {
                let mut r = string_of("Failed to get protocol : ");
                push_decimal(&mut r, *code as i64);
                r
            },
            NtgError::DevicesUnavailable { code } => {
                let mut r = string_of("Failed : ");
                push_decimal(&mut r, *code as i64);
                r
            },
            NtgError::VersionUnavailable => string_of("Failed to get version string"),
        }
    }
}

/// How the engine's immediate answer to a submission ends the command, if it does.
pub open spec fn submission_spec(operation: Operation, code: i32) -> Result<(), NtgError> {
    if code == 0 {
        Ok(())
    } else {
        Err(NtgError::Rejected { operation, code })
    }
}

/// How the outcome of the wait for completion ends the command: `Ok(c)` is the
/// completion code, `Err(reason)` a wait that timed out.
pub open spec fn completion_spec(operation: Operation, waited: Result<i32, String>) -> Result<(), NtgError> {
    match waited {
        Ok(c) => if c == 0 { Ok(()) } else { Err(NtgError::Failed { operation, code: c }) },
        Err(reason) => Err(NtgError::TimedOut { operation, reason }),
    }
}

/// Decides on the engine's immediate answer to a submitted command: go on and
/// wait for completion (`Ok`), or end with the error.
pub fn after_submit(operation: Operation, code: i32) -> (r: Result<(), NtgError>)
    ensures
        r == submission_spec(operation, code),
{
    if code != 0 {
        Err(NtgError::Rejected { operation, code })
    } else {
        Ok(())
    }
}

/// Decides on the outcome of waiting for a command's completion.
pub fn after_wait(operation: Operation, waited: Result<i32, String>) -> (r: Result<(), NtgError>)
    ensures
        r == completion_spec(operation, waited),
{
    match waited {
        Ok(c) => if c == 0 { Ok(()) } else { Err(NtgError::Failed { operation, code: c }) },
        Err(reason) => Err(NtgError::TimedOut { operation, reason }),
    }
}

/// A command succeeds exactly when the engine accepts its submission (code 0) and
/// its completion reports code 0; it fails with the submission's code when that
/// is not 0, else with the completion's code, else with the wait's reason.
pub proof fn lemma_command_outcome(operation: Operation, submitted: i32, waited: Result<i32, String>)
    ensures
        (submission_spec(operation, submitted) is Ok && completion_spec(operation, waited) is Ok)
            <==> (submitted == 0 && waited == Ok::<i32, String>(0)),
        submitted != 0 ==> error_text(submission_spec(operation, submitted)->Err_0)
            == rejected_text(operation) + decimal(submitted as int),
        waited matches Ok(c) ==> (c != 0 ==> error_text(completion_spec(operation, waited)->Err_0)
            == failed_text(operation) + decimal(c as int)),
        waited matches Err(reason) ==> error_text(completion_spec(operation, waited)->Err_0)
            == timeout_text(operation) + reason@,
{
}

/// What the wait for a completion callback does after each wake-up.
#[derive(Clone, Copy, Debug, PartialEq, Eq, Structural)]
pub enum WaitStep {
    /// Neither completed nor timed out: wait again.
    KeepWaiting,
    /// The callback has run.
    Completed,
    /// The wait timed out.
    TimedOut,
}

/// The next step of the wait, from whether the callback has run and whether the
/// last wait timed out. A timeout ends the wait even when the callback ran at the
/// same moment.
pub fn wait_step(completed: bool, timed_out: bool) -> (s: WaitStep)
    ensures
        timed_out ==> s == WaitStep::TimedOut,
        !timed_out && completed ==> s == WaitStep::Completed,
        !timed_out && !completed ==> s == WaitStep::KeepWaiting,
{
    if timed_out {
        WaitStep::TimedOut
    } else if completed {
        WaitStep::Completed
    } else {
        WaitStep::KeepWaiting
    }
}

/// The reason carried by a wait that timed out.
pub fn timeout_reason() -> (r: String)
    ensures
        r@ == "Timeout waiting for callback"@,
{
    string_of("Timeout waiting for callback")
}

/// The text of the error message that the engine leaves with a completion.
pub open spec fn completion_message_spec(bytes: Option<Seq<u8>>) -> Seq<char> {
    match bytes {
        None => "<NONE>"@,
        Some(b) => if valid_utf8(b) { decode_utf8(b) } else { "<INVALID UTF-8>"@ },
    }
}

/// The engine's completion message given by its bytes (`None` for a null
/// pointer): the text when it is UTF-8, else a placeholder.
pub fn completion_message(bytes: &Option<Vec<u8>>) -> (r: String)
    ensures
        r@ == completion_message_spec(match bytes { Some(b) => Some(b@), None => None }),
{
    match bytes {
        None => string_of("<NONE>"),
        Some(b) => match utf8_text(b) {
            Some(t) => t,
            None => string_of("<INVALID UTF-8>"),
        },
    }
}

} // verus!
