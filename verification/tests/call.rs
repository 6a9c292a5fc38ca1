use tgcalls::call::{
    after_submit, after_wait, completion_message, timeout_reason, wait_step, NtgError, Operation,
    WaitStep,
};

fn message(r: Result<(), NtgError>) -> String {
    r.unwrap_err().message()
}

#[test]
fn accepted_submission_goes_on_to_wait() {
    assert!(after_submit(Operation::Create, 0).is_ok());
}

#[test]
fn rejected_submission_messages() {
    assert_eq!(message(after_submit(Operation::Create, -5)), "ntg_create failed with code : -5");
    assert_eq!(message(after_submit(Operation::SetStream, 3)), "ntg_set_stream_sources failed : 3");
    assert_eq!(message(after_submit(Operation::Connect, -302)), "ntg_connect immediate fail : -302");
    assert_eq!(message(after_submit(Operation::ConnectP2p, 1)), "ntg_connect_p2p failed with code : 1");
    assert_eq!(message(after_submit(Operation::State, -2)), "C call failed with code : -2");
    assert_eq!(message(after_submit(Operation::Command, -101)), "C Command failed : -101");
    assert_eq!(
        message(after_submit(Operation::CpuUsage, i32::MIN)),
        "ntg_cpu_usage failed with code : -2147483648"
    );
}

#[test]
fn successful_completion() {
    assert!(after_wait(Operation::Calls, Ok(0)).is_ok());
}

#[test]
fn failed_completion_messages() {
    assert_eq!(message(after_wait(Operation::Create, Ok(-102))), "Async create failed with error code : -102");
    assert_eq!(message(after_wait(Operation::SetStream, Ok(-200))), "Async set_stream failed : -200");
    assert_eq!(message(after_wait(Operation::Connect, Ok(7))), "Async connect failed with code : 7");
    assert_eq!(message(after_wait(Operation::Calls, Ok(-1))), "Async get_calls failed with error code : -1");
    assert_eq!(message(after_wait(Operation::Time, Ok(2))), "Async get_time failed with error code : 2");
    assert_eq!(message(after_wait(Operation::Command, Ok(-4))), "Async error : -4");
    assert_eq!(message(after_wait(Operation::State, Ok(i32::MAX))), "Async error : 2147483647");
}

#[test]
fn timed_out_completion_messages() {
    assert_eq!(message(after_wait(Operation::Create, Err(timeout_reason()))), "Timeout in create : Timeout waiting for callback");
    assert_eq!(
        message(after_wait(Operation::ConnectionMode, Err(timeout_reason()))),
        "Timeout in get_connection_mode : Timeout waiting for callback"
    );
    assert_eq!(message(after_wait(Operation::Command, Err("late".to_string()))), "Timeout : late");
}

#[test]
fn every_operation_has_its_texts() {
    let ops = [
        (Operation::InitExchange, "init_exchange"),
        (Operation::ExchangeKeys, "exchange_keys"),
        (Operation::SkipExchange, "skip_exchange"),
        (Operation::SendSignalingData, "send_signaling_data"),
        (Operation::InitPresentation, "init_presentation"),
        (Operation::AddIncomingVideo, "add_incoming_video"),
        (Operation::RemoveIncomingVideo, "remove_incoming_video"),
        (Operation::SendExternalFrame, "send_external_frame"),
        (Operation::SendBroadcastTimestamp, "send_broadcast_timestamp"),
        (Operation::SendBroadcastPart, "send_broadcast_part"),
    ];
    for (op, name) in ops {
        assert_eq!(message(after_submit(op, 9)), format!("ntg_{} failed with code : 9", name));
        assert_eq!(message(after_wait(op, Ok(9))), format!("Async {} failed with error code : 9", name));
        assert_eq!(message(after_wait(op, Err("x".to_string()))), format!("Timeout in {} : x", name));
    }
}

#[test]
fn query_error_messages() {
    assert_eq!(NtgError::ProtocolUnavailable { code: -1 }.message(), "Failed to get protocol : -1");
    assert_eq!(NtgError::DevicesUnavailable { code: 12 }.message(), "Failed : 12");
    assert_eq!(NtgError::VersionUnavailable.message(), "Failed to get version string");
}

#[test]
fn wait_steps() {
    assert_eq!(wait_step(false, false), WaitStep::KeepWaiting);
    assert_eq!(wait_step(true, false), WaitStep::Completed);
    assert_eq!(wait_step(false, true), WaitStep::TimedOut);
    assert_eq!(wait_step(true, true), WaitStep::TimedOut);
}

#[test]
fn completion_message_texts() {
    assert_eq!(completion_message(&None), "<NONE>");
    assert_eq!(completion_message(&Some(b"bad key".to_vec())), "bad key");
    assert_eq!(completion_message(&Some("ключ".as_bytes().to_vec())), "ключ");
    assert_eq!(completion_message(&Some(vec![0x66, 0xff, 0x66])), "<INVALID UTF-8>");
}
