use tgcalls::call::NtgError;
use tgcalls::client::{create_result, devices_result, presentation_result, protocol_result, version_result, TgcallsClient};
use tgcalls::records::{ntg_media_devices_struct, ntg_protocol_struct};

#[test]
fn client_handle_lifecycle() {
    let c = TgcallsClient::with_handle(0x5555, -100123);
    assert_eq!(c.get_handle(), 0x5555);
    assert_eq!(c.peer_id(), -100123);
    assert!(c.needs_destroy());
    assert!(!TgcallsClient::with_handle(0, 1).needs_destroy());
}

#[test]
fn protocol_query() {
    let p = ntg_protocol_struct::__construct(65, 92, true, false, vec!["11.0.0".to_string()]);
    let ok = protocol_result(0, p).unwrap();
    assert_eq!(ok.max_layer, 92);
    let p = ntg_protocol_struct::__construct(0, 0, false, false, vec![]);
    assert_eq!(protocol_result(-2, p).unwrap_err().message(), "Failed to get protocol : -2");
}

#[test]
fn devices_query() {
    let d = ntg_media_devices_struct::__construct(None, None, None, None);
    assert_eq!(devices_result(-1, d).unwrap_err().message(), "Failed : -1");
    let d = ntg_media_devices_struct::__construct(None, None, None, None);
    assert!(devices_result(0, d).unwrap().microphone.is_empty());
}

#[test]
fn version_query() {
    assert_eq!(version_result(0, &Some(b"2.0.5".to_vec())).unwrap(), "2.0.5");
    assert!(matches!(version_result(0, &None), Err(NtgError::VersionUnavailable)));
    assert!(matches!(version_result(1, &Some(b"2.0.5".to_vec())), Err(NtgError::VersionUnavailable)));
}

#[test]
fn command_results() {
    assert_eq!(create_result(&Some(b"{\"ufrag\":\"x\"}".to_vec())), "{\"ufrag\":\"x\"}");
    assert_eq!(create_result(&None), "");
    assert_eq!(presentation_result(&Some(b"{}".to_vec())), vec!["{}".to_string()]);
    assert!(presentation_result(&None).is_empty());
}
