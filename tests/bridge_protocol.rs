use robot_link::bridge::{
    bridge_dispatch_status, bridge_host, bridge_request_line, bridge_target, exchange_outcome,
    no_addresses, prepare_bridge_dispatch, read_bridge_reply, reply_outcome, resolve_failure,
    ConnectAttempts,
};
use robot_link::error::ControlError;
use robot_link::session::{BridgeSession, BridgeStore, SessionPlan};

fn req(token: Option<&str>, cmd: &str, dur: Option<u32>) -> robot_link::bridge::BridgeRequest {
    prepare_bridge_dispatch(" 10.0.0.2 ", 8765, token.map(|t| t.to_string()), cmd, dur).ok().unwrap()
}

#[test]
fn bridge_duration_is_clamped() {
    let r = req(None, "f", Some(99999));
    assert_eq!(r.duration_ms, 10000);
    assert_eq!(r.read_timeout_ms, 17000);
    assert_eq!(req(None, "f", None).duration_ms, 500);
}

#[test]
fn bridge_request_fields_and_errors() {
    let r = req(Some("  tok "), "b", None);
    assert_eq!(r.host, "10.0.0.2");
    assert_eq!(r.token, "tok");
    assert_eq!(r.command, 'B');
    let e = prepare_bridge_dispatch("  ", 1, None, "X", None).err().unwrap();
    assert_eq!(e.message(), "host cannot be empty");
    let e = prepare_bridge_dispatch("h", 1, None, "X", None).err().unwrap();
    assert!(matches!(e, ControlError::UnsupportedCommand));
    assert!(matches!(bridge_host(" \t"), Err(ControlError::EmptyHost)));
    assert_eq!(bridge_host(" pi ").ok(), Some("pi".to_string()));
}

#[test]
fn request_line_is_one_json_object() {
    let r = req(Some("abc"), "f", None);
    let line = bridge_request_line(&r);
    assert_eq!(line, "{\"cmd\":\"F\",\"duration_ms\":500,\"token\":\"abc\"}\n");
    let r = req(Some("a\"b"), "s", Some(0));
    let line = bridge_request_line(&r);
    assert_eq!(line, "{\"cmd\":\"S\",\"duration_ms\":0,\"token\":\"a\\\"b\"}\n");
}

#[test]
fn target_label() {
    assert_eq!(bridge_target("pi.local", 8765), "pi.local:8765");
    assert_eq!(bridge_target("h", 0), "h:0");
}

#[test]
fn reply_ok_true_succeeds() {
    assert!(exchange_outcome(13, "{\"ok\": true}\n").is_ok());
    let st = bridge_dispatch_status("h:1", &req(None, "q", Some(99999)));
    assert_eq!(st.command, "Q");
    assert_eq!(st.duration_ms, 10000);
}

#[test]
fn reply_rejection_carries_reason() {
    let e = exchange_outcome(30, "{\"ok\": false, \"error\": \"busy\"}\n").unwrap_err();
    assert!(e.message().contains("busy"));
    assert_eq!(e.message(), "Bridge rejected command: busy");
    let e = exchange_outcome(12, "{\"ok\": 1}").unwrap_err();
    assert_eq!(e.message(), "Bridge rejected command: bridge error");
    let e = reply_outcome(read_bridge_reply("[1,2]")).unwrap_err();
    assert!(matches!(e, ControlError::Rejected(_)));
}

#[test]
fn reply_not_json_is_protocol_error() {
    let e = exchange_outcome(9, "hello???\n").unwrap_err();
    assert!(matches!(e, ControlError::InvalidJson));
    assert_eq!(e.message(), "Bridge returned invalid JSON");
    assert!(read_bridge_reply("not json").is_none());
    let r = read_bridge_reply(" {\"ok\": true, \"error\": \"x\"} ").unwrap();
    assert_eq!(r.ok, Some(true));
    assert_eq!(r.error.as_deref(), Some("x"));
}

#[test]
fn reply_closed_connection() {
    let e = exchange_outcome(0, "").unwrap_err();
    assert!(matches!(e, ControlError::ConnectionClosed));
    assert_eq!(e.message(), "Bridge connection closed");
}

/// A dispatch against a store of fake connections, counting connects.
fn dispatch(store: &mut BridgeStore<u32>, connects: &mut u32, host: &str, port: u16, token: &str) {
    if let SessionPlan::Connect = store.plan(host, port, token) {
        *connects += 1;
        store.install(BridgeSession::new(host, port, token, *connects));
    }
}

#[test]
fn identical_peer_reuses_one_connection() {
    let mut store = BridgeStore::new();
    let mut connects = 0;
    dispatch(&mut store, &mut connects, "pi", 8765, "t");
    dispatch(&mut store, &mut connects, "pi", 8765, "t");
    assert_eq!(connects, 1);
    assert_eq!(store.current().unwrap().conn, 1);
    dispatch(&mut store, &mut connects, "pi2", 8765, "t");
    assert_eq!(connects, 2);
    dispatch(&mut store, &mut connects, "pi2", 8766, "t");
    assert_eq!(connects, 3);
    dispatch(&mut store, &mut connects, "pi2", 8766, "u");
    assert_eq!(connects, 4);
    let st = store.status();
    assert!(st.connected);
    assert_eq!(st.target.as_deref(), Some("pi2:8766"));
}

#[test]
fn closed_peer_forces_reconnect() {
    let mut store = BridgeStore::new();
    let mut connects = 0;
    dispatch(&mut store, &mut connects, "pi", 1, "t");
    store.settle(&exchange_outcome(0, ""));
    assert!(store.current().is_none());
    assert!(matches!(store.plan("pi", 1, "t"), SessionPlan::Connect));
    dispatch(&mut store, &mut connects, "pi", 1, "t");
    assert_eq!(connects, 2);
}

#[test]
fn rejection_keeps_session_and_clear_empties() {
    let mut store = BridgeStore::new();
    let mut connects = 0;
    dispatch(&mut store, &mut connects, "pi", 1, "t");
    store.settle(&exchange_outcome(5, "{\"ok\":false}"));
    assert!(matches!(store.plan("pi", 1, "t"), SessionPlan::Reuse));
    store.settle(&exchange_outcome(5, "garbage"));
    assert!(store.current().is_none());
    dispatch(&mut store, &mut connects, "pi", 1, "t");
    assert!(store.clear().is_some());
    assert!(!store.status().connected);
    assert!(store.status().target.is_none());
}

#[test]
fn request_line_escapes_token() {
    let r = req(Some("a\\b\u{1}c\td"), "f", Some(1));
    assert_eq!(
        bridge_request_line(&r),
        "{\"cmd\":\"F\",\"duration_ms\":1,\"token\":\"a\\\\b\\u0001c\\td\"}\n"
    );
}

#[test]
fn reply_members_of_other_kinds() {
    let r = read_bridge_reply("{\"ok\": \"true\", \"error\": 5}").unwrap();
    assert_eq!(r.ok, None);
    assert_eq!(r.error, None);
    let e = exchange_outcome(3, "{\"error\": \"jammed\"}").unwrap_err();
    assert_eq!(e.message(), "Bridge rejected command: jammed");
}

#[test]
fn connect_failures() {
    let mut a = ConnectAttempts::new();
    assert_eq!(ConnectAttempts::new().exhausted().message(), "Bridge connect failed");
    a.failed("10.0.0.1:80", "refused");
    a.failed("10.0.0.2:80", "timed out");
    assert_eq!(a.exhausted().message(), "Connect to 10.0.0.2:80 failed: timed out");
    assert_eq!(resolve_failure("pi", 80, "no such host").message(), "Failed to resolve pi:80: no such host");
    assert_eq!(no_addresses("pi", 81).message(), "No addresses found for pi:81");
}
