use bridge_relay::envelope::{
    byte_event, classify_inbound, close_event, focus_payload, inspect, presence_offline, presence_online, ByteEvent,
    Inbound,
};

#[test]
fn byte_events_have_exact_text() {
    assert_eq!(byte_event(ByteEvent::Ping, 4), r#"{"payload":{"bytes":4},"type":"debug.ping","v":1}"#);
    assert_eq!(byte_event(ByteEvent::Pong, 0), r#"{"payload":{"bytes":0},"type":"debug.pong","v":1}"#);
    assert_eq!(byte_event(ByteEvent::Binary, 1234), r#"{"payload":{"bytes":1234},"type":"debug.binary","v":1}"#);
    assert_eq!(byte_event(ByteEvent::BinaryError, 10), r#"{"payload":{"bytes":10},"type":"error.binary","v":1}"#);
}

#[test]
fn close_event_reports_code_and_reason() {
    assert_eq!(
        close_event(Some(1000), Some("bye \"now\"")),
        r#"{"payload":{"code":1000,"reason":"bye \"now\""},"type":"debug.close","v":1}"#
    );
    assert_eq!(close_event(None, None), r#"{"payload":{"code":null,"reason":null},"type":"debug.close","v":1}"#);
    assert_eq!(close_event(Some(1001), Some("")), r#"{"payload":{"code":1001,"reason":null},"type":"debug.close","v":1}"#);
}

#[test]
fn presence_envelopes_have_exact_text() {
    assert_eq!(
        presence_online("c1", "Chrome", 1700000000123),
        r#"{"payload":{"browser":"Chrome","connectionId":"c1","sidecar":"online","timestamp":1700000000123},"type":"presence.status","v":1}"#
    );
    assert_eq!(
        presence_offline("c1", None),
        r#"{"payload":{"browser":null,"connectionId":"c1","sidecar":"offline"},"type":"presence.status","v":1}"#
    );
    let parsed: serde_json::Value = serde_json::from_str(&presence_online("a\"b", "x", 5)).unwrap();
    assert_eq!(parsed["payload"]["connectionId"], "a\"b");
}

#[test]
fn inspect_reads_routing_fields() {
    let info = inspect(r#"{"v":1,"type":"presence.status","payload":{"connectionId":"c1","browser":"Chrome"}}"#).unwrap();
    assert_eq!(info.kind.as_deref(), Some("presence.status"));
    assert_eq!(info.connection_id.as_deref(), Some("c1"));
    assert_eq!(info.browser.as_deref(), Some("Chrome"));
    let bare = inspect(r#"{"v":1,"type":7}"#).unwrap();
    assert_eq!(bare.kind, None);
    assert_eq!(bare.connection_id, None);
    assert!(inspect("{not json").is_none());
}

#[test]
fn focus_window_is_a_control_message() {
    let text = r#"{"v":1,"type":"focus.window","payload":{"windowId":7,"title":"Example","browser":"Chrome"}}"#;
    match classify_inbound(text) {
        Inbound::Focus(p) => {
            assert_eq!(p.window_id, Some(7));
            assert_eq!(p.title.as_deref(), Some("Example"));
            assert_eq!(p.browser.as_deref(), Some("Chrome"));
            assert_eq!(p.url, None);
        }
        Inbound::Relay => panic!("expected a control message"),
    }
}

#[test]
fn other_messages_are_relayed() {
    assert!(matches!(classify_inbound(r#"{"v":1,"type":"ping","payload":{}}"#), Inbound::Relay));
    assert!(matches!(classify_inbound(r#"{"v":1,"type":"focus.window"}"#), Inbound::Relay));
    assert!(matches!(classify_inbound("nonsense"), Inbound::Relay));
}

#[test]
fn focus_window_with_malformed_payload_is_relayed() {
    assert!(matches!(classify_inbound(r#"{"v":1,"type":"focus.window","payload":"x"}"#), Inbound::Relay));
    assert!(matches!(
        classify_inbound(r#"{"v":1,"type":"focus.window","payload":{"windowId":99999999999}}"#),
        Inbound::Relay
    ));
    assert!(matches!(
        classify_inbound(r#"{"v":1,"type":"focus.window","payload":{"windowId":"7"}}"#),
        Inbound::Relay
    ));
    assert!(matches!(
        classify_inbound(r#"{"v":1,"type":"focus.window","payload":{"title":5}}"#),
        Inbound::Relay
    ));
}

#[test]
fn focus_window_with_null_and_unknown_fields_is_handled() {
    match classify_inbound(r#"{"v":1,"type":"focus.window","payload":{"windowId":null,"url":"u","extra":[1]}}"#) {
        Inbound::Focus(p) => {
            assert_eq!(p.window_id, None);
            assert_eq!(p.url.as_deref(), Some("u"));
            assert_eq!(p.title, None);
        }
        Inbound::Relay => panic!("expected a control message"),
    }
}

#[test]
fn focus_payload_reads_fields() {
    let p = focus_payload(r#"{"payload":{"windowId":-3,"connectionId":"c9"}}"#).unwrap();
    assert_eq!(p.window_id, Some(-3));
    assert_eq!(p.connection_id.as_deref(), Some("c9"));
    assert!(focus_payload(r#"{"payload":{"browser":true}}"#).is_none());
}

#[test]
fn quoting_escapes_control_characters() {
    assert_eq!(
        close_event(Some(1), Some("a\u{1}\t\n\\/é")),
        "{\"payload\":{\"code\":1,\"reason\":\"a\\u0001\\t\\n\\\\/é\"},\"type\":\"debug.close\",\"v\":1}"
    );
    assert_eq!(
        presence_offline("\u{1f}\u{8}\u{c}\r", None),
        "{\"payload\":{\"browser\":null,\"connectionId\":\"\\u001f\\b\\f\\r\",\"sidecar\":\"offline\"},\"type\":\"presence.status\",\"v\":1}"
    );
}
