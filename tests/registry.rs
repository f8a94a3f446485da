use bridge_relay::registry::ConnectionRegistry;
use bridge_relay::relay::PeerSession;

fn two_connections() -> ConnectionRegistry<u32> {
    let mut reg = ConnectionRegistry::new();
    reg.upsert("c1".to_string(), Some("Chrome".to_string()), 1);
    reg.upsert("c2".to_string(), None, 2);
    reg
}

#[test]
fn targeted_envelope_reaches_only_its_connection() {
    let reg = two_connections();
    let got: Vec<u32> = reg.route(Some("c2")).into_iter().copied().collect();
    assert_eq!(got, vec![2]);
}

#[test]
fn unknown_target_is_dropped() {
    let reg = two_connections();
    assert!(reg.route(Some("c9")).is_empty());
}

#[test]
fn untargeted_envelope_reaches_every_connection() {
    let reg = two_connections();
    let got: Vec<u32> = reg.route(None).into_iter().copied().collect();
    assert_eq!(got, vec![1, 2]);
}

#[test]
fn disconnect_removes_connection() {
    let mut reg = two_connections();
    reg.remove("c1");
    assert_eq!(reg.snapshot(), vec![("c2".to_string(), None)]);
    assert!(reg.route(Some("c1")).is_empty());
    assert!(!reg.contains("c1"));
    reg.remove("c1");
    assert_eq!(reg.snapshot().len(), 1);
}

#[test]
fn upsert_replaces_record() {
    let mut reg = two_connections();
    reg.upsert("c1".to_string(), Some("Edge".to_string()), 7);
    assert_eq!(
        reg.snapshot(),
        vec![("c1".to_string(), Some("Edge".to_string())), ("c2".to_string(), None)]
    );
    let got: Vec<u32> = reg.route(Some("c1")).into_iter().copied().collect();
    assert_eq!(got, vec![7]);
}

#[test]
fn presence_registers_connection() {
    let mut reg: ConnectionRegistry<u32> = ConnectionRegistry::new();
    let mut session = PeerSession::new();
    let text = r#"{"v":1,"type":"presence.status","payload":{"connectionId":"c1","browser":"Chrome"}}"#;
    let (id, browser) = session.observe_text(text).unwrap();
    reg.upsert(id, browser, 1);
    assert!(reg.snapshot().contains(&("c1".to_string(), Some("Chrome".to_string()))));
    // A later presence on the same connection does not register again.
    let again = r#"{"v":1,"type":"presence.status","payload":{"connectionId":"c3"}}"#;
    assert_eq!(session.observe_text(again), None);
    assert_eq!(session.connection_id, Some("c1".to_string()));
}

#[test]
fn ping_for_registered_connection_reaches_it_only() {
    let mut reg: ConnectionRegistry<u32> = ConnectionRegistry::new();
    reg.upsert("c1".to_string(), None, 1);
    let text = r#"{"v":1,"type":"ping","payload":{"connectionId":"c1"}}"#;
    let got: Vec<u32> = reg.route_text(text).into_iter().copied().collect();
    assert_eq!(got, vec![1]);
    assert!(!got.contains(&2));
}

#[test]
fn route_text_without_target_broadcasts_and_ignores_non_json() {
    let reg = two_connections();
    let got: Vec<u32> = reg.route_text(r#"{"v":1,"type":"hello","payload":{}}"#).into_iter().copied().collect();
    assert_eq!(got, vec![1, 2]);
    assert!(reg.route_text("not json").is_empty());
}

#[test]
fn route_send_broadcasts_non_json_and_routes_targets() {
    let reg = two_connections();
    let all: Vec<u32> = reg.route_send("not json").into_iter().copied().collect();
    assert_eq!(all, vec![1, 2]);
    let untargeted: Vec<u32> = reg.route_send(r#"{"v":1,"type":"hello","payload":{}}"#).into_iter().copied().collect();
    assert_eq!(untargeted, vec![1, 2]);
    let one: Vec<u32> = reg.route_send(r#"{"v":1,"type":"x","payload":{"connectionId":"c1"}}"#).into_iter().copied().collect();
    assert_eq!(one, vec![1]);
    assert!(reg.route_send(r#"{"v":1,"type":"x","payload":{"connectionId":"gone"}}"#).is_empty());
}

#[test]
fn non_presence_text_does_not_register() {
    let mut session = PeerSession::new();
    assert_eq!(session.observe_text(r#"{"v":1,"type":"ping","payload":{"connectionId":"c1"}}"#), None);
    assert_eq!(session.observe_text("garbage"), None);
    assert_eq!(session.observe_text(r#"{"v":1,"type":"presence.status","payload":{}}"#), None);
    assert_eq!(session.finish(), None);
}

#[test]
fn finish_reports_offline_presence() {
    let mut session = PeerSession::new();
    let text = r#"{"v":1,"type":"presence.status","payload":{"connectionId":"c1","browser":"Chrome"}}"#;
    session.observe_text(text);
    let (id, env) = session.finish().unwrap();
    assert_eq!(id, "c1");
    assert_eq!(
        env,
        r#"{"payload":{"browser":"Chrome","connectionId":"c1","sidecar":"offline"},"type":"presence.status","v":1}"#
    );
}
