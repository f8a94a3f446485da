use bridge_relay::identity::{ancestor_step, detect_browser, generate_connection_id, unix_ms, AncestorStep};
use bridge_relay::relay::{react, Endpoint, LinkState, RelayClient, SocketEvent, RECONNECT_DELAY_MS};

#[test]
fn text_is_mirrored_and_forwarded() {
    let r = react(Endpoint::DesktopObserver, &SocketEvent::Text("hello".to_string()));
    assert_eq!(r.mirror.as_deref(), Some("hello"));
    assert_eq!(r.forward.as_deref(), Some("hello"));
    assert!(!r.pong && !r.stop);
}

#[test]
fn ping_is_answered_and_mirrored() {
    let r = react(Endpoint::RelayClient, &SocketEvent::Ping(3));
    assert_eq!(r.mirror.as_deref(), Some(r#"{"payload":{"bytes":3},"type":"debug.ping","v":1}"#));
    assert!(r.pong);
    assert!(!r.stop);
    let p = react(Endpoint::RelayClient, &SocketEvent::Pong(2));
    assert_eq!(p.mirror.as_deref(), Some(r#"{"payload":{"bytes":2},"type":"debug.pong","v":1}"#));
    assert!(!p.pong);
}

#[test]
fn binary_is_reported_by_endpoint() {
    let peer = react(Endpoint::DesktopPeer, &SocketEvent::Binary(5));
    assert_eq!(peer.mirror, None);
    assert_eq!(peer.forward.as_deref(), Some(r#"{"payload":{"bytes":5},"type":"debug.binary","v":1}"#));
    let client = react(Endpoint::RelayClient, &SocketEvent::Binary(5));
    assert_eq!(client.mirror.as_deref(), Some(r#"{"payload":{"bytes":5},"type":"error.binary","v":1}"#));
    let obs = react(Endpoint::SidecarObserver, &SocketEvent::Binary(5));
    assert_eq!(obs.mirror.as_deref(), Some(r#"{"payload":{"bytes":5},"type":"debug.binary","v":1}"#));
    assert_eq!(obs.forward, None);
}

#[test]
fn close_and_errors_end_the_connection() {
    let c = react(Endpoint::DesktopPeer, &SocketEvent::Close(Some(1000), Some("done".to_string())));
    assert!(c.stop);
    assert_eq!(c.mirror.as_deref(), Some(r#"{"payload":{"code":1000,"reason":"done"},"type":"debug.close","v":1}"#));
    assert!(react(Endpoint::DesktopPeer, &SocketEvent::Failed).stop);
    assert!(react(Endpoint::DesktopPeer, &SocketEvent::Ended).stop);
    let raw = react(Endpoint::DesktopPeer, &SocketEvent::RawFrame);
    assert!(!raw.stop && raw.mirror.is_none() && raw.forward.is_none());
}

#[test]
fn client_announces_and_reconnects() {
    let mut client = RelayClient::new("c1".to_string(), "Chrome".to_string());
    assert_eq!(client.state, LinkState::Disconnected);
    client.dial();
    assert_eq!(client.state, LinkState::Connecting);
    assert_eq!(client.disconnected(), 1000);
    assert_eq!(RECONNECT_DELAY_MS, 1000);
    client.dial();
    let presence = client.connected(42);
    assert_eq!(client.state, LinkState::Connected);
    assert_eq!(
        presence,
        r#"{"payload":{"browser":"Chrome","connectionId":"c1","sidecar":"online","timestamp":42},"type":"presence.status","v":1}"#
    );
    let r = client.on_event(&SocketEvent::Text("x".to_string()));
    assert!(!r.stop);
    assert_eq!(client.state, LinkState::Connected);
    let r = client.on_event(&SocketEvent::Close(None, None));
    assert!(r.stop);
    assert_eq!(client.state, LinkState::Disconnected);
}

#[test]
fn connection_id_is_hex_timestamp_and_pid() {
    assert_eq!(generate_connection_id(255, 16), "ff-10");
    assert_eq!(generate_connection_id(0, 0), "0-0");
    assert_eq!(generate_connection_id(0x18c2f3a1b2d, 4321), "18c2f3a1b2d-10e1");
}

#[test]
fn clock_reads_after_epoch() {
    assert!(unix_ms() > 1_600_000_000_000);
}

#[test]
fn browser_label_detection() {
    assert_eq!(detect_browser(Some("Arc"), Some("chrome.exe")), "Arc");
    assert_eq!(detect_browser(None, Some("CHROME.EXE")), "Chrome");
    assert_eq!(detect_browser(None, Some("msedge.exe")), "Edge");
    assert_eq!(detect_browser(None, Some("brave.exe")), "Brave");
    assert_eq!(detect_browser(None, Some("Perplexity.exe")), "Comet");
    assert_eq!(detect_browser(None, Some("opera.exe")), "opera.exe");
    assert_eq!(detect_browser(None, None), "Unknown");
}

#[test]
fn ancestor_walk_steps() {
    assert_eq!(ancestor_step(Some(("chrome.exe", 10)), 0), AncestorStep::Found("chrome.exe".to_string()));
    assert_eq!(ancestor_step(Some(("cmd.exe", 10)), 0), AncestorStep::Climb(10));
    assert_eq!(ancestor_step(Some(("bridge-sidecar.exe", 11)), 3), AncestorStep::Climb(11));
    assert_eq!(ancestor_step(Some(("conhost.exe", 12)), 4), AncestorStep::GiveUp);
    assert_eq!(ancestor_step(Some(("explorer.exe", 12)), 1), AncestorStep::Found("explorer.exe".to_string()));
    assert_eq!(ancestor_step(Some(("", 12)), 1), AncestorStep::Climb(12));
    assert_eq!(ancestor_step(None, 0), AncestorStep::GiveUp);
    assert_eq!(ancestor_step(Some(("chrome.exe", 10)), 5), AncestorStep::GiveUp);
    assert_eq!(ancestor_step(Some(("chrome.exe", 10)), 4), AncestorStep::Found("chrome.exe".to_string()));
}
