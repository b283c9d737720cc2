use websocket_core::address::normalize_target;
use websocket_core::websocket::Target;

fn s(x: &str) -> String {
    x.to_string()
}

#[test]
fn plain_address_gets_default_port() {
    let t = normalize_target("ws", Some(s("example.com")), None, s("/chat"), None, false);
    assert_eq!(
        t,
        Some(Target { host: s("example.com"), port: 80, resource: s("/chat"), secure: false })
    );
}

#[test]
fn secure_address_with_query() {
    let t = normalize_target("wss", Some(s("example.com")), None, s("/a"), Some(s("x=1")), false);
    assert_eq!(
        t,
        Some(Target { host: s("example.com"), port: 443, resource: s("/a?x=1"), secure: true })
    );
}

#[test]
fn explicit_port_is_kept() {
    let t = normalize_target("ws", Some(s("h")), Some(8080), s("/"), None, false);
    assert_eq!(t.map(|t| t.port), Some(8080));
}

#[test]
fn other_schemes_refused() {
    assert_eq!(normalize_target("http", Some(s("h")), None, s("/"), None, false), None);
    assert_eq!(normalize_target("w", Some(s("h")), None, s("/"), None, false), None);
    assert_eq!(normalize_target("wsx", Some(s("h")), None, s("/"), None, false), None);
    assert_eq!(normalize_target("WS", Some(s("h")), None, s("/"), None, false), None);
}

#[test]
fn fragment_or_missing_host_refused() {
    assert_eq!(normalize_target("ws", Some(s("h")), None, s("/"), None, true), None);
    assert_eq!(normalize_target("ws", None, None, s("/"), None, false), None);
}
