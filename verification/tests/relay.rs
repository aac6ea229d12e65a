use undertone::packet::{candidate_payload, offer_payload, Message};
use undertone::routes::RouteTable;
use undertone::server::{is_reported_error, listen_address, Frame, Reply, Session};
use undertone::text::find_text;

fn s(x: &str) -> String {
    x.to_string()
}

fn packet(kind: Option<&str>, id: Option<&str>, to: Option<&str>) -> Message {
    Message {
        msg_type: kind.map(s),
        id: id.map(s),
        to: to.map(s),
        from: None,
        payload: None,
    }
}

fn data(text: &str, m: Option<Message>) -> Frame {
    Frame::Data { text: s(text), packet: m }
}

#[test]
fn hello_encodes_with_nulls() {
    assert_eq!(
        Message::hello(s("abc")).encode(),
        "{\"type\":\"hello\",\"id\":null,\"to\":\"abc\",\"from\":null,\"payload\":null}"
    );
}

#[test]
fn register_encodes() {
    assert_eq!(
        Message::register(s("Zx9")).encode(),
        "{\"type\":\"register\",\"id\":\"Zx9\",\"to\":null,\"from\":null,\"payload\":null}"
    );
}

#[test]
fn encode_escapes_quotes_and_newlines() {
    let m = packet(Some("x\"y"), None, Some("a\nb"));
    assert_eq!(
        m.encode(),
        "{\"type\":\"x\\\"y\",\"id\":null,\"to\":\"a\\nb\",\"from\":null,\"payload\":null}"
    );
}

#[test]
fn offer_packet_and_payload() {
    assert_eq!(offer_payload("v=0\r\n"), "{\"offer\":\"v=0\\r\\n\"}");
    let m = Message::offer(s("me"), s("you"), "sdp");
    assert_eq!(
        m.encode(),
        "{\"type\":\"offer\",\"id\":\"me\",\"to\":\"you\",\"from\":\"me\",\"payload\":\"{\\\"offer\\\":\\\"sdp\\\"}\"}"
    );
}

#[test]
fn candidate_packet_and_payload() {
    assert_eq!(candidate_payload("c1"), "{\"candidate\":\"c1\"}");
    let m = Message::ice_candidate(s("me"), s("you"), "c1");
    assert_eq!(m.from, None);
    assert_eq!(m.payload, Some(s("{\"candidate\":\"c1\"}")));
    assert_eq!(m.msg_type, Some(s("ice_candidate")));
}

#[test]
fn table_insert_get_remove() {
    let mut t = RouteTable::new();
    assert_eq!(t.len(), 0);
    t.insert(s("a"), 1);
    t.insert(s("b"), 2);
    t.insert(s("a"), 3);
    assert_eq!(t.len(), 2);
    assert_eq!(t.get(&s("a")), Some(3));
    assert_eq!(t.get(&s("b")), Some(2));
    assert_eq!(t.get(&s("c")), None);
    assert_eq!(t.remove(&s("a")), Some(3));
    assert_eq!(t.remove(&s("a")), None);
    assert!(!t.contains(&s("a")));
    assert!(t.contains(&s("b")));
    assert_eq!(t.len(), 1);
}

#[test]
fn registration_aliases_known_connection() {
    let mut t = RouteTable::new();
    t.insert(s("10.0.0.1:5000"), 7);
    t.register(&s("10.0.0.1:5000"), &s("alice"));
    assert_eq!(t.get(&s("alice")), Some(7));
    assert_eq!(t.get(&s("10.0.0.1:5000")), Some(7));
    assert_eq!(t.len(), 2);
}

#[test]
fn unknown_connection_cannot_register() {
    let mut t = RouteTable::new();
    t.insert(s("10.0.0.1:5000"), 7);
    t.register(&s("10.0.0.2:6000"), &s("bob"));
    assert_eq!(t.get(&s("bob")), None);
    assert_eq!(t.len(), 1);
}

#[test]
fn register_frame_answers_hello() {
    let mut t = RouteTable::new();
    t.insert(s("p1"), 1);
    let mut sess = Session::new(s("p1"));
    let text = "{\"type\":\"register\",\"id\":\"alice\"}";
    let r = sess.on_frame(&mut t, data(text, Some(packet(Some("register"), Some("alice"), None))));
    match &r {
        Reply::Registered { id, hello } => {
            assert_eq!(id, "alice");
            assert_eq!(hello, "{\"type\":\"hello\",\"id\":null,\"to\":\"alice\",\"from\":null,\"payload\":null}");
        }
        _ => panic!("expected a registration"),
    }
    assert!(r.drains());
    assert_eq!(sess.registered_id, Some(s("alice")));
    assert_eq!(t.get(&s("alice")), Some(1));
}

#[test]
fn register_without_id_is_ignored() {
    let mut t = RouteTable::new();
    t.insert(s("p1"), 1);
    let mut sess = Session::new(s("p1"));
    let r = sess.on_frame(&mut t, data("{}", Some(packet(Some("register"), None, Some("x")))));
    assert!(matches!(r, Reply::Ignored));
    assert_eq!(sess.registered_id, None);
    assert_eq!(t.len(), 1);
}

#[test]
fn packet_for_registered_id_is_relayed_unchanged() {
    let mut t = RouteTable::new();
    t.insert(s("p1"), 1);
    t.insert(s("p2"), 2);
    let mut alice = Session::new(s("p1"));
    let mut bob = Session::new(s("p2"));
    alice.on_frame(&mut t, data("", Some(packet(Some("register"), Some("alice"), None))));
    let text = "{\"type\":\"offer\",\"to\":\"alice\",  \"extra\": 1}";
    let r = bob.on_frame(&mut t, data(text, Some(packet(Some("offer"), Some("bob"), Some("alice")))));
    match r {
        Reply::Relay { to, channel, text: forwarded } => {
            assert_eq!(to, "alice");
            assert_eq!(channel, 1);
            assert_eq!(forwarded, text);
        }
        _ => panic!("expected a relay"),
    }
}

#[test]
fn packet_without_type_is_relayed_too() {
    let mut t = RouteTable::new();
    t.insert(s("p1"), 4);
    let mut sess = Session::new(s("p2"));
    let r = sess.on_frame(&mut t, data("x", Some(packet(None, None, Some("p1")))));
    assert!(matches!(r, Reply::Relay { channel: 4, .. }));
}

#[test]
fn packet_for_unknown_id_is_unrouted() {
    let mut t = RouteTable::new();
    let mut sess = Session::new(s("p1"));
    let r = sess.on_frame(&mut t, data("x", Some(packet(Some("offer"), None, Some("nobody")))));
    match &r {
        Reply::Unrouted { to } => assert_eq!(to, "nobody"),
        _ => panic!("expected unrouted"),
    }
    assert!(r.drains());
}

#[test]
fn packet_without_recipient_is_ignored() {
    let mut t = RouteTable::new();
    let mut sess = Session::new(s("p1"));
    let r = sess.on_frame(&mut t, data("x", Some(packet(Some("offer"), Some("a"), None))));
    assert!(matches!(r, Reply::Ignored));
}

#[test]
fn unparsed_text_is_ignored_and_queue_still_sent() {
    let mut t = RouteTable::new();
    let mut sess = Session::new(s("p1"));
    let r = sess.on_frame(&mut t, data("not json", None));
    assert!(matches!(r, Reply::Ignored));
    assert!(r.drains());
}

#[test]
fn encode_escapes_controls_and_backslash() {
    let m = packet(Some("a\\b\tc\u{1}d\u{1f}é/"), None, None);
    assert_eq!(
        m.encode(),
        "{\"type\":\"a\\\\b\\tc\\u0001d\\u001fé/\",\"id\":null,\"to\":null,\"from\":null,\"payload\":null}"
    );
}

#[test]
fn control_frames_are_ignored() {
    let mut t = RouteTable::new();
    let mut sess = Session::new(s("p1"));
    let r = sess.on_frame(&mut t, Frame::Control);
    assert!(matches!(r, Reply::Ignored));
    assert!(r.drains());
}

#[test]
fn failures_close_and_resets_are_quiet() {
    let mut t = RouteTable::new();
    let mut sess = Session::new(s("p1"));
    let r = sess.on_frame(&mut t, Frame::Failure { error: s("IO error: broken pipe") });
    assert!(matches!(r, Reply::Closed { report: true }));
    assert!(!r.drains());
    let quiet = s("WebSocket protocol error: Connection reset without closing handshake");
    let r = sess.on_frame(&mut t, Frame::Failure { error: quiet });
    assert!(matches!(r, Reply::Closed { report: false }));
}

#[test]
fn reported_error_filter() {
    assert!(is_reported_error(""));
    assert!(is_reported_error("Connection reset"));
    assert!(!is_reported_error("Connection reset without closing handshake"));
    assert!(!is_reported_error("x: Connection reset without closing handshake."));
}

#[test]
fn closing_removes_registered_identifier_only() {
    let mut t = RouteTable::new();
    t.insert(s("p1"), 1);
    let mut sess = Session::new(s("p1"));
    sess.on_frame(&mut t, data("", Some(packet(Some("register"), Some("alice"), None))));
    assert_eq!(sess.close(&mut t), Some(s("alice")));
    assert_eq!(t.get(&s("alice")), None);
    assert_eq!(t.get(&s("p1")), Some(1));
}

#[test]
fn closing_unregistered_session_changes_nothing() {
    let mut t = RouteTable::new();
    t.insert(s("p1"), 1);
    let sess = Session::new(s("p1"));
    assert_eq!(sess.close(&mut t), None);
    assert_eq!(t.len(), 1);
}

#[test]
fn reregistering_keeps_both_identifiers_until_close() {
    let mut t = RouteTable::new();
    t.insert(s("p1"), 1);
    let mut sess = Session::new(s("p1"));
    sess.on_frame(&mut t, data("", Some(packet(Some("register"), Some("a"), None))));
    sess.on_frame(&mut t, data("", Some(packet(Some("register"), Some("b"), None))));
    assert_eq!(t.get(&s("a")), Some(1));
    assert_eq!(sess.close(&mut t), Some(s("b")));
    assert_eq!(t.get(&s("a")), Some(1));
    assert_eq!(t.get(&s("b")), None);
}

#[test]
fn listen_address_defaults() {
    assert_eq!(listen_address(None, None), "0.0.0.0:1720");
    assert_eq!(listen_address(Some("127.0.0.1"), None), "127.0.0.1:1720");
    assert_eq!(listen_address(None, Some("9000")), "0.0.0.0:9000");
    assert_eq!(listen_address(Some("::1"), Some("80")), "::1:80");
}

#[test]
fn text_search() {
    assert!(find_text("abc", ""));
    assert!(find_text("abc", "abc"));
    assert!(find_text("xabcx", "bc"));
    assert!(!find_text("ab", "abc"));
    assert!(!find_text("abd", "bc"));
    assert!(find_text("héllo wörld", "ö"));
}
