use undertone::client::{
    client_id_length, data_channel_settings, new_client_id, peer_target, read_signal, ClientAction,
    ClientFrame, ClientSession, Signal,
};

fn s(x: &str) -> String {
    x.to_string()
}

fn session(to: &str) -> ClientSession {
    ClientSession { client_id: s("abc123"), connect_to: s(to) }
}

#[test]
fn identifier_lengths() {
    assert_eq!(client_id_length(false), 12);
    assert_eq!(client_id_length(true), 48);
    let id = new_client_id(false);
    assert_eq!(id.chars().count(), 12);
    assert!(id.chars().all(|c| c.is_ascii_alphanumeric()));
    let id = new_client_id(true);
    assert_eq!(id.chars().count(), 48);
    assert!(id.chars().all(|c| c.is_ascii_alphanumeric()));
}

#[test]
fn session_start_draws_identifier() {
    let sess = ClientSession::start(s("peer"), true);
    assert_eq!(sess.client_id.len(), 48);
    assert_eq!(sess.connect_to, "peer");
}

#[test]
fn peer_target_defaults_to_disabled() {
    assert_eq!(peer_target(None), "disabled");
    assert_eq!(peer_target(Some("XyZ")), "XyZ");
}

#[test]
fn registration_text() {
    assert_eq!(
        session("disabled").registration(),
        "{\"type\":\"register\",\"id\":\"abc123\",\"to\":null,\"from\":null,\"payload\":null}"
    );
}

#[test]
fn offer_and_candidate_texts() {
    let sess = session("peer");
    assert_eq!(
        sess.offer_text("o"),
        "{\"type\":\"offer\",\"id\":\"abc123\",\"to\":\"peer\",\"from\":\"abc123\",\"payload\":\"{\\\"offer\\\":\\\"o\\\"}\"}"
    );
    assert_eq!(
        sess.candidate_text("c"),
        "{\"type\":\"ice_candidate\",\"id\":\"abc123\",\"to\":\"peer\",\"from\":null,\"payload\":\"{\\\"candidate\\\":\\\"c\\\"}\"}"
    );
}

#[test]
fn signals_are_read() {
    assert!(matches!(read_signal("{\"type\":\"hello\",\"to\":\"x\"}"), Some(Signal::Hello)));
    assert!(matches!(read_signal("{\"type\":\"ice_candidate\"}"), Some(Signal::Other)));
    assert!(matches!(read_signal("{\"type\":7}"), Some(Signal::Other)));
    assert!(matches!(read_signal("[1,2]"), Some(Signal::Other)));
    assert!(matches!(read_signal("{}"), Some(Signal::Other)));
    match read_signal("{\"type\":\"offer\",\"offer\":\"sdp\",\"from\":\"bob\"}") {
        Some(Signal::Offer { offer, from }) => {
            assert_eq!(offer, "sdp");
            assert_eq!(from, "bob");
        }
        _ => panic!("expected an offer"),
    }
}

#[test]
fn unreadable_signals() {
    assert!(read_signal("not json").is_none());
    assert!(read_signal("{\"type\":\"offer\",\"offer\":\"sdp\"}").is_none());
    assert!(read_signal("{\"type\":\"offer\",\"from\":\"bob\"}").is_none());
    assert!(read_signal("{\"type\":\"offer\",\"offer\":1,\"from\":\"bob\"}").is_none());
}

#[test]
fn hello_connects_to_peer_when_one_is_given() {
    let a = session("peer").on_frame(ClientFrame::Text { text: s("{\"type\":\"hello\"}") });
    match a {
        ClientAction::Connect { to } => assert_eq!(to, "peer"),
        _ => panic!("expected connect"),
    }
    let a = session("disabled").on_frame(ClientFrame::Text { text: s("{\"type\":\"hello\"}") });
    assert!(matches!(a, ClientAction::Wait));
}

#[test]
fn other_client_frames() {
    let sess = session("peer");
    assert!(matches!(sess.on_frame(ClientFrame::Other), ClientAction::Ignore));
    assert!(matches!(sess.on_frame(ClientFrame::Failure), ClientAction::Stop));
    assert!(matches!(sess.on_frame(ClientFrame::Text { text: s("oops") }), ClientAction::Unreadable));
    assert!(matches!(
        sess.on_frame(ClientFrame::Text { text: s("{\"type\":\"offer\",\"offer\":\"o\",\"from\":\"f\"}") }),
        ClientAction::Offered { .. }
    ));
    assert!(matches!(
        sess.on_frame(ClientFrame::Text { text: s("{\"type\":\"bye\"}") }),
        ClientAction::Ignore
    ));
}

#[test]
fn data_channel_is_ordered_with_empty_protocol() {
    let c = data_channel_settings();
    assert_eq!(c.ordered, Some(true));
    assert_eq!(c.protocol, Some(s("")));
    assert_eq!(c.max_packet_life_time, None);
    assert_eq!(c.max_retransmits, None);
    assert_eq!(c.negotiated, None);
}
