//! Properties of the relay that span several frames or several connections.

use vstd::prelude::*;
use crate::client::is_alphanumeric;
use crate::client::{ClientActionView, ClientFrameView, client_step, json_text_field, no_peer_text};
use crate::decode::{decode_wire, lemma_decode_wire, lemma_read_single_field, read_single_field};
use crate::packet::{MessageView, candidate_payload_text, escaped_text, json_string_literal, offer_payload_text, wire_text};
use crate::routes::{registered_routes, route_of};
use crate::server::{FrameView, ReplyView, SessionView, closed_routes, relay_step, reply_drains};

verus! {

/// A frame holding a `register` packet with identifier `id`.
pub open spec fn is_registration(frame: FrameView, id: Seq<char>) -> bool {
    exists|text: Seq<char>, m: MessageView|
        frame == FrameView::Data { text, packet: Some(m) } && m.msg_type == Some("register"@) && m.id
            == Some(id)
}

/// Registration makes the identifier reach the registering connection and
/// leaves every other name where it was.
pub proof fn registration_routes_identifier(routes: Map<Seq<char>, u64>, client: Seq<char>, id: Seq<char>)
    requires
        routes.contains_key(client),
    ensures
        route_of(registered_routes(routes, client, id), id) == Some(routes[client]),
        forall|k: Seq<char>|
            k != id ==> #[trigger] route_of(registered_routes(routes, client, id), k) == route_of(routes, k),
{
}

/// A connection that the table does not know cannot register: the table stays as it was.
pub proof fn unknown_connection_registers_nothing(routes: Map<Seq<char>, u64>, client: Seq<char>, id: Seq<char>)
    requires
        !routes.contains_key(client),
    ensures
        registered_routes(routes, client, id) == routes,
{
}

/// Once connection `s` has registered under `id`, any connection that receives
/// a packet for `id` (other than a registration) forwards that packet's text,
/// unchanged, to the channel of `s`.
pub proof fn registered_identifier_receives_packets(
    s: SessionView,
    routes: Map<Seq<char>, u64>,
    registration: FrameView,
    id: Seq<char>,
    other: SessionView,
    text: Seq<char>,
    m: MessageView,
)
    requires
        routes.contains_key(s.client),
        is_registration(registration, id),
        m.msg_type != Some("register"@),
        m.to == Some(id),
    ensures
        ({
            let after = relay_step(s, routes, registration);
            &&& after.0.registered == Some(id)
            &&& relay_step(other, after.1, FrameView::Data { text, packet: Some(m) }).2
                == ReplyView::Relay { to: id, channel: routes[s.client], text }
        }),
{
}

/// Only a registration changes the routing table; every other frame leaves it as it was.
pub proof fn only_registration_changes_routes(
    s: SessionView,
    routes: Map<Seq<char>, u64>,
    frame: FrameView,
)
    requires
        forall|id: Seq<char>| !is_registration(frame, id),
    ensures
        relay_step(s, routes, frame).1 == routes,
        relay_step(s, routes, frame).0 == s,
{
    match frame {
        FrameView::Data { text, packet: Some(m) } => {
            if m.msg_type == Some("register"@) {
                if let Some(id) = m.id {
                    assert(is_registration(frame, id));
                }
            }
        },
        _ => {},
    }
}

/// A connection stops being served exactly when its socket fails.
pub proof fn closes_only_on_failure(s: SessionView, routes: Map<Seq<char>, u64>, frame: FrameView)
    ensures
        relay_step(s, routes, frame).2 is Closed <==> frame is Failure,
{
}

/// After a connection closes, its registered identifier reaches nothing, and
/// every other name reaches what it reached before.
pub proof fn closing_forgets_identifier(s: SessionView, routes: Map<Seq<char>, u64>)
    ensures
        s.registered matches Some(id) ==> !closed_routes(s, routes).contains_key(id),
        forall|k: Seq<char>|
            s.registered != Some(k) ==> #[trigger] route_of(closed_routes(s, routes), k) == route_of(routes, k),
{
}

/// A connection that registers under `id` and then closes leaves the routing
/// table as it found it, but for `id`, which no longer reaches anything.
pub proof fn register_then_close(
    s: SessionView,
    routes: Map<Seq<char>, u64>,
    registration: FrameView,
    id: Seq<char>,
)
    requires
        is_registration(registration, id),
    ensures
        ({
            let after = relay_step(s, routes, registration);
            closed_routes(after.0, after.1) == routes.remove(id)
        }),
{
    let after = relay_step(s, routes, registration);
    assert(closed_routes(after.0, after.1) =~= routes.remove(id));
}

/// A character that JSON strings hold as it is: not `"`, not `\\`, not a control character.
pub open spec fn is_plain_char(c: char) -> bool {
    c != '"' && c != '\\' && (c as u32) >= 32
}

/// Text made only of plain characters is written inside a JSON string as it is.
pub proof fn plain_text_is_quoted_verbatim(s: Seq<char>)
    requires
        forall|i: int| 0 <= i < s.len() ==> is_plain_char(#[trigger] s[i]),
    ensures
        escaped_text(s) == s,
        json_string_literal(s) == seq!['"'] + s + seq!['"'],
    decreases s.len(),
{
    if s.len() > 0 {
        let init = s.drop_last();
        assert forall|i: int| 0 <= i < init.len() implies is_plain_char(#[trigger] init[i]) by {
            assert(init[i] == s[i]);
        }
        plain_text_is_quoted_verbatim(init);
        assert(is_plain_char(s[s.len() - 1]));
        assert(s =~= init + seq![s.last()]);
    }
}

/// A client identifier (letters and digits) appears in the wire text as it is, between quotes.
pub proof fn client_identifier_is_quoted_verbatim(id: Seq<char>)
    requires
        forall|i: int| 0 <= i < id.len() ==> is_alphanumeric(#[trigger] id[i]),
    ensures
        json_string_literal(id) == seq!['"'] + id + seq!['"'],
{
    assert forall|i: int| 0 <= i < id.len() implies is_plain_char(#[trigger] id[i]) by {
        assert(is_alphanumeric(id[i]));
    }
    plain_text_is_quoted_verbatim(id);
}

/// The relay sends out a connection's queue after every reply but a close: a
/// socket failure is the only thing that stops delivery to a connection.
pub proof fn queue_is_sent_unless_closed(r: ReplyView)
    ensures
        reply_drains(r) <==> !(r is Closed),
{
}

/// After any frame but a socket failure, in particular after a relayed packet,
/// the relay goes on to send out what was queued for the connection.
pub proof fn every_frame_but_a_failure_delivers_the_queue(
    s: SessionView,
    routes: Map<Seq<char>, u64>,
    frame: FrameView,
)
    ensures
        !(frame is Failure) ==> reply_drains(relay_step(s, routes, frame).2),
        frame is Failure ==> !reply_drains(relay_step(s, routes, frame).2),
{
}

/// Reading a packet's wire form back gives the packet: every field is written
/// whole, `null` stands only for an absent field, and the escapes undo.
pub proof fn wire_form_reads_back(m: MessageView)
    ensures
        decode_wire(wire_text(m)) == Some(m),
{
    lemma_decode_wire(m);
}

/// Two packets with the same wire form are the same packet.
pub proof fn wire_form_is_faithful(m1: MessageView, m2: MessageView)
    ensures
        wire_text(m1) == wire_text(m2) ==> m1 == m2,
{
    lemma_decode_wire(m1);
    lemma_decode_wire(m2);
}

/// The payload of an offer is a JSON object whose key `offer` holds the whole
/// session description.
pub proof fn offer_payload_reads_back(sdp: Seq<char>)
    ensures
        read_single_field(offer_payload_text(sdp), "{\"offer\":"@) == Some(sdp),
{
    lemma_read_single_field("{\"offer\":"@, sdp);
}

/// The payload of an ICE candidate is a JSON object whose key `candidate` holds
/// the whole candidate.
pub proof fn candidate_payload_reads_back(candidate: Seq<char>)
    ensures
        read_single_field(candidate_payload_text(candidate), "{\"candidate\":"@) == Some(candidate),
{
    lemma_read_single_field("{\"candidate\":"@, candidate);
}

/// An `offer` from the relay that carries `offer` and `from` strings is taken
/// as that offer from that sender.
pub proof fn offer_is_taken_from_its_keys(connect_to: Seq<char>, text: Seq<char>, offer: Seq<char>, from: Seq<char>)
    requires
        json_text_field(text, "type"@) == Some(Some("offer"@)),
        json_text_field(text, "offer"@) == Some(Some(offer)),
        json_text_field(text, "from"@) == Some(Some(from)),
    ensures
        client_step(connect_to, ClientFrameView::Text { text }) == (ClientActionView::Offered { offer, from }),
{
}

/// An `offer` from the relay without both an `offer` and a `from` string, or a
/// text that is not JSON, cannot be read.
pub proof fn unreadable_signals(connect_to: Seq<char>, text: Seq<char>)
    ensures
        json_text_field(text, "type"@) is None ==> client_step(connect_to, ClientFrameView::Text { text })
            == ClientActionView::Unreadable,
        (json_text_field(text, "type"@) == Some(Some("offer"@)) && (!(json_text_field(text, "offer"@) matches Some(Some(_)))
            || !(json_text_field(text, "from"@) matches Some(Some(_))))) ==> client_step(
            connect_to,
            ClientFrameView::Text { text },
        ) == ClientActionView::Unreadable,
{
}

/// A `hello` from the relay makes the client connect to its peer, or wait when
/// it has none.
pub proof fn hello_connects_to_the_peer(connect_to: Seq<char>, text: Seq<char>)
    requires
        json_text_field(text, "type"@) == Some(Some("hello"@)),
    ensures
        connect_to != no_peer_text() ==> client_step(connect_to, ClientFrameView::Text { text })
            == (ClientActionView::Connect { to: connect_to }),
        connect_to == no_peer_text() ==> client_step(connect_to, ClientFrameView::Text { text })
            == ClientActionView::Wait,
{
    reveal_strlit("hello");
    reveal_strlit("offer");
    assert("hello"@[0] != "offer"@[0]);
}

} // verus!
