//! The relay: what it does with each frame a connection receives.
//!
//! Each accepted connection gets a [`Session`]. The driver reads a frame from
//! the socket, hands it to [`Session::on_frame`] together with the shared
//! [`RouteTable`], and carries out the [`Reply`]: it answers on the socket,
//! forwards text to another connection's channel, or closes. Unless the reply
//! says otherwise it then sends out what other connections queued for this one.

use vstd::prelude::*;
use vstd::string::*;
use crate::packet::{Message, MessageView, opt_text, wire_text};
use crate::routes::{RouteTable, registered_routes, route_of};
use crate::text::{contains_text, find_text, opt_str_text};

verus! {

/// The socket error text that the relay does not report: a peer that went away
/// without a closing handshake.
pub open spec fn quiet_error_text() -> Seq<char> {
    "Connection reset without closing handshake"@
}

/// Whether the relay reports a socket error with this description.
pub fn is_reported_error(error: &str) -> (b: bool)
    ensures
        b == !contains_text(error@, quiet_error_text()),
{
    !find_text(error, "Connection reset without closing handshake")
}

/// The address the relay listens on: `host:port`, with host `0.0.0.0` and port
/// `1720` where none is given.
pub open spec fn listen_address_text(host: Option<Seq<char>>, port: Option<Seq<char>>) -> Seq<char> {
    let h = match host {
        Some(h) => h,
        None => "0.0.0.0"@,
    };
    let p = match port {
        Some(p) => p,
        None => "1720"@,
    };
    h + ":"@ + p
}

/// The address the relay listens on, from the optional `--host` and `--port` arguments.
pub fn listen_address(host: Option<&str>, port: Option<&str>) -> (addr: String)
    ensures
        addr@ == listen_address_text(opt_str_text(host), opt_str_text(port)),
{
    let mut addr = match host {
        Some(h) => String::from_str(h),
        None => String::from_str("0.0.0.0"),
    };
    addr.append(":");
    match port {
        Some(p) => addr.append(p),
        None => addr.append("1720"),
    }
    addr
}

/// A frame that a connection received, as the driver hands it over.
pub enum Frame {
    /// A text or binary frame, with its text, and the packet read from the text
    /// when the text is one.
    Data { text: String, packet: Option<Message> },
    /// Any other frame (ping, pong, close).
    Control,
    /// The socket failed; `error` describes the failure.
    Failure { error: String },
}

/// The mathematical content of a [`Frame`].
pub enum FrameView {
    Data { text: Seq<char>, packet: Option<MessageView> },
    Control,
    Failure { error: Seq<char> },
}

/// The content of an optional packet.
pub open spec fn opt_packet(p: Option<Message>) -> Option<MessageView> {
    match p {
        Some(m) => Some(m@),
        None => None,
    }
}

impl View for Frame {
    type V = FrameView;

    open spec fn view(&self) -> FrameView {
        match self {
            Frame::Data { text, packet } => FrameView::Data { text: text@, packet: opt_packet(*packet) },
            Frame::Control => FrameView::Control,
            Frame::Failure { error } => FrameView::Failure { error: error@ },
        }
    }
}

/// What the relay does after a frame.
pub enum Reply {
    /// The connection registered under `id`: answer on its socket with `hello`.
    Registered { id: String, hello: String },
    /// Forward `text`, unchanged, to the connection numbered `channel`, which `to` reaches.
    Relay { to: String, channel: u64, text: String },
    /// The packet is for `to`, which no connection answers to: drop it.
    Unrouted { to: String },
    /// Nothing to do for this frame.
    Ignored,
    /// The socket failed: stop serving the connection. `report` says whether the
    /// failure is worth reporting.
    Closed { report: bool },
}

/// The mathematical content of a [`Reply`].
pub enum ReplyView {
    Registered { id: Seq<char>, hello: Seq<char> },
    Relay { to: Seq<char>, channel: u64, text: Seq<char> },
    Unrouted { to: Seq<char> },
    Ignored,
    Closed { report: bool },
}

impl View for Reply {
    type V = ReplyView;

    open spec fn view(&self) -> ReplyView {
        match self {
            Reply::Registered { id, hello } => ReplyView::Registered { id: id@, hello: hello@ },
            Reply::Relay { to, channel, text } => ReplyView::Relay { to: to@, channel: *channel, text: text@ },
            Reply::Unrouted { to } => ReplyView::Unrouted { to: to@ },
            Reply::Ignored => ReplyView::Ignored,
            Reply::Closed { report } => ReplyView::Closed { report: *report },
        }
    }
}

/// After this reply the relay sends out what was queued for the connection:
/// always, but when the connection closes.
pub open spec fn reply_drains(r: ReplyView) -> bool {
    match r {
        ReplyView::Closed { .. } => false,
        _ => true,
    }
}

impl Reply {
    /// Whether the relay sends out the connection's queue after this reply.
    pub fn drains(&self) -> (b: bool)
        ensures
            b == reply_drains(self@),
    {
        match self {
            Reply::Closed { .. } => false,
            _ => true,
        }
    }
}

/// The state the relay keeps for one connection.
pub struct Session {
    /// The peer address of the connection: the name it was entered under.
    pub client_id: String,
    /// The identifier the connection last registered under.
    pub registered_id: Option<String>,
}

/// The mathematical content of a [`Session`].
pub struct SessionView {
    pub client: Seq<char>,
    pub registered: Option<Seq<char>>,
}

impl View for Session {
    type V = SessionView;

    open spec fn view(&self) -> SessionView {
        SessionView { client: self.client_id@, registered: opt_text(self.registered_id) }
    }
}

/// The packet the relay answers a registration under `id` with.
pub open spec fn hello_packet(id: Seq<char>) -> MessageView {
    MessageView { msg_type: Some("hello"@), id: None, to: Some(id), from: None, payload: None }
}

/// What the relay does with a frame: the session after it, the routing table
/// after it, and the reply.
///
/// - A socket failure closes the connection; it is reported unless it is a
///   reset without closing handshake.
/// - A control frame is ignored.
/// - Text that is not a packet is dropped.
/// - A `register` packet with an `id` makes `id` reach this connection (when the
///   table knows the connection), remembers `id` as the session's name, and is
///   answered with a `hello` addressed to `id`. Without an `id` it is ignored.
/// - Any other packet with a `to` is forwarded, as received, to the connection
///   `to` reaches, or dropped when no connection answers to `to`. Without a
///   `to` it is ignored.
pub open spec fn relay_step(s: SessionView, routes: Map<Seq<char>, u64>, frame: FrameView) -> (
    SessionView,
    Map<Seq<char>, u64>,
    ReplyView,
) {
    match frame {
        FrameView::Failure { error } => (
            s,
            routes,
            ReplyView::Closed { report: !contains_text(error, quiet_error_text()) },
        ),
        FrameView::Control => (s, routes, ReplyView::Ignored),
        FrameView::Data { text, packet } => match packet {
            None => (s, routes, ReplyView::Ignored),
            Some(m) => if m.msg_type == Some("register"@) {
                match m.id {
                    Some(id) => (
                        SessionView { client: s.client, registered: Some(id) },
                        registered_routes(routes, s.client, id),
                        ReplyView::Registered { id, hello: wire_text(hello_packet(id)) },
                    ),
                    None => (s, routes, ReplyView::Ignored),
                }
            } else {
                match m.to {
                    Some(to) => match route_of(routes, to) {
                        Some(channel) => (s, routes, ReplyView::Relay { to, channel, text }),
                        None => (s, routes, ReplyView::Unrouted { to }),
                    },
                    None => (s, routes, ReplyView::Ignored),
                }
            },
        },
    }
}

/// The routing table after a connection closes: its registered name, if it has
/// one, no longer reaches anything.
pub open spec fn closed_routes(s: SessionView, routes: Map<Seq<char>, u64>) -> Map<Seq<char>, u64> {
    match s.registered {
        Some(id) => routes.remove(id),
        None => routes,
    }
}

impl Session {
    /// The session of a connection just accepted from peer address `client_id`.
    pub fn new(client_id: String) -> (s: Session)
        ensures
            s@ == (SessionView { client: client_id@, registered: None }),
    {
        Session { client_id, registered_id: None }
    }

    /// Handles one frame of this connection: updates the session and the
    /// routing table, and says what to do, as [`relay_step`] states.
    pub fn on_frame(&mut self, table: &mut RouteTable, frame: Frame) -> (reply: Reply)
        requires
            old(table).wf(),
        ensures
            final(table).wf(),
            (final(self)@, final(table)@, reply@) == relay_step(old(self)@, old(table)@, frame@),
    {
        match frame {
            Frame::Failure { error } => Reply::Closed { report: is_reported_error(error.as_str()) },
            Frame::Control => Reply::Ignored,
            Frame::Data { text, packet } => match packet {
                None => Reply::Ignored,
                Some(m) => {
                    let register = String::from_str("register");
                    let is_register = match &m.msg_type {
                        Some(t) => *t == register,
                        None => false,
                    };
                    if is_register {
                        match m.id {
                            Some(id) => {
                                table.register(&self.client_id, &id);
                                self.registered_id = Some(id.clone());
                                let hello = Message::hello(id.clone()).encode();
                                Reply::Registered { id, hello }
                            },
                            None => Reply::Ignored,
                        }
                    } else {
                        match m.to {
                            Some(to) => match table.get(&to) {
                                Some(channel) => Reply::Relay { to, channel, text },
                                None => Reply::Unrouted { to },
                            },
                            None => Reply::Ignored,
                        }
                    }
                },
            },
        }
    }

    /// Ends the connection: its registered name, if any, is taken out of the
    /// routing table, and returned. The peer address stays in the table.
    pub fn close(self, table: &mut RouteTable) -> (name: Option<String>)
        requires
            old(table).wf(),
        ensures
            final(table).wf(),
            final(table)@ == closed_routes(self@, old(table)@),
            opt_text(name) == self@.registered,
    {
        match self.registered_id {
            Some(id) => {
                table.remove(&id);
                Some(id)
            },
            None => None,
        }
    }
}

} // verus!
