//! The client: its identifier, its registration, and what it does with each
//! frame the relay sends it.

use vstd::prelude::*;
use vstd::string::*;
use crate::text::opt_str_text;
use crate::packet::{Message, MessageView, candidate_payload_text, offer_payload_text, opt_text, wire_text};

verus! {

/// The length of a client identifier: 48 characters in secure mode, 12 otherwise.
pub open spec fn id_length(secure: bool) -> nat {
    if secure {
        48
    } else {
        12
    }
}

/// An ASCII letter or digit.
pub open spec fn is_alphanumeric(c: char) -> bool {
    ||| 48 <= (c as u32) <= 57
    ||| 65 <= (c as u32) <= 90
    ||| 97 <= (c as u32) <= 122
}

/// The length of a client identifier in the given mode.
pub fn client_id_length(secure: bool) -> (n: usize)
    ensures
        n == id_length(secure),
{
    if secure {
        48
    } else {
        12
    }
}

/// Draws `len` characters from rand's `Alphanumeric` distribution with the
/// thread's generator. As rand documents, each character is an ASCII letter or
/// digit; which ones come out is left unsaid, being chance.
#[verifier::external_body]
fn random_alphanumeric(len: usize) -> (s: String)
    ensures
        s@.len() == len,
        forall|i: int| 0 <= i < s@.len() ==> is_alphanumeric(#[trigger] s@[i]),
{
    rand::Rng::sample_iter(rand::thread_rng(), &rand::distributions::Alphanumeric)
        .take(len)
        .map(char::from)
        .collect()
}

/// A fresh random client identifier: ASCII letters and digits, 48 of them in
/// secure mode and 12 otherwise.
pub fn new_client_id(secure: bool) -> (id: String)
    ensures
        id@.len() == id_length(secure),
        forall|i: int| 0 <= i < id@.len() ==> is_alphanumeric(#[trigger] id@[i]),
{
    random_alphanumeric(client_id_length(secure))
}

/// The word that stands for "no peer to connect to".
pub open spec fn no_peer_text() -> Seq<char> {
    "disabled"@
}

/// The peer to connect to, from the optional `--connect` argument: `disabled` when none is given.
pub fn peer_target(arg: Option<&str>) -> (target: String)
    ensures
        target@ == match opt_str_text(arg) {
            Some(t) => t,
            None => no_peer_text(),
        },
{
    match arg {
        Some(t) => String::from_str(t),
        None => String::from_str("disabled"),
    }
}

/// What `serde_json` finds in `text` under `key`: `None` when `text` is not
/// JSON; otherwise the string stored under `key`, or `None` inside when `text`
/// is not an object, has no such key, or holds something other than a string there.
pub uninterp spec fn json_text_field(text: Seq<char>, key: Seq<char>) -> Option<Option<Seq<char>>>;

/// The inner option of a doubly optional text, as a view.
pub open spec fn opt_opt_text(o: Option<Option<String>>) -> Option<Option<Seq<char>>> {
    match o {
        Some(f) => Some(opt_text(f)),
        None => None,
    }
}

/// Parses `text` as a `serde_json::Value` and reads `key` from it with
/// `Value::index` and `Value::as_str`. The contract names the result
/// (`json_text_field`); JSON's grammar is not stated.
#[verifier::external_body]
fn json_field(text: &str, key: &str) -> (r: Option<Option<String>>)
    ensures
        opt_opt_text(r) == json_text_field(text@, key@),
{
    match serde_json::from_str::<serde_json::Value>(text) {
        Ok(v) => Some(v[key].as_str().map(String::from)),
        Err(_) => None,
    }
}

/// A signal from the relay, as the client reads it.
pub enum Signal {
    /// Another client offers a connection.
    Offer { offer: String, from: String },
    /// The relay accepted the registration.
    Hello,
    /// Anything else.
    Other,
}

/// The mathematical content of a [`Signal`].
pub enum SignalView {
    Offer { offer: Seq<char>, from: Seq<char> },
    Hello,
    Other,
}

impl View for Signal {
    type V = SignalView;

    open spec fn view(&self) -> SignalView {
        match self {
            Signal::Offer { offer, from } => SignalView::Offer { offer: offer@, from: from@ },
            Signal::Hello => SignalView::Hello,
            Signal::Other => SignalView::Other,
        }
    }
}

/// The content of an optional signal.
pub open spec fn opt_signal(s: Option<Signal>) -> Option<SignalView> {
    match s {
        Some(x) => Some(x@),
        None => None,
    }
}

/// The signal a document with these `type`, `offer` and `from` strings carries.
/// An `offer` without both an `offer` and a `from` string is no signal: `None`.
pub open spec fn signal_of(kind: Option<Seq<char>>, offer: Option<Seq<char>>, from: Option<Seq<char>>) -> Option<
    SignalView,
> {
    if kind == Some("offer"@) {
        match (offer, from) {
            (Some(o), Some(f)) => Some(SignalView::Offer { offer: o, from: f }),
            _ => None,
        }
    } else if kind == Some("hello"@) {
        Some(SignalView::Hello)
    } else {
        Some(SignalView::Other)
    }
}

/// The signal a document with these `type`, `offer` and `from` strings carries,
/// as [`signal_of`] states.
pub fn classify_signal(kind: Option<String>, offer: Option<String>, from: Option<String>) -> (s: Option<Signal>)
    ensures
        opt_signal(s) == signal_of(opt_text(kind), opt_text(offer), opt_text(from)),
{
    let is_offer = match &kind {
        Some(k) => *k == String::from_str("offer"),
        None => false,
    };
    let is_hello = match &kind {
        Some(k) => *k == String::from_str("hello"),
        None => false,
    };
    if is_offer {
        match (offer, from) {
            (Some(o), Some(f)) => Some(Signal::Offer { offer: o, from: f }),
            _ => None,
        }
    } else if is_hello {
        Some(Signal::Hello)
    } else {
        Some(Signal::Other)
    }
}

/// The string found under a key, or `None` when the text is not JSON or holds no string there.
pub open spec fn found_text(f: Option<Option<Seq<char>>>) -> Option<Seq<char>> {
    match f {
        Some(x) => x,
        None => None,
    }
}

/// The signal a text from the relay carries: `None` when the text is not JSON,
/// or is an `offer` without `offer` and `from` strings.
pub open spec fn signal_in_text(text: Seq<char>) -> Option<SignalView> {
    match json_text_field(text, "type"@) {
        None => None,
        Some(kind) => signal_of(
            kind,
            found_text(json_text_field(text, "offer"@)),
            found_text(json_text_field(text, "from"@)),
        ),
    }
}

fn found(f: Option<Option<String>>) -> (r: Option<String>)
    ensures
        opt_text(r) == found_text(opt_opt_text(f)),
{
    match f {
        Some(x) => x,
        None => None,
    }
}

/// Reads the signal in a text from the relay, as [`signal_in_text`] states.
pub fn read_signal(text: &str) -> (s: Option<Signal>)
    ensures
        opt_signal(s) == signal_in_text(text@),
{
    match json_field(text, "type") {
        None => None,
        Some(kind) => {
            let is_offer = match &kind {
                Some(k) => *k == String::from_str("offer"),
                None => false,
            };
            if is_offer {
                let offer = found(json_field(text, "offer"));
                let from = found(json_field(text, "from"));
                classify_signal(kind, offer, from)
            } else {
                classify_signal(kind, None, None)
            }
        },
    }
}

/// A frame the client received from the relay, as the driver hands it over.
pub enum ClientFrame {
    /// A text frame.
    Text { text: String },
    /// Any other frame.
    Other,
    /// The socket failed.
    Failure,
}

/// The mathematical content of a [`ClientFrame`].
pub enum ClientFrameView {
    Text { text: Seq<char> },
    Other,
    Failure,
}

impl View for ClientFrame {
    type V = ClientFrameView;

    open spec fn view(&self) -> ClientFrameView {
        match self {
            ClientFrame::Text { text } => ClientFrameView::Text { text: text@ },
            ClientFrame::Other => ClientFrameView::Other,
            ClientFrame::Failure => ClientFrameView::Failure,
        }
    }
}

/// What the client does after a frame.
pub enum ClientAction {
    /// The relay accepted the registration: connect to peer `to` by sending it an offer.
    Connect { to: String },
    /// The relay accepted the registration, and there is no peer to connect to: wait.
    Wait,
    /// Another client offered a connection.
    Offered { offer: String, from: String },
    /// Nothing to do.
    Ignore,
    /// The text is not a signal the client can read.
    Unreadable,
    /// The socket failed: stop listening.
    Stop,
}

/// The mathematical content of a [`ClientAction`].
pub enum ClientActionView {
    Connect { to: Seq<char> },
    Wait,
    Offered { offer: Seq<char>, from: Seq<char> },
    Ignore,
    Unreadable,
    Stop,
}

impl View for ClientAction {
    type V = ClientActionView;

    open spec fn view(&self) -> ClientActionView {
        match self {
            ClientAction::Connect { to } => ClientActionView::Connect { to: to@ },
            ClientAction::Wait => ClientActionView::Wait,
            ClientAction::Offered { offer, from } => ClientActionView::Offered { offer: offer@, from: from@ },
            ClientAction::Ignore => ClientActionView::Ignore,
            ClientAction::Unreadable => ClientActionView::Unreadable,
            ClientAction::Stop => ClientActionView::Stop,
        }
    }
}

/// What the client with peer target `connect_to` does with a signal.
pub open spec fn signal_action(connect_to: Seq<char>, s: SignalView) -> ClientActionView {
    match s {
        SignalView::Hello => if connect_to != no_peer_text() {
            ClientActionView::Connect { to: connect_to }
        } else {
            ClientActionView::Wait
        },
        SignalView::Offer { offer, from } => ClientActionView::Offered { offer, from },
        SignalView::Other => ClientActionView::Ignore,
    }
}

/// What the client with peer target `connect_to` does with a frame.
pub open spec fn client_step(connect_to: Seq<char>, frame: ClientFrameView) -> ClientActionView {
    match frame {
        ClientFrameView::Text { text } => match signal_in_text(text) {
            Some(s) => signal_action(connect_to, s),
            None => ClientActionView::Unreadable,
        },
        ClientFrameView::Other => ClientActionView::Ignore,
        ClientFrameView::Failure => ClientActionView::Stop,
    }
}

/// The client's state once it has chosen its identifier.
pub struct ClientSession {
    /// The identifier the client registers under.
    pub client_id: String,
    /// The peer to connect to, or `disabled`.
    pub connect_to: String,
}

impl ClientSession {
    /// Starts a session with a fresh identifier (see [`new_client_id`]).
    pub fn start(connect_to: String, secure: bool) -> (s: ClientSession)
        ensures
            s.connect_to@ == connect_to@,
            s.client_id@.len() == id_length(secure),
            forall|i: int| 0 <= i < s.client_id@.len() ==> is_alphanumeric(#[trigger] s.client_id@[i]),
    {
        ClientSession { client_id: new_client_id(secure), connect_to }
    }

    /// The registration the client sends first, in wire form.
    pub fn registration(&self) -> (text: String)
        ensures
            text@ == wire_text(
                MessageView {
                    msg_type: Some("register"@),
                    id: Some(self.client_id@),
                    to: None,
                    from: None,
                    payload: None,
                },
            ),
    {
        Message::register(self.client_id.clone()).encode()
    }

    /// The offer to the peer, carrying the session description `sdp`, in wire form.
    pub fn offer_text(&self, sdp: &str) -> (text: String)
        ensures
            text@ == wire_text(
                MessageView {
                    msg_type: Some("offer"@),
                    id: Some(self.client_id@),
                    to: Some(self.connect_to@),
                    from: Some(self.client_id@),
                    payload: Some(offer_payload_text(sdp@)),
                },
            ),
    {
        Message::offer(self.client_id.clone(), self.connect_to.clone(), sdp).encode()
    }

    /// An ICE candidate for the peer, in wire form.
    pub fn candidate_text(&self, candidate: &str) -> (text: String)
        ensures
            text@ == wire_text(
                MessageView {
                    msg_type: Some("ice_candidate"@),
                    id: Some(self.client_id@),
                    to: Some(self.connect_to@),
                    from: None,
                    payload: Some(candidate_payload_text(candidate@)),
                },
            ),
    {
        Message::ice_candidate(self.client_id.clone(), self.connect_to.clone(), candidate).encode()
    }

    /// What to do with a frame from the relay, as [`client_step`] states.
    pub fn on_frame(&self, frame: ClientFrame) -> (action: ClientAction)
        ensures
            action@ == client_step(self.connect_to@, frame@),
    {
        match frame {
            ClientFrame::Text { text } => match read_signal(text.as_str()) {
                Some(Signal::Hello) => {
                    if self.connect_to != String::from_str("disabled") {
                        ClientAction::Connect { to: self.connect_to.clone() }
                    } else {
                        ClientAction::Wait
                    }
                },
                Some(Signal::Offer { offer, from }) => ClientAction::Offered { offer, from },
                Some(Signal::Other) => ClientAction::Ignore,
                None => ClientAction::Unreadable,
            },
            ClientFrame::Other => ClientAction::Ignore,
            ClientFrame::Failure => ClientAction::Stop,
        }
    }
}

/// The settings of the client's data channel, field for field those of
/// webrtc's `RTCDataChannelInit`.
pub struct ChannelSettings {
    pub ordered: Option<bool>,
    pub max_packet_life_time: Option<u16>,
    pub max_retransmits: Option<u16>,
    pub protocol: Option<String>,
    pub negotiated: Option<u16>,
}

/// The data channel the client opens: ordered, with an empty protocol name, and
/// no retransmission limits or pre-negotiated id.
pub fn data_channel_settings() -> (c: ChannelSettings)
    ensures
        c.ordered == Some(true),
        c.max_packet_life_time is None,
        c.max_retransmits is None,
        opt_text(c.protocol) == Some(Seq::<char>::empty()),
        c.negotiated is None,
{
    ChannelSettings {
        ordered: Some(true),
        max_packet_life_time: None,
        max_retransmits: None,
        protocol: Some(String::new()),
        negotiated: None,
    }
}

} // verus!
