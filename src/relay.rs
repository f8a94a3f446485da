//! The decisions of the relay's connection loops. A loop hands each socket
//! event to `react` and carries out the `Reaction`: mirror to the debug hub,
//! pass along the primary path, answer a ping, or end the connection.
use vstd::prelude::*;
use crate::envelope::{
    byte_event, byte_event_text, close_event, close_event_text, inspect, presence_offline,
    presence_offline_text, presence_online, presence_online_text, ByteEvent, EnvelopeInfo, envelope_fields, info_view,
};

verus! {

/// What a WebSocket connection reported.
#[derive(Debug, Clone)]
pub enum SocketEvent {
    /// A text frame.
    Text(String),
    /// A binary frame of this many bytes.
    Binary(usize),
    /// A ping carrying this many payload bytes.
    Ping(usize),
    /// A pong carrying this many payload bytes.
    Pong(usize),
    /// A close frame, with its code and reason when it carried them.
    Close(Option<u16>, Option<String>),
    /// A raw frame of the transport's own: ignored.
    RawFrame,
    /// A transport error.
    Failed,
    /// The stream ended.
    Ended,
}

/// Which of the relay's endpoints a connection loop serves.
#[derive(Debug, Clone, Copy, PartialEq, Eq, Structural)]
pub enum Endpoint {
    /// The sidecar's outbound connection to the desktop application.
    RelayClient,
    /// A browser connection accepted by the desktop application.
    DesktopPeer,
    /// A debug observer connected to the sidecar.
    SidecarObserver,
    /// A debug observer connected to the desktop application.
    DesktopObserver,
}

/// What a connection loop does with one event.
#[derive(Debug, Clone)]
pub struct Reaction {
    /// An envelope for the debug hub.
    pub mirror: Option<String>,
    /// A message for the primary path: to the extension (relay client), to
    /// the application (desktop peer, sidecar observer), or through the
    /// connection registry (desktop observer).
    pub forward: Option<String>,
    /// Answer with a pong carrying the ping's payload.
    pub pong: bool,
    /// The connection ends.
    pub stop: bool,
}

/// The spec-level value of a reaction.
pub open spec fn reaction_view(r: Reaction) -> (Option<Seq<char>>, Option<Seq<char>>, bool, bool) {
    (
        match r.mirror {
            Some(m) => Some(m@),
            None => None,
        },
        match r.forward {
            Some(f) => Some(f@),
            None => None,
        },
        r.pong,
        r.stop,
    )
}

/// The reaction of an endpoint to an event: text is mirrored and passed on;
/// binary frames, pings and pongs are reported by byte count, pings answered;
/// a close frame is reported and ends the connection, as do errors and the
/// end of the stream.
pub open spec fn reaction_spec(side: Endpoint, ev: SocketEvent) -> (Option<Seq<char>>, Option<Seq<char>>, bool, bool) {
    match ev {
        SocketEvent::Text(t) => (Some(t@), Some(t@), false, false),
        SocketEvent::Binary(n) => match side {
            Endpoint::RelayClient => (Some(byte_event_text(ByteEvent::BinaryError, n as nat)), None, false, false),
            Endpoint::DesktopPeer => (None, Some(byte_event_text(ByteEvent::Binary, n as nat)), false, false),
            _ => (Some(byte_event_text(ByteEvent::Binary, n as nat)), None, false, false),
        },
        SocketEvent::Ping(n) => (Some(byte_event_text(ByteEvent::Ping, n as nat)), None, true, false),
        SocketEvent::Pong(n) => (Some(byte_event_text(ByteEvent::Pong, n as nat)), None, false, false),
        SocketEvent::Close(code, reason) => (
            Some(
                close_event_text(
                    code,
                    match reason {
                        Some(t) => Some(t@),
                        None => None,
                    },
                ),
            ),
            None,
            false,
            true,
        ),
        SocketEvent::RawFrame => (None, None, false, false),
        SocketEvent::Failed => (None, None, false, true),
        SocketEvent::Ended => (None, None, false, true),
    }
}

fn quiet(stop: bool) -> (r: Reaction)
    ensures
        reaction_view(r) == (None::<Seq<char>>, None::<Seq<char>>, false, stop),
{
    Reaction { mirror: None, forward: None, pong: false, stop }
}

/// Decides what an endpoint does with one socket event.
pub fn react(side: Endpoint, ev: &SocketEvent) -> (r: Reaction)
    ensures
        reaction_view(r) == reaction_spec(side, *ev),
{
    match ev {
        SocketEvent::Text(t) => Reaction {
            mirror: Some(t.clone()),
            forward: Some(t.clone()),
            pong: false,
            stop: false,
        },
        SocketEvent::Binary(n) => match side {
            Endpoint::RelayClient => Reaction {
                mirror: Some(byte_event(ByteEvent::BinaryError, *n)),
                forward: None,
                pong: false,
                stop: false,
            },
            Endpoint::DesktopPeer => Reaction {
                mirror: None,
                forward: Some(byte_event(ByteEvent::Binary, *n)),
                pong: false,
                stop: false,
            },
            _ => Reaction {
                mirror: Some(byte_event(ByteEvent::Binary, *n)),
                forward: None,
                pong: false,
                stop: false,
            },
        },
        SocketEvent::Ping(n) => Reaction {
            mirror: Some(byte_event(ByteEvent::Ping, *n)),
            forward: None,
            pong: true,
            stop: false,
        },
        SocketEvent::Pong(n) => Reaction {
            mirror: Some(byte_event(ByteEvent::Pong, *n)),
            forward: None,
            pong: false,
            stop: false,
        },
        SocketEvent::Close(code, reason) => {
            let reason_ref = match reason {
                Some(t) => Some(t.as_str()),
                None => None,
            };
            Reaction { mirror: Some(close_event(*code, reason_ref)), forward: None, pong: false, stop: true }
        },
        SocketEvent::RawFrame => quiet(false),
        SocketEvent::Failed => quiet(true),
        SocketEvent::Ended => quiet(true),
    }
}

/// The identity a desktop-side connection has registered under, if any.
pub struct PeerSession {
    pub connection_id: Option<String>,
    pub browser: Option<String>,
}

/// The registration an inspected envelope triggers on a connection that has
/// none yet: a `presence.status` envelope carrying a `payload.connectionId`.
/// `info` holds the envelope's `type`, `payload.connectionId` and
/// `payload.browser`, or is `None` when the text is not JSON.
pub open spec fn registration_spec(
    registered: bool,
    info: Option<(Option<Seq<char>>, Option<Seq<char>>, Option<Seq<char>>)>,
) -> Option<(Seq<char>, Option<Seq<char>>)> {
    if registered {
        None
    } else {
        match info {
            Some((Some(k), Some(c), b)) => if k == "presence.status"@ {
                Some((c, b))
            } else {
                None
            },
            _ => None,
        }
    }
}

/// The view of optional routing fields.
pub open spec fn opt_info_view(info: Option<EnvelopeInfo>) -> Option<(Option<Seq<char>>, Option<Seq<char>>, Option<Seq<char>>)> {
    match info {
        Some(i) => Some(info_view(i)),
        None => None,
    }
}

/// The spec-level value of a registration.
pub open spec fn registration_view(r: Option<(String, Option<String>)>) -> Option<(Seq<char>, Option<Seq<char>>)> {
    match r {
        Some((c, b)) => Some((
            c@,
            match b {
                Some(t) => Some(t@),
                None => None,
            },
        )),
        None => None,
    }
}

impl PeerSession {
    /// A connection that has not announced itself.
    pub fn new() -> (r: PeerSession)
        ensures
            r.connection_id.is_none(),
            r.browser.is_none(),
    {
        PeerSession { connection_id: None, browser: None }
    }

    /// Takes note of an inspected envelope; returns the registration to make
    /// (connection id and browser label), the first time one is announced.
    pub fn observe(&mut self, info: Option<EnvelopeInfo>) -> (r: Option<(String, Option<String>)>)
        ensures
            registration_view(r) == registration_spec(old(self).connection_id.is_some(), opt_info_view(info)),
            r matches Some((c, b)) ==> final(self).connection_id == Some(c) && final(self).browser
                == b,
            r is None ==> final(self).connection_id == old(self).connection_id
                && final(self).browser == old(self).browser,
    {
        if self.connection_id.is_some() {
            return None;
        }
        match info {
            Some(i) => match (i.kind, i.connection_id) {
                (Some(k), Some(c)) => {
                    if k.eq(&String::from_str("presence.status")) {
                        let browser = i.browser;
                        self.connection_id = Some(c.clone());
                        self.browser = browser.clone();
                        Some((c, browser))
                    } else {
                        None
                    }
                },
                _ => None,
            },
            None => None,
        }
    }

    /// Takes note of a text frame, reading it only while no identity is
    /// registered.
    pub fn observe_text(&mut self, text: &str) -> (r: Option<(String, Option<String>)>)
        ensures
            registration_view(r) == registration_spec(
                old(self).connection_id.is_some(),
                envelope_fields(text@),
            ),
            r matches Some((c, b)) ==> final(self).connection_id == Some(c) && final(self).browser
                == b,
            r is None ==> final(self).connection_id == old(self).connection_id
                && final(self).browser == old(self).browser,
    {
        if self.connection_id.is_some() {
            return None;
        }
        let info = inspect(text);
        self.observe(info)
    }

    /// When the connection ends: the id to remove from the registry and the
    /// offline presence envelope to emit, if it ever registered.
    pub fn finish(&self) -> (r: Option<(String, String)>)
        ensures
            self.connection_id is None ==> r is None,
            self.connection_id matches Some(c) ==> (r matches Some((id, env)) && id@ == c@ && env@
                == presence_offline_text(
                c@,
                match self.browser {
                    Some(b) => Some(b@),
                    None => None,
                },
            )),
    {
        match &self.connection_id {
            None => None,
            Some(c) => {
                let browser = match &self.browser {
                    Some(b) => Some(b.as_str()),
                    None => None,
                };
                Some((c.clone(), presence_offline(c.as_str(), browser)))
            },
        }
    }
}

/// The link state of the relay client.
#[derive(Debug, Clone, Copy, PartialEq, Eq, Structural)]
pub enum LinkState {
    Disconnected,
    Connecting,
    Connected,
}

/// The fixed wait before the relay client dials again, in milliseconds.
pub const RECONNECT_DELAY_MS: u64 = 1000;

/// The sidecar's connection to the desktop application: it dials, announces
/// itself once connected, and dials again after a fixed wait whenever the
/// connection is lost, without limit.
pub struct RelayClient {
    pub connection_id: String,
    pub browser: String,
    pub state: LinkState,
}

impl RelayClient {
    /// A client that has not dialed yet.
    pub fn new(connection_id: String, browser: String) -> (r: RelayClient)
        ensures
            r.connection_id == connection_id,
            r.browser == browser,
            r.state == LinkState::Disconnected,
    {
        RelayClient { connection_id, browser, state: LinkState::Disconnected }
    }

    /// Starts dialing.
    pub fn dial(&mut self)
        ensures
            final(self).state == LinkState::Connecting,
            final(self).connection_id == old(self).connection_id,
            final(self).browser == old(self).browser,
    {
        self.state = LinkState::Connecting;
    }

    /// The dial succeeded: the presence envelope to send to the debug hub, the
    /// extension and the socket, before any other traffic.
    pub fn connected(&mut self, timestamp: u128) -> (r: String)
        ensures
            final(self).state == LinkState::Connected,
            final(self).connection_id == old(self).connection_id,
            final(self).browser == old(self).browser,
            r@ == presence_online_text(old(self).connection_id@, old(self).browser@, timestamp as nat),
    {
        self.state = LinkState::Connected;
        presence_online(self.connection_id.as_str(), self.browser.as_str(), timestamp)
    }

    /// The dial failed, or the connection was lost: how long to wait, in
    /// milliseconds, before dialing again.
    pub fn disconnected(&mut self) -> (r: u64)
        ensures
            final(self).state == LinkState::Disconnected,
            final(self).connection_id == old(self).connection_id,
            final(self).browser == old(self).browser,
            r == RECONNECT_DELAY_MS,
    {
        self.state = LinkState::Disconnected;
        RECONNECT_DELAY_MS
    }

    /// Reacts to an event on the connected socket; an event that ends the
    /// connection leaves the client disconnected.
    pub fn on_event(&mut self, ev: &SocketEvent) -> (r: Reaction)
        ensures
            reaction_view(r) == reaction_spec(Endpoint::RelayClient, *ev),
            r.stop ==> final(self).state == LinkState::Disconnected,
            !r.stop ==> final(self).state == old(self).state,
            final(self).connection_id == old(self).connection_id,
            final(self).browser == old(self).browser,
    {
        let r = react(Endpoint::RelayClient, ev);
        if r.stop {
            self.state = LinkState::Disconnected;
        }
        r
    }
}

} // verus!
