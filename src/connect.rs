//! What the transport computes: the endpoint URLs and the authorization
//! header of the two connections, and what becomes of each frame read.
use vstd::prelude::*;
use vstd::string::*;
use crate::event::InternalEvent;
use crate::text::{decimal, decimal_string};

verus! {

/// The server's host, in text form.
#[derive(Clone, Debug, PartialEq, Eq)]
pub enum Host {
    IpV4(String),
    IpV6(String),
    Domain(String),
}

/// Where and how to reach the server. Fixed once the bot starts.
#[derive(Clone, Debug)]
pub struct Server {
    pub host: Host,
    pub port: u16,
    pub access_token: String,
    pub secure: bool,
}

/// The host as it stands in a URL: IPv6 addresses in brackets.
pub open spec fn host_in_url(h: Host) -> Seq<char> {
    match h {
        Host::IpV4(a) => a@,
        Host::IpV6(a) => "["@ + a@ + "]"@,
        Host::Domain(d) => d@,
    }
}

/// The URL of an endpoint: `ws[s]://HOST:PORT/PATH`.
pub open spec fn endpoint_url(s: Server, path: Seq<char>) -> Seq<char> {
    (if s.secure { "wss"@ } else { "ws"@ }) + "://"@ + host_in_url(s.host) + ":"@ + decimal(s.port as nat)
        + "/"@ + path
}

/// A frame read from a connection, by kind.
pub enum Frame {
    Text(String),
    Close,
    /// Binary, ping or pong.
    Other,
}

/// What the event connection's reader does with a frame.
pub enum EventFrameAction {
    /// Put the event on the event bus.
    Forward(InternalEvent),
    /// The connection failed: log it and raise `Drop`.
    Fail,
    /// Nothing.
    Ignore,
}

impl Server {
    /// The URL of the endpoint at `path` (`event` or `api`).
    pub fn url(&self, path: &str) -> (r: String)
        ensures
            r@ == endpoint_url(*self, path@),
    {
        let mut r = if self.secure { String::from_str("wss") } else { String::from_str("ws") };
        r.append("://");
        match &self.host {
            Host::IpV4(a) => r.append(a.as_str()),
            Host::IpV6(a) => {
                r.append("[");
                r.append(a.as_str());
                r.append("]");
            },
            Host::Domain(d) => r.append(d.as_str()),
        }
        r.append(":");
        let port = decimal_string(self.port as u64);
        r.append(port.as_str());
        r.append("/");
        r.append(path);
        assert(r@ =~= endpoint_url(*self, path@));
        r
    }

    /// The `Authorization` header value: `Bearer <token>`, none for an empty token.
    pub fn auth_header(&self) -> (r: Option<String>)
        ensures
            self.access_token@.len() == 0 ==> r is None,
            self.access_token@.len() > 0 ==> (r matches Some(h) && h@ == "Bearer "@ + self.access_token@),
    {
        if self.access_token.as_str().is_empty() {
            None
        } else {
            let mut h = String::from_str("Bearer ");
            h.append(self.access_token.as_str());
            Some(h)
        }
    }
}

/// The event connection forwards text frames as server events, fails on a
/// close frame, and ignores the rest.
pub fn event_frame_action(frame: Frame) -> (r: EventFrameAction)
    ensures
        frame matches Frame::Text(t) ==> (r matches EventFrameAction::Forward(InternalEvent::OneBotEvent(e)) && e == t),
        frame is Close ==> r is Fail,
        frame is Other ==> r is Ignore,
{
    match frame {
        Frame::Text(t) => EventFrameAction::Forward(InternalEvent::OneBotEvent(t)),
        Frame::Close => EventFrameAction::Fail,
        Frame::Other => EventFrameAction::Ignore,
    }
}

} // verus!
