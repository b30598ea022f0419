use vstd::prelude::*;
use tungstenite::client::IntoClientRequest;
use crate::messages::{MessageView, RemoteState, ServerMessage, Vec2Bits};
use crate::server::{others, others_of};

verus! {

/// The port used when a URL names none.
pub const DEFAULT_PORT: u16 = 80;

/// The client's view of the game: its own state and the others' latest states.
pub struct Game {
    pub quit: bool,
    pub player_state: RemoteState,
    pub remote_states: Vec<RemoteState>,
}

impl Game {
    /// A game whose player, not yet welcomed, has id 0 and no peers in sight.
    pub fn new(position: Vec2Bits, rotation: u32) -> (r: Game)
        ensures
            !r.quit,
            r.player_state == (RemoteState { id: 0, position, rotation }),
            r.remote_states@.len() == 0,
    {
        Game {
            quit: false,
            player_state: RemoteState { id: 0, position, rotation },
            remote_states: Vec::new(),
        }
    }

    /// Applies a message from the server: a welcome sets the player's id, a
    /// goodbye drops that participant, an update replaces all remote states.
    pub fn handle_message(&mut self, msg: ServerMessage)
        ensures
            final(self).quit == old(self).quit,
            match msg@ {
                MessageView::Welcome(id) => {
                    &&& final(self).player_state == (RemoteState { id, ..old(self).player_state })
                    &&& final(self).remote_states@ == old(self).remote_states@
                },
                MessageView::GoodBye(id) => {
                    &&& final(self).player_state == old(self).player_state
                    &&& final(self).remote_states@ == others(old(self).remote_states@, id)
                },
                MessageView::Update(v) => {
                    &&& final(self).player_state == old(self).player_state
                    &&& final(self).remote_states@ == v
                },
            },
    {
        match msg {
            ServerMessage::Welcome(id) => {
                self.player_state.id = id;
            },
            ServerMessage::GoodBye(id) => {
                self.remote_states = others_of(&self.remote_states, id);
            },
            ServerMessage::Update(v) => {
                self.remote_states = v;
            },
        }
    }
}

/// The host and port that a connection is made to.
pub struct Endpoint {
    pub host: String,
    pub port: u16,
}

/// Why no endpoint could be taken from a URL.
#[derive(Clone, Copy, Debug, PartialEq, Eq, Structural)]
pub enum UrlFault {
    /// The URL is not a valid request target.
    Invalid,
    /// The URL names no host.
    NoHostName,
}

/// The host (if any) and explicit port (if any) of the request that
/// tungstenite builds from a URL; `None` when it builds none.
pub uninterp spec fn request_target_of(url: Seq<char>) -> Option<(Option<Seq<char>>, Option<u16>)>;

pub open spec fn host_view(h: Option<String>) -> Option<Seq<char>> {
    match h {
        Some(s) => Some(s@),
        None => None,
    }
}

/// Relies on tungstenite's `IntoClientRequest for &str` and on `http::Uri::host`
/// and `Uri::port_u16` of the request it builds: the request's URI is the URL
/// parsed, so what is read back depends on the URL alone.
#[verifier::external_body]
fn request_target(url: &str) -> (r: Option<(Option<String>, Option<u16>)>)
    ensures
        r is None <==> request_target_of(url@) is None,
        r matches Some(t) ==> request_target_of(url@) == Some((host_view(t.0), t.1)),
{
    match url.into_client_request() {
        Ok(req) => Some((req.uri().host().map(String::from), req.uri().port_u16())),
        Err(_) => None,
    }
}

/// The endpoint that a parsed request target designates, as a host and a port.
pub open spec fn endpoint_spec(t: Option<(Option<Seq<char>>, Option<u16>)>) -> Result<(Seq<char>, u16), UrlFault> {
    match t {
        None => Err(UrlFault::Invalid),
        Some((None, _)) => Err(UrlFault::NoHostName),
        Some((Some(h), None)) => Ok((h, DEFAULT_PORT)),
        Some((Some(h), Some(p))) => Ok((h, p)),
    }
}

pub open spec fn endpoint_view(r: Result<Endpoint, UrlFault>) -> Result<(Seq<char>, u16), UrlFault> {
    match r {
        Ok(e) => Ok((e.host@, e.port)),
        Err(f) => Err(f),
    }
}

/// Turns a parsed request target into an endpoint: a host is required, and
/// the port defaults to 80.
pub fn target_endpoint(target: Option<(Option<String>, Option<u16>)>) -> (r: Result<Endpoint, UrlFault>)
    ensures
        endpoint_view(r) == endpoint_spec(
            match target {
                Some(t) => Some((host_view(t.0), t.1)),
                None => None,
            },
        ),
{
    match target {
        None => Err(UrlFault::Invalid),
        Some((None, _)) => Err(UrlFault::NoHostName),
        Some((Some(host), port)) => {
            let port = match port {
                Some(p) => p,
                None => DEFAULT_PORT,
            };
            Ok(Endpoint { host, port })
        },
    }
}

/// The endpoint that a URL such as `ws://host:port/path` designates.
pub fn endpoint(url: &str) -> (r: Result<Endpoint, UrlFault>)
    ensures
        endpoint_view(r) == endpoint_spec(request_target_of(url@)),
{
    target_endpoint(request_target(url))
}

} // verus!
