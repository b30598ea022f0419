use vstd::prelude::*;

verus! {

/// A planar vector whose components travel as IEEE-754 single-precision bit
/// patterns. Neither end of the protocol does arithmetic on them in the
/// synchronisation layer; they are carried through unchanged.
#[derive(Clone, Copy, Debug, PartialEq, Eq, Structural)]
pub struct Vec2Bits {
    pub x: u32,
    pub y: u32,
}

/// A participant's self-report: where it is and which way it points.
#[derive(Clone, Copy, Debug, PartialEq, Eq, Structural)]
pub struct State {
    pub pos: Vec2Bits,
    pub r: u32,
}

/// The last known state of one participant, keyed by its server-assigned id.
#[derive(Clone, Copy, Debug, PartialEq, Eq, Structural)]
pub struct RemoteState {
    pub id: usize,
    pub position: Vec2Bits,
    pub rotation: u32,
}

/// Messages from the server to a client.
#[derive(Debug, PartialEq, Eq)]
pub enum ServerMessage {
    Welcome(usize),
    GoodBye(usize),
    Update(Vec<RemoteState>),
}

/// Messages from a client to the server.
#[derive(Clone, Copy, Debug, PartialEq, Eq, Structural)]
pub enum ClientMessage {
    State(State),
}

/// A message addressed to one session.
#[derive(Debug, PartialEq, Eq)]
pub struct Outgoing {
    pub to: usize,
    pub msg: ServerMessage,
}

/// Copies a list of states element by element.
pub fn copy_states(v: &Vec<RemoteState>) -> (r: Vec<RemoteState>)
    ensures
        r@ == v@,
{
    let mut r: Vec<RemoteState> = Vec::new();
    let mut i: usize = 0;
    while i < v.len()
        invariant
            i <= v@.len(),
            r@ == v@.subrange(0, i as int),
        decreases v@.len() - i,
    {
        r.push(v[i]);
        i = i + 1;
        assert(r@ =~= v@.subrange(0, i as int));
    }
    assert(r@ =~= v@);
    r
}

/// The mathematical form of a server message: an update's list becomes a sequence.
pub enum MessageView {
    Welcome(usize),
    GoodBye(usize),
    Update(Seq<RemoteState>),
}

impl View for ServerMessage {
    type V = MessageView;

    open spec fn view(&self) -> MessageView {
        match self {
            ServerMessage::Welcome(id) => MessageView::Welcome(*id),
            ServerMessage::GoodBye(id) => MessageView::GoodBye(*id),
            ServerMessage::Update(v) => MessageView::Update(v@),
        }
    }
}

impl View for Outgoing {
    type V = (usize, MessageView);

    open spec fn view(&self) -> (usize, MessageView) {
        (self.to, self.msg@)
    }
}

impl ServerMessage {
    /// A copy of this message with the same contents.
    pub fn duplicate(&self) -> (r: ServerMessage)
        ensures
            r@ == self@,
    {
        match self {
            ServerMessage::Welcome(id) => ServerMessage::Welcome(*id),
            ServerMessage::GoodBye(id) => ServerMessage::GoodBye(*id),
            ServerMessage::Update(v) => ServerMessage::Update(copy_states(v)),
        }
    }
}

} // verus!
