use vstd::prelude::*;

verus! {

/// How long a failed attempt waits before the next one, in milliseconds.
pub const RETRY_DELAY_MS: u64 = 1000;

/// One pending transport connection to a candidate address, named by the
/// position of that address in the resolved list.
#[derive(Clone, Copy, Debug, PartialEq, Eq, Structural)]
pub struct ConnectFuture {
    pub candidate: usize,
}

/// Where a client connection stands.
#[derive(Clone, Copy, Debug, PartialEq, Eq, Structural)]
pub enum Phase {
    /// Nothing running; the initial phase.
    Disconnected,
    /// Looking up the candidate addresses of the endpoint.
    Resolving,
    /// Racing transport connections to every candidate.
    Connecting,
    /// Upgrading the winning transport.
    Handshaking,
    /// A live connection is published.
    Connected,
    /// Disconnected after a failure, with a retry scheduled.
    Backoff,
}

/// The class of a failed send or receive on the live connection.
#[derive(Clone, Copy, Debug, PartialEq, Eq, Structural)]
pub enum IoFault {
    ConnectionReset,
    ConnectionAborted,
    WouldBlock,
    NotConnected,
    Other,
}

/// What the surrounding runtime reports to the connection.
#[derive(Debug, PartialEq, Eq)]
pub enum Event {
    /// A caller asks for a connection.
    Connect,
    /// The endpoint resolved to this many candidate addresses.
    Resolved(usize),
    /// The endpoint could not be resolved.
    ResolveFailed,
    /// Every transport attempt has settled: for each candidate in order,
    /// whether it connected.
    RaceSettled(Vec<bool>),
    /// The handshake needs more I/O before it can finish.
    HandshakeInterrupted,
    HandshakeSucceeded,
    HandshakeFailed,
    /// The retry delay has passed.
    RetryElapsed,
    /// A send or receive on the live connection failed.
    Fault(IoFault),
}

/// What the runtime is asked to do next.
#[derive(Clone, Copy, Debug, PartialEq, Eq, Structural)]
pub enum Action {
    /// Resolve the endpoint to candidate addresses.
    Resolve,
    /// Start a transport connection to one candidate; all are started together.
    Connect(ConnectFuture),
    /// Start the upgrade handshake on the transport of this candidate.
    Handshake(usize),
    /// Resume the interrupted handshake on the same transport.
    ResumeHandshake,
    /// Publish the connection to the shared slot, replacing what was there.
    Publish,
    /// Clear the shared slot.
    ClearSlot,
    /// Wait this many milliseconds, then report `RetryElapsed`.
    Wait(u64),
}

/// Whether a fault means that the connection is gone (reset or aborted)
/// rather than that no progress could be made right now.
pub open spec fn is_disconnect_spec(f: IoFault) -> bool {
    f == IoFault::ConnectionReset || f == IoFault::ConnectionAborted
}

/// Candidate `i` is the first whose transport connected.
pub open spec fn is_first_success(o: Seq<bool>, i: int) -> bool {
    0 <= i < o.len() && o[i] && forall|k: int| 0 <= k < i ==> !o[k]
}

/// One transport attempt per candidate, in order.
pub open spec fn connect_all(n: usize) -> Seq<Action> {
    Seq::new(n as nat, |i: int| Action::Connect(ConnectFuture { candidate: i as usize }))
}

pub open spec fn retry() -> (Phase, Seq<Action>) {
    (Phase::Backoff, seq![Action::Wait(RETRY_DELAY_MS)])
}

/// The connection's rules: the next phase, and the actions to carry out in order.
/// An event that does not fit the phase changes nothing and asks for nothing.
pub open spec fn step_spec(p: Phase, e: Event) -> (Phase, Seq<Action>) {
    match (p, e) {
        (Phase::Disconnected, Event::Connect) => (Phase::Resolving, seq![Action::Resolve]),
        (Phase::Resolving, Event::Resolved(n)) => if n == 0 {
            retry()
        } else {
            (Phase::Connecting, connect_all(n))
        },
        (Phase::Resolving, Event::ResolveFailed) => retry(),
        (Phase::Connecting, Event::RaceSettled(o)) => if exists|i: int| is_first_success(o@, i) {
            (
                Phase::Handshaking,
                seq![Action::Handshake((choose|i: int| is_first_success(o@, i)) as usize)],
            )
        } else {
            retry()
        },
        (Phase::Handshaking, Event::HandshakeInterrupted) => (
            Phase::Handshaking,
            seq![Action::ResumeHandshake],
        ),
        (Phase::Handshaking, Event::HandshakeSucceeded) => (Phase::Connected, seq![Action::Publish]),
        (Phase::Handshaking, Event::HandshakeFailed) => retry(),
        (Phase::Backoff, Event::RetryElapsed) => (Phase::Resolving, seq![Action::Resolve]),
        (Phase::Connected, Event::Fault(f)) => if is_disconnect_spec(f) {
            (Phase::Resolving, seq![Action::ClearSlot, Action::Resolve])
        } else {
            (Phase::Connected, Seq::empty())
        },
        _ => (p, Seq::empty()),
    }
}

/// Whether a fault means that the connection is gone.
pub fn is_disconnect(f: IoFault) -> (r: bool)
    ensures
        r == is_disconnect_spec(f),
{
    match f {
        IoFault::ConnectionReset | IoFault::ConnectionAborted => true,
        _ => false,
    }
}

/// The first candidate whose transport connected, if any did: later
/// successes are ignored.
pub fn race_winner(outcomes: &Vec<bool>) -> (r: Option<usize>)
    ensures
        r matches Some(i) ==> is_first_success(outcomes@, i as int),
        r is None <==> forall|k: int| 0 <= k < outcomes@.len() ==> !outcomes@[k],
{
    let mut i: usize = 0;
    while i < outcomes.len()
        invariant
            i <= outcomes@.len(),
            forall|k: int| 0 <= k < i ==> !outcomes@[k],
        decreases outcomes@.len() - i,
    {
        if outcomes[i] {
            return Some(i);
        }
        i = i + 1;
    }
    None
}

/// One transport attempt for each of `n` candidates.
fn connect_actions(n: usize) -> (r: Vec<Action>)
    ensures
        r@ == connect_all(n),
{
    let mut r: Vec<Action> = Vec::new();
    let mut i: usize = 0;
    while i < n
        invariant
            i <= n,
            r@ == connect_all(n).subrange(0, i as int),
        decreases n - i,
    {
        r.push(Action::Connect(ConnectFuture { candidate: i }));
        i = i + 1;
        assert(r@ =~= connect_all(n).subrange(0, i as int));
    }
    assert(connect_all(n).subrange(0, n as int) =~= connect_all(n));
    r
}

/// The decisions of one client connection: it resolves, races, handshakes and
/// publishes, and after any failure waits and starts over, without end.
pub struct ConnectionActor {
    pub phase: Phase,
}

impl ConnectionActor {
    /// A connection that has not been asked to connect yet.
    pub fn new() -> (r: Self)
        ensures
            r.phase == Phase::Disconnected,
    {
        ConnectionActor { phase: Phase::Disconnected }
    }

    /// Takes one event and returns the actions that follow from it, in order.
    pub fn step(&mut self, event: Event) -> (r: Vec<Action>)
        ensures
            (final(self).phase, r@) == step_spec(old(self).phase, event),
    {
        let ghost e = event;
        let retry_now = (Phase::Backoff, vec![Action::Wait(RETRY_DELAY_MS)]);
        proof {
            assert(retry_now.1@ =~= retry().1);
        }
        let (phase, actions) = match (self.phase, event) {
            (Phase::Disconnected, Event::Connect) => (Phase::Resolving, vec![Action::Resolve]),
            (Phase::Resolving, Event::Resolved(n)) => if n == 0 {
                retry_now
            } else {
                (Phase::Connecting, connect_actions(n))
            },
            (Phase::Resolving, Event::ResolveFailed) => retry_now,
            (Phase::Connecting, Event::RaceSettled(o)) => match race_winner(&o) {
                Some(i) => {
                    proof {
                        let c = choose|k: int| is_first_success(o@, k);
                        if c < i {
                        } else if c > i {
                            assert(!o@[i as int]);
                        }
                    }
                    (Phase::Handshaking, vec![Action::Handshake(i)])
                },
                None => retry_now,
            },
            (Phase::Handshaking, Event::HandshakeInterrupted) => (
                Phase::Handshaking,
                vec![Action::ResumeHandshake],
            ),
            (Phase::Handshaking, Event::HandshakeSucceeded) => (
                Phase::Connected,
                vec![Action::Publish],
            ),
            (Phase::Handshaking, Event::HandshakeFailed) => retry_now,
            (Phase::Backoff, Event::RetryElapsed) => (Phase::Resolving, vec![Action::Resolve]),
            (Phase::Connected, Event::Fault(f)) => if is_disconnect(f) {
                (Phase::Resolving, vec![Action::ClearSlot, Action::Resolve])
            } else {
                (Phase::Connected, Vec::new())
            },
            (p, _) => (p, Vec::new()),
        };
        self.phase = phase;
        proof {
            assert(actions@ =~= step_spec(old(self).phase, e).1);
        }
        actions
    }
}

} // verus!
