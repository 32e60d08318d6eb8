//! Decisions of the composite outbounds: where a chain connects first, the
//! order a failover group tries its actors in, the delays of a try-all
//! group, and how a multiplexer chooses connections.
use vstd::prelude::*;
use crate::inbound::Network;

verus! {

/// Where an outbound handler connects.
#[derive(Clone, Debug)]
pub enum OutboundConnect {
    /// Through a proxy at an address and port.
    Proxy(Network, String, u16),
    /// Directly to the destination.
    Direct,
    /// Wherever the next handler connects.
    Next,
    /// Not known.
    Unknown,
}

/// What a chain reads of one actor: where its TCP handler connects, if it
/// has one, and where its UDP handler connects, if it has one.
#[derive(Clone, Debug)]
pub struct ActorConnect {
    pub tcp: Option<OutboundConnect>,
    pub udp: Option<OutboundConnect>,
}

/// Where an actor connects: its TCP handler's address, else its UDP
/// handler's, else nothing known.
pub open spec fn actor_connect(a: ActorConnect) -> Option<OutboundConnect> {
    match a.tcp {
        Some(c) => Some(c),
        None => a.udp,
    }
}

/// Where a chain connects from the actor at `start` on: the first actor
/// that says something other than `Next`, or `Unknown`.
pub open spec fn spec_next_connect_addr(actors: Seq<ActorConnect>, start: int) -> OutboundConnect
    decreases actors.len() - start,
{
    if start >= actors.len() {
        OutboundConnect::Unknown
    } else {
        match actor_connect(actors[start]) {
            Some(OutboundConnect::Next) | None => spec_next_connect_addr(actors, start + 1),
            Some(c) => c,
        }
    }
}

/// Where a chain connects is decided by its actors' TCP handlers first: the
/// first actor from `start` on decides, unless it says `Next` or has no
/// handler at all, in which case the next actor does. An actor with a TCP
/// handler that says something other than `Next` decides by that handler,
/// whatever its UDP handler says; its UDP handler is looked at only when it
/// has no TCP handler. Past the last actor the address is `Unknown`.
pub proof fn lemma_chain_asks_tcp_handler_first(actors: Seq<ActorConnect>, start: int)
    requires
        0 <= start,
    ensures
        start >= actors.len() ==> spec_next_connect_addr(actors, start) == OutboundConnect::Unknown,
        start < actors.len() ==> match actors[start].tcp {
            Some(OutboundConnect::Next) => spec_next_connect_addr(actors, start)
                == spec_next_connect_addr(actors, start + 1),
            Some(c) => spec_next_connect_addr(actors, start) == c,
            None => match actors[start].udp {
                Some(OutboundConnect::Next) | None => spec_next_connect_addr(actors, start)
                    == spec_next_connect_addr(actors, start + 1),
                Some(c) => spec_next_connect_addr(actors, start) == c,
            },
        },
{
}

/// A copy of a connect address.
pub fn copy_connect(c: &OutboundConnect) -> (r: OutboundConnect)
    ensures
        r == *c,
{
    match c {
        OutboundConnect::Proxy(n, a, p) => OutboundConnect::Proxy(*n, a.clone(), *p),
        OutboundConnect::Direct => OutboundConnect::Direct,
        OutboundConnect::Next => OutboundConnect::Next,
        OutboundConnect::Unknown => OutboundConnect::Unknown,
    }
}

/// Where a chain connects from the actor at `start` on.
pub fn next_connect_addr(actors: &Vec<ActorConnect>, start: usize) -> (r: OutboundConnect)
    requires
        start <= actors@.len(),
    ensures
        r == spec_next_connect_addr(actors@, start as int),
    decreases actors@.len() - start,
{
    if start >= actors.len() {
        return OutboundConnect::Unknown;
    }
    let a = &actors[start];
    let c = match &a.tcp {
        Some(c) => Some(copy_connect(c)),
        None => match &a.udp {
            Some(c) => Some(copy_connect(c)),
            None => None,
        },
    };
    match c {
        Some(OutboundConnect::Next) | None => next_connect_addr(actors, start + 1),
        Some(c) => c,
    }
}

/// The order a failover group tries its actors in at first: all of them,
/// in the order configured.
pub fn initial_schedule(n: usize) -> (s: Vec<usize>)
    ensures
        s@ == Seq::new(n as nat, |i: int| i as usize),
{
    let mut s: Vec<usize> = Vec::new();
    let mut i: usize = 0;
    while i < n
        invariant
            i <= n,
            s@ == Seq::new(i as nat, |k: int| k as usize),
        decreases n - i,
    {
        s.push(i);
        i += 1;
        assert(s@ =~= Seq::new(i as nat, |k: int| k as usize));
    }
    s
}

/// The next move of a failover group handling a datagram session.
#[derive(Clone, Copy, Debug, PartialEq, Eq)]
pub enum FailoverStep {
    /// No actor is scheduled: hand the session to the last resort.
    LastResort,
    /// Try the actor at this index.
    Try(usize),
    /// The schedule names an actor that does not exist.
    InvalidActor,
    /// Every scheduled actor failed or timed out.
    AllFailed,
}

impl FailoverStep {
    /// The error message a failing step ends the session with: an invalid
    /// actor index, or every attempt failed; `None` for a step that goes on.
    pub fn error_message(&self) -> (m: Option<String>)
        ensures
            match *self {
                FailoverStep::InvalidActor => m matches Some(t) && t@ == "invalid actor index"@,
                FailoverStep::AllFailed => m matches Some(t) && t@ == "all outbound attempts failed"@,
                FailoverStep::LastResort => m is None,
                FailoverStep::Try(_) => m is None,
            },
    {
        match self {
            FailoverStep::InvalidActor => Some(String::from_str("invalid actor index")),
            FailoverStep::AllFailed => Some(String::from_str("all outbound attempts failed")),
            FailoverStep::LastResort => None,
            FailoverStep::Try(_) => None,
        }
    }
}

impl FailoverNext {
    /// The error message the session ends with after this move, if it ends
    /// with an error: a set-up error's own message, or that of the step.
    pub fn error_message(&self) -> (m: Option<String>)
        ensures
            match self {
                FailoverNext::Done => m is None,
                FailoverNext::SetupError(e) => m matches Some(t) && t@ == e@,
                FailoverNext::Step(FailoverStep::InvalidActor) => m matches Some(t) && t@
                    == "invalid actor index"@,
                FailoverNext::Step(FailoverStep::AllFailed) => m matches Some(t) && t@
                    == "all outbound attempts failed"@,
                FailoverNext::Step(_) => m is None,
            },
    {
        match self {
            FailoverNext::Done => None,
            FailoverNext::SetupError(e) => Some(e.clone()),
            FailoverNext::Step(step) => step.error_message(),
        }
    }
}

/// The move of a failover group after trying the first `tried` scheduled
/// actors without success.
pub open spec fn spec_failover_step(
    schedule: Seq<usize>,
    tried: int,
    n_actors: int,
    has_last_resort: bool,
) -> FailoverStep {
    if schedule.len() == 0 && has_last_resort {
        FailoverStep::LastResort
    } else if tried >= schedule.len() {
        FailoverStep::AllFailed
    } else if schedule[tried] >= n_actors {
        FailoverStep::InvalidActor
    } else {
        FailoverStep::Try(schedule[tried])
    }
}

/// The move of a failover group after trying the first `tried` scheduled
/// actors without success: the last resort when nothing is scheduled, the
/// next scheduled actor, or the end.
pub fn failover_step(schedule: &Vec<usize>, tried: usize, n_actors: usize, has_last_resort: bool) -> (r:
    FailoverStep)
    ensures
        r == spec_failover_step(schedule@, tried as int, n_actors as int, has_last_resort),
{
    if schedule.len() == 0 && has_last_resort {
        FailoverStep::LastResort
    } else if tried >= schedule.len() {
        FailoverStep::AllFailed
    } else if schedule[tried] >= n_actors {
        FailoverStep::InvalidActor
    } else {
        FailoverStep::Try(schedule[tried])
    }
}

/// How an attempt of a failover group went.
#[derive(Clone, Debug, PartialEq, Eq)]
pub enum AttemptOutcome {
    /// Setting the attempt up failed (getting the actor's handler or
    /// connecting its transport); the message of that error.
    SetupFailed(String),
    /// The actor's handler failed or timed out.
    Failed,
    /// The actor's handler gave a datagram session.
    Succeeded,
}

/// What a failover group does after an attempt.
#[derive(Clone, Debug, PartialEq, Eq)]
pub enum FailoverNext {
    /// Return the session the attempt gave.
    Done,
    /// End the session at once with the set-up error.
    SetupError(String),
    /// Go on as `failover_step` says.
    Step(FailoverStep),
}

/// What a failover group does after the attempt at position `tried` of the
/// schedule went as `outcome` says: a success is returned; a set-up error
/// ends the session with that error without trying further actors; a failed
/// or timed-out attempt moves on to the next scheduled actor.
pub open spec fn spec_failover_after(
    outcome: AttemptOutcome,
    schedule: Seq<usize>,
    tried: int,
    n_actors: int,
    has_last_resort: bool,
) -> FailoverNext {
    match outcome {
        AttemptOutcome::Succeeded => FailoverNext::Done,
        AttemptOutcome::SetupFailed(m) => FailoverNext::SetupError(m),
        AttemptOutcome::Failed => FailoverNext::Step(
            spec_failover_step(schedule, tried + 1, n_actors, has_last_resort),
        ),
    }
}

/// What a failover group does after the attempt at position `tried` of the
/// schedule (see `spec_failover_after`).
pub fn failover_after(
    outcome: AttemptOutcome,
    schedule: &Vec<usize>,
    tried: usize,
    n_actors: usize,
    has_last_resort: bool,
) -> (r: FailoverNext)
    requires
        tried < schedule@.len(),
    ensures
        r == spec_failover_after(outcome, schedule@, tried as int, n_actors as int, has_last_resort),
{
    let len = schedule.len();
    assert(tried + 1 <= len);
    match outcome {
        AttemptOutcome::Succeeded => FailoverNext::Done,
        AttemptOutcome::SetupFailed(m) => FailoverNext::SetupError(m),
        AttemptOutcome::Failed => {
            let len = schedule.len();
            assert(tried + 1 <= len);
            FailoverNext::Step(failover_step(schedule, tried + 1, n_actors, has_last_resort))
        },
    }
}

/// A failover group only ever tries actors that exist, and tries them in
/// the scheduled order: the `k`-th attempt is the `k`-th scheduled actor.
pub proof fn lemma_failover_tries_in_order(
    schedule: Seq<usize>,
    tried: int,
    n_actors: int,
    has_last_resort: bool,
)
    requires
        0 <= tried,
    ensures
        spec_failover_step(schedule, tried, n_actors, has_last_resort) matches FailoverStep::Try(
            i,
        ) ==> i == schedule[tried] && i < n_actors && tried < schedule.len(),
{
}

/// How long a try-all group waits before starting each attempt, in
/// milliseconds: the attempt's index times the base delay, or no wait when
/// the base is zero.
pub fn attempt_delays(delay_base: u32, n: usize) -> (r: Vec<u64>)
    requires
        n == 0 || (n - 1) * delay_base <= u32::MAX,
    ensures
        r@.len() == n,
        forall|i: int| 0 <= i < n ==> #[trigger] r@[i] == i * delay_base,
{
    let mut r: Vec<u64> = Vec::new();
    let mut i: usize = 0;
    while i < n
        invariant
            i <= n,
            n == 0 || (n - 1) * delay_base <= u32::MAX,
            r@.len() == i,
            forall|k: int| 0 <= k < i ==> #[trigger] r@[k] == k * delay_base,
        decreases n - i,
    {
        if delay_base > 0 {
            assert(i * delay_base <= (n - 1) * delay_base) by (nonlinear_arith)
                requires
                    i <= n - 1,
            ;
            assert(i <= (n - 1) * delay_base) by (nonlinear_arith)
                requires
                    i <= n - 1,
                    delay_base >= 1,
            ;
            assert(i <= u32::MAX);
            let iu = i as u32;
            assert(iu == i);
            assert(delay_base * iu == i * delay_base) by (nonlinear_arith)
                requires
                    iu == i,
            ;
            let d = delay_base * iu;
            let ghost r0 = r@;
            r.push(d as u64);
            assert(forall|k: int| 0 <= k < i ==> r@[k] == r0[k]);
        } else {
            let ghost r0 = r@;
            r.push(0);
            assert(forall|k: int| 0 <= k < i ==> r@[k] == r0[k]);
        }
        i += 1;
    }
    r
}

/// Whether a multiplexer may open the new stream over a connection it
/// already has: not when the session asks for a new connection.
pub fn mux_may_reuse(new_conn_once: bool) -> (b: bool)
    ensures
        b == !new_conn_once,
{
    !new_conn_once
}

/// The next move of a multiplexer opening a stream for a session.
#[derive(Clone, Copy, Debug, PartialEq, Eq)]
pub enum MuxStep {
    /// Ask the existing connection at this index for a stream.
    Try(usize),
    /// The connection just asked gave a stream: use it.
    UseStream,
    /// Open a new connection for the stream.
    Connect,
}

/// The move of a multiplexer that has asked the first `tried` of its
/// `n_connections` existing connections for a stream, `yielded` telling
/// whether the last one asked gave one. A session that asks for its own
/// connection never reuses one; otherwise the connections are asked in
/// order, the first to give a stream is used, and a new connection is opened
/// only when none gave one.
pub open spec fn spec_mux_step(new_conn_once: bool, n_connections: int, tried: int, yielded: bool) -> MuxStep {
    if new_conn_once {
        MuxStep::Connect
    } else if yielded {
        MuxStep::UseStream
    } else if tried < n_connections {
        MuxStep::Try(tried as usize)
    } else {
        MuxStep::Connect
    }
}

/// The next move of a multiplexer opening a stream (see `spec_mux_step`).
pub fn mux_step(new_conn_once: bool, n_connections: usize, tried: usize, yielded: bool) -> (r: MuxStep)
    ensures
        r == spec_mux_step(new_conn_once, n_connections as int, tried as int, yielded),
{
    if !mux_may_reuse(new_conn_once) {
        MuxStep::Connect
    } else if yielded {
        MuxStep::UseStream
    } else if tried < n_connections {
        MuxStep::Try(tried)
    } else {
        MuxStep::Connect
    }
}

/// A multiplexer asks its connections in order and only existing ones, and
/// opens a new connection only when the session asks for one or every
/// connection was asked without giving a stream.
pub proof fn lemma_mux_scans_in_order(
    new_conn_once: bool,
    n_connections: usize,
    tried: usize,
    yielded: bool,
)
    ensures
        spec_mux_step(new_conn_once, n_connections as int, tried as int, yielded) matches MuxStep::Try(
            i,
        ) ==> i == tried && tried < n_connections && !new_conn_once,
        spec_mux_step(new_conn_once, n_connections as int, tried as int, yielded)
            == MuxStep::Connect ==> new_conn_once || (!yielded && tried >= n_connections),
{
}

/// What a multiplexer does with a new connection, given the stream it was
/// asked for (`None` when it gave none): a connection that gave a stream is
/// kept (the first of the pair) and the stream returned; otherwise it is not
/// kept and opening the stream fails with "new stream failed".
pub fn mux_new_connection<S>(stream: Option<S>) -> (r: (bool, Result<S, String>))
    ensures
        match stream {
            Some(s) => r.0 && r.1 == Ok::<S, String>(s),
            None => !r.0 && (r.1 matches Err(m) && m@ == "new stream failed"@),
        },
{
    match stream {
        Some(s) => (true, Ok(s)),
        None => (false, Err(String::from_str("new stream failed"))),
    }
}

/// The limits a new multiplexed connection is opened with: the most
/// streams it accepts and how many run at once. A session that asks for its
/// own connection gets one stream.
pub fn mux_connector_limits(new_conn_once: bool, max_accepts: usize, concurrency: usize) -> (r: (
    usize,
    usize,
))
    ensures
        new_conn_once ==> r == (1usize, 1usize),
        !new_conn_once ==> r == (max_accepts, concurrency),
{
    if new_conn_once {
        (1, 1)
    } else {
        (max_accepts, concurrency)
    }
}

} // verus!
