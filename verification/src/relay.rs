//! The forwarding proxies: a session carries each chunk read from the
//! client to the upstream server, then each reply from the upstream server
//! back to the client, strictly in turn, until either side goes away.

use vstd::prelude::*;
use vstd::string::*;
use crate::event::{ReadEvent, ReadModel};

verus! {

/// One end of a relayed connection.
#[derive(PartialEq, Eq, Structural, Clone, Copy, Debug)]
pub enum Side {
    /// The connection accepted from the client.
    Client,
    /// The connection the proxy opened to the server behind it.
    Upstream,
}

pub open spec fn other_side(s: Side) -> Side {
    match s {
        Side::Client => Side::Upstream,
        Side::Upstream => Side::Client,
    }
}

/// How the write (and, where the program flushes, the flush) of a
/// forwarded chunk went.
pub enum Delivery {
    Done,
    WriteFailed(String),
    FlushFailed(String),
}

/// What the caller observed since the last action.
pub enum RelayEvent {
    /// Outcome of reading from the client.
    FromClient(ReadEvent),
    /// Outcome of reading from the upstream server.
    FromUpstream(ReadEvent),
    /// Outcome of delivering the chunk last asked for.
    Delivered(Delivery),
}

/// Where a relay session stands.
#[derive(PartialEq, Eq, Structural, Clone, Copy, Debug)]
pub enum RelayPhase {
    /// Waiting for the client to send something.
    ReadClient,
    /// Delivering a chunk of this many bytes to the upstream server.
    SendUpstream(usize),
    /// Waiting for the upstream server's reply.
    ReadUpstream,
    /// Delivering a chunk of this many bytes to the client.
    SendClient(usize),
    /// The session is over.
    Finished,
}

/// How a relay session ended.
pub enum RelayEnd {
    /// The client closed its side.
    ClientClosed,
    /// Reading from the client failed.
    ClientReadFailed(String),
    /// The upstream server closed its side.
    UpstreamClosed,
    /// Reading from the upstream server failed.
    UpstreamReadFailed(String),
    /// Writing to this side failed; the session ends without an error.
    SendFailed(Side, String),
    /// The session ends with this error, which the caller passes on.
    Error(String),
}

/// What the caller is to do next.
pub enum RelayAction {
    /// Write these bytes to this side, then flush that side when the flag
    /// says so.
    Forward(Side, Vec<u8>, bool),
    /// A chunk of this many bytes reached this side; log it and read from
    /// the other side.
    Forwarded(Side, usize),
    /// Stop relaying.
    Finish(RelayEnd),
    /// The event does not fit the session's state; nothing to do.
    Ignored,
}

pub enum DeliveryModel {
    Done,
    WriteFailed(Seq<char>),
    FlushFailed(Seq<char>),
}

pub enum RelayEventModel {
    FromClient(ReadModel),
    FromUpstream(ReadModel),
    Delivered(DeliveryModel),
}

pub enum RelayEndModel {
    ClientClosed,
    ClientReadFailed(Seq<char>),
    UpstreamClosed,
    UpstreamReadFailed(Seq<char>),
    SendFailed(Side, Seq<char>),
    Error(Seq<char>),
}

pub enum RelayActionModel {
    Forward(Side, Seq<u8>, bool),
    Forwarded(Side, usize),
    Finish(RelayEndModel),
    Ignored,
}

impl View for Delivery {
    type V = DeliveryModel;

    open spec fn view(&self) -> DeliveryModel {
        match self {
            Delivery::Done => DeliveryModel::Done,
            Delivery::WriteFailed(m) => DeliveryModel::WriteFailed(m@),
            Delivery::FlushFailed(m) => DeliveryModel::FlushFailed(m@),
        }
    }
}

impl View for RelayEvent {
    type V = RelayEventModel;

    open spec fn view(&self) -> RelayEventModel {
        match self {
            RelayEvent::FromClient(r) => RelayEventModel::FromClient(r@),
            RelayEvent::FromUpstream(r) => RelayEventModel::FromUpstream(r@),
            RelayEvent::Delivered(d) => RelayEventModel::Delivered(d@),
        }
    }
}

impl View for RelayEnd {
    type V = RelayEndModel;

    open spec fn view(&self) -> RelayEndModel {
        match self {
            RelayEnd::ClientClosed => RelayEndModel::ClientClosed,
            RelayEnd::ClientReadFailed(m) => RelayEndModel::ClientReadFailed(m@),
            RelayEnd::UpstreamClosed => RelayEndModel::UpstreamClosed,
            RelayEnd::UpstreamReadFailed(m) => RelayEndModel::UpstreamReadFailed(m@),
            RelayEnd::SendFailed(s, m) => RelayEndModel::SendFailed(*s, m@),
            RelayEnd::Error(m) => RelayEndModel::Error(m@),
        }
    }
}

impl View for RelayAction {
    type V = RelayActionModel;

    open spec fn view(&self) -> RelayActionModel {
        match self {
            RelayAction::Forward(s, b, f) => RelayActionModel::Forward(*s, b@, *f),
            RelayAction::Forwarded(s, n) => RelayActionModel::Forwarded(*s, *n),
            RelayAction::Finish(end) => RelayActionModel::Finish(end@),
            RelayAction::Ignored => RelayActionModel::Ignored,
        }
    }
}

/// How a proxy treats the writes of a session.
#[derive(PartialEq, Eq, Structural, Clone, Copy, Debug)]
pub struct RelayPolicy {
    /// A failed write ends the session without an error.
    pub quiet_write_failures: bool,
    /// Chunks written to the upstream server are flushed. Chunks written to
    /// the client always are.
    pub flush_upstream: bool,
}

/// Whether a chunk written to `to` is flushed.
pub open spec fn flushes(policy: RelayPolicy, to: Side) -> bool {
    match to {
        Side::Client => true,
        Side::Upstream => policy.flush_upstream,
    }
}

/// A failed write ends the session: quietly when the policy says so, else
/// as an error.
pub open spec fn write_failure(policy: RelayPolicy, side: Side, m: Seq<char>) -> RelayEndModel {
    if policy.quiet_write_failures {
        RelayEndModel::SendFailed(side, m)
    } else {
        RelayEndModel::Error(m)
    }
}

/// What reading from `from` gives: the chunk goes to the other side, an
/// empty read or an error ends the session.
pub open spec fn after_read(policy: RelayPolicy, from: Side, r: ReadModel) -> (
    RelayPhase,
    RelayActionModel,
) {
    match r {
        ReadModel::Received(b) => if b.len() > 0 {
            (
                match from {
                    Side::Client => RelayPhase::SendUpstream(b.len() as usize),
                    Side::Upstream => RelayPhase::SendClient(b.len() as usize),
                },
                RelayActionModel::Forward(
                    other_side(from),
                    b,
                    flushes(policy, other_side(from)),
                ),
            )
        } else {
            (
                RelayPhase::Finished,
                RelayActionModel::Finish(
                    match from {
                        Side::Client => RelayEndModel::ClientClosed,
                        Side::Upstream => RelayEndModel::UpstreamClosed,
                    },
                ),
            )
        },
        ReadModel::Failed(m) => (
            RelayPhase::Finished,
            RelayActionModel::Finish(
                match from {
                    Side::Client => RelayEndModel::ClientReadFailed(m),
                    Side::Upstream => RelayEndModel::UpstreamReadFailed(m),
                },
            ),
        ),
    }
}

/// What the outcome of delivering `n` bytes to `to` gives.
pub open spec fn after_delivery(policy: RelayPolicy, to: Side, n: usize, d: DeliveryModel) -> (
    RelayPhase,
    RelayActionModel,
) {
    match d {
        DeliveryModel::Done => (
            match to {
                Side::Upstream => RelayPhase::ReadUpstream,
                Side::Client => RelayPhase::ReadClient,
            },
            RelayActionModel::Forwarded(to, n),
        ),
        DeliveryModel::WriteFailed(m) => (
            RelayPhase::Finished,
            RelayActionModel::Finish(write_failure(policy, to, m)),
        ),
        DeliveryModel::FlushFailed(m) => (
            RelayPhase::Finished,
            RelayActionModel::Finish(RelayEndModel::Error(m)),
        ),
    }
}

/// One step of a relay session.
pub open spec fn relay_step(policy: RelayPolicy, p: RelayPhase, e: RelayEventModel) -> (
    RelayPhase,
    RelayActionModel,
) {
    match (p, e) {
        (RelayPhase::ReadClient, RelayEventModel::FromClient(r)) => after_read(
            policy,
            Side::Client,
            r,
        ),
        (RelayPhase::ReadUpstream, RelayEventModel::FromUpstream(r)) => after_read(
            policy,
            Side::Upstream,
            r,
        ),
        (RelayPhase::SendUpstream(n), RelayEventModel::Delivered(d)) => after_delivery(
            policy,
            Side::Upstream,
            n,
            d,
        ),
        (RelayPhase::SendClient(n), RelayEventModel::Delivered(d)) => after_delivery(
            policy,
            Side::Client,
            n,
            d,
        ),
        _ => (p, RelayActionModel::Ignored),
    }
}

/// One relayed connection.
pub struct RelaySession {
    policy: RelayPolicy,
    phase: RelayPhase,
}

impl RelaySession {
    /// How this session treats its writes.
    pub closed spec fn policy(&self) -> RelayPolicy {
        self.policy
    }

    pub closed spec fn current_phase(&self) -> RelayPhase {
        self.phase
    }

    /// A session of the plain-to-TLS proxy: both sides are flushed after
    /// each chunk; a failed write is reported and ends the session, only a
    /// failed flush is an error.
    pub fn for_tls_upstream() -> (s: RelaySession)
        ensures
            s.policy() == (RelayPolicy { quiet_write_failures: true, flush_upstream: true }),
            s.current_phase() == RelayPhase::ReadClient,
    {
        RelaySession {
            policy: RelayPolicy { quiet_write_failures: true, flush_upstream: true },
            phase: RelayPhase::ReadClient,
        }
    }

    /// A session of the TLS-terminating reverse proxy: only the client side
    /// is flushed after each chunk; any failed write or flush is an error.
    pub fn for_tls_client() -> (s: RelaySession)
        ensures
            s.policy() == (RelayPolicy { quiet_write_failures: false, flush_upstream: false }),
            s.current_phase() == RelayPhase::ReadClient,
    {
        RelaySession {
            policy: RelayPolicy { quiet_write_failures: false, flush_upstream: false },
            phase: RelayPhase::ReadClient,
        }
    }

    /// Where the session stands.
    pub fn phase(&self) -> (p: RelayPhase)
        ensures
            p == self.current_phase(),
    {
        self.phase
    }

    fn end_on_write_failure(&self, side: Side, m: String) -> (end: RelayEnd)
        ensures
            end@ == write_failure(self.policy(), side, m@),
    {
        if self.policy.quiet_write_failures {
            RelayEnd::SendFailed(side, m)
        } else {
            RelayEnd::Error(m)
        }
    }

    fn read_from(&mut self, from: Side, r: ReadEvent) -> (a: RelayAction)
        ensures
            final(self).policy() == old(self).policy(),
            (final(self).current_phase(), a@) == after_read(old(self).policy(), from, r@),
    {
        match r {
            ReadEvent::Received(b) => {
                if b.len() > 0 {
                    let n = b.len();
                    match from {
                        Side::Client => {
                            self.phase = RelayPhase::SendUpstream(n);
                            RelayAction::Forward(Side::Upstream, b, self.policy.flush_upstream)
                        },
                        Side::Upstream => {
                            self.phase = RelayPhase::SendClient(n);
                            RelayAction::Forward(Side::Client, b, true)
                        },
                    }
                } else {
                    self.phase = RelayPhase::Finished;
                    match from {
                        Side::Client => RelayAction::Finish(RelayEnd::ClientClosed),
                        Side::Upstream => RelayAction::Finish(RelayEnd::UpstreamClosed),
                    }
                }
            },
            ReadEvent::Failed(m) => {
                self.phase = RelayPhase::Finished;
                match from {
                    Side::Client => RelayAction::Finish(RelayEnd::ClientReadFailed(m)),
                    Side::Upstream => RelayAction::Finish(RelayEnd::UpstreamReadFailed(m)),
                }
            },
        }
    }

    fn delivered_to(&mut self, to: Side, n: usize, d: Delivery) -> (a: RelayAction)
        ensures
            final(self).policy() == old(self).policy(),
            (final(self).current_phase(), a@) == after_delivery(old(self).policy(), to, n, d@),
    {
        match d {
            Delivery::Done => {
                self.phase = match to {
                    Side::Upstream => RelayPhase::ReadUpstream,
                    Side::Client => RelayPhase::ReadClient,
                };
                RelayAction::Forwarded(to, n)
            },
            Delivery::WriteFailed(m) => {
                let end = self.end_on_write_failure(to, m);
                self.phase = RelayPhase::Finished;
                RelayAction::Finish(end)
            },
            Delivery::FlushFailed(m) => {
                self.phase = RelayPhase::Finished;
                RelayAction::Finish(RelayEnd::Error(m))
            },
        }
    }

    /// Decide what to do with what the caller observed.
    pub fn on_event(&mut self, e: RelayEvent) -> (a: RelayAction)
        ensures
            final(self).policy() == old(self).policy(),
            (final(self).current_phase(), a@) == relay_step(
                old(self).policy(),
                old(self).current_phase(),
                e@,
            ),
    {
        match (self.phase, e) {
            (RelayPhase::ReadClient, RelayEvent::FromClient(r)) => self.read_from(Side::Client, r),
            (RelayPhase::ReadUpstream, RelayEvent::FromUpstream(r)) => self.read_from(
                Side::Upstream,
                r,
            ),
            (RelayPhase::SendUpstream(n), RelayEvent::Delivered(d)) => self.delivered_to(
                Side::Upstream,
                n,
                d,
            ),
            (RelayPhase::SendClient(n), RelayEvent::Delivered(d)) => self.delivered_to(
                Side::Client,
                n,
                d,
            ),
            _ => RelayAction::Ignored,
        }
    }
}

/// The actions of a session that starts in phase `p` and meets `events` in
/// order.
pub open spec fn relay_run(policy: RelayPolicy, p: RelayPhase, events: Seq<RelayEventModel>) -> Seq<
    RelayActionModel,
>
    decreases events.len(),
{
    if events.len() == 0 {
        Seq::empty()
    } else {
        let (next, a) = relay_step(policy, p, events[0]);
        seq![a] + relay_run(policy, next, events.drop_first())
    }
}

/// The sides that chunks are forwarded to, in order.
pub open spec fn forward_targets(actions: Seq<RelayActionModel>) -> Seq<Side>
    decreases actions.len(),
{
    if actions.len() == 0 {
        Seq::empty()
    } else {
        let rest = forward_targets(actions.drop_first());
        match actions[0] {
            RelayActionModel::Forward(side, _, _) => seq![side] + rest,
            _ => rest,
        }
    }
}

/// The side that the next chunk forwarded from phase `p` goes to.
pub open spec fn next_target(p: RelayPhase) -> Side {
    match p {
        RelayPhase::ReadClient => Side::Upstream,
        RelayPhase::SendClient(_) => Side::Upstream,
        _ => Side::Client,
    }
}

/// `sides` goes `first`, the other side, `first`, ... in turn.
pub open spec fn alternates(sides: Seq<Side>, first: Side) -> bool {
    forall|i: int|
        0 <= i < sides.len() ==> #[trigger] sides[i] == if i % 2 == 0 {
            first
        } else {
            other_side(first)
        }
}

proof fn lemma_finished_run_forwards_nothing(policy: RelayPolicy, events: Seq<RelayEventModel>)
    ensures
        forward_targets(relay_run(policy, RelayPhase::Finished, events)) == Seq::<Side>::empty(),
    decreases events.len(),
{
    if events.len() > 0 {
        let run = relay_run(policy, RelayPhase::Finished, events);
        assert(run.drop_first() =~= relay_run(policy, RelayPhase::Finished, events.drop_first()));
        lemma_finished_run_forwards_nothing(policy, events.drop_first());
    }
}

proof fn lemma_run_alternates(policy: RelayPolicy, p: RelayPhase, events: Seq<RelayEventModel>)
    ensures
        alternates(forward_targets(relay_run(policy, p, events)), next_target(p)),
    decreases events.len(),
{
    if events.len() > 0 {
        let (next, a) = relay_step(policy, p, events[0]);
        let run = relay_run(policy, p, events);
        let rest = relay_run(policy, next, events.drop_first());
        assert(run.drop_first() =~= rest);
        assert(run[0] == a);
        if next == RelayPhase::Finished {
            lemma_finished_run_forwards_nothing(policy, events.drop_first());
        } else {
            lemma_run_alternates(policy, next, events.drop_first());
        }
        let tail = forward_targets(rest);
        if let RelayActionModel::Forward(side, _, _) = a {
            let all = forward_targets(run);
            assert(all =~= seq![side] + tail);
            assert(side == next_target(p));
            assert(next == RelayPhase::Finished || next_target(next) == other_side(side));
            assert forall|i: int| 0 <= i < all.len() implies #[trigger] all[i] == if i % 2 == 0 {
                next_target(p)
            } else {
                other_side(next_target(p))
            } by {
                if i > 0 {
                    assert(all[i] == tail[i - 1]);
                }
            }
        } else {
            assert(forward_targets(run) =~= tail);
            assert(next == RelayPhase::Finished || next_target(next) == next_target(p));
        }
    }
}

/// A relay session works in lockstep: chunks go to the upstream server and
/// to the client strictly in turn, starting with the upstream server, so at
/// most one request is ever waiting for its reply.
pub proof fn law_relay_lockstep(policy: RelayPolicy, events: Seq<RelayEventModel>)
    ensures
        alternates(forward_targets(relay_run(policy, RelayPhase::ReadClient, events)), Side::Upstream),
{
    lemma_run_alternates(policy, RelayPhase::ReadClient, events);
}

/// Every chunk a relay forwards is, unchanged, the non-empty chunk just read
/// from the opposite side, flushed as the policy says; nothing is forwarded
/// in answer to anything else.
pub proof fn law_relay_forwards_unchanged(policy: RelayPolicy, p: RelayPhase, e: RelayEventModel)
    ensures
        relay_step(policy, p, e).1 matches RelayActionModel::Forward(side, b, flush) ==> b.len() > 0
            && flush == flushes(policy, side) && ((side == Side::Upstream && e
            == RelayEventModel::FromClient(ReadModel::Received(b))) || (side == Side::Client && e
            == RelayEventModel::FromUpstream(ReadModel::Received(b)))),
{
}

/// The chunk that reading from `from` in phase `p` takes in, if the event
/// is such a read and brought data.
pub open spec fn chunk_taken(p: RelayPhase, e: RelayEventModel, from: Side) -> Option<Seq<u8>> {
    match (p, e) {
        (RelayPhase::ReadClient, RelayEventModel::FromClient(ReadModel::Received(b))) => if from
            == Side::Client && b.len() > 0 {
            Some(b)
        } else {
            None
        },
        (RelayPhase::ReadUpstream, RelayEventModel::FromUpstream(ReadModel::Received(b))) => if from
            == Side::Upstream && b.len() > 0 {
            Some(b)
        } else {
            None
        },
        _ => None,
    }
}

/// The non-empty chunks a session starting in phase `p` reads from `from`
/// while meeting `events`, in order.
pub open spec fn chunks_read(
    policy: RelayPolicy,
    p: RelayPhase,
    events: Seq<RelayEventModel>,
    from: Side,
) -> Seq<Seq<u8>>
    decreases events.len(),
{
    if events.len() == 0 {
        Seq::empty()
    } else {
        let (next, _) = relay_step(policy, p, events[0]);
        let rest = chunks_read(policy, next, events.drop_first(), from);
        match chunk_taken(p, events[0], from) {
            Some(b) => seq![b] + rest,
            None => rest,
        }
    }
}

/// The chunks a sequence of actions writes to `to`, in order.
pub open spec fn chunks_written(actions: Seq<RelayActionModel>, to: Side) -> Seq<Seq<u8>>
    decreases actions.len(),
{
    if actions.len() == 0 {
        Seq::empty()
    } else {
        let rest = chunks_written(actions.drop_first(), to);
        match actions[0] {
            RelayActionModel::Forward(side, b, _) => if side == to {
                seq![b] + rest
            } else {
                rest
            },
            _ => rest,
        }
    }
}

proof fn lemma_run_conserves(policy: RelayPolicy, p: RelayPhase, events: Seq<RelayEventModel>)
    ensures
        chunks_written(relay_run(policy, p, events), Side::Upstream) == chunks_read(
            policy,
            p,
            events,
            Side::Client,
        ),
        chunks_written(relay_run(policy, p, events), Side::Client) == chunks_read(
            policy,
            p,
            events,
            Side::Upstream,
        ),
        ({
            let c = chunks_read(policy, p, events, Side::Client).len();
            let u = chunks_read(policy, p, events, Side::Upstream).len();
            &&& p == RelayPhase::Finished ==> c == 0 && u == 0
            &&& next_target(p) == Side::Upstream ==> u <= c <= u + 1
            &&& next_target(p) == Side::Client ==> c <= u <= c + 1
        }),
    decreases events.len(),
{
    if events.len() > 0 {
        let e = events[0];
        let tail = events.drop_first();
        let (next, a) = relay_step(policy, p, e);
        let run = relay_run(policy, p, events);
        let rest = relay_run(policy, next, tail);
        assert(run.drop_first() =~= rest);
        assert(run[0] == a);
        lemma_run_conserves(policy, next, tail);
        let c0 = chunks_read(policy, next, tail, Side::Client);
        let u0 = chunks_read(policy, next, tail, Side::Upstream);
        match chunk_taken(p, e, Side::Client) {
            Some(b) => {
                assert(a == RelayActionModel::Forward(Side::Upstream, b, policy.flush_upstream));
                assert(chunk_taken(p, e, Side::Upstream) is None);
                assert(chunks_written(run, Side::Upstream) =~= seq![b] + chunks_written(
                    rest,
                    Side::Upstream,
                ));
                assert(chunks_written(run, Side::Client) =~= chunks_written(rest, Side::Client));
            },
            None => {
                match chunk_taken(p, e, Side::Upstream) {
                    Some(b) => {
                        assert(a == RelayActionModel::Forward(Side::Client, b, true));
                        assert(chunks_written(run, Side::Client) =~= seq![b] + chunks_written(
                            rest,
                            Side::Client,
                        ));
                        assert(chunks_written(run, Side::Upstream) =~= chunks_written(
                            rest,
                            Side::Upstream,
                        ));
                    },
                    None => {
                        assert(!(a is Forward));
                        assert(chunks_written(run, Side::Client) =~= chunks_written(
                            rest,
                            Side::Client,
                        ));
                        assert(chunks_written(run, Side::Upstream) =~= chunks_written(
                            rest,
                            Side::Upstream,
                        ));
                        assert(next == RelayPhase::Finished || next_target(next) == next_target(
                            p,
                        ));
                    },
                }
            },
        }
    }
}

/// A relay neither loses, alters, reorders nor invents data: the chunks it
/// writes to the upstream server are exactly the non-empty chunks it read
/// from the client, in order, and the chunks it writes to the client are
/// exactly those it read from the upstream server. The client is never
/// more than one chunk ahead of the upstream server's replies.
pub proof fn law_relay_conserves_chunks(policy: RelayPolicy, events: Seq<RelayEventModel>)
    ensures
        chunks_written(relay_run(policy, RelayPhase::ReadClient, events), Side::Upstream)
            == chunks_read(policy, RelayPhase::ReadClient, events, Side::Client),
        chunks_written(relay_run(policy, RelayPhase::ReadClient, events), Side::Client)
            == chunks_read(policy, RelayPhase::ReadClient, events, Side::Upstream),
        chunks_read(policy, RelayPhase::ReadClient, events, Side::Upstream).len() <= chunks_read(
            policy,
            RelayPhase::ReadClient,
            events,
            Side::Client,
        ).len() <= chunks_read(policy, RelayPhase::ReadClient, events, Side::Upstream).len() + 1,
{
    lemma_run_conserves(policy, RelayPhase::ReadClient, events);
}

/// Once a forwarded chunk is delivered, the session reports the side it
/// went to and its exact size, then reads from that side.
pub proof fn law_relay_reports_delivered_chunk(
    policy: RelayPolicy,
    p: RelayPhase,
    e: RelayEventModel,
)
    ensures
        ({
            let (p1, a1) = relay_step(policy, p, e);
            let (p2, a2) = relay_step(policy, p1, RelayEventModel::Delivered(DeliveryModel::Done));
            a1 matches RelayActionModel::Forward(side, b, flush) ==> {
                &&& a2 == RelayActionModel::Forwarded(side, b.len() as usize)
                &&& p2 == match side {
                    Side::Upstream => RelayPhase::ReadUpstream,
                    Side::Client => RelayPhase::ReadClient,
                }
            }
        }),
{
}

/// A finished session stays finished and does nothing more.
pub proof fn law_relay_end_is_final(policy: RelayPolicy, e: RelayEventModel)
    ensures
        relay_step(policy, RelayPhase::Finished, e) == (RelayPhase::Finished, RelayActionModel::Ignored),
{
}

/// An empty read or a failed read from either side ends the session, and
/// neither is ever an error passed on to the caller.
pub proof fn law_relay_read_end(policy: RelayPolicy, p: RelayPhase, r: ReadModel)
    requires
        !r.has_data(),
        p == RelayPhase::ReadClient || p == RelayPhase::ReadUpstream,
    ensures
        ({
            let e = if p == RelayPhase::ReadClient {
                RelayEventModel::FromClient(r)
            } else {
                RelayEventModel::FromUpstream(r)
            };
            let (next, a) = relay_step(policy, p, e);
            &&& next == RelayPhase::Finished
            &&& a is Finish
            &&& !(a->Finish_0 is Error)
        }),
{
}


/// The ways a TLS handshake with the upstream server can fail.
#[derive(PartialEq, Eq, Structural, Clone, Copy, Debug)]
pub enum HandshakeFailure {
    /// The handshake itself failed.
    Failure,
    /// The handshake could not finish without blocking.
    WouldBlock,
    /// The TLS session could not even be set up.
    SetupFailure,
}

/// The kind of I/O error a connection failure is reported as.
#[derive(PartialEq, Eq, Structural, Clone, Copy, Debug)]
pub enum ConnectErrorKind {
    Other,
    WouldBlock,
}

/// The error a proxy session ends with when it cannot reach the upstream
/// server over TLS.
pub struct ConnectError {
    pub kind: ConnectErrorKind,
    pub message: String,
}

/// The error kind each handshake failure is reported as.
pub open spec fn handshake_error_kind(f: HandshakeFailure) -> ConnectErrorKind {
    match f {
        HandshakeFailure::WouldBlock => ConnectErrorKind::WouldBlock,
        _ => ConnectErrorKind::Other,
    }
}

/// The message each handshake failure is reported with.
pub open spec fn handshake_error_message(f: HandshakeFailure) -> Seq<char> {
    match f {
        HandshakeFailure::Failure => "TLS handshake failed"@,
        HandshakeFailure::WouldBlock => "TLS handshake would block"@,
        HandshakeFailure::SetupFailure => "TLS setup failed"@,
    }
}

/// The error a failed handshake with the upstream server ends the session
/// with.
pub fn handshake_error(f: HandshakeFailure) -> (e: ConnectError)
    ensures
        e.kind == handshake_error_kind(f),
        e.message@ == handshake_error_message(f),
{
    match f {
        HandshakeFailure::Failure => ConnectError {
            kind: ConnectErrorKind::Other,
            message: String::from_str("TLS handshake failed"),
        },
        HandshakeFailure::WouldBlock => ConnectError {
            kind: ConnectErrorKind::WouldBlock,
            message: String::from_str("TLS handshake would block"),
        },
        HandshakeFailure::SetupFailure => ConnectError {
            kind: ConnectErrorKind::Other,
            message: String::from_str("TLS setup failed"),
        },
    }
}

/// Different handshake failures are reported differently.
pub proof fn law_handshake_errors_distinct(f: HandshakeFailure, g: HandshakeFailure)
    requires
        f != g,
    ensures
        handshake_error_message(f) != handshake_error_message(g),
{
    reveal_strlit("TLS handshake failed");
    reveal_strlit("TLS handshake would block");
    reveal_strlit("TLS setup failed");
    let a = handshake_error_message(f);
    let b = handshake_error_message(g);
    if a.len() == b.len() {
        assert(a[4] != b[4] || a[14] != b[14]);
    }
}

} // verus!
