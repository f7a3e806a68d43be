//! Echo servers: the one-shot plain server answers a single read, the TLS
//! servers echo every chunk until the client goes away.

use vstd::prelude::*;
use crate::event::{ReadEvent, ReadModel};

verus! {

/// What the one-shot server does with the single read it makes.
pub enum OneShotReply {
    /// Write these bytes back, then flush.
    Echo(Vec<u8>),
    /// Nothing was read (closed or failed): report it and write nothing.
    NothingRead,
}

pub enum OneShotModel {
    Echo(Seq<u8>),
    NothingRead,
}

impl View for OneShotReply {
    type V = OneShotModel;

    open spec fn view(&self) -> OneShotModel {
        match self {
            OneShotReply::Echo(b) => OneShotModel::Echo(b@),
            OneShotReply::NothingRead => OneShotModel::NothingRead,
        }
    }
}

pub open spec fn one_shot(e: ReadModel) -> OneShotModel {
    match e {
        ReadModel::Received(b) => if b.len() > 0 {
            OneShotModel::Echo(b)
        } else {
            OneShotModel::NothingRead
        },
        ReadModel::Failed(_) => OneShotModel::NothingRead,
    }
}

/// The plain server reads once; a non-empty read is echoed verbatim, an
/// empty or failed read is only reported.
pub fn answer_once(e: ReadEvent) -> (r: OneShotReply)
    ensures
        r@ == one_shot(e@),
        e@.has_data() ==> r@ == OneShotModel::Echo(e@->Received_0),
        !e@.has_data() ==> r is NothingRead,
{
    match e {
        ReadEvent::Received(b) => if b.len() > 0 {
            OneShotReply::Echo(b)
        } else {
            OneShotReply::NothingRead
        },
        ReadEvent::Failed(_) => OneShotReply::NothingRead,
    }
}

/// What a session of the TLS echo server does after a read.
pub enum EchoAction {
    /// Write these bytes back to the client and keep reading.
    Echo(Vec<u8>),
    /// The client closed the connection; the session is over.
    Disconnected,
    /// Reading failed with this error; the session is over.
    ReadError(String),
    /// The session was already over; nothing to do.
    Idle,
}

pub enum EchoModel {
    Echo(Seq<u8>),
    Disconnected,
    ReadError(Seq<char>),
    Idle,
}

impl View for EchoAction {
    type V = EchoModel;

    open spec fn view(&self) -> EchoModel {
        match self {
            EchoAction::Echo(b) => EchoModel::Echo(b@),
            EchoAction::Disconnected => EchoModel::Disconnected,
            EchoAction::ReadError(m) => EchoModel::ReadError(m@),
            EchoAction::Idle => EchoModel::Idle,
        }
    }
}

/// One step of an echo session: whether it is still open afterwards, and
/// what to do.
pub open spec fn echo_step(open: bool, e: ReadModel) -> (bool, EchoModel) {
    if !open {
        (false, EchoModel::Idle)
    } else {
        match e {
            ReadModel::Received(b) => if b.len() > 0 {
                (true, EchoModel::Echo(b))
            } else {
                (false, EchoModel::Disconnected)
            },
            ReadModel::Failed(m) => (false, EchoModel::ReadError(m)),
        }
    }
}

/// The state of one client connection on a TLS echo server.
pub struct EchoSession {
    open: bool,
}

impl EchoSession {
    pub closed spec fn is_open(&self) -> bool {
        self.open
    }

    /// A session for a connection that has just completed its handshake.
    pub fn new() -> (s: EchoSession)
        ensures
            s.is_open(),
    {
        EchoSession { open: true }
    }

    /// Whether the server should keep reading from this client.
    pub fn open(&self) -> (b: bool)
        ensures
            b == self.is_open(),
    {
        self.open
    }

    /// Decide what to do with the outcome of a read.
    pub fn on_read(&mut self, e: ReadEvent) -> (a: EchoAction)
        ensures
            (final(self).is_open(), a@) == echo_step(old(self).is_open(), e@),
    {
        if !self.open {
            return EchoAction::Idle;
        }
        match e {
            ReadEvent::Received(b) => {
                if b.len() > 0 {
                    EchoAction::Echo(b)
                } else {
                    self.open = false;
                    EchoAction::Disconnected
                }
            },
            ReadEvent::Failed(m) => {
                self.open = false;
                EchoAction::ReadError(m)
            },
        }
    }
}

/// The actions of a session that starts open and meets `events` in order.
pub open spec fn echo_run(open: bool, events: Seq<ReadModel>) -> Seq<EchoModel>
    decreases events.len(),
{
    if events.len() == 0 {
        Seq::empty()
    } else {
        let (next, a) = echo_step(open, events[0]);
        seq![a] + echo_run(next, events.drop_first())
    }
}

/// Everything written back by a sequence of actions, in order.
pub open spec fn echoed_bytes(actions: Seq<EchoModel>) -> Seq<u8>
    decreases actions.len(),
{
    if actions.len() == 0 {
        Seq::empty()
    } else {
        let rest = echoed_bytes(actions.drop_first());
        match actions[0] {
            EchoModel::Echo(b) => b + rest,
            _ => rest,
        }
    }
}

/// The bytes that arrive before the connection ends: the chunks of the
/// leading non-empty reads.
pub open spec fn bytes_before_end(events: Seq<ReadModel>) -> Seq<u8>
    decreases events.len(),
{
    if events.len() == 0 {
        Seq::empty()
    } else {
        match events[0] {
            ReadModel::Received(b) => if b.len() > 0 {
                b + bytes_before_end(events.drop_first())
            } else {
                Seq::empty()
            },
            ReadModel::Failed(_) => Seq::empty(),
        }
    }
}

proof fn lemma_closed_run_is_idle(events: Seq<ReadModel>)
    ensures
        echoed_bytes(echo_run(false, events)) == Seq::<u8>::empty(),
    decreases events.len(),
{
    if events.len() > 0 {
        let run = echo_run(false, events);
        assert(run.drop_first() =~= echo_run(false, events.drop_first()));
        assert(run[0] == EchoModel::Idle);
        lemma_closed_run_is_idle(events.drop_first());
    }
}

/// An echo session writes back exactly the bytes it received, in the order
/// received, up to the end of the connection, and nothing after it.
pub proof fn law_echo_is_faithful(events: Seq<ReadModel>)
    ensures
        echoed_bytes(echo_run(true, events)) == bytes_before_end(events),
    decreases events.len(),
{
    if events.len() > 0 {
        let (next, a) = echo_step(true, events[0]);
        let run = echo_run(true, events);
        assert(run.drop_first() =~= echo_run(next, events.drop_first()));
        if next {
            law_echo_is_faithful(events.drop_first());
        } else {
            lemma_closed_run_is_idle(events.drop_first());
        }
    }
}

/// Once a session has ended it stays ended and never writes again.
pub proof fn law_echo_end_is_final(e: ReadModel)
    ensures
        echo_step(false, e) == (false, EchoModel::Idle),
{
}

/// Each step of an open session writes back exactly the chunk it read, and
/// the session stays open exactly when that chunk was non-empty.
pub proof fn law_echo_step_writes_what_it_read(e: ReadModel)
    ensures
        echo_step(true, e).0 == e.has_data(),
        e.has_data() ==> echo_step(true, e).1 == EchoModel::Echo(e->Received_0),
        !e.has_data() ==> !(echo_step(true, e).1 is Echo),
{
}


/// The one-shot server writes back the whole of a read that brought data,
/// every byte of it, and writes nothing for an empty or failed read.
pub proof fn law_one_shot_echoes_whole_read(e: ReadModel)
    ensures
        e.has_data() ==> one_shot(e) == OneShotModel::Echo(e->Received_0),
        !e.has_data() ==> one_shot(e) == OneShotModel::NothingRead,
{
}

/// The one-shot server answers a read as the first step of a TLS echo
/// session does: it echoes the same bytes, and only when that session would.
pub proof fn law_one_shot_is_first_session_step(e: ReadModel, b: Seq<u8>)
    ensures
        one_shot(e) == OneShotModel::Echo(b) <==> echo_step(true, e).1 == EchoModel::Echo(b),
{
}

} // verus!
