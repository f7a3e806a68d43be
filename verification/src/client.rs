//! The interactive clients: each typed line is either the command to quit
//! or a message for the echo server, whose reply is shown before the next
//! line is read.

use vstd::prelude::*;
use vstd::slice::*;
use vstd::string::*;
use vstd::utf8::{decode_utf8, encode_utf8, encode_utf8_decode_utf8};
use crate::event::{ReadEvent, ReadModel};
use crate::text::{
    all_white_space, is_white_space, law_trim_is_padded_middle, law_trim_of_padded, same_text,
    trim, trimmed,
};

verus! {

/// How a typed line becomes the message sent.
#[derive(PartialEq, Eq, Structural, Clone, Copy, Debug)]
pub enum LineFormat {
    /// Leading and trailing whitespace, the newline included, is removed.
    Trimmed,
    /// The line is sent as read, newline and all.
    AsTyped,
}

/// Where a client stands.
#[derive(PartialEq, Eq, Structural, Clone, Copy, Debug)]
pub enum ClientPhase {
    /// Waiting for the user to type a line.
    AwaitLine,
    /// A message was sent; waiting for the server's reply.
    AwaitReply,
    /// The reply was shown; waiting to learn whether the server is still
    /// connected.
    AwaitPeerCheck,
    /// The client is done.
    Finished,
}

/// What the caller observed since the last action.
pub enum ClientEvent {
    /// The user typed this line.
    Line(String),
    /// Outcome of reading the server's reply.
    Reply(ReadEvent),
    /// Whether the connection to the server still has a peer.
    PeerAlive(bool),
}

/// What the caller is to do next.
pub enum ClientAction {
    /// Send these bytes to the server.
    Send(Vec<u8>),
    /// Show the reply.
    ShowReply(Vec<u8>),
    /// Show that reading the reply failed with this error.
    ShowReadError(String),
    /// Read the next line.
    Resume,
    /// The user asked to quit.
    Quit,
    /// The server went away.
    ConnectionLost,
    /// The event does not fit the client's state; nothing to do.
    Ignored,
}

pub enum ClientEventModel {
    Line(Seq<char>),
    Reply(ReadModel),
    PeerAlive(bool),
}

pub enum ClientActionModel {
    Send(Seq<u8>),
    ShowReply(Seq<u8>),
    ShowReadError(Seq<char>),
    Resume,
    Quit,
    ConnectionLost,
    Ignored,
}

impl View for ClientEvent {
    type V = ClientEventModel;

    open spec fn view(&self) -> ClientEventModel {
        match self {
            ClientEvent::Line(l) => ClientEventModel::Line(l@),
            ClientEvent::Reply(r) => ClientEventModel::Reply(r@),
            ClientEvent::PeerAlive(b) => ClientEventModel::PeerAlive(*b),
        }
    }
}

impl View for ClientAction {
    type V = ClientActionModel;

    open spec fn view(&self) -> ClientActionModel {
        match self {
            ClientAction::Send(b) => ClientActionModel::Send(b@),
            ClientAction::ShowReply(b) => ClientActionModel::ShowReply(b@),
            ClientAction::ShowReadError(m) => ClientActionModel::ShowReadError(m@),
            ClientAction::Resume => ClientActionModel::Resume,
            ClientAction::Quit => ClientActionModel::Quit,
            ClientAction::ConnectionLost => ClientActionModel::ConnectionLost,
            ClientAction::Ignored => ClientActionModel::Ignored,
        }
    }
}

/// The line is the command to quit: `quit`, whitespace around it allowed.
pub open spec fn is_quit(line: Seq<char>) -> bool {
    trimmed(line) == "quit"@
}

/// The bytes sent for a typed line: its UTF-8 encoding, trimmed first when
/// the format says so.
pub open spec fn message_bytes(format: LineFormat, line: Seq<char>) -> Seq<u8> {
    match format {
        LineFormat::Trimmed => encode_utf8(trimmed(line)),
        LineFormat::AsTyped => encode_utf8(line),
    }
}

/// One step of a client.
pub open spec fn client_step(
    format: LineFormat,
    check_peer: bool,
    p: ClientPhase,
    e: ClientEventModel,
) -> (ClientPhase, ClientActionModel) {
    match (p, e) {
        (ClientPhase::AwaitLine, ClientEventModel::Line(l)) => if is_quit(l) {
            (ClientPhase::Finished, ClientActionModel::Quit)
        } else {
            (ClientPhase::AwaitReply, ClientActionModel::Send(message_bytes(format, l)))
        },
        (ClientPhase::AwaitReply, ClientEventModel::Reply(r)) => (
            if check_peer {
                ClientPhase::AwaitPeerCheck
            } else {
                ClientPhase::AwaitLine
            },
            match r {
                ReadModel::Received(b) => ClientActionModel::ShowReply(b),
                ReadModel::Failed(m) => ClientActionModel::ShowReadError(m),
            },
        ),
        (ClientPhase::AwaitPeerCheck, ClientEventModel::PeerAlive(alive)) => if alive {
            (ClientPhase::AwaitLine, ClientActionModel::Resume)
        } else {
            (ClientPhase::Finished, ClientActionModel::ConnectionLost)
        },
        _ => (p, ClientActionModel::Ignored),
    }
}

/// Whether a typed line is the command to quit.
pub fn quit_requested(line: &str) -> (q: bool)
    ensures
        q == is_quit(line@),
{
    same_text(trim(line), "quit")
}

/// The bytes to send for a typed line.
pub fn message_for(format: LineFormat, line: &str) -> (m: Vec<u8>)
    ensures
        m@ == message_bytes(format, line@),
{
    match format {
        LineFormat::Trimmed => slice_to_vec(trim(line).as_bytes()),
        LineFormat::AsTyped => slice_to_vec(line.as_bytes()),
    }
}

/// One interactive client connection.
pub struct ClientSession {
    format: LineFormat,
    check_peer: bool,
    phase: ClientPhase,
}

impl ClientSession {
    pub closed spec fn line_format(&self) -> LineFormat {
        self.format
    }

    /// Whether the client checks, after each reply, that the server is
    /// still connected.
    pub closed spec fn checks_peer(&self) -> bool {
        self.check_peer
    }

    pub closed spec fn current_phase(&self) -> ClientPhase {
        self.phase
    }

    /// A client that has just connected.
    pub fn new(format: LineFormat, check_peer: bool) -> (s: ClientSession)
        ensures
            s.line_format() == format,
            s.checks_peer() == check_peer,
            s.current_phase() == ClientPhase::AwaitLine,
    {
        ClientSession { format, check_peer, phase: ClientPhase::AwaitLine }
    }

    /// Where the client stands.
    pub fn phase(&self) -> (p: ClientPhase)
        ensures
            p == self.current_phase(),
    {
        self.phase
    }

    /// Decide what to do with what the caller observed.
    pub fn on_event(&mut self, e: ClientEvent) -> (a: ClientAction)
        ensures
            final(self).line_format() == old(self).line_format(),
            final(self).checks_peer() == old(self).checks_peer(),
            (final(self).current_phase(), a@) == client_step(
                old(self).line_format(),
                old(self).checks_peer(),
                old(self).current_phase(),
                e@,
            ),
    {
        match (self.phase, e) {
            (ClientPhase::AwaitLine, ClientEvent::Line(l)) => {
                if quit_requested(l.as_str()) {
                    self.phase = ClientPhase::Finished;
                    ClientAction::Quit
                } else {
                    let m = message_for(self.format, l.as_str());
                    self.phase = ClientPhase::AwaitReply;
                    ClientAction::Send(m)
                }
            },
            (ClientPhase::AwaitReply, ClientEvent::Reply(r)) => {
                self.phase = if self.check_peer {
                    ClientPhase::AwaitPeerCheck
                } else {
                    ClientPhase::AwaitLine
                };
                match r {
                    ReadEvent::Received(b) => ClientAction::ShowReply(b),
                    ReadEvent::Failed(m) => ClientAction::ShowReadError(m),
                }
            },
            (ClientPhase::AwaitPeerCheck, ClientEvent::PeerAlive(alive)) => {
                if alive {
                    self.phase = ClientPhase::AwaitLine;
                    ClientAction::Resume
                } else {
                    self.phase = ClientPhase::Finished;
                    ClientAction::ConnectionLost
                }
            },
            _ => ClientAction::Ignored,
        }
    }
}

/// The command-line flags that turn off certificate verification.
pub open spec fn is_skip_verify_flag(arg: Seq<char>) -> bool {
    arg == "--skip-verify"@ || arg == "-s"@
}

/// Whether any argument asks to skip certificate verification.
pub fn skip_verify_requested(args: &Vec<String>) -> (skip: bool)
    ensures
        skip == exists|i: int| 0 <= i < args@.len() && is_skip_verify_flag(#[trigger] args@[i]@),
{
    let mut i: usize = 0;
    while i < args.len()
        invariant
            i <= args@.len(),
            forall|k: int| 0 <= k < i ==> !is_skip_verify_flag(#[trigger] args@[k]@),
        decreases args@.len() - i,
    {
        let a = args[i].as_str();
        if same_text(a, "--skip-verify") || same_text(a, "-s") {
            return true;
        }
        i = i + 1;
    }
    false
}

/// Typing `quit` never sends anything: the only thing sent is the message
/// for a line that is not the command to quit, and quitting ends the client.
pub proof fn law_quit_is_never_sent(
    format: LineFormat,
    check_peer: bool,
    p: ClientPhase,
    e: ClientEventModel,
)
    ensures
        client_step(format, check_peer, p, e).1 matches ClientActionModel::Send(b) ==> (
        e matches ClientEventModel::Line(l) && !is_quit(l) && b == message_bytes(format, l)),
        client_step(format, check_peer, p, e).1 is Quit ==> client_step(
            format,
            check_peer,
            p,
            e,
        ).0 == ClientPhase::Finished,
{
}

/// A finished client stays finished and does nothing more.
pub proof fn law_client_end_is_final(format: LineFormat, check_peer: bool, e: ClientEventModel)
    ensures
        client_step(format, check_peer, ClientPhase::Finished, e) == (
            ClientPhase::Finished,
            ClientActionModel::Ignored,
        ),
{
}


/// A line is the command to quit exactly when it is the word `quit` with
/// nothing but whitespace before and after it; any other line is a message.
pub proof fn law_quit_is_the_bare_word(l: Seq<char>)
    ensures
        is_quit(l) <==> exists|i: int, j: int|
            0 <= i <= j <= l.len() && #[trigger] l.subrange(i, j) == "quit"@ && all_white_space(
                l.subrange(0, i),
            ) && all_white_space(l.subrange(j, l.len() as int)),
{
    reveal_strlit("quit");
    law_trim_is_padded_middle(l);
    if exists|i: int, j: int|
        0 <= i <= j <= l.len() && #[trigger] l.subrange(i, j) == "quit"@ && all_white_space(
            l.subrange(0, i),
        ) && all_white_space(l.subrange(j, l.len() as int)) {
        let (i, j) = choose|i: int, j: int|
            0 <= i <= j <= l.len() && #[trigger] l.subrange(i, j) == "quit"@ && all_white_space(
                l.subrange(0, i),
            ) && all_white_space(l.subrange(j, l.len() as int));
        let q = "quit"@;
        assert(q[0] == 'q' && q[3] == 't');
        assert(!is_white_space(q[0]) && !is_white_space(q.last()));
        assert(l =~= l.subrange(0, i) + q + l.subrange(j, l.len() as int));
        law_trim_of_padded(l.subrange(0, i), q, l.subrange(j, l.len() as int));
    }
}

/// The bytes sent for a line decode to text taken from the line: as typed,
/// the whole line; trimmed, the whole stretch of the line that has only
/// whitespace before and after it and neither starts nor ends with
/// whitespace, which is empty only for a blank line.
pub proof fn law_message_is_line_text(l: Seq<char>)
    ensures
        decode_utf8(message_bytes(LineFormat::AsTyped, l)) == l,
        ({
            let m = decode_utf8(message_bytes(LineFormat::Trimmed, l));
            &&& exists|i: int, j: int|
                0 <= i <= j <= l.len() && #[trigger] l.subrange(i, j) == m && all_white_space(
                    l.subrange(0, i),
                ) && all_white_space(l.subrange(j, l.len() as int))
            &&& m.len() > 0 ==> !is_white_space(m[0]) && !is_white_space(m.last())
            &&& m.len() == 0 <==> all_white_space(l)
        }),
{
    encode_utf8_decode_utf8(l);
    encode_utf8_decode_utf8(trimmed(l));
    law_trim_is_padded_middle(l);
}

/// After any reply, a client that does not check its peer shows the reply
/// as it came and waits for the next line; one that does goes on to check.
pub proof fn law_reply_then_next_line(format: LineFormat, check_peer: bool, r: ReadModel)
    ensures
        ({
            let (p, a) = client_step(format, check_peer, ClientPhase::AwaitReply, ClientEventModel::Reply(r));
            &&& !check_peer ==> p == ClientPhase::AwaitLine
            &&& check_peer ==> p == ClientPhase::AwaitPeerCheck
            &&& r matches ReadModel::Received(b) ==> a == ClientActionModel::ShowReply(b)
            &&& r matches ReadModel::Failed(m) ==> a == ClientActionModel::ShowReadError(m)
        }),
{
}

/// A client without a peer check sends every line that is not the command
/// to quit: a line, its reply, then another line, sends both lines.
pub proof fn law_client_keeps_sending(
    format: LineFormat,
    l1: Seq<char>,
    r: ReadModel,
    l2: Seq<char>,
)
    requires
        !is_quit(l1),
        !is_quit(l2),
    ensures
        ({
            let (p1, a1) = client_step(format, false, ClientPhase::AwaitLine, ClientEventModel::Line(l1));
            let (p2, a2) = client_step(format, false, p1, ClientEventModel::Reply(r));
            let (p3, a3) = client_step(format, false, p2, ClientEventModel::Line(l2));
            &&& a1 == ClientActionModel::Send(message_bytes(format, l1))
            &&& a3 == ClientActionModel::Send(message_bytes(format, l2))
            &&& p3 == ClientPhase::AwaitReply
        }),
{
}

/// A client only ever finishes because the user typed the command to quit,
/// or because the peer check found the server gone (a check that only a
/// client with a peer check reaches, by `law_reply_then_next_line`).
pub proof fn law_client_finishes_only_on_quit_or_loss(
    format: LineFormat,
    check_peer: bool,
    p: ClientPhase,
    e: ClientEventModel,
)
    requires
        p != ClientPhase::Finished,
        client_step(format, check_peer, p, e).0 == ClientPhase::Finished,
    ensures
        (e matches ClientEventModel::Line(l) && is_quit(l)) || (p == ClientPhase::AwaitPeerCheck
            && e == ClientEventModel::PeerAlive(false)),
{
}

} // verus!
