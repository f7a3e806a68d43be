//! What a read from a socket can report to the decision logic.

use vstd::prelude::*;
use vstd::slice::*;

verus! {

/// The outcome of one `read` on a connection: the bytes that came in (none
/// at all when the peer has closed its side), or the error text.
pub enum ReadEvent {
    Received(Vec<u8>),
    Failed(String),
}

/// A read outcome as a mathematical value.
pub enum ReadModel {
    Received(Seq<u8>),
    Failed(Seq<char>),
}

impl View for ReadEvent {
    type V = ReadModel;

    open spec fn view(&self) -> ReadModel {
        match self {
            ReadEvent::Received(b) => ReadModel::Received(b@),
            ReadEvent::Failed(m) => ReadModel::Failed(m@),
        }
    }
}

impl ReadModel {
    /// The read brought at least one byte.
    pub open spec fn has_data(self) -> bool {
        self matches ReadModel::Received(b) && b.len() > 0
    }
}

/// The event for a successful read of `n` bytes into `buf`.
pub fn received(buf: &[u8], n: usize) -> (e: ReadEvent)
    requires
        n <= buf@.len(),
    ensures
        e@ == ReadModel::Received(buf@.subrange(0, n as int)),
{
    ReadEvent::Received(slice_to_vec(slice_subrange(buf, 0, n)))
}

} // verus!
