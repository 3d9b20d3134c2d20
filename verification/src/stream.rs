//! What one attempt to read from a stream gave, and when a message is taken
//! to have ended.

use vstd::prelude::*;

verus! {

/// The outcome of waiting for a stream to be readable and reading from it
/// once, without blocking, into a buffer of fixed size.
#[derive(Debug)]
pub enum ReadOutcome {
    /// The bytes that were read; none at the end of the stream.
    Data(Vec<u8>),
    /// There was nothing to read after all.
    WouldBlock,
    /// The wait or the read failed; the cause.
    Failed(String),
}

/// A `ReadOutcome` as plain values.
pub enum ReadView {
    Data(Seq<u8>),
    WouldBlock,
    Failed(Seq<char>),
}

impl View for ReadOutcome {
    type V = ReadView;

    open spec fn view(&self) -> ReadView {
        match self {
            ReadOutcome::Data(bytes) => ReadView::Data(bytes@),
            ReadOutcome::WouldBlock => ReadView::WouldBlock,
            ReadOutcome::Failed(cause) => ReadView::Failed(cause@),
        }
    }
}

/// Whether a read of `n` bytes into a buffer of `bufsize` bytes ends the
/// message: it does when the stream is at its end, and is taken to when the
/// read did not fill the buffer.
pub open spec fn ends_message(n: nat, bufsize: nat) -> bool {
    n == 0 || n < bufsize
}

/// Whether a read of `n` bytes into a buffer of `bufsize` bytes is the last
/// one of a message.
pub fn is_last_read(n: usize, bufsize: usize) -> (last: bool)
    ensures
        last == ends_message(n as nat, bufsize as nat),
{
    n == 0 || n < bufsize
}

} // verus!
