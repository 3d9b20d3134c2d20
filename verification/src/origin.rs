//! One call to an origin: connect, write the request, read the response until
//! a read ends it. The transport is the caller's: this module decides what to
//! do next from what the transport reports.

use vstd::prelude::*;
use crate::error::{ServerError, ServerErrorView};
use crate::response::RawHttpResponse;
use crate::stream::{ends_message, is_last_read, ReadOutcome, ReadView};

verus! {

/// What the transport reports back to a call.
#[derive(Debug)]
pub enum OriginEvent {
    /// The connection stands.
    Connected,
    /// The origin could not be connected to; the cause.
    ConnectFailed(String),
    /// The whole request was written.
    Written,
    /// Writing the request failed; the cause.
    WriteFailed(String),
    /// One attempt to read the response.
    Read(ReadOutcome),
}

/// An `OriginEvent` as plain values.
pub enum OriginEventView {
    Connected,
    ConnectFailed(Seq<char>),
    Written,
    WriteFailed(Seq<char>),
    Read(ReadView),
}

impl View for OriginEvent {
    type V = OriginEventView;

    open spec fn view(&self) -> OriginEventView {
        match self {
            OriginEvent::Connected => OriginEventView::Connected,
            OriginEvent::ConnectFailed(cause) => OriginEventView::ConnectFailed(cause@),
            OriginEvent::Written => OriginEventView::Written,
            OriginEvent::WriteFailed(cause) => OriginEventView::WriteFailed(cause@),
            OriginEvent::Read(outcome) => OriginEventView::Read(outcome@),
        }
    }
}

/// What a call asks of the transport next, or how it ended.
#[derive(Debug)]
pub enum OriginAction {
    /// Connect to the target.
    Connect(String),
    /// Write all of these bytes.
    Write(Vec<u8>),
    /// Wait until the origin is readable and read once.
    Read,
    /// The call is over: the response.
    Done(RawHttpResponse),
    /// The call is over: it failed.
    Fail(ServerError),
    /// The event was not one that the call waits for: nothing to do.
    Nothing,
}

/// An `OriginAction` as plain values.
pub enum OriginActionView {
    Connect(Seq<char>),
    Write(Seq<u8>),
    Read,
    Done(Seq<u8>),
    Fail(ServerErrorView),
    Nothing,
}

impl View for OriginAction {
    type V = OriginActionView;

    open spec fn view(&self) -> OriginActionView {
        match self {
            OriginAction::Connect(target) => OriginActionView::Connect(target@),
            OriginAction::Write(bytes) => OriginActionView::Write(bytes@),
            OriginAction::Read => OriginActionView::Read,
            OriginAction::Done(response) => OriginActionView::Done(response@),
            OriginAction::Fail(error) => OriginActionView::Fail(error@),
            OriginAction::Nothing => OriginActionView::Nothing,
        }
    }
}

/// A call to an origin, by how far it has come.
#[derive(Debug)]
pub enum OriginCall {
    /// Waiting for the connection; the request is still to be written.
    Connecting { target: String, bufsize: usize, request: Vec<u8> },
    /// Waiting for the request to be written.
    Writing { target: String, bufsize: usize },
    /// Reading the response; what was read so far.
    Reading { target: String, bufsize: usize, response: Vec<u8> },
    /// Over.
    Finished,
}

/// An `OriginCall` as plain values.
pub enum OriginCallView {
    Connecting { target: Seq<char>, bufsize: usize, request: Seq<u8> },
    Writing { target: Seq<char>, bufsize: usize },
    Reading { target: Seq<char>, bufsize: usize, response: Seq<u8> },
    Finished,
}

impl View for OriginCall {
    type V = OriginCallView;

    open spec fn view(&self) -> OriginCallView {
        match self {
            OriginCall::Connecting { target, bufsize, request } => OriginCallView::Connecting {
                target: target@,
                bufsize: *bufsize,
                request: request@,
            },
            OriginCall::Writing { target, bufsize } => OriginCallView::Writing {
                target: target@,
                bufsize: *bufsize,
            },
            OriginCall::Reading { target, bufsize, response } => OriginCallView::Reading {
                target: target@,
                bufsize: *bufsize,
                response: response@,
            },
            OriginCall::Finished => OriginCallView::Finished,
        }
    }
}

/// The call's transition: the state after `event`, and what to do next.
///
/// A failed connection is `Unresponsive`, a failed write a
/// `ServerWriteError`, a failed read a `ServerReadError`, each with the
/// target's name. The response is all that was read, up to and with the read
/// that ends the message. There are no retries.
pub open spec fn origin_step(call: OriginCallView, event: OriginEventView) -> (
    OriginCallView,
    OriginActionView,
) {
    match (call, event) {
        (OriginCallView::Connecting { target, bufsize, request }, OriginEventView::Connected) => (
            OriginCallView::Writing { target, bufsize },
            OriginActionView::Write(request),
        ),
        (
            OriginCallView::Connecting { target, bufsize, request },
            OriginEventView::ConnectFailed(cause),
        ) => (
            OriginCallView::Finished,
            OriginActionView::Fail(ServerErrorView::Unresponsive(target, cause)),
        ),
        (OriginCallView::Writing { target, bufsize }, OriginEventView::Written) => (
            OriginCallView::Reading { target, bufsize, response: Seq::empty() },
            OriginActionView::Read,
        ),
        (OriginCallView::Writing { target, bufsize }, OriginEventView::WriteFailed(cause)) => (
            OriginCallView::Finished,
            OriginActionView::Fail(ServerErrorView::ServerWriteError(target, cause)),
        ),
        (
            OriginCallView::Reading { target, bufsize, response },
            OriginEventView::Read(ReadView::Data(bytes)),
        ) => if ends_message(bytes.len(), bufsize as nat) {
            (OriginCallView::Finished, OriginActionView::Done(response + bytes))
        } else {
            (
                OriginCallView::Reading { target, bufsize, response: response + bytes },
                OriginActionView::Read,
            )
        },
        (
            OriginCallView::Reading { target, bufsize, response },
            OriginEventView::Read(ReadView::WouldBlock),
        ) => (call, OriginActionView::Read),
        (
            OriginCallView::Reading { target, bufsize, response },
            OriginEventView::Read(ReadView::Failed(cause)),
        ) => (
            OriginCallView::Finished,
            OriginActionView::Fail(ServerErrorView::ServerReadError(target, cause)),
        ),
        _ => (call, OriginActionView::Nothing),
    }
}

impl OriginCall {
    /// Begins a call that sends `request` to `target` and reads the response
    /// into a buffer of `bufsize` bytes: the first thing to do is to connect.
    pub fn start(target: String, request: Vec<u8>, bufsize: usize) -> (begun: (
        OriginCall,
        OriginAction,
    ))
        ensures
            begun.0@ == (OriginCallView::Connecting { target: target@, bufsize, request: request@ }),
            begun.1@ == OriginActionView::Connect(target@),
    {
        let goal = target.clone();
        (OriginCall::Connecting { target, bufsize, request }, OriginAction::Connect(goal))
    }

    /// Takes what the transport reports and says what to do next.
    pub fn step(self, event: OriginEvent) -> (next: (OriginCall, OriginAction))
        ensures
            (next.0@, next.1@) == origin_step(self@, event@),
    {
        match (self, event) {
            (OriginCall::Connecting { target, bufsize, request }, OriginEvent::Connected) => (
                OriginCall::Writing { target, bufsize },
                OriginAction::Write(request),
            ),
            (
                OriginCall::Connecting { target, bufsize, request },
                OriginEvent::ConnectFailed(cause),
            ) => (OriginCall::Finished, OriginAction::Fail(ServerError::Unresponsive(target, cause))),
            (OriginCall::Writing { target, bufsize }, OriginEvent::Written) => (
                OriginCall::Reading { target, bufsize, response: Vec::new() },
                OriginAction::Read,
            ),
            (OriginCall::Writing { target, bufsize }, OriginEvent::WriteFailed(cause)) => (
                OriginCall::Finished,
                OriginAction::Fail(ServerError::ServerWriteError(target, cause)),
            ),
            (
                OriginCall::Reading { target, bufsize, response },
                OriginEvent::Read(ReadOutcome::Data(bytes)),
            ) => {
                let mut response = response;
                let ghost before = response@;
                response.extend_from_slice(bytes.as_slice());
                assert(response@ =~= before + bytes@);
                if is_last_read(bytes.len(), bufsize) {
                    (OriginCall::Finished, OriginAction::Done(RawHttpResponse::from(response)))
                } else {
                    (OriginCall::Reading { target, bufsize, response }, OriginAction::Read)
                }
            },
            (
                OriginCall::Reading { target, bufsize, response },
                OriginEvent::Read(ReadOutcome::WouldBlock),
            ) => (OriginCall::Reading { target, bufsize, response }, OriginAction::Read),
            (
                OriginCall::Reading { target, bufsize, response },
                OriginEvent::Read(ReadOutcome::Failed(cause)),
            ) => (
                OriginCall::Finished,
                OriginAction::Fail(ServerError::ServerReadError(target, cause)),
            ),
            (call, _) => (call, OriginAction::Nothing),
        }
    }
}

} // verus!
