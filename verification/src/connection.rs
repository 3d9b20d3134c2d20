//! One client connection: read the request, call the primary, answer the
//! client, close, and only then hand the exchange on. The sockets are the
//! caller's: this module decides what to do next from what they report.

use vstd::prelude::*;
use vstd::string::*;
use vstd::utf8::*;
use vstd::slice::*;
use crate::error::{ServerError, ServerErrorView};
use crate::request::RawHttpRequest;
use crate::response::RawHttpResponse;
use crate::stream::{ends_message, is_last_read, ReadOutcome, ReadView};

verus! {

/// What the sockets report back to a connection.
#[derive(Debug)]
pub enum ConnectionEvent {
    /// One attempt to read from the client.
    ClientRead(ReadOutcome),
    /// The call to the primary is over.
    PrimaryAnswered(Result<RawHttpResponse, ServerError>),
    /// The reply was written to the client, all of it.
    ClientWritten,
    /// The client's stream was shut down, or the attempt was made.
    ClientClosed,
}

/// A `ConnectionEvent` as plain values.
pub enum ConnectionEventView {
    ClientRead(ReadView),
    PrimaryAnswered(Result<Seq<u8>, ServerErrorView>),
    ClientWritten,
    ClientClosed,
}

/// The outcome of a call to an origin as plain values.
pub open spec fn outcome_view(outcome: Result<RawHttpResponse, ServerError>) -> Result<
    Seq<u8>,
    ServerErrorView,
> {
    match outcome {
        Ok(response) => Ok(response@),
        Err(error) => Err(error@),
    }
}

impl View for ConnectionEvent {
    type V = ConnectionEventView;

    open spec fn view(&self) -> ConnectionEventView {
        match self {
            ConnectionEvent::ClientRead(outcome) => ConnectionEventView::ClientRead(outcome@),
            ConnectionEvent::PrimaryAnswered(outcome) => ConnectionEventView::PrimaryAnswered(
                outcome_view(*outcome),
            ),
            ConnectionEvent::ClientWritten => ConnectionEventView::ClientWritten,
            ConnectionEvent::ClientClosed => ConnectionEventView::ClientClosed,
        }
    }
}

/// What a connection asks of the sockets next, or how it ended.
#[derive(Debug)]
pub enum ConnectionAction {
    /// Wait until the client is readable and read once.
    ReadClient,
    /// Call the primary with these bytes as the request.
    CallPrimary(Vec<u8>),
    /// Write all of these bytes to the client.
    WriteClient(Vec<u8>),
    /// Shut the client's stream down.
    ShutdownClient,
    /// The connection is over: the request and the primary's response, for
    /// the analysis.
    HandOff(RawHttpRequest, RawHttpResponse),
    /// The connection is over: it failed, and the error is for the log.
    Fail(ServerError),
    /// The event was not one that the connection waits for: nothing to do.
    Nothing,
}

/// A `ConnectionAction` as plain values.
pub enum ConnectionActionView {
    ReadClient,
    CallPrimary(Seq<u8>),
    WriteClient(Seq<u8>),
    ShutdownClient,
    HandOff(Seq<u8>, Seq<u8>),
    Fail(ServerErrorView),
    Nothing,
}

impl View for ConnectionAction {
    type V = ConnectionActionView;

    open spec fn view(&self) -> ConnectionActionView {
        match self {
            ConnectionAction::ReadClient => ConnectionActionView::ReadClient,
            ConnectionAction::CallPrimary(bytes) => ConnectionActionView::CallPrimary(bytes@),
            ConnectionAction::WriteClient(bytes) => ConnectionActionView::WriteClient(bytes@),
            ConnectionAction::ShutdownClient => ConnectionActionView::ShutdownClient,
            ConnectionAction::HandOff(request, response) => ConnectionActionView::HandOff(
                request@,
                response@,
            ),
            ConnectionAction::Fail(error) => ConnectionActionView::Fail(error@),
            ConnectionAction::Nothing => ConnectionActionView::Nothing,
        }
    }
}

/// A connection, by how far it has come.
#[derive(Debug)]
pub enum Connection {
    /// Reading the request; what was read so far.
    Reading { bufsize: usize, request: RawHttpRequest },
    /// Waiting for the primary.
    AwaitingPrimary { request: RawHttpRequest },
    /// Waiting for the reply to be written to the client.
    Replying { request: RawHttpRequest, outcome: Result<RawHttpResponse, ServerError> },
    /// Waiting for the client's stream to be shut down, after the reply.
    Closing { request: RawHttpRequest, outcome: Result<RawHttpResponse, ServerError> },
    /// Waiting for the client's stream to be shut down, after a read from it
    /// failed.
    Aborting { error: ServerError },
    /// Over.
    Finished,
}

/// A `Connection` as plain values.
pub enum ConnectionView {
    Reading { bufsize: usize, request: Seq<u8> },
    AwaitingPrimary { request: Seq<u8> },
    Replying { request: Seq<u8>, outcome: Result<Seq<u8>, ServerErrorView> },
    Closing { request: Seq<u8>, outcome: Result<Seq<u8>, ServerErrorView> },
    Aborting { error: ServerErrorView },
    Finished,
}

impl View for Connection {
    type V = ConnectionView;

    open spec fn view(&self) -> ConnectionView {
        match self {
            Connection::Reading { bufsize, request } => ConnectionView::Reading {
                bufsize: *bufsize,
                request: request@,
            },
            Connection::AwaitingPrimary { request } => ConnectionView::AwaitingPrimary {
                request: request@,
            },
            Connection::Replying { request, outcome } => ConnectionView::Replying {
                request: request@,
                outcome: outcome_view(*outcome),
            },
            Connection::Closing { request, outcome } => ConnectionView::Closing {
                request: request@,
                outcome: outcome_view(*outcome),
            },
            Connection::Aborting { error } => ConnectionView::Aborting { error: error@ },
            Connection::Finished => ConnectionView::Finished,
        }
    }
}

/// The name under which a failure to read from the client is reported.
pub open spec fn client_name() -> Seq<char> {
    "client"@
}

/// The status line sent to a client in place of a response when the call to
/// the primary failed: 503 where the primary could not be reached, 500 where
/// writing to it or reading from it failed.
pub open spec fn synthetic_text(error: ServerErrorView) -> Seq<char> {
    match error {
        ServerErrorView::Unresponsive(_, _) => "HTTP/1.1 503 Service Unavailable"@,
        ServerErrorView::ServerWriteError(_, _) => "HTTP/1.1 500 Internal Server Error"@,
        ServerErrorView::ServerReadError(_, _) => "HTTP/1.1 500 Internal Server Error"@,
    }
}

/// The bytes that answer the client: the primary's response as it came, or
/// the synthetic status line.
pub open spec fn reply_bytes(outcome: Result<Seq<u8>, ServerErrorView>) -> Seq<u8> {
    match outcome {
        Ok(response) => response,
        Err(error) => encode_utf8(synthetic_text(error)),
    }
}

/// The connection's transition: the state after `event`, and what to do next.
///
/// The order is fixed: the request is read to its end, the primary is called,
/// the reply is written to the client, the client's stream is shut down, and
/// then the exchange is handed off or the primary's error reported. A failed
/// read from the client is a `ServerReadError` of the client: nothing is
/// written, and the stream is shut down before the error is reported.
pub open spec fn connection_step(state: ConnectionView, event: ConnectionEventView) -> (
    ConnectionView,
    ConnectionActionView,
) {
    match (state, event) {
        (
            ConnectionView::Reading { bufsize, request },
            ConnectionEventView::ClientRead(ReadView::Data(bytes)),
        ) => if ends_message(bytes.len(), bufsize as nat) {
            (
                ConnectionView::AwaitingPrimary { request: request + bytes },
                ConnectionActionView::CallPrimary(request + bytes),
            )
        } else {
            (
                ConnectionView::Reading { bufsize, request: request + bytes },
                ConnectionActionView::ReadClient,
            )
        },
        (
            ConnectionView::Reading { bufsize, request },
            ConnectionEventView::ClientRead(ReadView::WouldBlock),
        ) => (state, ConnectionActionView::ReadClient),
        (
            ConnectionView::Reading { bufsize, request },
            ConnectionEventView::ClientRead(ReadView::Failed(cause)),
        ) => (
            ConnectionView::Aborting {
                error: ServerErrorView::ServerReadError(client_name(), cause),
            },
            ConnectionActionView::ShutdownClient,
        ),
        (
            ConnectionView::AwaitingPrimary { request },
            ConnectionEventView::PrimaryAnswered(outcome),
        ) => (
            ConnectionView::Replying { request, outcome },
            ConnectionActionView::WriteClient(reply_bytes(outcome)),
        ),
        (ConnectionView::Replying { request, outcome }, ConnectionEventView::ClientWritten) => (
            ConnectionView::Closing { request, outcome },
            ConnectionActionView::ShutdownClient,
        ),
        (ConnectionView::Closing { request, outcome }, ConnectionEventView::ClientClosed) => (
            ConnectionView::Finished,
            match outcome {
                Ok(response) => ConnectionActionView::HandOff(request, response),
                Err(error) => ConnectionActionView::Fail(error),
            },
        ),
        (ConnectionView::Aborting { error }, ConnectionEventView::ClientClosed) => (
            ConnectionView::Finished,
            ConnectionActionView::Fail(error),
        ),
        _ => (state, ConnectionActionView::Nothing),
    }
}

/// The connection just accepted, before anything was read.
pub open spec fn accepted(bufsize: usize) -> ConnectionView {
    ConnectionView::Reading { bufsize, request: Seq::empty() }
}

/// Where a connection that began in `state` stands after `events`, and what
/// it asked for on the way, event by event.
pub open spec fn run(state: ConnectionView, events: Seq<ConnectionEventView>) -> (
    ConnectionView,
    Seq<ConnectionActionView>,
)
    decreases events.len(),
{
    if events.len() == 0 {
        (state, Seq::empty())
    } else {
        let (before, actions) = run(state, events.drop_last());
        let (after, action) = connection_step(before, events.last());
        (after, actions.push(action))
    }
}

/// The bytes that the client observes over a sequence of actions: what the
/// writes to the client hold, one after the other.
pub open spec fn client_bytes(actions: Seq<ConnectionActionView>) -> Seq<u8>
    decreases actions.len(),
{
    if actions.len() == 0 {
        Seq::empty()
    } else {
        client_bytes(actions.drop_last()) + match actions.last() {
            ConnectionActionView::WriteClient(bytes) => bytes,
            _ => Seq::empty(),
        }
    }
}

/// The steps among a sequence of actions: all of them but the reads from the
/// client and the answers to events out of turn.
pub open spec fn steps(actions: Seq<ConnectionActionView>) -> Seq<ConnectionActionView>
    decreases actions.len(),
{
    if actions.len() == 0 {
        Seq::empty()
    } else if actions.last() is ReadClient || actions.last() is Nothing {
        steps(actions.drop_last())
    } else {
        steps(actions.drop_last()).push(actions.last())
    }
}

/// The steps of a connection that is over, in their one order: the call to
/// the primary with the request, the reply to the client, the shutdown, and
/// then the hand-off of that request with the response that was the reply, or
/// the error whose status line was the reply. Or, where the request could not
/// be read: the shutdown, then the error.
pub open spec fn ended_in_order(steps: Seq<ConnectionActionView>) -> bool {
    if steps.len() == 4 {
        &&& steps[0] is CallPrimary
        &&& steps[1] is WriteClient
        &&& steps[2] is ShutdownClient
        &&& match steps[3] {
            ConnectionActionView::HandOff(request, response) => {
                &&& request == steps[0]->CallPrimary_0
                &&& response == steps[1]->WriteClient_0
            },
            ConnectionActionView::Fail(error) => steps[1]->WriteClient_0 == reply_bytes(
                Err(error),
            ),
            _ => false,
        }
    } else {
        steps.len() == 2 && steps[0] is ShutdownClient && steps[1] is Fail
    }
}

/// The steps that a connection in `state` has behind it.
pub open spec fn in_order(state: ConnectionView, steps: Seq<ConnectionActionView>) -> bool {
    match state {
        ConnectionView::Reading { .. } => steps == Seq::<ConnectionActionView>::empty(),
        ConnectionView::AwaitingPrimary { request } => steps == seq![
            ConnectionActionView::CallPrimary(request),
        ],
        ConnectionView::Replying { request, outcome } => steps == seq![
            ConnectionActionView::CallPrimary(request),
            ConnectionActionView::WriteClient(reply_bytes(outcome)),
        ],
        ConnectionView::Closing { request, outcome } => steps == seq![
            ConnectionActionView::CallPrimary(request),
            ConnectionActionView::WriteClient(reply_bytes(outcome)),
            ConnectionActionView::ShutdownClient,
        ],
        ConnectionView::Aborting { .. } => steps == seq![ConnectionActionView::ShutdownClient],
        ConnectionView::Finished => ended_in_order(steps),
    }
}

/// What holds of a connection and of what it has asked for so far.
spec fn on_course(state: ConnectionView, actions: Seq<ConnectionActionView>) -> bool {
    &&& in_order(state, steps(actions))
    &&& match state {
        ConnectionView::Reading { .. }
        | ConnectionView::AwaitingPrimary { .. }
        | ConnectionView::Aborting { .. } => {
            &&& client_bytes(actions) == Seq::<u8>::empty()
            &&& forall|i: int| 0 <= i < actions.len() ==> !(actions[i] is HandOff)
        },
        ConnectionView::Replying { outcome, .. } | ConnectionView::Closing { outcome, .. } => {
            &&& client_bytes(actions) == reply_bytes(outcome)
            &&& forall|i: int| 0 <= i < actions.len() ==> !(actions[i] is HandOff)
        },
        ConnectionView::Finished => forall|i: int|
            0 <= i < actions.len() && actions[i] is HandOff ==> {
                &&& client_bytes(actions.take(i)) == actions[i]->HandOff_1
                &&& client_bytes(actions) == actions[i]->HandOff_1
                &&& forall|j: int| 0 <= j < actions.len() && actions[j] is HandOff ==> j == i
            },
    }
}

proof fn lemma_on_course(bufsize: usize, events: Seq<ConnectionEventView>)
    ensures
        on_course(run(accepted(bufsize), events).0, run(accepted(bufsize), events).1),
    decreases events.len(),
{
    if events.len() > 0 {
        lemma_on_course(bufsize, events.drop_last());
        let (before, actions) = run(accepted(bufsize), events.drop_last());
        let (after, action) = connection_step(before, events.last());
        let all = actions.push(action);
        assert(all.drop_last() =~= actions);
        assert forall|i: int| 0 <= i < actions.len() implies all.take(i) =~= actions.take(i) by {}
        assert(all.take(actions.len() as int) =~= actions);
        let done = steps(actions);
        assert(steps(all) == if action is ReadClient || action is Nothing {
            done
        } else {
            done.push(action)
        });
        match after {
            ConnectionView::Reading { .. } => {},
            ConnectionView::AwaitingPrimary { request } => {
                assert(steps(all) =~= seq![ConnectionActionView::CallPrimary(request)]);
            },
            ConnectionView::Replying { request, outcome } => {
                assert(steps(all) =~= seq![
                    ConnectionActionView::CallPrimary(request),
                    ConnectionActionView::WriteClient(reply_bytes(outcome)),
                ]);
            },
            ConnectionView::Closing { request, outcome } => {
                assert(steps(all) =~= seq![
                    ConnectionActionView::CallPrimary(request),
                    ConnectionActionView::WriteClient(reply_bytes(outcome)),
                    ConnectionActionView::ShutdownClient,
                ]);
            },
            ConnectionView::Aborting { .. } => {
                assert(steps(all) =~= seq![ConnectionActionView::ShutdownClient]);
            },
            ConnectionView::Finished => {},
        }
    }
}

/// The order of a connection is strict: whatever is reported to it, and in
/// whatever order, the steps that it has asked for are those that lead to
/// where it stands, each once and in their one order. Nothing is written to
/// the client before the primary was called, nothing is handed off before the
/// client has its reply and its stream was shut down, and nothing follows the
/// hand-off.
pub proof fn lemma_strict_order(bufsize: usize, events: Seq<ConnectionEventView>)
    ensures
        in_order(run(accepted(bufsize), events).0, steps(run(accepted(bufsize), events).1)),
{
    lemma_on_course(bufsize, events);
}

/// When a connection hands an exchange off, the bytes written to the client,
/// before the hand-off and in all, are exactly the bytes of the primary's
/// response in that exchange; and it hands off no more than once.
pub proof fn lemma_client_receives_primary(
    bufsize: usize,
    events: Seq<ConnectionEventView>,
    i: int,
)
    requires
        0 <= i < run(accepted(bufsize), events).1.len(),
        run(accepted(bufsize), events).1[i] is HandOff,
    ensures
        ({
            let actions = run(accepted(bufsize), events).1;
            &&& client_bytes(actions.take(i)) == actions[i]->HandOff_1
            &&& client_bytes(actions) == actions[i]->HandOff_1
            &&& forall|j: int| 0 <= j < actions.len() && actions[j] is HandOff ==> j == i
        }),
{
    lemma_on_course(bufsize, events);
}

/// A finished connection stays finished and asks for nothing that reaches
/// the client, whatever is reported to it.
pub proof fn lemma_finished_is_inert(events: Seq<ConnectionEventView>)
    ensures
        run(ConnectionView::Finished, events).0 == ConnectionView::Finished,
        client_bytes(run(ConnectionView::Finished, events).1) == Seq::<u8>::empty(),
    decreases events.len(),
{
    if events.len() > 0 {
        lemma_finished_is_inert(events.drop_last());
        let (before, actions) = run(ConnectionView::Finished, events.drop_last());
        assert(actions.push(ConnectionActionView::Nothing).drop_last() =~= actions);
    }
}

/// Running over `events` and then over `later` is running over both.
proof fn lemma_run_on(
    state: ConnectionView,
    events: Seq<ConnectionEventView>,
    later: Seq<ConnectionEventView>,
)
    ensures
        run(state, events + later).0 == run(run(state, events).0, later).0,
        run(state, events + later).1 == run(state, events).1 + run(
            run(state, events).0,
            later,
        ).1,
    decreases later.len(),
{
    if later.len() == 0 {
        assert(events + later =~= events);
        assert(run(state, events).1 + Seq::<ConnectionActionView>::empty() =~= run(
            state,
            events,
        ).1);
    } else {
        lemma_run_on(state, events, later.drop_last());
        assert((events + later).drop_last() =~= events + later.drop_last());
        assert((events + later).last() == later.last());
        let first = run(state, events).1;
        let (before, actions) = run(run(state, events).0, later.drop_last());
        let (after, action) = connection_step(before, later.last());
        assert((first + actions).push(action) =~= first + actions.push(action));
    }
}

/// The bytes of two runs of actions, one after the other.
proof fn lemma_client_bytes_join(
    first: Seq<ConnectionActionView>,
    second: Seq<ConnectionActionView>,
)
    ensures
        client_bytes(first + second) == client_bytes(first) + client_bytes(second),
    decreases second.len(),
{
    if second.len() == 0 {
        assert(first + second =~= first);
        assert(client_bytes(first) + Seq::<u8>::empty() =~= client_bytes(first));
    } else {
        lemma_client_bytes_join(first, second.drop_last());
        assert((first + second).drop_last() =~= first + second.drop_last());
        assert((first + second).last() == second.last());
        let tail = match second.last() {
            ConnectionActionView::WriteClient(bytes) => bytes,
            _ => Seq::empty(),
        };
        assert((client_bytes(first) + client_bytes(second.drop_last())) + tail =~= client_bytes(
            first,
        ) + (client_bytes(second.drop_last()) + tail));
    }
}

/// The client is isolated from the shadow path. That path begins with the
/// hand-off, when the connection has finished; and nothing that is reported
/// to a finished connection changes the bytes that the client observes.
pub proof fn lemma_isolation(
    bufsize: usize,
    events: Seq<ConnectionEventView>,
    later: Seq<ConnectionEventView>,
)
    requires
        run(accepted(bufsize), events).0 == ConnectionView::Finished,
    ensures
        run(accepted(bufsize), events + later).0 == ConnectionView::Finished,
        client_bytes(run(accepted(bufsize), events + later).1) == client_bytes(
            run(accepted(bufsize), events).1,
        ),
{
    lemma_run_on(accepted(bufsize), events, later);
    lemma_finished_is_inert(later);
    let first = run(accepted(bufsize), events).1;
    let second = run(ConnectionView::Finished, later).1;
    lemma_client_bytes_join(first, second);
    assert(client_bytes(first) + Seq::<u8>::empty() =~= client_bytes(first));
}

/// The status line that answers a client whose primary failed with `error`.
pub fn synthetic_response(error: &ServerError) -> (text: &'static str)
    ensures
        text@ == synthetic_text(error@),
{
    match error {
        ServerError::Unresponsive(_, _) => "HTTP/1.1 503 Service Unavailable",
        ServerError::ServerWriteError(_, _) => "HTTP/1.1 500 Internal Server Error",
        ServerError::ServerReadError(_, _) => "HTTP/1.1 500 Internal Server Error",
    }
}

impl Connection {
    /// Begins the work on a client that was just accepted, with reads into a
    /// buffer of `bufsize` bytes: the first thing to do is to read.
    pub fn accept(bufsize: usize) -> (begun: (Connection, ConnectionAction))
        ensures
            begun.0@ == (ConnectionView::Reading { bufsize, request: Seq::empty() }),
            begun.1@ == ConnectionActionView::ReadClient,
    {
        (
            Connection::Reading { bufsize, request: RawHttpRequest::default() },
            ConnectionAction::ReadClient,
        )
    }

    /// Takes what the sockets report and says what to do next.
    pub fn step(self, event: ConnectionEvent) -> (next: (Connection, ConnectionAction))
        ensures
            (next.0@, next.1@) == connection_step(self@, event@),
    {
        match (self, event) {
            (
                Connection::Reading { bufsize, request },
                ConnectionEvent::ClientRead(ReadOutcome::Data(bytes)),
            ) => {
                let mut request = request;
                request.add_bytes(bytes.as_slice(), bytes.len());
                if is_last_read(bytes.len(), bufsize) {
                    let copy = slice_to_vec(request.bytes());
                    (Connection::AwaitingPrimary { request }, ConnectionAction::CallPrimary(copy))
                } else {
                    (Connection::Reading { bufsize, request }, ConnectionAction::ReadClient)
                }
            },
            (
                Connection::Reading { bufsize, request },
                ConnectionEvent::ClientRead(ReadOutcome::WouldBlock),
            ) => (Connection::Reading { bufsize, request }, ConnectionAction::ReadClient),
            (
                Connection::Reading { bufsize, request },
                ConnectionEvent::ClientRead(ReadOutcome::Failed(cause)),
            ) => {
                let error = ServerError::ServerReadError(String::from_str("client"), cause);
                (Connection::Aborting { error }, ConnectionAction::ShutdownClient)
            },
            (Connection::AwaitingPrimary { request }, ConnectionEvent::PrimaryAnswered(outcome)) => {
                let reply = match &outcome {
                    Ok(response) => slice_to_vec(response.bytes()),
                    Err(error) => slice_to_vec(synthetic_response(error).as_bytes()),
                };
                (Connection::Replying { request, outcome }, ConnectionAction::WriteClient(reply))
            },
            (Connection::Replying { request, outcome }, ConnectionEvent::ClientWritten) => (
                Connection::Closing { request, outcome },
                ConnectionAction::ShutdownClient,
            ),
            (Connection::Closing { request, outcome }, ConnectionEvent::ClientClosed) => (
                Connection::Finished,
                match outcome {
                    Ok(response) => ConnectionAction::HandOff(request, response),
                    Err(error) => ConnectionAction::Fail(error),
                },
            ),
            (Connection::Aborting { error }, ConnectionEvent::ClientClosed) => (
                Connection::Finished,
                ConnectionAction::Fail(error),
            ),
            (state, _) => (state, ConnectionAction::Nothing),
        }
    }
}

} // verus!
