//! The server side of the session: a state machine that is told what
//! happened and answers with what to do next. The request handler and the
//! transport stay with its driver.

use vstd::prelude::*;
use crate::codec::{
    decode_request, encode_response, parse_request, response_bytes, CodecError,
};
use crate::error::{HandlerError, SessionError};
use crate::events::{note_seq, IpcEvent, KNOWN_EVENTS};
use crate::messages::{payload_view, Request, Response};

verus! {

/// Seconds without any event after which the server checks on its client.
pub const SERVER_DEADLINE_SECS: u64 = 15;

/// Where the server stands.
#[derive(Debug, Clone, Copy, PartialEq, Eq, Structural)]
pub enum ServerState {
    /// Announced and ready; no client attached.
    Idle,
    /// A client is attached.
    Attached,
    /// Terminal: nothing happens any more.
    Exited,
}

/// What the driver does after handing the session an event, before it sends
/// the notification that came with the command.
#[derive(Debug, Clone, Copy, PartialEq, Eq, Structural)]
pub enum ServerCommand {
    /// Nothing to do.
    Nothing,
    /// Refresh the outbound port's connections.
    RefreshConnections,
    /// Try to pull one payload from the inbound port and report it with
    /// [`ServerSession::on_pulled`].
    Pull,
}

/// What a missed deadline means.
#[derive(Debug, Clone, Copy, PartialEq, Eq, Structural)]
pub enum DeadlineVerdict {
    /// A client is attached: report a liveness warning and keep waiting.
    WarnAndWait,
    /// Nobody is attached: shut down.
    Shutdown,
}

/// Everything that can be reported to a server session.
pub enum ServerInput {
    /// An event drained from the listener.
    Event(IpcEvent),
    /// The outcome of a pull: the payload, if one was buffered.
    Pulled(Option<Seq<u8>>),
    /// Whether the response handed over for sending went out.
    Published(bool),
    /// A pull from the inbound port failed.
    PullFailed,
    /// An error reached the reactor loop.
    Failed(SessionError),
    /// The deadline passed without any event.
    DeadlineMissed,
}

/// What a session announces when it is opened: connected, then ready.
pub open spec fn server_greeting() -> Seq<IpcEvent> {
    seq![IpcEvent::ServerConnected, IpcEvent::ServerReady]
}

/// What a session announces when it is closed.
pub open spec fn server_farewell() -> Seq<IpcEvent> {
    seq![IpcEvent::ServerDisconnected]
}

/// Whether the server goes on after an error: only a missed deadline with a
/// client attached is survived; every other error is terminal.
pub open spec fn server_survives(s: ServerState, e: SessionError) -> bool {
    e == SessionError::DeadlineExceeded && s == ServerState::Attached
}

/// The session after one input.
pub open spec fn server_next(s: ServerState, input: ServerInput) -> ServerState {
    if s == ServerState::Exited {
        s
    } else {
        match input {
            ServerInput::Event(IpcEvent::ClientConnected) => ServerState::Attached,
            ServerInput::Event(IpcEvent::ClientDisconnected) => ServerState::Idle,
            ServerInput::DeadlineMissed => if s == ServerState::Attached {
                s
            } else {
                ServerState::Exited
            },
            ServerInput::Failed(e) => if server_survives(s, e) {
                s
            } else {
                ServerState::Exited
            },
            _ => s,
        }
    }
}

/// The notifications that the session owes its peer for one input.
pub open spec fn server_notes(s: ServerState, input: ServerInput) -> Seq<IpcEvent> {
    if s == ServerState::Exited {
        Seq::empty()
    } else {
        match input {
            ServerInput::Event(IpcEvent::ClientConnected) => seq![IpcEvent::ServerReady],
            ServerInput::Event(IpcEvent::ResponseReceived) => seq![IpcEvent::ServerReady],
            ServerInput::Pulled(Some(_)) => seq![IpcEvent::RequestReceived],
            ServerInput::Published(true) => seq![IpcEvent::ResponseSent],
            _ => Seq::empty(),
        }
    }
}

/// The command that answers an event.
pub open spec fn server_command(s: ServerState, event: IpcEvent) -> ServerCommand {
    if s == ServerState::Exited {
        ServerCommand::Nothing
    } else {
        match event {
            IpcEvent::ClientConnected => ServerCommand::RefreshConnections,
            IpcEvent::RequestSent => ServerCommand::Pull,
            _ => ServerCommand::Nothing,
        }
    }
}

/// The verdict on a missed deadline.
pub open spec fn server_verdict(s: ServerState) -> DeadlineVerdict {
    if s == ServerState::Attached {
        DeadlineVerdict::WarnAndWait
    } else {
        DeadlineVerdict::Shutdown
    }
}

/// The server's protocol state. Created by [`ServerSession::open`], which
/// yields the two opening announcements, and consumed by
/// [`ServerSession::close`], which yields the disconnect announcement.
#[derive(Debug)]
pub struct ServerSession {
    state: ServerState,
}

impl View for ServerSession {
    type V = ServerState;

    closed spec fn view(&self) -> ServerState {
        self.state
    }
}

impl ServerSession {
    /// Opens the session. The returned events are the announcements that the
    /// driver sends at once, in this order: connected, then ready.
    pub fn open() -> (r: (ServerSession, IpcEvent, IpcEvent))
        ensures
            r.0@ == ServerState::Idle,
            r.1 == IpcEvent::ServerConnected,
            r.2 == IpcEvent::ServerReady,
            seq![r.1, r.2] == server_greeting(),
    {
        (
            ServerSession { state: ServerState::Idle },
            IpcEvent::ServerConnected,
            IpcEvent::ServerReady,
        )
    }

    /// Closes the session, on whatever path the process leaves. The returned
    /// event is the announcement that the driver sends last.
    pub fn close(self) -> (farewell: IpcEvent)
        ensures
            farewell == IpcEvent::ServerDisconnected,
            seq![farewell] == server_farewell(),
    {
        IpcEvent::ServerDisconnected
    }

    /// The current state.
    pub fn state(&self) -> (s: ServerState)
        ensures
            s == self@,
    {
        self.state
    }

    /// Whether a client is attached.
    pub fn has_client(&self) -> (b: bool)
        ensures
            b == (self@ == ServerState::Attached),
    {
        match self.state {
            ServerState::Attached => true,
            _ => false,
        }
    }

    /// Whether the session has reached its terminal state.
    pub fn is_exited(&self) -> (b: bool)
        ensures
            b == (self@ == ServerState::Exited),
    {
        match self.state {
            ServerState::Exited => true,
            _ => false,
        }
    }

    /// Takes one event drained from the listener. The driver carries out the
    /// command first and then sends the notification, if there is one.
    pub fn on_event(&mut self, event: IpcEvent) -> (r: (ServerCommand, Option<IpcEvent>))
        ensures
            final(self)@ == server_next(old(self)@, ServerInput::Event(event)),
            r.0 == server_command(old(self)@, event),
            note_seq(r.1) == server_notes(old(self)@, ServerInput::Event(event)),
            r.1 is Some <==> old(self)@ != ServerState::Exited && (event
                == IpcEvent::ClientConnected || event == IpcEvent::ResponseReceived),
            r.1 is Some ==> r.1 == Some(IpcEvent::ServerReady),
    {
        if self.is_exited() {
            return (ServerCommand::Nothing, None);
        }
        match event {
            IpcEvent::ClientConnected => {
                self.state = ServerState::Attached;
                (ServerCommand::RefreshConnections, Some(IpcEvent::ServerReady))
            },
            IpcEvent::ClientDisconnected => {
                self.state = ServerState::Idle;
                (ServerCommand::Nothing, None)
            },
            IpcEvent::RequestSent => (ServerCommand::Pull, None),
            IpcEvent::ResponseReceived => (ServerCommand::Nothing, Some(IpcEvent::ServerReady)),
            _ => (ServerCommand::Nothing, None),
        }
    }

    /// Takes the outcome of a pull. With a payload the session owes the
    /// acknowledgment, and hands back the request for the handler, or the
    /// reason it could not be read; with none it owes nothing and nothing
    /// changes.
    pub fn on_pulled(&mut self, payload: Option<&[u8]>) -> (r: (
        Option<IpcEvent>,
        Option<Result<Request, CodecError>>,
    ))
        ensures
            final(self)@ == old(self)@,
            final(self)@ == server_next(old(self)@, ServerInput::Pulled(payload_view(payload))),
            note_seq(r.0) == server_notes(old(self)@, ServerInput::Pulled(payload_view(payload))),
            r.0 is Some <==> r.1 is Some,
            r.1 is Some <==> payload is Some && old(self)@ != ServerState::Exited,
            r.1 is Some ==> match r.1.unwrap() {
                Ok(request) => parse_request(payload.unwrap()@) == Some(request@),
                Err(e) => parse_request(payload.unwrap()@) is None && e == CodecError::Malformed,
            },
    {
        if self.is_exited() {
            return (None, None);
        }
        match payload {
            None => (None, None),
            Some(bytes) => (Some(IpcEvent::RequestReceived), Some(decode_request(bytes))),
        }
    }

    /// Takes a pull that failed: a transport error, which changes nothing by
    /// itself and for which nothing is acknowledged.
    pub fn on_pull_failed(&self) -> (e: SessionError)
        ensures
            e == SessionError::TransportError,
            self@ == server_next(self@, ServerInput::PullFailed),
            server_notes(self@, ServerInput::PullFailed) == Seq::<IpcEvent>::empty(),
    {
        SessionError::TransportError
    }

    /// Takes what the handler made of a request: a response is encoded for
    /// publishing; a failure is passed on and ends the wake-up.
    pub fn on_handled(&self, outcome: Result<Response, HandlerError>) -> (r: Result<
        Vec<u8>,
        SessionError,
    >)
        ensures
            match outcome {
                Ok(response) => r is Ok && r.unwrap()@ == response_bytes(response@),
                Err(e) => r == Err::<Vec<u8>, SessionError>(SessionError::HandlerFailure(e)),
            },
    {
        match outcome {
            Ok(response) => Ok(encode_response(&response)),
            Err(e) => Err(SessionError::HandlerFailure(e)),
        }
    }

    /// Takes the outcome of publishing a response: one that went out is
    /// announced; one that did not is a transport error.
    pub fn on_published(&self, sent: bool) -> (r: Result<Option<IpcEvent>, SessionError>)
        ensures
            self@ == server_next(self@, ServerInput::Published(sent)),
            r is Ok <==> sent,
            r is Err ==> r == Err::<Option<IpcEvent>, SessionError>(SessionError::TransportError),
            r is Ok ==> note_seq(r.unwrap()) == server_notes(self@, ServerInput::Published(sent)),
            r is Ok ==> (r.unwrap() is Some <==> self@ != ServerState::Exited),
            r is Ok && r.unwrap() is Some ==> r.unwrap() == Some(IpcEvent::ResponseSent),
    {
        if !sent {
            Err(SessionError::TransportError)
        } else if self.is_exited() {
            Ok(None)
        } else {
            Ok(Some(IpcEvent::ResponseSent))
        }
    }

    /// Takes an error that reached the reactor loop and decides whether the
    /// loop stops. A missed deadline with a client attached is only a
    /// warning; every other error ends the session.
    pub fn on_failure(&mut self, e: SessionError) -> (stop: bool)
        ensures
            final(self)@ == server_next(old(self)@, ServerInput::Failed(e)),
            stop == !server_survives(old(self)@, e),
            stop <==> final(self)@ == ServerState::Exited,
            !stop ==> final(self)@ == old(self)@,
    {
        let survives = match e {
            SessionError::DeadlineExceeded => self.has_client(),
            _ => false,
        };
        if !survives {
            self.state = ServerState::Exited;
        }
        !survives
    }

    /// Takes a missed deadline: with a client attached the server warns and
    /// waits on; with none it exits.
    pub fn on_deadline(&mut self) -> (verdict: DeadlineVerdict)
        ensures
            final(self)@ == server_next(old(self)@, ServerInput::DeadlineMissed),
            verdict == server_verdict(old(self)@),
            verdict == DeadlineVerdict::WarnAndWait <==> old(self)@ == ServerState::Attached,
            verdict == DeadlineVerdict::Shutdown <==> final(self)@ == ServerState::Exited,
    {
        match self.state {
            ServerState::Attached => DeadlineVerdict::WarnAndWait,
            _ => {
                self.state = ServerState::Exited;
                DeadlineVerdict::Shutdown
            },
        }
    }
}

/// The notifications of a whole run: those owed for each input in turn.
pub open spec fn server_run_notes(s: ServerState, inputs: Seq<ServerInput>) -> Seq<IpcEvent>
    decreases inputs.len(),
{
    if inputs.len() == 0 {
        Seq::empty()
    } else {
        server_notes(s, inputs[0]) + server_run_notes(
            server_next(s, inputs[0]),
            inputs.subrange(1, inputs.len() as int),
        )
    }
}

/// The session after a whole run.
pub open spec fn server_run(s: ServerState, inputs: Seq<ServerInput>) -> ServerState
    decreases inputs.len(),
{
    if inputs.len() == 0 {
        s
    } else {
        server_run(server_next(s, inputs[0]), inputs.subrange(1, inputs.len() as int))
    }
}

/// Everything a session announces from `open` to `close`.
pub open spec fn server_lifetime_notes(inputs: Seq<ServerInput>) -> Seq<IpcEvent> {
    server_greeting() + server_run_notes(ServerState::Idle, inputs) + server_farewell()
}

/// An event without a meaning changes nothing: the state stays, no command
/// is given, nothing is announced.
pub proof fn lemma_server_ignores_unknown(s: ServerState, raw: usize)
    requires
        raw >= KNOWN_EVENTS,
    ensures
        server_next(s, ServerInput::Event(IpcEvent::of_raw(raw))) == s,
        server_command(s, IpcEvent::of_raw(raw)) == ServerCommand::Nothing,
        server_notes(s, ServerInput::Event(IpcEvent::of_raw(raw))) == Seq::<IpcEvent>::empty(),
{
}

/// Only a client that connects attaches the server: a step that ends
/// attached either began attached or took that event.
pub proof fn lemma_server_attaches_only_on_connect(s: ServerState, input: ServerInput)
    requires
        server_next(s, input) == ServerState::Attached,
    ensures
        s == ServerState::Attached || input == ServerInput::Event(IpcEvent::ClientConnected),
{
}

/// A server that is attached after a run from its start has seen a client
/// connect during that run.
pub proof fn lemma_server_attached_has_seen_connect(inputs: Seq<ServerInput>)
    requires
        server_run(ServerState::Idle, inputs) == ServerState::Attached,
    ensures
        exists|i: int|
            0 <= i < inputs.len() && #[trigger] inputs[i] == ServerInput::Event(
                IpcEvent::ClientConnected,
            ),
{
    lemma_server_run_attached(ServerState::Idle, inputs);
}

proof fn lemma_server_run_attached(s: ServerState, inputs: Seq<ServerInput>)
    requires
        s != ServerState::Attached,
        server_run(s, inputs) == ServerState::Attached,
    ensures
        exists|i: int|
            0 <= i < inputs.len() && #[trigger] inputs[i] == ServerInput::Event(
                IpcEvent::ClientConnected,
            ),
    decreases inputs.len(),
{
    if inputs.len() > 0 {
        let rest = inputs.subrange(1, inputs.len() as int);
        if inputs[0] == ServerInput::Event(IpcEvent::ClientConnected) {
        } else {
            lemma_server_run_attached(server_next(s, inputs[0]), rest);
            let i = choose|i: int|
                0 <= i < rest.len() && #[trigger] rest[i] == ServerInput::Event(
                    IpcEvent::ClientConnected,
                );
            assert(inputs[i + 1] == rest[i]);
        }
    }
}

/// A request is acknowledged only for data that a pull made visible: a pull
/// that finds nothing changes nothing and announces nothing, and whatever
/// step announces `RequestReceived` is a pull that found a payload.
pub proof fn lemma_server_acknowledges_only_pulled(s: ServerState, input: ServerInput)
    ensures
        server_next(s, ServerInput::Pulled(None)) == s,
        server_notes(s, ServerInput::Pulled(None)) == Seq::<IpcEvent>::empty(),
        server_notes(s, input).contains(IpcEvent::RequestReceived) ==> input is Pulled
            && input->Pulled_0 is Some,
        input is Event ==> !server_notes(s, input).contains(IpcEvent::RequestReceived),
{
    let notes = server_notes(s, input);
    if notes.contains(IpcEvent::RequestReceived) {
        let i = choose|i: int| 0 <= i < notes.len() && notes[i] == IpcEvent::RequestReceived;
        assert(notes[i] == IpcEvent::RequestReceived);
    }
}

/// While running, a session never announces a connection or a disconnection.
pub proof fn lemma_server_run_notes_are_progress(s: ServerState, inputs: Seq<ServerInput>)
    ensures
        forall|i: int|
            0 <= i < server_run_notes(s, inputs).len() ==> {
                let note = #[trigger] server_run_notes(s, inputs)[i];
                note == IpcEvent::ServerReady || note == IpcEvent::RequestReceived || note
                    == IpcEvent::ResponseSent
            },
    decreases inputs.len(),
{
    if inputs.len() > 0 {
        lemma_server_run_notes_are_progress(
            server_next(s, inputs[0]),
            inputs.subrange(1, inputs.len() as int),
        );
    }
}

/// Over its whole life, whatever happens in between and however it ends, a
/// session announces its connection exactly once, first, and its
/// disconnection exactly once, last.
pub proof fn lemma_server_announces_once(inputs: Seq<ServerInput>)
    ensures
        server_lifetime_notes(inputs).len() >= 3,
        server_lifetime_notes(inputs).first() == IpcEvent::ServerConnected,
        server_lifetime_notes(inputs).last() == IpcEvent::ServerDisconnected,
        forall|i: int|
            0 < i < server_lifetime_notes(inputs).len() ==> #[trigger] server_lifetime_notes(
                inputs,
            )[i] != IpcEvent::ServerConnected,
        forall|i: int|
            0 <= i < server_lifetime_notes(inputs).len() - 1
                ==> #[trigger] server_lifetime_notes(inputs)[i] != IpcEvent::ServerDisconnected,
{
    let run = server_run_notes(ServerState::Idle, inputs);
    let all = server_lifetime_notes(inputs);
    lemma_server_run_notes_are_progress(ServerState::Idle, inputs);
    assert forall|i: int| 1 < i < all.len() - 1 implies all[i] == run[i - 2] by {}
}

/// Once exited, a session stays exited and silent whatever it is told.
pub proof fn lemma_server_exit_is_terminal(s: ServerState, inputs: Seq<ServerInput>)
    requires
        s == ServerState::Exited,
    ensures
        server_run(s, inputs) == s,
        server_run_notes(s, inputs) == Seq::<IpcEvent>::empty(),
    decreases inputs.len(),
{
    if inputs.len() > 0 {
        lemma_server_exit_is_terminal(s, inputs.subrange(1, inputs.len() as int));
    }
}

/// Each response received re-arms the client: the server answers it with
/// `ServerReady`, as often as it comes, and stays as it was.
pub proof fn lemma_server_rearms_after_each_response(s: ServerState)
    requires
        s != ServerState::Exited,
    ensures
        server_next(s, ServerInput::Event(IpcEvent::ResponseReceived)) == s,
        server_notes(s, ServerInput::Event(IpcEvent::ResponseReceived)) == seq![
            IpcEvent::ServerReady,
        ],
{
}

/// An error that reaches the loop as a missed deadline is judged as the
/// missed deadline itself is.
pub proof fn lemma_server_deadline_error_is_deadline(s: ServerState)
    ensures
        server_next(s, ServerInput::Failed(SessionError::DeadlineExceeded)) == server_next(
            s,
            ServerInput::DeadlineMissed,
        ),
        server_notes(s, ServerInput::Failed(SessionError::DeadlineExceeded)) == Seq::<
            IpcEvent,
        >::empty(),
{
}

} // verus!
