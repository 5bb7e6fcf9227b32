//! The client side of the session: a state machine that is told what
//! happened and answers with what to do next. It never blocks and touches no
//! transport; its driver performs the commands and reports back.

use vstd::prelude::*;
use crate::codec::{
    decode_response_ref, encode_request, lemma_request_round_trip, parse_request, parse_response,
    request_bytes, CodecError,
};
use crate::error::SessionError;
use crate::events::{note_seq, IpcEvent, KNOWN_EVENTS};
use crate::messages::{answer_view, payload_view, Request, RequestView, ResponseRef};

verus! {

/// Seconds without any event after which the client gives the server up.
pub const CLIENT_DEADLINE_SECS: u64 = 30;

/// Where the client stands in the exchange.
#[derive(Debug, Clone, Copy, PartialEq, Eq, Structural)]
pub enum ClientState {
    /// Connected and announced; nothing asked yet.
    Idle,
    /// Waiting with nothing outstanding.
    AwaitingServer,
    /// The server is ready and the user is being asked for the next request.
    PromptingUser,
    /// A request has been published and announced.
    RequestInFlight,
    /// Terminal: nothing happens any more.
    Exited,
}

/// What the driver does after handing the session an event.
#[derive(Debug, Clone, Copy, PartialEq, Eq, Structural)]
pub enum ClientCommand {
    /// Nothing to do.
    Nothing,
    /// Refresh the outbound port's connections.
    RefreshConnections,
    /// Try to pull one payload from the inbound port and report it with
    /// [`ClientSession::on_pulled`].
    Pull,
    /// Acquire the next user input and report it with
    /// [`ClientSession::on_input`].
    Prompt,
}

/// How an attempt to acquire the next user input ended.
#[derive(Debug, Clone, PartialEq, Eq)]
pub enum PromptOutcome {
    /// The interrupt signal came first.
    Interrupted,
    /// A line was read.
    Line(Vec<u8>),
    /// Reading the line failed.
    ReadFailed,
    /// The input source has ended.
    EndOfInput,
}

impl PromptOutcome {
    /// The path to ask for, which only a line that was read gives.
    pub open spec fn answer(self) -> Option<Seq<u8>> {
        match self {
            PromptOutcome::Line(line) => Some(line@),
            _ => None,
        }
    }

    /// Turns the outcome into the answer for [`ClientSession::on_input`]: the
    /// line where there is one, nothing after an interrupt, a read failure or
    /// the end of input.
    pub fn into_answer(self) -> (answer: Option<Vec<u8>>)
        ensures
            answer_view(answer) == self.answer(),
    {
        match self {
            PromptOutcome::Line(line) => Some(line),
            _ => None,
        }
    }
}

/// The client session as a value.
pub struct ClientModel {
    pub state: ClientState,
    pub server_reachable: bool,
}

/// Everything that can be reported to a client session.
pub enum ClientInput {
    /// An event drained from the listener.
    Event(IpcEvent),
    /// The outcome of a pull: the payload, if one was buffered.
    Pulled(Option<Seq<u8>>),
    /// The outcome of a prompt: the path, or nothing after an interrupt or
    /// at the end of input.
    Input(Option<Seq<u8>>),
    /// Whether the request handed over for sending went out.
    Published(bool),
    /// A pull from the inbound port failed.
    PullFailed,
    /// The deadline passed without any event.
    DeadlineMissed,
    /// An error reached the reactor loop.
    Failed(SessionError),
}

/// What a session announces when it is opened.
pub open spec fn client_greeting() -> Seq<IpcEvent> {
    seq![IpcEvent::ClientConnected]
}

/// What a session announces when it is closed.
pub open spec fn client_farewell() -> Seq<IpcEvent> {
    seq![IpcEvent::ClientDisconnected]
}

/// The session right after it has been opened.
pub open spec fn client_initial() -> ClientModel {
    ClientModel { state: ClientState::Idle, server_reachable: false }
}

/// The session after one input.
pub open spec fn client_next(m: ClientModel, input: ClientInput) -> ClientModel {
    if m.state == ClientState::Exited {
        m
    } else {
        match input {
            ClientInput::Event(IpcEvent::ServerConnected) => ClientModel {
                server_reachable: true,
                ..m
            },
            ClientInput::Event(IpcEvent::ServerDisconnected) => ClientModel {
                server_reachable: false,
                ..m
            },
            ClientInput::Event(IpcEvent::ServerReady) => ClientModel {
                state: ClientState::PromptingUser,
                server_reachable: true,
            },
            ClientInput::Event(_) => m,
            ClientInput::Pulled(_) => m,
            ClientInput::Input(answer) => if m.state == ClientState::PromptingUser {
                match answer {
                    Some(_) => m,
                    None => ClientModel { state: ClientState::Exited, ..m },
                }
            } else {
                m
            },
            ClientInput::Published(true) => if m.state == ClientState::PromptingUser {
                ClientModel { state: ClientState::RequestInFlight, ..m }
            } else {
                m
            },
            ClientInput::Published(false) => ClientModel { state: ClientState::Exited, ..m },
            ClientInput::PullFailed => m,
            ClientInput::DeadlineMissed => ClientModel { state: ClientState::Exited, ..m },
            ClientInput::Failed(_) => ClientModel { state: ClientState::Exited, ..m },
        }
    }
}

/// The notifications that the session owes its peer for one input.
pub open spec fn client_notes(m: ClientModel, input: ClientInput) -> Seq<IpcEvent> {
    if m.state == ClientState::Exited {
        Seq::empty()
    } else {
        match input {
            ClientInput::Pulled(Some(_)) => seq![IpcEvent::ResponseReceived],
            ClientInput::Published(true) => if m.state == ClientState::PromptingUser {
                seq![IpcEvent::RequestSent]
            } else {
                Seq::empty()
            },
            _ => Seq::empty(),
        }
    }
}

/// The command that answers an event.
pub open spec fn client_command(m: ClientModel, event: IpcEvent) -> ClientCommand {
    if m.state == ClientState::Exited {
        ClientCommand::Nothing
    } else {
        match event {
            IpcEvent::ServerConnected => ClientCommand::RefreshConnections,
            IpcEvent::ResponseSent => ClientCommand::Pull,
            IpcEvent::ServerReady => ClientCommand::Prompt,
            _ => ClientCommand::Nothing,
        }
    }
}

/// The bytes to publish for an input, if it yields a request.
pub open spec fn client_outgoing(m: ClientModel, answer: Option<Seq<u8>>) -> Option<Seq<u8>> {
    match answer {
        Some(path) => if m.state == ClientState::PromptingUser {
            Some(request_bytes(RequestView::GetFileContent { path }))
        } else {
            None
        },
        None => None,
    }
}

/// The client's protocol state. Created by [`ClientSession::open`], which
/// yields the connect announcement, and consumed by [`ClientSession::close`],
/// which yields the disconnect announcement.
#[derive(Debug)]
pub struct ClientSession {
    state: ClientState,
    server_reachable: bool,
}

impl View for ClientSession {
    type V = ClientModel;

    closed spec fn view(&self) -> ClientModel {
        ClientModel { state: self.state, server_reachable: self.server_reachable }
    }
}

impl ClientSession {
    /// Opens the session. The returned event is the announcement that the
    /// driver sends at once.
    pub fn open() -> (r: (ClientSession, IpcEvent))
        ensures
            r.0@ == client_initial(),
            r.1 == IpcEvent::ClientConnected,
            seq![r.1] == client_greeting(),
    {
        (
            ClientSession { state: ClientState::Idle, server_reachable: false },
            IpcEvent::ClientConnected,
        )
    }

    /// Closes the session, on whatever path the process leaves. The returned
    /// event is the announcement that the driver sends last.
    pub fn close(self) -> (farewell: IpcEvent)
        ensures
            farewell == IpcEvent::ClientDisconnected,
            seq![farewell] == client_farewell(),
    {
        IpcEvent::ClientDisconnected
    }

    /// The current state.
    pub fn state(&self) -> (s: ClientState)
        ensures
            s == self@.state,
    {
        self.state
    }

    /// Whether the server was last seen connected.
    pub fn server_reachable(&self) -> (b: bool)
        ensures
            b == self@.server_reachable,
    {
        self.server_reachable
    }

    /// Whether the session has reached its terminal state.
    pub fn is_exited(&self) -> (b: bool)
        ensures
            b == (self@.state == ClientState::Exited),
    {
        match self.state {
            ClientState::Exited => true,
            _ => false,
        }
    }

    /// Takes one event drained from the listener.
    pub fn on_event(&mut self, event: IpcEvent) -> (command: ClientCommand)
        ensures
            final(self)@ == client_next(old(self)@, ClientInput::Event(event)),
            command == client_command(old(self)@, event),
            client_notes(old(self)@, ClientInput::Event(event)) == Seq::<IpcEvent>::empty(),
    {
        if self.is_exited() {
            return ClientCommand::Nothing;
        }
        match event {
            IpcEvent::ServerConnected => {
                self.server_reachable = true;
                ClientCommand::RefreshConnections
            },
            IpcEvent::ServerDisconnected => {
                self.server_reachable = false;
                ClientCommand::Nothing
            },
            IpcEvent::ResponseSent => ClientCommand::Pull,
            IpcEvent::ServerReady => {
                self.server_reachable = true;
                self.state = ClientState::PromptingUser;
                ClientCommand::Prompt
            },
            _ => ClientCommand::Nothing,
        }
    }

    /// Takes the outcome of a pull. With a payload the session owes the
    /// acknowledgment, and hands back the response read in place, or the
    /// reason it could not be read; with none it owes nothing.
    pub fn on_pulled<'a>(&mut self, payload: Option<&'a [u8]>) -> (r: (
        Option<IpcEvent>,
        Option<Result<ResponseRef<'a>, CodecError>>,
    ))
        ensures
            final(self)@ == old(self)@,
            final(self)@ == client_next(old(self)@, ClientInput::Pulled(payload_view(payload))),
            note_seq(r.0) == client_notes(old(self)@, ClientInput::Pulled(payload_view(payload))),
            r.0 is Some <==> r.1 is Some,
            r.1 is Some <==> payload is Some && old(self)@.state != ClientState::Exited,
            r.1 is Some ==> match r.1.unwrap() {
                Ok(response) => parse_response(payload.unwrap()@) == Some(response@),
                Err(e) => parse_response(payload.unwrap()@) is None && e
                    == CodecError::Malformed,
            },
    {
        if self.is_exited() {
            return (None, None);
        }
        match payload {
            None => (None, None),
            Some(bytes) => (Some(IpcEvent::ResponseReceived), Some(decode_response_ref(bytes))),
        }
    }

    /// Takes the outcome of a prompt. A path becomes a content request, whose
    /// encoding is handed back for publishing; the session goes on prompting
    /// until [`ClientSession::on_published`] reports what became of it. No
    /// path ends the session.
    pub fn on_input(&mut self, answer: Option<Vec<u8>>) -> (outgoing: Option<Vec<u8>>)
        ensures
            final(self)@ == client_next(
                old(self)@,
                ClientInput::Input(answer_view(answer)),
            ),
            match outgoing {
                Some(bytes) => client_outgoing(old(self)@, answer_view(answer)) == Some(bytes@),
                None => client_outgoing(old(self)@, answer_view(answer)) is None,
            },
    {
        match self.state {
            ClientState::PromptingUser => {},
            _ => {
                return None;
            },
        }
        match answer {
            Some(path) => {
                let request = Request::GetFileContent { path };
                let bytes = encode_request(&request);
                Some(bytes)
            },
            None => {
                self.state = ClientState::Exited;
                None
            },
        }
    }

    /// Takes the outcome of publishing the request that a prompt gave. One
    /// that went out is announced and is from then on in flight. One that did
    /// not is a transport error: nothing is announced and the session ends.
    pub fn on_published(&mut self, sent: bool) -> (r: Result<Option<IpcEvent>, SessionError>)
        ensures
            final(self)@ == client_next(old(self)@, ClientInput::Published(sent)),
            final(self)@.server_reachable == old(self)@.server_reachable,
            r is Ok <==> sent,
            r is Err ==> r == Err::<Option<IpcEvent>, SessionError>(SessionError::TransportError),
            !sent ==> final(self)@.state == ClientState::Exited,
            r is Ok ==> note_seq(r.unwrap()) == client_notes(
                old(self)@,
                ClientInput::Published(sent),
            ),
            r is Ok ==> (r.unwrap() is Some <==> old(self)@.state == ClientState::PromptingUser),
            r is Ok && r.unwrap() is Some ==> r.unwrap() == Some(IpcEvent::RequestSent)
                && final(self)@.state == ClientState::RequestInFlight,
            r is Ok && r.unwrap() is None ==> final(self)@ == old(self)@,
    {
        if !sent {
            self.state = ClientState::Exited;
            return Err(SessionError::TransportError);
        }
        match self.state {
            ClientState::PromptingUser => {
                self.state = ClientState::RequestInFlight;
                Ok(Some(IpcEvent::RequestSent))
            },
            _ => Ok(None),
        }
    }

    /// Takes a pull that failed: a transport error, which changes nothing by
    /// itself and for which nothing is acknowledged.
    pub fn on_pull_failed(&self) -> (e: SessionError)
        ensures
            e == SessionError::TransportError,
            self@ == client_next(self@, ClientInput::PullFailed),
            client_notes(self@, ClientInput::PullFailed) == Seq::<IpcEvent>::empty(),
    {
        SessionError::TransportError
    }

    /// Takes an error that reached the reactor loop. Every error is terminal
    /// for the client: the session ends and the loop stops.
    pub fn on_failure(&mut self, e: SessionError) -> (stop: bool)
        ensures
            stop,
            final(self)@ == client_next(old(self)@, ClientInput::Failed(e)),
            final(self)@.state == ClientState::Exited,
            final(self)@.server_reachable == old(self)@.server_reachable,
    {
        self.state = ClientState::Exited;
        true
    }

    /// Takes a missed deadline, which always ends the session. Returns
    /// whether a liveness warning is due, which it is unless the session had
    /// ended before.
    pub fn on_deadline(&mut self) -> (warn: bool)
        ensures
            final(self)@ == client_next(old(self)@, ClientInput::DeadlineMissed),
            final(self)@.state == ClientState::Exited,
            final(self)@.server_reachable == old(self)@.server_reachable,
            warn == (old(self)@.state != ClientState::Exited),
    {
        let warn = !self.is_exited();
        self.state = ClientState::Exited;
        warn
    }
}

/// The notifications of a whole run: those owed for each input in turn.
pub open spec fn client_run_notes(m: ClientModel, inputs: Seq<ClientInput>) -> Seq<IpcEvent>
    decreases inputs.len(),
{
    if inputs.len() == 0 {
        Seq::empty()
    } else {
        client_notes(m, inputs[0]) + client_run_notes(
            client_next(m, inputs[0]),
            inputs.subrange(1, inputs.len() as int),
        )
    }
}

/// The session after a whole run.
pub open spec fn client_run(m: ClientModel, inputs: Seq<ClientInput>) -> ClientModel
    decreases inputs.len(),
{
    if inputs.len() == 0 {
        m
    } else {
        client_run(client_next(m, inputs[0]), inputs.subrange(1, inputs.len() as int))
    }
}

/// Everything a session announces from `open` to `close`.
pub open spec fn client_lifetime_notes(inputs: Seq<ClientInput>) -> Seq<IpcEvent> {
    client_greeting() + client_run_notes(client_initial(), inputs) + client_farewell()
}

/// An event without a meaning changes nothing: the state stays, no command
/// is given, nothing is announced.
pub proof fn lemma_client_ignores_unknown(m: ClientModel, raw: usize)
    requires
        raw >= KNOWN_EVENTS,
    ensures
        client_next(m, ClientInput::Event(IpcEvent::of_raw(raw))) == m,
        client_command(m, IpcEvent::of_raw(raw)) == ClientCommand::Nothing,
        client_notes(m, ClientInput::Event(IpcEvent::of_raw(raw))) == Seq::<IpcEvent>::empty(),
{
}

/// While running, a session announces only transfers: a request sent or a
/// response received.
pub proof fn lemma_client_run_notes_are_transfers(m: ClientModel, inputs: Seq<ClientInput>)
    ensures
        forall|i: int|
            0 <= i < client_run_notes(m, inputs).len() ==> {
                let note = #[trigger] client_run_notes(m, inputs)[i];
                note == IpcEvent::RequestSent || note == IpcEvent::ResponseReceived
            },
    decreases inputs.len(),
{
    if inputs.len() > 0 {
        lemma_client_run_notes_are_transfers(
            client_next(m, inputs[0]),
            inputs.subrange(1, inputs.len() as int),
        );
    }
}

/// Over its whole life, whatever happens in between and however it ends, a
/// session announces its connection exactly once, first, and its
/// disconnection exactly once, last.
pub proof fn lemma_client_announces_once(inputs: Seq<ClientInput>)
    ensures
        client_lifetime_notes(inputs).len() >= 2,
        client_lifetime_notes(inputs).first() == IpcEvent::ClientConnected,
        client_lifetime_notes(inputs).last() == IpcEvent::ClientDisconnected,
        forall|i: int|
            0 < i < client_lifetime_notes(inputs).len() ==> #[trigger] client_lifetime_notes(
                inputs,
            )[i] != IpcEvent::ClientConnected,
        forall|i: int|
            0 <= i < client_lifetime_notes(inputs).len() - 1
                ==> #[trigger] client_lifetime_notes(inputs)[i] != IpcEvent::ClientDisconnected,
{
    let run = client_run_notes(client_initial(), inputs);
    let all = client_lifetime_notes(inputs);
    lemma_client_run_notes_are_transfers(client_initial(), inputs);
    assert forall|i: int| 0 < i < all.len() - 1 implies all[i] == run[i - 1] by {}
}

/// Once exited, a session stays exited and silent whatever it is told.
pub proof fn lemma_client_exit_is_terminal(m: ClientModel, inputs: Seq<ClientInput>)
    requires
        m.state == ClientState::Exited,
    ensures
        client_run(m, inputs) == m,
        client_run_notes(m, inputs) == Seq::<IpcEvent>::empty(),
    decreases inputs.len(),
{
    if inputs.len() > 0 {
        lemma_client_exit_is_terminal(m, inputs.subrange(1, inputs.len() as int));
    }
}

/// The client asks for work only when the server says it is ready: no other
/// input brings it to prompt. A request counts as in flight only once it has
/// been published: no other input than a publish that went out, reported
/// while prompting, brings the session there.
pub proof fn lemma_client_prompts_only_when_ready(m: ClientModel, input: ClientInput)
    ensures
        client_next(m, input).state == ClientState::PromptingUser && m.state
            != ClientState::PromptingUser ==> input == ClientInput::Event(IpcEvent::ServerReady),
        client_next(m, input).state == ClientState::RequestInFlight && m.state
            != ClientState::RequestInFlight ==> m.state == ClientState::PromptingUser
            && input == ClientInput::Published(true),
{
}

/// What an answered prompt puts on the wire is the content request for the
/// given path: the peer's decoder reads exactly that request from it.
pub proof fn lemma_client_asks_for_the_given_path(m: ClientModel, path: Seq<u8>)
    requires
        m.state == ClientState::PromptingUser,
        path.len() <= u64::MAX,
    ensures
        client_outgoing(m, Some(path)) is Some,
        parse_request(client_outgoing(m, Some(path)).unwrap()) == Some(
            RequestView::GetFileContent { path },
        ),
{
    let request = RequestView::GetFileContent { path };
    lemma_request_round_trip(request, Seq::empty());
    assert(request_bytes(request) + Seq::<u8>::empty() =~= request_bytes(request));
}

/// A publish that failed puts nothing in flight and announces nothing,
/// whatever the session was doing; it ends the session.
pub proof fn lemma_client_failed_publish_is_silent(m: ClientModel)
    ensures
        client_next(m, ClientInput::Published(false)).state == ClientState::Exited,
        client_notes(m, ClientInput::Published(false)) == Seq::<IpcEvent>::empty(),
        client_next(m, ClientInput::Published(false)).server_reachable == m.server_reachable,
{
}

} // verus!
