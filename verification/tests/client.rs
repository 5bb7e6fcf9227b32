use request_response::client::{
    ClientCommand, ClientSession, ClientState, PromptOutcome, CLIENT_DEADLINE_SECS,
};
use request_response::codec::{decode_request, encode_response, CodecError};
use request_response::error::{HandlerError, SessionError};
use request_response::events::IpcEvent;
use request_response::messages::{Request, Response, ResponseRef};

fn prompting() -> ClientSession {
    let (mut client, _) = ClientSession::open();
    assert_eq!(client.on_event(IpcEvent::ServerReady), ClientCommand::Prompt);
    client
}

#[test]
fn client_opens_idle_and_announces_connection() {
    let (client, hello) = ClientSession::open();
    assert_eq!(hello, IpcEvent::ClientConnected);
    assert_eq!(client.state(), ClientState::Idle);
    assert!(!client.server_reachable());
    assert!(!client.is_exited());
    assert_eq!(CLIENT_DEADLINE_SECS, 30);
}

#[test]
fn client_close_announces_disconnection() {
    let (client, _) = ClientSession::open();
    assert_eq!(client.close(), IpcEvent::ClientDisconnected);
    let mut client = prompting();
    client.on_deadline();
    assert_eq!(client.close(), IpcEvent::ClientDisconnected);
}

#[test]
fn client_tracks_server_presence() {
    let (mut client, _) = ClientSession::open();
    assert_eq!(client.on_event(IpcEvent::ServerConnected), ClientCommand::RefreshConnections);
    assert!(client.server_reachable());
    assert_eq!(client.state(), ClientState::Idle);
    assert_eq!(client.on_event(IpcEvent::ServerDisconnected), ClientCommand::Nothing);
    assert!(!client.server_reachable());
    assert_eq!(client.state(), ClientState::Idle);
}

#[test]
fn client_ignores_unknown_and_foreign_events() {
    for raw in [5usize, 9, 10, 77, 4294967295, usize::MAX] {
        let (mut client, _) = ClientSession::open();
        client.on_event(IpcEvent::ServerConnected);
        assert_eq!(client.on_event(IpcEvent::from_raw(raw)), ClientCommand::Nothing);
        assert_eq!(client.state(), ClientState::Idle);
        assert!(client.server_reachable());
    }
    for event in [IpcEvent::ClientConnected, IpcEvent::ClientDisconnected, IpcEvent::RequestSent] {
        let mut client = prompting();
        assert_eq!(client.on_event(event), ClientCommand::Nothing);
        assert_eq!(client.state(), ClientState::PromptingUser);
    }
}

#[test]
fn client_pulls_on_response_sent() {
    let (mut client, _) = ClientSession::open();
    assert_eq!(client.on_event(IpcEvent::ResponseSent), ClientCommand::Pull);
    assert_eq!(client.state(), ClientState::Idle);
}

#[test]
fn client_empty_pull_owes_nothing() {
    let (mut client, _) = ClientSession::open();
    assert_eq!(client.on_pulled(None), (None, None));
    assert_eq!(client.state(), ClientState::Idle);
}

#[test]
fn client_acknowledges_and_reads_a_response() {
    let (mut client, _) = ClientSession::open();
    let bytes = encode_response(&Response::FileSize(12));
    assert_eq!(
        client.on_pulled(Some(&bytes)),
        (Some(IpcEvent::ResponseReceived), Some(Ok(ResponseRef::FileSize(12))))
    );
    assert_eq!(client.state(), ClientState::Idle);
}

#[test]
fn client_reports_a_malformed_response() {
    let (mut client, _) = ClientSession::open();
    assert_eq!(
        client.on_pulled(Some(&[1, 0, 0])),
        (Some(IpcEvent::ResponseReceived), Some(Err(CodecError::Malformed)))
    );
    assert!(!client.is_exited());
}

#[test]
fn client_prompts_when_server_is_ready() {
    let client = prompting();
    assert_eq!(client.state(), ClientState::PromptingUser);
    assert!(client.server_reachable());
}

#[test]
fn client_turns_input_into_a_content_request() {
    let mut client = prompting();
    let bytes = client.on_input(Some(b"/tmp/f".to_vec())).unwrap();
    assert_eq!(decode_request(&bytes), Ok(Request::GetFileContent { path: b"/tmp/f".to_vec() }));
    assert_eq!(client.state(), ClientState::PromptingUser);
    assert_eq!(client.on_published(true), Ok(Some(IpcEvent::RequestSent)));
    assert_eq!(client.state(), ClientState::RequestInFlight);
}

#[test]
fn client_does_not_announce_a_failed_publish() {
    let mut client = prompting();
    client.on_event(IpcEvent::ServerConnected);
    assert!(client.on_input(Some(b"x".to_vec())).is_some());
    assert_eq!(client.on_published(false), Err(SessionError::TransportError));
    assert_ne!(client.state(), ClientState::RequestInFlight);
    assert_eq!(client.state(), ClientState::Exited);
    assert!(client.server_reachable());
    assert_eq!(client.close(), IpcEvent::ClientDisconnected);
}

#[test]
fn failed_publish_ends_the_session_from_any_state() {
    let (mut client, _) = ClientSession::open();
    assert_eq!(client.on_published(false), Err(SessionError::TransportError));
    assert!(client.is_exited());
    let mut client = prompting();
    client.on_input(Some(b"x".to_vec()));
    assert_eq!(client.on_published(true), Ok(Some(IpcEvent::RequestSent)));
    assert_eq!(client.on_published(false), Err(SessionError::TransportError));
    assert!(client.is_exited());
    assert_eq!(client.on_published(false), Err(SessionError::TransportError));
    assert!(client.is_exited());
}

#[test]
fn client_failed_pull_is_a_transport_error() {
    let mut client = prompting();
    assert_eq!(client.on_pull_failed(), SessionError::TransportError);
    assert_eq!(client.state(), ClientState::PromptingUser);
    client.on_deadline();
    assert_eq!(client.on_pull_failed(), SessionError::TransportError);
    assert_eq!(client.state(), ClientState::Exited);
}

#[test]
fn every_failure_stops_the_client() {
    for e in [
        SessionError::TransportUnavailable,
        SessionError::TransportError,
        SessionError::Malformed,
        SessionError::HandlerFailure(HandlerError::NotFound),
        SessionError::HandlerFailure(HandlerError::IoError),
        SessionError::DeadlineExceeded,
    ] {
        let mut client = prompting();
        assert!(client.on_failure(e));
        assert_eq!(client.state(), ClientState::Exited);
        assert!(client.server_reachable());
        assert!(client.on_failure(e));
        assert_eq!(client.state(), ClientState::Exited);
        let (mut client, _) = ClientSession::open();
        assert!(client.on_failure(e));
        assert!(client.is_exited());
        assert!(!client.server_reachable());
    }
}

#[test]
fn client_announces_a_publish_only_while_prompting() {
    let (mut client, _) = ClientSession::open();
    assert_eq!(client.on_published(true), Ok(None));
    assert_eq!(client.state(), ClientState::Idle);
    let mut client = prompting();
    client.on_input(Some(b"x".to_vec()));
    assert_eq!(client.on_published(true), Ok(Some(IpcEvent::RequestSent)));
    assert_eq!(client.on_published(true), Ok(None));
    assert_eq!(client.state(), ClientState::RequestInFlight);
}

#[test]
fn client_exits_when_input_ends() {
    let mut client = prompting();
    assert_eq!(client.on_input(None), None);
    assert_eq!(client.state(), ClientState::Exited);
    assert!(client.is_exited());
}

#[test]
fn client_takes_input_only_while_prompting() {
    let (mut client, _) = ClientSession::open();
    assert_eq!(client.on_input(Some(b"/tmp/f".to_vec())), None);
    assert_eq!(client.state(), ClientState::Idle);
    assert_eq!(client.on_input(None), None);
    assert_eq!(client.state(), ClientState::Idle);
}

#[test]
fn client_deadline_is_always_terminal() {
    let (mut client, _) = ClientSession::open();
    assert!(client.on_deadline());
    assert!(client.is_exited());
    let (mut client, _) = ClientSession::open();
    client.on_event(IpcEvent::ServerConnected);
    assert!(client.on_deadline());
    assert!(client.is_exited());
    assert!(client.server_reachable());
    assert!(!client.on_deadline());
}

#[test]
fn client_stays_exited() {
    let mut client = prompting();
    client.on_input(None);
    assert_eq!(client.on_event(IpcEvent::ServerReady), ClientCommand::Nothing);
    assert_eq!(client.on_event(IpcEvent::ResponseSent), ClientCommand::Nothing);
    assert_eq!(client.on_event(IpcEvent::ServerDisconnected), ClientCommand::Nothing);
    assert!(client.server_reachable());
    let bytes = encode_response(&Response::FileSize(1));
    assert_eq!(client.on_pulled(Some(&bytes)), (None, None));
    assert_eq!(client.on_input(Some(b"p".to_vec())), None);
    assert_eq!(client.on_published(true), Ok(None));
    assert_eq!(client.state(), ClientState::Exited);
}

#[test]
fn interrupt_while_prompting_exits_without_publishing() {
    let (mut client, hello) = ClientSession::open();
    let mut notes = vec![hello];
    assert_eq!(client.on_event(IpcEvent::ServerConnected), ClientCommand::RefreshConnections);
    assert_eq!(client.on_event(IpcEvent::ServerReady), ClientCommand::Prompt);
    assert_eq!(client.state(), ClientState::PromptingUser);
    let outgoing = client.on_input(None);
    assert_eq!(outgoing, None);
    assert!(client.is_exited());
    notes.push(client.close());
    assert_eq!(notes, vec![IpcEvent::ClientConnected, IpcEvent::ClientDisconnected]);
}

#[test]
fn only_a_line_gives_an_answer() {
    assert_eq!(PromptOutcome::Line(b"/tmp/f".to_vec()).into_answer(), Some(b"/tmp/f".to_vec()));
    assert_eq!(PromptOutcome::Line(Vec::new()).into_answer(), Some(Vec::new()));
    assert_eq!(PromptOutcome::Interrupted.into_answer(), None);
    assert_eq!(PromptOutcome::ReadFailed.into_answer(), None);
    assert_eq!(PromptOutcome::EndOfInput.into_answer(), None);
}
