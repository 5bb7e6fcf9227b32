use request_response::codec::{encode_request, CodecError};
use request_response::error::{HandlerError, SessionError};
use request_response::events::IpcEvent;
use request_response::messages::{Request, Response};
use request_response::server::{
    DeadlineVerdict, ServerCommand, ServerSession, ServerState, SERVER_DEADLINE_SECS,
};

fn attached() -> ServerSession {
    let (mut server, _, _) = ServerSession::open();
    server.on_event(IpcEvent::ClientConnected);
    server
}

#[test]
fn server_opens_idle_and_announces_connected_then_ready() {
    let (server, first, second) = ServerSession::open();
    assert_eq!(first, IpcEvent::ServerConnected);
    assert_eq!(second, IpcEvent::ServerReady);
    assert_eq!(server.state(), ServerState::Idle);
    assert!(!server.has_client());
    assert!(!server.is_exited());
    assert_eq!(SERVER_DEADLINE_SECS, 15);
}

#[test]
fn server_close_announces_disconnection() {
    assert_eq!(attached().close(), IpcEvent::ServerDisconnected);
    let (mut server, _, _) = ServerSession::open();
    server.on_deadline();
    assert_eq!(server.close(), IpcEvent::ServerDisconnected);
}

#[test]
fn server_attaches_on_client_connected() {
    let (mut server, _, _) = ServerSession::open();
    assert_eq!(
        server.on_event(IpcEvent::ClientConnected),
        (ServerCommand::RefreshConnections, Some(IpcEvent::ServerReady))
    );
    assert_eq!(server.state(), ServerState::Attached);
    assert!(server.has_client());
}

#[test]
fn server_detaches_on_client_disconnected() {
    let mut server = attached();
    assert_eq!(server.on_event(IpcEvent::ClientDisconnected), (ServerCommand::Nothing, None));
    assert_eq!(server.state(), ServerState::Idle);
    assert!(!server.has_client());
}

#[test]
fn server_is_not_attached_before_a_client_connects() {
    let (mut server, _, _) = ServerSession::open();
    for event in [
        IpcEvent::ServerConnected,
        IpcEvent::ServerDisconnected,
        IpcEvent::ClientDisconnected,
        IpcEvent::RequestSent,
        IpcEvent::RequestReceived,
        IpcEvent::ResponseSent,
        IpcEvent::ResponseReceived,
        IpcEvent::ServerReady,
        IpcEvent::ProcessDied,
        IpcEvent::Unknown,
    ] {
        server.on_event(event);
        assert!(!server.has_client());
    }
    let bytes = encode_request(&Request::GetFileSize { path: b"a".to_vec() });
    server.on_pulled(Some(&bytes));
    server.on_pulled(None);
    let _ = server.on_published(true);
    assert_eq!(server.state(), ServerState::Idle);
}

#[test]
fn server_ignores_unknown_events() {
    for raw in [10usize, 99, 4294967295, usize::MAX] {
        let mut server = attached();
        assert_eq!(server.on_event(IpcEvent::from_raw(raw)), (ServerCommand::Nothing, None));
        assert_eq!(server.state(), ServerState::Attached);
        let (mut server, _, _) = ServerSession::open();
        assert_eq!(server.on_event(IpcEvent::from_raw(raw)), (ServerCommand::Nothing, None));
        assert_eq!(server.state(), ServerState::Idle);
    }
}

#[test]
fn server_pulls_on_request_sent() {
    let mut server = attached();
    assert_eq!(server.on_event(IpcEvent::RequestSent), (ServerCommand::Pull, None));
    assert_eq!(server.state(), ServerState::Attached);
}

#[test]
fn server_empty_pull_changes_nothing() {
    let mut server = attached();
    assert_eq!(server.on_pulled(None), (None, None));
    assert_eq!(server.state(), ServerState::Attached);
    let (mut server, _, _) = ServerSession::open();
    assert_eq!(server.on_pulled(None), (None, None));
    assert_eq!(server.state(), ServerState::Idle);
}

#[test]
fn server_acknowledges_and_reads_a_request() {
    let mut server = attached();
    let request = Request::GetFileSize { path: b"/etc/hosts".to_vec() };
    let bytes = encode_request(&request);
    assert_eq!(
        server.on_pulled(Some(&bytes)),
        (Some(IpcEvent::RequestReceived), Some(Ok(request)))
    );
}

#[test]
fn server_reports_a_malformed_request() {
    let mut server = attached();
    assert_eq!(
        server.on_pulled(Some(&[7, 7, 7, 7, 0, 0, 0, 0, 0, 0, 0, 0])),
        (Some(IpcEvent::RequestReceived), Some(Err(CodecError::Malformed)))
    );
    assert_eq!(server.state(), ServerState::Attached);
}

#[test]
fn server_encodes_what_the_handler_returns() {
    let server = attached();
    assert_eq!(
        server.on_handled(Ok(Response::FileSize(6))),
        Ok(vec![0, 0, 0, 0, 6, 0, 0, 0, 0, 0, 0, 0])
    );
    assert_eq!(
        server.on_handled(Ok(Response::FileContent(vec![1]))),
        Ok(vec![1, 0, 0, 0, 1, 0, 0, 0, 0, 0, 0, 0, 1])
    );
}

#[test]
fn server_passes_handler_failures_on() {
    let server = attached();
    assert_eq!(
        server.on_handled(Err(HandlerError::NotFound)),
        Err(SessionError::HandlerFailure(HandlerError::NotFound))
    );
    assert_eq!(
        server.on_handled(Err(HandlerError::IoError)),
        Err(SessionError::HandlerFailure(HandlerError::IoError))
    );
}

#[test]
fn server_announces_a_published_response() {
    let server = attached();
    assert_eq!(server.on_published(true), Ok(Some(IpcEvent::ResponseSent)));
    assert_eq!(server.on_published(false), Err(SessionError::TransportError));
}

#[test]
fn server_failed_pull_is_a_transport_error() {
    let server = attached();
    assert_eq!(server.on_pull_failed(), SessionError::TransportError);
    assert_eq!(server.state(), ServerState::Attached);
    let (server, _, _) = ServerSession::open();
    assert_eq!(server.on_pull_failed(), SessionError::TransportError);
    assert_eq!(server.state(), ServerState::Idle);
}

#[test]
fn server_survives_only_a_deadline_with_a_client() {
    let mut server = attached();
    assert!(!server.on_failure(SessionError::DeadlineExceeded));
    assert_eq!(server.state(), ServerState::Attached);
    let (mut server, _, _) = ServerSession::open();
    assert!(server.on_failure(SessionError::DeadlineExceeded));
    assert_eq!(server.state(), ServerState::Exited);
    for e in [
        SessionError::TransportUnavailable,
        SessionError::TransportError,
        SessionError::Malformed,
        SessionError::HandlerFailure(HandlerError::NotFound),
        SessionError::HandlerFailure(HandlerError::IoError),
    ] {
        let mut server = attached();
        assert!(server.on_failure(e));
        assert_eq!(server.state(), ServerState::Exited);
        assert!(server.on_failure(e));
        let (mut server, _, _) = ServerSession::open();
        assert!(server.on_failure(e));
        assert!(server.is_exited());
    }
}

#[test]
fn server_rearms_client_after_response_received() {
    let mut server = attached();
    assert_eq!(
        server.on_event(IpcEvent::ResponseReceived),
        (ServerCommand::Nothing, Some(IpcEvent::ServerReady))
    );
    assert_eq!(server.state(), ServerState::Attached);
}

#[test]
fn deadline_without_client_shuts_down() {
    let (mut server, _, _) = ServerSession::open();
    assert_eq!(server.on_deadline(), DeadlineVerdict::Shutdown);
    assert_eq!(server.state(), ServerState::Exited);
    assert!(server.is_exited());
}

#[test]
fn deadline_with_client_warns_and_waits() {
    let mut server = attached();
    assert_eq!(server.on_deadline(), DeadlineVerdict::WarnAndWait);
    assert_eq!(server.state(), ServerState::Attached);
    assert_eq!(server.on_deadline(), DeadlineVerdict::WarnAndWait);
    server.on_event(IpcEvent::ClientDisconnected);
    assert_eq!(server.on_deadline(), DeadlineVerdict::Shutdown);
    assert!(server.is_exited());
}

#[test]
fn server_stays_exited() {
    let (mut server, _, _) = ServerSession::open();
    server.on_deadline();
    assert_eq!(server.on_event(IpcEvent::ClientConnected), (ServerCommand::Nothing, None));
    assert_eq!(server.on_event(IpcEvent::ResponseReceived), (ServerCommand::Nothing, None));
    let bytes = encode_request(&Request::GetFileSize { path: b"a".to_vec() });
    assert_eq!(server.on_pulled(Some(&bytes)), (None, None));
    assert_eq!(server.on_published(true), Ok(None));
    assert_eq!(server.on_deadline(), DeadlineVerdict::Shutdown);
    assert_eq!(server.state(), ServerState::Exited);
}
