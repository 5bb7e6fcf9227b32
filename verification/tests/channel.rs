use request_response::channel::{
    after_open, OpenOutcome, Role, StartupStep, C2S_SERVICE_NAME, EVENT_SERVICE_NAME,
    HISTORY_SIZE, S2C_SERVICE_NAME, SLICE_SIZE_HINT,
};
use request_response::codec::CodecError;
use request_response::error::SessionError;

#[test]
fn channel_names_and_sizes() {
    assert_eq!(EVENT_SERVICE_NAME, "iceoryx2-request-response/event");
    assert_eq!(C2S_SERVICE_NAME, "iceoryx2-request-response/client-to-server");
    assert_eq!(S2C_SERVICE_NAME, "iceoryx2-request-response/server-to-client");
    assert_eq!(HISTORY_SIZE, 10);
    assert_eq!(SLICE_SIZE_HINT, 4096);
}

#[test]
fn role_follows_the_mode_flag() {
    assert_eq!(Role::from_flag(true), Role::Server);
    assert_eq!(Role::from_flag(false), Role::Client);
}

#[test]
fn plans_mirror_each_other() {
    let client = Role::Client.plan();
    let server = Role::Server.plan();
    assert_eq!(client.outbound, C2S_SERVICE_NAME);
    assert_eq!(client.inbound, S2C_SERVICE_NAME);
    assert_eq!(server.outbound, client.inbound);
    assert_eq!(server.inbound, client.outbound);
    assert_eq!(client.events, EVENT_SERVICE_NAME);
    assert_eq!(server.events, EVENT_SERVICE_NAME);
    for plan in [client, server] {
        assert_eq!(plan.history_size, 10);
        assert_eq!(plan.buffer_size, 10);
        assert_eq!(plan.slice_size_hint, 4096);
    }
}

#[test]
fn cleanup_is_tried_once() {
    assert_eq!(after_open(OpenOutcome::Opened, false), StartupStep::Proceed);
    assert_eq!(after_open(OpenOutcome::Opened, true), StartupStep::Proceed);
    assert_eq!(after_open(OpenOutcome::Stale, false), StartupStep::CleanupAndRetry);
    assert_eq!(
        after_open(OpenOutcome::Stale, true),
        StartupStep::GiveUp(SessionError::TransportUnavailable)
    );
    assert_eq!(
        after_open(OpenOutcome::Failed, false),
        StartupStep::GiveUp(SessionError::TransportUnavailable)
    );
    assert_eq!(
        after_open(OpenOutcome::Failed, true),
        StartupStep::GiveUp(SessionError::TransportUnavailable)
    );
}

#[test]
fn codec_errors_become_malformed() {
    assert_eq!(SessionError::from_codec(CodecError::Malformed), SessionError::Malformed);
}
