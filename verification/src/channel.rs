//! How each peer lays out its channels, and what it does when opening them
//! fails.

use vstd::prelude::*;
use crate::error::SessionError;

verus! {

/// Name of the event channel that both peers share.
pub const EVENT_SERVICE_NAME: &'static str = "iceoryx2-request-response/event";

/// Name of the byte channel from client to server.
pub const C2S_SERVICE_NAME: &'static str = "iceoryx2-request-response/client-to-server";

/// Name of the byte channel from server to client.
pub const S2C_SERVICE_NAME: &'static str = "iceoryx2-request-response/server-to-client";

/// How many past messages a byte channel keeps for a peer that attaches
/// late; also the size of each receive buffer.
pub const HISTORY_SIZE: usize = 10;

/// Largest payload, in bytes, that is sent without growing the buffer.
pub const SLICE_SIZE_HINT: usize = 4096;

/// Which end of the session a process plays.
#[derive(Debug, Clone, Copy, PartialEq, Eq, Structural)]
pub enum Role {
    Client,
    Server,
}

/// The channels of one peer.
#[derive(Debug, Clone, Copy)]
pub struct ChannelPlan {
    /// The byte channel this peer publishes on.
    pub outbound: &'static str,
    /// The byte channel this peer subscribes to.
    pub inbound: &'static str,
    /// The event channel.
    pub events: &'static str,
    /// History depth of both byte channels.
    pub history_size: usize,
    /// Receive buffer size of both byte channels.
    pub buffer_size: usize,
    /// Initial payload capacity of the outbound port.
    pub slice_size_hint: usize,
}

impl Role {
    /// The other end.
    pub open spec fn peer(self) -> Role {
        match self {
            Role::Client => Role::Server,
            Role::Server => Role::Client,
        }
    }

    /// Name of the channel this role publishes on.
    pub open spec fn outbound_name(self) -> Seq<char> {
        match self {
            Role::Client => C2S_SERVICE_NAME@,
            Role::Server => S2C_SERVICE_NAME@,
        }
    }

    /// Selects the role from the process's mode flag.
    pub fn from_flag(server: bool) -> (role: Role)
        ensures
            role == (if server {
                Role::Server
            } else {
                Role::Client
            }),
    {
        if server {
            Role::Server
        } else {
            Role::Client
        }
    }

    /// The channels of this role: it publishes where its peer subscribes and
    /// subscribes where its peer publishes; the event channel and all sizes
    /// are the same on both ends.
    pub fn plan(self) -> (plan: ChannelPlan)
        ensures
            plan.outbound@ == self.outbound_name(),
            plan.inbound@ == self.peer().outbound_name(),
            plan.events@ == EVENT_SERVICE_NAME@,
            plan.history_size == HISTORY_SIZE,
            plan.buffer_size == HISTORY_SIZE,
            plan.slice_size_hint == SLICE_SIZE_HINT,
    {
        match self {
            Role::Client => ChannelPlan {
                outbound: C2S_SERVICE_NAME,
                inbound: S2C_SERVICE_NAME,
                events: EVENT_SERVICE_NAME,
                history_size: HISTORY_SIZE,
                buffer_size: HISTORY_SIZE,
                slice_size_hint: SLICE_SIZE_HINT,
            },
            Role::Server => ChannelPlan {
                outbound: S2C_SERVICE_NAME,
                inbound: C2S_SERVICE_NAME,
                events: EVENT_SERVICE_NAME,
                history_size: HISTORY_SIZE,
                buffer_size: HISTORY_SIZE,
                slice_size_hint: SLICE_SIZE_HINT,
            },
        }
    }
}

/// How an attempt to open the channels ended.
#[derive(Debug, Clone, Copy, PartialEq, Eq, Structural)]
pub enum OpenOutcome {
    /// The channels are open.
    Opened,
    /// A byte channel exists but cannot be used: a peer that died left it
    /// behind.
    Stale,
    /// The channels cannot be opened for another reason.
    Failed,
}

/// What to do after an attempt to open the channels.
#[derive(Debug, Clone, Copy, PartialEq, Eq, Structural)]
pub enum StartupStep {
    /// Go on with the open channels.
    Proceed,
    /// Remove what dead peers left behind, then open once more.
    CleanupAndRetry,
    /// Give up with the error of the first failed attempt.
    GiveUp(SessionError),
}

/// The step that follows an attempt to open the channels.
pub open spec fn startup_step(outcome: OpenOutcome, cleaned: bool) -> StartupStep {
    match outcome {
        OpenOutcome::Opened => StartupStep::Proceed,
        OpenOutcome::Stale => if cleaned {
            StartupStep::GiveUp(SessionError::TransportUnavailable)
        } else {
            StartupStep::CleanupAndRetry
        },
        OpenOutcome::Failed => StartupStep::GiveUp(SessionError::TransportUnavailable),
    }
}

/// Decides what follows an attempt to open the channels. `cleaned` says
/// whether the cleanup has been tried already: it is tried at most once.
pub fn after_open(outcome: OpenOutcome, cleaned: bool) -> (step: StartupStep)
    ensures
        step == startup_step(outcome, cleaned),
        step == StartupStep::CleanupAndRetry <==> outcome == OpenOutcome::Stale && !cleaned,
        step == StartupStep::Proceed <==> outcome == OpenOutcome::Opened,
{
    match outcome {
        OpenOutcome::Opened => StartupStep::Proceed,
        OpenOutcome::Stale => if cleaned {
            StartupStep::GiveUp(SessionError::TransportUnavailable)
        } else {
            StartupStep::CleanupAndRetry
        },
        OpenOutcome::Failed => StartupStep::GiveUp(SessionError::TransportUnavailable),
    }
}

/// The two peers' plans fit together: each publishes on the channel the
/// other subscribes to.
pub proof fn lemma_plans_are_complementary(role: Role)
    ensures
        role.peer().peer() == role,
        role.peer().outbound_name() != role.outbound_name(),
{
    reveal_strlit("iceoryx2-request-response/client-to-server");
    reveal_strlit("iceoryx2-request-response/server-to-client");
    let a = C2S_SERVICE_NAME@;
    let b = S2C_SERVICE_NAME@;
    assert(a[26] == 'c');
    assert(b[26] == 's');
}

} // verus!
