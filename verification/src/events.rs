//! The closed set of protocol events and their stable integer encoding.

use vstd::prelude::*;

verus! {

/// Raw identifier reserved for [`IpcEvent::Unknown`].
pub const UNKNOWN_EVENT_ID: usize = 4294967295;

/// Number of events that carry a meaning; their identifiers are `0..KNOWN_EVENTS`.
pub const KNOWN_EVENTS: usize = 10;

/// A payload-free signal exchanged between the two peers.
#[derive(Debug, Clone, Copy, PartialEq, Eq, Structural)]
pub enum IpcEvent {
    ServerConnected,
    ServerDisconnected,
    ClientConnected,
    ClientDisconnected,
    RequestSent,
    RequestReceived,
    ResponseSent,
    ResponseReceived,
    ServerReady,
    ProcessDied,
    Unknown,
}

impl IpcEvent {
    /// The identifier under which this event travels.
    pub open spec fn raw(self) -> usize {
        match self {
            IpcEvent::ServerConnected => 0,
            IpcEvent::ServerDisconnected => 1,
            IpcEvent::ClientConnected => 2,
            IpcEvent::ClientDisconnected => 3,
            IpcEvent::RequestSent => 4,
            IpcEvent::RequestReceived => 5,
            IpcEvent::ResponseSent => 6,
            IpcEvent::ResponseReceived => 7,
            IpcEvent::ServerReady => 8,
            IpcEvent::ProcessDied => 9,
            IpcEvent::Unknown => UNKNOWN_EVENT_ID,
        }
    }

    /// The event that an identifier stands for; total, with `Unknown` as the
    /// fallback for every identifier that has no meaning.
    pub open spec fn of_raw(raw: usize) -> IpcEvent {
        if raw == 0 {
            IpcEvent::ServerConnected
        } else if raw == 1 {
            IpcEvent::ServerDisconnected
        } else if raw == 2 {
            IpcEvent::ClientConnected
        } else if raw == 3 {
            IpcEvent::ClientDisconnected
        } else if raw == 4 {
            IpcEvent::RequestSent
        } else if raw == 5 {
            IpcEvent::RequestReceived
        } else if raw == 6 {
            IpcEvent::ResponseSent
        } else if raw == 7 {
            IpcEvent::ResponseReceived
        } else if raw == 8 {
            IpcEvent::ServerReady
        } else if raw == 9 {
            IpcEvent::ProcessDied
        } else {
            IpcEvent::Unknown
        }
    }

    /// Encodes the event as its identifier.
    pub fn to_raw(self) -> (raw: usize)
        ensures
            raw == self.raw(),
    {
        match self {
            IpcEvent::ServerConnected => 0,
            IpcEvent::ServerDisconnected => 1,
            IpcEvent::ClientConnected => 2,
            IpcEvent::ClientDisconnected => 3,
            IpcEvent::RequestSent => 4,
            IpcEvent::RequestReceived => 5,
            IpcEvent::ResponseSent => 6,
            IpcEvent::ResponseReceived => 7,
            IpcEvent::ServerReady => 8,
            IpcEvent::ProcessDied => 9,
            IpcEvent::Unknown => UNKNOWN_EVENT_ID,
        }
    }

    /// Decodes an identifier. Never fails: an identifier without a meaning
    /// gives `Unknown`.
    pub fn from_raw(raw: usize) -> (event: IpcEvent)
        ensures
            event == IpcEvent::of_raw(raw),
            raw >= KNOWN_EVENTS ==> event == IpcEvent::Unknown,
            event != IpcEvent::Unknown ==> event.raw() == raw,
    {
        match raw {
            0 => IpcEvent::ServerConnected,
            1 => IpcEvent::ServerDisconnected,
            2 => IpcEvent::ClientConnected,
            3 => IpcEvent::ClientDisconnected,
            4 => IpcEvent::RequestSent,
            5 => IpcEvent::RequestReceived,
            6 => IpcEvent::ResponseSent,
            7 => IpcEvent::ResponseReceived,
            8 => IpcEvent::ServerReady,
            9 => IpcEvent::ProcessDied,
            _ => IpcEvent::Unknown,
        }
    }

    /// Decodes a batch of drained identifiers, one event for each, in the
    /// order in which they were queued.
    pub fn decode_all(raws: &[usize]) -> (events: Vec<IpcEvent>)
        ensures
            events@.len() == raws@.len(),
            forall|i: int| 0 <= i < raws@.len() ==> events@[i] == IpcEvent::of_raw(raws@[i]),
    {
        let mut events: Vec<IpcEvent> = Vec::new();
        let mut i: usize = 0;
        while i < raws.len()
            invariant
                i <= raws@.len(),
                events@.len() == i,
                forall|j: int| 0 <= j < i ==> events@[j] == IpcEvent::of_raw(raws@[j]),
            decreases raws@.len() - i,
        {
            events.push(IpcEvent::from_raw(raws[i]));
            i += 1;
        }
        events
    }

    /// Whether the event is one of the named ones.
    pub fn is_known(self) -> (known: bool)
        ensures
            known == (self != IpcEvent::Unknown),
    {
        match self {
            IpcEvent::Unknown => false,
            _ => true,
        }
    }
}

impl From<usize> for IpcEvent {
    fn from(raw: usize) -> (event: IpcEvent) {
        IpcEvent::from_raw(raw)
    }
}

impl vstd::std_specs::convert::FromSpecImpl<usize> for IpcEvent {
    open spec fn obeys_from_spec() -> bool {
        true
    }

    open spec fn from_spec(raw: usize) -> IpcEvent {
        IpcEvent::of_raw(raw)
    }
}

impl From<IpcEvent> for usize {
    fn from(event: IpcEvent) -> (raw: usize) {
        event.to_raw()
    }
}

impl vstd::std_specs::convert::FromSpecImpl<IpcEvent> for usize {
    open spec fn obeys_from_spec() -> bool {
        true
    }

    open spec fn from_spec(event: IpcEvent) -> usize {
        event.raw()
    }
}

/// An optional notification as the sequence of notifications it stands for.
pub open spec fn note_seq(note: Option<IpcEvent>) -> Seq<IpcEvent> {
    match note {
        Some(event) => seq![event],
        None => Seq::empty(),
    }
}

/// Decoding undoes encoding: every event, `Unknown` included, comes back from
/// its own identifier.
pub proof fn lemma_event_round_trip(event: IpcEvent)
    ensures
        IpcEvent::of_raw(event.raw()) == event,
{
}

/// Every identifier outside the named range decodes to `Unknown`.
pub proof fn lemma_out_of_range_is_unknown(raw: usize)
    requires
        raw >= KNOWN_EVENTS,
    ensures
        IpcEvent::of_raw(raw) == IpcEvent::Unknown,
{
}

/// Two events that share an identifier are the same event.
pub proof fn lemma_raw_is_injective(a: IpcEvent, b: IpcEvent)
    requires
        a.raw() == b.raw(),
    ensures
        a == b,
{
}

} // verus!
