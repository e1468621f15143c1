//! The per-viewer push session: handshake, registration, message loop and
//! teardown, as a state machine driven by the events that the connection
//! observes. The caller performs the returned action and feeds back what
//! happened.
use vstd::prelude::*;
use crate::hub::{fresh_entry, Registry};
use crate::models::{ESPActiveEvent, ESPRecievedEvent, ScopeView, SessionType, WsMessage};

verus! {

/// Where a session stands.
#[derive(Clone, Copy, Debug, PartialEq, Eq, Structural)]
pub enum Phase {
    /// Waiting for the viewer's first message, which must be an identify.
    AwaitingIdentify,
    /// The viewer asked for one device; waiting to learn whether it exists.
    Validating,
    /// Registered: pushing events and keepalives.
    Active,
    /// Terminal: the connection is to be dropped.
    Closed,
}

/// What the connection observed.
#[derive(Debug)]
pub enum SessionEvent {
    /// A protocol message arrived from the viewer.
    Received(WsMessage),
    /// The inbound stream failed, ended, or carried something that is not a
    /// protocol message.
    ReadFailed,
    /// The storage backend answered whether the requested device exists.
    DeviceChecked(bool),
    /// The storage backend could not answer.
    BackendFailed,
    /// The keepalive interval elapsed.
    KeepAliveTick,
    /// A data event is waiting in the session's queue.
    Data(ESPRecievedEvent),
    /// A status event is waiting in the session's queue.
    Status(ESPActiveEvent),
    /// Sending to the viewer failed.
    SendFailed,
}

/// What the caller is to do next.
#[derive(Debug)]
pub enum SessionAction {
    /// Nothing; wait for the next event.
    Wait,
    /// Ask the storage backend whether this device exists.
    CheckDevice(String),
    /// Send this message to the viewer.
    Send(WsMessage),
    /// Drop the connection.
    Close,
}

/// Relies on `rand::random::<u64>`: any value may come back.
#[verifier::external_body]
fn random_session_id() -> (r: u64) {
    rand::random::<u64>()
}

/// One viewer session.
#[derive(Debug)]
pub struct SessionMachine {
    session_id: u64,
    phase: Phase,
    pending: Option<SessionType>,
}

impl SessionMachine {
    pub closed spec fn id(&self) -> u64 {
        self.session_id
    }

    pub closed spec fn phase_of(&self) -> Phase {
        self.phase
    }

    /// The registry holds this session exactly while it is in its message
    /// loop.
    pub open spec fn in_sync(&self, registry: &Registry) -> bool {
        (self.phase_of() == Phase::Active) <==> registry@.contains_key(self.id())
    }

    /// The scope that the viewer asked for while it is being validated.
    pub closed spec fn requested(&self) -> ScopeView {
        match self.pending {
            Some(s) => s@,
            None => ScopeView::Main,
        }
    }

    /// A new session under the given id, waiting for its identify message.
    pub fn new(session_id: u64) -> (r: SessionMachine)
        ensures
            r.id() == session_id,
            r.phase_of() == Phase::AwaitingIdentify,
    {
        SessionMachine { session_id, phase: Phase::AwaitingIdentify, pending: None }
    }

    /// A new session under a freshly drawn random id.
    pub fn start() -> (r: SessionMachine)
        ensures
            r.phase_of() == Phase::AwaitingIdentify,
    {
        SessionMachine::new(random_session_id())
    }

    /// The session's id in the registry.
    pub fn session_id(&self) -> (r: u64)
        ensures
            r == self.id(),
    {
        self.session_id
    }

    /// Where the session stands.
    pub fn phase(&self) -> (r: Phase)
        ensures
            r == self.phase_of(),
    {
        self.phase
    }

    /// Advances the session by one observed event, registering it in or
    /// removing it from `registry` where the transition calls for it.
    ///
    /// - Waiting for identify: an identify for every device registers the
    ///   session; one for a single device asks for that device to be checked;
    ///   anything else closes the connection unregistered.
    /// - Validating: a device that exists registers the session with the
    ///   requested scope; a missing device or a backend failure closes it.
    /// - Active: a keepalive tick, a data event or a status event is sent to
    ///   the viewer; a failed send unregisters the session and closes it.
    /// - Closed stays closed.
    pub fn step(&mut self, registry: &mut Registry, ev: SessionEvent) -> (r: SessionAction)
        requires
            old(registry).wf(),
        ensures
            final(registry).wf(),
            final(self).id() == old(self).id(),
            old(self).in_sync(old(registry)) ==> final(self).in_sync(final(registry)),
            ({
                let id = old(self).id();
                match (old(self).phase_of(), ev) {
                    (Phase::AwaitingIdentify, SessionEvent::Received(WsMessage::Identify(SessionType::Main))) => {
                        &&& final(self).phase_of() == Phase::Active
                        &&& r is Wait
                        &&& final(registry)@ == old(registry)@.insert(id, fresh_entry(SessionType::Main@))
                    },
                    (Phase::AwaitingIdentify, SessionEvent::Received(WsMessage::Identify(SessionType::Child(x)))) => {
                        &&& final(self).phase_of() == Phase::Validating
                        &&& final(self).requested() == ScopeView::Child(x@)
                        &&& r matches SessionAction::CheckDevice(d) && d@ == x@
                        &&& final(registry)@ == old(registry)@
                    },
                    (Phase::AwaitingIdentify, _) => {
                        &&& final(self).phase_of() == Phase::Closed
                        &&& r is Close
                        &&& final(registry)@ == old(registry)@
                    },
                    (Phase::Validating, SessionEvent::DeviceChecked(true)) => {
                        &&& final(self).phase_of() == Phase::Active
                        &&& r is Wait
                        &&& final(registry)@ == old(registry)@.insert(id, fresh_entry(old(self).requested()))
                    },
                    (Phase::Validating, _) => {
                        &&& final(self).phase_of() == Phase::Closed
                        &&& r is Close
                        &&& final(registry)@ == old(registry)@
                    },
                    (Phase::Active, SessionEvent::KeepAliveTick) => {
                        &&& final(self).phase_of() == Phase::Active
                        &&& r matches SessionAction::Send(WsMessage::KeepAlive)
                        &&& final(registry)@ == old(registry)@
                    },
                    (Phase::Active, SessionEvent::Data(e)) => {
                        &&& final(self).phase_of() == Phase::Active
                        &&& r matches SessionAction::Send(WsMessage::Data(m)) && m@ == e@
                        &&& final(registry)@ == old(registry)@
                    },
                    (Phase::Active, SessionEvent::Status(e)) => {
                        &&& final(self).phase_of() == Phase::Active
                        &&& r matches SessionAction::Send(WsMessage::DeviceActive(m)) && m@ == e@
                        &&& final(registry)@ == old(registry)@
                    },
                    (Phase::Active, SessionEvent::SendFailed) => {
                        &&& final(self).phase_of() == Phase::Closed
                        &&& r is Close
                        &&& final(registry)@ == old(registry)@.remove(id)
                    },
                    (Phase::Active, _) => {
                        &&& final(self).phase_of() == Phase::Active
                        &&& r is Wait
                        &&& final(registry)@ == old(registry)@
                    },
                    (Phase::Closed, _) => {
                        &&& final(self).phase_of() == Phase::Closed
                        &&& r is Wait
                        &&& final(registry)@ == old(registry)@
                    },
                }
            }),
    {
        match self.phase {
            Phase::AwaitingIdentify => match ev {
                SessionEvent::Received(WsMessage::Identify(scope)) => match scope {
                    SessionType::Main => {
                        registry.register(self.session_id, SessionType::Main);
                        self.phase = Phase::Active;
                        SessionAction::Wait
                    },
                    SessionType::Child(x) => {
                        let d = x.clone();
                        self.pending = Some(SessionType::Child(x));
                        self.phase = Phase::Validating;
                        SessionAction::CheckDevice(d)
                    },
                },
                _ => {
                    self.phase = Phase::Closed;
                    SessionAction::Close
                },
            },
            Phase::Validating => match ev {
                SessionEvent::DeviceChecked(true) => {
                    let scope = match &self.pending {
                        Some(s) => s.duplicate(),
                        None => SessionType::Main,
                    };
                    registry.register(self.session_id, scope);
                    self.phase = Phase::Active;
                    SessionAction::Wait
                },
                _ => {
                    self.phase = Phase::Closed;
                    SessionAction::Close
                },
            },
            Phase::Active => match ev {
                SessionEvent::KeepAliveTick => SessionAction::Send(WsMessage::KeepAlive),
                SessionEvent::Data(e) => SessionAction::Send(WsMessage::Data(e)),
                SessionEvent::Status(e) => SessionAction::Send(WsMessage::DeviceActive(e)),
                SessionEvent::SendFailed => {
                    registry.unregister(self.session_id);
                    self.phase = Phase::Closed;
                    SessionAction::Close
                },
                _ => SessionAction::Wait,
            },
            Phase::Closed => SessionAction::Wait,
        }
    }
}

} // verus!
