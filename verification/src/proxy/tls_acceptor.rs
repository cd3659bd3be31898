//! What the listener does, and when.
//!
//! The listener waits until an identity is there, binds its socket, and then
//! takes connections one by one.  Each connection is served with the identity
//! that the slot held when the connection was taken.  As with the manager,
//! the decisions are made here and carried out by the driver.

use crate::error::{Error, ErrorView};
use vstd::prelude::*;
use vstd::string::*;

verus! {

/// Where the listener stands.
#[derive(Debug, Clone, Copy, PartialEq, Eq, Structural)]
pub enum ListenerPhase {
    /// No identity has been seen yet.
    AwaitingIdentity,
    /// An identity is there; the socket is being bound.
    Binding,
    /// The socket is bound and connections are taken.
    Accepting,
    /// Shut down.  Nothing follows.
    Stopped,
    /// The source of identities closed before it gave one.  Nothing follows.
    SourceLost,
    /// The socket could not be bound.  Nothing follows.
    BindRefused,
}

/// What the driver reports back.
#[derive(Debug, Clone, Copy, PartialEq, Eq, Structural)]
pub enum ListenerEvent {
    /// The slot changed; `present` tells whether it now holds an identity.
    IdentityChanged { present: bool },
    /// The source of identities is gone.
    SourceClosed,
    /// Shutdown was signalled.
    Shutdown,
    /// The socket is bound.
    Bound,
    /// The socket could not be bound.
    BindFailed,
    /// A connection was taken; `identity_present` tells whether the slot held
    /// an identity at that moment.
    Accepted { identity_present: bool },
    /// Taking a connection failed.
    AcceptFailed,
}

/// What the driver is to do next.
#[derive(Debug, Clone, Copy, PartialEq, Eq, Structural)]
pub enum ListenerAction {
    /// Wait for the slot to change, or for shutdown.
    AwaitIdentity,
    /// Bind the listening socket.
    Bind,
    /// Take the next connection, or notice shutdown.
    Accept,
    /// Hand the connection just taken, with the identity seen when it was
    /// taken, to a task of its own; then take the next connection.
    Serve,
    /// Close the connection just taken; then take the next connection.
    Drop,
    /// Leave without error.
    Stop,
    /// Leave with the error of [`source_lost`].
    FailSourceLost,
    /// Leave with the error that binding gave.
    FailBind,
}

/// The action that a phase waits for.
pub open spec fn listener_pending(phase: ListenerPhase) -> ListenerAction {
    match phase {
        ListenerPhase::AwaitingIdentity => ListenerAction::AwaitIdentity,
        ListenerPhase::Binding => ListenerAction::Bind,
        ListenerPhase::Accepting => ListenerAction::Accept,
        ListenerPhase::Stopped => ListenerAction::Stop,
        ListenerPhase::SourceLost => ListenerAction::FailSourceLost,
        ListenerPhase::BindRefused => ListenerAction::FailBind,
    }
}

/// The phase in which the listener begins, given whether the slot holds an
/// identity already.
pub open spec fn listener_start(identity_present: bool) -> ListenerPhase {
    if identity_present {
        ListenerPhase::Binding
    } else {
        ListenerPhase::AwaitingIdentity
    }
}

/// The phase that follows on an event.  An event that the phase does not
/// wait for changes nothing.
pub open spec fn listener_next(phase: ListenerPhase, event: ListenerEvent) -> ListenerPhase {
    match (phase, event) {
        (ListenerPhase::AwaitingIdentity, ListenerEvent::IdentityChanged { present }) => {
            listener_start(present)
        },
        (ListenerPhase::AwaitingIdentity, ListenerEvent::SourceClosed) => ListenerPhase::SourceLost,
        (ListenerPhase::AwaitingIdentity, ListenerEvent::Shutdown) => ListenerPhase::Stopped,
        (ListenerPhase::Binding, ListenerEvent::Bound) => ListenerPhase::Accepting,
        (ListenerPhase::Binding, ListenerEvent::BindFailed) => ListenerPhase::BindRefused,
        (ListenerPhase::Accepting, ListenerEvent::Shutdown) => ListenerPhase::Stopped,
        _ => phase,
    }
}

/// The action that answers an event.  A connection that was taken is served
/// if an identity was there and closed if none was; everything else is
/// answered with what the next phase waits for.
pub open spec fn listener_answer(phase: ListenerPhase, event: ListenerEvent) -> ListenerAction {
    match (phase, event) {
        (ListenerPhase::Accepting, ListenerEvent::Accepted { identity_present }) => {
            if identity_present {
                ListenerAction::Serve
            } else {
                ListenerAction::Drop
            }
        },
        _ => listener_pending(listener_next(phase, event)),
    }
}

/// The failure of a listener whose source of identities closed too early.
pub open spec fn source_lost_error() -> ErrorView {
    ErrorView::Tls("config channel closed before receiving certificate"@)
}

/// The listener of one keeper.
#[derive(Debug)]
pub struct Listener {
    phase: ListenerPhase,
}

impl View for Listener {
    type V = ListenerPhase;

    /// Where the listener stands.
    closed spec fn view(&self) -> ListenerPhase {
        self.phase
    }
}

/// Starts a listener.  It binds at once if the slot holds an identity, and
/// waits for one otherwise.
pub fn run(identity_present: bool) -> (out: (Listener, ListenerAction))
    ensures
        out.0@ == listener_start(identity_present),
        out.1 == listener_pending(listener_start(identity_present)),
{
    if identity_present {
        (Listener { phase: ListenerPhase::Binding }, ListenerAction::Bind)
    } else {
        (Listener { phase: ListenerPhase::AwaitingIdentity }, ListenerAction::AwaitIdentity)
    }
}

/// The failure with which a listener leaves whose source of identities
/// closed before it gave one.
pub fn source_lost() -> (e: Error)
    ensures
        e@ == source_lost_error(),
{
    Error::Tls(String::from_str("config channel closed before receiving certificate"))
}

impl Listener {
    /// Where the listener stands.
    pub fn phase(&self) -> (phase: ListenerPhase)
        ensures
            phase == self@,
    {
        self.phase
    }

    /// Takes the outcome of the last action and says what to do next.
    pub fn step(&mut self, event: ListenerEvent) -> (action: ListenerAction)
        ensures
            final(self)@ == listener_next(old(self)@, event),
            action == listener_answer(old(self)@, event),
    {
        let (phase, action) = match (self.phase, event) {
            (ListenerPhase::AwaitingIdentity, ListenerEvent::IdentityChanged { present }) => {
                if present {
                    (ListenerPhase::Binding, ListenerAction::Bind)
                } else {
                    (ListenerPhase::AwaitingIdentity, ListenerAction::AwaitIdentity)
                }
            },
            (ListenerPhase::AwaitingIdentity, ListenerEvent::SourceClosed) => (
                ListenerPhase::SourceLost,
                ListenerAction::FailSourceLost,
            ),
            (ListenerPhase::AwaitingIdentity, ListenerEvent::Shutdown) => (
                ListenerPhase::Stopped,
                ListenerAction::Stop,
            ),
            (ListenerPhase::Binding, ListenerEvent::Bound) => (
                ListenerPhase::Accepting,
                ListenerAction::Accept,
            ),
            (ListenerPhase::Binding, ListenerEvent::BindFailed) => (
                ListenerPhase::BindRefused,
                ListenerAction::FailBind,
            ),
            (ListenerPhase::Accepting, ListenerEvent::Shutdown) => (
                ListenerPhase::Stopped,
                ListenerAction::Stop,
            ),
            (ListenerPhase::Accepting, ListenerEvent::Accepted { identity_present }) => {
                if identity_present {
                    (ListenerPhase::Accepting, ListenerAction::Serve)
                } else {
                    (ListenerPhase::Accepting, ListenerAction::Drop)
                }
            },
            (ListenerPhase::AwaitingIdentity, _) => (
                ListenerPhase::AwaitingIdentity,
                ListenerAction::AwaitIdentity,
            ),
            (ListenerPhase::Binding, _) => (ListenerPhase::Binding, ListenerAction::Bind),
            (ListenerPhase::Accepting, _) => (ListenerPhase::Accepting, ListenerAction::Accept),
            (ListenerPhase::Stopped, _) => (ListenerPhase::Stopped, ListenerAction::Stop),
            (ListenerPhase::SourceLost, _) => (
                ListenerPhase::SourceLost,
                ListenerAction::FailSourceLost,
            ),
            (ListenerPhase::BindRefused, _) => (ListenerPhase::BindRefused, ListenerAction::FailBind),
        };
        self.phase = phase;
        action
    }
}

/// The phase after a whole sequence of events.
pub open spec fn listener_run(start: ListenerPhase, events: Seq<ListenerEvent>) -> ListenerPhase
    decreases events.len(),
{
    if events.len() == 0 {
        start
    } else {
        listener_next(listener_run(start, events.drop_last()), events.last())
    }
}

/// Whether one of the events reports that the slot holds an identity.
pub open spec fn identity_announced(events: Seq<ListenerEvent>) -> bool {
    exists|i: int|
        0 <= i < events.len() && #[trigger] events[i] == (ListenerEvent::IdentityChanged {
            present: true,
        })
}

/// Whether the listener has a socket, or is about to have one.
pub open spec fn listens(phase: ListenerPhase) -> bool {
    phase == ListenerPhase::Binding || phase == ListenerPhase::Accepting
}

/// Startup ordering.  A listener that began without an identity binds and
/// takes connections only after it was told that the slot holds one.
pub proof fn no_listening_before_an_identity(events: Seq<ListenerEvent>)
    ensures
        listens(listener_run(listener_start(false), events)) ==> identity_announced(events),
    decreases events.len(),
{
    if events.len() > 0 {
        let before = events.drop_last();
        no_listening_before_an_identity(before);
        if listens(listener_run(listener_start(false), events)) {
            if listens(listener_run(listener_start(false), before)) {
                let i = choose|i: int|
                    0 <= i < before.len() && #[trigger] before[i] == (
                    ListenerEvent::IdentityChanged { present: true });
                assert(events[i] == before[i]);
            } else {
                assert(events[events.len() - 1] == events.last());
            }
        }
    }
}

/// No connection is served or closed, and none is asked for, unless the
/// listener has its socket.
pub proof fn connections_need_a_socket(phase: ListenerPhase, event: ListenerEvent)
    ensures
        listener_answer(phase, event) == ListenerAction::Serve || listener_answer(phase, event)
            == ListenerAction::Drop ==> phase == ListenerPhase::Accepting,
        listener_answer(phase, event) == ListenerAction::Accept ==> listens(phase),
        listener_answer(phase, event) == ListenerAction::Serve ==> event == (
        ListenerEvent::Accepted { identity_present: true }),
{
}

/// Once the listener has left, whether shut down or failed, nothing brings
/// it back.
pub proof fn leaving_is_final(phase: ListenerPhase, events: Seq<ListenerEvent>)
    requires
        phase == ListenerPhase::Stopped || phase == ListenerPhase::SourceLost || phase
            == ListenerPhase::BindRefused,
    ensures
        listener_run(phase, events) == phase,
    decreases events.len(),
{
    if events.len() > 0 {
        leaving_is_final(phase, events.drop_last());
    }
}

} // verus!
