//! The keeper as a whole: manager, slot and listener together.
//!
//! Each of the three has its own rules.  Here they are put side by side, with
//! a driver that does as it is told: it puts material into the slot when the
//! manager has it published, and it tells the listener the truth about the
//! slot.  What then holds of every run is stated and proved below.

use crate::cert::laws::{is_failure, publishes};
use crate::cert::manager::{Event, Phase, State};
use crate::proxy::tls_acceptor::{
    listener_answer, listener_next, listener_start, ListenerAction, ListenerEvent, ListenerPhase,
};
use vstd::prelude::*;

verus! {

/// Manager, slot and listener at one moment.
pub struct Keeper {
    pub manager: State,
    /// What the slot holds: nothing, or the serial number of the identity
    /// published last, the first being number one.
    pub slot: Option<nat>,
    pub listener: ListenerPhase,
}

/// Something that the driver reports, to the manager or to the listener.
pub enum Happening {
    Manager(Event),
    Listener(ListenerEvent),
}

impl Keeper {
    /// The keeper before anything has happened: the manager about to start,
    /// the slot empty, the listener waiting for an identity.
    pub open spec fn initial() -> Keeper {
        Keeper { manager: State::initial(), slot: None, listener: listener_start(false) }
    }

    /// Whether a truthful driver can report this now: what it tells the
    /// listener about the slot is what the slot holds.
    pub open spec fn admits(self, happening: Happening) -> bool {
        match happening {
            Happening::Listener(ListenerEvent::IdentityChanged { present }) => present == (
            self.slot is Some),
            Happening::Listener(ListenerEvent::Accepted { identity_present }) => identity_present
                == (self.slot is Some),
            _ => true,
        }
    }

    /// The serial number of the identity after this one.
    pub open spec fn following(self) -> nat {
        match self.slot {
            Some(serial) => serial + 1,
            None => 1,
        }
    }

    /// The keeper after one happening.  The slot changes when, and only when,
    /// the manager is told that what it asked to have published is published.
    pub open spec fn next(self, happening: Happening) -> Keeper {
        match happening {
            Happening::Manager(event) => Keeper {
                manager: self.manager.next(event),
                slot: if publishes(self.manager.phase) && event == Event::Published {
                    Some(self.following())
                } else {
                    self.slot
                },
                listener: self.listener,
            },
            Happening::Listener(event) => Keeper {
                listener: listener_next(self.listener, event),
                ..self
            },
        }
    }

    /// Whether the listener answers the happening by serving a connection.
    pub open spec fn serves(self, happening: Happening) -> bool {
        match happening {
            Happening::Listener(event) => listener_answer(self.listener, event)
                == ListenerAction::Serve,
            Happening::Manager(_) => false,
        }
    }

    /// What holds at every moment of every run: a listener that has or is
    /// about to have its socket has seen an identity in the slot.
    pub open spec fn inv(self) -> bool {
        (self.listener == ListenerPhase::Binding || self.listener == ListenerPhase::Accepting)
            ==> self.slot is Some
    }
}

/// Whether a truthful driver can report the happenings one after the other.
pub open spec fn admissible(start: Keeper, happenings: Seq<Happening>) -> bool
    decreases happenings.len(),
{
    happenings.len() == 0 || (admissible(start, happenings.drop_last()) && keeper_run(
        start,
        happenings.drop_last(),
    ).admits(happenings.last()))
}

/// The keeper after a whole sequence of happenings.
pub open spec fn keeper_run(start: Keeper, happenings: Seq<Happening>) -> Keeper
    decreases happenings.len(),
{
    if happenings.len() == 0 {
        start
    } else {
        keeper_run(start, happenings.drop_last()).next(happenings.last())
    }
}

/// One happening keeps what holds at every moment, and never empties the
/// slot or turns its serial number back.
pub proof fn one_step_keeps_the_identity(keeper: Keeper, happening: Happening)
    requires
        keeper.inv(),
        keeper.admits(happening),
    ensures
        keeper.next(happening).inv(),
        keeper.slot is Some ==> keeper.next(happening).slot is Some && keeper.next(
            happening,
        ).slot->0 >= keeper.slot->0,
{
}

/// Startup ordering.  In every run of the keeper from its beginning, the
/// listener binds and takes connections only when an identity has been
/// published, and whenever it serves a connection the slot holds one: the
/// identity published last.
pub proof fn listener_waits_for_the_first_identity(happenings: Seq<Happening>, then: Happening)
    requires
        admissible(Keeper::initial(), happenings),
        keeper_run(Keeper::initial(), happenings).admits(then),
    ensures
        keeper_run(Keeper::initial(), happenings).inv(),
        keeper_run(Keeper::initial(), happenings).serves(then) ==> keeper_run(
            Keeper::initial(),
            happenings,
        ).slot is Some,
    decreases happenings.len(),
{
    if happenings.len() > 0 {
        let before = happenings.drop_last();
        listener_waits_for_the_first_identity(before, happenings.last());
        one_step_keeps_the_identity(keeper_run(Keeper::initial(), before), happenings.last());
    }
}

/// Renewal never degrades.  Whatever fails, the identity in the slot stays
/// the one that it was: a failure reported to the manager changes nothing
/// that the listener can see.
pub proof fn failures_leave_the_slot_alone(keeper: Keeper, event: Event)
    requires
        is_failure(event),
    ensures
        keeper.next(Happening::Manager(event)).slot == keeper.slot,
        keeper.next(Happening::Manager(event)).listener == keeper.listener,
{
}

/// Monotonic identity.  Over any run the slot, once filled, stays filled,
/// and the serial number of what it holds never goes back: a connection
/// taken later is never served with an older identity than one taken
/// earlier.
pub proof fn identity_only_moves_forward(start: Keeper, happenings: Seq<Happening>)
    requires
        start.slot is Some,
    ensures
        keeper_run(start, happenings).slot is Some,
        keeper_run(start, happenings).slot->0 >= start.slot->0,
    decreases happenings.len(),
{
    if happenings.len() > 0 {
        identity_only_moves_forward(start, happenings.drop_last());
    }
}

/// The slot is filled only by way of the manager: by a publication that
/// follows the building of material.  Nothing that is reported to the
/// listener changes it.
pub proof fn only_publication_fills_the_slot(keeper: Keeper, happening: Happening)
    requires
        keeper.next(happening).slot != keeper.slot,
    ensures
        happening == Happening::Manager(Event::Published),
        keeper.manager.phase == Phase::Publish || keeper.manager.phase == Phase::StartPublish,
        keeper.next(happening).slot == Some(keeper.following()),
{
}

} // verus!
