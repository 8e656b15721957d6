//! The one-slot signals through which the tasks talk to one another.
//!
//! Every signal holds the latest thing posted to it and nothing older. A post
//! overwrites what was waiting; a take empties the slot.

use crate::door::DoorCommand;
use crate::pulley::PulleyCommand;
use embassy_sync::blocking_mutex::raw::CriticalSectionRawMutex;
use embassy_sync::signal::Signal;
use vstd::prelude::*;

verus! {

/// What a signal can carry.
#[derive(Clone, Copy, Debug, PartialEq, Eq, Structural)]
pub enum Notice {
    /// A button was pressed.
    Door(DoorCommand),
    /// The door wants the pulley to act.
    Pulley(PulleyCommand),
    /// A condition was observed; there is nothing more to say about it.
    Raised,
}

/// An `embassy_sync` signal, which is safe to share with interrupt handlers.
#[verifier::external_body]
pub struct Slot {
    signal: Signal<CriticalSectionRawMutex, Notice>,
}

/// The notice that waits in a slot, if one does.
pub uninterp spec fn pending(slot: Slot) -> Option<Notice>;

/// Calls `Signal::new`, which builds a signal with nothing waiting in it.
#[verifier::external_body]
fn new_slot() -> (slot: Slot)
    ensures
        pending(slot) == None::<Notice>,
{
    Slot { signal: Signal::new() }
}

/// Calls `Signal::signal`, which stores the value and drops what was waiting.
/// The exclusive borrow keeps every other holder out, so the new value is what
/// waits afterwards.
#[verifier::external_body]
fn put(slot: &mut Slot, notice: Notice)
    ensures
        pending(*final(slot)) == Some(notice),
{
    slot.signal.signal(notice)
}

/// Calls `Signal::try_take`, which hands out the waiting value and leaves the
/// signal empty, or returns `None` where nothing waits. The exclusive borrow
/// keeps every other holder out, so nothing waits afterwards.
#[verifier::external_body]
fn take(slot: &mut Slot) -> (taken: Option<Notice>)
    ensures
        taken == pending(*old(slot)),
        pending(*final(slot)) == None::<Notice>,
{
    slot.signal.try_take()
}

/// What waits in each of the five signals.
pub struct Pending {
    pub door_cmd: Option<DoorCommand>,
    pub pulley_cmd: Option<PulleyCommand>,
    pub open_limit: bool,
    pub close_limit: bool,
    pub overcurrent: bool,
}

/// The signals shared by all tasks.
pub struct Signals {
    door_cmd: Slot,
    pulley_cmd: Slot,
    open_limit: Slot,
    close_limit: Slot,
    overcurrent: Slot,
}

impl View for Signals {
    type V = Pending;

    closed spec fn view(&self) -> Pending {
        Pending {
            door_cmd: match pending(self.door_cmd) {
                Some(Notice::Door(cmd)) => Some(cmd),
                _ => None,
            },
            pulley_cmd: match pending(self.pulley_cmd) {
                Some(Notice::Pulley(cmd)) => Some(cmd),
                _ => None,
            },
            open_limit: pending(self.open_limit) is Some,
            close_limit: pending(self.close_limit) is Some,
            overcurrent: pending(self.overcurrent) is Some,
        }
    }
}

impl Signals {
    /// Five signals with nothing waiting.
    pub fn new() -> (signals: Signals)
        ensures
            signals@ == Pending::nothing(),
            signals@.door_cmd is None,
            signals@.pulley_cmd is None,
            !signals@.open_limit,
            !signals@.close_limit,
            !signals@.overcurrent,
    {
        Signals {
            door_cmd: new_slot(),
            pulley_cmd: new_slot(),
            open_limit: new_slot(),
            close_limit: new_slot(),
            overcurrent: new_slot(),
        }
    }

    /// Posts a door command, in place of one that was still waiting.
    pub fn post_door(&mut self, cmd: DoorCommand)
        ensures
            final(self)@ == (Pending { door_cmd: Some(cmd), ..old(self)@ }),
    {
        put(&mut self.door_cmd, Notice::Door(cmd));
    }

    /// Takes the waiting door command.
    pub fn take_door(&mut self) -> (cmd: Option<DoorCommand>)
        ensures
            cmd == old(self)@.door_cmd,
            final(self)@ == (Pending { door_cmd: None, ..old(self)@ }),
    {
        match take(&mut self.door_cmd) {
            Some(Notice::Door(cmd)) => Some(cmd),
            _ => None,
        }
    }

    /// Posts a pulley command, in place of one that was still waiting.
    pub fn post_pulley(&mut self, cmd: PulleyCommand)
        ensures
            final(self)@ == (Pending { pulley_cmd: Some(cmd), ..old(self)@ }),
    {
        put(&mut self.pulley_cmd, Notice::Pulley(cmd));
    }

    /// Takes the waiting pulley command.
    pub fn take_pulley(&mut self) -> (cmd: Option<PulleyCommand>)
        ensures
            cmd == old(self)@.pulley_cmd,
            final(self)@ == (Pending { pulley_cmd: None, ..old(self)@ }),
    {
        match take(&mut self.pulley_cmd) {
            Some(Notice::Pulley(cmd)) => Some(cmd),
            _ => None,
        }
    }

    /// Reports that the door is fully open.
    pub fn raise_open_limit(&mut self)
        ensures
            final(self)@ == (Pending { open_limit: true, ..old(self)@ }),
    {
        put(&mut self.open_limit, Notice::Raised);
    }

    /// Takes the report that the door is fully open.
    pub fn take_open_limit(&mut self) -> (raised: bool)
        ensures
            raised == old(self)@.open_limit,
            final(self)@ == (Pending { open_limit: false, ..old(self)@ }),
    {
        take(&mut self.open_limit).is_some()
    }

    /// Reports that the door is fully closed.
    pub fn raise_close_limit(&mut self)
        ensures
            final(self)@ == (Pending { close_limit: true, ..old(self)@ }),
    {
        put(&mut self.close_limit, Notice::Raised);
    }

    /// Takes the report that the door is fully closed.
    pub fn take_close_limit(&mut self) -> (raised: bool)
        ensures
            raised == old(self)@.close_limit,
            final(self)@ == (Pending { close_limit: false, ..old(self)@ }),
    {
        take(&mut self.close_limit).is_some()
    }

    /// Reports that the motor draws too much current.
    pub fn raise_overcurrent(&mut self)
        ensures
            final(self)@ == (Pending { overcurrent: true, ..old(self)@ }),
    {
        put(&mut self.overcurrent, Notice::Raised);
    }

    /// Takes the report that the motor draws too much current.
    pub fn take_overcurrent(&mut self) -> (raised: bool)
        ensures
            raised == old(self)@.overcurrent,
            final(self)@ == (Pending { overcurrent: false, ..old(self)@ }),
    {
        take(&mut self.overcurrent).is_some()
    }
}

impl Pending {
    /// Nothing waits in any signal.
    pub open spec fn nothing() -> Pending {
        Pending {
            door_cmd: None,
            pulley_cmd: None,
            open_limit: false,
            close_limit: false,
            overcurrent: false,
        }
    }
}

} // verus!
