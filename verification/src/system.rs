//! The door and the pulley together, joined by the signals.

use crate::door::{DoorState, DoorView};
use crate::pulley::{Direction, PulleyView, PULLEY_DUTY_MAX};
use crate::signals::Pending;
use crate::switch::SwitchRole;
use vstd::prelude::*;

verus! {

/// The door, the pulley and what waits between them.
pub struct System {
    pub door: DoorView,
    pub pulley: PulleyView,
    pub pending: Pending,
}

/// What can happen to a system, one thing at a time.
pub enum SystemEvent {
    /// The door makes a step, with two readings of the clock.
    DoorStep(int, int),
    /// The pulley makes a step.
    PulleyStep,
    /// A switch reports a press.
    Press(SwitchRole),
    /// The motor current is looked at.
    Current(Option<u16>),
}

impl DoorState {
    /// How the pulley should turn for a door in this state.
    pub open spec fn motion(self) -> Option<Direction> {
        match self {
            DoorState::Opening => Some(Direction::CCW),
            DoorState::Closing => Some(Direction::CW),
            _ => None,
        }
    }
}

impl System {
    /// A system that has just been switched on.
    pub open spec fn initial(now: int) -> System {
        System {
            door: DoorView { state: DoorState::Idle, last_state: DoorState::Idle, deadline: now },
            pulley: PulleyView::at_rest(),
            pending: Pending::nothing(),
        }
    }

    /// The system after an event.
    pub open spec fn next(self, event: SystemEvent) -> System {
        match event {
            SystemEvent::DoorStep(entered_at, checked_at) => System {
                door: self.door.next(self.pending, entered_at, checked_at),
                pending: self.door.next_pending(self.pending, entered_at, checked_at),
                ..self
            },
            SystemEvent::PulleyStep => System {
                pulley: self.pulley.next(self.pending.pulley_cmd),
                pending: Pending { pulley_cmd: None, ..self.pending },
                ..self
            },
            SystemEvent::Press(role) => System { pending: self.pending.with_press(role), ..self },
            SystemEvent::Current(reading) => System {
                pending: if crate::overcurrent::too_high(reading) {
                    Pending { overcurrent: true, ..self.pending }
                } else {
                    self.pending
                },
                ..self
            },
        }
    }

    /// The system after these events.
    pub open spec fn run(self, events: Seq<SystemEvent>) -> System
        decreases events.len(),
    {
        if events.len() == 0 {
            self
        } else {
            self.run(events.drop_last()).next(events.last())
        }
    }

    /// The system after `n` steps of the pulley with nothing else going on.
    pub open spec fn pulley_only(self, n: nat) -> System
        decreases n,
    {
        if n == 0 {
            self
        } else {
            self.pulley_only((n - 1) as nat).next(SystemEvent::PulleyStep)
        }
    }

    /// Whether this event is a step in which the pulley ignores its command.
    pub open spec fn loses_command(self, event: SystemEvent) -> bool {
        &&& event is PulleyStep
        &&& self.pending.pulley_cmd matches Some(cmd)
        &&& self.pulley.ignores(cmd)
    }

    /// The motion that the pulley was last told to take up: the command that
    /// still waits, or else where the pulley is heading.
    pub open spec fn intent(self) -> Option<Direction> {
        match self.pending.pulley_cmd {
            Some(cmd) => cmd.motion(),
            None => self.pulley.heading(),
        }
    }

    /// Door and pulley agree: the pulley is well-formed and means to move as the
    /// state that the door last entered demands.
    pub open spec fn agrees(self) -> bool {
        &&& self.pulley.wf()
        &&& self.intent() == self.door.last_state.motion()
    }
}

/// Every event keeps door and pulley in agreement, except a step in which the
/// pulley ignores its command.
pub proof fn law_event_keeps_agreement(system: System, event: SystemEvent)
    requires
        system.agrees(),
        !system.loses_command(event),
    ensures
        system.next(event).agrees(),
{
    if event is PulleyStep {
        let cmd = system.pending.pulley_cmd;
        crate::pulley_laws::law_step_keeps_wf(system.pulley, cmd);
        match cmd {
            Some(cmd) => crate::pulley_laws::law_command_sets_heading(system.pulley, cmd),
            None => crate::pulley_laws::lemma_coast(system.pulley),
        }
    }
}

/// A command that the pulley ignores always breaks the agreement.
pub proof fn law_lost_command_breaks_agreement(system: System, event: SystemEvent)
    requires
        system.agrees(),
        system.loses_command(event),
    ensures
        !system.next(event).agrees(),
{
}

/// From the moment it is switched on, and whatever happens in whatever order, the
/// pulley means to move as the state that the door last entered demands, as long
/// as it has ignored no command.
pub proof fn law_pulley_follows_the_door(now: int, events: Seq<SystemEvent>)
    requires
        forall|k: int|
            0 <= k < events.len() ==> !(#[trigger] System::initial(now).run(
                events.take(k),
            )).loses_command(events[k]),
    ensures
        System::initial(now).run(events).agrees(),
    decreases events.len(),
{
    if events.len() > 0 {
        let before = events.drop_last();
        assert(before =~= events.take(events.len() - 1));
        assert forall|k: int| 0 <= k < before.len() implies !(#[trigger] System::initial(now).run(
            before.take(k),
        )).loses_command(before[k]) by {
            assert(before.take(k) =~= events.take(k));
            assert(!System::initial(now).run(events.take(k)).loses_command(events[k]));
        }
        law_pulley_follows_the_door(now, before);
        assert(!System::initial(now).run(events.take(events.len() - 1)).loses_command(
            events[events.len() - 1],
        ));
        law_event_keeps_agreement(System::initial(now).run(before), events.last());
    }
}

proof fn lemma_pulley_only(system: System, n: nat)
    requires
        n >= 1,
    ensures
        system.pulley_only(n).pulley == system.pulley.next(system.pending.pulley_cmd).quiet(
            (n - 1) as nat,
        ),
        system.pulley_only(n).pending.pulley_cmd is None,
    decreases n,
{
    if n > 1 {
        lemma_pulley_only(system, (n - 1) as nat);
    } else {
        reveal_with_fuel(System::pulley_only, 2);
    }
}

/// Where door and pulley agree and nothing else happens, the pulley takes up the
/// motion that the state last entered by the door demands: it is at full speed or
/// at rest after a step that takes a waiting command and the longest possible
/// change of motion.
pub proof fn law_pulley_catches_up(system: System, n: nat)
    requires
        system.agrees(),
        !system.loses_command(SystemEvent::PulleyStep),
        n >= 1 + 2 * PULLEY_DUTY_MAX + 3,
    ensures
        system.pulley_only(n).pulley == PulleyView::settled(system.door.last_state.motion()),
{
    let after = system.next(SystemEvent::PulleyStep);
    law_event_keeps_agreement(system, SystemEvent::PulleyStep);
    lemma_pulley_only(system, n);
    crate::pulley_laws::law_settling_is_bounded(after.pulley);
    crate::pulley_laws::law_settles(after.pulley, (n - 1) as nat);
}

} // verus!
