//! Debouncing of the two push buttons and the two limit switches. All four pull
//! their pin low while they are pressed.

use crate::door::DoorCommand;
use crate::signals::{Pending, Signals};
use vstd::prelude::*;

verus! {

/// How long a pin is left alone after an edge.
pub const DEBOUNCE_MS: u64 = 50;

/// What a switch is there for.
#[derive(Clone, Copy, Debug, PartialEq, Eq, Structural)]
pub enum SwitchRole {
    OpenButton,
    CloseButton,
    OpenLimit,
    CloseLimit,
}

/// Where a switch is between being pressed and being let go.
#[derive(Clone, Copy, Debug, PartialEq, Eq, Structural)]
pub enum SwitchPhase {
    Released,
    PressSettling,
    Pressed,
    ReleaseSettling,
}

/// What has to happen before a switch can go on.
#[derive(Clone, Copy, Debug, PartialEq, Eq, Structural)]
pub enum SwitchWait {
    FallingEdge,
    RisingEdge,
    Millis(u64),
}

impl SwitchPhase {
    /// What ends this phase.
    pub open spec fn wait(self) -> SwitchWait {
        match self {
            SwitchPhase::Released => SwitchWait::FallingEdge,
            SwitchPhase::Pressed => SwitchWait::RisingEdge,
            _ => SwitchWait::Millis(DEBOUNCE_MS),
        }
    }

    /// The phase that follows this one.
    pub open spec fn next(self) -> SwitchPhase {
        match self {
            SwitchPhase::Released => SwitchPhase::PressSettling,
            SwitchPhase::PressSettling => SwitchPhase::Pressed,
            SwitchPhase::Pressed => SwitchPhase::ReleaseSettling,
            SwitchPhase::ReleaseSettling => SwitchPhase::Released,
        }
    }

    /// Whether the end of this phase, with the pin at the given level, counts as
    /// a press.
    pub open spec fn reports(self, is_low: bool) -> bool {
        self == SwitchPhase::PressSettling && is_low
    }

    /// The phase after `n` more phases.
    pub open spec fn after(self, n: nat) -> SwitchPhase
        decreases n,
    {
        if n == 0 {
            self
        } else {
            self.after((n - 1) as nat).next()
        }
    }
}

impl Pending {
    /// What waits after a switch of this role has been pressed.
    pub open spec fn with_press(self, role: SwitchRole) -> Pending {
        match role {
            SwitchRole::OpenButton => Pending { door_cmd: Some(DoorCommand::Open), ..self },
            SwitchRole::CloseButton => Pending { door_cmd: Some(DoorCommand::Close), ..self },
            SwitchRole::OpenLimit => Pending { open_limit: true, ..self },
            SwitchRole::CloseLimit => Pending { close_limit: true, ..self },
        }
    }
}

/// A debounced switch.
pub struct Switch {
    role: SwitchRole,
    phase: SwitchPhase,
}

/// A switch as a value: what it is there for and where it is.
pub struct SwitchView {
    pub role: SwitchRole,
    pub phase: SwitchPhase,
}

impl View for Switch {
    type V = SwitchView;

    closed spec fn view(&self) -> SwitchView {
        SwitchView { role: self.role, phase: self.phase }
    }
}

impl Switch {
    /// A switch that nobody presses.
    pub fn new(role: SwitchRole) -> (switch: Switch)
        ensures
            switch@ == (SwitchView { role, phase: SwitchPhase::Released }),
    {
        Switch { role, phase: SwitchPhase::Released }
    }

    /// What to wait for before [`Switch::resume`] is called.
    pub fn wait(&self) -> (wait: SwitchWait)
        ensures
            wait == self@.phase.wait(),
            wait == SwitchWait::FallingEdge <==> self@.phase == SwitchPhase::Released,
            wait == SwitchWait::RisingEdge <==> self@.phase == SwitchPhase::Pressed,
            wait == SwitchWait::Millis(50) <==> self@.phase == SwitchPhase::PressSettling
                || self@.phase == SwitchPhase::ReleaseSettling,
    {
        match self.phase {
            SwitchPhase::Released => SwitchWait::FallingEdge,
            SwitchPhase::PressSettling => SwitchWait::Millis(DEBOUNCE_MS),
            SwitchPhase::Pressed => SwitchWait::RisingEdge,
            SwitchPhase::ReleaseSettling => SwitchWait::Millis(DEBOUNCE_MS),
        }
    }

    /// Goes on once the wait is over, with the pin at the given level. A pin that
    /// is still low when its press has settled is reported; the result says so.
    pub fn resume(&mut self, is_low: bool, signals: &mut Signals) -> (reported: bool)
        ensures
            reported == old(self)@.phase.reports(is_low),
            final(self)@ == (SwitchView { phase: old(self)@.phase.next(), ..old(self)@ }),
            final(signals)@ == (if reported {
                old(signals)@.with_press(old(self)@.role)
            } else {
                old(signals)@
            }),
            reported == (old(self)@.phase == SwitchPhase::PressSettling && is_low),
            final(signals)@.door_cmd == (if reported && old(self)@.role
                == SwitchRole::OpenButton {
                Some(DoorCommand::Open)
            } else if reported && old(self)@.role == SwitchRole::CloseButton {
                Some(DoorCommand::Close)
            } else {
                old(signals)@.door_cmd
            }),
            final(signals)@.open_limit == (old(signals)@.open_limit || (reported && old(self)@.role
                == SwitchRole::OpenLimit)),
            final(signals)@.close_limit == (old(signals)@.close_limit || (reported && old(
                self,
            )@.role == SwitchRole::CloseLimit)),
            final(signals)@.overcurrent == old(signals)@.overcurrent,
            final(signals)@.pulley_cmd == old(signals)@.pulley_cmd,
    {
        match self.phase {
            SwitchPhase::Released => {
                self.phase = SwitchPhase::PressSettling;
                false
            },
            SwitchPhase::PressSettling => {
                self.phase = SwitchPhase::Pressed;
                if is_low {
                    match self.role {
                        SwitchRole::OpenButton => signals.post_door(DoorCommand::Open),
                        SwitchRole::CloseButton => signals.post_door(DoorCommand::Close),
                        SwitchRole::OpenLimit => signals.raise_open_limit(),
                        SwitchRole::CloseLimit => signals.raise_close_limit(),
                    }
                }
                is_low
            },
            SwitchPhase::Pressed => {
                self.phase = SwitchPhase::ReleaseSettling;
                false
            },
            SwitchPhase::ReleaseSettling => {
                self.phase = SwitchPhase::Released;
                false
            },
        }
    }
}

/// A press of a button posts its door command and nothing else; a press of a limit
/// switch raises its own limit and nothing else.
pub proof fn law_press_touches_its_own_signal(pending: Pending, role: SwitchRole)
    ensures
        pending.with_press(role).door_cmd == (match role {
            SwitchRole::OpenButton => Some(DoorCommand::Open),
            SwitchRole::CloseButton => Some(DoorCommand::Close),
            _ => pending.door_cmd,
        }),
        pending.with_press(role).open_limit == (pending.open_limit || role
            == SwitchRole::OpenLimit),
        pending.with_press(role).close_limit == (pending.close_limit || role
            == SwitchRole::CloseLimit),
        pending.with_press(role).overcurrent == pending.overcurrent,
        pending.with_press(role).pulley_cmd == pending.pulley_cmd,
{
}

/// From being let go to being let go again, a switch waits for the pin to fall,
/// fifty milliseconds, for the pin to rise, and fifty milliseconds. Only the end
/// of the first pause can count as a press, and it does where the pin is low.
pub proof fn law_one_press(n: nat, is_low: bool)
    requires
        n < 4,
    ensures
        SwitchPhase::Released.after(n).wait() == (if n == 0 {
            SwitchWait::FallingEdge
        } else if n == 2 {
            SwitchWait::RisingEdge
        } else {
            SwitchWait::Millis(50)
        }),
        SwitchPhase::Released.after(n).reports(is_low) <==> n == 1 && is_low,
{
    reveal_with_fuel(SwitchPhase::after, 5);
}

/// The four phases follow one another in a circle.
pub proof fn law_phases_repeat(phase: SwitchPhase)
    ensures
        phase.after(4) == phase,
{
    reveal_with_fuel(SwitchPhase::after, 5);
}

proof fn lemma_after_repeats(phase: SwitchPhase, n: nat)
    ensures
        phase.after(n) == phase.after(n % 4),
    decreases n,
{
    if n >= 4 {
        let m = (n - 4) as nat;
        lemma_after_repeats(phase, m);
        reveal_with_fuel(SwitchPhase::after, 5);
        assert(phase.after(n) == phase.after(m).next().next().next().next());
    }
}

/// A switch reports one press at a time: between two reports it has waited for
/// the pin to rise and, after that, for the pin to fall again.
pub proof fn law_release_between_reports(
    start: SwitchPhase,
    first: nat,
    second: nat,
    first_low: bool,
    second_low: bool,
)
    requires
        first < second,
        start.after(first).reports(first_low),
        start.after(second).reports(second_low),
    ensures
        exists|rise: nat, fall: nat|
            #![trigger start.after(rise), start.after(fall)]
            first < rise < fall < second && start.after(rise).wait() == SwitchWait::RisingEdge
                && start.after(fall).wait() == SwitchWait::FallingEdge,
{
    reveal_with_fuel(SwitchPhase::after, 5);
    lemma_after_repeats(start, first);
    lemma_after_repeats(start, second);
    assert(start.after(first) == start.after(second));
    let rise = first + 1;
    let fall = (second - 1) as nat;
    assert(first % 4 == second % 4);
    assert(start.after(rise) == SwitchPhase::Pressed);
    assert(start.after(fall).next() == start.after(second));
    assert(start.after(fall) == SwitchPhase::Released);
}

} // verus!
