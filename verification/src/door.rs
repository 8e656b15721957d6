//! The door state machine: turns button presses, limit switches, overcurrent
//! reports and the passing of time into commands for the pulley.

use crate::clock::{millis_to_ticks, now_ticks, Reading, TICKS_PER_MS};
use crate::pulley::PulleyCommand;
use crate::signals::{Pending, Signals};
use vstd::prelude::*;

verus! {

/// The time between two steps of the state machine.
pub const DOOR_STEP_MS: u64 = 10;

/// How long the door may move before it gives up.
pub const DOOR_TIMEOUT_MS: u64 = 10_000;

/// What a push button asks of the door.
#[derive(Clone, Copy, Debug, PartialEq, Eq, Structural)]
pub enum DoorCommand {
    Open,
    Close,
}

/// What the door is doing.
#[derive(Clone, Copy, Debug, PartialEq, Eq, Structural)]
pub enum DoorState {
    Idle,
    Opening,
    Opened,
    Closing,
    Closed,
}

/// What a step of the state machine reacted to.
#[derive(Clone, Copy, Debug, PartialEq, Eq, Structural)]
pub enum DoorCause {
    /// The limit switch at the end of the current motion.
    Limit,
    /// A button.
    Command(DoorCommand),
    /// Too much current through the motor.
    Overcurrent,
    /// The end of the time that the motion was given.
    Timeout,
}

/// What a step did.
#[derive(Clone, Copy, Debug, PartialEq, Eq, Structural)]
pub struct DoorReport {
    /// The state that was entered, and for which the pulley got its command.
    pub entered: Option<DoorState>,
    /// What the step then reacted to.
    pub cause: Option<DoorCause>,
    /// The state at the end of the step.
    pub state: DoorState,
}

/// The clock is too close to its end for a deadline to be set.
#[derive(Clone, Copy, Debug, PartialEq, Eq, Structural)]
pub struct ClockOverflow;

/// What a step by the clock did, with the readings that it went by.
#[derive(Debug)]
pub struct TimedReport {
    /// The state that was entered, and for which the pulley got its command.
    pub entered: Option<DoorState>,
    /// What the step then reacted to.
    pub cause: Option<DoorCause>,
    /// The state at the end of the step.
    pub state: DoorState,
    /// The reading from which the deadline of a motion that starts is counted.
    pub entered_at: Reading,
    /// The reading that the deadline is held against.
    pub checked_at: Reading,
}

/// The clock was too close to its end for a deadline to be set.
#[derive(Debug)]
pub struct LateClock {
    /// The reading from which the deadline cannot be counted.
    pub entered_at: Reading,
}

impl DoorState {
    /// The states in which the door moves.
    pub open spec fn moving(self) -> bool {
        self == DoorState::Opening || self == DoorState::Closing
    }

    /// What the pulley is told when this state is entered.
    pub open spec fn pulley_command(self) -> PulleyCommand {
        match self {
            DoorState::Opening => PulleyCommand::RampUpCCW,
            DoorState::Closing => PulleyCommand::RampUpCW,
            _ => PulleyCommand::Stop,
        }
    }

    /// Whether the limit switch that ends this motion waits to be seen.
    pub open spec fn limit_waits(self, pending: Pending) -> bool {
        match self {
            DoorState::Opening => pending.open_limit,
            DoorState::Closing => pending.close_limit,
            _ => false,
        }
    }

    /// Where the door goes from here for a given cause. A command that the door
    /// already follows or has followed leaves it where it is. Too much current
    /// stops an opening door and makes a closing one open again.
    pub open spec fn target(self, cause: DoorCause) -> DoorState {
        match cause {
            DoorCause::Limit => if self == DoorState::Opening {
                DoorState::Opened
            } else {
                DoorState::Closed
            },
            DoorCause::Command(DoorCommand::Open) => if self == DoorState::Opened {
                DoorState::Opened
            } else {
                DoorState::Opening
            },
            DoorCause::Command(DoorCommand::Close) => if self == DoorState::Closed {
                DoorState::Closed
            } else {
                DoorState::Closing
            },
            DoorCause::Overcurrent => if self == DoorState::Closing {
                DoorState::Opening
            } else {
                DoorState::Idle
            },
            DoorCause::Timeout => DoorState::Idle,
        }
    }
}

impl Pending {
    /// What is left once a door in `state` has reacted to `cause`.
    pub open spec fn without(self, state: DoorState, cause: Option<DoorCause>) -> Pending {
        match cause {
            Some(DoorCause::Limit) => if state == DoorState::Opening {
                Pending { open_limit: false, ..self }
            } else {
                Pending { close_limit: false, ..self }
            },
            Some(DoorCause::Command(_)) => Pending { door_cmd: None, ..self },
            Some(DoorCause::Overcurrent) => Pending { overcurrent: false, ..self },
            Some(DoorCause::Timeout) | None => self,
        }
    }
}

/// The ticks that a motion is given.
pub open spec fn timeout_ticks() -> int {
    DOOR_TIMEOUT_MS * TICKS_PER_MS
}

/// The door's state as a value: what it does, the state that it last entered,
/// and the tick at which a motion has taken too long.
pub struct DoorView {
    pub state: DoorState,
    pub last_state: DoorState,
    pub deadline: int,
}

impl DoorView {
    /// Whether the next step enters a state.
    pub open spec fn enters(self) -> bool {
        self.last_state != self.state
    }

    /// Whether the next step starts a motion, and so sets a deadline.
    pub open spec fn starts_motion(self) -> bool {
        self.enters() && self.state.moving()
    }

    /// The deadline once a step has entered its state at tick `entered_at`.
    pub open spec fn deadline_from(self, entered_at: int) -> int {
        if self.starts_motion() {
            entered_at + timeout_ticks()
        } else {
            self.deadline
        }
    }

    /// What a step reacts to. In motion the limit switch comes first, then a
    /// button, then the current, and the time last. At rest only a button counts.
    pub open spec fn cause(
        self,
        pending: Pending,
        entered_at: int,
        checked_at: int,
    ) -> Option<DoorCause> {
        if self.state.limit_waits(pending) {
            Some(DoorCause::Limit)
        } else if pending.door_cmd is Some {
            Some(DoorCause::Command(pending.door_cmd->0))
        } else if self.state.moving() && pending.overcurrent {
            Some(DoorCause::Overcurrent)
        } else if self.state.moving() && checked_at >= self.deadline_from(entered_at) {
            Some(DoorCause::Timeout)
        } else {
            None
        }
    }

    /// The door after a step that read the clock as `entered_at` on entering
    /// its state and as `checked_at` on looking at the deadline.
    pub open spec fn next(self, pending: Pending, entered_at: int, checked_at: int) -> DoorView {
        DoorView {
            state: match self.cause(pending, entered_at, checked_at) {
                Some(cause) => self.state.target(cause),
                None => self.state,
            },
            last_state: self.state,
            deadline: self.deadline_from(entered_at),
        }
    }

    /// The signals after that step: what it reacted to is gone, and a state
    /// that was entered has given the pulley its command.
    pub open spec fn next_pending(
        self,
        pending: Pending,
        entered_at: int,
        checked_at: int,
    ) -> Pending {
        let left = pending.without(self.state, self.cause(pending, entered_at, checked_at));
        if self.enters() {
            Pending { pulley_cmd: Some(self.state.pulley_command()), ..left }
        } else {
            left
        }
    }

    /// What that step reports.
    pub open spec fn report(
        self,
        pending: Pending,
        entered_at: int,
        checked_at: int,
    ) -> DoorReport {
        DoorReport {
            entered: if self.enters() {
                Some(self.state)
            } else {
                None
            },
            cause: self.cause(pending, entered_at, checked_at),
            state: self.next(pending, entered_at, checked_at).state,
        }
    }

    /// That a step took the door and the signals to `after` and `pending_after`
    /// and gave `report`, with these two readings of the clock.
    pub open spec fn stepped(
        self,
        pending: Pending,
        entered_at: u64,
        checked_at: u64,
        after: DoorView,
        pending_after: Pending,
        report: DoorReport,
    ) -> bool {
        &&& after == self.next(pending, entered_at as int, checked_at as int)
        &&& pending_after == self.next_pending(pending, entered_at as int, checked_at as int)
        &&& report == self.report(pending, entered_at as int, checked_at as int)
    }
}

/// The door state machine.
pub struct DoorController {
    state: DoorState,
    last_state: DoorState,
    timeout: u64,
}

impl View for DoorController {
    type V = DoorView;

    closed spec fn view(&self) -> DoorView {
        DoorView {
            state: self.state,
            last_state: self.last_state,
            deadline: self.timeout as int,
        }
    }
}

impl DoorController {
    /// A door that has just been switched on. The first motion replaces the
    /// deadline, which starts out as the current time.
    pub fn new() -> (door: DoorController)
        ensures
            door@.state == DoorState::Idle,
            door@.last_state == DoorState::Idle,
    {
        let now = now_ticks();
        DoorController::new_at(now.ticks())
    }

    /// A door that is switched on at tick `now`.
    pub fn new_at(now: u64) -> (door: DoorController)
        ensures
            door@ == (DoorView {
                state: DoorState::Idle,
                last_state: DoorState::Idle,
                deadline: now as int,
            }),
    {
        DoorController { state: DoorState::Idle, last_state: DoorState::Idle, timeout: now }
    }

    /// What the door is doing.
    pub fn state(&self) -> (state: DoorState)
        ensures
            state == self@.state,
    {
        self.state
    }

    /// Whether the next step starts a motion.
    fn starts_motion(&self) -> (starts: bool)
        ensures
            starts == self@.starts_motion(),
    {
        self.last_state != self.state && (self.state == DoorState::Opening || self.state
            == DoorState::Closing)
    }

    /// One step, to be made every [`DOOR_STEP_MS`], by the clock. Where a motion
    /// starts so late that its deadline cannot be told, nothing is done. The
    /// result holds the readings that the step went by, and the step is stated
    /// for these readings and no others.
    pub fn step(&mut self, signals: &mut Signals) -> (result: Result<TimedReport, LateClock>)
        ensures
            match result {
                Ok(done) => {
                    &&& old(self)@.stepped(
                        old(signals)@,
                        done.entered_at@,
                        done.checked_at@,
                        final(self)@,
                        final(signals)@,
                        DoorReport { entered: done.entered, cause: done.cause, state: done.state },
                    )
                    &&& old(self)@.last_state != old(self)@.state && (old(self)@.state
                        == DoorState::Opening || old(self)@.state == DoorState::Closing)
                        ==> done.entered_at@ + 10_000_000 <= u64::MAX
                    &&& (old(self)@.state == DoorState::Opening || old(self)@.state
                        == DoorState::Closing) && old(signals)@.door_cmd is None && !old(
                        signals,
                    )@.open_limit && !old(signals)@.close_limit && !old(signals)@.overcurrent ==> (
                    final(self)@.state == (if done.checked_at@ >= (if old(self)@.last_state != old(
                        self,
                    )@.state {
                        done.entered_at@ + 10_000_000
                    } else {
                        old(self)@.deadline
                    }) {
                        DoorState::Idle
                    } else {
                        old(self)@.state
                    }))
                },
                Err(late) => {
                    &&& old(self)@.last_state != old(self)@.state
                    &&& old(self)@.state == DoorState::Opening || old(self)@.state
                        == DoorState::Closing
                    &&& late.entered_at@ + 10_000_000 > u64::MAX
                    &&& final(self)@ == old(self)@
                    &&& final(signals)@ == old(signals)@
                },
            },
    {
        let entered_at = now_ticks();
        let checked_at = now_ticks();
        match self.step_at(signals, entered_at.ticks(), checked_at.ticks()) {
            Ok(report) => Ok(
                TimedReport {
                    entered: report.entered,
                    cause: report.cause,
                    state: report.state,
                    entered_at,
                    checked_at,
                },
            ),
            Err(_) => Err(LateClock { entered_at }),
        }
    }

    /// The step on two given readings of the clock: the first is taken on
    /// entering a state, the second on looking at the deadline. Where the
    /// deadline of a motion that starts lies beyond the end of the clock,
    /// nothing is done.
    pub fn step_at(
        &mut self,
        signals: &mut Signals,
        entered_at: u64,
        checked_at: u64,
    ) -> (result: Result<DoorReport, ClockOverflow>)
        ensures
            result is Err <==> old(self)@.last_state != old(self)@.state && (old(self)@.state
                == DoorState::Opening || old(self)@.state == DoorState::Closing) && entered_at
                + 10_000_000 > u64::MAX,
            match result {
                Ok(report) => old(self)@.stepped(
                    old(signals)@,
                    entered_at,
                    checked_at,
                    final(self)@,
                    final(signals)@,
                    report,
                ),
                Err(_) => final(self)@ == old(self)@ && final(signals)@ == old(signals)@,
            },
    {
        if self.starts_motion() && entered_at > u64::MAX - millis_to_ticks(DOOR_TIMEOUT_MS) {
            return Err(ClockOverflow);
        }
        Ok(self.react(signals, entered_at, checked_at))
    }

    /// The step itself, once the deadline is known to lie within the clock.
    fn react(
        &mut self,
        signals: &mut Signals,
        entered_at: u64,
        checked_at: u64,
    ) -> (report: DoorReport)
        requires
            old(self)@.starts_motion() ==> entered_at + timeout_ticks() <= u64::MAX,
        ensures
            old(self)@.stepped(
                old(signals)@,
                entered_at,
                checked_at,
                final(self)@,
                final(signals)@,
                report,
            ),
    {
        let mut entered: Option<DoorState> = None;
        let mut cause: Option<DoorCause> = None;

        match self.state {
            DoorState::Idle => {
                if self.last_state != self.state {
                    entered = Some(self.state);
                    self.last_state = self.state;
                    signals.post_pulley(PulleyCommand::Stop);
                }
                if let Some(cmd) = signals.take_door() {
                    cause = Some(DoorCause::Command(cmd));
                    match cmd {
                        DoorCommand::Open => {
                            self.state = DoorState::Opening;
                        },
                        DoorCommand::Close => {
                            self.state = DoorState::Closing;
                        },
                    }
                }
            },
            DoorState::Opening => {
                if self.last_state != self.state {
                    entered = Some(self.state);
                    self.last_state = self.state;
                    signals.post_pulley(PulleyCommand::RampUpCCW);
                    self.timeout = entered_at + millis_to_ticks(DOOR_TIMEOUT_MS);
                }
                if signals.take_open_limit() {
                    cause = Some(DoorCause::Limit);
                    self.state = DoorState::Opened;
                } else if let Some(cmd) = signals.take_door() {
                    cause = Some(DoorCause::Command(cmd));
                    if cmd == DoorCommand::Close {
                        self.state = DoorState::Closing;
                    }
                } else if signals.take_overcurrent() {
                    cause = Some(DoorCause::Overcurrent);
                    self.state = DoorState::Idle;
                } else if checked_at >= self.timeout {
                    cause = Some(DoorCause::Timeout);
                    self.state = DoorState::Idle;
                }
            },
            DoorState::Opened => {
                if self.last_state != self.state {
                    entered = Some(self.state);
                    self.last_state = self.state;
                    signals.post_pulley(PulleyCommand::Stop);
                }
                if let Some(cmd) = signals.take_door() {
                    cause = Some(DoorCause::Command(cmd));
                    if cmd == DoorCommand::Close {
                        self.state = DoorState::Closing;
                    }
                }
            },
            DoorState::Closing => {
                if self.last_state != self.state {
                    entered = Some(self.state);
                    self.last_state = self.state;
                    signals.post_pulley(PulleyCommand::RampUpCW);
                    self.timeout = entered_at + millis_to_ticks(DOOR_TIMEOUT_MS);
                }
                if signals.take_close_limit() {
                    cause = Some(DoorCause::Limit);
                    self.state = DoorState::Closed;
                } else if let Some(cmd) = signals.take_door() {
                    cause = Some(DoorCause::Command(cmd));
                    if cmd == DoorCommand::Open {
                        self.state = DoorState::Opening;
                    }
                } else if signals.take_overcurrent() {
                    cause = Some(DoorCause::Overcurrent);
                    self.state = DoorState::Opening;
                } else if checked_at >= self.timeout {
                    cause = Some(DoorCause::Timeout);
                    self.state = DoorState::Idle;
                }
            },
            DoorState::Closed => {
                if self.last_state != self.state {
                    entered = Some(self.state);
                    self.last_state = self.state;
                    signals.post_pulley(PulleyCommand::Stop);
                }
                if let Some(cmd) = signals.take_door() {
                    cause = Some(DoorCause::Command(cmd));
                    if cmd == DoorCommand::Open {
                        self.state = DoorState::Opening;
                    }
                }
            },
        }

        DoorReport { entered, cause, state: self.state }
    }
}

} // verus!
