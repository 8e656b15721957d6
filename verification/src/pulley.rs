//! The pulley driver: a two-channel motor output that ramps up, holds its speed
//! and ramps down again, one percent of duty at a time.

use crate::signals::{Pending, Signals};
use vstd::prelude::*;

verus! {

/// The time between two steps of the driver.
pub const PULLEY_RAMP_STEP_MS: u64 = 10;

/// Full speed, in percent.
pub const PULLEY_DUTY_MAX: u8 = 100;

/// What the door asks of the pulley.
#[derive(Clone, Copy, Debug, PartialEq, Eq, Structural)]
pub enum PulleyCommand {
    RampUpCCW,
    RampUpCW,
    Stop,
}

/// What the pulley is doing.
#[derive(Clone, Copy, Debug, PartialEq, Eq, Structural)]
pub enum PulleyState {
    Hold,
    RampingUpCCW,
    DrivingCCW,
    RampingDownCCW,
    RampingUpCW,
    DrivingCW,
    RampingDownCW,
}

/// The duty cycles, in percent, to write to the two motor channels. Channel A
/// turns the pulley counter-clockwise, channel B clockwise.
#[derive(Clone, Copy, Debug, PartialEq, Eq, Structural)]
pub struct Duties {
    pub a: u8,
    pub b: u8,
}

/// The two ways the pulley can turn.
#[derive(Clone, Copy, Debug, PartialEq, Eq, Structural)]
pub enum Direction {
    CCW,
    CW,
}

impl Direction {
    /// The other direction.
    pub open spec fn opposite(self) -> Direction {
        match self {
            Direction::CCW => Direction::CW,
            Direction::CW => Direction::CCW,
        }
    }

    /// The state in which the pulley speeds up in this direction.
    pub open spec fn ramping_up(self) -> PulleyState {
        match self {
            Direction::CCW => PulleyState::RampingUpCCW,
            Direction::CW => PulleyState::RampingUpCW,
        }
    }

    /// The state in which the pulley turns at full speed in this direction.
    pub open spec fn driving(self) -> PulleyState {
        match self {
            Direction::CCW => PulleyState::DrivingCCW,
            Direction::CW => PulleyState::DrivingCW,
        }
    }

    /// The state in which the pulley slows down in this direction.
    pub open spec fn ramping_down(self) -> PulleyState {
        match self {
            Direction::CCW => PulleyState::RampingDownCCW,
            Direction::CW => PulleyState::RampingDownCW,
        }
    }

    /// Drives this direction's channel at `duty` and keeps the other one off.
    pub open spec fn drive(self, duty: u8) -> Duties {
        match self {
            Direction::CCW => Duties { a: duty, b: 0 },
            Direction::CW => Duties { a: 0, b: duty },
        }
    }
}

impl PulleyCommand {
    /// The motion that the command asks for; `None` is standing still.
    pub open spec fn motion(self) -> Option<Direction> {
        match self {
            PulleyCommand::RampUpCCW => Some(Direction::CCW),
            PulleyCommand::RampUpCW => Some(Direction::CW),
            PulleyCommand::Stop => None,
        }
    }
}

impl PulleyState {
    /// The direction in which a pulley in this state turns or is about to turn.
    pub open spec fn direction(self) -> Option<Direction> {
        match self {
            PulleyState::Hold => None,
            PulleyState::RampingUpCCW | PulleyState::DrivingCCW
            | PulleyState::RampingDownCCW => Some(Direction::CCW),
            PulleyState::RampingUpCW | PulleyState::DrivingCW
            | PulleyState::RampingDownCW => Some(Direction::CW),
        }
    }
}

/// The driver's state as a value: what it does, what it will do once it has
/// come to rest, and how fast it turns.
pub struct PulleyView {
    pub state: PulleyState,
    pub dest: PulleyState,
    pub duty: u8,
}

impl PulleyView {
    /// At rest, with nowhere to go.
    pub open spec fn at_rest() -> PulleyView {
        PulleyView { state: PulleyState::Hold, dest: PulleyState::Hold, duty: 0 }
    }

    /// Turning at full speed.
    pub open spec fn at_speed(d: Direction) -> PulleyView {
        PulleyView { state: d.driving(), dest: d.driving(), duty: PULLEY_DUTY_MAX }
    }

    /// Speeding up in direction `d` from `duty`.
    pub open spec fn speeding_up(d: Direction, duty: u8) -> PulleyView {
        PulleyView { state: d.ramping_up(), dest: d.ramping_up(), duty }
    }

    /// The destination of a driver that wants to end up in `motion`, to be
    /// taken up from rest.
    pub open spec fn dest_for(motion: Option<Direction>) -> PulleyState {
        match motion {
            Some(d) => d.ramping_up(),
            None => PulleyState::Hold,
        }
    }

    /// The combinations of state, destination and speed that occur: at rest the
    /// speed is zero, at full speed it is the maximum, and a driver that slows
    /// down or rests is bound for rest or for the other direction's ramp.
    pub open spec fn wf(self) -> bool {
        &&& self.duty <= PULLEY_DUTY_MAX
        &&& match self.state {
            PulleyState::Hold => self.duty == 0 && (self.dest == PulleyState::Hold
                || self.dest == PulleyState::RampingUpCCW
                || self.dest == PulleyState::RampingUpCW),
            PulleyState::RampingUpCCW => self.dest == PulleyState::RampingUpCCW,
            PulleyState::RampingUpCW => self.dest == PulleyState::RampingUpCW,
            PulleyState::DrivingCCW => self == PulleyView::at_speed(Direction::CCW),
            PulleyState::DrivingCW => self == PulleyView::at_speed(Direction::CW),
            PulleyState::RampingDownCCW => self.dest == PulleyState::Hold || self.dest
                == PulleyState::RampingUpCW,
            PulleyState::RampingDownCW => self.dest == PulleyState::Hold || self.dest
                == PulleyState::RampingUpCCW,
        }
    }

    /// The state after a step that found `cmd` waiting.
    pub open spec fn next(self, cmd: Option<PulleyCommand>) -> PulleyView {
        match cmd {
            Some(cmd) => self.obey(cmd.motion()),
            None => self.coast(),
        }
    }

    /// A step with a command. From rest, a ramp begins at once. A driver that
    /// speeds up or is at speed starts to slow down when asked for anything but
    /// its own direction. One that slows down listens only to a request to go
    /// on in its own direction. Every other command changes nothing.
    pub open spec fn obey(self, motion: Option<Direction>) -> PulleyView {
        match self.state.direction() {
            None => match motion {
                Some(d) => PulleyView::speeding_up(d, 0),
                None => self,
            },
            Some(d) => if self.state == d.ramping_down() {
                if motion == Some(d) {
                    PulleyView::speeding_up(d, self.duty)
                } else {
                    self
                }
            } else if motion == Some(d) {
                self
            } else {
                PulleyView {
                    state: d.ramping_down(),
                    dest: PulleyView::dest_for(motion),
                    duty: self.duty,
                }
            },
        }
    }

    /// A step without a command: one percent up or down, or on to the next
    /// state where the ramp has reached its end.
    pub open spec fn coast(self) -> PulleyView {
        match self.state.direction() {
            None => if self.dest == PulleyState::RampingUpCCW || self.dest
                == PulleyState::RampingUpCW {
                PulleyView { state: self.dest, dest: self.dest, duty: 0 }
            } else {
                self
            },
            Some(d) => if self.state == d.ramping_up() {
                if self.duty < PULLEY_DUTY_MAX {
                    PulleyView { duty: (self.duty + 1) as u8, ..self }
                } else {
                    PulleyView { state: d.driving(), dest: d.driving(), duty: self.duty }
                }
            } else if self.state == d.ramping_down() {
                if self.duty > 0 {
                    PulleyView { duty: (self.duty - 1) as u8, ..self }
                } else {
                    PulleyView { state: PulleyState::Hold, ..self }
                }
            } else {
                self
            },
        }
    }

    /// What a step that found `cmd` waiting writes to the channels. At rest both
    /// are switched off, command or not. Otherwise a step with a command writes
    /// nothing, and neither does one that only moves on to the next state.
    pub open spec fn output(self, cmd: Option<PulleyCommand>) -> Option<Duties> {
        match self.state.direction() {
            None => Some(Duties { a: 0, b: 0 }),
            Some(d) => if cmd is Some {
                None
            } else if self.state == d.driving() {
                Some(d.drive(PULLEY_DUTY_MAX))
            } else if self.coast().duty != self.duty {
                Some(d.drive(self.coast().duty))
            } else {
                None
            },
        }
    }
}

/// The pulley driver.
pub struct PulleyDriver {
    state: PulleyState,
    dest_state: PulleyState,
    duty: u8,
}

impl View for PulleyDriver {
    type V = PulleyView;

    closed spec fn view(&self) -> PulleyView {
        PulleyView { state: self.state, dest: self.dest_state, duty: self.duty }
    }
}

impl PulleyDriver {
    #[verifier::type_invariant]
    closed spec fn inv(self) -> bool {
        self@.wf()
    }

    /// A driver at rest.
    pub fn new() -> (driver: PulleyDriver)
        ensures
            driver@ == PulleyView::at_rest(),
            driver@.state == PulleyState::Hold,
            driver@.dest == PulleyState::Hold,
            driver@.duty == 0,
    {
        PulleyDriver { state: PulleyState::Hold, dest_state: PulleyState::Hold, duty: 0 }
    }

    /// What the driver is doing.
    pub fn state(&self) -> (state: PulleyState)
        ensures
            state == self@.state,
            self@.wf(),
    {
        proof {
            use_type_invariant(self);
        }
        self.state
    }

    /// What the driver will do once it has come to rest.
    pub fn dest_state(&self) -> (dest: PulleyState)
        ensures
            dest == self@.dest,
            self@.wf(),
    {
        proof {
            use_type_invariant(self);
        }
        self.dest_state
    }

    /// The speed, in percent.
    pub fn duty(&self) -> (duty: u8)
        ensures
            duty == self@.duty,
            duty <= PULLEY_DUTY_MAX,
            self@.wf(),
    {
        proof {
            use_type_invariant(self);
        }
        self.duty
    }

    /// One step, to be made every [`PULLEY_RAMP_STEP_MS`]: takes the waiting
    /// command and returns what to write to the two channels, A first.
    pub fn step(&mut self, signals: &mut Signals) -> (duties: Option<Duties>)
        ensures
            old(self)@.wf(),
            final(self)@.wf(),
            final(self)@ == old(self)@.next(old(signals)@.pulley_cmd),
            duties == old(self)@.output(old(signals)@.pulley_cmd),
            final(signals)@ == (Pending { pulley_cmd: None, ..old(signals)@ }),
    {
        let cmd = signals.take_pulley();
        self.step_with(cmd)
    }

    /// The step on the command that was taken.
    fn step_with(&mut self, cmd: Option<PulleyCommand>) -> (duties: Option<Duties>)
        ensures
            old(self)@.wf(),
            final(self)@.wf(),
            final(self)@ == old(self)@.next(cmd),
            duties == old(self)@.output(cmd),
    {
        proof {
            use_type_invariant(&*self);
        }
        let mut state = self.state;
        let mut dest_state = self.dest_state;
        let mut duty: u8 = self.duty;
        let mut duties: Option<Duties> = None;

        match state {
            PulleyState::Hold => {
                duties = Some(Duties { a: 0, b: 0 });

                if let Some(cmd) = cmd {
                    match cmd {
                        PulleyCommand::RampUpCCW => {
                            dest_state = PulleyState::RampingUpCCW;
                            state = PulleyState::RampingUpCCW;
                            duty = 0;
                        },
                        PulleyCommand::RampUpCW => {
                            dest_state = PulleyState::RampingUpCW;
                            state = PulleyState::RampingUpCW;
                            duty = 0;
                        },
                        PulleyCommand::Stop => {},
                    }
                } else if state != dest_state {
                    match dest_state {
                        PulleyState::RampingUpCCW => {
                            state = PulleyState::RampingUpCCW;
                            duty = 0;
                        },
                        PulleyState::RampingUpCW => {
                            state = PulleyState::RampingUpCW;
                            duty = 0;
                        },
                        _ => {},
                    }
                }
            },
            PulleyState::RampingUpCCW => {
                if let Some(cmd) = cmd {
                    match cmd {
                        PulleyCommand::RampUpCW => {
                            dest_state = PulleyState::RampingUpCW;
                            state = PulleyState::RampingDownCCW;
                        },
                        PulleyCommand::Stop => {
                            dest_state = PulleyState::Hold;
                            state = PulleyState::RampingDownCCW;
                        },
                        PulleyCommand::RampUpCCW => {},
                    }
                } else if duty < PULLEY_DUTY_MAX {
                    duty = duty + 1;
                    duties = Some(Duties { a: duty, b: 0 });
                } else {
                    dest_state = PulleyState::DrivingCCW;
                    state = PulleyState::DrivingCCW;
                }
            },
            PulleyState::DrivingCCW => {
                if let Some(cmd) = cmd {
                    match cmd {
                        PulleyCommand::RampUpCW => {
                            dest_state = PulleyState::RampingUpCW;
                            state = PulleyState::RampingDownCCW;
                        },
                        PulleyCommand::Stop => {
                            dest_state = PulleyState::Hold;
                            state = PulleyState::RampingDownCCW;
                        },
                        PulleyCommand::RampUpCCW => {},
                    }
                } else {
                    duties = Some(Duties { a: PULLEY_DUTY_MAX, b: 0 });
                }
            },
            PulleyState::RampingDownCCW => {
                if let Some(cmd) = cmd {
                    match cmd {
                        PulleyCommand::RampUpCCW => {
                            dest_state = PulleyState::RampingUpCCW;
                            state = PulleyState::RampingUpCCW;
                        },
                        _ => {},
                    }
                } else if duty > 0 {
                    duty = duty - 1;
                    duties = Some(Duties { a: duty, b: 0 });
                } else {
                    state = PulleyState::Hold;
                }
            },
            PulleyState::RampingUpCW => {
                if let Some(cmd) = cmd {
                    match cmd {
                        PulleyCommand::RampUpCCW => {
                            dest_state = PulleyState::RampingUpCCW;
                            state = PulleyState::RampingDownCW;
                        },
                        PulleyCommand::Stop => {
                            dest_state = PulleyState::Hold;
                            state = PulleyState::RampingDownCW;
                        },
                        PulleyCommand::RampUpCW => {},
                    }
                } else if duty < PULLEY_DUTY_MAX {
                    duty = duty + 1;
                    duties = Some(Duties { a: 0, b: duty });
                } else {
                    dest_state = PulleyState::DrivingCW;
                    state = PulleyState::DrivingCW;
                }
            },
            PulleyState::DrivingCW => {
                if let Some(cmd) = cmd {
                    match cmd {
                        PulleyCommand::RampUpCCW => {
                            dest_state = PulleyState::RampingUpCCW;
                            state = PulleyState::RampingDownCW;
                        },
                        PulleyCommand::Stop => {
                            dest_state = PulleyState::Hold;
                            state = PulleyState::RampingDownCW;
                        },
                        PulleyCommand::RampUpCW => {},
                    }
                } else {
                    duties = Some(Duties { a: 0, b: PULLEY_DUTY_MAX });
                }
            },
            PulleyState::RampingDownCW => {
                if let Some(cmd) = cmd {
                    match cmd {
                        PulleyCommand::RampUpCW => {
                            dest_state = PulleyState::RampingUpCW;
                            state = PulleyState::RampingUpCW;
                        },
                        _ => {},
                    }
                } else if duty > 0 {
                    duty = duty - 1;
                    duties = Some(Duties { a: 0, b: duty });
                } else {
                    state = PulleyState::Hold;
                }
            },
        }

        *self = PulleyDriver { state, dest_state, duty };
        duties
    }
}

} // verus!
