use door_controller::door::{DoorCommand, DoorController, DoorState};
use door_controller::pulley::{PulleyDriver, PulleyState};
use door_controller::signals::Signals;

struct Rig {
    door: DoorController,
    pulley: PulleyDriver,
    signals: Signals,
    now: u64,
}

impl Rig {
    fn new() -> Rig {
        Rig {
            door: DoorController::new_at(0),
            pulley: PulleyDriver::new(),
            signals: Signals::new(),
            now: 0,
        }
    }

    /// Lets door and pulley make this many steps, ten milliseconds apart.
    fn run(&mut self, steps: usize) {
        for _ in 0..steps {
            self.now += 10_000;
            self.door.step_at(&mut self.signals, self.now, self.now).unwrap();
            self.pulley.step(&mut self.signals);
        }
    }
}

#[test]
fn door_opens_and_comes_to_rest() {
    let mut rig = Rig::new();
    rig.signals.post_door(DoorCommand::Open);
    rig.run(2 + 101);
    assert_eq!(rig.pulley.state(), PulleyState::DrivingCCW);
    rig.signals.raise_open_limit();
    rig.run(2 + 101);
    assert_eq!(rig.door.state(), DoorState::Opened);
    assert_eq!(rig.pulley.state(), PulleyState::Hold);
    assert_eq!(rig.pulley.duty(), 0);
}

#[test]
fn obstacle_turns_a_closing_door_round() {
    let mut rig = Rig::new();
    rig.signals.post_door(DoorCommand::Close);
    rig.run(200);
    assert_eq!(rig.pulley.state(), PulleyState::DrivingCW);
    rig.signals.raise_overcurrent();
    rig.run(2 + 203);
    assert_eq!(rig.door.state(), DoorState::Opening);
    assert_eq!(rig.pulley.state(), PulleyState::DrivingCCW);
}

#[test]
fn motion_that_takes_too_long_is_given_up() {
    let mut rig = Rig::new();
    rig.signals.post_door(DoorCommand::Open);
    rig.run(2 + 999);
    assert_eq!(rig.door.state(), DoorState::Opening);
    rig.run(1);
    assert_eq!(rig.door.state(), DoorState::Idle);
    rig.run(102);
    assert_eq!(rig.pulley.state(), PulleyState::Hold);
}

#[test]
fn pulley_that_misses_a_stop_goes_on() {
    let mut rig = Rig::new();
    rig.signals.post_door(DoorCommand::Open);
    rig.run(200);
    rig.signals.post_door(DoorCommand::Close);
    rig.run(5);
    rig.signals.raise_close_limit();
    rig.run(300);
    assert_eq!(rig.door.state(), DoorState::Closed);
    assert_eq!(rig.pulley.state(), PulleyState::DrivingCW);
}
