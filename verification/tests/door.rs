use door_controller::door::{
    ClockOverflow, DoorCause, DoorCommand, DoorController, DoorReport, DoorState,
};
use door_controller::pulley::PulleyCommand;
use door_controller::signals::Signals;

const LATE: u64 = 10_000_000;

fn step(door: &mut DoorController, signals: &mut Signals, now: u64) -> DoorReport {
    door.step_at(signals, now, now).unwrap()
}

/// A door that has entered `Opening` at tick 0, with the pulley's command taken.
fn opening() -> (DoorController, Signals) {
    let mut door = DoorController::new_at(0);
    let mut signals = Signals::new();
    signals.post_door(DoorCommand::Open);
    step(&mut door, &mut signals, 0);
    step(&mut door, &mut signals, 0);
    assert_eq!(signals.take_pulley(), Some(PulleyCommand::RampUpCCW));
    assert_eq!(door.state(), DoorState::Opening);
    (door, signals)
}

/// A door that has entered `Closing` at tick 0, with the pulley's command taken.
fn closing() -> (DoorController, Signals) {
    let mut door = DoorController::new_at(0);
    let mut signals = Signals::new();
    signals.post_door(DoorCommand::Close);
    step(&mut door, &mut signals, 0);
    step(&mut door, &mut signals, 0);
    assert_eq!(signals.take_pulley(), Some(PulleyCommand::RampUpCW));
    assert_eq!(door.state(), DoorState::Closing);
    (door, signals)
}

fn opened() -> (DoorController, Signals) {
    let (mut door, mut signals) = opening();
    signals.raise_open_limit();
    step(&mut door, &mut signals, 1);
    step(&mut door, &mut signals, 2);
    assert_eq!(signals.take_pulley(), Some(PulleyCommand::Stop));
    assert_eq!(door.state(), DoorState::Opened);
    (door, signals)
}

fn closed() -> (DoorController, Signals) {
    let (mut door, mut signals) = closing();
    signals.raise_close_limit();
    step(&mut door, &mut signals, 1);
    step(&mut door, &mut signals, 2);
    assert_eq!(signals.take_pulley(), Some(PulleyCommand::Stop));
    assert_eq!(door.state(), DoorState::Closed);
    (door, signals)
}

#[test]
fn new_door_is_idle_and_silent() {
    let mut door = DoorController::new_at(5);
    let mut signals = Signals::new();
    let report = step(&mut door, &mut signals, 6);
    assert_eq!(report, DoorReport { entered: None, cause: None, state: DoorState::Idle });
    assert_eq!(signals.take_pulley(), None);
}

#[test]
fn idle_door_opens_on_command() {
    let mut door = DoorController::new_at(0);
    let mut signals = Signals::new();
    signals.post_door(DoorCommand::Open);
    let report = step(&mut door, &mut signals, 0);
    assert_eq!(report.entered, None);
    assert_eq!(report.cause, Some(DoorCause::Command(DoorCommand::Open)));
    assert_eq!(report.state, DoorState::Opening);
    assert_eq!(signals.take_pulley(), None);
    let report = step(&mut door, &mut signals, 0);
    assert_eq!(report.entered, Some(DoorState::Opening));
    assert_eq!(report.cause, None);
    assert_eq!(signals.take_pulley(), Some(PulleyCommand::RampUpCCW));
    assert_eq!(signals.take_pulley(), None);
}

#[test]
fn later_command_replaces_earlier_one() {
    let mut door = DoorController::new_at(0);
    let mut signals = Signals::new();
    signals.post_door(DoorCommand::Open);
    signals.post_door(DoorCommand::Close);
    assert_eq!(step(&mut door, &mut signals, 0).state, DoorState::Closing);
    assert_eq!(signals.take_door(), None);
}

#[test]
fn opening_door_stops_at_its_limit() {
    let (mut door, mut signals) = opening();
    signals.raise_open_limit();
    signals.post_door(DoorCommand::Close);
    signals.raise_overcurrent();
    let report = step(&mut door, &mut signals, LATE);
    assert_eq!(report.cause, Some(DoorCause::Limit));
    assert_eq!(report.state, DoorState::Opened);
    assert!(!signals.take_open_limit());
    assert_eq!(signals.take_door(), Some(DoorCommand::Close));
    assert!(signals.take_overcurrent());
}

#[test]
fn closing_door_stops_at_its_limit() {
    let (mut door, mut signals) = closing();
    signals.raise_close_limit();
    let report = step(&mut door, &mut signals, 1);
    assert_eq!(report.cause, Some(DoorCause::Limit));
    assert_eq!(report.state, DoorState::Closed);
    let report = step(&mut door, &mut signals, 2);
    assert_eq!(report.entered, Some(DoorState::Closed));
    assert_eq!(signals.take_pulley(), Some(PulleyCommand::Stop));
}

#[test]
fn wrong_limit_is_left_alone() {
    let (mut door, mut signals) = opening();
    signals.raise_close_limit();
    assert_eq!(step(&mut door, &mut signals, 1).cause, None);
    assert!(signals.take_close_limit());

    let (mut door, mut signals) = closing();
    signals.raise_open_limit();
    assert_eq!(step(&mut door, &mut signals, 1).cause, None);
    assert!(signals.take_open_limit());
}

#[test]
fn moving_door_turns_round_on_command() {
    let (mut door, mut signals) = opening();
    signals.post_door(DoorCommand::Close);
    signals.raise_overcurrent();
    let report = step(&mut door, &mut signals, LATE);
    assert_eq!(report.cause, Some(DoorCause::Command(DoorCommand::Close)));
    assert_eq!(report.state, DoorState::Closing);
    assert!(signals.take_overcurrent());

    let (mut door, mut signals) = closing();
    signals.post_door(DoorCommand::Open);
    assert_eq!(step(&mut door, &mut signals, 1).state, DoorState::Opening);
    step(&mut door, &mut signals, 2);
    assert_eq!(signals.take_pulley(), Some(PulleyCommand::RampUpCCW));
}

#[test]
fn repeated_command_is_used_up_without_effect() {
    let (mut door, mut signals) = opening();
    signals.post_door(DoorCommand::Open);
    signals.raise_overcurrent();
    let report = step(&mut door, &mut signals, LATE);
    assert_eq!(report.cause, Some(DoorCause::Command(DoorCommand::Open)));
    assert_eq!(report.state, DoorState::Opening);
    assert_eq!(signals.take_door(), None);
    let report = step(&mut door, &mut signals, LATE);
    assert_eq!(report.cause, Some(DoorCause::Overcurrent));

    let (mut door, mut signals) = opened();
    signals.post_door(DoorCommand::Open);
    assert_eq!(step(&mut door, &mut signals, 3).state, DoorState::Opened);
    assert_eq!(signals.take_pulley(), None);

    let (mut door, mut signals) = closed();
    signals.post_door(DoorCommand::Close);
    assert_eq!(step(&mut door, &mut signals, 3).state, DoorState::Closed);
    assert_eq!(signals.take_pulley(), None);
}

#[test]
fn resting_door_leaves_on_command() {
    let (mut door, mut signals) = opened();
    signals.post_door(DoorCommand::Close);
    assert_eq!(step(&mut door, &mut signals, 3).state, DoorState::Closing);

    let (mut door, mut signals) = closed();
    signals.post_door(DoorCommand::Open);
    assert_eq!(step(&mut door, &mut signals, 3).state, DoorState::Opening);
}

#[test]
fn resting_door_ignores_everything_but_buttons() {
    let (mut door, mut signals) = opened();
    signals.raise_open_limit();
    signals.raise_close_limit();
    signals.raise_overcurrent();
    let report = step(&mut door, &mut signals, u64::MAX);
    assert_eq!(report, DoorReport { entered: None, cause: None, state: DoorState::Opened });
    assert!(signals.take_open_limit());
    assert!(signals.take_close_limit());
    assert!(signals.take_overcurrent());
}

#[test]
fn overcurrent_stops_opening_door() {
    let (mut door, mut signals) = opening();
    signals.raise_overcurrent();
    let report = step(&mut door, &mut signals, 1);
    assert_eq!(report.cause, Some(DoorCause::Overcurrent));
    assert_eq!(report.state, DoorState::Idle);
    assert!(!signals.take_overcurrent());
    step(&mut door, &mut signals, 2);
    assert_eq!(signals.take_pulley(), Some(PulleyCommand::Stop));
}

#[test]
fn overcurrent_reopens_closing_door() {
    let (mut door, mut signals) = closing();
    signals.raise_overcurrent();
    let report = step(&mut door, &mut signals, 1);
    assert_eq!(report.cause, Some(DoorCause::Overcurrent));
    assert_eq!(report.state, DoorState::Opening);
    let report = step(&mut door, &mut signals, 2);
    assert_eq!(report.entered, Some(DoorState::Opening));
    assert_eq!(signals.take_pulley(), Some(PulleyCommand::RampUpCCW));
}

#[test]
fn motion_times_out_on_the_tick() {
    for (mut door, mut signals) in [opening(), closing()] {
        let before = door.state();
        assert_eq!(step(&mut door, &mut signals, 9_999_999).state, before);
        let report = step(&mut door, &mut signals, 10_000_000);
        assert_eq!(report.cause, Some(DoorCause::Timeout));
        assert_eq!(report.state, DoorState::Idle);
        let report = step(&mut door, &mut signals, 10_000_001);
        assert_eq!(report.entered, Some(DoorState::Idle));
        assert_eq!(signals.take_pulley(), Some(PulleyCommand::Stop));
    }
}

#[test]
fn deadline_counts_from_entering() {
    let mut door = DoorController::new_at(0);
    let mut signals = Signals::new();
    signals.post_door(DoorCommand::Open);
    step(&mut door, &mut signals, 400);
    door.step_at(&mut signals, 500, 501).unwrap();
    assert_eq!(step(&mut door, &mut signals, 10_000_499).cause, None);
    assert_eq!(step(&mut door, &mut signals, 10_000_500).cause, Some(DoorCause::Timeout));
}

#[test]
fn turning_round_sets_a_new_deadline() {
    let (mut door, mut signals) = opening();
    signals.post_door(DoorCommand::Close);
    step(&mut door, &mut signals, 9_000_000);
    step(&mut door, &mut signals, 9_000_010);
    assert_eq!(step(&mut door, &mut signals, 19_000_009).cause, None);
    assert_eq!(step(&mut door, &mut signals, 19_000_010).cause, Some(DoorCause::Timeout));
}

#[test]
fn deadline_beyond_the_clock_is_refused() {
    let mut door = DoorController::new_at(0);
    let mut signals = Signals::new();
    signals.post_door(DoorCommand::Open);
    step(&mut door, &mut signals, u64::MAX);
    let late = u64::MAX - 9_999_999;
    assert_eq!(door.step_at(&mut signals, late, late), Err(ClockOverflow));
    assert_eq!(door.state(), DoorState::Opening);
    assert_eq!(signals.take_pulley(), None);
    let report = door.step_at(&mut signals, late - 1, late).unwrap();
    assert_eq!(report.entered, Some(DoorState::Opening));
    assert_eq!(report.cause, None);
    assert_eq!(step(&mut door, &mut signals, u64::MAX).cause, Some(DoorCause::Timeout));
}
