use door_controller::door::{DoorCause, DoorCommand, DoorController, DoorState};
use door_controller::signals::Signals;
use embassy_time::{Duration, MockDriver};

#[test]
fn door_goes_by_the_clock() {
    let clock = MockDriver::get();
    clock.advance(Duration::from_secs(3));

    let mut door = DoorController::new();
    let mut signals = Signals::new();
    signals.post_door(DoorCommand::Close);
    assert_eq!(door.step(&mut signals).unwrap().state, DoorState::Closing);
    clock.advance(Duration::from_millis(10));
    assert_eq!(door.step(&mut signals).unwrap().entered, Some(DoorState::Closing));

    clock.advance(Duration::from_ticks(9_999_999));
    assert_eq!(door.step(&mut signals).unwrap().cause, None);
    clock.advance(Duration::from_ticks(1));
    let report = door.step(&mut signals).unwrap();
    assert_eq!(report.cause, Some(DoorCause::Timeout));
    assert_eq!(report.state, DoorState::Idle);
}
