use door_controller::pulley::{
    Duties, PulleyCommand, PulleyDriver, PulleyState, PULLEY_DUTY_MAX, PULLEY_RAMP_STEP_MS,
};
use door_controller::signals::Signals;

const OFF: Option<Duties> = Some(Duties { a: 0, b: 0 });

fn send(
    driver: &mut PulleyDriver,
    signals: &mut Signals,
    cmd: PulleyCommand,
) -> Option<Duties> {
    signals.post_pulley(cmd);
    let duties = driver.step(signals);
    assert_eq!(signals.take_pulley(), None);
    duties
}

fn quiet(driver: &mut PulleyDriver, signals: &mut Signals, steps: usize) {
    for _ in 0..steps {
        driver.step(signals);
    }
}

fn at_speed(cmd: PulleyCommand) -> (PulleyDriver, Signals) {
    let mut driver = PulleyDriver::new();
    let mut signals = Signals::new();
    send(&mut driver, &mut signals, cmd);
    quiet(&mut driver, &mut signals, 101);
    assert_eq!(driver.duty(), PULLEY_DUTY_MAX);
    (driver, signals)
}

#[test]
fn constants_are_as_documented() {
    assert_eq!(PULLEY_RAMP_STEP_MS, 10);
    assert_eq!(PULLEY_DUTY_MAX, 100);
}

#[test]
fn resting_driver_switches_both_channels_off() {
    let mut driver = PulleyDriver::new();
    let mut signals = Signals::new();
    assert_eq!(driver.step(&mut signals), OFF);
    assert_eq!(send(&mut driver, &mut signals, PulleyCommand::Stop), OFF);
    assert_eq!(driver.state(), PulleyState::Hold);
}

#[test]
fn ramp_up_counter_clockwise() {
    let mut driver = PulleyDriver::new();
    let mut signals = Signals::new();
    assert_eq!(send(&mut driver, &mut signals, PulleyCommand::RampUpCCW), OFF);
    assert_eq!(driver.state(), PulleyState::RampingUpCCW);
    for duty in 1..=100u8 {
        assert_eq!(driver.step(&mut signals), Some(Duties { a: duty, b: 0 }));
        assert_eq!(driver.state(), PulleyState::RampingUpCCW);
    }
    assert_eq!(driver.step(&mut signals), None);
    assert_eq!(driver.state(), PulleyState::DrivingCCW);
    assert_eq!(driver.dest_state(), PulleyState::DrivingCCW);
    assert_eq!(driver.step(&mut signals), Some(Duties { a: 100, b: 0 }));
    assert_eq!(driver.state(), PulleyState::DrivingCCW);
}

#[test]
fn ramp_up_clockwise() {
    let mut driver = PulleyDriver::new();
    let mut signals = Signals::new();
    assert_eq!(send(&mut driver, &mut signals, PulleyCommand::RampUpCW), OFF);
    for duty in 1..=100u8 {
        assert_eq!(driver.step(&mut signals), Some(Duties { a: 0, b: duty }));
    }
    assert_eq!(driver.step(&mut signals), None);
    assert_eq!(driver.state(), PulleyState::DrivingCW);
    assert_eq!(driver.step(&mut signals), Some(Duties { a: 0, b: 100 }));
}

#[test]
fn ramp_down_to_rest() {
    let (mut driver, mut signals) = at_speed(PulleyCommand::RampUpCCW);
    assert_eq!(send(&mut driver, &mut signals, PulleyCommand::Stop), None);
    assert_eq!(driver.state(), PulleyState::RampingDownCCW);
    assert_eq!(driver.dest_state(), PulleyState::Hold);
    for duty in (0..100u8).rev() {
        assert_eq!(driver.step(&mut signals), Some(Duties { a: duty, b: 0 }));
    }
    assert_eq!(driver.step(&mut signals), None);
    assert_eq!(driver.state(), PulleyState::Hold);
    assert_eq!(driver.step(&mut signals), OFF);
    assert_eq!(driver.state(), PulleyState::Hold);
}

#[test]
fn reversal_rests_before_it_turns() {
    let (mut driver, mut signals) = at_speed(PulleyCommand::RampUpCW);
    assert_eq!(send(&mut driver, &mut signals, PulleyCommand::RampUpCCW), None);
    assert_eq!(driver.state(), PulleyState::RampingDownCW);
    assert_eq!(driver.dest_state(), PulleyState::RampingUpCCW);
    for duty in (0..100u8).rev() {
        assert_eq!(driver.step(&mut signals), Some(Duties { a: 0, b: duty }));
    }
    assert_eq!(driver.step(&mut signals), None);
    assert_eq!(driver.step(&mut signals), OFF);
    assert_eq!(driver.step(&mut signals), Some(Duties { a: 1, b: 0 }));
    quiet(&mut driver, &mut signals, 100);
    assert_eq!(driver.state(), PulleyState::DrivingCCW);
}

#[test]
fn full_reversal_takes_all_its_steps() {
    let (mut driver, mut signals) = at_speed(PulleyCommand::RampUpCCW);
    send(&mut driver, &mut signals, PulleyCommand::RampUpCW);
    quiet(&mut driver, &mut signals, 202);
    assert_eq!(driver.state(), PulleyState::RampingUpCW);
    quiet(&mut driver, &mut signals, 1);
    assert_eq!(driver.state(), PulleyState::DrivingCW);
}

#[test]
fn ramp_can_be_taken_up_again() {
    let mut driver = PulleyDriver::new();
    let mut signals = Signals::new();
    send(&mut driver, &mut signals, PulleyCommand::RampUpCCW);
    quiet(&mut driver, &mut signals, 40);
    assert_eq!(send(&mut driver, &mut signals, PulleyCommand::Stop), None);
    quiet(&mut driver, &mut signals, 10);
    assert_eq!(driver.duty(), 30);
    assert_eq!(send(&mut driver, &mut signals, PulleyCommand::RampUpCCW), None);
    assert_eq!(driver.state(), PulleyState::RampingUpCCW);
    assert_eq!(driver.step(&mut signals), Some(Duties { a: 31, b: 0 }));
}

#[test]
fn own_direction_changes_nothing_but_costs_a_step() {
    let mut driver = PulleyDriver::new();
    let mut signals = Signals::new();
    send(&mut driver, &mut signals, PulleyCommand::RampUpCW);
    quiet(&mut driver, &mut signals, 5);
    assert_eq!(send(&mut driver, &mut signals, PulleyCommand::RampUpCW), None);
    assert_eq!(driver.duty(), 5);
    let (mut driver, mut signals) = at_speed(PulleyCommand::RampUpCW);
    assert_eq!(send(&mut driver, &mut signals, PulleyCommand::RampUpCW), None);
    assert_eq!(driver.state(), PulleyState::DrivingCW);
}

#[test]
fn stop_is_lost_on_a_driver_about_to_reverse() {
    let (mut driver, mut signals) = at_speed(PulleyCommand::RampUpCCW);
    send(&mut driver, &mut signals, PulleyCommand::RampUpCW);
    assert_eq!(send(&mut driver, &mut signals, PulleyCommand::Stop), None);
    assert_eq!(driver.dest_state(), PulleyState::RampingUpCW);
    quiet(&mut driver, &mut signals, 101);
    assert_eq!(driver.state(), PulleyState::Hold);
    assert_eq!(send(&mut driver, &mut signals, PulleyCommand::Stop), OFF);
    quiet(&mut driver, &mut signals, 102);
    assert_eq!(driver.state(), PulleyState::DrivingCW);
}

#[test]
fn other_direction_is_lost_on_a_driver_about_to_rest() {
    let (mut driver, mut signals) = at_speed(PulleyCommand::RampUpCCW);
    send(&mut driver, &mut signals, PulleyCommand::Stop);
    assert_eq!(send(&mut driver, &mut signals, PulleyCommand::RampUpCW), None);
    quiet(&mut driver, &mut signals, 300);
    assert_eq!(driver.state(), PulleyState::Hold);
}

#[test]
fn resting_driver_prefers_a_command_to_its_destination() {
    let (mut driver, mut signals) = at_speed(PulleyCommand::RampUpCCW);
    send(&mut driver, &mut signals, PulleyCommand::RampUpCW);
    quiet(&mut driver, &mut signals, 101);
    assert_eq!(driver.state(), PulleyState::Hold);
    assert_eq!(send(&mut driver, &mut signals, PulleyCommand::RampUpCCW), OFF);
    assert_eq!(driver.state(), PulleyState::RampingUpCCW);
    assert_eq!(driver.dest_state(), PulleyState::RampingUpCCW);
}

#[test]
fn directions_are_mirror_images() {
    let script = [
        (PulleyCommand::RampUpCCW, PulleyCommand::RampUpCW, 30),
        (PulleyCommand::RampUpCW, PulleyCommand::RampUpCCW, 50),
        (PulleyCommand::Stop, PulleyCommand::Stop, 7),
        (PulleyCommand::RampUpCW, PulleyCommand::RampUpCCW, 150),
        (PulleyCommand::Stop, PulleyCommand::Stop, 120),
    ];
    let mut left = PulleyDriver::new();
    let mut right = PulleyDriver::new();
    let mut left_signals = Signals::new();
    let mut right_signals = Signals::new();
    for (cmd, mirrored, steps) in script {
        left_signals.post_pulley(cmd);
        right_signals.post_pulley(mirrored);
        for _ in 0..steps {
            let l = left.step(&mut left_signals);
            let r = right.step(&mut right_signals);
            assert_eq!(l.map(|d| (d.a, d.b)), r.map(|d| (d.b, d.a)));
        }
    }
}

#[test]
fn writes_never_jump_or_overlap() {
    let cmds = [
        PulleyCommand::RampUpCCW,
        PulleyCommand::RampUpCW,
        PulleyCommand::Stop,
        PulleyCommand::RampUpCW,
        PulleyCommand::RampUpCCW,
        PulleyCommand::RampUpCCW,
        PulleyCommand::Stop,
    ];
    let mut driver = PulleyDriver::new();
    let mut signals = Signals::new();
    let mut last = Duties { a: 0, b: 0 };
    let mut seed: u32 = 1;
    for _ in 0..5_000 {
        seed = seed.wrapping_mul(1_103_515_245).wrapping_add(12_345);
        if (seed >> 16) % 23 == 0 {
            signals.post_pulley(cmds[((seed >> 8) % 7) as usize]);
        }
        if let Some(duties) = driver.step(&mut signals) {
            assert!(duties.a == 0 || duties.b == 0);
            assert!(duties.a <= 100 && duties.b <= 100);
            assert!(duties.a.abs_diff(last.a) <= 1 && duties.b.abs_diff(last.b) <= 1);
            last = duties;
        }
    }
}
