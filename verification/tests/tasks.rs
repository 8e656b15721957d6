use door_controller::door::DoorCommand;
use door_controller::network::{net_seed, Link, LinkAction, LinkEvent};
use door_controller::overcurrent::check_current;
use door_controller::pulley::PulleyCommand;
use door_controller::signals::Signals;
use door_controller::switch::{Switch, SwitchRole, SwitchWait};

#[test]
fn signals_keep_the_latest_post_only() {
    let mut signals = Signals::new();
    assert_eq!(signals.take_pulley(), None);
    signals.post_pulley(PulleyCommand::RampUpCCW);
    signals.post_pulley(PulleyCommand::Stop);
    assert_eq!(signals.take_pulley(), Some(PulleyCommand::Stop));
    assert_eq!(signals.take_pulley(), None);
    signals.raise_open_limit();
    signals.raise_open_limit();
    assert!(!signals.take_close_limit());
    assert!(!signals.take_overcurrent());
    assert_eq!(signals.take_door(), None);
    assert!(signals.take_open_limit());
    assert!(!signals.take_open_limit());
}

#[test]
fn switch_goes_round_its_phases() {
    let mut switch = Switch::new(SwitchRole::OpenButton);
    let mut signals = Signals::new();
    for _ in 0..3 {
        assert_eq!(switch.wait(), SwitchWait::FallingEdge);
        assert!(!switch.resume(true, &mut signals));
        assert_eq!(signals.take_door(), None);
        assert_eq!(switch.wait(), SwitchWait::Millis(50));
        assert!(switch.resume(true, &mut signals));
        assert_eq!(signals.take_door(), Some(DoorCommand::Open));
        assert_eq!(switch.wait(), SwitchWait::RisingEdge);
        assert!(!switch.resume(true, &mut signals));
        assert_eq!(switch.wait(), SwitchWait::Millis(50));
        assert!(!switch.resume(true, &mut signals));
        assert_eq!(signals.take_door(), None);
    }
}

#[test]
fn bounce_is_not_a_press() {
    let mut switch = Switch::new(SwitchRole::CloseButton);
    let mut signals = Signals::new();
    switch.resume(true, &mut signals);
    assert!(!switch.resume(false, &mut signals));
    assert_eq!(signals.take_door(), None);
    assert_eq!(switch.wait(), SwitchWait::RisingEdge);
}

#[test]
fn each_switch_has_its_signal() {
    let mut signals = Signals::new();
    for role in [SwitchRole::CloseButton, SwitchRole::OpenLimit, SwitchRole::CloseLimit] {
        let mut switch = Switch::new(role);
        switch.resume(true, &mut signals);
        assert!(switch.resume(true, &mut signals));
        assert_eq!(
            signals.take_door(),
            if role == SwitchRole::CloseButton { Some(DoorCommand::Close) } else { None }
        );
        assert_eq!(signals.take_open_limit(), role == SwitchRole::OpenLimit);
        assert_eq!(signals.take_close_limit(), role == SwitchRole::CloseLimit);
    }
}

#[test]
fn current_is_too_high_from_the_threshold_on() {
    let mut signals = Signals::new();
    assert!(!check_current(None, &mut signals));
    assert!(!check_current(Some(0), &mut signals));
    assert!(!check_current(Some(1023), &mut signals));
    assert!(!signals.take_overcurrent());
    assert!(check_current(Some(1024), &mut signals));
    assert!(signals.take_overcurrent());
    assert!(check_current(Some(u16::MAX), &mut signals));
    assert!(!check_current(Some(10), &mut signals));
    assert!(signals.take_overcurrent());
}

#[test]
fn link_pauses_between_attempts() {
    let mut link = Link::new();
    assert_eq!(link.action(), LinkAction::Connect);
    link.resume(LinkEvent::Failed);
    assert_eq!(link.action(), LinkAction::Sleep(5_000));
    link.resume(LinkEvent::Done);
    assert_eq!(link.action(), LinkAction::Connect);
    link.resume(LinkEvent::Done);
    assert_eq!(link.action(), LinkAction::AwaitDisconnect);
    link.resume(LinkEvent::Failed);
    assert_eq!(link.action(), LinkAction::Sleep(5_000));
    link.resume(LinkEvent::Done);
    assert_eq!(link.action(), LinkAction::Connect);
}

#[test]
fn seed_puts_the_first_word_low() {
    assert_eq!(net_seed(0x89ab_cdef, 0x0123_4567), 0x0123_4567_89ab_cdef);
    assert_eq!(net_seed(u32::MAX, 0), 0xffff_ffff);
    assert_eq!(net_seed(0, 1), 0x1_0000_0000);
    assert_eq!(net_seed(u32::MAX, u32::MAX), u64::MAX);
}
