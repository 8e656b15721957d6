//! What holds of the pulley driver over many steps.

use crate::pulley::{
    Direction, Duties, PulleyCommand, PulleyState, PulleyView, PULLEY_DUTY_MAX,
    PULLEY_RAMP_STEP_MS,
};
use vstd::prelude::*;

verus! {

impl PulleyView {
    /// The driver after steps that found these commands.
    pub open spec fn run(self, cmds: Seq<Option<PulleyCommand>>) -> PulleyView
        decreases cmds.len(),
    {
        if cmds.len() == 0 {
            self
        } else {
            self.run(cmds.drop_last()).next(cmds.last())
        }
    }

    /// What the `i`th of those steps writes to the channels.
    pub open spec fn output_at(self, cmds: Seq<Option<PulleyCommand>>, i: int) -> Option<Duties> {
        self.run(cmds.take(i)).output(cmds[i])
    }

    /// The driver after `n` steps without a command.
    pub open spec fn quiet(self, n: nat) -> PulleyView
        decreases n,
    {
        if n == 0 {
            self
        } else {
            self.quiet((n - 1) as nat).next(None)
        }
    }

    /// The motion that the driver ends up in if it is left alone.
    pub open spec fn heading(self) -> Option<Direction> {
        match self.state.direction() {
            Some(d) if self.state != d.ramping_down() => Some(d),
            _ => self.dest.direction(),
        }
    }

    /// A driver that has arrived in a motion.
    pub open spec fn settled(motion: Option<Direction>) -> PulleyView {
        match motion {
            Some(d) => PulleyView::at_speed(d),
            None => PulleyView::at_rest(),
        }
    }

    /// How many steps the driver needs to arrive where it is heading. A ramp
    /// takes one step for each percent and one to move on, and so does leaving
    /// the state of rest.
    pub open spec fn steps_to_settle(self) -> nat {
        let from_rest: nat = if self.dest.direction() is Some {
            (1 + PULLEY_DUTY_MAX + 1) as nat
        } else {
            0
        };
        match self.state {
            PulleyState::Hold => from_rest,
            PulleyState::RampingUpCCW | PulleyState::RampingUpCW => (PULLEY_DUTY_MAX - self.duty
                + 1) as nat,
            PulleyState::DrivingCCW | PulleyState::DrivingCW => 0,
            PulleyState::RampingDownCCW | PulleyState::RampingDownCW => (self.duty + 1
                + from_rest) as nat,
        }
    }

    /// Whether the driver is deaf to a command that it is not already heading
    /// for: one that slows down hears only its own direction, and one that
    /// rests before a reversal does not hear a request to stop.
    pub open spec fn ignores(self, cmd: PulleyCommand) -> bool {
        &&& self.heading() != cmd.motion()
        &&& match self.state {
            PulleyState::Hold => cmd == PulleyCommand::Stop,
            PulleyState::RampingDownCCW => cmd != PulleyCommand::RampUpCCW,
            PulleyState::RampingDownCW => cmd != PulleyCommand::RampUpCW,
            _ => false,
        }
    }
}

/// A step keeps a driver well-formed.
pub proof fn law_step_keeps_wf(v: PulleyView, cmd: Option<PulleyCommand>)
    requires
        v.wf(),
    ensures
        v.next(cmd).wf(),
{
}

/// A driver that starts at rest is well-formed whatever it is told.
pub proof fn law_always_wf(cmds: Seq<Option<PulleyCommand>>)
    ensures
        PulleyView::at_rest().run(cmds).wf(),
{
    lemma_run_wf(PulleyView::at_rest(), cmds);
}

/// The two channels are never driven at the same time, and neither is ever asked
/// for more than full duty.
pub proof fn law_one_channel_at_a_time(v: PulleyView, cmd: Option<PulleyCommand>)
    requires
        v.wf(),
    ensures
        v.output(cmd) matches Some(duties) ==> {
            &&& duties.a == 0 || duties.b == 0
            &&& duties.a <= PULLEY_DUTY_MAX
            &&& duties.b <= PULLEY_DUTY_MAX
        },
{
}

/// The speed changes by at most one percent a step, and not at all in a step that
/// finds a command or writes nothing. What is written is the new speed, on the
/// channel of the direction in which the driver turns.
pub proof fn law_speed_changes_gently(v: PulleyView, cmd: Option<PulleyCommand>)
    requires
        v.wf(),
    ensures
        -1 <= v.next(cmd).duty - v.duty <= 1,
        cmd is Some || v.output(cmd) is None ==> v.next(cmd).duty == v.duty,
        v.output(cmd) matches Some(duties) ==> match v.state.direction() {
            Some(d) => duties == d.drive(v.next(cmd).duty),
            None => duties == (Duties { a: 0, b: 0 }) && v.next(cmd).duty == 0,
        },
{
}

/// Between one write to the channels and the next, neither channel jumps by more
/// than one percent.
pub proof fn law_writes_change_gently(
    v: PulleyView,
    cmds: Seq<Option<PulleyCommand>>,
    i: int,
    j: int,
)
    requires
        v.wf(),
        0 <= i < j < cmds.len(),
        v.output_at(cmds, i) is Some,
        v.output_at(cmds, j) is Some,
        forall|k: int| i < k < j ==> #[trigger] v.output_at(cmds, k) is None,
    ensures
        -1 <= v.output_at(cmds, j)->0.a - v.output_at(cmds, i)->0.a <= 1,
        -1 <= v.output_at(cmds, j)->0.b - v.output_at(cmds, i)->0.b <= 1,
{
    lemma_run_step(v, cmds, i);
    lemma_silence_keeps_speed(v, cmds, i, j);
    lemma_run_wf(v, cmds.take(i));
    lemma_run_wf(v, cmds.take(j));
    law_speed_changes_gently(v.run(cmds.take(i)), cmds[i]);
    law_speed_changes_gently(v.run(cmds.take(j)), cmds[j]);
}

proof fn lemma_run_wf(v: PulleyView, cmds: Seq<Option<PulleyCommand>>)
    requires
        v.wf(),
    ensures
        v.run(cmds).wf(),
    decreases cmds.len(),
{
    if cmds.len() > 0 {
        lemma_run_wf(v, cmds.drop_last());
    }
}

proof fn lemma_run_step(v: PulleyView, cmds: Seq<Option<PulleyCommand>>, i: int)
    requires
        0 <= i < cmds.len(),
    ensures
        v.run(cmds.take(i + 1)) == v.run(cmds.take(i)).next(cmds[i]),
{
    assert(cmds.take(i + 1).drop_last() =~= cmds.take(i));
}

/// Steps that write nothing change neither the speed nor the direction, except
/// that they may end at rest.
proof fn lemma_silence_keeps_speed(
    v: PulleyView,
    cmds: Seq<Option<PulleyCommand>>,
    i: int,
    j: int,
)
    requires
        v.wf(),
        0 <= i < j < cmds.len(),
        forall|k: int| i < k < j ==> #[trigger] v.output_at(cmds, k) is None,
    ensures
        v.run(cmds.take(j)).duty == v.run(cmds.take(i + 1)).duty,
        ({
            let before = v.run(cmds.take(i + 1)).state.direction();
            let after = v.run(cmds.take(j)).state.direction();
            after == before || after is None
        }),
    decreases j - i,
{
    if i + 1 < j {
        lemma_silence_keeps_speed(v, cmds, i, j - 1);
        lemma_run_step(v, cmds, j - 1);
        lemma_run_wf(v, cmds.take(j - 1));
        assert(v.output_at(cmds, j - 1) is None);
    }
}

/// A step never takes the driver from one direction straight to the other.
proof fn lemma_no_direct_reversal(v: PulleyView, cmd: Option<PulleyCommand>, d: Direction)
    requires
        v.wf(),
        v.state.direction() == Some(d),
    ensures
        v.next(cmd).state.direction() != Some(d.opposite()),
{
}

proof fn lemma_rest_between(
    v: PulleyView,
    cmds: Seq<Option<PulleyCommand>>,
    d: Direction,
    i: int,
    j: int,
) -> (k: int)
    requires
        v.wf(),
        0 <= i < j < cmds.len(),
        v.run(cmds.take(i)).state.direction() == Some(d),
        v.run(cmds.take(j)).state.direction() == Some(d.opposite()),
    ensures
        i < k < j,
        v.run(cmds.take(k)).state == PulleyState::Hold,
    decreases j - i,
{
    lemma_run_step(v, cmds, j - 1);
    lemma_run_wf(v, cmds.take(j - 1));
    let before = v.run(cmds.take(j - 1));
    if before.state.direction() is None {
        j - 1
    } else if before.state.direction() == Some(d) {
        lemma_no_direct_reversal(before, cmds[j - 1], d);
        j - 1
    } else {
        lemma_rest_between(v, cmds, d, i, j - 1)
    }
}

/// The pulley never reverses without having stopped: between a step that drives
/// one channel and a later one that drives the other lies one that switches both
/// off.
pub proof fn law_reversal_passes_through_rest(
    v: PulleyView,
    cmds: Seq<Option<PulleyCommand>>,
    d: Direction,
    i: int,
    j: int,
    speed_i: u8,
    speed_j: u8,
)
    requires
        v.wf(),
        0 <= i < j < cmds.len(),
        speed_i > 0,
        speed_j > 0,
        v.output_at(cmds, i) == Some(d.drive(speed_i)),
        v.output_at(cmds, j) == Some(d.opposite().drive(speed_j)),
    ensures
        exists|k: int|
            i < k < j && #[trigger] v.output_at(cmds, k) == Some(Duties { a: 0, b: 0 }),
{
    let k = lemma_rest_between(v, cmds, d, i, j);
    assert(v.output_at(cmds, k) == Some(Duties { a: 0, b: 0 }));
}

/// A step without a command brings a driver one step nearer to where it is
/// heading, and leaves one that has arrived as it is.
pub(crate) proof fn lemma_coast(v: PulleyView)
    requires
        v.wf(),
    ensures
        v.next(None).heading() == v.heading(),
        v.steps_to_settle() > 0 ==> v.next(None).steps_to_settle() == v.steps_to_settle() - 1,
        v.steps_to_settle() == 0 ==> v.next(None) == v,
        v.steps_to_settle() == 0 <==> v == PulleyView::settled(v.heading()),
{
}

proof fn lemma_quiet(v: PulleyView, n: nat)
    requires
        v.wf(),
    ensures
        v.quiet(n).wf(),
        v.quiet(n).heading() == v.heading(),
        v.quiet(n).steps_to_settle() == (if n < v.steps_to_settle() {
            v.steps_to_settle() - n
        } else {
            0
        }),
    decreases n,
{
    if n > 0 {
        lemma_quiet(v, (n - 1) as nat);
        lemma_coast(v.quiet((n - 1) as nat));
    }
}

/// A driver that is left alone arrives where it is heading after exactly
/// `steps_to_settle` steps, and stays there.
pub proof fn law_settles(v: PulleyView, n: nat)
    requires
        v.wf(),
    ensures
        v.quiet(n) == PulleyView::settled(v.heading()) <==> n >= v.steps_to_settle(),
{
    lemma_quiet(v, n);
    lemma_coast(v.quiet(n));
}

/// However a driver turns, it settles within a full ramp down, a ramp up and the
/// three steps that lead from one state to the next.
pub proof fn law_settling_is_bounded(v: PulleyView)
    requires
        v.wf(),
    ensures
        v.steps_to_settle() <= 2 * PULLEY_DUTY_MAX + 3,
{
}

/// A command decides where the driver is heading, unless the driver ignores it.
pub proof fn law_command_sets_heading(v: PulleyView, cmd: PulleyCommand)
    requires
        v.wf(),
    ensures
        v.next(Some(cmd)).heading() == cmd.motion() <==> !v.ignores(cmd),
{
}

/// A command that is ignored is lost: it leaves no trace in the driver.
pub proof fn law_ignored_command_is_lost(v: PulleyView, cmd: PulleyCommand)
    requires
        v.wf(),
        v.ignores(cmd),
    ensures
        v.next(Some(cmd)) == v,
{
}

/// A driver that does not ignore a command and is then left alone ends up in the
/// motion that was asked for, at full speed or at rest.
pub proof fn law_command_is_carried_out(v: PulleyView, cmd: PulleyCommand, n: nat)
    requires
        v.wf(),
        !v.ignores(cmd),
        n >= 2 * PULLEY_DUTY_MAX + 3,
    ensures
        v.next(Some(cmd)).quiet(n) == PulleyView::settled(cmd.motion()),
{
    let after = v.next(Some(cmd));
    law_command_sets_heading(v, cmd);
    law_settling_is_bounded(after);
    law_settles(after, n);
}

/// A request to stop is never ignored by a driver that speeds up or is at speed:
/// left alone, it is at rest after one step for each percent of its speed and
/// one more.
pub proof fn law_stop_from_motion(v: PulleyView, d: Direction, n: nat)
    requires
        v.wf(),
        v.state == d.ramping_up() || v.state == d.driving(),
    ensures
        v.next(Some(PulleyCommand::Stop)).quiet(n) == PulleyView::at_rest() <==> n >= v.duty + 1,
{
    law_settles(v.next(Some(PulleyCommand::Stop)), n);
}

/// The same state with the two directions exchanged.
pub open spec fn mirrored_state(state: PulleyState) -> PulleyState {
    match state {
        PulleyState::Hold => PulleyState::Hold,
        PulleyState::RampingUpCCW => PulleyState::RampingUpCW,
        PulleyState::DrivingCCW => PulleyState::DrivingCW,
        PulleyState::RampingDownCCW => PulleyState::RampingDownCW,
        PulleyState::RampingUpCW => PulleyState::RampingUpCCW,
        PulleyState::DrivingCW => PulleyState::DrivingCCW,
        PulleyState::RampingDownCW => PulleyState::RampingDownCCW,
    }
}

/// The same command with the two directions exchanged.
pub open spec fn mirrored_command(cmd: Option<PulleyCommand>) -> Option<PulleyCommand> {
    match cmd {
        Some(PulleyCommand::RampUpCCW) => Some(PulleyCommand::RampUpCW),
        Some(PulleyCommand::RampUpCW) => Some(PulleyCommand::RampUpCCW),
        other => other,
    }
}

/// The same driver with the two directions exchanged.
pub open spec fn mirrored(v: PulleyView) -> PulleyView {
    PulleyView { state: mirrored_state(v.state), dest: mirrored_state(v.dest), duty: v.duty }
}

/// The driver treats both directions alike.
pub proof fn law_directions_are_alike(v: PulleyView, cmd: Option<PulleyCommand>)
    requires
        v.wf(),
    ensures
        mirrored(v).next(mirrored_command(cmd)) == mirrored(v.next(cmd)),
        mirrored(v).output(mirrored_command(cmd)) == match v.output(cmd) {
            Some(duties) => Some(Duties { a: duties.b, b: duties.a }),
            None => None,
        },
{
}

/// A driver at rest switches both channels off in every step. A command to turn
/// starts a ramp from zero; a command to stop changes nothing. Without a command, a
/// ramp that is due starts from zero, and else nothing changes.
pub proof fn law_at_rest(v: PulleyView, cmd: Option<PulleyCommand>)
    requires
        v.state == PulleyState::Hold,
    ensures
        v.output(cmd) == Some(Duties { a: 0, b: 0 }),
        cmd == Some(PulleyCommand::RampUpCCW) || (cmd is None && v.dest
            == PulleyState::RampingUpCCW) ==> {
            &&& v.next(cmd).state == PulleyState::RampingUpCCW
            &&& v.next(cmd).dest == PulleyState::RampingUpCCW
            &&& v.next(cmd).duty == 0
        },
        cmd == Some(PulleyCommand::RampUpCW) || (cmd is None && v.dest
            == PulleyState::RampingUpCW) ==> {
            &&& v.next(cmd).state == PulleyState::RampingUpCW
            &&& v.next(cmd).dest == PulleyState::RampingUpCW
            &&& v.next(cmd).duty == 0
        },
        cmd == Some(PulleyCommand::Stop) || (cmd is None && v.dest != PulleyState::RampingUpCCW
            && v.dest != PulleyState::RampingUpCW) ==> v.next(cmd) == v,
{
}

/// A driver that speeds up counter-clockwise gains one percent a step and writes it to its
/// channel, and at a hundred percent it is at speed. Asked for its own direction it
/// goes on; asked to stop or to turn round it starts to slow down, at the speed
/// that it has, to do that next.
pub proof fn law_speeding_up_ccw(v: PulleyView, cmd: PulleyCommand)
    requires
        v.state == PulleyState::RampingUpCCW,
    ensures
        v.duty < 100 ==> {
            &&& v.next(None).state == v.state && v.next(None).dest == v.dest
            &&& v.next(None).duty == v.duty + 1
            &&& v.output(None) == Some(Duties { a: (v.duty + 1) as u8, b: 0 })
        },
        v.duty >= 100 ==> {
            &&& v.next(None).state == PulleyState::DrivingCCW
            &&& v.next(None).dest == PulleyState::DrivingCCW
            &&& v.next(None).duty == v.duty
            &&& v.output(None) is None
        },
        v.output(Some(cmd)) is None,
        cmd == PulleyCommand::RampUpCCW ==> v.next(Some(cmd)) == v,
        cmd != PulleyCommand::RampUpCCW ==> {
            &&& v.next(Some(cmd)).state == PulleyState::RampingDownCCW
            &&& v.next(Some(cmd)).dest == (if cmd == PulleyCommand::Stop {
                PulleyState::Hold
            } else {
                PulleyState::RampingUpCW
            })
            &&& v.next(Some(cmd)).duty == v.duty
        },
{
}

/// A driver at speed counter-clockwise writes full duty to its channel and stays as it is.
/// Asked for its own direction it stays too; asked to stop or to turn round it
/// starts to slow down to do that next.
pub proof fn law_at_speed_ccw(v: PulleyView, cmd: PulleyCommand)
    requires
        v.state == PulleyState::DrivingCCW,
    ensures
        v.next(None) == v,
        v.output(None) == Some(Duties { a: 100, b: 0 }),
        v.output(Some(cmd)) is None,
        cmd == PulleyCommand::RampUpCCW ==> v.next(Some(cmd)) == v,
        cmd != PulleyCommand::RampUpCCW ==> {
            &&& v.next(Some(cmd)).state == PulleyState::RampingDownCCW
            &&& v.next(Some(cmd)).dest == (if cmd == PulleyCommand::Stop {
                PulleyState::Hold
            } else {
                PulleyState::RampingUpCW
            })
            &&& v.next(Some(cmd)).duty == v.duty
        },
{
}

/// A driver that slows down counter-clockwise loses one percent a step and writes what is
/// left to its channel, and at zero it rests, with what it is to do next unchanged.
/// Asked for its own direction it speeds up again from the speed that it has; any
/// other command changes nothing.
pub proof fn law_slowing_down_ccw(v: PulleyView, cmd: PulleyCommand)
    requires
        v.state == PulleyState::RampingDownCCW,
    ensures
        v.next(None).dest == v.dest,
        v.duty > 0 ==> {
            &&& v.next(None).state == v.state
            &&& v.next(None).duty == v.duty - 1
            &&& v.output(None) == Some(Duties { a: (v.duty - 1) as u8, b: 0 })
        },
        v.duty == 0 ==> {
            &&& v.next(None).state == PulleyState::Hold
            &&& v.next(None).duty == 0
            &&& v.output(None) is None
        },
        v.output(Some(cmd)) is None,
        cmd != PulleyCommand::RampUpCCW ==> v.next(Some(cmd)) == v,
        cmd == PulleyCommand::RampUpCCW ==> {
            &&& v.next(Some(cmd)).state == PulleyState::RampingUpCCW
            &&& v.next(Some(cmd)).dest == PulleyState::RampingUpCCW
            &&& v.next(Some(cmd)).duty == v.duty
        },
{
}

/// A driver that speeds up clockwise gains one percent a step and writes it to its
/// channel, and at a hundred percent it is at speed. Asked for its own direction it
/// goes on; asked to stop or to turn round it starts to slow down, at the speed
/// that it has, to do that next.
pub proof fn law_speeding_up_cw(v: PulleyView, cmd: PulleyCommand)
    requires
        v.state == PulleyState::RampingUpCW,
    ensures
        v.duty < 100 ==> {
            &&& v.next(None).state == v.state && v.next(None).dest == v.dest
            &&& v.next(None).duty == v.duty + 1
            &&& v.output(None) == Some(Duties { a: 0, b: (v.duty + 1) as u8 })
        },
        v.duty >= 100 ==> {
            &&& v.next(None).state == PulleyState::DrivingCW
            &&& v.next(None).dest == PulleyState::DrivingCW
            &&& v.next(None).duty == v.duty
            &&& v.output(None) is None
        },
        v.output(Some(cmd)) is None,
        cmd == PulleyCommand::RampUpCW ==> v.next(Some(cmd)) == v,
        cmd != PulleyCommand::RampUpCW ==> {
            &&& v.next(Some(cmd)).state == PulleyState::RampingDownCW
            &&& v.next(Some(cmd)).dest == (if cmd == PulleyCommand::Stop {
                PulleyState::Hold
            } else {
                PulleyState::RampingUpCCW
            })
            &&& v.next(Some(cmd)).duty == v.duty
        },
{
}

/// A driver at speed clockwise writes full duty to its channel and stays as it is.
/// Asked for its own direction it stays too; asked to stop or to turn round it
/// starts to slow down to do that next.
pub proof fn law_at_speed_cw(v: PulleyView, cmd: PulleyCommand)
    requires
        v.state == PulleyState::DrivingCW,
    ensures
        v.next(None) == v,
        v.output(None) == Some(Duties { a: 0, b: 100 }),
        v.output(Some(cmd)) is None,
        cmd == PulleyCommand::RampUpCW ==> v.next(Some(cmd)) == v,
        cmd != PulleyCommand::RampUpCW ==> {
            &&& v.next(Some(cmd)).state == PulleyState::RampingDownCW
            &&& v.next(Some(cmd)).dest == (if cmd == PulleyCommand::Stop {
                PulleyState::Hold
            } else {
                PulleyState::RampingUpCCW
            })
            &&& v.next(Some(cmd)).duty == v.duty
        },
{
}

/// A driver that slows down clockwise loses one percent a step and writes what is
/// left to its channel, and at zero it rests, with what it is to do next unchanged.
/// Asked for its own direction it speeds up again from the speed that it has; any
/// other command changes nothing.
pub proof fn law_slowing_down_cw(v: PulleyView, cmd: PulleyCommand)
    requires
        v.state == PulleyState::RampingDownCW,
    ensures
        v.next(None).dest == v.dest,
        v.duty > 0 ==> {
            &&& v.next(None).state == v.state
            &&& v.next(None).duty == v.duty - 1
            &&& v.output(None) == Some(Duties { a: 0, b: (v.duty - 1) as u8 })
        },
        v.duty == 0 ==> {
            &&& v.next(None).state == PulleyState::Hold
            &&& v.next(None).duty == 0
            &&& v.output(None) is None
        },
        v.output(Some(cmd)) is None,
        cmd != PulleyCommand::RampUpCW ==> v.next(Some(cmd)) == v,
        cmd == PulleyCommand::RampUpCW ==> {
            &&& v.next(Some(cmd)).state == PulleyState::RampingUpCW
            &&& v.next(Some(cmd)).dest == PulleyState::RampingUpCW
            &&& v.next(Some(cmd)).duty == v.duty
        },
{
}

/// A ramp from rest has reached `n` percent after `n` steps without a command,
/// writes the next percent to its own channel alone, and is at full speed after a
/// hundred and one.
pub proof fn law_ramp_from_rest(n: nat)
    ensures
        ({
            let rest = PulleyView {
                state: PulleyState::Hold,
                dest: PulleyState::Hold,
                duty: 0,
            };
            let ccw = rest.next(Some(PulleyCommand::RampUpCCW)).quiet(n);
            let cw = rest.next(Some(PulleyCommand::RampUpCW)).quiet(n);
            &&& n <= 100 ==> ccw.state == PulleyState::RampingUpCCW && ccw.duty == n
            &&& n <= 100 ==> cw.state == PulleyState::RampingUpCW && cw.duty == n
            &&& n < 100 ==> ccw.output(None) == Some(Duties { a: (n + 1) as u8, b: 0 })
            &&& n < 100 ==> cw.output(None) == Some(Duties { a: 0, b: (n + 1) as u8 })
            &&& n > 100 ==> ccw.state == PulleyState::DrivingCCW && ccw.duty == 100
            &&& n > 100 ==> cw.state == PulleyState::DrivingCW && cw.duty == 100
            &&& n > 100 ==> ccw.output(None) == Some(Duties { a: 100, b: 0 })
            &&& n > 100 ==> cw.output(None) == Some(Duties { a: 0, b: 100 })
        }),
    decreases n,
{
    if n > 0 {
        law_ramp_from_rest((n - 1) as nat);
    }
}

/// From full speed, a command to stop has brought the speed down by `n` percent
/// after `n` steps without another, and to rest after a hundred and one.
pub proof fn law_stop_from_full_speed(n: nat)
    ensures
        ({
            let ccw = (PulleyView {
                state: PulleyState::DrivingCCW,
                dest: PulleyState::DrivingCCW,
                duty: 100,
            }).next(Some(PulleyCommand::Stop)).quiet(n);
            let cw = (PulleyView {
                state: PulleyState::DrivingCW,
                dest: PulleyState::DrivingCW,
                duty: 100,
            }).next(Some(PulleyCommand::Stop)).quiet(n);
            &&& ccw.dest == PulleyState::Hold && cw.dest == PulleyState::Hold
            &&& n <= 100 ==> ccw.state == PulleyState::RampingDownCCW && ccw.duty == 100 - n
            &&& n <= 100 ==> cw.state == PulleyState::RampingDownCW && cw.duty == 100 - n
            &&& n < 100 ==> ccw.output(None) == Some(Duties { a: (99 - n) as u8, b: 0 })
            &&& n < 100 ==> cw.output(None) == Some(Duties { a: 0, b: (99 - n) as u8 })
            &&& n > 100 ==> ccw.state == PulleyState::Hold && ccw.duty == 0
            &&& n > 100 ==> cw.state == PulleyState::Hold && cw.duty == 0
        }),
    decreases n,
{
    if n > 0 {
        law_stop_from_full_speed((n - 1) as nat);
    }
}

/// The driver steps a hundred times a second, and full duty is a hundred percent.
pub proof fn law_pulley_timing()
    ensures
        PULLEY_RAMP_STEP_MS == 10,
        PULLEY_DUTY_MAX == 100,
{
}

} // verus!
