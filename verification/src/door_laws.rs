//! What holds of the door state machine over several steps.

use crate::clock::TICKS_PER_MS;
use crate::door::{
    DoorCause, DoorCommand, DoorReport, DoorState, DoorView, DOOR_STEP_MS, DOOR_TIMEOUT_MS,
};
use crate::pulley::PulleyCommand;
use crate::signals::Pending;
use vstd::prelude::*;

verus! {

/// What a step of the door goes by: the signals and two readings of the clock.
pub struct DoorInput {
    pub pending: Pending,
    pub entered_at: int,
    pub checked_at: int,
}

impl DoorView {
    /// The door after a step on `input`.
    pub open spec fn next_on(self, input: DoorInput) -> DoorView {
        self.next(input.pending, input.entered_at, input.checked_at)
    }

    /// The signals after a step on `input`.
    pub open spec fn pending_on(self, input: DoorInput) -> Pending {
        self.next_pending(input.pending, input.entered_at, input.checked_at)
    }

    /// The door after steps on these inputs.
    pub open spec fn run(self, inputs: Seq<DoorInput>) -> DoorView
        decreases inputs.len(),
    {
        if inputs.len() == 0 {
            self
        } else {
            self.run(inputs.drop_last()).next_on(inputs.last())
        }
    }
}

/// A door that a step has put in a new state tells the pulley so in the step that
/// follows, whatever that step goes by; a door that stayed where it was tells
/// the pulley nothing.
pub proof fn law_every_change_reaches_the_pulley(v: DoorView, first: DoorInput, second: DoorInput)
    ensures
        v.next_on(first).pending_on(second).pulley_cmd == (if v.next_on(first).state != v.state {
            Some(v.next_on(first).state.pulley_command())
        } else {
            second.pending.pulley_cmd
        }),
{
}

/// The door counts as opened only after it was opening and met the open limit
/// switch, and as closed only after it was closing and met the close limit switch.
pub proof fn law_end_positions_need_their_limit(v: DoorView, input: DoorInput)
    ensures
        v.next_on(input).state == DoorState::Opened ==> v.state == DoorState::Opened || (v.state
            == DoorState::Opening && input.pending.open_limit),
        v.next_on(input).state == DoorState::Closed ==> v.state == DoorState::Closed || (v.state
            == DoorState::Closing && input.pending.close_limit),
{
}

/// A moving door that meets its limit switch stops there, whatever else waits;
/// what else waits goes on waiting.
pub proof fn law_limit_comes_first(v: DoorView, input: DoorInput)
    requires
        v.state.limit_waits(input.pending),
    ensures
        v.next_on(input).state == (if v.state == DoorState::Opening {
            DoorState::Opened
        } else {
            DoorState::Closed
        }),
        v.pending_on(input).door_cmd == input.pending.door_cmd,
        v.pending_on(input).overcurrent == input.pending.overcurrent,
        v.state == DoorState::Opening ==> !v.pending_on(input).open_limit
            && v.pending_on(input).close_limit == input.pending.close_limit,
        v.state == DoorState::Closing ==> !v.pending_on(input).close_limit
            && v.pending_on(input).open_limit == input.pending.open_limit,
{
}

/// A command is taken and followed at once unless the door meets its limit switch
/// in the same step: after it, the door is on its way to where it was sent, or
/// already there.
pub proof fn law_command_is_followed(v: DoorView, input: DoorInput, cmd: DoorCommand)
    requires
        input.pending.door_cmd == Some(cmd),
        !v.state.limit_waits(input.pending),
    ensures
        v.pending_on(input).door_cmd is None,
        cmd == DoorCommand::Open ==> v.next_on(input).state == DoorState::Opening || (v.state
            == DoorState::Opened && v.next_on(input).state == DoorState::Opened),
        cmd == DoorCommand::Close ==> v.next_on(input).state == DoorState::Closing || (v.state
            == DoorState::Closed && v.next_on(input).state == DoorState::Closed),
{
}

/// A door at rest waits for a button: limit switches, current and time neither
/// move it nor are used up.
pub proof fn law_rest_waits_for_a_button(v: DoorView, input: DoorInput)
    requires
        !v.state.moving(),
    ensures
        input.pending.door_cmd is None ==> v.next_on(input).state == v.state,
        v.pending_on(input).open_limit == input.pending.open_limit,
        v.pending_on(input).close_limit == input.pending.close_limit,
        v.pending_on(input).overcurrent == input.pending.overcurrent,
{
}

/// The limit switch of the other direction is not looked at.
pub proof fn law_other_limit_goes_unseen(v: DoorView, input: DoorInput, other: Pending)
    requires
        v.state == DoorState::Opening ==> other == (Pending {
            close_limit: other.close_limit,
            ..input.pending
        }),
        v.state != DoorState::Opening ==> other == (Pending {
            open_limit: other.open_limit,
            ..input.pending
        }),
    ensures
        v.next_on(DoorInput { pending: other, ..input }) == v.next_on(input),
        v.state == DoorState::Opening ==> v.pending_on(input).close_limit
            == input.pending.close_limit,
        v.state != DoorState::Opening ==> v.pending_on(input).open_limit
            == input.pending.open_limit,
{
}

/// Too much current makes a closing door open again: in the next step it is
/// opening, and in the one after that the pulley is told to turn back.
pub proof fn law_obstacle_reopens(v: DoorView, first: DoorInput, second: DoorInput)
    requires
        v.state == DoorState::Closing,
        first.pending.overcurrent,
        !first.pending.close_limit,
        first.pending.door_cmd is None,
    ensures
        v.next_on(first).state == DoorState::Opening,
        v.next_on(first).pending_on(second).pulley_cmd == Some(PulleyCommand::RampUpCCW),
{
}

/// Too much current stops an opening door: in the next step it is idle, and in the
/// one after that the pulley is told to stop.
pub proof fn law_overcurrent_stops_opening(v: DoorView, first: DoorInput, second: DoorInput)
    requires
        v.state == DoorState::Opening,
        first.pending.overcurrent,
        !first.pending.open_limit,
        first.pending.door_cmd is None,
    ensures
        v.next_on(first).state == DoorState::Idle,
        v.next_on(first).pending_on(second).pulley_cmd == Some(PulleyCommand::Stop),
{
}

proof fn lemma_deadline_is_kept(v: DoorView, inputs: Seq<DoorInput>, n: int)
    requires
        v.starts_motion(),
        0 < n <= inputs.len(),
        forall|k: int| 0 <= k <= n ==> (#[trigger] v.run(inputs.take(k))).state == v.state,
    ensures
        v.run(inputs.take(n)).last_state == v.state,
        v.run(inputs.take(n)).deadline == inputs[0].entered_at + crate::door::timeout_ticks(),
    decreases n,
{
    assert(inputs.take(n).drop_last() =~= inputs.take(n - 1));
    assert(v.run(inputs.take(n - 1)).state == v.state);
    if n > 1 {
        lemma_deadline_is_kept(v, inputs, n - 1);
    } else {
        assert(inputs.take(0).len() == 0);
    }
}

/// A motion is over when its time is: a door that has been in the same motion
/// since it started, and that no button is pressed for, leaves that motion in the
/// first step that sees the clock at or past the start plus the time allowed.
pub proof fn law_motion_is_bounded(v: DoorView, inputs: Seq<DoorInput>, n: int)
    requires
        v.starts_motion(),
        0 <= n < inputs.len(),
        forall|k: int| 0 <= k <= n ==> (#[trigger] v.run(inputs.take(k))).state == v.state,
        inputs[n].pending.door_cmd is None,
        inputs[n].checked_at >= inputs[0].entered_at + crate::door::timeout_ticks(),
    ensures
        v.run(inputs.take(n + 1)).state != v.state,
{
    assert(inputs.take(n + 1).drop_last() =~= inputs.take(n));
    let before = v.run(inputs.take(n));
    if n > 0 {
        lemma_deadline_is_kept(v, inputs, n);
    } else {
        assert(inputs.take(0).len() == 0);
    }
    assert(before.state == v.state);
    assert(v.run(inputs.take(n + 1)) == before.next_on(inputs[n]));
}

/// Time alone never ends a motion early: a moving door with no signal waiting goes
/// on moving as long as the clock is before the deadline.
pub proof fn law_motion_goes_on_before_the_deadline(v: DoorView, input: DoorInput)
    requires
        v.state.moving(),
        input.pending.door_cmd is None,
        !v.state.limit_waits(input.pending),
        !input.pending.overcurrent,
        input.checked_at < v.deadline_from(input.entered_at),
    ensures
        v.next_on(input).state == v.state,
        v.next_on(input).deadline == v.deadline_from(input.entered_at),
{
}

/// A step of the door goes where its state and the signals say. At its limit
/// switch a moving door is at its end. Otherwise a command sends it off, unless it
/// stands where the command would take it. Without either, only a moving door
/// leaves its state: on too much current, or else when its ten seconds are over.
pub proof fn law_where_the_door_goes(
    v: DoorView,
    pending: Pending,
    entered_at: u64,
    checked_at: u64,
    after: DoorView,
    left: Pending,
    report: DoorReport,
)
    requires
        v.stepped(pending, entered_at, checked_at, after, left, report),
    ensures
        ({
            let opening = v.state == DoorState::Opening;
            let closing = v.state == DoorState::Closing;
            let at_limit = (opening && pending.open_limit) || (closing && pending.close_limit);
            let quiet = !at_limit && pending.door_cmd is None;
            let late = checked_at >= (if v.last_state != v.state {
                entered_at + 10_000_000
            } else {
                v.deadline
            });
            &&& opening && pending.open_limit ==> after.state == DoorState::Opened
            &&& closing && pending.close_limit ==> after.state == DoorState::Closed
            &&& !at_limit && pending.door_cmd == Some(DoorCommand::Open) ==> after.state == (
            if v.state == DoorState::Opened {
                DoorState::Opened
            } else {
                DoorState::Opening
            })
            &&& !at_limit && pending.door_cmd == Some(DoorCommand::Close) ==> after.state == (
            if v.state == DoorState::Closed {
                DoorState::Closed
            } else {
                DoorState::Closing
            })
            &&& quiet && !opening && !closing ==> after.state == v.state
            &&& quiet && opening && pending.overcurrent ==> after.state == DoorState::Idle
            &&& quiet && closing && pending.overcurrent ==> after.state == DoorState::Opening
            &&& quiet && (opening || closing) && !pending.overcurrent ==> after.state == (
            if late {
                DoorState::Idle
            } else {
                v.state
            })
        }),
{
}

/// What a step takes from the signals and what it puts there. A report of the
/// limit switch that ends the current motion is always used up, and no other limit
/// report ever is. A command is used up unless the door is at its limit. The
/// current is looked at only by a moving door that found neither. The pulley gets
/// a command exactly in the step that enters a state.
pub proof fn law_what_is_used_up(
    v: DoorView,
    pending: Pending,
    entered_at: u64,
    checked_at: u64,
    after: DoorView,
    left: Pending,
    report: DoorReport,
)
    requires
        v.stepped(pending, entered_at, checked_at, after, left, report),
    ensures
        ({
            let opening = v.state == DoorState::Opening;
            let closing = v.state == DoorState::Closing;
            let at_limit = (opening && pending.open_limit) || (closing && pending.close_limit);
            &&& left.open_limit == (pending.open_limit && !opening)
            &&& left.close_limit == (pending.close_limit && !closing)
            &&& left.door_cmd == (if at_limit {
                pending.door_cmd
            } else {
                None
            })
            &&& left.overcurrent == (pending.overcurrent && (at_limit || pending.door_cmd is Some
                || !(opening || closing)))
            &&& left.pulley_cmd == (if v.last_state == v.state {
                pending.pulley_cmd
            } else if opening {
                Some(PulleyCommand::RampUpCCW)
            } else if closing {
                Some(PulleyCommand::RampUpCW)
            } else {
                Some(PulleyCommand::Stop)
            })
        }),
{
}

/// Of the four signals that a door listens to, a step empties the one that it
/// reports to have reacted to, which was waiting, and leaves the others alone.
pub proof fn law_only_the_cause_is_used_up(
    v: DoorView,
    pending: Pending,
    entered_at: u64,
    checked_at: u64,
    after: DoorView,
    left: Pending,
    report: DoorReport,
)
    requires
        v.stepped(pending, entered_at, checked_at, after, left, report),
    ensures
        match report.cause {
            Some(DoorCause::Limit) => {
                &&& left.door_cmd == pending.door_cmd && left.overcurrent == pending.overcurrent
                &&& v.state == DoorState::Opening || v.state == DoorState::Closing
                &&& v.state == DoorState::Opening ==> pending.open_limit && !left.open_limit
                    && left.close_limit == pending.close_limit
                &&& v.state == DoorState::Closing ==> pending.close_limit && !left.close_limit
                    && left.open_limit == pending.open_limit
            },
            Some(DoorCause::Command(cmd)) => {
                &&& pending.door_cmd == Some(cmd) && left.door_cmd is None
                &&& left.open_limit == pending.open_limit && left.close_limit
                    == pending.close_limit && left.overcurrent == pending.overcurrent
            },
            Some(DoorCause::Overcurrent) => {
                &&& pending.overcurrent && !left.overcurrent
                &&& left.open_limit == pending.open_limit && left.close_limit
                    == pending.close_limit && left.door_cmd == pending.door_cmd
            },
            Some(DoorCause::Timeout) | None => {
                &&& left.open_limit == pending.open_limit && left.close_limit
                    == pending.close_limit
                &&& left.overcurrent == pending.overcurrent && left.door_cmd == pending.door_cmd
            },
        },
{
}

/// A step reports the state that it entered and the one that it ended in, and it
/// names the true cause: the limit switch of the motion, else a command, else, in
/// motion, the current, else, in motion, the end of the time allowed.
pub proof fn law_report_is_true(
    v: DoorView,
    pending: Pending,
    entered_at: u64,
    checked_at: u64,
    after: DoorView,
    left: Pending,
    report: DoorReport,
)
    requires
        v.stepped(pending, entered_at, checked_at, after, left, report),
    ensures
        report.state == after.state,
        report.entered == (if v.last_state != v.state {
            Some(v.state)
        } else {
            None
        }),
        ({
            let opening = v.state == DoorState::Opening;
            let closing = v.state == DoorState::Closing;
            let at_limit = (opening && pending.open_limit) || (closing && pending.close_limit);
            let quiet = !at_limit && pending.door_cmd is None;
            let late = checked_at >= (if v.last_state != v.state {
                entered_at + 10_000_000
            } else {
                v.deadline
            });
            &&& report.cause == Some(DoorCause::Limit) <==> at_limit
            &&& !at_limit && pending.door_cmd is Some ==> report.cause == Some(
                DoorCause::Command(pending.door_cmd->0),
            )
            &&& report.cause == Some(DoorCause::Overcurrent) <==> quiet && (opening || closing)
                && pending.overcurrent
            &&& report.cause == Some(DoorCause::Timeout) <==> quiet && (opening || closing)
                && !pending.overcurrent && late
            &&& report.cause is None <==> quiet && !((opening || closing) && (pending.overcurrent
                || late))
        }),
{
}

/// A step remembers the state that it began in as entered. A motion that starts is
/// given ten seconds from the first reading; nothing else moves the deadline.
pub proof fn law_what_the_door_remembers(
    v: DoorView,
    pending: Pending,
    entered_at: u64,
    checked_at: u64,
    after: DoorView,
    left: Pending,
    report: DoorReport,
)
    requires
        v.stepped(pending, entered_at, checked_at, after, left, report),
    ensures
        after.last_state == v.state,
        after.deadline == (if v.last_state != v.state && (v.state == DoorState::Opening || v.state
            == DoorState::Closing) {
            entered_at + 10_000_000
        } else {
            v.deadline
        }),
{
}

/// A hit of a limit switch counts once. Once a door has stopped at a limit, a door
/// that later moves the same way with what is left of the signals does not stop at
/// that limit.
pub proof fn law_limit_counts_once(v: DoorView, input: DoorInput, later: DoorView, again: DoorInput)
    requires
        (v.state == DoorState::Opening && input.pending.open_limit) || (v.state
            == DoorState::Closing && input.pending.close_limit),
        later.state == v.state,
        again.pending == v.pending_on(input),
    ensures
        v.next_on(input).state != v.state,
        later.next_on(again).state != v.next_on(input).state,
{
}

/// A door that meets no new hit of its limit switch is never at its end by mistake:
/// a limit report waits after a step only if it waited before it.
pub proof fn law_no_report_is_made_up(v: DoorView, input: DoorInput)
    ensures
        v.pending_on(input).open_limit ==> input.pending.open_limit,
        v.pending_on(input).close_limit ==> input.pending.close_limit,
        v.pending_on(input).overcurrent ==> input.pending.overcurrent,
        v.pending_on(input).door_cmd is Some ==> v.pending_on(input).door_cmd
            == input.pending.door_cmd,
{
}

/// The deadline that a door starts out with does not matter: as long as the door
/// is not already in motion, a step does the same with any other.
pub proof fn law_old_deadline_does_not_matter(v: DoorView, deadline: int, input: DoorInput)
    requires
        v.last_state != v.state || (v.state != DoorState::Opening && v.state
            != DoorState::Closing),
    ensures
        (DoorView { deadline, ..v }).next_on(input).state == v.next_on(input).state,
        (DoorView { deadline, ..v }).pending_on(input) == v.pending_on(input),
{
}

/// An idle door for which the open button is pressed opens, and goes on opening:
/// unless its limit switch, the current or the clock stop it, it is opening after
/// one step and after two, and the second has told the pulley to turn.
pub proof fn law_open_press_opens(v: DoorView, input: DoorInput, entered_at: int, checked_at: int)
    requires
        v.state == DoorState::Idle || v.state == DoorState::Closed,
        !input.pending.open_limit,
        !input.pending.overcurrent,
        checked_at < entered_at + 10_000_000,
    ensures
        ({
            let first = DoorInput {
                pending: input.pending.with_press(crate::switch::SwitchRole::OpenButton),
                ..input
            };
            let second = DoorInput { pending: v.pending_on(first), entered_at, checked_at };
            &&& v.next_on(first).state == DoorState::Opening
            &&& v.next_on(first).next_on(second).state == DoorState::Opening
            &&& v.next_on(first).pending_on(second).pulley_cmd == Some(PulleyCommand::RampUpCCW)
        }),
{
}

/// An idle or opened door for which the close button is pressed closes, and goes
/// on closing, in the same way.
pub proof fn law_close_press_closes(
    v: DoorView,
    input: DoorInput,
    entered_at: int,
    checked_at: int,
)
    requires
        v.state == DoorState::Idle || v.state == DoorState::Opened,
        !input.pending.close_limit,
        !input.pending.overcurrent,
        checked_at < entered_at + 10_000_000,
    ensures
        ({
            let first = DoorInput {
                pending: input.pending.with_press(crate::switch::SwitchRole::CloseButton),
                ..input
            };
            let second = DoorInput { pending: v.pending_on(first), entered_at, checked_at };
            &&& v.next_on(first).state == DoorState::Closing
            &&& v.next_on(first).next_on(second).state == DoorState::Closing
            &&& v.next_on(first).pending_on(second).pulley_cmd == Some(PulleyCommand::RampUpCW)
        }),
{
}

/// A motion that nothing interrupts is given up ten seconds after it started, by
/// the clock, and the pulley is then told to stop.
pub proof fn law_motion_is_given_up(
    v: DoorView,
    input: DoorInput,
    entered_at: int,
    checked_at: int,
    last: DoorInput,
)
    requires
        v.last_state != v.state,
        v.state == DoorState::Opening || v.state == DoorState::Closing,
        input.pending == Pending::nothing(),
        input.checked_at < input.entered_at + 10_000_000,
    ensures
        ({
            let moving = v.next_on(input);
            let quiet = DoorInput { pending: Pending::nothing(), entered_at, checked_at };
            let ended = moving.next_on(quiet);
            &&& moving.state == v.state
            &&& ended.state == (if checked_at >= input.entered_at + 10_000_000 {
                DoorState::Idle
            } else {
                v.state
            })
            &&& ended.state == DoorState::Idle ==> ended.pending_on(last).pulley_cmd == Some(
                PulleyCommand::Stop,
            )
        }),
{
}

/// The door steps a hundred times a second and moves for ten seconds at most; the
/// clock counts microseconds.
pub proof fn law_door_timing()
    ensures
        DOOR_STEP_MS == 10,
        DOOR_TIMEOUT_MS == 10_000,
        TICKS_PER_MS == 1_000,
{
}

} // verus!
