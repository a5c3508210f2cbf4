//! Properties of the clock, proved of its model.

use vstd::prelude::*;
use crate::clock::Snapshot;
use crate::display::{clock_face, decimal_text, digit_char};
use crate::phase::{spec_duration, Phase};
use crate::state::{ClockState, Operation};

verus! {

/// A new clock's countdown is within the length of its period.
pub proof fn lemma_initial_valid()
    ensures
        ClockState::initial().valid(),
{
}

/// No operation takes the countdown out of the range from zero to the
/// length of the current period.
pub proof fn lemma_apply_preserves_valid(s: ClockState, op: Operation)
    requires
        s.valid(),
    ensures
        s.apply(op).valid(),
{
}

/// No sequence of operations takes the countdown out of the range from zero
/// to the length of the current period.
pub proof fn lemma_run_preserves_valid(s: ClockState, ops: Seq<Operation>)
    requires
        s.valid(),
    ensures
        s.run(ops).valid(),
    decreases ops.len(),
{
    if ops.len() > 0 {
        lemma_run_preserves_valid(s, ops.drop_last());
        lemma_apply_preserves_valid(s.run(ops.drop_last()), ops.last());
    }
}

/// In every state that can be reached from the initial one, the countdown
/// lies between zero and the length of the current period.
pub proof fn lemma_reachable_valid(s: ClockState)
    requires
        s.reachable(),
    ensures
        0 <= s.remaining_seconds <= spec_duration(s.phase),
{
    let ops = choose|ops: Seq<Operation>| ClockState::initial().run(ops) == s;
    lemma_initial_valid();
    lemma_run_preserves_valid(ClockState::initial(), ops);
}

/// A tick of a paused clock changes no field.
pub proof fn lemma_paused_tick_changes_nothing(s: ClockState)
    requires
        !s.running,
    ensures
        s.tick() == s,
{
}

/// No number of ticks changes a paused clock.
pub proof fn lemma_paused_ticks_change_nothing(s: ClockState, n: nat)
    requires
        !s.running,
    ensures
        s.ticks(n) == s,
    decreases n,
{
    if n > 0 {
        lemma_paused_ticks_change_nothing(s, (n - 1) as nat);
    }
}

/// While time remains, each tick of a running clock takes one second off
/// the countdown and changes nothing else.
pub proof fn lemma_ticks_count_down(s: ClockState, n: nat)
    requires
        s.running,
        n <= s.remaining_seconds,
    ensures
        s.ticks(n) == (ClockState { remaining_seconds: (s.remaining_seconds - n) as nat, ..s }),
    decreases n,
{
    if n > 0 {
        lemma_ticks_count_down(s, (n - 1) as nat);
    }
}

/// A running clock at zero moves on with its next tick: a focus period is
/// followed by a full break and counted as one completed session, a break
/// by a full focus period with the count unchanged.
pub proof fn lemma_tick_at_zero(s: ClockState)
    requires
        s.running,
        s.remaining_seconds == 0,
    ensures
        s.phase == Phase::Focus ==> s.tick() == (ClockState {
            phase: Phase::Break,
            remaining_seconds: 300,
            running: true,
            completed_sessions: s.completed_sessions + 1,
        }),
        s.phase == Phase::Break ==> s.tick() == (ClockState {
            phase: Phase::Focus,
            remaining_seconds: 1500,
            running: true,
            completed_sessions: s.completed_sessions,
        }),
{
}

/// A running clock leaves its period with the tick after the one that
/// brought the countdown to zero: with `r` seconds remaining, `r` ticks keep
/// the period and `r + 1` ticks end it.
pub proof fn lemma_period_ends_after_zero(s: ClockState)
    requires
        s.running,
    ensures
        forall|k: nat|
            #![trigger s.ticks(k)]
            k <= s.remaining_seconds ==> {
                &&& s.ticks(k).phase == s.phase
                &&& s.ticks(k).completed_sessions == s.completed_sessions
            },
        s.ticks(s.remaining_seconds + 1) == (ClockState { remaining_seconds: 0, ..s }).tick(),
{
    assert forall|k: nat| #![trigger s.ticks(k)] k <= s.remaining_seconds implies {
        &&& s.ticks(k).phase == s.phase
        &&& s.ticks(k).completed_sessions == s.completed_sessions
    } by {
        lemma_ticks_count_down(s, k);
    }
    lemma_ticks_count_down(s, s.remaining_seconds);
}

/// A clock started in its initial state is still in its first focus period
/// after 1500 ticks, with the countdown at zero; the tick after that is the
/// first to change the period, and completes the first session.
pub proof fn lemma_first_session()
    ensures
        ClockState::initial().toggle_run().ticks(1500) == (ClockState {
            phase: Phase::Focus,
            remaining_seconds: 0,
            running: true,
            completed_sessions: 0,
        }),
        ClockState::initial().toggle_run().ticks(1501) == (ClockState {
            phase: Phase::Break,
            remaining_seconds: 300,
            running: true,
            completed_sessions: 1,
        }),
        forall|k: nat|
            #![trigger ClockState::initial().toggle_run().ticks(k)]
            k <= 1500 ==> {
                &&& ClockState::initial().toggle_run().ticks(k).phase == Phase::Focus
                &&& ClockState::initial().toggle_run().ticks(k).completed_sessions == 0
            },
{
    let s = ClockState::initial().toggle_run();
    lemma_ticks_count_down(s, 1500);
    lemma_period_ends_after_zero(s);
}

/// A reset from any state gives a full focus period, paused, and keeps the
/// count of completed sessions.
pub proof fn lemma_reset_result(s: ClockState)
    ensures
        s.reset() == (ClockState {
            phase: Phase::Focus,
            remaining_seconds: 1500,
            running: false,
            completed_sessions: s.completed_sessions,
        }),
{
}

/// A skip from any state gives the other kind of period at its full length,
/// paused, and keeps the count of completed sessions.
pub proof fn lemma_skip_result(s: ClockState)
    ensures
        s.phase == Phase::Focus ==> s.skip() == (ClockState {
            phase: Phase::Break,
            remaining_seconds: 300,
            running: false,
            completed_sessions: s.completed_sessions,
        }),
        s.phase == Phase::Break ==> s.skip() == (ClockState {
            phase: Phase::Focus,
            remaining_seconds: 1500,
            running: false,
            completed_sessions: s.completed_sessions,
        }),
{
}

/// Using the start/pause control twice brings the clock back to the state
/// it was in.
pub proof fn lemma_toggle_run_twice(s: ClockState)
    ensures
        s.toggle_run().toggle_run() == s,
        s.toggle_run().running != s.running,
{
}

/// The count of completed sessions changes only with a tick that ends a
/// focus period of a running clock, and then by exactly one.
pub proof fn lemma_completed_sessions_step(s: ClockState, op: Operation)
    ensures
        op == Operation::Tick && s.completes_session() ==> s.apply(op).completed_sessions
            == s.completed_sessions + 1,
        !(op == Operation::Tick && s.completes_session()) ==> s.apply(op).completed_sessions
            == s.completed_sessions,
{
}

/// The count of completed sessions never decreases.
pub proof fn lemma_completed_sessions_never_decrease(s: ClockState, ops: Seq<Operation>)
    ensures
        s.run(ops).completed_sessions >= s.completed_sessions,
    decreases ops.len(),
{
    if ops.len() > 0 {
        lemma_completed_sessions_never_decrease(s, ops.drop_last());
        lemma_completed_sessions_step(s.run(ops.drop_last()), ops.last());
    }
}

/// Below a hundred minutes the remaining time is shown as five characters:
/// two digits of minutes, a colon, two digits of seconds. A clock whose
/// countdown is within its period always stays below that.
pub proof fn lemma_clock_face_shape(seconds: nat)
    requires
        seconds < 6000,
    ensures
        clock_face(seconds) == seq![
            digit_char(seconds / 60 / 10),
            digit_char(seconds / 60 % 10),
            ':',
            digit_char(seconds % 60 / 10),
            digit_char(seconds % 60 % 10),
        ],
{
    reveal_with_fuel(decimal_text, 2);
}

/// Two snapshots of the same state are identical.
pub proof fn lemma_snapshots_agree(first: Snapshot, second: Snapshot)
    requires
        first@ == second@,
    ensures
        first == second,
{
}

} // verus!
