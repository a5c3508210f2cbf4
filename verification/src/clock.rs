//! The executable session clock.

use vstd::prelude::*;
use crate::phase::{duration, spec_duration, Phase, BREAK_SECONDS, FOCUS_SECONDS};
use crate::state::ClockState;

verus! {

/// The time that one tick stands for, in seconds. A clock is meant to be
/// ticked once in each such interval.
pub const TICK_SECONDS: u64 = 1;

/// A read-only copy of a clock's state, for rendering.
#[derive(Clone, Copy, Debug, PartialEq, Eq, Structural)]
pub struct Snapshot {
    /// The kind of period being counted down.
    pub phase: Phase,
    /// Seconds left in the current period.
    pub remaining_seconds: u32,
    /// Whether the clock is running.
    pub running: bool,
    /// Focus periods that ran to completion.
    pub completed_sessions: u32,
}

impl View for Snapshot {
    type V = ClockState;

    open spec fn view(&self) -> ClockState {
        ClockState {
            phase: self.phase,
            remaining_seconds: self.remaining_seconds as nat,
            running: self.running,
            completed_sessions: self.completed_sessions as nat,
        }
    }
}

/// A countdown clock that alternates between focus and break periods.
///
/// Its state can only be changed through [`SessionClock::tick`],
/// [`SessionClock::toggle_run`], [`SessionClock::reset`] and
/// [`SessionClock::skip`], each of which keeps the countdown within the
/// length of the current period. Each of them takes the clock by exclusive
/// reference, so no two can overlap and a snapshot never sees one half done.
#[derive(Debug)]
pub struct SessionClock {
    phase: Phase,
    remaining_seconds: u32,
    running: bool,
    completed_sessions: u32,
}

impl View for SessionClock {
    type V = ClockState;

    closed spec fn view(&self) -> ClockState {
        ClockState {
            phase: self.phase,
            remaining_seconds: self.remaining_seconds as nat,
            running: self.running,
            completed_sessions: self.completed_sessions as nat,
        }
    }
}

impl SessionClock {
    #[verifier::type_invariant]
    spec fn within_duration(self) -> bool {
        self.remaining_seconds <= spec_duration(self.phase)
    }

    /// The session counter has room for the session that the next tick may
    /// complete.
    pub open spec fn spec_can_tick(&self) -> bool {
        self@.completes_session() ==> self@.completed_sessions < u32::MAX
    }

    /// A new clock: a full focus period, paused, no session completed.
    pub fn new() -> (clock: Self)
        ensures
            clock@ == ClockState::initial(),
            clock@.valid(),
    {
        SessionClock {
            phase: Phase::Focus,
            remaining_seconds: FOCUS_SECONDS,
            running: false,
            completed_sessions: 0,
        }
    }

    /// Whether [`SessionClock::tick`] may be called: it may, unless the tick
    /// would complete a session and the counter already holds `u32::MAX`.
    #[verifier::when_used_as_spec(spec_can_tick)]
    pub fn can_tick(&self) -> (ok: bool)
        ensures
            ok == self.spec_can_tick(),
    {
        !(self.running && self.remaining_seconds == 0 && self.phase == Phase::Focus
            && self.completed_sessions == u32::MAX)
    }

    /// Advances the clock by one second.
    ///
    /// A paused clock is left as it is. A running clock counts down by one
    /// second; at zero it moves on to the next period instead, and counts a
    /// session as completed when the period that ended was a focus period.
    ///
    /// The one state in which this must not be called is that in which the
    /// session counter is full and the tick would add to it; see
    /// [`SessionClock::can_tick`].
    pub fn tick(&mut self)
        requires
            old(self).spec_can_tick(),
        ensures
            final(self)@ == old(self)@.tick(),
            !old(self)@.running ==> final(self)@ == old(self)@,
            final(self)@.valid(),
    {
        proof {
            use_type_invariant(&*self);
        }
        if !self.running {
            return;
        }
        if self.remaining_seconds > 0 {
            self.remaining_seconds = self.remaining_seconds - 1;
        } else {
            match self.phase {
                Phase::Break => {
                    self.phase = Phase::Focus;
                    self.remaining_seconds = FOCUS_SECONDS;
                },
                Phase::Focus => {
                    self.completed_sessions = self.completed_sessions + 1;
                    self.remaining_seconds = BREAK_SECONDS;
                    self.phase = Phase::Break;
                },
            }
        }
    }

    /// Starts a paused clock, pauses a running one. Nothing else changes.
    pub fn toggle_run(&mut self)
        ensures
            final(self)@ == old(self)@.toggle_run(),
            final(self)@.valid(),
    {
        proof {
            use_type_invariant(&*self);
        }
        self.running = !self.running;
    }

    /// Puts the clock back to a full focus period and pauses it. The count of
    /// completed sessions is kept.
    pub fn reset(&mut self)
        ensures
            final(self)@ == old(self)@.reset(),
            final(self)@.valid(),
    {
        *self = SessionClock {
            phase: Phase::Focus,
            remaining_seconds: FOCUS_SECONDS,
            running: false,
            completed_sessions: self.completed_sessions,
        };
    }

    /// Gives up the current period: the clock moves to the other kind of
    /// period at its full length and pauses. No session is counted.
    pub fn skip(&mut self)
        ensures
            final(self)@ == old(self)@.skip(),
            final(self)@.valid(),
    {
        let next = self.phase.opposite();
        *self = SessionClock {
            phase: next,
            remaining_seconds: duration(next),
            running: false,
            completed_sessions: self.completed_sessions,
        };
    }

    /// A copy of the current state. The clock is not changed, and the result
    /// depends on nothing but the state.
    pub fn snapshot(&self) -> (snap: Snapshot)
        ensures
            snap@ == self@,
            snap@.valid(),
    {
        proof {
            use_type_invariant(self);
        }
        Snapshot {
            phase: self.phase,
            remaining_seconds: self.remaining_seconds,
            running: self.running,
            completed_sessions: self.completed_sessions,
        }
    }
}

} // verus!
