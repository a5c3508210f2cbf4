//! The mathematical model of the clock: its state and its transitions.

use vstd::prelude::*;
use crate::phase::{spec_duration, Phase, BREAK_SECONDS, FOCUS_SECONDS};

verus! {

/// The state of a session clock, over unbounded numbers.
pub struct ClockState {
    /// The kind of period being counted down.
    pub phase: Phase,
    /// Seconds left in the current period.
    pub remaining_seconds: nat,
    /// Whether a tick advances the countdown.
    pub running: bool,
    /// Focus periods that ran down to zero while the clock was running.
    pub completed_sessions: nat,
}

/// One of the four operations that change a clock.
pub enum Operation {
    /// One second has passed.
    Tick,
    /// The start/pause control was used.
    ToggleRun,
    /// The clock is put back to a full, paused focus period.
    Reset,
    /// The current period is given up for the next one.
    Skip,
}

impl ClockState {
    /// The state a clock starts in: a full focus period, paused, nothing
    /// completed.
    pub open spec fn initial() -> ClockState {
        ClockState {
            phase: Phase::Focus,
            remaining_seconds: FOCUS_SECONDS as nat,
            running: false,
            completed_sessions: 0,
        }
    }

    /// The countdown does not exceed the length of the current period.
    pub open spec fn valid(self) -> bool {
        self.remaining_seconds <= spec_duration(self.phase)
    }

    /// The next tick ends the current period.
    pub open spec fn at_boundary(self) -> bool {
        self.running && self.remaining_seconds == 0
    }

    /// The next tick completes a focus session.
    pub open spec fn completes_session(self) -> bool {
        self.at_boundary() && self.phase == Phase::Focus
    }

    /// The state one second later.
    ///
    /// A paused clock stays as it is. A running clock counts down by one; at
    /// zero it moves on instead: from a break to a full focus period, from
    /// focus to a full break, which completes one session.
    pub open spec fn tick(self) -> ClockState {
        if !self.running {
            self
        } else if self.remaining_seconds > 0 {
            ClockState { remaining_seconds: (self.remaining_seconds - 1) as nat, ..self }
        } else {
            match self.phase {
                Phase::Break => ClockState {
                    phase: Phase::Focus,
                    remaining_seconds: FOCUS_SECONDS as nat,
                    ..self
                },
                Phase::Focus => ClockState {
                    phase: Phase::Break,
                    remaining_seconds: BREAK_SECONDS as nat,
                    completed_sessions: self.completed_sessions + 1,
                    ..self
                },
            }
        }
    }

    /// The state after the start/pause control was used.
    pub open spec fn toggle_run(self) -> ClockState {
        ClockState { running: !self.running, ..self }
    }

    /// The state after a reset: a full focus period, paused. The count of
    /// completed sessions is kept.
    pub open spec fn reset(self) -> ClockState {
        ClockState {
            phase: Phase::Focus,
            remaining_seconds: FOCUS_SECONDS as nat,
            running: false,
            completed_sessions: self.completed_sessions,
        }
    }

    /// The state after a skip: the other kind of period at its full length,
    /// paused. A skipped focus period is not counted as completed.
    pub open spec fn skip(self) -> ClockState {
        ClockState {
            phase: self.phase.spec_opposite(),
            remaining_seconds: spec_duration(self.phase.spec_opposite()) as nat,
            running: false,
            completed_sessions: self.completed_sessions,
        }
    }

    /// The state after one operation.
    pub open spec fn apply(self, op: Operation) -> ClockState {
        match op {
            Operation::Tick => self.tick(),
            Operation::ToggleRun => self.toggle_run(),
            Operation::Reset => self.reset(),
            Operation::Skip => self.skip(),
        }
    }

    /// The state after a sequence of operations, the first one first.
    pub open spec fn run(self, ops: Seq<Operation>) -> ClockState
        decreases ops.len(),
    {
        if ops.len() == 0 {
            self
        } else {
            self.run(ops.drop_last()).apply(ops.last())
        }
    }

    /// The state after `n` ticks.
    pub open spec fn ticks(self, n: nat) -> ClockState
        decreases n,
    {
        if n == 0 {
            self
        } else {
            self.ticks((n - 1) as nat).tick()
        }
    }

    /// The state can be reached from the initial one by some operations.
    pub open spec fn reachable(self) -> bool {
        exists|ops: Seq<Operation>| ClockState::initial().run(ops) == self
    }
}

} // verus!
