//! The two kinds of period and their fixed lengths.

use vstd::prelude::*;

verus! {

/// Length of a focus period, in seconds.
pub const FOCUS_SECONDS: u32 = 1500;

/// Length of a break period, in seconds.
pub const BREAK_SECONDS: u32 = 300;

/// The kind of period the clock is counting down.
#[derive(Clone, Copy, Debug, PartialEq, Eq, Structural)]
pub enum Phase {
    /// The work interval.
    Focus,
    /// The rest interval that follows a focus period.
    Break,
}

/// The full length of a period of the given kind, in seconds.
pub open spec fn spec_duration(phase: Phase) -> u32 {
    match phase {
        Phase::Focus => FOCUS_SECONDS,
        Phase::Break => BREAK_SECONDS,
    }
}

/// The full length of a period of the given kind, in seconds.
#[verifier::when_used_as_spec(spec_duration)]
pub fn duration(phase: Phase) -> (seconds: u32)
    ensures
        seconds == spec_duration(phase),
        phase == Phase::Focus ==> seconds == 1500,
        phase == Phase::Break ==> seconds == 300,
{
    match phase {
        Phase::Focus => FOCUS_SECONDS,
        Phase::Break => BREAK_SECONDS,
    }
}

impl Phase {
    /// The other kind of period.
    pub open spec fn spec_opposite(self) -> Phase {
        match self {
            Phase::Focus => Phase::Break,
            Phase::Break => Phase::Focus,
        }
    }

    /// The other kind of period: a break after focus, focus after a break.
    #[verifier::when_used_as_spec(spec_opposite)]
    pub fn opposite(self) -> (next: Phase)
        ensures
            next == self.spec_opposite(),
            next != self,
    {
        match self {
            Phase::Focus => Phase::Break,
            Phase::Break => Phase::Focus,
        }
    }

    /// The characters of the label shown for this kind of period.
    pub open spec fn label_text(self) -> Seq<char> {
        match self {
            Phase::Focus => seq!['F', 'o', 'c', 'u', 's'],
            Phase::Break => seq!['B', 'r', 'e', 'a', 'k'],
        }
    }

    /// The label shown for this kind of period: `Focus` or `Break`.
    pub fn label(self) -> (text: &'static str)
        ensures
            text@ == self.label_text(),
    {
        proof {
            reveal_strlit("Focus");
            reveal_strlit("Break");
        }
        match self {
            Phase::Focus => "Focus",
            Phase::Break => "Break",
        }
    }
}

} // verus!
