//! What a clock shows: the remaining time as minutes and seconds, the
//! session count as a decimal number, and the labels of its controls.

use vstd::prelude::*;
use vstd::string::StringExecFns;
use crate::clock::Snapshot;

verus! {

/// The character that stands for a single decimal digit.
pub open spec fn digit_char(d: nat) -> char {
    if d == 0 {
        '0'
    } else if d == 1 {
        '1'
    } else if d == 2 {
        '2'
    } else if d == 3 {
        '3'
    } else if d == 4 {
        '4'
    } else if d == 5 {
        '5'
    } else if d == 6 {
        '6'
    } else if d == 7 {
        '7'
    } else if d == 8 {
        '8'
    } else {
        '9'
    }
}

/// The decimal digits of a number, most significant first, without leading
/// zeros.
pub open spec fn decimal_text(n: nat) -> Seq<char>
    decreases n,
{
    if n < 10 {
        seq![digit_char(n)]
    } else {
        decimal_text(n / 10).push(digit_char(n % 10))
    }
}

/// The decimal digits of a number, with a leading zero where it has only
/// one digit.
pub open spec fn two_digit_text(n: nat) -> Seq<char> {
    if n < 10 {
        seq!['0'] + decimal_text(n)
    } else {
        decimal_text(n)
    }
}

/// A number of seconds as minutes and seconds, each at least two digits
/// wide, with a colon between them.
pub open spec fn clock_face(seconds: nat) -> Seq<char> {
    two_digit_text(seconds / 60) + seq![':'] + two_digit_text(seconds % 60)
}

/// The label of the start/pause control.
pub open spec fn control_text(running: bool) -> Seq<char> {
    if running {
        seq!['P', 'a', 'u', 's', 'e']
    } else {
        seq!['S', 't', 'a', 'r', 't']
    }
}

fn digit_str(d: u32) -> (text: &'static str)
    requires
        d < 10,
    ensures
        text@ == seq![digit_char(d as nat)],
{
    proof {
        reveal_strlit("0");
        reveal_strlit("1");
        reveal_strlit("2");
        reveal_strlit("3");
        reveal_strlit("4");
        reveal_strlit("5");
        reveal_strlit("6");
        reveal_strlit("7");
        reveal_strlit("8");
        reveal_strlit("9");
    }
    if d == 0 {
        "0"
    } else if d == 1 {
        "1"
    } else if d == 2 {
        "2"
    } else if d == 3 {
        "3"
    } else if d == 4 {
        "4"
    } else if d == 5 {
        "5"
    } else if d == 6 {
        "6"
    } else if d == 7 {
        "7"
    } else if d == 8 {
        "8"
    } else {
        "9"
    }
}

fn push_decimal(out: &mut String, n: u32)
    ensures
        final(out)@ == old(out)@ + decimal_text(n as nat),
    decreases n,
{
    if n >= 10 {
        push_decimal(out, n / 10);
    }
    out.append(digit_str(n % 10));
}

fn push_two_digits(out: &mut String, n: u32)
    ensures
        final(out)@ == old(out)@ + two_digit_text(n as nat),
{
    if n < 10 {
        proof {
            reveal_strlit("0");
        }
        out.append("0");
    }
    push_decimal(out, n);
}

/// Writes a number in decimal.
pub fn format_decimal(n: u32) -> (text: String)
    ensures
        text@ == decimal_text(n as nat),
{
    let mut text = String::new();
    push_decimal(&mut text, n);
    text
}

/// Writes a number of seconds as `MM:SS`.
pub fn format_clock_face(seconds: u32) -> (text: String)
    ensures
        text@ == clock_face(seconds as nat),
{
    let mut text = String::new();
    push_two_digits(&mut text, seconds / 60);
    proof {
        reveal_strlit(":");
    }
    text.append(":");
    push_two_digits(&mut text, seconds % 60);
    text
}

impl Snapshot {
    /// The whole minutes left in the current period.
    pub fn minutes(&self) -> (m: u32)
        ensures
            m == self.remaining_seconds / 60,
    {
        self.remaining_seconds / 60
    }

    /// The seconds left beyond the whole minutes.
    pub fn seconds(&self) -> (s: u32)
        ensures
            s == self.remaining_seconds % 60,
    {
        self.remaining_seconds % 60
    }

    /// The remaining time as `MM:SS`.
    pub fn time_text(&self) -> (text: String)
        ensures
            text@ == clock_face(self.remaining_seconds as nat),
    {
        format_clock_face(self.remaining_seconds)
    }

    /// The number of completed sessions in decimal.
    pub fn sessions_text(&self) -> (text: String)
        ensures
            text@ == decimal_text(self.completed_sessions as nat),
    {
        format_decimal(self.completed_sessions)
    }

    /// The label of the start/pause control: `Pause` while the clock runs,
    /// `Start` while it is paused.
    pub fn control_label(&self) -> (text: &'static str)
        ensures
            text@ == control_text(self.running),
    {
        proof {
            reveal_strlit("Pause");
            reveal_strlit("Start");
        }
        if self.running {
            "Pause"
        } else {
            "Start"
        }
    }
}

} // verus!
