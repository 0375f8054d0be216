//! The clock monitor's reading: the text and color it shows for a moment in time.
use vstd::prelude::*;
use vstd::string::StringExecFns;

use crate::decimal::{decimal_text, push_decimal};

verus! {

/// The clock monitor. It holds no state: each reading comes from the time of day.
#[derive(Clone, Copy, Debug, PartialEq, Eq, Structural)]
pub struct Clock;

/// The three-letter name of a weekday, Sunday being 0.
pub open spec fn weekday_text(wday: nat) -> Seq<char> {
    if wday == 0 {
        "Sun"@
    } else if wday == 1 {
        "Mon"@
    } else if wday == 2 {
        "Tue"@
    } else if wday == 3 {
        "Wed"@
    } else if wday == 4 {
        "Thu"@
    } else if wday == 5 {
        "Fri"@
    } else {
        "Sat"@
    }
}

/// A number written with at least two digits, padded with a leading zero.
pub open spec fn two_digit_text(n: nat) -> Seq<char> {
    if n < 10 {
        "0"@ + decimal_text(n)
    } else {
        decimal_text(n)
    }
}

/// The clock's text, such as `Sun 5 09:07`.
pub open spec fn clock_text(wday: nat, mday: nat, hour: nat, min: nat) -> Seq<char> {
    weekday_text(wday) + " "@ + decimal_text(mday) + " "@ + two_digit_text(hour) + ":"@
        + two_digit_text(min)
}

/// The color name for an hour of the day: night, morning, afternoon, evening.
pub open spec fn clock_color(hour: nat) -> Seq<char> {
    if hour <= 5 {
        "cyan"@
    } else if hour <= 11 {
        "blue"@
    } else if hour <= 17 {
        "green"@
    } else {
        "yellow"@
    }
}

impl Default for Clock {
    fn default() -> (r: Clock)
        ensures
            r == Clock,
    {
        Clock
    }
}

fn push_two_digits(s: &mut String, n: usize)
    ensures
        final(s)@ == old(s)@ + two_digit_text(n as nat),
{
    if n < 10 {
        s.append("0");
    }
    push_decimal(s, n as u64);
    proof {
        reveal_strlit("0");
    }
    assert(final(s)@ =~= old(s)@ + two_digit_text(n as nat));
}

impl Clock {
    /// The weekday's three-letter name.
    pub fn weekday_name(wday: usize) -> (r: &'static str)
        requires
            wday < 7,
        ensures
            r@ == weekday_text(wday as nat),
    {
        if wday == 0 {
            "Sun"
        } else if wday == 1 {
            "Mon"
        } else if wday == 2 {
            "Tue"
        } else if wday == 3 {
            "Wed"
        } else if wday == 4 {
            "Thu"
        } else if wday == 5 {
            "Fri"
        } else {
            "Sat"
        }
    }

    /// The text shown for weekday `wday` (Sunday is 0), day of month `mday`, and
    /// the time `hour:min`.
    pub fn text(wday: usize, mday: usize, hour: usize, min: usize) -> (r: String)
        requires
            wday < 7,
        ensures
            r@ == clock_text(wday as nat, mday as nat, hour as nat, min as nat),
    {
        let mut s = String::from_str(Clock::weekday_name(wday));
        s.append(" ");
        push_decimal(&mut s, mday as u64);
        s.append(" ");
        push_two_digits(&mut s, hour);
        s.append(":");
        push_two_digits(&mut s, min);
        s
    }

    /// The name of the configured color for an hour of the day.
    pub fn color_name(hour: usize) -> (r: &'static str)
        requires
            hour < 24,
        ensures
            r@ == clock_color(hour as nat),
    {
        if hour <= 5 {
            "cyan"
        } else if hour <= 11 {
            "blue"
        } else if hour <= 17 {
            "green"
        } else {
            "yellow"
        }
    }

    /// How long to sleep from second `sec` and nanosecond `nsec` of a minute until
    /// the next minute begins, as whole seconds and nanoseconds.
    pub fn delay_to_next_minute(sec: u64, nsec: u32) -> (r: (u64, u32))
        requires
            nsec <= 1_000_000_000,
        ensures
            r.0 == 59 - sec % 60,
            r.1 == 1_000_000_000 - nsec,
    {
        (59 - sec % 60, 1_000_000_000 - nsec)
    }
}

} // verus!
