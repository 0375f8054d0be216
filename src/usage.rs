//! Percentages shown by the memory and volume monitors, and the color band of each.
use vstd::prelude::*;
use vstd::string::StringExecFns;

use crate::decimal::{decimal_text, parse_usize, parse_usize_spec, push_decimal};

verus! {

/// The second whitespace-separated word of a line, as `str::split_whitespace`
/// finds it.
pub uninterp spec fn second_word_of(line: Seq<char>) -> Option<Seq<char>>;

/// Relies on `str::split_whitespace` with `Iterator::nth(1)`: the line's second
/// word, which depends on the line alone.
#[verifier::external_body]
fn second_word(line: &str) -> (r: Option<&str>)
    ensures
        match r {
            Some(w) => second_word_of(line@) == Some(w@),
            None => second_word_of(line@) is None,
        },
{
    line.split_whitespace().nth(1)
}

/// The amount on a `/proc/meminfo` line such as `MemTotal:  16318404 kB`: its
/// second word read as a decimal number.
pub fn meminfo_amount(line: &str) -> (r: Option<usize>)
    ensures
        r == (match second_word_of(line@) {
            Some(w) => parse_usize_spec(w),
            None => None,
        }),
{
    match second_word(line) {
        Some(w) => parse_usize(w),
        None => None,
    }
}

/// The share of memory in use, in percent: 100 minus the available share rounded
/// down.
pub fn memory_usage(total: u64, available: u64) -> (r: i64)
    requires
        total > 0,
        available * 100 <= i64::MAX,
    ensures
        r == 100 - (available * 100) / (total as int),
{
    let share = (available * 100) / total;
    assert(share <= available * 100) by (nonlinear_arith)
        requires
            total > 0,
            share == (available * 100) / (total as int),
    ;
    100 - share as i64
}

/// Where a volume lies in its range, in percent, rounded down.
pub fn volume_percent(volume: i64, min: i64, max: i64) -> (r: i64)
    requires
        min < max,
        min <= volume <= max,
        (max - min) * 100 <= i64::MAX,
    ensures
        r == ((volume - min) * 100) / ((max - min) as int),
{
    let span = max - min;
    let above = volume - min;
    assert(above * 100 <= span * 100) by (nonlinear_arith)
        requires
            above <= span,
    ;
    (above * 100) / span
}

/// The color band of a percentage: up to 20 blue, up to 40 green, up to 85 yellow,
/// red above that and below 0.
pub open spec fn usage_color_spec(p: int) -> Seq<char> {
    if 0 <= p <= 20 {
        "blue"@
    } else if 21 <= p <= 40 {
        "green"@
    } else if 41 <= p <= 85 {
        "yellow"@
    } else {
        "red"@
    }
}

/// A percentage as shown, such as `42%` or `-3%`.
pub open spec fn percent_text_spec(p: int) -> Seq<char> {
    (if p < 0 {
        "-"@ + decimal_text((-p) as nat)
    } else {
        decimal_text(p as nat)
    }) + "%"@
}

/// The name of the configured color for a usage percentage.
pub fn usage_color(p: i64) -> (r: &'static str)
    ensures
        r@ == usage_color_spec(p as int),
{
    if 0 <= p && p <= 20 {
        "blue"
    } else if 21 <= p && p <= 40 {
        "green"
    } else if 41 <= p && p <= 85 {
        "yellow"
    } else {
        "red"
    }
}

/// The text shown for a percentage.
pub fn percent_text(p: i64) -> (r: String)
    ensures
        r@ == percent_text_spec(p as int),
{
    let mut s = String::new();
    if p < 0 {
        s.append("-");
        let m: u64 = (-(p + 1)) as u64 + 1;
        push_decimal(&mut s, m);
    } else {
        push_decimal(&mut s, p as u64);
    }
    s.append("%");
    proof {
        reveal_strlit("-");
    }
    assert(s@ =~= percent_text_spec(p as int));
    s
}

} // verus!
