//! The battery monitor's state: what the kernel's power-supply files and the ACPI
//! event daemon say, and the text, color and relevance shown for it.
use vstd::prelude::*;
use vstd::string::StringExecFns;

use itertools::Itertools;

use crate::decimal::{decimal_text, parse_usize, parse_usize_spec, push_decimal};
use crate::monitor::Relevance;

verus! {

/// Text with leading and trailing white space removed, as `str::trim` does it.
pub uninterp spec fn trim_of(s: Seq<char>) -> Seq<char>;

/// Relies on `str::trim`: the text without leading and trailing white space, which
/// depends on the text alone.
#[verifier::external_body]
fn trimmed(s: &str) -> (r: &str)
    ensures
        r@ == trim_of(s@),
{
    s.trim()
}

/// The pieces of `s` between single spaces, empty pieces included: `a b` gives
/// `a` and `b`, `a  b` gives `a`, the empty piece and `b`.
pub open spec fn split_spaces(s: Seq<char>) -> Seq<Seq<char>>
    decreases s.len(),
{
    if s.len() == 0 {
        seq![Seq::empty()]
    } else {
        let prev = split_spaces(s.drop_last());
        if s.last() == ' ' {
            prev.push(Seq::empty())
        } else {
            prev.update(prev.len() - 1, prev.last().push(s.last()))
        }
    }
}

/// Relies on `Itertools::collect_tuple` over `str::split(' ')`: the four pieces of
/// the line when it splits into exactly four, else nothing.
#[verifier::external_body]
fn split_four(line: &str) -> (r: Option<(String, String, String, String)>)
    ensures
        split_spaces(line@).len() == 4 <==> r is Some,
        r matches Some((a, b, c, d)) ==> a@ == split_spaces(line@)[0] && b@ == split_spaces(
            line@,
        )[1] && c@ == split_spaces(line@)[2] && d@ == split_spaces(line@)[3],
{
    line.split(' ').collect_tuple().map(
        |(a, b, c, d): (&str, &str, &str, &str)| (a.to_string(), b.to_string(), c.to_string(), d.to_string()),
    )
}

/// A capacity reading: a decimal number from 0 to 255.
pub open spec fn capacity_spec(t: Seq<char>) -> Option<u8> {
    match parse_usize_spec(t) {
        Some(v) => if v <= 255 {
            Some(v as u8)
        } else {
            None
        },
        None => None,
    }
}

/// A status reading: the battery counts as charging when it is charging or full.
pub open spec fn charging_spec(t: Seq<char>) -> bool {
    t == "Charging"@ || t == "Full"@
}

/// The color name a battery shows: blue while charging, else red, yellow or green
/// by capacity.
pub open spec fn battery_color(charging: bool, capacity: u8) -> Seq<char> {
    if charging {
        "blue"@
    } else if capacity <= 15 {
        "red"@
    } else if capacity <= 40 {
        "yellow"@
    } else {
        "green"@
    }
}

/// The battery's text: whether it charges, then its capacity, such as `false 57`.
pub open spec fn battery_text(charging: bool, capacity: u8) -> Seq<char> {
    (if charging {
        "true"@
    } else {
        "false"@
    }) + " "@ + decimal_text(capacity as nat)
}

/// Why a line from the ACPI event daemon could not be used.
#[derive(Clone, Copy, Debug, PartialEq, Eq, Structural)]
pub enum AcpiError {
    /// The line does not hold exactly four space-separated fields.
    Malformed,
    /// An AC adapter event whose value is not a decimal number.
    BadValue,
}

/// What an ACPI event line does to the charging flag `charging`: the result, and
/// the flag afterwards.
pub open spec fn acpi_outcome(line: Seq<char>, charging: bool) -> (Result<(), AcpiError>, bool) {
    let f = split_spaces(line);
    if f.len() != 4 {
        (Err(AcpiError::Malformed), charging)
    } else if f[0] != "ac_adapter"@ {
        (Ok(()), charging)
    } else {
        match parse_usize_spec(f[3]) {
            Some(v) => (Ok(()), v != 0),
            None => (Err(AcpiError::BadValue), charging),
        }
    }
}

/// The battery monitor.
pub struct Battery {
    /// The power-supply directory of the battery, such as `/sys/class/power_supply/BAT0`.
    pub syspath: String,
    /// The charge in percent.
    pub capacity: u8,
    /// Whether the battery is charging or full.
    pub charging: bool,
}

/// Reads a capacity file's content: a decimal number from 0 to 255, white space
/// around it ignored.
pub fn capacity_from_text(text: &str) -> (r: Option<u8>)
    ensures
        r == capacity_spec(trim_of(text@)),
{
    capacity_from_trimmed(trimmed(text))
}

/// Reads a capacity from text that has no white space around it.
pub fn capacity_from_trimmed(t: &str) -> (r: Option<u8>)
    ensures
        r == capacity_spec(t@),
{
    match parse_usize(t) {
        Some(v) => if v <= 255 {
            Some(v as u8)
        } else {
            None
        },
        None => None,
    }
}

/// Reads a status file's content: charging when it says `Charging` or `Full`,
/// white space around it ignored.
pub fn charging_from_text(text: &str) -> (r: bool)
    ensures
        r == charging_spec(trim_of(text@)),
{
    charging_from_trimmed(trimmed(text))
}

/// Reads a status from text that has no white space around it.
pub fn charging_from_trimmed(t: &str) -> (r: bool)
    ensures
        r == charging_spec(t@),
{
    let s = String::from_str(t);
    s == String::from_str("Charging") || s == String::from_str("Full")
}

impl Battery {
    /// A battery at `syspath` before anything has been read: empty and not charging.
    pub fn new(syspath: String) -> (r: Battery)
        ensures
            r.syspath@ == syspath@,
            r.capacity == 0,
            !r.charging,
    {
        Battery { syspath, capacity: 0, charging: false }
    }

    /// The name of the configured color for the battery's state.
    pub fn color_name(&self) -> (r: &'static str)
        requires
            self.charging || self.capacity <= 100,
        ensures
            r@ == battery_color(self.charging, self.capacity),
    {
        if self.charging {
            "blue"
        } else if self.capacity <= 15 {
            "red"
        } else if self.capacity <= 40 {
            "yellow"
        } else {
            "green"
        }
    }

    /// A battery below 40 percent is urgent.
    pub fn relevance(&self) -> (r: Relevance)
        ensures
            r == (if self.capacity < 40 {
                Relevance::Urgent
            } else {
                Relevance::Background
            }),
    {
        if self.capacity < 40 {
            Relevance::Urgent
        } else {
            Relevance::Background
        }
    }

    /// The text shown for the battery.
    pub fn text(&self) -> (r: String)
        ensures
            r@ == battery_text(self.charging, self.capacity),
    {
        let mut s = if self.charging {
            String::from_str("true")
        } else {
            String::from_str("false")
        };
        s.append(" ");
        push_decimal(&mut s, self.capacity as u64);
        s
    }

    /// Applies one line of the ACPI event daemon, without its line break. The line
    /// has four space-separated fields; an `ac_adapter` event sets charging from
    /// whether its last field, a decimal number, is nonzero. Other events change
    /// nothing.
    pub fn apply_acpi_line(&mut self, line: &str) -> (r: Result<(), AcpiError>)
        ensures
            final(self).syspath == old(self).syspath,
            final(self).capacity == old(self).capacity,
            (r, final(self).charging) == acpi_outcome(line@, old(self).charging),
    {
        match split_four(line) {
            None => Err(AcpiError::Malformed),
            Some((event, _device, _code, value)) => {
                if event == String::from_str("ac_adapter") {
                    match parse_usize(value.as_str()) {
                        Some(v) => {
                            self.charging = v != 0;
                            Ok(())
                        },
                        None => Err(AcpiError::BadValue),
                    }
                } else {
                    Ok(())
                }
            },
        }
    }
}

} // verus!
