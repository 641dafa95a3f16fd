//! Durations written for people to read.

use vstd::prelude::*;
use vstd::string::StringExecFns;
use crate::fmt::decimal::{decimal, decimal_two, push_decimal, push_decimal_two};

verus! {

/// A duration of whole seconds, shown as a clock: `hh:mm:ss`, with the
/// number of days in front where there is at least one.
pub struct FormattedDuration(pub u64);

/// The clock form of `seconds`: `hh:mm:ss`, or `Nd hh:mm:ss` from one day on.
pub open spec fn clock_text(seconds: u64) -> Seq<char> {
    let days = (seconds / 86_400) as nat;
    let hours = (seconds / 3_600 % 24) as nat;
    let minutes = (seconds / 60 % 60) as nat;
    let clock = decimal_two(hours) + ":"@ + decimal_two(minutes) + ":"@ + decimal_two(
        (seconds % 60) as nat,
    );
    if days > 0 {
        decimal(days) + "d "@ + clock
    } else {
        clock
    }
}

impl FormattedDuration {
    /// The text shown for the duration.
    pub fn to_string(&self) -> (r: String)
        ensures
            r@ == clock_text(self.0),
    {
        let mut t = self.0;

        let seconds = t % 60;
        t /= 60;

        let minutes = t % 60;
        t /= 60;

        let hours = t % 24;
        t /= 24;

        let mut out = String::new();
        if t > 0 {
            push_decimal(&mut out, t);
            out.append("d ");
        }
        push_decimal_two(&mut out, hours);
        out.append(":");
        push_decimal_two(&mut out, minutes);
        out.append(":");
        push_decimal_two(&mut out, seconds);
        assert(out@ =~= clock_text(self.0));
        out
    }
}

/// A duration of whole seconds, shown as a count of its largest unit, the
/// rest dropped: `2 hours`, or `2h` in the short form.
pub struct HumanDuration(pub u64);

/// The units a duration is counted in, largest first.
#[derive(Clone, Copy, Debug, PartialEq, Eq)]
pub enum TimeUnit {
    Year,
    Week,
    Day,
    Hour,
    Minute,
    Second,
}

impl TimeUnit {
    /// The seconds in one unit. A year has 365 days.
    pub open spec fn seconds(self) -> u64 {
        match self {
            TimeUnit::Year => 31_536_000,
            TimeUnit::Week => 604_800,
            TimeUnit::Day => 86_400,
            TimeUnit::Hour => 3_600,
            TimeUnit::Minute => 60,
            TimeUnit::Second => 1,
        }
    }

    /// The unit's name for a count of one.
    pub open spec fn singular(self) -> Seq<char> {
        match self {
            TimeUnit::Year => "year"@,
            TimeUnit::Week => "week"@,
            TimeUnit::Day => "day"@,
            TimeUnit::Hour => "hour"@,
            TimeUnit::Minute => "minute"@,
            TimeUnit::Second => "second"@,
        }
    }

    /// The unit's name for any other count.
    pub open spec fn plural(self) -> Seq<char> {
        match self {
            TimeUnit::Year => "years"@,
            TimeUnit::Week => "weeks"@,
            TimeUnit::Day => "days"@,
            TimeUnit::Hour => "hours"@,
            TimeUnit::Minute => "minutes"@,
            TimeUnit::Second => "seconds"@,
        }
    }

    /// The unit's one-letter name.
    pub open spec fn shorthand(self) -> Seq<char> {
        match self {
            TimeUnit::Year => "y"@,
            TimeUnit::Week => "w"@,
            TimeUnit::Day => "d"@,
            TimeUnit::Hour => "h"@,
            TimeUnit::Minute => "m"@,
            TimeUnit::Second => "s"@,
        }
    }
}

/// The largest unit of which `seconds` holds at least one; seconds where it
/// holds none.
pub open spec fn largest_unit(seconds: u64) -> TimeUnit {
    if seconds >= TimeUnit::Year.seconds() {
        TimeUnit::Year
    } else if seconds >= TimeUnit::Week.seconds() {
        TimeUnit::Week
    } else if seconds >= TimeUnit::Day.seconds() {
        TimeUnit::Day
    } else if seconds >= TimeUnit::Hour.seconds() {
        TimeUnit::Hour
    } else if seconds >= TimeUnit::Minute.seconds() {
        TimeUnit::Minute
    } else {
        TimeUnit::Second
    }
}

/// The text of a count of units: `3 weeks`, `1 week`; short, `3w`.
pub open spec fn count_text(count: u64, unit: TimeUnit, short: bool) -> Seq<char> {
    if short {
        decimal(count as nat) + unit.shorthand()
    } else if count == 1 {
        decimal(count as nat) + " "@ + unit.singular()
    } else {
        decimal(count as nat) + " "@ + unit.plural()
    }
}

/// The text of `seconds`: how many of its largest unit it holds, rounded
/// down. Zero seconds read `0 seconds`, or `0s`.
pub open spec fn human_text(seconds: u64, short: bool) -> Seq<char> {
    let unit = largest_unit(seconds);
    count_text(seconds / unit.seconds(), unit, short)
}

/// The count of `unit` in `seconds` as text, if there is at least one.
fn try_unit(seconds: u64, unit: TimeUnit, short: bool) -> (r: Option<String>)
    ensures
        seconds / unit.seconds() == 0 ==> r is None,
        seconds / unit.seconds() > 0 ==> r is Some && r.unwrap()@ == count_text(
            seconds / unit.seconds(),
            unit,
            short,
        ),
{
    let size: u64 = match unit {
        TimeUnit::Year => 365 * 24 * 60 * 60,
        TimeUnit::Week => 7 * 24 * 60 * 60,
        TimeUnit::Day => 24 * 60 * 60,
        TimeUnit::Hour => 60 * 60,
        TimeUnit::Minute => 60,
        TimeUnit::Second => 1,
    };
    let count = seconds / size;
    if count == 0 {
        return None;
    }
    let mut out = String::new();
    push_decimal(&mut out, count);
    if short {
        match unit {
            TimeUnit::Year => out.append("y"),
            TimeUnit::Week => out.append("w"),
            TimeUnit::Day => out.append("d"),
            TimeUnit::Hour => out.append("h"),
            TimeUnit::Minute => out.append("m"),
            TimeUnit::Second => out.append("s"),
        }
    } else {
        out.append(" ");
        if count == 1 {
            match unit {
                TimeUnit::Year => out.append("year"),
                TimeUnit::Week => out.append("week"),
                TimeUnit::Day => out.append("day"),
                TimeUnit::Hour => out.append("hour"),
                TimeUnit::Minute => out.append("minute"),
                TimeUnit::Second => out.append("second"),
            }
        } else {
            match unit {
                TimeUnit::Year => out.append("years"),
                TimeUnit::Week => out.append("weeks"),
                TimeUnit::Day => out.append("days"),
                TimeUnit::Hour => out.append("hours"),
                TimeUnit::Minute => out.append("minutes"),
                TimeUnit::Second => out.append("seconds"),
            }
        }
    }
    assert(out@ =~= count_text(count, unit, short));
    Some(out)
}

fn human(seconds: u64, short: bool) -> (r: String)
    ensures
        r@ == human_text(seconds, short),
{
    if let Some(text) = try_unit(seconds, TimeUnit::Year, short) {
        return text;
    }
    if let Some(text) = try_unit(seconds, TimeUnit::Week, short) {
        return text;
    }
    if let Some(text) = try_unit(seconds, TimeUnit::Day, short) {
        return text;
    }
    if let Some(text) = try_unit(seconds, TimeUnit::Hour, short) {
        return text;
    }
    if let Some(text) = try_unit(seconds, TimeUnit::Minute, short) {
        return text;
    }
    if let Some(text) = try_unit(seconds, TimeUnit::Second, short) {
        return text;
    }
    let mut out = String::new();
    push_decimal(&mut out, 0);
    if short {
        out.append("s");
    } else {
        out.append(" ");
        out.append("seconds");
    }
    assert(out@ =~= count_text(0, TimeUnit::Second, short));
    out
}

impl HumanDuration {
    /// The text shown for the duration: the count and the unit's name.
    pub fn to_string(&self) -> (r: String)
        ensures
            r@ == human_text(self.0, false),
    {
        human(self.0, false)
    }

    /// The short text, as the alternate form shows it: the count and the
    /// unit's letter.
    pub fn to_short_string(&self) -> (r: String)
        ensures
            r@ == human_text(self.0, true),
    {
        human(self.0, true)
    }
}

} // verus!
