use vstd::prelude::*;
use crate::text::str_eq;

verus! {

/// Seconds in one day.
pub const SECONDS_PER_DAY: u64 = 86400;

/// Length of the trailing week window, in seconds.
pub const WEEK_SECONDS: u64 = 604800;

/// Length of the trailing month window (thirty days), in seconds.
pub const MONTH_SECONDS: u64 = 2592000;

/// A reporting window, anchored at "now" (seconds since the Unix epoch, UTC).
///
/// `Today` is the current UTC calendar day; `Week` and `Month` are the
/// trailing seven and thirty days; `All` does not filter.
#[derive(Clone, Copy, Debug, PartialEq, Eq, Structural)]
pub enum Period {
    Today,
    Week,
    Month,
    All,
}

/// Whether a timestamp falls inside a window anchored at `now`.
pub open spec fn within(period: Period, now: u64, ts: u64) -> bool {
    match period {
        Period::Today => ts / SECONDS_PER_DAY == now / SECONDS_PER_DAY,
        Period::Week => ts + WEEK_SECONDS >= now,
        Period::Month => ts + MONTH_SECONDS >= now,
        Period::All => true,
    }
}

/// The name under which a window is asked for.
pub open spec fn period_named(name: Seq<char>) -> Option<Period> {
    if name == "today"@ {
        Some(Period::Today)
    } else if name == "week"@ {
        Some(Period::Week)
    } else if name == "month"@ {
        Some(Period::Month)
    } else if name == "all"@ {
        Some(Period::All)
    } else {
        None
    }
}

/// The label that a summary shows for a window.
pub open spec fn label_of(period: Period) -> Seq<char> {
    match period {
        Period::Today => "Today"@,
        Period::Week => "This Week"@,
        Period::Month => "This Month"@,
        Period::All => "All Time"@,
    }
}

impl Period {
    /// Reads a window name: "today", "week", "month" or "all".
    pub fn parse(name: &str) -> (r: Option<Period>)
        ensures
            r == period_named(name@),
    {
        if str_eq(name, "today") {
            Some(Period::Today)
        } else if str_eq(name, "week") {
            Some(Period::Week)
        } else if str_eq(name, "month") {
            Some(Period::Month)
        } else if str_eq(name, "all") {
            Some(Period::All)
        } else {
            None
        }
    }

    /// The label of the window: "Today", "This Week", "This Month" or "All Time".
    pub fn label(&self) -> (r: &'static str)
        ensures
            r@ == label_of(*self),
    {
        match self {
            Period::Today => "Today",
            Period::Week => "This Week",
            Period::Month => "This Month",
            Period::All => "All Time",
        }
    }

    /// Whether the timestamp `ts` falls inside this window anchored at `now`.
    pub fn contains(&self, now: u64, ts: u64) -> (r: bool)
        ensures
            r == within(*self, now, ts),
    {
        match self {
            Period::Today => ts / SECONDS_PER_DAY == now / SECONDS_PER_DAY,
            Period::Week => ts as u128 + WEEK_SECONDS as u128 >= now as u128,
            Period::Month => ts as u128 + MONTH_SECONDS as u128 >= now as u128,
            Period::All => true,
        }
    }
}

} // verus!
