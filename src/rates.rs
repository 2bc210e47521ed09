use vstd::prelude::*;
use crate::text::str_eq;

verus! {

/// Price of one unit (one tweet read) of a read operation, in micro-dollars.
pub const READ_PER_UNIT_MICROS: u64 = 5000;

/// Flat price of one engagement call (like, bookmark), in micro-dollars.
pub const ENGAGEMENT_PER_CALL_MICROS: u64 = 10000;

/// Flat price of one trends call, in micro-dollars.
pub const TRENDS_PER_CALL_MICROS: u64 = 100000;

/// Per-unit price of an operation that the table does not know.
pub const FALLBACK_PER_UNIT_MICROS: u64 = 5000;

/// Operations that are priced per unit read.
pub open spec fn is_read_op(op: Seq<char>) -> bool {
    op == "search"@ || op == "thread"@ || op == "profile"@ || op == "tweet"@
        || op == "bookmarks"@ || op == "likes"@ || op == "following"@
}

/// Operations that are priced as a flat engagement fee.
pub open spec fn is_engagement_op(op: Seq<char>) -> bool {
    op == "like"@ || op == "unlike"@ || op == "bookmark"@ || op == "unbookmark"@
}

/// The rate table: `(per_unit, per_call)` in micro-dollars for an operation.
/// Every name has a rate; unknown names fall back to the read price per unit.
pub open spec fn rate_of(op: Seq<char>) -> (u64, u64) {
    if is_read_op(op) {
        (READ_PER_UNIT_MICROS, 0)
    } else if is_engagement_op(op) {
        (0, ENGAGEMENT_PER_CALL_MICROS)
    } else if op == "trends"@ {
        (0, TRENDS_PER_CALL_MICROS)
    } else {
        (FALLBACK_PER_UNIT_MICROS, 0)
    }
}

/// The exact cost of `units` units of `op`, before it is capped to fit a `u64`.
pub open spec fn raw_cost(op: Seq<char>, units: nat) -> nat {
    (units * rate_of(op).0 + rate_of(op).1) as nat
}

/// The cost that an entry records: the exact cost, saturated at `u64::MAX`.
pub open spec fn cost_of(op: Seq<char>, units: nat) -> u64 {
    if raw_cost(op, units) <= u64::MAX {
        raw_cost(op, units) as u64
    } else {
        u64::MAX
    }
}

/// Rate lookup depends on the operation's name alone: two lookups of the same
/// name give the same pair, and a lookup changes nothing.
pub proof fn law_rate_lookup_is_stable(a: &str, b: &str)
    requires
        a@ == b@,
    ensures
        rate_of(a@) == rate_of(b@),
{
}

/// Every name outside the table is priced at the fallback: per unit, with no
/// flat fee.
pub proof fn law_unknown_operations_fall_back(op: Seq<char>)
    requires
        !is_read_op(op),
        !is_engagement_op(op),
        op != "trends"@,
    ensures
        rate_of(op) == (FALLBACK_PER_UNIT_MICROS, 0u64),
{
}

/// Looks up the `(per_unit, per_call)` rate of an operation, in micro-dollars.
pub fn cost_rate(op: &str) -> (r: (u64, u64))
    ensures
        r == rate_of(op@),
{
    if str_eq(op, "search") || str_eq(op, "thread") || str_eq(op, "profile")
        || str_eq(op, "tweet") || str_eq(op, "bookmarks") || str_eq(op, "likes")
        || str_eq(op, "following") {
        (READ_PER_UNIT_MICROS, 0)
    } else if str_eq(op, "like") || str_eq(op, "unlike") || str_eq(op, "bookmark")
        || str_eq(op, "unbookmark") {
        (0, ENGAGEMENT_PER_CALL_MICROS)
    } else if str_eq(op, "trends") {
        (0, TRENDS_PER_CALL_MICROS)
    } else {
        (FALLBACK_PER_UNIT_MICROS, 0)
    }
}

/// Prices `units` units of `op`: `units * per_unit + per_call`, saturated at
/// `u64::MAX`.
pub fn entry_cost(op: &str, units: u64) -> (r: u64)
    ensures
        r == cost_of(op@, units as nat),
{
    let (per_unit, per_call) = cost_rate(op);
    let r = match units.checked_mul(per_unit) {
        Some(v) => v.saturating_add(per_call),
        None => u64::MAX,
    };
    assert(raw_cost(op@, units as nat) == units * per_unit + per_call);
    r
}

} // verus!
