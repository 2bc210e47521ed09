use vstd::prelude::*;
use crate::rates::{cost_of, entry_cost};
use crate::window::{Period, within};

verus! {

/// The spending limit of a new ledger: one dollar, in micro-dollars.
pub const DEFAULT_BUDGET_MICROS: u64 = 1000000;

/// One tracked action, priced when it was recorded.
pub struct CostEntry {
    /// When the action was recorded, in seconds since the Unix epoch (UTC).
    pub timestamp: u64,
    /// The kind of action ("search", "like", ...).
    pub operation: String,
    /// The API resource that was called; kept for auditing, not for pricing.
    pub endpoint: String,
    /// Billable units (tweets read, or 1 for a flat-rate action).
    pub units: u64,
    /// The price of this entry in micro-dollars, fixed when it was written.
    pub cost_micros: u64,
}

/// The mathematical value of a [`CostEntry`].
pub struct EntryView {
    pub timestamp: u64,
    pub operation: Seq<char>,
    pub endpoint: Seq<char>,
    pub units: u64,
    pub cost_micros: u64,
}

impl View for CostEntry {
    type V = EntryView;

    open spec fn view(&self) -> EntryView {
        EntryView {
            timestamp: self.timestamp,
            operation: self.operation@,
            endpoint: self.endpoint@,
            units: self.units,
            cost_micros: self.cost_micros,
        }
    }
}

/// The persisted aggregate: entries in the order they were recorded, and the
/// spending limit.
pub struct Ledger {
    pub budget_limit_micros: u64,
    pub entries: Vec<CostEntry>,
}

/// The mathematical value of a [`Ledger`].
pub struct LedgerView {
    pub budget_limit_micros: u64,
    pub entries: Seq<EntryView>,
}

impl View for Ledger {
    type V = LedgerView;

    open spec fn view(&self) -> LedgerView {
        LedgerView {
            budget_limit_micros: self.budget_limit_micros,
            entries: self.entries@.map_values(|e: CostEntry| e@),
        }
    }
}

/// A snapshot of the limit against what was spent in some window.
#[derive(Clone, Copy, Debug, PartialEq, Eq, Structural)]
pub struct BudgetStatus {
    pub limit: u64,
    pub spent: u128,
}

/// Why a new spending limit was refused.
#[derive(Clone, Copy, Debug, PartialEq, Eq, Structural)]
pub enum BudgetError {
    /// The limit was below zero.
    Negative,
}

/// The entry that recording `units` units of `op` at `now` writes.
pub open spec fn priced_entry(now: u64, op: Seq<char>, endpoint: Seq<char>, units: u64) -> EntryView {
    EntryView {
        timestamp: now,
        operation: op,
        endpoint: endpoint,
        units: units,
        cost_micros: cost_of(op, units as nat),
    }
}

/// Sum of the costs of the entries that fall inside a window.
pub open spec fn window_cost(s: Seq<EntryView>, period: Period, now: u64) -> int
    decreases s.len(),
{
    if s.len() == 0 {
        0
    } else {
        window_cost(s.drop_last(), period, now) + if within(period, now, s.last().timestamp) {
            s.last().cost_micros as int
        } else {
            0
        }
    }
}

/// Sum of the costs of all entries.
pub open spec fn total_cost(s: Seq<EntryView>) -> int
    decreases s.len(),
{
    if s.len() == 0 {
        0
    } else {
        total_cost(s.drop_last()) + s.last().cost_micros as int
    }
}

/// A window's cost is between zero and `u64::MAX` per entry.
pub proof fn lemma_window_cost_bounds(s: Seq<EntryView>, period: Period, now: u64)
    ensures
        0 <= window_cost(s, period, now) <= s.len() * (u64::MAX as int),
    decreases s.len(),
{
    if s.len() > 0 {
        lemma_window_cost_bounds(s.drop_last(), period, now);
    }
}

/// Spending over the all-time window is the sum of the costs of every entry
/// recorded, whatever the number of entries.
pub proof fn law_all_time_spent_is_sum_of_entries(s: Seq<EntryView>, now: u64)
    ensures
        window_cost(s, Period::All, now) == total_cost(s),
    decreases s.len(),
{
    if s.len() > 0 {
        law_all_time_spent_is_sum_of_entries(s.drop_last(), now);
    }
}

/// Recording one more entry adds exactly its cost to the all-time spending.
pub proof fn law_record_adds_its_cost(s: Seq<EntryView>, e: EntryView, now: u64)
    ensures
        window_cost(s.push(e), Period::All, now) == window_cost(s, Period::All, now) + e.cost_micros,
{
    assert(s.push(e).drop_last() =~= s);
}

/// A ledger with no entries has spent nothing, in every window.
pub proof fn law_empty_ledger_spends_nothing(period: Period, now: u64)
    ensures
        window_cost(Seq::<EntryView>::empty(), period, now) == 0,
        DEFAULT_BUDGET_MICROS > 0,
{
}

/// The all-time spending is at least the cost of any single entry.
pub proof fn law_all_time_spent_covers_each_entry(s: Seq<EntryView>, k: int, now: u64)
    requires
        0 <= k < s.len(),
    ensures
        window_cost(s, Period::All, now) >= s[k].cost_micros,
    decreases s.len(),
{
    if k < s.len() - 1 {
        law_all_time_spent_covers_each_entry(s.drop_last(), k, now);
    }
    lemma_window_cost_bounds(s.drop_last(), Period::All, now);
}

impl CostEntry {
    /// Prices `units` units of `operation` with the rate table and builds the
    /// entry stamped `now`.
    pub fn new(now: u64, operation: &str, endpoint: &str, units: u64) -> (r: CostEntry)
        ensures
            r@ == priced_entry(now, operation@, endpoint@, units),
    {
        let cost = entry_cost(operation, units);
        CostEntry {
            timestamp: now,
            operation: operation.to_owned(),
            endpoint: endpoint.to_owned(),
            units,
            cost_micros: cost,
        }
    }
}

impl BudgetStatus {
    /// What is left of the limit: `limit - spent`, negative when over budget,
    /// and `i128::MIN` where the difference lies below that.
    pub fn remaining(&self) -> (r: i128)
        ensures
            self.limit - self.spent >= i128::MIN ==> r == self.limit - self.spent,
            self.limit - self.spent < i128::MIN ==> r == i128::MIN,
    {
        let limit = self.limit as u128;
        if self.spent >= limit {
            let over = self.spent - limit;
            if over > i128::MAX as u128 {
                i128::MIN
            } else {
                -(over as i128)
            }
        } else {
            (limit - self.spent) as i128
        }
    }

    /// Whether more was spent than the limit allows.
    pub fn over_budget(&self) -> (r: bool)
        ensures
            r == (self.spent > self.limit),
    {
        self.spent > self.limit as u128
    }
}

impl Ledger {
    /// An empty ledger with the default spending limit.
    pub fn new() -> (r: Ledger)
        ensures
            r@.budget_limit_micros == DEFAULT_BUDGET_MICROS,
            r@.entries.len() == 0,
    {
        let r = Ledger { budget_limit_micros: DEFAULT_BUDGET_MICROS, entries: Vec::new() };
        assert(r@.entries =~= Seq::<EntryView>::empty());
        r
    }

    /// Prices a tracked action, appends it as the newest entry and returns it.
    /// The limit and the earlier entries are left as they were.
    pub fn record(&mut self, now: u64, operation: &str, endpoint: &str, units: u64) -> (r:
        CostEntry)
        ensures
            r@ == priced_entry(now, operation@, endpoint@, units),
            final(self)@.entries == old(self)@.entries.push(r@),
            final(self)@.budget_limit_micros == old(self)@.budget_limit_micros,
    {
        let kept = CostEntry::new(now, operation, endpoint, units);
        let r = CostEntry::new(now, operation, endpoint, units);
        self.entries.push(kept);
        assert(self@.entries =~= old(self)@.entries.push(r@));
        r
    }

    /// Sets the spending limit, given in micro-dollars. A negative limit is
    /// refused and leaves the ledger as it was.
    pub fn set_budget(&mut self, limit_micros: i64) -> (r: Result<(), BudgetError>)
        ensures
            limit_micros < 0 ==> r == Err::<(), BudgetError>(BudgetError::Negative) && final(self)@
                == old(self)@,
            limit_micros >= 0 ==> r is Ok && final(self)@.budget_limit_micros == limit_micros
                && final(self)@.entries == old(self)@.entries,
    {
        if limit_micros < 0 {
            Err(BudgetError::Negative)
        } else {
            self.budget_limit_micros = limit_micros as u64;
            Ok(())
        }
    }

    /// The limit against the sum of the costs of the entries in `period`,
    /// anchored at `now`. `Period::All` gives the all-time spending.
    pub fn check_budget(&self, period: Period, now: u64) -> (r: BudgetStatus)
        ensures
            r.limit == self@.budget_limit_micros,
            r.spent == window_cost(self@.entries, period, now),
    {
        let ghost s = self@.entries;
        let mut spent: u128 = 0;
        let mut i: usize = 0;
        while i < self.entries.len()
            invariant
                s == self@.entries,
                i <= s.len(),
                spent == window_cost(s.subrange(0, i as int), period, now),
            decreases s.len() - i,
        {
            proof {
                lemma_window_cost_bounds(s.subrange(0, i as int), period, now);
                assert((i as int) * (u64::MAX as int) + (u64::MAX as int) <= u128::MAX) by (
                nonlinear_arith)
                    requires
                        0 <= i < 0x1_0000_0000_0000_0000int,
                ;
                assert(s.subrange(0, i + 1).drop_last() =~= s.subrange(0, i as int));
            }
            let e = &self.entries[i];
            if period.contains(now, e.timestamp) {
                spent = spent + e.cost_micros as u128;
            }
            i = i + 1;
        }
        assert(s.subrange(0, s.len() as int) =~= s);
        BudgetStatus { limit: self.budget_limit_micros, spent }
    }

    /// Removes every entry and keeps the spending limit.
    pub fn reset(&mut self)
        ensures
            final(self)@.entries.len() == 0,
            final(self)@.budget_limit_micros == old(self)@.budget_limit_micros,
    {
        self.entries = Vec::new();
    }
}

} // verus!
