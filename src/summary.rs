use vstd::prelude::*;
use crate::ledger::{EntryView, Ledger, window_cost, lemma_window_cost_bounds};
use crate::text::str_eq;
use crate::window::{Period, within};

verus! {

/// What one operation cost inside a window.
pub struct OperationTotal {
    pub operation: String,
    /// Number of entries of this operation in the window.
    pub calls: u64,
    /// Sum of their costs, in micro-dollars.
    pub cost_micros: u128,
}

/// The mathematical value of an [`OperationTotal`].
pub struct OperationTotalView {
    pub operation: Seq<char>,
    pub calls: u64,
    pub cost_micros: u128,
}

impl View for OperationTotal {
    type V = OperationTotalView;

    open spec fn view(&self) -> OperationTotalView {
        OperationTotalView {
            operation: self.operation@,
            calls: self.calls,
            cost_micros: self.cost_micros,
        }
    }
}

/// Spending in one window, in total and by operation.
pub struct CostSummary {
    pub period: Period,
    pub budget_limit_micros: u64,
    /// Number of entries in the window.
    pub calls: u64,
    /// Sum of their costs, in micro-dollars.
    pub total_micros: u128,
    /// One row per operation that occurs in the window, in order of first
    /// occurrence.
    pub by_operation: Vec<OperationTotal>,
}

/// Number of entries in the window.
pub open spec fn window_calls(s: Seq<EntryView>, period: Period, now: u64) -> nat
    decreases s.len(),
{
    if s.len() == 0 {
        0
    } else {
        window_calls(s.drop_last(), period, now) + if within(period, now, s.last().timestamp) {
            1nat
        } else {
            0nat
        }
    }
}

/// Whether an entry is in the window and of the given operation.
pub open spec fn counts_for(e: EntryView, period: Period, now: u64, op: Seq<char>) -> bool {
    within(period, now, e.timestamp) && e.operation == op
}

/// Number of entries of `op` in the window.
pub open spec fn op_calls(s: Seq<EntryView>, period: Period, now: u64, op: Seq<char>) -> nat
    decreases s.len(),
{
    if s.len() == 0 {
        0
    } else {
        op_calls(s.drop_last(), period, now, op) + if counts_for(s.last(), period, now, op) {
            1nat
        } else {
            0nat
        }
    }
}

/// Sum of the costs of the entries of `op` in the window.
pub open spec fn op_cost(s: Seq<EntryView>, period: Period, now: u64, op: Seq<char>) -> int
    decreases s.len(),
{
    if s.len() == 0 {
        0
    } else {
        op_cost(s.drop_last(), period, now, op) + if counts_for(s.last(), period, now, op) {
            s.last().cost_micros as int
        } else {
            0
        }
    }
}

/// The operations that occur in the window, each once, in order of first
/// occurrence.
pub open spec fn window_ops(s: Seq<EntryView>, period: Period, now: u64) -> Seq<Seq<char>>
    decreases s.len(),
{
    if s.len() == 0 {
        Seq::empty()
    } else {
        let ops = window_ops(s.drop_last(), period, now);
        if within(period, now, s.last().timestamp) && !ops.contains(s.last().operation) {
            ops.push(s.last().operation)
        } else {
            ops
        }
    }
}

/// The breakdown of a window: for each operation in order of first
/// occurrence, its number of entries and their cost.
pub open spec fn breakdown_of(s: Seq<EntryView>, period: Period, now: u64) -> Seq<
    OperationTotalView,
> {
    window_ops(s, period, now).map_values(
        |op: Seq<char>|
            OperationTotalView {
                operation: op,
                calls: op_calls(s, period, now, op) as u64,
                cost_micros: op_cost(s, period, now, op) as u128,
            },
    )
}

/// The rows of a breakdown are exactly the operations that occur in the
/// window, each once, with their number of entries and their cost.
pub open spec fn is_breakdown(
    rows: Seq<OperationTotalView>,
    s: Seq<EntryView>,
    period: Period,
    now: u64,
) -> bool {
    &&& forall|k: int|
        0 <= k < rows.len() ==> {
            &&& rows[k].calls > 0
            &&& rows[k].calls == op_calls(s, period, now, rows[k].operation)
            &&& rows[k].cost_micros == op_cost(s, period, now, rows[k].operation)
        }
    &&& forall|j: int, k: int|
        0 <= j < k < rows.len() ==> rows[j].operation != rows[k].operation
    &&& forall|op: Seq<char>|
        (forall|k: int| 0 <= k < rows.len() ==> rows[k].operation != op) ==> #[trigger] op_calls(
            s,
            period,
            now,
            op,
        ) == 0
}

proof fn lemma_op_bounds(s: Seq<EntryView>, period: Period, now: u64, op: Seq<char>)
    ensures
        op_calls(s, period, now, op) <= s.len(),
        0 <= op_cost(s, period, now, op) <= s.len() * (u64::MAX as int),
        window_calls(s, period, now) <= s.len(),
    decreases s.len(),
{
    if s.len() > 0 {
        lemma_op_bounds(s.drop_last(), period, now, op);
    }
}

proof fn lemma_no_calls_no_cost(s: Seq<EntryView>, period: Period, now: u64, op: Seq<char>)
    requires
        op_calls(s, period, now, op) == 0,
    ensures
        op_cost(s, period, now, op) == 0,
    decreases s.len(),
{
    if s.len() > 0 {
        lemma_no_calls_no_cost(s.drop_last(), period, now, op);
    }
}

impl Ledger {
    /// Totals the entries inside `period`, anchored at `now`, overall and by
    /// operation.
    pub fn summarize(&self, period: Period, now: u64) -> (r: CostSummary)
        ensures
            r.period == period,
            r.budget_limit_micros == self@.budget_limit_micros,
            r.calls == window_calls(self@.entries, period, now),
            r.total_micros == window_cost(self@.entries, period, now),
            is_breakdown(r.by_operation@.map_values(|t: OperationTotal| t@), self@.entries, period, now),
            r.by_operation@.map_values(|t: OperationTotal| t@) == breakdown_of(self@.entries, period, now),
    {
        let ghost s = self@.entries;
        let mut rows: Vec<OperationTotal> = Vec::new();
        let mut calls: u64 = 0;
        let mut total: u128 = 0;
        let mut i: usize = 0;
        while i < self.entries.len()
            invariant
                s == self@.entries,
                i <= s.len(),
                calls == window_calls(s.subrange(0, i as int), period, now),
                total == window_cost(s.subrange(0, i as int), period, now),
                is_breakdown(rows@.map_values(|t: OperationTotal| t@), s.subrange(0, i as int), period, now),
                rows@.map_values(|t: OperationTotal| t@).map_values(|t: OperationTotalView| t.operation)
                    == window_ops(s.subrange(0, i as int), period, now),
            decreases s.len() - i,
        {
            let ghost pre = s.subrange(0, i as int);
            let ghost next = s.subrange(0, i + 1);
            let ghost old_rows = rows@.map_values(|t: OperationTotal| t@);
            proof {
                lemma_window_cost_bounds(pre, period, now);
                lemma_op_bounds(pre, period, now, s[i as int].operation);
                assert((i as int) * (u64::MAX as int) + (u64::MAX as int) <= u128::MAX) by (
                nonlinear_arith)
                    requires
                        0 <= i < 0x1_0000_0000_0000_0000int,
                ;
                assert(next.drop_last() =~= pre);
                assert(next.last() == s[i as int]);
            }
            let e = &self.entries[i];
            assert(e@ == s[i as int]);
            if period.contains(now, e.timestamp) {
                calls = calls + 1;
                total = total + e.cost_micros as u128;
                let mut j: usize = 0;
                let mut found = false;
                while j < rows.len()
                    invariant
                        j <= rows.len(),
                        rows@.map_values(|t: OperationTotal| t@) == old_rows,
                        !found ==> forall|k: int| 0 <= k < j ==> old_rows[k].operation != e@.operation,
                        found ==> j < rows.len() && old_rows[j as int].operation == e@.operation,
                    ensures
                        rows@.map_values(|t: OperationTotal| t@) == old_rows,
                        !found ==> j == rows.len() && forall|k: int| 0 <= k < j ==> old_rows[k].operation != e@.operation,
                        found ==> j < rows.len() && old_rows[j as int].operation == e@.operation,
                    decreases rows.len() - j + if found { 0int } else { 1int },
                {
                    if str_eq(rows[j].operation.as_str(), e.operation.as_str()) {
                        found = true;
                        break;
                    }
                    j = j + 1;
                }
                if found {
                    proof {
                        lemma_op_bounds(pre, period, now, old_rows[j as int].operation);
                    }
                    let row = OperationTotal {
                        operation: rows[j].operation.clone(),
                        calls: rows[j].calls + 1,
                        cost_micros: rows[j].cost_micros + e.cost_micros as u128,
                    };
                    rows.set(j, row);
                } else {
                    rows.push(
                        OperationTotal {
                            operation: e.operation.clone(),
                            calls: 1,
                            cost_micros: e.cost_micros as u128,
                        },
                    );
                }
                proof {
                    let new_rows = rows@.map_values(|t: OperationTotal| t@);
                    assert forall|k: int| 0 <= k < new_rows.len() implies {
                        &&& new_rows[k].calls > 0
                        &&& new_rows[k].calls == op_calls(next, period, now, new_rows[k].operation)
                        &&& new_rows[k].cost_micros == op_cost(next, period, now, new_rows[k].operation)
                    } by {
                        if k < old_rows.len() {
                            assert(old_rows[k].calls == op_calls(pre, period, now, old_rows[k].operation));
                            if found && k == j {
                                assert(new_rows[k].operation == e@.operation);
                            } else {
                                assert(new_rows[k] == old_rows[k]);
                                if found {
                                    assert(old_rows[j as int].operation == e@.operation);
                                    if k < j {
                                        assert(old_rows[k].operation != old_rows[j as int].operation);
                                    } else {
                                        assert(old_rows[j as int].operation != old_rows[k].operation);
                                    }
                                }
                                assert(!counts_for(next.last(), period, now, old_rows[k].operation));
                            }
                        } else {
                            assert(new_rows[k].operation == e@.operation);
                            assert(op_calls(pre, period, now, e@.operation) == 0);
                            lemma_no_calls_no_cost(pre, period, now, e@.operation);
                        }
                    }
                    assert forall|k: int| 0 <= k < old_rows.len() implies new_rows[k].operation
                        == old_rows[k].operation by {
                        if found && k == j {
                            assert(new_rows[k].operation == e@.operation);
                        } else {
                            assert(new_rows[k] == old_rows[k]);
                        }
                    }
                    let old_ops = old_rows.map_values(|t: OperationTotalView| t.operation);
                    let new_ops = new_rows.map_values(|t: OperationTotalView| t.operation);
                    if found {
                        assert(old_ops[j as int] == e@.operation);
                        assert(old_ops.contains(e@.operation));
                        assert(new_ops =~= old_ops);
                    } else {
                        assert(!old_ops.contains(e@.operation)) by {
                            if old_ops.contains(e@.operation) {
                                let k = choose|k: int| 0 <= k < old_ops.len() && old_ops[k] == e@.operation;
                                assert(old_rows[k].operation == e@.operation);
                            }
                        }
                        assert(new_ops =~= old_ops.push(e@.operation));
                    }
                    assert forall|a: int, b: int| 0 <= a < b < new_rows.len() implies new_rows[a].operation
                        != new_rows[b].operation by {
                        if b >= old_rows.len() {
                            assert(old_rows[a].operation != e@.operation);
                        }
                    }
                    assert forall|op: Seq<char>|
                        (forall|k: int| 0 <= k < new_rows.len() ==> new_rows[k].operation != op) implies
                        #[trigger] op_calls(next, period, now, op) == 0 by {
                        if !found {
                            assert(new_rows[old_rows.len() as int].operation != op);
                        } else {
                            assert(new_rows[j as int].operation != op);
                        }
                        assert forall|k: int| 0 <= k < old_rows.len() implies old_rows[k].operation != op by {
                            assert(new_rows[k].operation != op);
                        }
                        assert(op_calls(pre, period, now, op) == 0);
                        assert(e@.operation != op);
                    }
                }
            } else {
                proof {
                    let rs = rows@.map_values(|t: OperationTotal| t@);
                    assert forall|k: int| 0 <= k < rs.len() implies {
                        &&& rs[k].calls > 0
                        &&& rs[k].calls == op_calls(next, period, now, rs[k].operation)
                        &&& rs[k].cost_micros == op_cost(next, period, now, rs[k].operation)
                    } by {
                        assert(rs[k].calls == op_calls(pre, period, now, rs[k].operation));
                    }
                    assert forall|op: Seq<char>|
                        (forall|k: int| 0 <= k < rs.len() ==> rs[k].operation != op) implies
                        #[trigger] op_calls(next, period, now, op) == 0 by {
                        assert(op_calls(pre, period, now, op) == 0);
                    }
                }
            }
            i = i + 1;
        }
        assert(s.subrange(0, s.len() as int) =~= s);
        proof {
            let rs = rows@.map_values(|t: OperationTotal| t@);
            let ops = rs.map_values(|t: OperationTotalView| t.operation);
            assert forall|k: int| 0 <= k < rs.len() implies rs[k] == breakdown_of(s, period, now)[k] by {
                assert(ops[k] == rs[k].operation);
            }
            assert(rs =~= breakdown_of(s, period, now));
        }
        CostSummary {
            period,
            budget_limit_micros: self.budget_limit_micros,
            calls,
            total_micros: total,
            by_operation: rows,
        }
    }
}

} // verus!
