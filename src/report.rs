use vstd::prelude::*;
use vstd::string::*;
use crate::ledger::Ledger;
use crate::ledger::window_cost;
use crate::summary::{CostSummary, OperationTotal, OperationTotalView, breakdown_of, window_calls};
use crate::window::{Period, label_of, period_named};

verus! {

/// Micro-dollars in one dollar.
pub const MICROS_PER_DOLLAR: u128 = 1000000;

/// The decimal digit `d` as a character.
pub open spec fn digit(d: nat) -> char {
    "0123456789"@[d as int]
}

/// The decimal numeral of `n`, without leading zeros.
pub open spec fn decimal(n: nat) -> Seq<char>
    decreases n,
{
    if n < 10 {
        seq![digit(n)]
    } else {
        decimal(n / 10).push(digit(n % 10))
    }
}

/// The last `k` decimal digits of `n`, padded with leading zeros.
pub open spec fn fixed_digits(n: nat, k: nat) -> Seq<char>
    decreases k,
{
    if k == 0 {
        Seq::empty()
    } else {
        fixed_digits(n / 10, (k - 1) as nat).push(digit(n % 10))
    }
}

/// A micro-dollar amount written in dollars with six decimals: `$0.050000`.
pub open spec fn usd(m: nat) -> Seq<char> {
    "$"@ + decimal(m / 1000000) + "."@ + fixed_digits(m % 1000000, 6)
}

/// The line of a breakdown row: `  search: 2 calls, $0.100000`.
pub open spec fn row_text(r: OperationTotalView) -> Seq<char> {
    "  "@ + r.operation + ": "@ + decimal(r.calls as nat) + " calls, "@ + usd(r.cost_micros as nat)
        + "\n"@
}

/// The lines of all rows, in order.
pub open spec fn rows_text(rows: Seq<OperationTotalView>) -> Seq<char>
    decreases rows.len(),
{
    if rows.len() == 0 {
        Seq::empty()
    } else {
        rows_text(rows.drop_last()) + row_text(rows.last())
    }
}

/// The first line of a report: the title and the window's label.
pub open spec fn title_text(period: Period) -> Seq<char> {
    "API Costs: "@ + label_of(period) + "\n"@
}

/// The whole report of a summary.
pub open spec fn report_text(
    period: Period,
    limit: u64,
    calls: u64,
    total: u128,
    rows: Seq<OperationTotalView>,
) -> Seq<char> {
    title_text(period) + "Total: "@ + usd(total as nat) + " ("@ + decimal(calls as nat) + " calls)\n"@
        + "Budget: "@ + usd(limit as nat) + "\n"@ + rows_text(rows)
}

/// The report of a summary value.
pub open spec fn summary_report(s: CostSummary) -> Seq<char> {
    report_text(
        s.period,
        s.budget_limit_micros,
        s.calls,
        s.total_micros,
        s.by_operation@.map_values(|t: OperationTotal| t@),
    )
}

/// Every report opens with the title and the label of its window.
pub proof fn law_report_opens_with_title_and_label(
    period: Period,
    limit: u64,
    calls: u64,
    total: u128,
    rows: Seq<OperationTotalView>,
)
    ensures
        report_text(period, limit, calls, total, rows).take(title_text(period).len() as int)
            == "API Costs: "@ + label_of(period) + "\n"@,
{
    let t = title_text(period);
    let r = report_text(period, limit, calls, total, rows);
    assert(r.take(t.len() as int) =~= t);
}

fn push_digit(out: &mut String, d: u128)
    requires
        d < 10,
    ensures
        final(out)@ == old(out)@.push(digit(d as nat)),
{
    proof {
        reveal_strlit("0123456789");
        reveal_strlit("0");
        reveal_strlit("1");
        reveal_strlit("2");
        reveal_strlit("3");
        reveal_strlit("4");
        reveal_strlit("5");
        reveal_strlit("6");
        reveal_strlit("7");
        reveal_strlit("8");
        reveal_strlit("9");
    }
    let s = if d == 0 {
        "0"
    } else if d == 1 {
        "1"
    } else if d == 2 {
        "2"
    } else if d == 3 {
        "3"
    } else if d == 4 {
        "4"
    } else if d == 5 {
        "5"
    } else if d == 6 {
        "6"
    } else if d == 7 {
        "7"
    } else if d == 8 {
        "8"
    } else {
        "9"
    };
    out.append(s);
    assert(final(out)@ =~= old(out)@.push(digit(d as nat)));
}

/// Appends the decimal numeral of `n`.
fn push_decimal(out: &mut String, n: u128)
    ensures
        final(out)@ == old(out)@ + decimal(n as nat),
    decreases n,
{
    if n >= 10 {
        push_decimal(out, n / 10);
    }
    push_digit(out, n % 10);
    assert(final(out)@ =~= old(out)@ + decimal(n as nat));
}

/// Appends the last `k` digits of `n`, padded with zeros.
fn push_fixed_digits(out: &mut String, n: u128, k: u32)
    ensures
        final(out)@ == old(out)@ + fixed_digits(n as nat, k as nat),
    decreases k,
{
    if k > 0 {
        push_fixed_digits(out, n / 10, k - 1);
        push_digit(out, n % 10);
    }
    assert(final(out)@ =~= old(out)@ + fixed_digits(n as nat, k as nat));
}

/// Appends a micro-dollar amount in dollars.
fn push_usd(out: &mut String, m: u128)
    ensures
        final(out)@ == old(out)@ + usd(m as nat),
{
    proof {
        reveal_strlit("$");
        reveal_strlit(".");
    }
    out.append("$");
    push_decimal(out, m / MICROS_PER_DOLLAR);
    out.append(".");
    push_fixed_digits(out, m % MICROS_PER_DOLLAR, 6);
    assert(final(out)@ =~= old(out)@ + usd(m as nat));
}

impl CostSummary {
    /// Writes the summary as text: a title line with the window's label, the
    /// total and the number of calls, the limit, then one line per operation.
    pub fn render(&self) -> (r: String)
        ensures
            r@ == summary_report(*self),
    {
        let ghost rows = self.by_operation@.map_values(|t: OperationTotal| t@);
        let mut out = String::new();
        out.append("API Costs: ");
        out.append(self.period.label());
        out.append("\n");
        out.append("Total: ");
        push_usd(&mut out, self.total_micros);
        out.append(" (");
        push_decimal(&mut out, self.calls as u128);
        out.append(" calls)\n");
        out.append("Budget: ");
        push_usd(&mut out, self.budget_limit_micros as u128);
        out.append("\n");
        let ghost head = out@;
        let mut i: usize = 0;
        while i < self.by_operation.len()
            invariant
                i <= rows.len(),
                rows == self.by_operation@.map_values(|t: OperationTotal| t@),
                out@ == head + rows_text(rows.subrange(0, i as int)),
            decreases rows.len() - i,
        {
            let row = &self.by_operation[i];
            assert(row@ == rows[i as int]);
            let ghost before = out@;
            out.append("  ");
            out.append(row.operation.as_str());
            out.append(": ");
            push_decimal(&mut out, row.calls as u128);
            out.append(" calls, ");
            push_usd(&mut out, row.cost_micros);
            out.append("\n");
            assert(rows.subrange(0, i + 1).drop_last() =~= rows.subrange(0, i as int));
            assert(out@ =~= before + row_text(rows[i as int]));
            i = i + 1;
        }
        assert(rows.subrange(0, rows.len() as int) =~= rows);
        assert(out@ =~= summary_report(*self));
        out
    }
}

impl Ledger {
    /// The report of the window named `period_name` ("today", "week", "month"
    /// or "all"), anchored at `now`; `None` for any other name.
    pub fn cost_summary(&self, period_name: &str, now: u64) -> (r: Option<String>)
        ensures
            period_named(period_name@) is None ==> r is None,
            period_named(period_name@) matches Some(p) ==> r is Some && r->0@ == report_text(
                p,
                self@.budget_limit_micros,
                window_calls(self@.entries, p, now) as u64,
                window_cost(self@.entries, p, now) as u128,
                breakdown_of(self@.entries, p, now),
            ),
    {
        match Period::parse(period_name) {
            Some(period) => {
                let summary = self.summarize(period, now);
                Some(summary.render())
            },
            None => None,
        }
    }
}

} // verus!
