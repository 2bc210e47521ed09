use xint::ledger::{BudgetError, BudgetStatus, Ledger, DEFAULT_BUDGET_MICROS};
use xint::rates::{cost_rate, entry_cost};
use xint::window::Period;

const NOW: u64 = 1_700_000_000;
const DAY: u64 = 86_400;

fn dollars(micros: u64) -> f64 {
    micros as f64 / 1_000_000.0
}

#[test]
fn test_cost_rate_search() {
    let (per_tweet, per_call) = cost_rate("search");
    assert_eq!(dollars(per_tweet), 0.005);
    assert_eq!(dollars(per_call), 0.0);
}

#[test]
fn test_cost_rate_like() {
    let (per_tweet, per_call) = cost_rate("like");
    assert_eq!(dollars(per_tweet), 0.0);
    assert_eq!(dollars(per_call), 0.01);
}

#[test]
fn test_cost_rate_trends() {
    let (per_tweet, per_call) = cost_rate("trends");
    assert_eq!(dollars(per_tweet), 0.0);
    assert_eq!(dollars(per_call), 0.10);
}

#[test]
fn test_cost_rate_unknown() {
    let (per_tweet, per_call) = cost_rate("unknown_operation");
    assert_eq!(dollars(per_tweet), 0.005); // fallback
    assert_eq!(dollars(per_call), 0.0);
}

#[test]
fn test_track_cost() {
    let mut ledger = Ledger::new();
    let entry = ledger.record(NOW, "search", "/2/tweets/search/recent", 10);
    assert_eq!(entry.operation, "search");
    assert_eq!(entry.units, 10);
    assert!((dollars(entry.cost_micros) - 0.05).abs() < 0.001);
    assert_eq!(ledger.entries.len(), 1);
    assert_eq!(ledger.entries[0].endpoint, "/2/tweets/search/recent");
}

#[test]
fn test_check_budget() {
    let ledger = Ledger::new();
    let status = ledger.check_budget(Period::All, NOW);
    assert!(status.limit > 0);
    assert_eq!(status.spent, 0);
}

#[test]
fn test_set_budget() {
    let mut ledger = Ledger::new();
    assert_eq!(ledger.set_budget(5_000_000), Ok(()));
    let status = ledger.check_budget(Period::All, NOW);
    assert_eq!(dollars(status.limit), 5.0);
    assert_eq!(ledger.set_budget(-1_000_000), Err(BudgetError::Negative));
    assert_eq!(ledger.check_budget(Period::All, NOW).limit, 5_000_000);
}

#[test]
fn rates_of_other_known_operations() {
    assert_eq!(cost_rate("thread"), (5000, 0));
    assert_eq!(cost_rate("profile"), (5000, 0));
    assert_eq!(cost_rate("bookmark"), (0, 10000));
    assert_eq!(cost_rate("unlike"), (0, 10000));
    assert_eq!(cost_rate(""), (5000, 0));
    assert_eq!(cost_rate("Search"), (5000, 0));
}

#[test]
fn rate_lookup_is_stable() {
    let first = cost_rate("trends");
    for _ in 0..3 {
        assert_eq!(cost_rate("trends"), first);
    }
}

#[test]
fn entry_cost_formula() {
    assert_eq!(entry_cost("search", 10), 50_000);
    assert_eq!(entry_cost("like", 1), 10_000);
    assert_eq!(entry_cost("like", 7), 10_000);
    assert_eq!(entry_cost("trends", 3), 100_000);
    assert_eq!(entry_cost("mystery", 4), 20_000);
    assert_eq!(entry_cost("search", 0), 0);
    assert_eq!(entry_cost("search", u64::MAX), u64::MAX);
}

#[test]
fn new_ledger_has_default_budget() {
    let ledger = Ledger::new();
    assert_eq!(ledger.budget_limit_micros, DEFAULT_BUDGET_MICROS);
    assert_eq!(dollars(ledger.budget_limit_micros), 1.0);
    assert!(ledger.entries.is_empty());
}

#[test]
fn spent_is_sum_of_recorded_costs() {
    let mut ledger = Ledger::new();
    let mut sum: u128 = 0;
    for (op, units) in [("search", 10u64), ("like", 1), ("trends", 1), ("profile", 21), ("other", 2)] {
        sum += ledger.record(NOW, op, "/x", units).cost_micros as u128;
    }
    assert_eq!(sum, 50_000 + 10_000 + 100_000 + 105_000 + 10_000);
    assert_eq!(ledger.check_budget(Period::All, NOW).spent, sum);
}

#[test]
fn budget_windows_filter_by_time() {
    let mut ledger = Ledger::new();
    ledger.record(NOW - 40 * DAY, "trends", "/2/trends", 1);
    ledger.record(NOW - 10 * DAY, "like", "/2/like", 1);
    ledger.record(NOW - 3 * DAY, "search", "/2/search", 2);
    ledger.record(NOW, "search", "/2/search", 1);
    assert_eq!(ledger.check_budget(Period::All, NOW).spent, 100_000 + 10_000 + 10_000 + 5_000);
    assert_eq!(ledger.check_budget(Period::Month, NOW).spent, 10_000 + 10_000 + 5_000);
    assert_eq!(ledger.check_budget(Period::Week, NOW).spent, 10_000 + 5_000);
    assert_eq!(ledger.check_budget(Period::Today, NOW).spent, 5_000);
}

#[test]
fn window_edges() {
    assert!(Period::Week.contains(NOW, NOW - 7 * DAY));
    assert!(!Period::Week.contains(NOW, NOW - 7 * DAY - 1));
    assert!(Period::Month.contains(NOW, NOW - 30 * DAY));
    assert!(!Period::Month.contains(NOW, NOW - 30 * DAY - 1));
    let midnight = NOW / DAY * DAY;
    assert!(Period::Today.contains(NOW, midnight));
    assert!(!Period::Today.contains(NOW, midnight - 1));
    assert!(Period::All.contains(NOW, 0));
}

#[test]
fn budget_status_derived_values() {
    let under = BudgetStatus { limit: 1_000_000, spent: 250_000 };
    assert_eq!(under.remaining(), 750_000);
    assert!(!under.over_budget());
    let over = BudgetStatus { limit: 1_000_000, spent: 1_500_000 };
    assert_eq!(over.remaining(), -500_000);
    assert!(over.over_budget());
    let even = BudgetStatus { limit: 5, spent: 5 };
    assert_eq!(even.remaining(), 0);
    assert!(!even.over_budget());
    let huge = BudgetStatus { limit: 0, spent: u128::MAX };
    assert_eq!(huge.remaining(), i128::MIN);
}

#[test]
fn reset_keeps_budget() {
    let mut ledger = Ledger::new();
    ledger.set_budget(3_000_000).unwrap();
    ledger.record(NOW, "search", "/x", 5);
    ledger.reset();
    assert!(ledger.entries.is_empty());
    assert_eq!(ledger.budget_limit_micros, 3_000_000);
    assert_eq!(ledger.check_budget(Period::All, NOW).spent, 0);
}

#[test]
fn set_budget_zero_is_accepted() {
    let mut ledger = Ledger::new();
    assert_eq!(ledger.set_budget(0), Ok(()));
    assert_eq!(ledger.budget_limit_micros, 0);
}
