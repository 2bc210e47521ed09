use xint::ledger::Ledger;
use xint::window::Period;

const NOW: u64 = 1_700_000_000;
const DAY: u64 = 86_400;

#[test]
fn test_get_cost_summary_today() {
    let mut ledger = Ledger::new();
    let _ = ledger.record(NOW, "search", "/test", 10);
    let summary = ledger.cost_summary("today", NOW).unwrap();
    assert!(summary.contains("API Costs"));
    assert!(summary.contains("Today"));
}

#[test]
fn test_get_cost_summary_week() {
    let ledger = Ledger::new();
    let summary = ledger.cost_summary("week", NOW).unwrap();
    assert!(summary.contains("API Costs"));
}

#[test]
fn test_get_cost_summary_month() {
    let ledger = Ledger::new();
    let summary = ledger.cost_summary("month", NOW).unwrap();
    assert!(summary.contains("API Costs"));
}

#[test]
fn test_get_cost_summary_all() {
    let ledger = Ledger::new();
    let summary = ledger.cost_summary("all", NOW).unwrap();
    assert!(summary.contains("API Costs"));
    assert!(summary.contains("All Time"));
}

#[test]
fn unknown_period_name_gives_no_summary() {
    let ledger = Ledger::new();
    assert!(ledger.cost_summary("year", NOW).is_none());
    assert!(ledger.cost_summary("Today", NOW).is_none());
}

#[test]
fn period_names_and_labels() {
    assert_eq!(Period::parse("today"), Some(Period::Today));
    assert_eq!(Period::parse("week"), Some(Period::Week));
    assert_eq!(Period::parse("month"), Some(Period::Month));
    assert_eq!(Period::parse("all"), Some(Period::All));
    assert_eq!(Period::parse(""), None);
    assert_eq!(Period::Week.label(), "This Week");
    assert_eq!(Period::Month.label(), "This Month");
}

#[test]
fn full_report_text() {
    let mut ledger = Ledger::new();
    ledger.record(NOW, "search", "/2/tweets/search/recent", 10);
    ledger.record(NOW, "like", "/2/users/1/likes", 1);
    ledger.record(NOW, "search", "/2/tweets/search/recent", 3);
    ledger.record(NOW - 2 * DAY, "trends", "/2/trends", 1);
    let text = ledger.cost_summary("all", NOW).unwrap();
    assert_eq!(
        text,
        "API Costs: All Time\n\
         Total: $0.175000 (4 calls)\n\
         Budget: $1.000000\n  \
         search: 2 calls, $0.065000\n  \
         like: 1 calls, $0.010000\n  \
         trends: 1 calls, $0.100000\n"
    );
    let today = ledger.cost_summary("today", NOW).unwrap();
    assert_eq!(
        today,
        "API Costs: Today\n\
         Total: $0.075000 (3 calls)\n\
         Budget: $1.000000\n  \
         search: 2 calls, $0.065000\n  \
         like: 1 calls, $0.010000\n"
    );
}

#[test]
fn summary_breakdown_groups_by_operation() {
    let mut ledger = Ledger::new();
    ledger.record(NOW, "like", "/a", 1);
    ledger.record(NOW, "like", "/b", 1);
    ledger.record(NOW, "tweet", "/2/tweets", 1);
    let s = ledger.summarize(Period::All, NOW);
    assert_eq!(s.calls, 3);
    assert_eq!(s.total_micros, 25_000);
    assert_eq!(s.by_operation.len(), 2);
    assert_eq!(s.by_operation[0].operation, "like");
    assert_eq!(s.by_operation[0].calls, 2);
    assert_eq!(s.by_operation[0].cost_micros, 20_000);
    assert_eq!(s.by_operation[1].operation, "tweet");
    assert_eq!(s.by_operation[1].cost_micros, 5_000);
}

#[test]
fn all_time_total_covers_recorded_entry() {
    let mut ledger = Ledger::new();
    let e = ledger.record(NOW, "search", "/test", 10);
    let s = ledger.summarize(Period::All, NOW);
    assert!(s.total_micros >= e.cost_micros as u128);
    let text = s.render();
    assert!(text.contains("All Time"));
    assert!(text.contains("$0.050000"));
}

#[test]
fn large_amounts_render_whole_dollars() {
    let mut ledger = Ledger::new();
    ledger.set_budget(12_345_678_901).unwrap();
    let text = ledger.cost_summary("week", NOW).unwrap();
    assert!(text.contains("Budget: $12345.678901\n"));
    assert!(text.contains("Total: $0.000000 (0 calls)\n"));
}
