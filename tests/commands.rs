use xint::amount::parse_dollars;
use xint::cli::{CostsAction, CostsArgs};
use xint::window::Period;

fn args(words: &[&str]) -> CostsArgs {
    CostsArgs { subcommand: Some(words.iter().map(|w| w.to_string()).collect()) }
}

#[test]
fn costs_words_select_actions() {
    assert!(matches!(CostsArgs { subcommand: None }.action(), CostsAction::Summary(Period::Today)));
    assert!(matches!(args(&[]).action(), CostsAction::Summary(Period::Today)));
    assert!(matches!(args(&["week"]).action(), CostsAction::Summary(Period::Week)));
    assert!(matches!(args(&["all"]).action(), CostsAction::Summary(Period::All)));
    assert!(matches!(args(&["budget"]).action(), CostsAction::ShowBudget));
    assert!(matches!(args(&["budget", "show"]).action(), CostsAction::ShowBudget));
    assert!(matches!(args(&["budget", "set"]).action(), CostsAction::Invalid));
    match args(&["budget", "set", "5.0"]).action() {
        CostsAction::SetBudget(a) => assert_eq!(a, "5.0"),
        _ => panic!("expected a new limit"),
    }
    assert!(matches!(args(&["reset"]).action(), CostsAction::Reset));
    assert!(matches!(args(&["yesterday"]).action(), CostsAction::Invalid));
}

#[test]
fn dollar_amounts() {
    assert_eq!(parse_dollars("5"), Some(5_000_000));
    assert_eq!(parse_dollars("5.0"), Some(5_000_000));
    assert_eq!(parse_dollars("-1.0"), Some(-1_000_000));
    assert_eq!(parse_dollars("0.25"), Some(250_000));
    assert_eq!(parse_dollars("0.000001"), Some(1));
    assert_eq!(parse_dollars("12.345678"), Some(12_345_678));
    assert_eq!(parse_dollars("9223372036854.775807"), Some(i64::MAX));
}

#[test]
fn malformed_dollar_amounts() {
    for bad in ["", "-", ".", "1.", ".5", "1.2345678", "abc", "1.2.3", "1,5", "--1", "+1",
        "9223372036854.775808", "99999999999999"] {
        assert_eq!(parse_dollars(bad), None, "{bad}");
    }
}
