use xint::usage::{bare_username, profile_call, thread_call, tweet_call};

#[test]
fn profile_call_strips_at_and_counts_user() {
    let c = profile_call("@@jack", 20);
    assert_eq!(c.operation, "profile");
    assert_eq!(c.endpoint, "/2/users/by/username/jack");
    assert_eq!(c.units, 21);
}

#[test]
fn bare_username_cases() {
    assert_eq!(bare_username("jack"), "jack");
    assert_eq!(bare_username("@"), "");
    assert_eq!(bare_username("a@b"), "a@b");
    assert_eq!(bare_username(""), "");
}

#[test]
fn thread_and_tweet_calls() {
    let t = thread_call(0);
    assert_eq!(t.operation, "thread");
    assert_eq!(t.endpoint, "/2/tweets/search/recent");
    assert_eq!(t.units, 0);
    let w = tweet_call();
    assert_eq!(w.operation, "tweet");
    assert_eq!(w.endpoint, "/2/tweets");
    assert_eq!(w.units, 1);
}
