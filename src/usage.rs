use vstd::prelude::*;
use vstd::string::*;

verus! {

/// What one fetch command bills: the operation, the endpoint it called and
/// the number of units.
pub struct TrackedCall {
    pub operation: String,
    pub endpoint: String,
    pub units: u64,
}

/// `s` without its leading `@` characters.
pub open spec fn without_leading_at(s: Seq<char>) -> Seq<char>
    decreases s.len(),
{
    if s.len() > 0 && s[0] == '@' {
        without_leading_at(s.drop_first())
    } else {
        s
    }
}

proof fn lemma_without_leading_at(s: Seq<char>, i: int)
    requires
        0 <= i <= s.len(),
        forall|k: int| 0 <= k < i ==> s[k] == '@',
        i == s.len() || s[i] != '@',
    ensures
        without_leading_at(s) == s.subrange(i, s.len() as int),
    decreases i,
{
    if i == 0 {
        assert(s.subrange(0, s.len() as int) =~= s);
    } else {
        let t = s.drop_first();
        assert(t.subrange(i - 1, t.len() as int) =~= s.subrange(i, s.len() as int));
        lemma_without_leading_at(t, i - 1);
    }
}

/// A user name as typed, with any leading `@` removed.
pub fn bare_username(name: &str) -> (r: &str)
    ensures
        r@ == without_leading_at(name@),
{
    let n = name.unicode_len();
    let mut i: usize = 0;
    while i < n && name.get_char(i) == '@'
        invariant
            n == name@.len(),
            i <= n,
            forall|k: int| 0 <= k < i ==> name@[k] == '@',
        decreases n - i,
    {
        i = i + 1;
    }
    proof {
        lemma_without_leading_at(name@, i as int);
    }
    name.substring_char(i, n)
}

/// What fetching a profile and `tweets` of its tweets bills: one unit per
/// tweet and one for the user record, under the user's endpoint.
pub fn profile_call(username: &str, tweets: u64) -> (r: TrackedCall)
    requires
        tweets < u64::MAX,
    ensures
        r.operation@ == "profile"@,
        r.endpoint@ == "/2/users/by/username/"@ + without_leading_at(username@),
        r.units == tweets + 1,
{
    let mut endpoint = String::from_str("/2/users/by/username/");
    endpoint.append(bare_username(username));
    TrackedCall { operation: String::from_str("profile"), endpoint, units: tweets + 1 }
}

/// What fetching a thread of `tweets` tweets bills: one unit per tweet.
pub fn thread_call(tweets: u64) -> (r: TrackedCall)
    ensures
        r.operation@ == "thread"@,
        r.endpoint@ == "/2/tweets/search/recent"@,
        r.units == tweets,
{
    TrackedCall {
        operation: String::from_str("thread"),
        endpoint: String::from_str("/2/tweets/search/recent"),
        units: tweets,
    }
}

/// What fetching one tweet bills: one unit, found or not.
pub fn tweet_call() -> (r: TrackedCall)
    ensures
        r.operation@ == "tweet"@,
        r.endpoint@ == "/2/tweets"@,
        r.units == 1,
{
    TrackedCall {
        operation: String::from_str("tweet"),
        endpoint: String::from_str("/2/tweets"),
        units: 1,
    }
}

} // verus!
