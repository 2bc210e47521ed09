use vstd::prelude::*;
use vstd::string::*;

verus! {

/// Whole dollars above which an amount no longer fits in `i64` micro-dollars.
pub const MAX_WHOLE_DOLLARS: u128 = 9223372036854;

pub open spec fn is_digit(c: char) -> bool {
    '0' <= c && c <= '9'
}

pub open spec fn all_digits(s: Seq<char>) -> bool {
    forall|i: int| 0 <= i < s.len() ==> is_digit(#[trigger] s[i])
}

/// The number that a string of decimal digits denotes.
pub open spec fn digits_value(s: Seq<char>) -> nat
    decreases s.len(),
{
    if s.len() == 0 {
        0
    } else {
        digits_value(s.drop_last()) * 10 + (s.last() as nat - '0' as nat) as nat
    }
}

pub open spec fn pow10(k: nat) -> nat
    decreases k,
{
    if k == 0 {
        1
    } else {
        10 * pow10((k - 1) as nat)
    }
}

/// `b` is whole dollars, a point at `d`, and one to six digits of cents and
/// below.
pub open spec fn is_split(b: Seq<char>, d: int) -> bool {
    &&& 0 < d && d + 1 < b.len()
    &&& b[d] == '.'
    &&& all_digits(b.take(d))
    &&& all_digits(b.skip(d + 1))
    &&& b.len() - d - 1 <= 6
}

/// The micro-dollars that an unsigned amount such as `12`, `0.5` or `3.250000`
/// denotes; `None` where the text is not such an amount.
pub open spec fn unsigned_micros(b: Seq<char>) -> Option<nat> {
    if b.len() > 0 && all_digits(b) {
        Some(digits_value(b) * 1000000)
    } else if exists|d: int| is_split(b, d) {
        let d = choose|d: int| is_split(b, d);
        let frac = b.skip(d + 1);
        Some(digits_value(b.take(d)) * 1000000 + digits_value(frac) * pow10((6 - frac.len()) as nat))
    } else {
        None
    }
}

/// The micro-dollars that a dollar amount such as `5`, `-1.0` or `0.25`
/// denotes, with an optional leading minus; `None` where the text is no such
/// amount or the value does not fit in an `i64`.
pub open spec fn dollar_micros(s: Seq<char>) -> Option<int> {
    let neg = s.len() > 0 && s[0] == '-';
    let b = if neg { s.drop_first() } else { s };
    match unsigned_micros(b) {
        None => None,
        Some(v) => if v > i64::MAX {
            None
        } else if neg {
            Some(-v)
        } else {
            Some(v as int)
        },
    }
}

proof fn lemma_digits_value_grows(s: Seq<char>)
    requires
        s.len() > 0,
        is_digit(s.last()),
    ensures
        digits_value(s) >= digits_value(s.drop_last()),
{
}

/// Reads the decimal digits of `s` from `from` to `to`: their value, or `None`
/// when one is not a digit or the value exceeds `cap`.
fn read_digits(s: &str, from: usize, to: usize, cap: u128) -> (r: Option<u128>)
    requires
        from <= to <= s@.len(),
        cap <= u64::MAX,
    ensures
        r matches Some(v) ==> all_digits(s@.subrange(from as int, to as int)) && v == digits_value(
            s@.subrange(from as int, to as int),
        ) && v <= cap,
        r is None ==> !all_digits(s@.subrange(from as int, to as int)) || digits_value(
            s@.subrange(from as int, to as int),
        ) > cap,
{
    let ghost t = s@.subrange(from as int, to as int);
    let mut acc: u128 = 0;
    let mut over = false;
    let mut i: usize = from;
    while i < to
        invariant
            from <= i <= to <= s@.len(),
            t == s@.subrange(from as int, to as int),
            cap <= u64::MAX,
            all_digits(s@.subrange(from as int, i as int)),
            !over ==> acc == digits_value(s@.subrange(from as int, i as int)) && acc <= cap,
            over ==> digits_value(s@.subrange(from as int, i as int)) > cap,
        decreases to - i,
    {
        let c = s.get_char(i);
        let ghost p = s@.subrange(from as int, i as int);
        let ghost q = s@.subrange(from as int, i + 1);
        assert(q.drop_last() =~= p);
        if c < '0' || c > '9' {
            assert(t[i - from] == c);
            assert(!is_digit(t[i - from]));
            return None;
        }
        assert(all_digits(q)) by {
            assert forall|k: int| 0 <= k < q.len() implies is_digit(#[trigger] q[k]) by {
                if k < p.len() {
                    assert(q[k] == p[k]);
                }
            }
        }
        proof {
            lemma_digits_value_grows(q);
        }
        if !over {
            let next = acc * 10 + (c as u32 - '0' as u32) as u128;
            if next > cap {
                over = true;
            } else {
                acc = next;
            }
        }
        i = i + 1;
    }
    if over {
        None
    } else {
        Some(acc)
    }
}

/// A split point is the first character that is not a digit.
proof fn lemma_split_is_first_non_digit(b: Seq<char>, p: int, d: int)
    requires
        0 <= p < b.len(),
        all_digits(b.take(p)),
        !is_digit(b[p]),
        is_split(b, d),
    ensures
        d == p,
{
    if d < p {
        assert(b.take(p)[d] == b[d]);
    } else if d > p {
        assert(b.take(d)[p] == b[p]);
    }
}

fn pow10_exec(k: usize) -> (r: u128)
    requires
        k <= 6,
    ensures
        r == pow10(k as nat),
        r <= 1000000,
{
    let mut r: u128 = 1;
    let mut i: usize = 0;
    while i < k
        invariant
            i <= k <= 6,
            r == pow10(i as nat),
            i == 0 ==> r == 1,
            i == 1 ==> r == 10,
            i == 2 ==> r == 100,
            i == 3 ==> r == 1000,
            i == 4 ==> r == 10000,
            i == 5 ==> r == 100000,
            i == 6 ==> r == 1000000,
        decreases k - i,
    {
        r = r * 10;
        i = i + 1;
    }
    r
}

/// Reads a dollar amount such as `5`, `-1.0` or `0.25` as micro-dollars:
/// digits, and at most six after a point, with an optional leading minus.
pub fn parse_dollars(text: &str) -> (r: Option<i64>)
    ensures
        dollar_micros(text@) is None ==> r is None,
        dollar_micros(text@) is Some ==> r == Some(dollar_micros(text@)->0 as i64),
{
    let n = text.unicode_len();
    let neg = n > 0 && text.get_char(0) == '-';
    let start: usize = if neg { 1 } else { 0 };
    let ghost b = text@.subrange(start as int, n as int);
    assert(neg ==> b =~= text@.drop_first());
    assert(!neg ==> b =~= text@);
    let mut d: usize = start;
    while d < n && '0' <= text.get_char(d) && text.get_char(d) <= '9'
        invariant
            start <= d <= n,
            n == text@.len(),
            b == text@.subrange(start as int, n as int),
            all_digits(text@.subrange(start as int, d as int)),
        decreases n - d,
    {
        proof {
            let p = text@.subrange(start as int, d as int);
            let q = text@.subrange(start as int, d + 1);
            assert forall|k: int| 0 <= k < q.len() implies is_digit(#[trigger] q[k]) by {
                if k < p.len() {
                    assert(q[k] == p[k]);
                }
            }
        }
        d = d + 1;
    }
    let ghost p = (d - start) as int;
    assert(b.take(p) =~= text@.subrange(start as int, d as int));
    let micros: u128;
    if d == n {
        assert(b =~= b.take(p));
        if n == start {
            return None;
        }
        match read_digits(text, start, n, MAX_WHOLE_DOLLARS) {
            Some(w) => {
                micros = w * 1000000;
            },
            None => {
                return None;
            },
        }
        proof {
            assert(unsigned_micros(b) == Some(micros as nat));
        }
    } else {
        let c = text.get_char(d);
        assert(b[p] == c);
        assert(!is_digit(b[p]));
        if c != '.' || d == start || n - d - 1 < 1 || n - d - 1 > 6 {
            proof {
                if exists|e: int| is_split(b, e) {
                    let e = choose|e: int| is_split(b, e);
                    lemma_split_is_first_non_digit(b, p, e);
                }
            }
            return None;
        }
        let flen = n - d - 1;
        assert(b.skip(p + 1) =~= text@.subrange(d + 1, n as int));
        let frac = match read_digits(text, d + 1, n, 999999) {
            Some(f) => f,
            None => {
                proof {
                    if all_digits(b.skip(p + 1)) {
                        lemma_frac_bound(b.skip(p + 1));
                    }
                    if exists|e: int| is_split(b, e) {
                        let e = choose|e: int| is_split(b, e);
                        lemma_split_is_first_non_digit(b, p, e);
                    }
                }
                return None;
            },
        };
        let whole = match read_digits(text, start, d, MAX_WHOLE_DOLLARS) {
            Some(w) => w,
            None => {
                proof {
                    assert(is_split(b, p));
                    let e = choose|e: int| is_split(b, e);
                    lemma_split_is_first_non_digit(b, p, e);
                }
                return None;
            },
        };
        let scale = pow10_exec(6 - flen);
        assert(frac * scale <= 999999 * 1000000) by (nonlinear_arith)
            requires
                frac <= 999999,
                scale <= 1000000,
        ;
        micros = whole * 1000000 + frac * scale;
        proof {
            assert(is_split(b, p));
            let e = choose|e: int| is_split(b, e);
            lemma_split_is_first_non_digit(b, p, e);
            assert(unsigned_micros(b) == Some(micros as nat));
        }
    }
    if micros > i64::MAX as u128 {
        None
    } else if neg {
        Some(-(micros as i64))
    } else {
        Some(micros as i64)
    }
}

/// Six digits or fewer denote at most 999999.
proof fn lemma_frac_bound(f: Seq<char>)
    requires
        f.len() <= 6,
        all_digits(f),
    ensures
        digits_value(f) <= 999999,
{
    assert(digits_value(f) < pow10(f.len())) by {
        lemma_digits_below_pow10(f);
    }
    lemma_pow10_monotone(f.len(), 6);
    reveal_with_fuel(pow10, 7);
}

proof fn lemma_digits_below_pow10(f: Seq<char>)
    requires
        all_digits(f),
    ensures
        digits_value(f) < pow10(f.len()),
    decreases f.len(),
{
    if f.len() > 0 {
        let g = f.drop_last();
        assert(all_digits(g)) by {
            assert forall|k: int| 0 <= k < g.len() implies is_digit(#[trigger] g[k]) by {
                assert(g[k] == f[k]);
            }
        }
        lemma_digits_below_pow10(g);
        assert(is_digit(f[f.len() - 1]));
    }
}

proof fn lemma_pow10_monotone(a: nat, b: nat)
    requires
        a <= b,
    ensures
        pow10(a) <= pow10(b),
    decreases b,
{
    if a < b {
        lemma_pow10_monotone(a, (b - 1) as nat);
    }
}

} // verus!
