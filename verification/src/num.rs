//! Decimal text of integers: the formatting of `Display` and the parsing of
//! `str::parse` for the integer types the library reads and writes.
use vstd::prelude::*;
use crate::text::{all_ascii_digits, push_char, to_chars};

verus! {

/// The ASCII digit of `d < 10`.
pub open spec fn digit_char(d: nat) -> char {
    ((d + 48) as u32) as char
}

/// The value of an ASCII digit.
pub open spec fn digit_value(c: char) -> nat {
    ((c as u32) - 48) as nat
}

/// The decimal digits of `n`, without leading zeros (`0` for zero).
pub open spec fn dec(n: nat) -> Seq<char>
    decreases n,
{
    if n < 10 {
        seq![digit_char(n)]
    } else {
        dec(n / 10).push(digit_char(n % 10))
    }
}

/// The decimal text of a signed integer, as `Display` writes it.
pub open spec fn dec_int(n: int) -> Seq<char> {
    if n < 0 { seq!['-'] + dec((-n) as nat) } else { dec(n as nat) }
}

/// The value of a string of decimal digits.
pub open spec fn digits_value(d: Seq<char>) -> nat
    decreases d.len(),
{
    if d.len() == 0 {
        0
    } else {
        digits_value(d.drop_last()) * 10 + digit_value(d.last())
    }
}

fn digit(d: u64) -> (c: char)
    requires
        d < 10,
    ensures
        c == digit_char(d as nat),
{
    let b: u8 = (d as u8) + 48;
    b as char
}

proof fn lemma_dec_len(n: nat)
    ensures
        dec(n).len() >= 1,
    decreases n,
{
    if n >= 10 {
        lemma_dec_len(n / 10);
    }
}

/// The decimal text of an unsigned integer.
pub fn u64_to_dec(n: u64) -> (r: String)
    ensures
        r@ == dec(n as nat),
{
    // Digits from the least significant one.
    let mut rev: Vec<char> = Vec::new();
    let mut m: u64 = n;
    while m >= 10
        invariant
            dec(n as nat) == dec(m as nat) + rev@.reverse(),
        decreases m,
    {
        let d = m % 10;
        rev.push(digit(d));
        proof {
            assert(dec(m as nat) == dec((m / 10) as nat).push(digit_char((m % 10) as nat)));
            let old_rev = rev@.drop_last();
            assert(rev@.reverse() =~= seq![digit_char(d as nat)] + old_rev.reverse()) by {
                let a = rev@.reverse();
                let b = seq![digit_char(d as nat)] + old_rev.reverse();
                assert(a.len() == b.len());
                assert forall|k: int| 0 <= k < a.len() implies a[k] == b[k] by {
                    if k > 0 {
                        assert(b[k] == old_rev.reverse()[k - 1]);
                    }
                }
            }
            assert(dec((m / 10) as nat) + rev@.reverse() =~= dec((m / 10) as nat).push(digit_char((m % 10) as nat)) + old_rev.reverse());
        }
        m = m / 10;
    }
    rev.push(digit(m));
    proof {
        let old_rev = rev@.drop_last();
        assert(rev@.reverse() =~= seq![digit_char(m as nat)] + old_rev.reverse()) by {
            let a = rev@.reverse();
            let b = seq![digit_char(m as nat)] + old_rev.reverse();
            assert(a.len() == b.len());
            assert forall|k: int| 0 <= k < a.len() implies a[k] == b[k] by {
                if k > 0 {
                    assert(b[k] == old_rev.reverse()[k - 1]);
                }
            }
        }
    }
    let mut r = String::new();
    let mut i: usize = rev.len();
    while i > 0
        invariant
            i <= rev.len(),
            r@ == rev@.subrange(i as int, rev@.len() as int).reverse(),
        decreases i,
    {
        i -= 1;
        push_char(&mut r, rev[i]);
        proof {
            let a = rev@.subrange(i as int, rev@.len() as int).reverse();
            let b = rev@.subrange(i + 1, rev@.len() as int).reverse().push(rev@[i as int]);
            assert(a.len() == b.len());
            assert forall|k: int| 0 <= k < a.len() implies a[k] == b[k] by {}
            assert(a =~= b);
        }
    }
    assert(rev@.subrange(0, rev@.len() as int) == rev@);
    proof {
        assert(dec(n as nat) == rev@.reverse());
    }
    r
}

/// The decimal text of a signed integer, as `Display` writes it.
pub fn i64_to_dec(n: i64) -> (r: String)
    ensures
        r@ == dec_int(n as int),
{
    if n < 0 {
        let m: u64 = (0i128 - (n as i128)) as u64;
        let digits = u64_to_dec(m);
        let mut r = String::new();
        push_char(&mut r, '-');
        crate::text::append(&mut r, digits.as_str());
        r
    } else {
        u64_to_dec(n as u64)
    }
}

/// The result of `str::parse::<i64>`: an optional `+` or `-`, then one or
/// more ASCII digits, whose value must fit in an `i64`.
pub open spec fn unsigned_part(t: Seq<char>) -> Seq<char> {
    if t.len() > 0 && (t[0] == '-' || t[0] == '+') { t.drop_first() } else { t }
}

/// The value that the text of `parse_i64` stands for.
pub open spec fn signed_value(t: Seq<char>) -> int {
    if t.len() > 0 && t[0] == '-' {
        -(digits_value(unsigned_part(t)) as int)
    } else {
        digits_value(unsigned_part(t)) as int
    }
}

/// The result of `str::parse::<i64>`.
pub open spec fn parse_i64(t: Seq<char>) -> Option<i64> {
    let ds = unsigned_part(t);
    let v = signed_value(t);
    if ds.len() == 0 || !all_ascii_digits(ds) {
        None
    } else if i64::MIN <= v <= i64::MAX {
        Some(v as i64)
    } else {
        None
    }
}

proof fn lemma_digits_grow(d: Seq<char>, i: int, j: int)
    requires
        0 <= i <= j <= d.len(),
        all_ascii_digits(d),
    ensures
        digits_value(d.take(i)) <= digits_value(d.take(j)),
    decreases j - i,
{
    if i < j {
        lemma_digits_grow(d, i, j - 1);
        assert(d.take(j).drop_last() == d.take(j - 1));
        assert('0' <= d[j - 1]);
    }
}

/// Parses a decimal `i64` as `str::parse::<i64>` does.
pub fn parse_i64_exec(s: &str) -> (r: Option<i64>)
    ensures
        r == parse_i64(s@),
{
    let t = to_chars(s);
    parse_i64_chars(&t)
}

/// Parses a decimal `i64` written as characters.
pub fn parse_i64_chars(t: &Vec<char>) -> (r: Option<i64>)
    ensures
        r == parse_i64(t@),
{
    let ghost s = t@;
    let n = t.len();
    let neg = n > 0 && t[0] == '-';
    let start: usize = if n > 0 && (t[0] == '-' || t[0] == '+') { 1 } else { 0 };
    let ghost ds = unsigned_part(t@);
    assert(ds == t@.subrange(start as int, n as int));
    if start == n {
        return None;
    }
    // 2^63, the largest magnitude that may still fit.
    let limit: u128 = 9223372036854775808;
    let mut acc: u128 = 0;
    let mut i: usize = start;
    while i < n
        invariant
            ds == t@.subrange(start as int, n as int),
            ds == unsigned_part(s),
            t@ == s,
            n == t.len(),
            start <= i <= n,
            acc <= limit,
            acc == digits_value(ds.take(i - start)),
            all_ascii_digits(ds.take(i - start)),
            limit == 9223372036854775808u128,
        decreases n - i,
    {
        let c = t[i];
        if !('0' <= c && c <= '9') {
            assert(!all_ascii_digits(ds)) by {
                assert(ds[i - start] == c);
            }
            assert(parse_i64(s) is None);
            return None;
        }
        let dv: u128 = ((c as u32) - 48) as u128;
        assert(ds.take(i - start + 1).drop_last() == ds.take(i - start));
        assert(ds.take(i - start + 1).last() == c);
        let next = acc * 10 + dv;
        if next > limit {
            // Every further digit keeps the value above the limit.
            let mut k: usize = i + 1;
            while k < n
                invariant
                    ds == t@.subrange(start as int, n as int),
                    ds == unsigned_part(s),
                    t@ == s,
                    n == t.len(),
                    next > limit,
                    limit == 9223372036854775808u128,
                    next == digits_value(ds.take(i - start + 1)),
                    start <= i < k <= n,
                    all_ascii_digits(ds.take(k - start)),
                decreases n - k,
            {
                if !('0' <= t[k] && t[k] <= '9') {
                    assert(!all_ascii_digits(ds)) by {
                        assert(ds[k - start] == t@[k as int]);
                    }
                    assert(parse_i64(s) is None);
                    return None;
                }
                assert forall|x: int| 0 <= x < k + 1 - start implies '0' <= #[trigger] ds.take(k + 1 - start)[x] && ds.take(k + 1 - start)[x] <= '9' by {
                    if x < k - start {
                        assert(ds.take(k + 1 - start)[x] == ds.take(k - start)[x]);
                    }
                }
                k += 1;
            }
            proof {
                assert(ds.take(ds.len() as int) == ds);
                assert(all_ascii_digits(ds));
                assert(digits_value(ds.take(i - start + 1)) == next);
                lemma_digits_grow(ds, i - start + 1, ds.len() as int);
                assert(digits_value(ds) > 9223372036854775808);
                assert(parse_i64(s) is None);
            }
            return None;
        }
        acc = next;
        assert forall|x: int| 0 <= x < i + 1 - start implies '0' <= #[trigger] ds.take(i + 1 - start)[x] && ds.take(i + 1 - start)[x] <= '9' by {
            if x < i - start {
                assert(ds.take(i + 1 - start)[x] == ds.take(i - start)[x]);
            }
        }
        i += 1;
    }
    assert(ds.take(ds.len() as int) == ds);
    if neg {
        let v: i128 = 0i128 - (acc as i128);
        Some(v as i64)
    } else if acc <= 9223372036854775807 {
        Some(acc as i64)
    } else {
        None
    }
}

} // verus!
