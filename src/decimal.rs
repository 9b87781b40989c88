//! The text form of an amount: an optional sign, digits, and at most one
//! decimal point, as in `-12.5`, `3`, `.25` or `7.`.

use crate::amount::RawDecimal;
use vstd::prelude::*;

verus! {

/// Whether `c` is one of the digits `0` to `9`.
pub open spec fn is_digit(c: char) -> bool {
    '0' <= c && c <= '9'
}

/// Whether every character of `s` is a digit.
pub open spec fn all_digits(s: Seq<char>) -> bool {
    forall|i: int| 0 <= i < s.len() ==> is_digit(#[trigger] s[i])
}

/// The number that a string of digits writes in base ten (zero for none).
pub open spec fn digits_value(s: Seq<char>) -> nat
    decreases s.len(),
{
    if s.len() == 0 {
        0
    } else {
        digits_value(s.drop_last()) * 10 + ((s.last() as int - '0' as int) as nat)
    }
}

/// The length of the leading sign of `s`: one for `-` or `+`, else zero.
pub open spec fn sign_len(s: Seq<char>) -> int {
    if s.len() > 0 && (s[0] == '-' || s[0] == '+') {
        1
    } else {
        0
    }
}

/// Whether the unsigned part `b` is digits up to `p`, and after `p` either
/// nothing or a point followed by digits.
pub open spec fn splits_at(b: Seq<char>, p: int) -> bool {
    &&& 0 <= p <= b.len()
    &&& all_digits(b.subrange(0, p))
    &&& p == b.len() || (b[p] == '.' && all_digits(b.subrange(p + 1, b.len() as int)))
}

/// The digits of `b` split at `p`, with the point left out.
pub open spec fn digits_of(b: Seq<char>, p: int) -> Seq<char> {
    if p < b.len() {
        b.subrange(0, p) + b.subrange(p + 1, b.len() as int)
    } else {
        b.subrange(0, p)
    }
}

/// The number of digits after the point of `b` split at `p`.
pub open spec fn scale_of(b: Seq<char>, p: int) -> int {
    if p < b.len() {
        b.len() - p - 1
    } else {
        0
    }
}

/// The decimal that `s` writes: `None` where `s` is not of the form above,
/// holds no digit, or has more digits than a `u64` or more decimal places
/// than a `u32` holds.
pub open spec fn decimal_of(s: Seq<char>) -> Option<RawDecimal> {
    let b = s.subrange(sign_len(s), s.len() as int);
    if exists|p: int| splits_at(b, p) {
        let p = choose|p: int| splits_at(b, p);
        let d = digits_of(b, p);
        if d.len() == 0 || digits_value(d) > u64::MAX || scale_of(b, p) > u32::MAX {
            None
        } else {
            Some(
                RawDecimal {
                    negative: sign_len(s) == 1 && s[0] == '-',
                    magnitude: digits_value(d) as u64,
                    scale: scale_of(b, p) as u32,
                },
            )
        }
    } else {
        None
    }
}

proof fn lemma_digits_value_take(d: Seq<char>, k: int)
    requires
        0 <= k < d.len(),
    ensures
        digits_value(d.take(k + 1)) == digits_value(d.take(k)) * 10 + ((d[k] as int - '0' as int) as nat),
{
    assert(d.take(k + 1).drop_last() =~= d.take(k));
}

proof fn lemma_digits_value_prefix(d: Seq<char>, k: int)
    requires
        0 <= k <= d.len(),
    ensures
        digits_value(d) >= digits_value(d.take(k)),
    decreases d.len(),
{
    if k == d.len() {
        assert(d.take(k) =~= d);
    } else {
        lemma_digits_value_prefix(d.drop_last(), k);
        assert(d.drop_last().take(k) =~= d.take(k));
    }
}

proof fn lemma_split_unique(b: Seq<char>, q: int)
    requires
        0 <= q <= b.len(),
        all_digits(b.subrange(0, q)),
        q < b.len() ==> !is_digit(b[q]),
    ensures
        forall|x: int| splits_at(b, x) ==> x == q,
{
    assert forall|x: int| splits_at(b, x) implies x == q by {
        if x < q {
            assert(b.subrange(0, q)[x] == b[x]);
        } else if x > q {
            assert(b.subrange(0, x)[q] == b[q]);
        }
    }
}

/// The value of the digit at `i`, where it is a digit.
fn digit_at(text: &str, i: usize) -> (r: Option<u64>)
    requires
        i < text@.len(),
    ensures
        r is Some <==> is_digit(text@[i as int]),
        r is Some ==> r->0 == text@[i as int] as int - '0' as int,
{
    let c = text.get_char(i);
    if '0' <= c && c <= '9' {
        Some((c as u32 - '0' as u32) as u64)
    } else {
        None
    }
}

/// Reads the decimal that `text` writes; see `decimal_of`.
pub fn parse_decimal(text: &str) -> (r: Option<RawDecimal>)
    ensures
        r == decimal_of(text@),
{
    let ghost s = text@;
    let n = text.unicode_len();
    let mut start: usize = 0;
    let mut negative = false;
    if n > 0 {
        let c = text.get_char(0);
        if c == '-' {
            start = 1;
            negative = true;
        } else if c == '+' {
            start = 1;
        }
    }
    assert(start == sign_len(s));
    let ghost b = s.subrange(start as int, n as int);
    // The digits before the point.
    let mut p: usize = start;
    let mut in_digits = true;
    while p < n && in_digits
        invariant
            s == text@,
            n == s.len(),
            start <= p <= n,
            forall|j: int| start <= j < p ==> is_digit(#[trigger] s[j]),
            !in_digits ==> p < n && !is_digit(s[p as int]),
        decreases n - p + (if in_digits { 1int } else { 0int }),
    {
        match digit_at(text, p) {
            Some(_) => {
                p = p + 1;
            },
            None => {
                in_digits = false;
            },
        }
    }
    let ghost q = p - start;
    assert(b.len() == n - start);
    assert forall|x: int| 0 <= x < q implies is_digit(#[trigger] b[x]) by {
        assert(b[x] == s[start + x]);
    }
    assert(all_digits(b.subrange(0, q)));
    assert(p < n ==> b[q] == s[p as int]);
    assert(p < n ==> !is_digit(b[q]));
    // A point, then digits only.
    if p < n {
        if text.get_char(p) != '.' {
            proof {
                lemma_split_unique(b, q);
            }
            return None;
        }
        proof {
            lemma_split_unique(b, q);
        }
        let mut j: usize = p + 1;
        while j < n
            invariant
                s == text@,
                n == s.len(),
                start <= p < j <= n,
                b == s.subrange(start as int, n as int),
                q == p - start,
                s[p as int] == '.',
                all_digits(b.subrange(0, q)),
                start == sign_len(s),
                forall|x: int| splits_at(b, x) ==> x == q,
                forall|k: int| p < k < j ==> is_digit(#[trigger] s[k]),
            decreases n - j,
        {
            match digit_at(text, j) {
                Some(_) => {
                    j = j + 1;
                },
                None => {
                    proof {
                        assert(b[q] == s[p as int]);
                        lemma_split_unique(b, q);
                        assert(b.subrange(q + 1, b.len() as int)[j - start - q - 1] == s[j as int]);
                        assert(!splits_at(b, q));
                    }
                    return None;
                },
            }
        }
        assert forall|k: int| 0 <= k < b.subrange(q + 1, b.len() as int).len() implies is_digit(
            #[trigger] b.subrange(q + 1, b.len() as int)[k],
        ) by {
            assert(b.subrange(q + 1, b.len() as int)[k] == s[p + 1 + k]);
        }
    }
    assert(splits_at(b, q));
    proof {
        lemma_split_unique(b, q);
    }
    let ghost d = digits_of(b, q);
    // The magnitude, over the digits before and after the point.
    let mut magnitude: u64 = 0;
    let mut count: usize = 0;
    let mut k: usize = start;
    while k < n
        invariant
            s == text@,
            n == s.len(),
            start <= k <= n,
            start <= p <= n,
            b == s.subrange(start as int, n as int),
            q == p - start,
            d == digits_of(b, q),
            start == sign_len(s),
            splits_at(b, q),
            forall|x: int| splits_at(b, x) ==> x == q,
            d.len() == (if p < n { n - start - 1 } else { n - start }),
            k != p + 1 || p < k,
            count == (if k <= p { k - start } else { k - start - 1 }),
            count <= d.len(),
            magnitude == digits_value(d.take(count as int)),
            forall|i: int| 0 <= i < d.len() ==> is_digit(#[trigger] d[i]),
            forall|i: int|
                0 <= i < d.len() ==> #[trigger] d[i] == (if i < q {
                    s[start + i]
                } else {
                    s[start + i + 1]
                }),
        decreases n - k,
    {
        if k == p {
            k = k + 1;
            continue;
        }
        let digit = match digit_at(text, k) {
            Some(v) => v,
            None => {
                assert(d[count as int] == s[k as int]);
                return None;
            },
        };
        proof {
            assert(d[count as int] == s[k as int]);
            lemma_digits_value_take(d, count as int);
        }
        let next = match magnitude.checked_mul(10) {
            Some(m) => m.checked_add(digit),
            None => None,
        };
        match next {
            Some(m) => {
                magnitude = m;
            },
            None => {
                proof {
                    lemma_digits_value_prefix(d, count + 1);
                    assert(digits_value(d) > u64::MAX);
                }
                return None;
            },
        }
        count = count + 1;
        k = k + 1;
    }
    assert(d.take(count as int) =~= d);
    let ghost chosen = choose|x: int| splits_at(b, x);
    assert(chosen == q);
    if count == 0 {
        return None;
    }
    let scale: usize = if p < n {
        n - p - 1
    } else {
        0
    };
    if scale > u32::MAX as usize {
        return None;
    }
    Some(RawDecimal { negative, magnitude, scale: scale as u32 })
}

} // verus!
