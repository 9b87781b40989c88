use crate::decimal::{decimal_of, parse_decimal};
use vstd::arithmetic::div_mod::lemma_fundamental_div_mod_converse;
use vstd::prelude::*;

verus! {

/// `10^n`.
pub open spec fn pow10(n: nat) -> nat
    decreases n,
{
    if n == 0 {
        1
    } else {
        10 * pow10((n - 1) as nat)
    }
}

proof fn lemma_pow10_add(a: nat, b: nat)
    ensures
        pow10(a + b) == pow10(a) * pow10(b),
        pow10(a) >= 1,
    decreases a,
{
    if a == 0 {
        assert(pow10(0) == 1);
        assert(a + b == b);
    } else {
        let a1 = (a - 1) as nat;
        let n: nat = a + b;
        let n1: nat = a1 + b;
        lemma_pow10_add(a1, b);
        assert(n1 == (n - 1) as nat);
        assert(pow10(n) == 10 * pow10(n1));
        assert(pow10(a) == 10 * pow10(a1));
        assert(10 * (pow10(a1) * pow10(b)) == (10 * pow10(a1)) * pow10(b)) by (nonlinear_arith);
    }
}

proof fn lemma_pow10_monotone(a: nat, b: nat)
    requires
        a <= b,
    ensures
        pow10(a) <= pow10(b),
{
    lemma_pow10_add(a, (b - a) as nat);
    lemma_pow10_add((b - a) as nat, 0);
    assert(pow10(a) * pow10((b - a) as nat) >= pow10(a)) by (nonlinear_arith)
        requires
            pow10((b - a) as nat) >= 1,
            pow10(a) >= 1,
    ;
}

/// `10^n` for the powers that a `u64` holds.
fn pow10_u64(n: u32) -> (r: u64)
    requires
        n <= 19,
    ensures
        r == pow10(n as nat),
{
    let mut r: u64 = 1;
    let mut i: u32 = 0;
    while i < n
        invariant
            i <= n <= 19,
            r == pow10(i as nat),
        decreases n - i,
    {
        proof {
            lemma_pow10_monotone((i + 1) as nat, 19);
            assert(pow10(19) == 10000000000000000000u64) by {
                reveal_with_fuel(pow10, 20);
            }
            assert(pow10((i + 1) as nat) == 10 * pow10(i as nat));
            assert(r * 10 <= 10000000000000000000u64);
        }
        r = r * 10;
        i = i + 1;
    }
    r
}

/// A decimal number as it was written: `magnitude / 10^scale`, negated
/// where `negative` is set.
#[derive(Clone, Copy, Debug, PartialEq, Eq, Structural)]
pub struct RawDecimal {
    pub negative: bool,
    pub magnitude: u64,
    pub scale: u32,
}

impl RawDecimal {
    /// The digits as a signed whole number, before the scale applies.
    pub open spec fn signed_magnitude(self) -> int {
        if self.negative {
            -(self.magnitude as int)
        } else {
            self.magnitude as int
        }
    }

    /// The value times `10^4`, rounded down (toward negative infinity).
    pub open spec fn clamped(self) -> int {
        (self.signed_magnitude() * 10000) / (pow10(self.scale as nat) as int)
    }
}

/// Brings a decimal to four places by rounding down: multiplies by `10^4`,
/// takes the floor, and holds the result as ten-thousandths. `None` where the
/// result leaves the range of an amount.
pub fn clamp(raw: RawDecimal) -> (r: Option<Amount>)
    ensures
        r is Some <==> in_range(raw.clamped()),
        r is Some ==> r->0.scaled == raw.clamped(),
{
    let m = raw.magnitude as i128;
    let ghost s = raw.signed_magnitude();
    let ghost x = s * 10000;
    let ghost p = pow10(raw.scale as nat) as int;
    let q: i128 = if raw.scale <= 4 {
        let f = pow10_u64(4 - raw.scale);
        proof {
            lemma_pow10_add(raw.scale as nat, (4 - raw.scale) as nat);
            lemma_pow10_monotone((4 - raw.scale) as nat, 4);
            assert(pow10(4) == 10000) by {
                reveal_with_fuel(pow10, 5);
            }
            assert(x == (s * f) * p + 0) by (nonlinear_arith)
                requires
                    x == s * 10000,
                    10000 == p * f,
            ;
            lemma_fundamental_div_mod_converse(x, p, s * f, 0);
            assert(0 <= m * f <= 18446744073709551615 * 10000) by (nonlinear_arith)
                requires
                    0 <= m <= 18446744073709551615,
                    0 <= f <= 10000,
            ;
        }
        let v = m * (f as i128);
        proof {
            assert(x / p == s * f);
            assert((if raw.negative { -(v as int) } else { v as int }) == s * f) by (nonlinear_arith)
                requires
                    v == m * f,
                    s == (if raw.negative { -(m as int) } else { m as int }),
            ;
        }
        if raw.negative {
            -v
        } else {
            v
        }
    } else {
        let e = raw.scale - 4;
        proof {
            lemma_pow10_add(4, e as nat);
            assert(pow10(4) == 10000) by {
                reveal_with_fuel(pow10, 5);
            }
            assert(p == 10000 * pow10(e as nat));
        }
        let ghost d = pow10(e as nat) as int;
        if e >= 20 {
            proof {
                lemma_pow10_monotone(20, e as nat);
                assert(pow10(20) == 100000000000000000000) by {
                    reveal_with_fuel(pow10, 21);
                }
                if raw.negative && raw.magnitude != 0 {
                    assert(x == -1 * p + (p - raw.magnitude * 10000)) by (nonlinear_arith)
                        requires
                            x == s * 10000,
                            s == -(raw.magnitude as int),
                    ;
                    lemma_fundamental_div_mod_converse(x, p, -1, p - raw.magnitude * 10000);
                } else {
                    assert(x == 0 * p + x);
                    lemma_fundamental_div_mod_converse(x, p, 0, x);
                }
            }
            if raw.negative && raw.magnitude != 0 {
                -1
            } else {
                0
            }
        } else {
            let div = pow10_u64(e);
            proof {
                lemma_pow10_add(e as nat, 0);
            }
            let quot = raw.magnitude / div;
            let rem = raw.magnitude % div;
            proof {
                assert(raw.magnitude == quot * d + rem) by (nonlinear_arith)
                    requires
                        d == div,
                        quot == raw.magnitude / div,
                        rem == raw.magnitude % div,
                        div > 0,
                ;
                if !raw.negative {
                    assert(x == quot * p + rem * 10000) by (nonlinear_arith)
                        requires
                            x == s * 10000,
                            s == raw.magnitude,
                            raw.magnitude == quot * d + rem,
                            p == 10000 * d,
                    ;
                    lemma_fundamental_div_mod_converse(x, p, quot as int, rem * 10000);
                } else if rem == 0 {
                    assert(x == (-quot) * p + 0) by (nonlinear_arith)
                        requires
                            x == s * 10000,
                            s == -(raw.magnitude as int),
                            raw.magnitude == quot * d + rem,
                            rem == 0,
                            p == 10000 * d,
                    ;
                    lemma_fundamental_div_mod_converse(x, p, -quot, 0);
                } else {
                    assert(x == (-(quot + 1)) * p + (d - rem) * 10000) by (nonlinear_arith)
                        requires
                            x == s * 10000,
                            s == -(raw.magnitude as int),
                            raw.magnitude == quot * d + rem,
                            p == 10000 * d,
                    ;
                    lemma_fundamental_div_mod_converse(x, p, -(quot + 1), (d - rem) * 10000);
                }
            }
            let qi = quot as i128;
            if raw.negative {
                if rem != 0 {
                    -(qi + 1)
                } else {
                    -qi
                }
            } else {
                qi
            }
        }
    };
    assert(q == raw.clamped());
    if (i64::MIN as i128) <= q && q <= (i64::MAX as i128) {
        Some(Amount { scaled: q as i64 })
    } else {
        None
    }
}

/// Clamping is idempotent: an amount clamped once, written back as a decimal
/// of four places and clamped again, is unchanged.
pub proof fn lemma_clamp_idempotent(raw: RawDecimal)
    requires
        in_range(raw.clamped()),
    ensures
        (Amount { scaled: raw.clamped() as i64 }).as_decimal().clamped() == raw.clamped(),
{
    let a = Amount { scaled: raw.clamped() as i64 };
    a.lemma_as_decimal();
}

/// A monetary value with four decimal places, held as a whole number of
/// ten-thousandths.
#[derive(Clone, Copy, Debug, PartialEq, Eq, Structural)]
pub struct Amount {
    pub scaled: i64,
}

/// Whether a whole number of ten-thousandths can be held by an `Amount`.
pub open spec fn in_range(v: int) -> bool {
    i64::MIN <= v <= i64::MAX
}

impl Amount {
    /// The amount written as a decimal of four places.
    pub open spec fn as_decimal(self) -> RawDecimal {
        RawDecimal {
            negative: self.scaled < 0,
            magnitude: (if self.scaled < 0 {
                -(self.scaled as int)
            } else {
                self.scaled as int
            }) as u64,
            scale: 4,
        }
    }

    /// Clamping an amount written as a decimal gives the amount back.
    pub proof fn lemma_as_decimal(self)
        ensures
            self.as_decimal().clamped() == self.scaled,
    {
        let d = self.as_decimal();
        assert(d.signed_magnitude() == self.scaled);
        assert(pow10(4) == 10000) by {
                reveal_with_fuel(pow10, 5);
            }
        lemma_fundamental_div_mod_converse(self.scaled * 10000, 10000, self.scaled as int, 0);
    }

    /// The amount written as a decimal of four places.
    pub fn to_decimal(self) -> (r: RawDecimal)
        ensures
            r == self.as_decimal(),
            r.clamped() == self.scaled,
    {
        proof {
            self.lemma_as_decimal();
        }
        let magnitude: u64 = if self.scaled < 0 {
            (-(self.scaled as i128)) as u64
        } else {
            self.scaled as u64
        };
        RawDecimal { negative: self.scaled < 0, magnitude, scale: 4 }
    }

    /// The amount that `text` writes, rounded down to four places; `None`
    /// where `text` is no decimal or the amount leaves the range.
    pub open spec fn of_text(text: Seq<char>) -> Option<Amount> {
        match decimal_of(text) {
            Some(raw) => if in_range(raw.clamped()) {
                Some(Amount { scaled: raw.clamped() as i64 })
            } else {
                None
            },
            None => None,
        }
    }

    /// Reads an amount from its decimal text and rounds it down to four
    /// places, as in `0.55555` to `0.5555` and `-0.00001` to `-0.0001`.
    pub fn parse(text: &str) -> (r: Option<Amount>)
        ensures
            r == Amount::of_text(text@),
    {
        match parse_decimal(text) {
            Some(raw) => clamp(raw),
            None => None,
        }
    }

    /// The amount of zero.
    pub fn zero() -> (r: Amount)
        ensures
            r.scaled == 0,
    {
        Amount { scaled: 0 }
    }

    /// The amount of `scaled` ten-thousandths.
    pub fn from_scaled(scaled: i64) -> (r: Amount)
        ensures
            r.scaled == scaled,
    {
        Amount { scaled }
    }

    /// The sum of two amounts, or `None` where it leaves the range.
    pub fn checked_add(self, other: Amount) -> (r: Option<Amount>)
        ensures
            r is Some <==> in_range(self.scaled + other.scaled),
            r is Some ==> r->0.scaled == self.scaled + other.scaled,
    {
        match self.scaled.checked_add(other.scaled) {
            Some(s) => Some(Amount { scaled: s }),
            None => None,
        }
    }

    /// The difference of two amounts, or `None` where it leaves the range.
    pub fn checked_sub(self, other: Amount) -> (r: Option<Amount>)
        ensures
            r is Some <==> in_range(self.scaled - other.scaled),
            r is Some ==> r->0.scaled == self.scaled - other.scaled,
    {
        match self.scaled.checked_sub(other.scaled) {
            Some(s) => Some(Amount { scaled: s }),
            None => None,
        }
    }

    /// Whether `self` is strictly below `other`.
    pub fn less_than(self, other: Amount) -> (r: bool)
        ensures
            r == (self.scaled < other.scaled),
    {
        self.scaled < other.scaled
    }
}

} // verus!
