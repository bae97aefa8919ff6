//! The relevance factor of a boost, as an exact decimal number.
use vstd::prelude::*;
use vstd::arithmetic::div_mod::{lemma_basic_div_specific_divisor, lemma_small_mod};
use crate::text::{decimal_text, padded_text, push_decimal, push_padded};

verus! {

/// The tolerance around `1` within which a boost factor counts as `1`, as
/// the reciprocal `1 / EPSILON_DENOMINATOR`: the machine epsilon of
/// single-precision floating point.
pub const EPSILON_DENOMINATOR: u64 = 8388608;

/// `10` to the power `k`.
pub open spec fn pow10(k: nat) -> nat
    decreases k,
{
    if k == 0 {
        1
    } else {
        10 * pow10((k - 1) as nat)
    }
}

/// The digits after the decimal point of `frac / 10^width`, trailing zeros
/// removed.
pub open spec fn fraction_text(frac: nat, width: nat) -> Seq<char>
    decreases width,
{
    if width > 0 && frac % 10 == 0 {
        fraction_text(frac / 10, (width - 1) as nat)
    } else {
        padded_text(frac, width)
    }
}

/// A decimal number `mantissa / 10^scale`. Two scores of equal value may
/// differ in their fields (`25 / 10` and `250 / 100`).
#[derive(Clone, Copy, Debug, PartialEq, Eq, Structural)]
pub struct Score {
    /// The digits of the number, with its sign.
    pub mantissa: i64,
    /// How many of the mantissa's digits stand after the decimal point.
    pub scale: u8,
}

impl Score {
    /// The absolute value of the mantissa.
    pub open spec fn magnitude(self) -> nat {
        if self.mantissa < 0 {
            (-self.mantissa) as nat
        } else {
            self.mantissa as nat
        }
    }

    /// `|self - 1| < 1 / EPSILON_DENOMINATOR`, over the rationals.
    pub open spec fn is_near_one(self) -> bool {
        let p = pow10(self.scale as nat) as int;
        let d = self.mantissa - p;
        let ad = if d < 0 { -d } else { d };
        ad * EPSILON_DENOMINATOR < p
    }

    /// The shortest decimal text of the value: a minus sign for a negative
    /// value, the integer part, and the fractional digits after a point
    /// unless they are all zero.
    pub open spec fn text(self) -> Seq<char> {
        let n = self.magnitude();
        let p = pow10(self.scale as nat);
        let sign = if self.mantissa < 0 { "-"@ } else { Seq::empty() };
        let frac = if n % p == 0 {
            Seq::empty()
        } else {
            "."@ + fraction_text(n % p, self.scale as nat)
        };
        sign + decimal_text(n / p) + frac
    }

    /// Whether the value lies within the tolerance of `1`.
    pub fn near_one(&self) -> (r: bool)
        ensures
            r == self.is_near_one(),
    {
        if self.scale > 18 {
            proof {
                lemma_pow10_monotone(19, self.scale as nat);
                reveal_with_fuel(pow10, 20);
            }
            return false;
        }
        let p = pow10_exec(self.scale);
        let d: i128 = self.mantissa as i128 - p as i128;
        let ad: i128 = if d < 0 { -d } else { d };
        ad * (EPSILON_DENOMINATOR as i128) < p as i128
    }

    /// Appends the decimal text of the value.
    pub fn push_text(&self, s: &mut String)
        ensures
            final(s)@ == old(s)@ + self.text(),
    {
        let n: u64 = if self.mantissa < 0 {
            (-(self.mantissa + 1)) as u64 + 1
        } else {
            self.mantissa as u64
        };
        assert(n == self.magnitude());
        if self.mantissa < 0 {
            s.append("-");
        }
        let ghost p = pow10(self.scale as nat);
        let whole: u64;
        let mut frac: u64;
        if self.scale <= 19 {
            let pe = pow10_exec(self.scale);
            whole = n / pe;
            frac = n % pe;
        } else {
            proof {
                lemma_pow10_monotone(20, self.scale as nat);
                reveal_with_fuel(pow10, 21);
                lemma_basic_div_specific_divisor(p as int);
                lemma_small_mod(n as nat, p);
            }
            whole = 0;
            frac = n;
        }
        assert(whole == (n as nat) / p && frac == (n as nat) % p);
        push_decimal(s, whole);
        if frac != 0 {
            s.append(".");
            let mut width: u32 = self.scale as u32;
            while width > 0 && frac % 10 == 0
                invariant
                    fraction_text(frac as nat, width as nat) == fraction_text(
                        (n as nat) % p,
                        self.scale as nat,
                    ),
                decreases width,
            {
                frac = frac / 10;
                width = width - 1;
            }
            push_padded(s, frac, width);
        }
        assert(s@ =~= old(s)@ + self.text());
    }
}

/// `10^k` for `k <= 19`.
fn pow10_exec(k: u8) -> (r: u64)
    requires
        k <= 19,
    ensures
        r == pow10(k as nat),
        r > 0,
{
    let mut r: u64 = 1;
    let mut i: u8 = 0;
    while i < k
        invariant
            i <= k <= 19,
            r == pow10(i as nat),
        decreases k - i,
    {
        proof {
            lemma_pow10_bound(i as nat);
        }
        r = r * 10;
        i = i + 1;
    }
    proof {
        lemma_pow10_bound(k as nat);
    }
    r
}

proof fn lemma_pow10_bound(k: nat)
    requires
        k <= 19,
    ensures
        0 < pow10(k) <= 10_000_000_000_000_000_000,
        k < 19 ==> pow10(k) <= 1_000_000_000_000_000_000,
{
    reveal_with_fuel(pow10, 20);
    lemma_pow10_monotone(k, 19);
    if k < 19 {
        lemma_pow10_monotone(k, 18);
    }
}

proof fn lemma_pow10_monotone(k: nat, j: nat)
    requires
        k <= j,
    ensures
        0 < pow10(k) <= pow10(j),
    decreases j,
{
    if j > k {
        lemma_pow10_monotone(k, (j - 1) as nat);
    } else if k > 0 {
        lemma_pow10_monotone((k - 1) as nat, (k - 1) as nat);
    }
}

} // verus!
