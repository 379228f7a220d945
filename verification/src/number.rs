//! Jsonnet numbers.
//!
//! A jsonnet number is a finite binary floating-point value. The library
//! holds it exactly, as a sign, an integer mantissa and a power-of-two
//! exponent, so that every question the conversions ask of a number
//! (is it integral, does it lie between two integer bounds, what is its
//! integer part) is answered on integers.
use vstd::prelude::*;
use vstd::arithmetic::power2::*;
use vstd::arithmetic::div_mod::*;

verus! {

/// A finite binary number: `(-1)^negative * mantissa * 2^exponent`.
///
/// Every finite `f64` has such a form (with a mantissa below `2^53` and an
/// exponent between `-1074` and `971`).
///
/// A value has many forms, and `==` compares the forms, not the values:
/// `2 * 2^0` and `1 * 2^1` are unequal under `==`, and so are `+0` and `-0`.
/// The conversions never compare numbers with `==`; they ask the questions
/// above (`is_integer`, `at_least`, `at_most`, `to_i128`), which depend on
/// the value alone.
#[derive(Clone, Copy, Debug, PartialEq, Eq, Structural)]
pub struct Number {
    pub negative: bool,
    pub mantissa: u64,
    pub exponent: i32,
}

/// The number with the integer value `v` (for `|v| < 2^64`).
pub open spec fn int_number(v: int) -> Number {
    Number { negative: v < 0, mantissa: (if v < 0 { -v } else { v }) as u64, exponent: 0 }
}

/// The number of low bits that a double drops from the magnitude `m`: the
/// least `s` with `m / 2^s < 2^53`.
pub open spec fn dropped_bits(m: nat) -> nat
    decreases m,
{
    if m < 0x20_0000_0000_0000 {
        0
    } else {
        1 + dropped_bits(m / 2)
    }
}

/// `m / 2^s` rounded to the nearest integer, a tie to the even one.
pub open spec fn round_half_even(m: nat, s: nat) -> nat {
    let q = m / pow2(s);
    let r = m % pow2(s);
    if s == 0 {
        q
    } else if r > pow2((s - 1) as nat) || (r == pow2((s - 1) as nat) && q % 2 == 1) {
        q + 1
    } else {
        q
    }
}

/// The double nearest to the integer `v`, a tie going to the even
/// mantissa: the number that `v as f64` gives.
pub open spec fn double_number(v: int) -> Number {
    let m: nat = (if v < 0 { -v } else { v }) as nat;
    let s = dropped_bits(m);
    Number { negative: v < 0, mantissa: round_half_even(m, s) as u64, exponent: s as i32 }
}

proof fn lemma_pow2_53()
    ensures
        pow2(53) == 0x20_0000_0000_0000,
{
    lemma2_to64();
    lemma_pow2_adds(21, 32);
}

/// A magnitude below `2^(53 + k)` loses at most `k` bits, and what is
/// left of it is below `2^53`.
pub proof fn lemma_dropped_bits(m: nat, k: nat)
    requires
        m < pow2(53 + k),
    ensures
        dropped_bits(m) <= k,
        m / pow2(dropped_bits(m)) < 0x20_0000_0000_0000,
    decreases m,
{
    lemma2_to64();
    if m < 0x20_0000_0000_0000 {
        assert(m / 1 == m) by (nonlinear_arith);
    } else {
        if k == 0 {
            lemma_pow2_53();
            assert(false);
        }
        let kk = (k - 1) as nat;
        lemma_pow2_unfold(53 + k);
        assert(m / 2 < pow2(53 + kk));
        lemma_dropped_bits(m / 2, kk);
        let s = dropped_bits(m / 2);
        lemma_pow2_pos(s);
        lemma_div_denominator(m as int, 2, pow2(s) as int);
        lemma_pow2_unfold(s + 1);
        assert(2 * pow2(s) == pow2(s + 1));
    }
}

/// The double of an integer below `2^64` in magnitude is an integer with
/// at most 53 bits of mantissa and 11 bits of exponent.
pub proof fn lemma_double_bounds(v: int)
    requires
        -0x1_0000_0000_0000_0000 < v < 0x1_0000_0000_0000_0000,
    ensures
        0 <= double_number(v).exponent <= 11,
        double_number(v).mantissa <= 0x20_0000_0000_0000,
        double_number(v).is_integral(),
        -0x1_0000_0000_0000_0000 <= double_number(v).trunc() <= 0x1_0000_0000_0000_0000,
{
    let m: nat = (if v < 0 { -v } else { v }) as nat;
    lemma2_to64();
    lemma_pow2_adds(53, 11);
    assert(pow2(64) == 0x1_0000_0000_0000_0000);
    lemma_dropped_bits(m, 11);
    let s = dropped_bits(m);
    let d = double_number(v);
    lemma_pow2_pos(s);
    assert(round_half_even(m, s) <= 0x20_0000_0000_0000);
    d.lemma_integral_form();
    if s < 11 {
        lemma_pow2_strictly_increases(s, 11);
    }
    assert(pow2(11) == 0x800);
    let n = d.magnitude();
    assert(n <= 0x20_0000_0000_0000 * 0x800) by (nonlinear_arith)
        requires
            n == d.mantissa * pow2(s),
            d.mantissa <= 0x20_0000_0000_0000,
            pow2(s) <= 0x800,
            d.mantissa >= 0,
            pow2(s) > 0,
    ;
}

/// The double of an integer below `2^64` in magnitude is an integer of the
/// same sign, with a mantissa of at most 53 bits, that lies within half a
/// unit of its last place (`2^exponent`) of the integer.
pub proof fn law_double_nearest(v: int)
    requires
        -0x1_0000_0000_0000_0000 < v < 0x1_0000_0000_0000_0000,
    ensures
        double_number(v).is_integral(),
        double_number(v).exponent >= 0,
        double_number(v).mantissa <= 0x20_0000_0000_0000,
        double_number(v).trunc() != 0 ==> (double_number(v).trunc() < 0 <==> v < 0),
        2 * (if double_number(v).trunc() >= v { double_number(v).trunc() - v } else { v - double_number(v).trunc() })
            <= pow2(double_number(v).exponent as nat),
{
    lemma_double_bounds(v);
    let d = double_number(v);
    let m: nat = (if v < 0 { -v } else { v }) as nat;
    let s = dropped_bits(m);
    let p = pow2(s);
    lemma_pow2_pos(s);
    let q = m / p;
    let r = m % p;
    lemma_fundamental_div_mod(m as int, p as int);
    assert(m == p * q + r);
    lemma2_to64();
    lemma_pow2_adds(53, 11);
    assert(pow2(64) == 0x1_0000_0000_0000_0000);
    lemma_dropped_bits(m, 11);
    let big_r = round_half_even(m, s);
    assert(big_r <= 0x20_0000_0000_0000);
    assert(d.exponent == s);
    assert(d.mantissa == big_r);
    d.lemma_integral_form();
    assert(d.magnitude() == big_r * p);
    let t = d.trunc();
    assert(t == if v < 0 { -((big_r * p) as int) } else { (big_r * p) as int });
    if s == 0 {
        assert(p == 1) by {
            lemma2_to64();
        }
        assert(r == 0);
        assert(big_r == q);
        assert(big_r * p == m) by (nonlinear_arith)
            requires
                p == 1,
                big_r == q,
                m == p * q + r,
                r == 0,
        ;
    } else {
        let h = pow2((s - 1) as nat);
        lemma_pow2_unfold(s);
        assert(p == 2 * h);
        if big_r == q {
            assert(2 * r <= p);
            assert(big_r * p == m - r) by (nonlinear_arith)
                requires
                    big_r == q,
                    m == p * q + r,
            ;
        } else {
            assert(big_r == q + 1);
            assert(2 * r >= p);
            assert(big_r * p == m + (p - r)) by (nonlinear_arith)
                requires
                    big_r == q + 1,
                    m == p * q + r,
            ;
        }
    }
}

/// An integer below `2^53` in magnitude is a double.
pub proof fn lemma_double_exact(v: int)
    requires
        -0x20_0000_0000_0000 < v < 0x20_0000_0000_0000,
    ensures
        double_number(v) == int_number(v),
{
    let m: nat = (if v < 0 { -v } else { v }) as nat;
    assert(dropped_bits(m) == 0);
    lemma2_to64();
    assert(m / 1 == m) by (nonlinear_arith);
}

/// An integer below `2^64` in magnitude is the number `int_number` of it.
pub proof fn lemma_int_number(v: int)
    requires
        -0x1_0000_0000_0000_0000 < v < 0x1_0000_0000_0000_0000,
    ensures
        int_number(v).numer() == v,
        int_number(v).denom() == 1,
        int_number(v).is_integral(),
        int_number(v).trunc() == v,
        forall|b: int| int_number(v).ge_int(b) == (v >= b),
        forall|b: int| int_number(v).le_int(b) == (v <= b),
{
    let n = int_number(v);
    n.lemma_integral_form();
    assert forall|b: int| n.ge_int(b) == (v >= b) by {
        assert(b * 1 == b) by (nonlinear_arith);
    }
    assert forall|b: int| n.le_int(b) == (v <= b) by {
        assert(b * 1 == b) by (nonlinear_arith);
    }
}

impl Number {
    /// The denominator of the number written as a fraction: `2^-exponent`
    /// for a negative exponent, else 1.
    pub open spec fn denom(self) -> int {
        if self.exponent < 0 {
            pow2((-self.exponent) as nat) as int
        } else {
            1
        }
    }

    /// The absolute value of the numerator.
    pub open spec fn magnitude(self) -> int {
        if self.exponent >= 0 {
            self.mantissa * pow2(self.exponent as nat)
        } else {
            self.mantissa as int
        }
    }

    /// The signed numerator: the number equals `numer() / denom()` exactly.
    pub open spec fn numer(self) -> int {
        if self.negative {
            -self.magnitude()
        } else {
            self.magnitude()
        }
    }

    /// The number has no fractional part.
    pub open spec fn is_integral(self) -> bool {
        self.magnitude() % self.denom() == 0
    }

    /// The number rounded toward zero.
    pub open spec fn trunc(self) -> int {
        if self.negative {
            -(self.magnitude() / self.denom())
        } else {
            self.magnitude() / self.denom()
        }
    }

    /// `self >= b`, exactly.
    pub open spec fn ge_int(self, b: int) -> bool {
        self.numer() >= b * self.denom()
    }

    /// `self <= b`, exactly.
    pub open spec fn le_int(self, b: int) -> bool {
        self.numer() <= b * self.denom()
    }

    /// `lo <= self <= hi`, each side only where its bound is given.
    pub open spec fn within(self, lo: Option<i128>, hi: Option<i128>) -> bool {
        &&& (lo matches Some(l) ==> self.ge_int(l as int))
        &&& (hi matches Some(h) ==> self.le_int(h as int))
    }

    pub proof fn lemma_denom_pos(self)
        ensures
            self.denom() > 0,
            self.magnitude() >= 0,
    {
        lemma_pow2_pos((-self.exponent) as nat);
        lemma_pow2_pos(self.exponent as nat);
        if self.exponent >= 0 {
            assert(self.mantissa * pow2(self.exponent as nat) >= 0) by (nonlinear_arith)
                requires
                    self.mantissa >= 0,
                    pow2(self.exponent as nat) > 0,
            ;
        }
    }

    /// With a non-negative exponent the number is an integer: its numerator.
    pub proof fn lemma_integral_form(self)
        requires
            self.exponent >= 0,
        ensures
            self.denom() == 1,
            self.magnitude() / self.denom() == self.magnitude(),
            self.magnitude() % self.denom() == 0,
            self.exponent == 0 ==> self.magnitude() == self.mantissa,
    {
        let m = self.magnitude();
        assert(m / 1 == m && m % 1 == 0) by (nonlinear_arith);
        if self.exponent == 0 {
            lemma2_to64();
            assert(self.mantissa * 1 == self.mantissa) by (nonlinear_arith);
        }
    }

    /// For an integral number, comparing it with an integer is comparing
    /// its integer value.
    pub proof fn lemma_integral_compare(self, b: int)
        requires
            self.is_integral(),
        ensures
            self.numer() == self.trunc() * self.denom(),
            self.ge_int(b) == (self.trunc() >= b),
            self.le_int(b) == (self.trunc() <= b),
    {
        self.lemma_denom_pos();
        let n = self.magnitude();
        let d = self.denom();
        let t = self.trunc();
        lemma_fundamental_div_mod(n, d);
        assert(n == d * (n / d));
        if self.negative {
            assert(-n == t * d) by (nonlinear_arith)
                requires
                    n == d * (n / d),
                    t == -(n / d),
            ;
        } else {
            assert(n == t * d) by (nonlinear_arith)
                requires
                    n == d * (n / d),
                    t == n / d,
            ;
        }
        assert((t * d >= b * d) == (t >= b)) by (nonlinear_arith)
            requires
                d > 0,
        ;
        assert((t * d <= b * d) == (t <= b)) by (nonlinear_arith)
            requires
                d > 0,
        ;
    }

    /// The number with integer value `v`.
    pub fn from_i64(v: i64) -> (r: Number)
        ensures
            r == int_number(v as int),
            r.numer() == v,
            r.denom() == 1,
            r.is_integral(),
            r.trunc() == v,
    {
        proof {
            lemma2_to64();
        }
        let wide: i128 = v as i128;
        let r = if wide < 0 {
            let m: u64 = (-wide) as u64;
            Number { negative: true, mantissa: m, exponent: 0 }
        } else {
            Number { negative: false, mantissa: wide as u64, exponent: 0 }
        };
        proof {
            r.lemma_integral_form();
        }
        r
    }

    /// The number with the value of the unsigned integer `v`.
    pub fn from_u64(v: u64) -> (r: Number)
        ensures
            r == (Number { negative: false, mantissa: v, exponent: 0 }),
            r == int_number(v as int),
            r.numer() == v,
            r.denom() == 1,
            r.is_integral(),
            r.trunc() == v,
    {
        proof {
            lemma2_to64();
        }
        let r = Number { negative: false, mantissa: v, exponent: 0 };
        proof {
            r.lemma_integral_form();
        }
        r
    }

    /// The double nearest to `v`: what `v as f64` gives.
    pub fn from_i64_rounded(v: i64) -> (r: Number)
        ensures
            r == double_number(v as int),
            0 <= r.exponent <= 11,
            r.mantissa <= 0x20_0000_0000_0000,
    {
        let wide: i128 = v as i128;
        let m: u64 = if wide < 0 {
            (-wide) as u64
        } else {
            wide as u64
        };
        let (mantissa, shift) = round_magnitude(m);
        Number { negative: v < 0, mantissa, exponent: shift as i32 }
    }

    /// The double nearest to `v`: what `v as f64` gives.
    pub fn from_u64_rounded(v: u64) -> (r: Number)
        ensures
            r == double_number(v as int),
            0 <= r.exponent <= 11,
            r.mantissa <= 0x20_0000_0000_0000,
    {
        let (mantissa, shift) = round_magnitude(v);
        Number { negative: false, mantissa, exponent: shift as i32 }
    }

    /// The integer value of a number that has at most 53 bits of mantissa
    /// and at most 11 bits of exponent: an integer below `2^64` in magnitude.
    pub fn small_integer_value(&self) -> (r: i128)
        requires
            0 <= self.exponent <= 11,
            self.mantissa <= 0x20_0000_0000_0000,
        ensures
            r == self.trunc(),
            self.is_integral(),
            self.numer() == r,
    {
        proof {
            self.lemma_integral_form();
            lemma2_to64();
            let e = self.exponent as nat;
            if e < 11 {
                lemma_pow2_strictly_increases(e, 11);
            }
            let n = self.magnitude();
            assert(n <= 0x20_0000_0000_0000 * 0x800) by (nonlinear_arith)
                requires
                    n == self.mantissa * pow2(e),
                    self.mantissa <= 0x20_0000_0000_0000,
                    pow2(e) <= 0x800,
                    self.mantissa >= 0,
                    pow2(e) > 0,
            ;
            assert(self.ge_int(i128::MIN as int) && self.le_int(i128::MAX as int));
            self.lemma_integral_compare(0);
        }
        self.to_i128()
    }

    /// The integer part of `|self|` where it is below `2^128`, and whether
    /// `self` is integral.
    fn split(&self) -> (r: (Option<u128>, bool))
        ensures
            r.1 == self.is_integral(),
            r.0 matches Some(q) ==> q == self.magnitude() / self.denom(),
            r.0 is None ==> self.magnitude() / self.denom() >= 0x1_0000_0000_0000_0000_0000_0000_0000_0000,
    {
        proof {
            self.lemma_denom_pos();
            lemma2_to64();
            lemma_pow2_128();
        }
        if self.exponent >= 0 {
            proof {
                self.lemma_integral_form();
            }
            if self.mantissa == 0 {
                assert(self.magnitude() == 0) by (nonlinear_arith)
                    requires
                        self.magnitude() == self.mantissa * pow2(self.exponent as nat),
                        self.mantissa == 0,
                ;
                return (Some(0), true);
            }
            if self.exponent >= 128 {
                proof {
                    let e = self.exponent as nat;
                    if e > 128 {
                        lemma_pow2_strictly_increases(128, e);
                    }
                    assert(self.mantissa * pow2(e) >= pow2(e)) by (nonlinear_arith)
                        requires
                            self.mantissa >= 1,
                            pow2(e) > 0,
                    ;
                }
                return (None, true);
            }
            let p = pow2_u128(self.exponent as u32);
            match (self.mantissa as u128).checked_mul(p) {
                Some(q) => (Some(q), true),
                None => (None, true),
            }
        } else {
            let k: i64 = -(self.exponent as i64);
            if k >= 64 {
                proof {
                    let kk = k as nat;
                    if kk > 64 {
                        lemma_pow2_strictly_increases(64, kk);
                    }
                    assert(self.denom() == pow2(kk));
                    assert(self.magnitude() < self.denom());
                    let m = self.magnitude();
                    let d = self.denom();
                    assert(m / d == 0 && m % d == m) by (nonlinear_arith)
                        requires
                            0 <= m < d,
                    ;
                }
                (Some(0), self.mantissa == 0)
            } else {
                let p = pow2_u64(k as u32);
                (Some((self.mantissa / p) as u128), self.mantissa % p == 0)
            }
        }
    }

    /// Whether `self >= lo`.
    pub fn at_least(&self, lo: i128) -> (r: bool)
        ensures
            r == self.ge_int(lo as int),
    {
        let (q, exact) = self.split();
        proof {
            self.lemma_denom_pos();
        }
        let ghost n = self.magnitude();
        let ghost d = self.denom();
        if !self.negative {
            if lo <= 0 {
                proof {
                    lemma_mul_nonpos_pos(lo as int, d);
                }
                true
            } else {
                proof {
                    lemma_ge_mul_iff_div(n, d, lo as int);
                }
                match q {
                    None => true,
                    Some(q) => q >= lo as u128,
                }
            }
        } else {
            if lo > 0 {
                proof {
                    lemma_neg_mul(lo as int, -lo, d);
                    lemma_mul_nonpos_pos(-lo, d);
                }
                false
            } else {
                let c: u128 = if lo == 0 {
                    0
                } else {
                    let t: i128 = -(lo + 1);
                    (t as u128) + 1
                };
                proof {
                    lemma_le_mul_iff_div(n, d, c as int);
                    lemma_neg_mul(lo as int, c as int, d);
                }
                match q {
                    None => false,
                    Some(q) => q < c || (q == c && exact),
                }
            }
        }
    }

    /// Whether `self <= hi`.
    pub fn at_most(&self, hi: i128) -> (r: bool)
        ensures
            r == self.le_int(hi as int),
    {
        let (q, exact) = self.split();
        proof {
            self.lemma_denom_pos();
        }
        let ghost n = self.magnitude();
        let ghost d = self.denom();
        if self.negative {
            if hi >= 0 {
                proof {
                    lemma_mul_nonneg(hi as int, d);
                }
                true
            } else {
                let t: i128 = -(hi + 1);
                let c: u128 = (t as u128) + 1;
                proof {
                    lemma_ge_mul_iff_div(n, d, c as int);
                    lemma_neg_mul(hi as int, c as int, d);
                }
                match q {
                    None => true,
                    Some(q) => q >= c,
                }
            }
        } else {
            if hi < 0 {
                proof {
                    lemma_mul_nonpos_pos(hi as int, d);
                }
                false
            } else {
                proof {
                    lemma_le_mul_iff_div(n, d, hi as int);
                }
                match q {
                    None => false,
                    Some(q) => q < hi as u128 || (q == hi as u128 && exact),
                }
            }
        }
    }

    /// Whether `lo <= self <= hi`, each side only where its bound is given.
    pub fn is_within(&self, lo: Option<i128>, hi: Option<i128>) -> (r: bool)
        ensures
            r == self.within(lo, hi),
    {
        let lo_ok = match lo {
            Some(l) => self.at_least(l),
            None => true,
        };
        let hi_ok = match hi {
            Some(h) => self.at_most(h),
            None => true,
        };
        lo_ok && hi_ok
    }

    /// Whether the number has no fractional part.
    pub fn is_integer(&self) -> (r: bool)
        ensures
            r == self.is_integral(),
    {
        self.split().1
    }

    /// The value of an integral number that lies in the range of `i128`.
    pub fn to_i128(&self) -> (r: i128)
        requires
            self.is_integral(),
            self.ge_int(i128::MIN as int),
            self.le_int(i128::MAX as int),
        ensures
            r == self.trunc(),
    {
        let (q, exact) = self.split();
        proof {
            self.lemma_denom_pos();
            let n = self.magnitude();
            let d = self.denom();
            if self.negative {
                lemma_neg_mul(i128::MIN as int, 0x8000_0000_0000_0000_0000_0000_0000_0000, d);
                lemma_le_mul_iff_div(n, d, 0x8000_0000_0000_0000_0000_0000_0000_0000);
            } else {
                lemma_le_mul_iff_div(n, d, i128::MAX as int);
            }
        }
        match q {
            Some(q) => {
                if self.negative {
                    if q == 0x8000_0000_0000_0000_0000_0000_0000_0000 {
                        i128::MIN
                    } else {
                        -(q as i128)
                    }
                } else {
                    q as i128
                }
            },
            None => {
                // a number of magnitude at least 2^128 is outside the range of i128
                0
            },
        }
    }
}

proof fn lemma_pow2_128()
    ensures
        pow2(128) == 0x1_0000_0000_0000_0000_0000_0000_0000_0000,
{
    lemma2_to64();
    lemma_pow2_adds(64, 64);
}

/// `2^k` for `k < 128`.
fn pow2_u128(k: u32) -> (p: u128)
    requires
        k < 128,
    ensures
        p == pow2(k as nat),
{
    proof {
        lemma2_to64();
    }
    let mut p: u128 = 1;
    let mut i: u32 = 0;
    while i < k
        invariant
            i <= k < 128,
            p == pow2(i as nat),
        decreases k - i,
    {
        proof {
            lemma_pow2_128();
            lemma_pow2_unfold((i + 1) as nat);
            lemma_pow2_strictly_increases((i + 1) as nat, 128);
        }
        p = p * 2;
        i = i + 1;
    }
    p
}

/// The magnitude `m` rounded to a double's 53 bits: the rounded mantissa and
/// the number of bits dropped.
fn round_magnitude(m: u64) -> (r: (u64, u32))
    ensures
        r.1 == dropped_bits(m as nat),
        r.0 == round_half_even(m as nat, dropped_bits(m as nat)),
        r.0 <= 0x20_0000_0000_0000,
        r.1 <= 11,
{
    proof {
        lemma2_to64();
    }
    let mut s: u32 = 0;
    let mut t: u64 = m;
    while t >= 0x20_0000_0000_0000
        invariant
            s <= 11,
            t == m as nat / pow2(s as nat),
            dropped_bits(m as nat) == s + dropped_bits(t as nat),
        decreases t,
    {
        proof {
            lemma_pow2_pos(s as nat);
            lemma_div_denominator(m as int, pow2(s as nat) as int, 2);
            lemma_pow2_unfold((s + 1) as nat);
            lemma_fundamental_div_mod(m as int, pow2(s as nat) as int);
            // 2^53 * 2^s <= m < 2^64, so s < 11
            let p = pow2(s as nat);
            assert(p * t <= m) by (nonlinear_arith)
                requires
                    t == m as nat / p,
                    p > 0,
                    m >= 0,
            ;
            assert(p * 0x20_0000_0000_0000 <= p * t) by (nonlinear_arith)
                requires
                    t >= 0x20_0000_0000_0000,
                    p > 0,
            ;
            if s >= 11 {
                if s > 11 {
                    lemma_pow2_strictly_increases(11, s as nat);
                }
                assert(pow2(11) == 0x800) by {
                    lemma2_to64();
                }
                assert(false) by (nonlinear_arith)
                    requires
                        p * 0x20_0000_0000_0000 <= m,
                        m < 0x1_0000_0000_0000_0000,
                        p >= 0x800,
                ;
            }
        }
        t = t / 2;
        s = s + 1;
    }
    if s == 0 {
        proof {
            lemma_fundamental_div_mod(m as int, 1);
        }
        return (m, 0);
    }
    let p = pow2_u64(s);
    let q = m / p;
    let r = m % p;
    let h = p / 2;
    proof {
        lemma_pow2_unfold(s as nat);
        assert(q == t);
    }
    if r > h || (r == h && q % 2 == 1) {
        (q + 1, s)
    } else {
        (q, s)
    }
}

/// `2^k` for `k < 64`.
fn pow2_u64(k: u32) -> (p: u64)
    requires
        k < 64,
    ensures
        p == pow2(k as nat),
{
    proof {
        lemma2_to64();
    }
    let mut p: u64 = 1;
    let mut i: u32 = 0;
    while i < k
        invariant
            i <= k < 64,
            p == pow2(i as nat),
        decreases k - i,
    {
        proof {
            lemma2_to64();
            lemma_pow2_unfold((i + 1) as nat);
            lemma_pow2_strictly_increases((i + 1) as nat, 64);
        }
        p = p * 2;
        i = i + 1;
    }
    p
}

/// For `n >= 0` and `d > 0`: `n >= b * d` exactly when `n / d >= b`.
proof fn lemma_ge_mul_iff_div(n: int, d: int, b: int)
    requires
        n >= 0,
        d > 0,
    ensures
        (n >= b * d) == (n / d >= b),
{
    lemma_fundamental_div_mod(n, d);
    let q = n / d;
    let r = n % d;
    assert(n == d * q + r);
    assert(0 <= r < d);
    if q >= b {
        assert(d * q >= b * d) by (nonlinear_arith)
            requires
                q >= b,
                d > 0,
        ;
    } else {
        assert(d * q + d <= b * d) by (nonlinear_arith)
            requires
                q + 1 <= b,
                d > 0,
        ;
    }
}

/// For `n >= 0` and `d > 0`: `n <= c * d` exactly when `n / d < c`, or
/// `n / d == c` and `d` divides `n`.
proof fn lemma_le_mul_iff_div(n: int, d: int, c: int)
    requires
        n >= 0,
        d > 0,
    ensures
        (n <= c * d) == (n / d < c || (n / d == c && n % d == 0)),
{
    lemma_fundamental_div_mod(n, d);
    let q = n / d;
    let r = n % d;
    assert(n == d * q + r);
    assert(0 <= r < d);
    if q < c {
        assert(d * q + d <= c * d) by (nonlinear_arith)
            requires
                q + 1 <= c,
                d > 0,
        ;
    } else if q == c {
        assert(d * q == c * d) by (nonlinear_arith)
            requires
                q == c,
        ;
    } else {
        assert(d * q >= c * d + d) by (nonlinear_arith)
            requires
                q >= c + 1,
                d > 0,
        ;
    }
}

proof fn lemma_mul_nonpos_pos(a: int, d: int)
    requires
        a <= 0,
        d > 0,
    ensures
        a * d <= 0,
        a < 0 ==> a * d < 0,
{
    assert(a * d <= 0) by (nonlinear_arith)
        requires
            a <= 0,
            d > 0,
    ;
    assert(a < 0 ==> a * d < 0) by (nonlinear_arith)
        requires
            d > 0,
    ;
}

proof fn lemma_neg_mul(a: int, c: int, d: int)
    requires
        c == -a,
    ensures
        a * d == -(c * d),
{
    assert(a * d == -(c * d)) by (nonlinear_arith)
        requires
            c == -a,
    ;
}

proof fn lemma_mul_nonneg(a: int, d: int)
    requires
        a >= 0,
        d > 0,
    ensures
        a * d >= 0,
{
    assert(a * d >= 0) by (nonlinear_arith)
        requires
            a >= 0,
            d > 0,
    ;
}

} // verus!
