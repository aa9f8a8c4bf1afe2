//! IEEE-754 numbers held by their bit patterns.
//!
//! Control values, tempo and song time travel through the library as the bit
//! patterns of binary32 and binary64 numbers. A finite pattern stands for an
//! exact rational: an integer count of the format's smallest step. The
//! functions here read a pattern's class, compare exact values and widen
//! binary32 to binary64; none of them rounds.

use vstd::prelude::*;
use vstd::arithmetic::power2::*;

verus! {

/// An IEEE-754 binary32 number, by its bit pattern.
#[derive(Debug, Clone, Copy, PartialEq, Eq, Structural)]
pub struct Single {
    pub bits: u32,
}

/// An IEEE-754 binary64 number, by its bit pattern.
#[derive(Debug, Clone, Copy, PartialEq, Eq, Structural)]
pub struct Double {
    pub bits: u64,
}

impl Single {
    /// The sign bit.
    pub open spec fn negative(self) -> bool {
        self.bits >= 0x8000_0000
    }

    /// The biased exponent field, 0 to 255.
    pub open spec fn exponent(self) -> int {
        (self.bits as int / 0x80_0000) % 0x100
    }

    /// The fraction field, below 2^23.
    pub open spec fn fraction(self) -> int {
        self.bits as int % 0x80_0000
    }

    /// Not a number: the highest exponent with a fraction.
    pub open spec fn is_nan(self) -> bool {
        self.exponent() == 255 && self.fraction() != 0
    }

    /// An infinity: the highest exponent without a fraction.
    pub open spec fn is_infinite(self) -> bool {
        self.exponent() == 255 && self.fraction() == 0
    }

    /// A zero, a subnormal or a normal number.
    pub open spec fn is_finite(self) -> bool {
        self.exponent() < 255
    }

    /// The integer part of a finite pattern's magnitude: the fraction, with the
    /// hidden bit where the number is normal.
    pub open spec fn significand(self) -> int {
        if self.exponent() == 0 {
            self.fraction()
        } else {
            0x80_0000 + self.fraction()
        }
    }

    /// The power of two, counted in steps of 2^-149, that scales the significand.
    pub open spec fn shift(self) -> nat {
        if self.exponent() == 0 {
            0
        } else {
            (self.exponent() - 1) as nat
        }
    }

    /// The exact value of a finite pattern, counted in steps of 2^-149.
    pub open spec fn scaled(self) -> int {
        if self.negative() {
            -(self.significand() * pow2(self.shift()))
        } else {
            self.significand() * pow2(self.shift())
        }
    }

    /// The number with this bit pattern.
    pub fn from_bits(bits: u32) -> (x: Single)
        ensures
            x.bits == bits,
    {
        Single { bits }
    }

    /// The bit pattern of the number.
    pub fn to_bits(self) -> (bits: u32)
        ensures
            bits == self.bits,
    {
        self.bits
    }

    /// Positive zero.
    pub fn zero() -> (x: Single)
        ensures
            x.bits == 0,
            x.is_finite(),
            x.scaled() == 0,
    {
        let x = Single { bits: 0 };
        assert(x.significand() == 0);
        assert(x.significand() * pow2(x.shift()) == 0) by (nonlinear_arith)
            requires
                x.significand() == 0,
        ;
        x
    }

    /// The number 1.
    pub fn one() -> (x: Single)
        ensures
            x.bits == 0x3F80_0000,
            x.is_finite(),
            x.scaled() == pow2(149),
    {
        proof {
            lemma_pow2_adds(23, 126);
            lemma2_to64();
        }
        Single { bits: 0x3F80_0000 }
    }

    /// The number -1.
    pub fn minus_one() -> (x: Single)
        ensures
            x.bits == 0xBF80_0000,
            x.is_finite(),
            x.scaled() == -pow2(149),
    {
        proof {
            lemma_pow2_adds(23, 126);
            lemma2_to64();
        }
        Single { bits: 0xBF80_0000 }
    }

    /// Reads the sign bit.
    pub fn sign_bit(self) -> (negative: bool)
        ensures
            negative == self.negative(),
    {
        self.bits >= 0x8000_0000
    }

    /// Reads the biased exponent.
    pub fn exponent_field(self) -> (e: u32)
        ensures
            e == self.exponent(),
            e < 256,
    {
        (self.bits / 0x80_0000) % 0x100
    }

    /// Reads the fraction.
    pub fn fraction_field(self) -> (f: u32)
        ensures
            f == self.fraction(),
            f < 0x80_0000,
    {
        self.bits % 0x80_0000
    }

    /// The significand with the sign of the number.
    pub open spec fn signed_significand(self) -> int {
        if self.negative() {
            -self.significand()
        } else {
            self.significand()
        }
    }

    /// The value of a finite pattern is its signed significand times a power of two.
    pub proof fn lemma_scaled_is_product(self)
        ensures
            self.scaled() == self.signed_significand() * pow2(self.shift()),
            -0x100_0000 < self.signed_significand() < 0x100_0000,
            self.shift() <= 254,
    {
        let m = self.significand();
        let p = pow2(self.shift());
        assert((-m) * p == -(m * p)) by (nonlinear_arith);
    }

    /// The signed significand and the shift of a finite pattern.
    fn parts(self) -> (r: (i64, u32))
        ensures
            r.0 == self.signed_significand(),
            r.1 == self.shift(),
            -0x100_0000 < r.0 < 0x100_0000,
            r.1 <= 254,
    {
        let e = self.exponent_field();
        let f = self.fraction_field();
        let magnitude: i64 = if e == 0 {
            f as i64
        } else {
            0x80_0000 + f as i64
        };
        let shift: u32 = if e == 0 {
            0
        } else {
            e - 1
        };
        if self.sign_bit() {
            (-magnitude, shift)
        } else {
            (magnitude, shift)
        }
    }

    /// The order of two numbers, neither a NaN: by exact value, with the
    /// infinities at the two ends.
    pub open spec fn at_most(self, other: Single) -> bool {
        if self.is_infinite() {
            self.negative() || (other.is_infinite() && !other.negative())
        } else if other.is_infinite() {
            !other.negative()
        } else {
            self.scaled() <= other.scaled()
        }
    }

    /// Whether the pattern is a NaN.
    pub fn nan(self) -> (b: bool)
        ensures
            b == self.is_nan(),
    {
        self.exponent_field() == 255 && self.fraction_field() != 0
    }

    /// Whether the pattern is a finite number.
    pub fn finite(self) -> (b: bool)
        ensures
            b == self.is_finite(),
    {
        self.exponent_field() < 255
    }
}

/// The sign of an integer: -1, 0 or 1.
pub open spec fn sign(v: int) -> int {
    if v < 0 {
        -1
    } else if v > 0 {
        1
    } else {
        0
    }
}

/// The largest gap between two exponents that a comparison keeps. A term that
/// lies further below its neighbour cannot change the sign of a sum whose
/// other part is not zero, and is moved up to this gap.
const GAP: u32 = 34;

/// One bound for every term of a combination: a coefficient below 2^8 in
/// magnitude times a significand below 2^24.
spec fn small(t: int) -> bool {
    -0x1_0000_0000 < t < 0x1_0000_0000
}

proof fn lemma_sign_of_multiple(p: int, z: int)
    requires
        p > 0,
    ensures
        sign(p * z) == sign(z),
{
    assert(z > 0 ==> p * z > 0) by (nonlinear_arith)
        requires
            p > 0,
    ;
    assert(z < 0 ==> p * z < 0) by (nonlinear_arith)
        requires
            p > 0,
    ;
    assert(z == 0 ==> p * z == 0) by (nonlinear_arith);
}

/// A multiple of a number that is not zero, by a factor of at least `bound`,
/// outweighs anything below `bound`.
proof fn lemma_factor_outweighs(low: int, g: int, p: int, bound: int)
    requires
        -bound < low < bound,
        g >= bound,
        p != 0,
    ensures
        sign(low + g * p) == sign(p),
{
    assert(p > 0 ==> g * p >= bound) by (nonlinear_arith)
        requires
            g >= bound,
            bound > 0,
    ;
    assert(p < 0 ==> g * p <= -bound) by (nonlinear_arith)
        requires
            g >= bound,
            bound > 0,
    ;
}

/// A multiple, by a factor of at least 1, of a number of magnitude at least
/// `bound` outweighs anything below `bound`.
proof fn lemma_large_outweighs(low: int, g: int, p: int, bound: int)
    requires
        -bound < low < bound,
        g >= 1,
        p >= bound || p <= -bound,
    ensures
        sign(low + g * p) == sign(p),
{
    assert(p >= bound ==> g * p >= bound) by (nonlinear_arith)
        requires
            g >= 1,
            bound > 0,
    ;
    assert(p <= -bound ==> g * p <= -bound) by (nonlinear_arith)
        requires
            g >= 1,
            bound > 0,
    ;
}

/// A gap between two exponents, held to the largest that a comparison keeps.
spec fn capped(gap: nat) -> nat {
    if gap > GAP {
        GAP as nat
    } else {
        gap
    }
}

/// Three terms on rising exponents: capping the two gaps between the exponents
/// keeps the sign of the sum.
proof fn lemma_capped_gaps_keep_sign(t1: int, t2: int, t3: int, a: nat, b: nat)
    requires
        small(t1),
        small(t2),
        small(t3),
    ensures
        sign(t1 + pow2(a) * (t2 + pow2(b) * t3)) == sign(
            t1 + pow2(capped(a)) * (t2 + pow2(capped(b)) * t3),
        ),
{
    lemma2_to64();
    lemma2_to64_rest();
    lemma_pow2_pos(a);
    lemma_pow2_pos(b);
    lemma_pow2_pos(capped(a));
    lemma_pow2_pos(capped(b));
    if a > GAP {
        lemma_pow2_strictly_increases(GAP as nat, a);
    }
    if b > GAP {
        lemma_pow2_strictly_increases(GAP as nat, b);
    }
    let p = t2 + pow2(b) * t3;
    let q = t2 + pow2(capped(b)) * t3;
    if b > GAP && t3 != 0 {
        // Both inner sums take the sign of the top term and are large.
        lemma_factor_outweighs(t2, pow2(b) as int, t3, 0x1_0000_0000);
        lemma_factor_outweighs(t2, pow2(capped(b)) as int, t3, 0x1_0000_0000);
        assert(p >= 0x1_0000_0000 || p <= -0x1_0000_0000) by (nonlinear_arith)
            requires
                p == t2 + pow2(b) * t3,
                pow2(b) >= 0x4_0000_0000,
                t3 != 0,
                small(t2),
        ;
        assert(q >= 0x1_0000_0000 || q <= -0x1_0000_0000) by (nonlinear_arith)
            requires
                q == t2 + pow2(capped(b)) * t3,
                pow2(capped(b)) >= 0x4_0000_0000,
                t3 != 0,
                small(t2),
        ;
        lemma_large_outweighs(t1, pow2(a) as int, p, 0x1_0000_0000);
        lemma_large_outweighs(t1, pow2(capped(a)) as int, q, 0x1_0000_0000);
    } else {
        assert(p == q) by {
            if b > GAP {
                assert(pow2(b) * t3 == 0) by (nonlinear_arith)
                    requires
                        t3 == 0,
                ;
                assert(pow2(capped(b)) * t3 == 0) by (nonlinear_arith)
                    requires
                        t3 == 0,
                ;
            }
        }
        if a > GAP {
            if p == 0 {
                assert(pow2(a) * p == 0) by (nonlinear_arith)
                    requires
                        p == 0,
                ;
                assert(pow2(capped(a)) * p == 0) by (nonlinear_arith)
                    requires
                        p == 0,
                ;
            } else {
                lemma_factor_outweighs(t1, pow2(a) as int, p, 0x1_0000_0000);
                lemma_factor_outweighs(t1, pow2(capped(a)) as int, p, 0x1_0000_0000);
            }
        }
    }
}

/// Two to the power `n`, for an exponent up to the gap.
fn small_power(n: u32) -> (p: i128)
    requires
        n <= GAP,
    ensures
        p == pow2(n as nat),
        1 <= p <= 0x4_0000_0000,
{
    let mut p: i128 = 1;
    let mut i: u32 = 0;
    proof {
        lemma2_to64();
        lemma2_to64_rest();
    }
    while i < n
        invariant
            i <= n <= GAP,
            p == pow2(i as nat),
            1 <= p,
            pow2(GAP as nat) == 0x4_0000_0000,
        decreases n - i,
    {
        proof {
            lemma_pow2_unfold((i + 1) as nat);
            if i + 1 < GAP {
                lemma_pow2_strictly_increases((i + 1) as nat, GAP as nat);
            }
        }
        p = p * 2;
        i = i + 1;
    }
    proof {
        if n < GAP {
            lemma_pow2_strictly_increases(n as nat, GAP as nat);
        }
    }
    p
}

/// The sign of `t1·2^e1 + t2·2^e2 + t3·2^e3` for exponents in rising order.
fn rising_sum_sign(t1: i64, e1: u32, t2: i64, e2: u32, t3: i64, e3: u32) -> (s: i8)
    requires
        small(t1 as int),
        small(t2 as int),
        small(t3 as int),
        e1 <= e2 <= e3,
    ensures
        s == sign(t1 * pow2(e1 as nat) + t2 * pow2(e2 as nat) + t3 * pow2(e3 as nat)),
{
    let a: u32 = if e2 - e1 > GAP { GAP } else { e2 - e1 };
    let b: u32 = if e3 - e2 > GAP { GAP } else { e3 - e2 };
    let pa = small_power(a);
    let pb = small_power(b);
    assert(-0x4_0000_0000 * 0x1_0000_0000 <= pb * t3 <= 0x4_0000_0000 * 0x1_0000_0000)
        by (nonlinear_arith)
        requires
            1 <= pb <= 0x4_0000_0000,
            small(t3 as int),
    ;
    let inner: i128 = t2 as i128 + pb * (t3 as i128);
    assert(-0x4_0000_0000 * 0x8_0000_0000_0000_0000 <= pa * inner <= 0x4_0000_0000
        * 0x8_0000_0000_0000_0000) by (nonlinear_arith)
        requires
            1 <= pa <= 0x4_0000_0000,
            -0x8_0000_0000_0000_0000 <= inner <= 0x8_0000_0000_0000_0000,
    ;
    let total: i128 = t1 as i128 + pa * inner;
    proof {
        let ga = (e2 - e1) as nat;
        let gb = (e3 - e2) as nat;
        assert(a == capped(ga));
        assert(b == capped(gb));
        lemma_capped_gaps_keep_sign(t1 as int, t2 as int, t3 as int, ga, gb);
        let z = t1 + pow2(ga) * (t2 + pow2(gb) * t3);
        assert(sign(total as int) == sign(z));
        lemma_pow2_adds(e1 as nat, ga);
        lemma_pow2_adds(e2 as nat, gb);
        lemma_pow2_pos(e1 as nat);
        let p1 = pow2(e1 as nat) as int;
        assert(t1 * p1 + t2 * (p1 * pow2(ga)) + t3 * (p1 * pow2(ga) * pow2(gb)) == p1 * z)
            by (nonlinear_arith)
            requires
                z == t1 + pow2(ga) * (t2 + pow2(gb) * t3),
        ;
        lemma_sign_of_multiple(p1, z);
    }
    if total < 0 {
        -1
    } else if total > 0 {
        1
    } else {
        0
    }
}

/// Whether `exact_sign` takes these numbers and coefficients: the numbers are
/// finite, and the coefficients are below 256 in magnitude.
pub open spec fn combinable(c1: i32, x1: Single, c2: i32, x2: Single, c3: i32, x3: Single) -> bool {
    &&& x1.is_finite()
    &&& x2.is_finite()
    &&& x3.is_finite()
    &&& -256 < c1 < 256
    &&& -256 < c2 < 256
    &&& -256 < c3 < 256
}

/// The sign of `c1·x1 + c2·x2 + c3·x3`, the sum taken exactly; `None` where a
/// number is not finite or a coefficient is not below 256 in magnitude.
pub fn combination_sign(c1: i32, x1: Single, c2: i32, x2: Single, c3: i32, x3: Single) -> (s: Option<
    i8,
>)
    ensures
        combinable(c1, x1, c2, x2, c3, x3) ==> s == Some(
            sign(c1 * x1.scaled() + c2 * x2.scaled() + c3 * x3.scaled()) as i8,
        ),
        !combinable(c1, x1, c2, x2, c3, x3) ==> s.is_none(),
{
    if x1.finite() && x2.finite() && x3.finite() && -256 < c1 && c1 < 256 && -256 < c2 && c2 < 256
        && -256 < c3 && c3 < 256 {
        Some(exact_sign(c1, x1, c2, x2, c3, x3))
    } else {
        None
    }
}

/// The sign of `c1·x1 + c2·x2 + c3·x3`, for three finite numbers and three
/// integer coefficients below 256 in magnitude. The sum is taken exactly.
pub(crate) fn exact_sign(c1: i32, x1: Single, c2: i32, x2: Single, c3: i32, x3: Single) -> (s: i8)
    requires
        x1.is_finite(),
        x2.is_finite(),
        x3.is_finite(),
        -256 < c1 < 256,
        -256 < c2 < 256,
        -256 < c3 < 256,
    ensures
        s == sign(c1 * x1.scaled() + c2 * x2.scaled() + c3 * x3.scaled()),
{
    let (m1, e1) = x1.parts();
    let (m2, e2) = x2.parts();
    let (m3, e3) = x3.parts();
    assert(small(c1 * m1) && small(c2 * m2) && small(c3 * m3)) by (nonlinear_arith)
        requires
            -256 < c1 < 256,
            -256 < c2 < 256,
            -256 < c3 < 256,
            -0x100_0000 < m1 < 0x100_0000,
            -0x100_0000 < m2 < 0x100_0000,
            -0x100_0000 < m3 < 0x100_0000,
    ;
    let t1: i64 = c1 as i64 * m1;
    let t2: i64 = c2 as i64 * m2;
    let t3: i64 = c3 as i64 * m3;
    proof {
        x1.lemma_scaled_is_product();
        x2.lemma_scaled_is_product();
        x3.lemma_scaled_is_product();
        assert(c1 * x1.scaled() == t1 * pow2(e1 as nat)) by (nonlinear_arith)
            requires
                x1.scaled() == m1 * pow2(e1 as nat),
                t1 == c1 * m1,
        ;
        assert(c2 * x2.scaled() == t2 * pow2(e2 as nat)) by (nonlinear_arith)
            requires
                x2.scaled() == m2 * pow2(e2 as nat),
                t2 == c2 * m2,
        ;
        assert(c3 * x3.scaled() == t3 * pow2(e3 as nat)) by (nonlinear_arith)
            requires
                x3.scaled() == m3 * pow2(e3 as nat),
                t3 == c3 * m3,
        ;
    }
    if e1 <= e2 {
        if e2 <= e3 {
            rising_sum_sign(t1, e1, t2, e2, t3, e3)
        } else if e1 <= e3 {
            rising_sum_sign(t1, e1, t3, e3, t2, e2)
        } else {
            rising_sum_sign(t3, e3, t1, e1, t2, e2)
        }
    } else {
        if e1 <= e3 {
            rising_sum_sign(t2, e2, t1, e1, t3, e3)
        } else if e2 <= e3 {
            rising_sum_sign(t2, e2, t3, e3, t1, e1)
        } else {
            rising_sum_sign(t3, e3, t2, e2, t1, e1)
        }
    }
}

impl Double {
    /// The sign bit.
    pub open spec fn negative(self) -> bool {
        self.bits >= 0x8000_0000_0000_0000
    }

    /// The biased exponent field, 0 to 2047.
    pub open spec fn exponent(self) -> int {
        (self.bits as int / 0x10_0000_0000_0000) % 0x800
    }

    /// The fraction field, below 2^52.
    pub open spec fn fraction(self) -> int {
        self.bits as int % 0x10_0000_0000_0000
    }

    pub open spec fn is_nan(self) -> bool {
        self.exponent() == 2047 && self.fraction() != 0
    }

    pub open spec fn is_infinite(self) -> bool {
        self.exponent() == 2047 && self.fraction() == 0
    }

    pub open spec fn is_finite(self) -> bool {
        self.exponent() < 2047
    }

    /// The integer part of a finite pattern's magnitude.
    pub open spec fn significand(self) -> int {
        if self.exponent() == 0 {
            self.fraction()
        } else {
            0x10_0000_0000_0000 + self.fraction()
        }
    }

    /// The power of two, counted in steps of 2^-1074, that scales the significand.
    pub open spec fn shift(self) -> nat {
        if self.exponent() == 0 {
            0
        } else {
            (self.exponent() - 1) as nat
        }
    }

    /// The exact value of a finite pattern, counted in steps of 2^-1074.
    pub open spec fn scaled(self) -> int {
        if self.negative() {
            -(self.significand() * pow2(self.shift()))
        } else {
            self.significand() * pow2(self.shift())
        }
    }

    /// The number with this bit pattern.
    pub fn from_bits(bits: u64) -> (x: Double)
        ensures
            x.bits == bits,
    {
        Double { bits }
    }

    /// The bit pattern of the number.
    pub fn to_bits(self) -> (bits: u64)
        ensures
            bits == self.bits,
    {
        self.bits
    }
}

/// The place of the highest bit of a positive integer: 0 for 1, 1 for 2 and 3.
pub open spec fn top_bit(f: int) -> nat
    decreases f,
{
    if f < 2 {
        0
    } else {
        1 + top_bit(f / 2)
    }
}

/// An integer between two neighbouring powers of two has its highest bit at
/// the lower one.
proof fn lemma_top_bit(f: int, p: nat)
    requires
        pow2(p) <= f < pow2(p + 1),
    ensures
        top_bit(f) == p,
    decreases p,
{
    lemma2_to64();
    if p == 0 {
    } else {
        lemma_pow2_unfold(p);
        lemma_pow2_unfold(p + 1);
        lemma_pow2_pos((p - 1) as nat);
        lemma_top_bit(f / 2, (p - 1) as nat);
    }
}

impl Single {
    /// The binary64 pattern of the same number. Every binary32 number is a
    /// binary64 number: the sign stays, an infinity stays an infinity, and a
    /// finite number keeps its exact value. A NaN becomes a quiet NaN with
    /// the same sign and the same leading payload bits.
    pub open spec fn widened(self) -> Double {
        let sign: int = if self.negative() {
            0x8000_0000_0000_0000
        } else {
            0
        };
        let e = self.exponent();
        let f = self.fraction();
        if e == 255 {
            if f == 0 {
                Double { bits: (sign + 0x7FF0_0000_0000_0000) as u64 }
            } else {
                Double {
                    bits: (sign + 0x7FF8_0000_0000_0000 + (f % 0x40_0000) * 0x2000_0000) as u64,
                }
            }
        } else if e == 0 {
            if f == 0 {
                Double { bits: sign as u64 }
            } else {
                let p = top_bit(f);
                Double {
                    bits: (sign + (p + 874) * 0x10_0000_0000_0000 + (f - pow2(p)) * pow2(
                        (52 - p) as nat,
                    )) as u64,
                }
            }
        } else {
            Double { bits: (sign + (e + 896) * 0x10_0000_0000_0000 + f * 0x2000_0000) as u64 }
        }
    }

    /// Widens the number to binary64.
    pub fn widen(self) -> (d: Double)
        ensures
            d == self.widened(),
    {
        let sign: u64 = if self.sign_bit() {
            0x8000_0000_0000_0000
        } else {
            0
        };
        let e = self.exponent_field() as u64;
        let f = self.fraction_field() as u64;
        if e == 255 {
            if f == 0 {
                Double { bits: sign + 0x7FF0_0000_0000_0000 }
            } else {
                Double { bits: sign + 0x7FF8_0000_0000_0000 + (f % 0x40_0000) * 0x2000_0000 }
            }
        } else if e == 0 {
            if f == 0 {
                Double { bits: sign }
            } else {
                let mut p: u64 = 0;
                let mut low: u64 = 1;
                let mut scale: u64 = 0x10_0000_0000_0000;
                proof {
                    lemma2_to64();
                    lemma2_to64_rest();
                }
                while low * 2 <= f
                    invariant
                        0 < f < 0x80_0000,
                        p <= 22,
                        low == pow2(p as nat),
                        scale == pow2((52 - p) as nat),
                        1 <= low <= f,
                        low * scale == 0x10_0000_0000_0000,
                    decreases f - low,
                {
                    proof {
                        lemma_pow2_unfold((p + 1) as nat);
                        lemma_pow2_unfold((52 - p) as nat);
                        lemma2_to64();
                        if p + 1 > 23 {
                            lemma_pow2_strictly_increases(23, (p + 1) as nat);
                        }
                        assert((low * 2) * (scale / 2) == low * scale) by (nonlinear_arith)
                            requires
                                scale % 2 == 0,
                        ;
                    }
                    low = low * 2;
                    scale = scale / 2;
                    p = p + 1;
                }
                proof {
                    lemma_pow2_unfold((p + 1) as nat);
                    lemma_top_bit(f as int, p as nat);
                    assert((f - low) * scale < low * scale) by (nonlinear_arith)
                        requires
                            f - low < low,
                            scale > 0,
                    ;
                }
                Double { bits: sign + (p + 874) * 0x10_0000_0000_0000 + (f - low) * scale }
            }
        } else {
            Double { bits: sign + (e + 896) * 0x10_0000_0000_0000 + f * 0x2000_0000 }
        }
    }

    /// Widening keeps the number: the class and the sign stay, and a finite
    /// number keeps its exact value (a step of binary32 is 2^925 steps of
    /// binary64).
    pub proof fn lemma_widened_is_same_number(self)
        ensures
            self.widened().negative() == self.negative(),
            self.widened().is_nan() == self.is_nan(),
            self.widened().is_infinite() == self.is_infinite(),
            self.is_finite() ==> self.widened().scaled() == self.scaled() * pow2(925),
    {
        lemma2_to64();
        lemma2_to64_rest();
        let sign: int = if self.negative() {
            0x8000_0000_0000_0000
        } else {
            0
        };
        let e = self.exponent();
        let f = self.fraction();
        let d = self.widened();
        let unit = pow2(925) as int;
        if e == 255 {
        } else if e == 0 {
            if f == 0 {
                assert(d.significand() == 0);
                assert(d.significand() * pow2(d.shift()) == 0) by (nonlinear_arith)
                    requires
                        d.significand() == 0,
                ;
                assert(self.significand() * pow2(self.shift()) == 0) by (nonlinear_arith)
                    requires
                        self.significand() == 0,
                ;
                assert(0 * unit == 0);
            } else {
                let p = top_bit(f);
                lemma_top_bit_bounds(f);
                lemma_pow2_adds(p, (52 - p) as nat);
                lemma_pow2_pos((52 - p) as nat);
                let low = pow2(p) as int;
                let scale = pow2((52 - p) as nat) as int;
                let rest = (f - low) * scale;
                assert(0 <= rest < 0x10_0000_0000_0000) by (nonlinear_arith)
                    requires
                        rest == (f - low) * scale,
                        0 <= f - low < low,
                        scale > 0,
                        low * scale == 0x10_0000_0000_0000,
                ;
                assert(d.bits == sign + (p + 874) * 0x10_0000_0000_0000 + rest);
                assert(d.exponent() == p + 874);
                assert(d.fraction() == rest);
                assert(d.significand() == f * scale) by (nonlinear_arith)
                    requires
                        d.significand() == 0x10_0000_0000_0000 + rest,
                        rest == (f - low) * scale,
                        low * scale == 0x10_0000_0000_0000,
                ;
                assert(d.shift() == p + 873);
                lemma_pow2_adds((52 - p) as nat, p + 873);
                assert(pow2((52 - p) as nat) * pow2(p + 873) == pow2(925));
                assert((f * scale) * pow2(p + 873) == f * unit) by (nonlinear_arith)
                    requires
                        scale * pow2(p + 873) == unit,
                ;
                assert(self.significand() * pow2(self.shift()) == f) by (nonlinear_arith)
                    requires
                        self.significand() == f,
                        pow2(self.shift()) == 1,
                ;
                assert((-f) * unit == -(f * unit)) by (nonlinear_arith);
            }
        } else {
            let rest = f * 0x2000_0000;
            assert(d.bits == sign + (e + 896) * 0x10_0000_0000_0000 + rest);
            assert(d.exponent() == e + 896);
            assert(d.fraction() == rest);
            assert(d.significand() == (0x80_0000 + f) * 0x2000_0000);
            assert(d.shift() == e + 895);
            let m = 0x80_0000 + f;
            lemma_pow2_adds(29, 896);
            lemma_pow2_adds((e - 1) as nat, 896);
            assert((m * 0x2000_0000) * pow2((e + 895) as nat) == (m * pow2((e - 1) as nat)) * unit)
                by (nonlinear_arith)
                requires
                    pow2((e + 895) as nat) == pow2((e - 1) as nat) * pow2(896),
                    unit == 0x2000_0000 * pow2(896),
            ;
            assert((-(m * pow2((e - 1) as nat))) * unit == -((m * pow2((e - 1) as nat)) * unit))
                by (nonlinear_arith);
        }
    }
}

/// The highest bit of an integer from 1 to below 2^23 stands at a place up to
/// 22, and the integer lies between that power of two and the next.
proof fn lemma_top_bit_bounds(f: int)
    requires
        0 < f < 0x80_0000,
    ensures
        top_bit(f) <= 22,
        pow2(top_bit(f)) <= f < 2 * pow2(top_bit(f)),
    decreases f,
{
    lemma2_to64();
    if f >= 2 {
        lemma_top_bit_bounds(f / 2);
        lemma_pow2_unfold(top_bit(f));
        if top_bit(f / 2) >= 22 {
            lemma_pow2_strictly_increases(21, top_bit(f / 2));
        }
    }
}

} // verus!
