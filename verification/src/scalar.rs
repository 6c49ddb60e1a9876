//! Binary32 numbers by their bit patterns, with their exact order.

use vstd::prelude::*;
use vstd::arithmetic::div_mod::lemma_div_multiples_vanish_quotient;
use vstd::arithmetic::power2::{
    lemma2_to64, lemma_pow2_adds, lemma_pow2_pos, lemma_pow2_strictly_increases,
    lemma_pow2_unfold, pow2,
};
use vstd::bits::{lemma_u32_shl_is_mul, lemma_u32_shr_is_div};

verus! {

/// The bit that holds the sign.
pub const SIGN_BIT: u32 = 0x8000_0000;

/// The magnitude bits of an infinity; every larger magnitude is a NaN.
pub const INFINITY_BITS: u32 = 0x7f80_0000;

/// The bits of the number one.
pub const ONE_BITS: u32 = 0x3f80_0000;

/// The number of magnitudes that share one exponent.
pub const FRACTIONS: u32 = 0x80_0000;

/// An IEEE-754 binary32 number, held by its bit pattern.
///
/// A number that is not a NaN stands for the rational `scaled() / 2^149`; the
/// two infinities stand at `2^128` and `-2^128`, beyond every finite number.
#[derive(Clone, Copy, Debug)]
pub struct Scalar {
    pub bits: u32,
}

/// What a magnitude (a bit pattern without its sign) is worth, times `2^149`.
pub open spec fn scaled_magnitude(m: nat) -> nat {
    let e = m / (FRACTIONS as nat);
    let f = m % (FRACTIONS as nat);
    if e == 0 {
        f
    } else {
        (FRACTIONS as nat + f) * pow2((e - 1) as nat)
    }
}

/// Stepping a magnitude up by one makes it worth more.
proof fn lemma_scaled_magnitude_step(m: nat)
    ensures
        scaled_magnitude(m) < scaled_magnitude(m + 1),
{
    let w: nat = 0x80_0000;
    let e = m / w;
    let f = m % w;
    let e1 = (m + 1) / w;
    let f1 = (m + 1) % w;
    if f + 1 < w {
        assert(e1 == e && f1 == f + 1);
        if e > 0 {
            let p = pow2((e - 1) as nat);
            lemma_pow2_pos((e - 1) as nat);
            assert((w + f) * p < (w + f1) * p) by (nonlinear_arith)
                requires
                    p > 0,
                    f1 == f + 1,
            ;
        }
    } else {
        assert(e1 == e + 1 && f1 == 0);
        if e > 0 {
            let p = pow2((e - 1) as nat);
            lemma_pow2_pos((e - 1) as nat);
            lemma_pow2_unfold(e);
            assert(pow2(e) == 2 * p);
            assert((w + f) * p < (w + f1) * (2 * p)) by (nonlinear_arith)
                requires
                    p > 0,
                    f < w,
                    f1 == 0,
            ;
            assert(scaled_magnitude(m + 1) == (w + f1) * pow2(e));
        } else {
            assert(pow2(0) == 1) by {
                lemma2_to64();
            }
            assert(scaled_magnitude(m + 1) == (w + f1) * pow2(0));
        }
    }
}

/// A larger magnitude is worth more.
pub proof fn lemma_scaled_magnitude_increases(a: nat, b: nat)
    requires
        a < b,
    ensures
        scaled_magnitude(a) < scaled_magnitude(b),
    decreases b - a,
{
    lemma_scaled_magnitude_step(a);
    if a + 1 < b {
        lemma_scaled_magnitude_increases(a + 1, b);
    }
}

/// Two magnitudes are ordered as their worths are.
pub proof fn lemma_scaled_magnitude_order(a: nat, b: nat)
    ensures
        a < b <==> scaled_magnitude(a) < scaled_magnitude(b),
        a == b <==> scaled_magnitude(a) == scaled_magnitude(b),
{
    if a < b {
        lemma_scaled_magnitude_increases(a, b);
    }
    if b < a {
        lemma_scaled_magnitude_increases(b, a);
    }
}

/// What the number one is worth: `2^149`.
pub open spec fn unit() -> nat {
    pow2(149)
}

/// The bits of one are worth one unit.
pub proof fn lemma_one_is_unit()
    ensures
        scaled_magnitude(ONE_BITS as nat) == unit(),
        unit() > 0,
{
    lemma2_to64();
    lemma_pow2_adds(23, 126);
    lemma_pow2_pos(149);
    assert(ONE_BITS as nat / (FRACTIONS as nat) == 127);
    assert(ONE_BITS as nat % (FRACTIONS as nat) == 0);
}

/// The bit pattern with exponent field `127 + p` whose mantissa is `n` times
/// `2^(23 - p)` is the integer `n`.
pub proof fn lemma_whole_number(bits: u32, n: nat, p: nat)
    requires
        p <= 23,
        bits < SIGN_BIT,
        bits / FRACTIONS == 127 + p,
        FRACTIONS + bits % FRACTIONS == n * pow2((23 - p) as nat),
    ensures
        (Scalar { bits }).whole(n as int),
        !(Scalar { bits }).negative(),
{
    let s = Scalar { bits };
    let q = pow2((126 + p) as nat);
    let w = pow2((23 - p) as nat);
    lemma_pow2_adds((23 - p) as nat, (126 + p) as nat);
    assert(s.scaled() == (FRACTIONS + bits % FRACTIONS) * q);
    assert((n * w) * q == n * (w * q)) by (nonlinear_arith);
}

/// The whole part of a mantissa at exponent field `e`: the mantissa shifted
/// down by `150 - e` places where `e` is at most 150, and shifted up by
/// `e - 150` places where it is at least 150.
proof fn lemma_whole_part(mant: nat, e: nat)
    requires
        1 <= e,
    ensures
        e <= 150 ==> pow2((150 - e) as nat) > 0 && (mant * pow2((e - 1) as nat)) as int / (
        unit() as int) == mant as int / (pow2((150 - e) as nat) as int),
        e >= 150 ==> (mant * pow2((e - 1) as nat)) as int / (unit() as int) == mant * pow2(
            (e - 150) as nat,
        ),
{
    let c = pow2((e - 1) as nat);
    lemma_pow2_pos((e - 1) as nat);
    lemma_pow2_pos(149);
    if e <= 150 {
        let d = pow2((150 - e) as nat);
        lemma_pow2_adds((e - 1) as nat, (150 - e) as nat);
        lemma_pow2_pos((150 - e) as nat);
        assert(mant * c == c * mant) by (nonlinear_arith);
        lemma_div_multiples_vanish_quotient(c as int, mant as int, d as int);
    }
    if e >= 150 {
        let k = pow2((e - 150) as nat);
        lemma_pow2_adds(149, (e - 150) as nat);
        assert(c == unit() * k);
        assert((mant * (unit() * k)) as int / (unit() as int) == mant * k) by (nonlinear_arith)
            requires
                unit() > 0,
        ;
    }
}

/// The whole part held to a span from zero is not below zero.
pub proof fn lemma_truncated_is_not_negative(s: Scalar, max: nat)
    ensures
        0 <= s.truncated(max) <= max,
{
    lemma_one_is_unit();
    let x = s.scaled();
    let un = unit() as int;
    if x >= 0 {
        assert(x / un >= 0) by (nonlinear_arith)
            requires
                x >= 0,
                un > 0,
        ;
    }
}

/// Powers of two grow with their exponents.
proof fn lemma_pow2_grows(a: nat, b: nat)
    requires
        a <= b,
    ensures
        pow2(a) <= pow2(b),
{
    if a < b {
        lemma_pow2_strictly_increases(a, b);
    }
}

/// A value below `top = 2^p` shifted left by `23 - p` is the value times
/// `2^(23 - p)`, and stays in 32 bits.
proof fn lemma_u32_shl_fits(x: u32, shift: u32, top: u32)
    requires
        shift <= 23,
        top * pow2(shift as nat) == 0x80_0000,
        x < top,
    ensures
        x << shift == x * pow2(shift as nat),
{
    lemma_pow2_pos(shift as nat);
    assert(x * pow2(shift as nat) <= 0x80_0000) by (nonlinear_arith)
        requires
            x < top,
            top * pow2(shift as nat) == 0x80_0000,
            pow2(shift as nat) > 0,
    ;
    lemma_u32_shl_is_mul(x, shift);
}

impl Scalar {
    /// The sign bit is set (also true of `-0`, of `-inf` and of some NaNs).
    pub open spec fn negative(self) -> bool {
        self.bits >= SIGN_BIT
    }

    /// The bit pattern without its sign.
    pub open spec fn magnitude(self) -> nat {
        if self.bits >= SIGN_BIT {
            (self.bits - SIGN_BIT) as nat
        } else {
            self.bits as nat
        }
    }

    /// Not a number.
    pub open spec fn nan(self) -> bool {
        self.magnitude() > INFINITY_BITS
    }

    /// Neither a NaN nor an infinity.
    pub open spec fn finite(self) -> bool {
        self.magnitude() < INFINITY_BITS
    }

    /// Plus or minus zero.
    pub open spec fn zero(self) -> bool {
        self.magnitude() == 0
    }

    /// The number times `2^149`, an integer. Meaningless for a NaN.
    pub open spec fn scaled(self) -> int {
        if self.negative() {
            -(scaled_magnitude(self.magnitude()) as int)
        } else {
            scaled_magnitude(self.magnitude()) as int
        }
    }

    /// `self < other` as IEEE-754 orders them: false where either is a NaN.
    pub open spec fn less(self, other: Scalar) -> bool {
        !self.nan() && !other.nan() && self.scaled() < other.scaled()
    }

    /// `self <= other` as IEEE-754 orders them: false where either is a NaN.
    pub open spec fn at_most(self, other: Scalar) -> bool {
        !self.nan() && !other.nan() && self.scaled() <= other.scaled()
    }

    /// `self == other` as IEEE-754 has it: a NaN equals nothing, `-0` equals `0`.
    pub open spec fn same(self, other: Scalar) -> bool {
        !self.nan() && !other.nan() && self.scaled() == other.scaled()
    }

    /// The number is the integer `n`.
    pub open spec fn whole(self, n: int) -> bool {
        !self.nan() && self.scaled() == n * unit()
    }

    /// The number lies in the span from the integer `lo` to the integer `hi`,
    /// ends included. False for a NaN.
    pub open spec fn within(self, lo: int, hi: int) -> bool {
        !self.nan() && lo * unit() <= self.scaled() <= hi * unit()
    }

    /// The number is less than zero. False for a NaN and for `-0`.
    pub open spec fn below_zero(self) -> bool {
        !self.nan() && self.scaled() < 0
    }

    /// The number is greater than zero. False for a NaN.
    pub open spec fn above_zero(self) -> bool {
        !self.nan() && self.scaled() > 0
    }

    /// The number with its sign bit turned.
    pub open spec fn negated(self) -> Scalar {
        if self.bits >= SIGN_BIT {
            Scalar { bits: (self.bits - SIGN_BIT) as u32 }
        } else {
            Scalar { bits: (self.bits + SIGN_BIT) as u32 }
        }
    }

    /// The integer by which the bit patterns are ordered: the magnitude,
    /// negated where the sign bit is set.
    pub open spec fn key(self) -> int {
        if self.negative() {
            -(self.magnitude() as int)
        } else {
            self.magnitude() as int
        }
    }

    /// Numbers are ordered as their keys are.
    pub proof fn lemma_key_order(self, other: Scalar)
        ensures
            self.key() < other.key() <==> self.scaled() < other.scaled(),
            self.key() == other.key() <==> self.scaled() == other.scaled(),
    {
        lemma_scaled_magnitude_order(self.magnitude(), other.magnitude());
        lemma_scaled_magnitude_order(0, self.magnitude());
        lemma_scaled_magnitude_order(0, other.magnitude());
        assert(scaled_magnitude(0) == 0);
    }

    pub fn from_bits(bits: u32) -> (s: Scalar)
        ensures
            s.bits == bits,
    {
        Scalar { bits }
    }

    pub fn to_bits(self) -> (bits: u32)
        ensures
            bits == self.bits,
    {
        self.bits
    }

    fn magnitude_bits(self) -> (m: u32)
        ensures
            m == self.magnitude(),
    {
        if self.bits >= SIGN_BIT {
            self.bits - SIGN_BIT
        } else {
            self.bits
        }
    }

    fn order_key(self) -> (k: i64)
        ensures
            k == self.key(),
    {
        let m: u32 = self.magnitude_bits();
        if self.bits >= SIGN_BIT {
            -(m as i64)
        } else {
            m as i64
        }
    }

    pub fn is_nan(self) -> (r: bool)
        ensures
            r == self.nan(),
    {
        self.magnitude_bits() > INFINITY_BITS
    }

    pub fn is_finite(self) -> (r: bool)
        ensures
            r == self.finite(),
    {
        self.magnitude_bits() < INFINITY_BITS
    }

    pub fn is_zero(self) -> (r: bool)
        ensures
            r == self.zero(),
            r == (!self.nan() && self.scaled() == 0),
    {
        proof {
            self.lemma_against_zero_and_one();
        }
        self.magnitude_bits() == 0
    }

    pub fn is_sign_negative(self) -> (r: bool)
        ensures
            r == self.negative(),
    {
        self.bits >= SIGN_BIT
    }

    /// `self < other`.
    pub fn below(self, other: Scalar) -> (r: bool)
        ensures
            r == self.less(other),
    {
        proof {
            self.lemma_key_order(other);
        }
        !self.is_nan() && !other.is_nan() && self.order_key() < other.order_key()
    }

    /// `self <= other`.
    pub fn not_above(self, other: Scalar) -> (r: bool)
        ensures
            r == self.at_most(other),
    {
        proof {
            self.lemma_key_order(other);
        }
        !self.is_nan() && !other.is_nan() && self.order_key() <= other.order_key()
    }

    /// `self > other`.
    pub fn above(self, other: Scalar) -> (r: bool)
        ensures
            r == other.less(self),
    {
        other.below(self)
    }

    /// `self >= other`.
    pub fn not_below(self, other: Scalar) -> (r: bool)
        ensures
            r == other.at_most(self),
    {
        other.not_above(self)
    }

    /// `self == other`, as numbers.
    pub fn equals(self, other: Scalar) -> (r: bool)
        ensures
            r == self.same(other),
    {
        proof {
            self.lemma_key_order(other);
        }
        !self.is_nan() && !other.is_nan() && self.order_key() == other.order_key()
    }

    /// The number with its sign turned: exact for every bit pattern.
    pub fn neg(self) -> (r: Scalar)
        ensures
            r == self.negated(),
            r.magnitude() == self.magnitude(),
            r.negative() == !self.negative(),
            r.nan() == self.nan(),
            r.scaled() == -self.scaled(),
    {
        if self.bits >= SIGN_BIT {
            Scalar { bits: self.bits - SIGN_BIT }
        } else {
            Scalar { bits: self.bits + SIGN_BIT }
        }
    }

    /// The whole part of the number, held to the span from zero to `max`: what
    /// a cast to an unsigned integer type with that maximum gives. A NaN and
    /// every negative number give 0.
    pub open spec fn truncated(self, max: nat) -> int {
        if self.nan() || self.scaled() < 0 {
            0
        } else if self.scaled() / (unit() as int) > max {
            max as int
        } else {
            self.scaled() / (unit() as int)
        }
    }

    /// Where a number stands against zero and one, read off its magnitude.
    proof fn lemma_against_zero_and_one(self)
        ensures
            unit() > 0,
            scaled_magnitude(self.magnitude()) == 0 <==> self.magnitude() == 0,
            scaled_magnitude(self.magnitude()) < unit() <==> self.magnitude() < ONE_BITS,
    {
        lemma_one_is_unit();
        lemma_scaled_magnitude_order(0, self.magnitude());
        lemma_scaled_magnitude_order(self.magnitude(), ONE_BITS as nat);
        assert(scaled_magnitude(0) == 0);
    }

    /// The whole part of the number, held to the span from 0 to `max`, the
    /// largest number of `bits` bits; 0 for a NaN.
    fn truncate(self, bits: u32, max: u32) -> (r: u32)
        requires
            1 <= bits <= 32,
            max + 1 == pow2(bits as nat),
        ensures
            r == self.truncated(max as nat),
    {
        let m: u32 = self.magnitude_bits();
        proof {
            self.lemma_against_zero_and_one();
        }
        if m > INFINITY_BITS || self.bits >= SIGN_BIT {
            return 0;
        }
        if m < ONE_BITS {
            assert(self.scaled() / (unit() as int) == 0) by (nonlinear_arith)
                requires
                    0 <= self.scaled() < unit(),
            ;
            return 0;
        }
        let e: u32 = m / FRACTIONS;
        let mant: u32 = FRACTIONS + m % FRACTIONS;
        let ghost whole = self.scaled() / (unit() as int);
        proof {
            lemma2_to64();
            assert(self.scaled() == mant * pow2((e - 1) as nat));
        }
        if e >= 127 + bits {
            proof {
                // The number is at least 2^bits.
                lemma_pow2_adds(23, (e - 1) as nat);
                lemma_pow2_adds(149, bits as nat);
                lemma_pow2_grows((149 + bits) as nat, (e + 22) as nat);
                lemma_pow2_pos((e - 1) as nat);
                lemma_pow2_pos(bits as nat);
                assert(whole >= pow2(bits as nat)) by (nonlinear_arith)
                    requires
                        whole == self.scaled() / (unit() as int),
                        self.scaled() == mant * pow2((e - 1) as nat),
                        mant >= 0x80_0000,
                        0x80_0000 * pow2((e - 1) as nat) >= unit() * pow2(bits as nat),
                        unit() > 0,
                        pow2((e - 1) as nat) > 0,
                        pow2(bits as nat) > 0,
                ;
            }
            return max;
        }
        proof {
            // The number is below 2^(e - 126), which is at most 2^bits.
            lemma_whole_part(mant as nat, e as nat);
            lemma_pow2_grows((e - 126) as nat, bits as nat);
            lemma_pow2_pos((e - 126) as nat);
        }
        if e >= 150 {
            let up: u32 = e - 150;
            proof {
                lemma_pow2_adds(24, up as nat);
                lemma_pow2_pos(up as nat);
                assert(mant * pow2(up as nat) < pow2((e - 126) as nat)) by (nonlinear_arith)
                    requires
                        mant < 0x100_0000,
                        pow2((e - 126) as nat) == 0x100_0000 * pow2(up as nat),
                        pow2(up as nat) > 0,
                ;
                lemma_u32_shl_is_mul(mant, up);
            }
            mant << up
        } else {
            let down: u32 = 150 - e;
            proof {
                lemma_pow2_adds(down as nat, (e - 126) as nat);
                lemma_pow2_pos(down as nat);
                assert(mant as int / (pow2(down as nat) as int) < pow2((e - 126) as nat))
                    by (nonlinear_arith)
                    requires
                        0 <= mant < 0x100_0000,
                        0x100_0000 == pow2(down as nat) * pow2((e - 126) as nat),
                        pow2(down as nat) > 0,
                ;
                lemma_u32_shr_is_div(mant, down);
            }
            mant >> down
        }
    }

    /// What a cast of the number to `u8` gives: the whole part, held to the
    /// span from 0 to 255; 0 for a NaN.
    pub fn to_u8(self) -> (r: u8)
        ensures
            r == self.truncated(255),
    {
        proof {
            lemma2_to64();
        }
        self.truncate(8, 255) as u8
    }

    /// What a cast of the number to `u32` gives: the whole part, held to the
    /// span from 0 to the largest `u32`; 0 for a NaN.
    pub fn to_u32(self) -> (r: u32)
        ensures
            r == self.truncated(0xffff_ffff),
    {
        proof {
            lemma2_to64();
        }
        self.truncate(32, 0xffff_ffff)
    }

    /// The number that `c` is, exactly.
    pub fn from_u8(c: u8) -> (r: Scalar)
        ensures
            !r.nan(),
            !r.negative(),
            r.scaled() == c * unit(),
    {
        proof {
            lemma2_to64();
        }
        if c == 0 {
            assert(0 * unit() == 0) by (nonlinear_arith);
            return Scalar { bits: 0 };
        }
        let mut p: u32 = 0;
        let mut top: u32 = 1;
        while top * 2 <= c as u32
            invariant
                0 <= p <= 7,
                top == pow2(p as nat),
                top <= c,
            decreases 8 - p,
        {
            proof {
                lemma2_to64();
                lemma_pow2_unfold((p + 1) as nat);
                if p >= 7 {
                    assert(pow2(7) == 128);
                }
            }
            top = top * 2;
            p = p + 1;
        }
        let ghost w = pow2((23 - p) as nat);
        proof {
            lemma2_to64();
            lemma_pow2_adds(p as nat, (23 - p) as nat);
            lemma_pow2_pos((23 - p) as nat);
            lemma_pow2_strictly_increases((23 - p) as nat, 24);
            lemma_u32_shl_fits((c as u32 - top) as u32, (23 - p) as u32, top);
        }
        let f: u32 = (c as u32 - top) << (23 - p);
        proof {
            assert(f == (c - top) * w);
            assert(f < FRACTIONS) by (nonlinear_arith)
                requires
                    f == (c - top) * w,
                    c < 2 * top,
                    top * w == 0x80_0000,
                    w > 0,
            ;
        }
        let bits: u32 = (127 + p) * FRACTIONS + f;
        let r = Scalar { bits };
        proof {
            assert(bits as nat / (FRACTIONS as nat) == (127 + p) as nat);
            assert(bits as nat % (FRACTIONS as nat) == f as nat);
            lemma_pow2_adds((23 - p) as nat, (126 + p) as nat);
            let q = pow2((126 + p) as nat);
            assert(r.scaled() == (FRACTIONS + f) * q);
            assert((FRACTIONS + f) * q == c * (w * q)) by (nonlinear_arith)
                requires
                    f == (c - top) * w,
                    top * w == 0x80_0000,
                    FRACTIONS == 0x80_0000,
            ;
        }
        r
    }

    /// `lo <= self && self <= hi`.
    pub fn is_within(self, lo: Scalar, hi: Scalar) -> (r: bool)
        ensures
            r == (lo.at_most(self) && self.at_most(hi)),
    {
        lo.not_above(self) && self.not_above(hi)
    }

    /// `self < 0`.
    pub fn is_below_zero(self) -> (r: bool)
        ensures
            r == self.below_zero(),
    {
        proof {
            self.lemma_against_zero_and_one();
        }
        !self.is_nan() && self.bits > SIGN_BIT
    }

    /// `self > 0`.
    pub fn is_above_zero(self) -> (r: bool)
        ensures
            r == self.above_zero(),
    {
        proof {
            self.lemma_against_zero_and_one();
        }
        !self.is_nan() && self.bits < SIGN_BIT && self.bits > 0
    }
}

} // verus!
