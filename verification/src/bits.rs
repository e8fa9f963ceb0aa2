//! IEEE 754 values as bit patterns.
//!
//! The protocols carry binary32 and binary64 numbers, and the control logic
//! compares, clamps and negates them. All of that is integer work on the bit
//! pattern: apart from the sign bit, a pattern grows with the magnitude it
//! stands for. Arithmetic on the values is left to the callers, which hand the
//! results over as bit patterns.

use vstd::arithmetic::power2::{lemma_pow2_adds, lemma_pow2_pos, lemma_pow2_unfold, pow2};
use vstd::prelude::*;

verus! {

/// A binary32 number, held as its bit pattern.
///
/// `==` compares patterns; [`F32Bits::eq_value`] compares the numbers.
#[derive(Debug, Clone, Copy, PartialEq, Eq, Structural)]
pub struct F32Bits {
    /// Sign (1 bit), biased exponent (8 bits) and fraction (23 bits).
    pub bits: u32,
}

/// The sign bit of a binary32 pattern.
pub const F32_SIGN: u32 = 0x8000_0000;

/// The pattern of positive infinity; larger magnitudes are not numbers.
pub const F32_INFINITY: u32 = 0x7f80_0000;

/// The pattern of 1.0.
pub const F32_ONE: u32 = 0x3f80_0000;

impl F32Bits {
    /// Positive zero.
    pub open spec fn spec_zero() -> F32Bits {
        F32Bits { bits: 0 }
    }

    /// The sign bit is set.
    pub open spec fn is_negative(self) -> bool {
        self.bits >= F32_SIGN
    }

    /// The pattern without its sign bit.
    pub open spec fn magnitude(self) -> int {
        if self.is_negative() {
            self.bits - F32_SIGN
        } else {
            self.bits as int
        }
    }

    /// The pattern stands for no number.
    pub open spec fn nan(self) -> bool {
        self.magnitude() > F32_INFINITY
    }

    /// Place of the number in the order of all numbers; both zeros are at 0.
    pub open spec fn rank(self) -> int {
        if self.is_negative() {
            -self.magnitude()
        } else {
            self.magnitude()
        }
    }

    /// `self < other` as numbers; false if either is not a number.
    pub open spec fn below(self, other: F32Bits) -> bool {
        !self.nan() && !other.nan() && self.rank() < other.rank()
    }

    /// `self <= other` as numbers; false if either is not a number.
    pub open spec fn at_most(self, other: F32Bits) -> bool {
        !self.nan() && !other.nan() && self.rank() <= other.rank()
    }

    /// The same magnitude with the sign bit clear.
    pub open spec fn spec_abs(self) -> F32Bits {
        F32Bits { bits: self.magnitude() as u32 }
    }

    /// The same magnitude with the sign bit flipped.
    pub open spec fn spec_neg(self) -> F32Bits {
        if self.is_negative() {
            F32Bits { bits: (self.bits - F32_SIGN) as u32 }
        } else {
            F32Bits { bits: (self.bits + F32_SIGN) as u32 }
        }
    }

    /// `self` pushed into `[min, max]`; what is not a number stays as it is.
    pub open spec fn spec_clamp(self, min: F32Bits, max: F32Bits) -> F32Bits {
        if self.below(min) {
            min
        } else if max.below(self) {
            max
        } else {
            self
        }
    }

    /// The larger number; where one is not a number, the other.
    pub open spec fn spec_max(self, other: F32Bits) -> F32Bits {
        if self.nan() || self.below(other) {
            other
        } else {
            self
        }
    }

    /// The smaller number; where one is not a number, the other.
    pub open spec fn spec_min(self, other: F32Bits) -> F32Bits {
        if self.nan() || other.below(self) {
            other
        } else {
            self
        }
    }

    /// The number `numerator / 32768`. Zero has no sign.
    pub open spec fn is_q15(self, numerator: int) -> bool {
        &&& !self.nan()
        &&& self.is_negative() <==> numerator < 0
        &&& self.scaled() == numerator * pow2(134)
    }

    /// 1.0 or -1.0 after the sign bit; what is not a number stays as it is.
    pub open spec fn spec_signum(self) -> F32Bits {
        if self.nan() {
            self
        } else if self.is_negative() {
            F32Bits { bits: 0xbf80_0000 }
        } else {
            F32Bits { bits: F32_ONE }
        }
    }

    /// Positive or negative infinity.
    pub open spec fn infinite(self) -> bool {
        self.magnitude() == F32_INFINITY
    }

    /// The number as a multiple of 2^-149, the smallest step of the format.
    pub open spec fn scaled(self) -> int {
        if self.is_negative() {
            -f32_magnitude_scaled(self.magnitude())
        } else {
            f32_magnitude_scaled(self.magnitude())
        }
    }

    /// A number from its bit pattern.
    pub fn from_bits(bits: u32) -> (r: F32Bits)
        ensures
            r == (F32Bits { bits }),
    {
        F32Bits { bits }
    }

    /// Whether the pattern stands for no number.
    pub fn is_nan(self) -> (r: bool)
        ensures
            r == self.nan(),
    {
        self.abs().bits > F32_INFINITY
    }

    /// The same magnitude with the sign bit clear.
    pub fn abs(self) -> (r: F32Bits)
        ensures
            r == self.spec_abs(),
    {
        if self.bits >= F32_SIGN {
            F32Bits { bits: self.bits - F32_SIGN }
        } else {
            self
        }
    }

    /// The same magnitude with the sign bit flipped.
    pub fn neg(self) -> (r: F32Bits)
        ensures
            r == self.spec_neg(),
    {
        if self.bits >= F32_SIGN {
            F32Bits { bits: self.bits - F32_SIGN }
        } else {
            F32Bits { bits: self.bits + F32_SIGN }
        }
    }

    /// `self < other` as numbers; false if either is not a number.
    pub fn lt(self, other: F32Bits) -> (r: bool)
        ensures
            r == self.below(other),
    {
        if self.is_nan() || other.is_nan() {
            false
        } else if self.bits >= F32_SIGN {
            if other.bits >= F32_SIGN {
                self.bits > other.bits
            } else {
                self.bits != F32_SIGN || other.bits != 0
            }
        } else {
            other.bits < F32_SIGN && self.bits < other.bits
        }
    }

    /// `self <= other` as numbers; false if either is not a number.
    pub fn le(self, other: F32Bits) -> (r: bool)
        ensures
            r == self.at_most(other),
    {
        !self.is_nan() && !other.is_nan() && !other.lt(self)
    }

    /// `self == other` as numbers: both zeros are equal, and nothing equals
    /// what is not a number.
    pub fn eq_value(self, other: F32Bits) -> (r: bool)
        ensures
            r == (self.at_most(other) && other.at_most(self)),
    {
        self.le(other) && other.le(self)
    }

    /// `self` pushed into `[min, max]`; what is not a number stays as it is.
    pub fn clamp(self, min: F32Bits, max: F32Bits) -> (r: F32Bits)
        requires
            min.at_most(max),
        ensures
            r == self.spec_clamp(min, max),
    {
        if self.lt(min) {
            min
        } else if max.lt(self) {
            max
        } else {
            self
        }
    }
}

impl F32Bits {
    /// The larger number; where one is not a number, the other.
    pub fn max(self, other: F32Bits) -> (r: F32Bits)
        ensures
            r == self.spec_max(other),
    {
        if self.is_nan() || self.lt(other) {
            other
        } else {
            self
        }
    }

    /// The smaller number; where one is not a number, the other.
    pub fn min(self, other: F32Bits) -> (r: F32Bits)
        ensures
            r == self.spec_min(other),
    {
        if self.is_nan() || other.lt(self) {
            other
        } else {
            self
        }
    }

    /// 1.0 or -1.0 after the sign bit; what is not a number stays as it is.
    pub fn signum(self) -> (r: F32Bits)
        ensures
            r == self.spec_signum(),
    {
        if self.is_nan() {
            self
        } else if self.bits >= F32_SIGN {
            F32Bits { bits: 0xbf80_0000 }
        } else {
            F32Bits { bits: F32_ONE }
        }
    }

    /// The number `numerator / 32768`, which the format holds exactly.
    pub fn from_q15(numerator: i32) -> (r: F32Bits)
        requires
            -32768 <= numerator <= 32768,
        ensures
            r.is_q15(numerator as int),
    {
        let size: u32 = if numerator < 0 { (-numerator) as u32 } else { numerator as u32 };
        if size == 0 {
            proof {
                assert(f32_magnitude_scaled(0) == 0 * pow2(0));
            }
            return F32Bits { bits: 0 };
        }
        // Normalise: double until the leading one reaches the implicit bit.
        let mut significand: u32 = size;
        let mut exponent: u32 = 135;
        proof {
            lemma_pow2_pos(0);
            assert(significand * pow2((135 - exponent) as nat) == size * pow2(0));
            vstd::arithmetic::power2::lemma2_to64();
        }
        while significand < 0x80_0000
            invariant
                0 < significand < 0x100_0000,
                0 < size <= 32768,
                exponent <= 135,
                significand == size * pow2((135 - exponent) as nat),
            decreases 0x100_0000 - significand,
        {
            proof {
                lemma_pow2_unfold((136 - exponent) as nat);
                assert(size * (2 * pow2((135 - exponent) as nat)) == 2 * (size * pow2(
                    (135 - exponent) as nat,
                ))) by (nonlinear_arith);
                lemma_doublings_bounded(size as int, (135 - exponent) as nat);
            }
            significand = significand * 2;
            exponent = exponent - 1;
        }
        proof {
            lemma_doublings_bounded_total(size as int, (135 - exponent) as nat);
            lemma_pow2_adds((135 - exponent) as nat, (exponent - 1) as nat);
            assert(size * pow2((135 - exponent) as nat) * pow2((exponent - 1) as nat) == size
                * pow2(134)) by {
                assert(size * pow2((135 - exponent) as nat) * pow2((exponent - 1) as nat) == size * (
                pow2((135 - exponent) as nat) * pow2((exponent - 1) as nat))) by (nonlinear_arith);
            }
            let m = exponent * 0x80_0000 + (significand - 0x80_0000);
            assert(m / 0x80_0000 == exponent);
            assert(m % 0x80_0000 == significand - 0x80_0000);
        }
        let magnitude: u32 = exponent * 0x80_0000 + (significand - 0x80_0000);
        if numerator < 0 {
            proof {
                assert((-(size as int)) * pow2(134) == -(size * pow2(134))) by (nonlinear_arith);
            }
            F32Bits { bits: magnitude + F32_SIGN }
        } else {
            F32Bits { bits: magnitude }
        }
    }
}

/// A binary64 number, held as its bit pattern.
///
/// `==` compares patterns, not numbers.
#[derive(Debug, Clone, Copy, PartialEq, Eq, Structural)]
pub struct F64Bits {
    /// Sign (1 bit), biased exponent (11 bits) and fraction (52 bits).
    pub bits: u64,
}

/// The sign bit of a binary64 pattern.
pub const F64_SIGN: u64 = 0x8000_0000_0000_0000;

/// The pattern of positive infinity; larger magnitudes are not numbers.
pub const F64_INFINITY: u64 = 0x7ff0_0000_0000_0000;

impl F64Bits {
    /// Positive zero.
    pub open spec fn spec_zero() -> F64Bits {
        F64Bits { bits: 0 }
    }

    /// The sign bit is set.
    pub open spec fn is_negative(self) -> bool {
        self.bits >= F64_SIGN
    }

    /// The pattern without its sign bit.
    pub open spec fn magnitude(self) -> int {
        if self.is_negative() {
            self.bits - F64_SIGN
        } else {
            self.bits as int
        }
    }

    /// The pattern stands for no number.
    pub open spec fn nan(self) -> bool {
        self.magnitude() > F64_INFINITY
    }

    /// Place of the number in the order of all numbers; both zeros are at 0.
    pub open spec fn rank(self) -> int {
        if self.is_negative() {
            -self.magnitude()
        } else {
            self.magnitude()
        }
    }

    /// `self < other` as numbers; false if either is not a number.
    pub open spec fn below(self, other: F64Bits) -> bool {
        !self.nan() && !other.nan() && self.rank() < other.rank()
    }

    /// `self <= other` as numbers; false if either is not a number.
    pub open spec fn at_most(self, other: F64Bits) -> bool {
        !self.nan() && !other.nan() && self.rank() <= other.rank()
    }

    /// The same magnitude with the sign bit clear.
    pub open spec fn spec_abs(self) -> F64Bits {
        F64Bits { bits: self.magnitude() as u64 }
    }

    /// The larger number; where one is not a number, the other.
    pub open spec fn spec_max(self, other: F64Bits) -> F64Bits {
        if self.nan() || self.below(other) {
            other
        } else {
            self
        }
    }

    /// The number as a multiple of 2^-1074, the smallest step of the format.
    pub open spec fn scaled(self) -> int {
        if self.is_negative() {
            -f64_magnitude_scaled(self.magnitude())
        } else {
            f64_magnitude_scaled(self.magnitude())
        }
    }

    /// A number from its bit pattern.
    pub fn from_bits(bits: u64) -> (r: F64Bits)
        ensures
            r == (F64Bits { bits }),
    {
        F64Bits { bits }
    }

    /// Whether the pattern stands for no number.
    pub fn is_nan(self) -> (r: bool)
        ensures
            r == self.nan(),
    {
        self.abs().bits > F64_INFINITY
    }

    /// The same magnitude with the sign bit clear.
    pub fn abs(self) -> (r: F64Bits)
        ensures
            r == self.spec_abs(),
    {
        if self.bits >= F64_SIGN {
            F64Bits { bits: self.bits - F64_SIGN }
        } else {
            self
        }
    }

    /// `self < other` as numbers; false if either is not a number.
    pub fn lt(self, other: F64Bits) -> (r: bool)
        ensures
            r == self.below(other),
    {
        if self.is_nan() || other.is_nan() {
            false
        } else if self.bits >= F64_SIGN {
            if other.bits >= F64_SIGN {
                self.bits > other.bits
            } else {
                self.bits != F64_SIGN || other.bits != 0
            }
        } else {
            other.bits < F64_SIGN && self.bits < other.bits
        }
    }

    /// `self <= other` as numbers; false if either is not a number.
    pub fn le(self, other: F64Bits) -> (r: bool)
        ensures
            r == self.at_most(other),
    {
        !self.is_nan() && !other.is_nan() && !other.lt(self)
    }

    /// The larger number; where one is not a number, the other.
    pub fn max(self, other: F64Bits) -> (r: F64Bits)
        ensures
            r == self.spec_max(other),
    {
        if self.is_nan() || self.lt(other) {
            other
        } else {
            self
        }
    }
}

impl Default for F32Bits {
    /// Positive zero.
    fn default() -> (r: Self)
        ensures
            r == F32Bits::spec_zero(),
    {
        F32Bits { bits: 0 }
    }
}

impl Default for F64Bits {
    /// Positive zero.
    fn default() -> (r: Self)
        ensures
            r == F64Bits::spec_zero(),
    {
        F64Bits { bits: 0 }
    }
}

/// A positive integer doubled `n` times and still under 2^23 was doubled
/// less than 23 times.
proof fn lemma_doublings_bounded(size: int, n: nat)
    requires
        0 < size,
        size * pow2(n) < 0x80_0000,
    ensures
        n < 23,
{
    vstd::arithmetic::power2::lemma2_to64();
    if n >= 23 {
        lemma_pow2_adds(23, (n - 23) as nat);
        lemma_pow2_pos((n - 23) as nat);
        assert(size * (0x80_0000 * pow2((n - 23) as nat)) >= 0x80_0000) by (nonlinear_arith)
            requires
                size >= 1,
                pow2((n - 23) as nat) >= 1,
        ;
    }
}

/// A positive integer doubled `n` times and under 2^24 was doubled at most 23
/// times.
proof fn lemma_doublings_bounded_total(size: int, n: nat)
    requires
        0 < size,
        size * pow2(n) < 0x100_0000,
    ensures
        n <= 23,
{
    vstd::arithmetic::power2::lemma2_to64();
    if n >= 24 {
        lemma_pow2_adds(24, (n - 24) as nat);
        lemma_pow2_pos((n - 24) as nat);
        assert(size * (0x100_0000 * pow2((n - 24) as nat)) >= 0x100_0000) by (nonlinear_arith)
            requires
                size >= 1,
                pow2((n - 24) as nat) >= 1,
        ;
    }
}

/// A binary32 magnitude (a pattern without sign bit) as a multiple of 2^-149.
pub open spec fn f32_magnitude_scaled(magnitude: int) -> int {
    let exponent = magnitude / 0x80_0000;
    let fraction = magnitude % 0x80_0000;
    if exponent == 0 {
        fraction * pow2(0)
    } else {
        (0x80_0000 + fraction) * pow2((exponent - 1) as nat)
    }
}

/// Larger patterns stand for larger magnitudes.
proof fn lemma_f32_magnitude_increases(a: int, b: int)
    requires
        0 <= a < b,
    ensures
        f32_magnitude_scaled(a) < f32_magnitude_scaled(b),
    decreases b - a,
{
    if a + 1 < b {
        lemma_f32_magnitude_increases(a, b - 1);
        lemma_f32_magnitude_increases(b - 1, b);
    } else {
        let e = a / 0x80_0000;
        let f = a % 0x80_0000;
        vstd::arithmetic::power2::lemma2_to64();
        if f + 1 < 0x80_0000 {
            assert(b / 0x80_0000 == e && b % 0x80_0000 == f + 1);
            if e > 0 {
                let p = pow2((e - 1) as nat);
                lemma_pow2_pos((e - 1) as nat);
                assert((0x80_0000 + f) * p < (0x80_0000 + f + 1) * p) by (nonlinear_arith)
                    requires
                        p > 0,
                ;
            }
        } else {
            assert(b / 0x80_0000 == e + 1 && b % 0x80_0000 == 0);
            if e > 0 {
                let p = pow2((e - 1) as nat);
                lemma_pow2_pos((e - 1) as nat);
                lemma_pow2_unfold(e as nat);
                assert((0x80_0000 + f) * p < 0x80_0000 * (2 * p)) by (nonlinear_arith)
                    requires
                        p > 0,
                        f < 0x80_0000,
                ;
            }
        }
    }
}

/// The order on bit patterns is the order of the numbers they stand for.
pub proof fn f32_order_is_numeric(a: F32Bits, b: F32Bits)
    requires
        !a.nan(),
        !b.nan(),
    ensures
        a.below(b) <==> a.scaled() < b.scaled(),
        a.at_most(b) <==> a.scaled() <= b.scaled(),
{
    let x = a.magnitude();
    let y = b.magnitude();
    assert(f32_magnitude_scaled(0) == 0 * pow2(0));
    if x > 0 {
        lemma_f32_magnitude_increases(0, x);
    }
    if y > 0 {
        lemma_f32_magnitude_increases(0, y);
    }
    if x < y {
        lemma_f32_magnitude_increases(x, y);
    }
    if y < x {
        lemma_f32_magnitude_increases(y, x);
    }
}

/// A binary64 magnitude (a pattern without sign bit) as a multiple of 2^-1074.
pub open spec fn f64_magnitude_scaled(magnitude: int) -> int {
    let exponent = magnitude / 0x10_0000_0000_0000;
    let fraction = magnitude % 0x10_0000_0000_0000;
    if exponent == 0 {
        fraction * pow2(0)
    } else {
        (0x10_0000_0000_0000 + fraction) * pow2((exponent - 1) as nat)
    }
}

/// Larger patterns stand for larger magnitudes.
proof fn lemma_f64_magnitude_increases(a: int, b: int)
    requires
        0 <= a < b,
    ensures
        f64_magnitude_scaled(a) < f64_magnitude_scaled(b),
    decreases b - a,
{
    if a + 1 < b {
        lemma_f64_magnitude_increases(a, b - 1);
        lemma_f64_magnitude_increases(b - 1, b);
    } else {
        let e = a / 0x10_0000_0000_0000;
        let f = a % 0x10_0000_0000_0000;
        vstd::arithmetic::power2::lemma2_to64();
        if f + 1 < 0x10_0000_0000_0000 {
            assert(b / 0x10_0000_0000_0000 == e && b % 0x10_0000_0000_0000 == f + 1);
            if e > 0 {
                let p = pow2((e - 1) as nat);
                lemma_pow2_pos((e - 1) as nat);
                assert((0x10_0000_0000_0000 + f) * p < (0x10_0000_0000_0000 + f + 1) * p)
                    by (nonlinear_arith)
                    requires
                        p > 0,
                ;
            }
        } else {
            assert(b / 0x10_0000_0000_0000 == e + 1 && b % 0x10_0000_0000_0000 == 0);
            if e > 0 {
                let p = pow2((e - 1) as nat);
                lemma_pow2_pos((e - 1) as nat);
                lemma_pow2_unfold(e as nat);
                assert((0x10_0000_0000_0000 + f) * p < 0x10_0000_0000_0000 * (2 * p))
                    by (nonlinear_arith)
                    requires
                        p > 0,
                        f < 0x10_0000_0000_0000,
                ;
            }
        }
    }
}

/// The order on bit patterns is the order of the numbers they stand for.
pub proof fn f64_order_is_numeric(a: F64Bits, b: F64Bits)
    requires
        !a.nan(),
        !b.nan(),
    ensures
        a.below(b) <==> a.scaled() < b.scaled(),
        a.at_most(b) <==> a.scaled() <= b.scaled(),
{
    let x = a.magnitude();
    let y = b.magnitude();
    assert(f64_magnitude_scaled(0) == 0 * pow2(0));
    if x > 0 {
        lemma_f64_magnitude_increases(0, x);
    }
    if y > 0 {
        lemma_f64_magnitude_increases(0, y);
    }
    if x < y {
        lemma_f64_magnitude_increases(x, y);
    }
    if y < x {
        lemma_f64_magnitude_increases(y, x);
    }
}

/// Clamping a number leaves a number between the bounds, and leaves alone what
/// was between them already.
pub proof fn f32_clamp_in_range(x: F32Bits, min: F32Bits, max: F32Bits)
    requires
        !x.nan(),
        min.at_most(max),
    ensures
        min.at_most(x.spec_clamp(min, max)),
        x.spec_clamp(min, max).at_most(max),
        min.at_most(x) && x.at_most(max) ==> x.spec_clamp(min, max) == x,
{
}

/// `wide` is the same number as `narrow`. The steps of the two formats differ by
/// 2^925.
pub open spec fn same_number(narrow: F32Bits, wide: F64Bits) -> bool {
    &&& wide.nan() == narrow.nan()
    &&& !narrow.nan() ==> wide.is_negative() == narrow.is_negative()
    &&& narrow.infinite() ==> wide.magnitude() == F64_INFINITY
    &&& !narrow.nan() && !narrow.infinite() ==> wide.magnitude() < F64_INFINITY && wide.scaled()
        == narrow.scaled() * pow2(925)
}

/// The magnitude of a binary64 pattern from its exponent and a significand of 24
/// bits.
proof fn lemma_f64_scaled(exponent: int, significand: int, magnitude: int)
    requires
        1 <= exponent < 0x7FF,
        0x80_0000 <= significand < 0x100_0000,
        magnitude == exponent * 0x10_0000_0000_0000 + (significand - 0x80_0000) * 0x2000_0000,
    ensures
        0 < magnitude < F64_INFINITY,
        f64_magnitude_scaled(magnitude) == significand * pow2((exponent + 28) as nat),
{
    assert(magnitude / 0x10_0000_0000_0000 == exponent);
    assert(magnitude % 0x10_0000_0000_0000 == (significand - 0x80_0000) * 0x2000_0000);
    vstd::arithmetic::power2::lemma2_to64();
    lemma_pow2_adds(29, (exponent - 1) as nat);
    let p = pow2((exponent - 1) as nat);
    assert((0x10_0000_0000_0000 + (significand - 0x80_0000) * 0x2000_0000) * p == significand * (
    0x2000_0000 * p)) by (nonlinear_arith);
}

/// The same number in binary64. What is not a number stays so.
pub fn widen(narrow: F32Bits) -> (wide: F64Bits)
    ensures
        same_number(narrow, wide),
{
    let negative: bool = narrow.bits >= F32_SIGN;
    let magnitude: u32 = narrow.abs().bits;
    let sign: u64 = if negative { F64_SIGN } else { 0 };
    if magnitude >= F32_INFINITY {
        return F64Bits {
            bits: sign + F64_INFINITY + (magnitude - F32_INFINITY) as u64 * 0x2000_0000,
        };
    }
    if magnitude == 0 {
        proof {
            assert(f32_magnitude_scaled(0) == 0 * pow2(0));
            assert(f64_magnitude_scaled(0) == 0 * pow2(0));
            assert(0 * pow2(925) == 0) by (nonlinear_arith);
        }
        return F64Bits { bits: sign };
    }
    let field: u32 = magnitude / 0x80_0000;
    let fraction: u32 = magnitude % 0x80_0000;
    let mut significand: u32 = if field == 0 { fraction } else { 0x80_0000 + fraction };
    let mut exponent: u64 = if field == 0 { 897 } else { field as u64 + 896 };
    let ghost first = exponent;
    let ghost start = significand;
    proof {
        lemma_pow2_pos(0);
        vstd::arithmetic::power2::lemma2_to64();
        assert(significand == start * pow2(0));
    }
    // Normalise: double until the leading one reaches the implicit bit.
    while significand < 0x80_0000
        invariant
            0 < start,
            0 < significand < 0x100_0000,
            exponent <= first,
            first <= 1151,
            significand < 0x80_0000 ==> first == 897,
            first - exponent <= 23,
            first >= 897,
            significand == start * pow2((first - exponent) as nat),
        decreases 0x100_0000 - significand,
    {
        proof {
            let n = (first - exponent) as nat;
            lemma_pow2_unfold((n + 1) as nat);
            assert(start * (2 * pow2(n)) == 2 * (start * pow2(n))) by (nonlinear_arith);
            if n >= 23 {
                vstd::arithmetic::power2::lemma2_to64();
                assert(start * pow2(23) >= 0x80_0000) by (nonlinear_arith)
                    requires
                        start >= 1,
                        pow2(23) == 0x80_0000,
                ;
            }
        }
        significand = significand * 2;
        exponent = exponent - 1;
    }
    let wide: u64 = exponent * 0x10_0000_0000_0000 + (significand - 0x80_0000) as u64 * 0x2000_0000;
    proof {
        let n = (first - exponent) as nat;
        lemma_f64_scaled(exponent as int, significand as int, wide as int);
        // The exponent of the first significand, in steps of 2^-149.
        let e = (first - 897) as nat;
        assert(f32_magnitude_scaled(magnitude as int) == start * pow2(e));
        lemma_pow2_adds(n, (exponent + 28) as nat);
        lemma_pow2_adds(e, 925);
        assert(n + exponent + 28 == e + 925);
        let p = pow2(n);
        let q = pow2((exponent + 28) as nat);
        let x = pow2(e);
        let y = pow2(925);
        assert((start * p) * q == start * (p * q)) by (nonlinear_arith);
        assert((start * x) * y == start * (x * y)) by (nonlinear_arith);
        assert((-(start * x)) * y == -((start * x) * y)) by (nonlinear_arith);
    }
    F64Bits { bits: sign + wide }
}

/// At most one pattern stands for a multiple of 1/32768.
pub proof fn q15_unique(a: F32Bits, b: F32Bits, numerator: int)
    requires
        a.is_q15(numerator),
        b.is_q15(numerator),
    ensures
        a == b,
{
    f32_order_is_numeric(a, b);
    f32_order_is_numeric(b, a);
}

/// Multiples of 1/32768 from -32768 up to 32768 lie between -1 and 1.
pub proof fn q15_in_unit(a: F32Bits, numerator: int)
    requires
        a.is_q15(numerator),
        -32768 <= numerator <= 32768,
    ensures
        a.spec_abs().at_most(F32Bits { bits: F32_ONE }),
        (F32Bits { bits: 0xbf80_0000 }).at_most(a),
        a.at_most(F32Bits { bits: F32_ONE }),
{
    let one = F32Bits { bits: F32_ONE };
    let minus_one = F32Bits { bits: 0xbf80_0000 };
    let p = pow2(134) as int;
    lemma_pow2_pos(134);
    lemma_pow2_adds(8, 126);
    vstd::arithmetic::power2::lemma2_to64();
    assert(one.magnitude() / 0x80_0000 == 127 && one.magnitude() % 0x80_0000 == 0);
    assert(minus_one.magnitude() == one.magnitude());
    assert(0x80_0000 * pow2(126) == 32768 * (0x100 * pow2(126))) by (nonlinear_arith);
    assert(one.scaled() == 32768 * p);
    assert(minus_one.scaled() == -32768 * p);
    assert(-32768 * p <= numerator * p <= 32768 * p) by (nonlinear_arith)
        requires
            -32768 <= numerator <= 32768,
            p > 0,
    ;
    f32_order_is_numeric(a, one);
    f32_order_is_numeric(minus_one, a);
}

/// Negation turns a number into its opposite, and twice is back again.
pub proof fn negation_is_numeric(x: F32Bits)
    ensures
        x.spec_neg().scaled() == -x.scaled(),
        x.spec_neg().rank() == -x.rank(),
        x.spec_neg().is_negative() == !x.is_negative(),
        x.spec_neg().spec_neg() == x,
        x.spec_neg().nan() == x.nan(),
{
}

/// The magnitude of a number is the number or its opposite, whichever is not negative.
pub proof fn magnitude_is_numeric(x: F32Bits, y: F64Bits)
    ensures
        x.spec_abs().scaled() == if x.is_negative() { -x.scaled() } else { x.scaled() },
        x.spec_abs() == x || x.spec_abs() == x.spec_neg(),
        !x.spec_abs().is_negative(),
        x.spec_abs().rank() >= 0,
        x.spec_abs().nan() == x.nan(),
        y.spec_abs().scaled() == if y.is_negative() { -y.scaled() } else { y.scaled() },
        !y.spec_abs().is_negative(),
        y.spec_abs().rank() >= 0,
        y.spec_abs().nan() == y.nan(),
{
}

/// The larger of two numbers is one of them and not below either, and the smaller one is
/// not above either. What is not a number gives way to a number.
pub proof fn larger_and_smaller(a: F32Bits, b: F32Bits)
    ensures
        a.spec_max(b) == a || a.spec_max(b) == b,
        a.spec_min(b) == a || a.spec_min(b) == b,
        !a.nan() && !b.nan() ==> {
            &&& a.at_most(a.spec_max(b)) && b.at_most(a.spec_max(b))
            &&& a.spec_min(b).at_most(a) && a.spec_min(b).at_most(b)
        },
        a.nan() ==> a.spec_max(b) == b && a.spec_min(b) == b,
        b.nan() && !a.nan() ==> a.spec_max(b) == a && a.spec_min(b) == a,
{
}

/// The same of binary64 numbers.
pub proof fn larger_of_two(a: F64Bits, b: F64Bits)
    ensures
        a.spec_max(b) == a || a.spec_max(b) == b,
        !a.nan() && !b.nan() ==> a.at_most(a.spec_max(b)) && b.at_most(a.spec_max(b)),
        a.nan() ==> a.spec_max(b) == b,
        b.nan() && !a.nan() ==> a.spec_max(b) == a,
{
}

/// Clamping gives the number between the bounds that is nearest: the number itself
/// between them, and otherwise the bound on its own side.
pub proof fn clamp_is_nearest(x: F32Bits, min: F32Bits, max: F32Bits)
    requires
        !x.nan(),
        min.at_most(max),
    ensures
        x.spec_clamp(min, max) == x || x.spec_clamp(min, max) == min || x.spec_clamp(min, max)
            == max,
        x.rank() < min.rank() ==> x.spec_clamp(min, max) == min,
        x.rank() > max.rank() ==> x.spec_clamp(min, max) == max,
        min.rank() <= x.rank() <= max.rank() ==> x.spec_clamp(min, max) == x,
{
}

/// The sign of a number is one with that sign.
pub proof fn sign_is_one(x: F32Bits)
    requires
        !x.nan(),
    ensures
        x.spec_signum().spec_abs() == (F32Bits { bits: F32_ONE }),
        x.spec_signum().is_negative() == x.is_negative(),
        !x.spec_signum().nan(),
{
}

/// One is the number one: 2^149 of the smallest steps.
pub proof fn one_is_one()
    ensures
        (F32Bits { bits: F32_ONE }).scaled() == pow2(149),
{
    lemma_pow2_adds(23, 126);
    vstd::arithmetic::power2::lemma2_to64();
    assert(0x3f80_0000int / 0x80_0000 == 127);
    assert(0x3f80_0000int % 0x80_0000 == 0);
}

} // verus!
