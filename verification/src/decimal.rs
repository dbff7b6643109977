//! Exact decimal arithmetic for money amounts.
//!
//! An amount is a 64-bit integer mantissa together with a decimal scale:
//! the value is `mantissa / 10^scale`. All arithmetic is exact: an
//! operation whose result cannot be represented returns `None` instead of
//! rounding, so totals are never computed in binary floating point and
//! never silently lose precision.

use vstd::prelude::*;

verus! {

/// Largest scale a `Decimal` may carry. At the common scale the
/// mantissa still spans about nine billion whole units, ample for
/// money amounts.
pub const MAX_SCALE: u32 = 9;

/// `10^e` as a mathematical integer.
pub open spec fn pow10(e: nat) -> int
    decreases e,
{
    if e == 0 {
        1
    } else {
        10 * pow10((e - 1) as nat)
    }
}

/// A decimal number `mantissa / 10^scale`, kept exact.
#[derive(Clone, Copy, Debug, PartialEq, Eq, Structural)]
pub struct Decimal {
    pub mantissa: i64,
    pub scale: u32,
}

impl Decimal {
    /// A `Decimal` is well formed when its scale is within range.
    pub open spec fn inv(&self) -> bool {
        self.scale <= MAX_SCALE
    }

    /// The value of the number in units of `10^-9`: a common scale on
    /// which every well-formed `Decimal` can be compared exactly.
    pub open spec fn units(&self) -> int {
        self.mantissa * pow10((MAX_SCALE - self.scale) as nat)
    }

    /// The exact zero.
    pub fn zero() -> (r: Decimal)
        ensures
            r.inv(),
            r.units() == 0,
            r.mantissa == 0,
            r.scale == 0,
    {
        Decimal { mantissa: 0, scale: 0 }
    }

    /// Builds a decimal from a mantissa and a scale; rejects scales that
    /// are out of range.
    pub fn new(mantissa: i64, scale: u32) -> (r: Option<Decimal>)
        ensures
            r is Some <==> scale <= MAX_SCALE,
            r is Some ==> r->0 == (Decimal { mantissa, scale }) && r->0.inv(),
    {
        if scale <= MAX_SCALE {
            Some(Decimal { mantissa, scale })
        } else {
            None
        }
    }

    /// Whether the number is non-negative.
    pub fn is_nonneg(&self) -> (r: bool)
        requires
            self.inv(),
        ensures
            r <==> self.units() >= 0,
            r <==> self.mantissa >= 0,
    {
        proof {
            lemma_pow10_pos((MAX_SCALE - self.scale) as nat);
            lemma_mul_sign(self.mantissa as int, pow10((MAX_SCALE - self.scale) as nat));
        }
        self.mantissa >= 0
    }

    /// Exact value equality, across different scales.
    pub fn eq_value(&self, other: &Decimal) -> (r: bool)
        requires
            self.inv(),
            other.inv(),
        ensures
            r <==> self.units() == other.units(),
    {
        let a = widen_to_max_scale(self);
        let b = widen_to_max_scale(other);
        a == b
    }

    /// Exact addition; `None` exactly when the sum does not fit.
    ///
    /// The sum is carried at the common scale, on which a unit is
    /// `10^-9`, so it fits exactly when it lies in the mantissa range.
    pub fn checked_add(&self, other: &Decimal) -> (r: Option<Decimal>)
        requires
            self.inv(),
            other.inv(),
        ensures
            r is Some <==> i64::MIN <= self.units() + other.units() <= i64::MAX,
            r is Some ==> r->0.inv() && r->0.units() == self.units() + other.units(),
    {
        let a = widen_to_max_scale(self);
        let b = widen_to_max_scale(other);
        let s = a + b;
        if s < i64::MIN as i128 || s > i64::MAX as i128 {
            None
        } else {
            let out = Decimal { mantissa: s as i64, scale: MAX_SCALE };
            assert(out.units() == out.mantissa);
            Some(out)
        }
    }

    /// Exact multiplication; `None` exactly when the product does not fit
    /// within the mantissa and scale ranges.
    pub fn checked_mul(&self, other: &Decimal) -> (r: Option<Decimal>)
        requires
            self.inv(),
            other.inv(),
        ensures
            r is Some <==> self.scale + other.scale <= MAX_SCALE
                && i64::MIN <= self.mantissa * other.mantissa <= i64::MAX,
            r is Some ==> r->0 == (Decimal {
                mantissa: (self.mantissa * other.mantissa) as i64,
                scale: (self.scale + other.scale) as u32,
            }),
            r is Some ==> r->0.inv() && r->0.units() * pow10(MAX_SCALE as nat)
                == self.units() * other.units(),
    {
        if self.scale + other.scale > MAX_SCALE {
            return None;
        }
        proof {
            lemma_i64_product_fits(self.mantissa as int, other.mantissa as int);
        }
        let m: i128 = (self.mantissa as i128) * (other.mantissa as i128);
        if m < i64::MIN as i128 || m > i64::MAX as i128 {
            None
        } else {
            let out = Decimal { mantissa: m as i64, scale: self.scale + other.scale };
            proof {
                lemma_units_of_product(*self, *other, out);
            }
            Some(out)
        }
    }
}

/// A unit price and a quantity whose exact product is representable:
/// both non-negative and well formed, the scales within range, the
/// mantissa product within the mantissa type.
pub open spec fn product_fits(a: Decimal, b: Decimal) -> bool {
    &&& a.inv()
    &&& b.inv()
    &&& a.mantissa >= 0
    &&& b.mantissa >= 0
    &&& a.scale + b.scale <= MAX_SCALE
    &&& a.mantissa * b.mantissa <= i64::MAX
}

/// The mantissa rescaled to `MAX_SCALE`, which equals `units()` exactly.
fn widen_to_max_scale(d: &Decimal) -> (r: i128)
    requires
        d.inv(),
    ensures
        r == d.units(),
        -9223372036854775808000000000 <= r <= 9223372036854775807000000000,
{
    let f = pow10_i128(MAX_SCALE - d.scale);
    proof {
        lemma_pow10_bounds((MAX_SCALE - d.scale) as nat);
        lemma_mul_abs_bound(d.mantissa as int, pow10((MAX_SCALE - d.scale) as nat));
    }
    (d.mantissa as i128) * f
}

/// `10^e` as an executable 128-bit integer.
pub fn pow10_i128(e: u32) -> (r: i128)
    requires
        e <= MAX_SCALE,
    ensures
        r == pow10(e as nat),
{
    let mut r: i128 = 1;
    let mut i: u32 = 0;
    while i < e
        invariant
            i <= e <= MAX_SCALE,
            r == pow10(i as nat),
        decreases e - i,
    {
        proof {
            lemma_pow10_bounds(i as nat);
            lemma_pow10_bounds((i + 1) as nat);
        }
        r = r * 10;
        i = i + 1;
    }
    r
}

/// `10^e` is positive.
pub proof fn lemma_pow10_pos(e: nat)
    ensures
        pow10(e) >= 1,
    decreases e,
{
    if e > 0 {
        lemma_pow10_pos((e - 1) as nat);
    }
}

/// The largest power an executable computation can meet.
pub proof fn lemma_pow10_value()
    ensures
        pow10(MAX_SCALE as nat) == 1000000000,
{
    assert(pow10(9) == 1000000000) by {
        reveal_with_fuel(pow10, 10);
    }
}

/// `10^e` never decreases as the exponent grows.
pub proof fn lemma_pow10_le(a: nat, b: nat)
    requires
        a <= b,
    ensures
        pow10(a) <= pow10(b),
    decreases b,
{
    if a < b {
        lemma_pow10_le(a, (b - 1) as nat);
        lemma_pow10_pos((b - 1) as nat);
    }
}

/// Bounds for the powers an executable computation can meet.
pub proof fn lemma_pow10_bounds(e: nat)
    requires
        e <= MAX_SCALE,
    ensures
        1 <= pow10(e) <= 1000000000,
{
    lemma_pow10_pos(e);
    lemma_pow10_le(e, MAX_SCALE as nat);
    lemma_pow10_value();
}

/// Splitting an exponent splits the power into a product.
pub proof fn lemma_pow10_add(a: nat, b: nat)
    ensures
        pow10(a + b) == pow10(a) * pow10(b),
    decreases a,
{
    if a == 0 {
    } else {
        lemma_pow10_add((a - 1) as nat, b);
        assert(pow10(a + b) == 10 * pow10((a - 1 + b) as nat));
        assert(10 * (pow10((a - 1) as nat) * pow10(b)) == (10 * pow10((a - 1) as nat)) * pow10(b))
            by (nonlinear_arith);
    }
}

/// The sign of a product with a positive factor follows the other factor.
proof fn lemma_mul_sign(m: int, p: int)
    requires
        p >= 1,
    ensures
        m >= 0 <==> m * p >= 0,
{
    assert(m >= 0 <==> m * p >= 0) by (nonlinear_arith)
        requires
            p >= 1,
    ;
}

/// A product's magnitude is bounded by the product of the magnitudes.
proof fn lemma_mul_abs_bound(m: int, p: int)
    requires
        -0x8000_0000_0000_0000 <= m <= 0x7fff_ffff_ffff_ffff,
        1 <= p <= 1000000000,
    ensures
        -9223372036854775808000000000 <= m * p <= 9223372036854775807000000000,
{
    assert(-9223372036854775808000000000 <= m * p <= 9223372036854775807000000000) by (nonlinear_arith)
        requires
            -0x8000_0000_0000_0000 <= m <= 0x7fff_ffff_ffff_ffff,
            1 <= p <= 1000000000,
    ;
}

/// The product of two 64-bit mantissas fits in 128 bits.
proof fn lemma_i64_product_fits(a: int, b: int)
    requires
        -0x8000_0000_0000_0000 <= a <= 0x7fff_ffff_ffff_ffff,
        -0x8000_0000_0000_0000 <= b <= 0x7fff_ffff_ffff_ffff,
    ensures
        -0x8000_0000_0000_0000_0000_0000_0000_0000 <= a * b
            <= 0x7fff_ffff_ffff_ffff_ffff_ffff_ffff_ffff,
{
    assert(-0x8000_0000_0000_0000_0000_0000_0000_0000 <= a * b
        <= 0x7fff_ffff_ffff_ffff_ffff_ffff_ffff_ffff) by (nonlinear_arith)
        requires
            -0x8000_0000_0000_0000 <= a <= 0x7fff_ffff_ffff_ffff,
            -0x8000_0000_0000_0000 <= b <= 0x7fff_ffff_ffff_ffff,
    ;
}

/// Relates the common-scale values of two factors and their product.
proof fn lemma_units_of_product(a: Decimal, b: Decimal, out: Decimal)
    requires
        a.inv(),
        b.inv(),
        a.scale + b.scale <= MAX_SCALE,
        out.scale == a.scale + b.scale,
        out.mantissa == a.mantissa * b.mantissa,
    ensures
        out.units() * pow10(MAX_SCALE as nat) == a.units() * b.units(),
{
    let sa = (MAX_SCALE - a.scale) as nat;
    let sb = (MAX_SCALE - b.scale) as nat;
    let so = (MAX_SCALE - out.scale) as nat;
    lemma_pow10_add(so, MAX_SCALE as nat);
    assert(so + MAX_SCALE as nat == sa + sb);
    lemma_pow10_add(sa, sb);
    assert(pow10(so) * pow10(MAX_SCALE as nat) == pow10(sa) * pow10(sb));
    let ma = a.mantissa as int;
    let mb = b.mantissa as int;
    assert((ma * mb * pow10(so)) * pow10(MAX_SCALE as nat) == (ma * pow10(sa)) * (mb * pow10(sb)))
        by (nonlinear_arith)
        requires
            pow10(so) * pow10(MAX_SCALE as nat) == pow10(sa) * pow10(sb),
    ;
}

} // verus!
