//! Exact fixed-point scalars.
//!
//! Every scalar quantity of the library (radii, offsets, voxel sizes, mesh
//! coordinates) is an [`Fx`]: a signed count of steps of size `1 / SCALE`.
//! `SCALE` is `1000 * 2^24`, so every multiple of a thousandth is exact, and
//! so is the packed-colour constant `rgb24 / 2^24 * 0.9 + 0.1` that the
//! colour fields use.

use vstd::prelude::*;
use vstd::arithmetic::mul::*;
use vstd::arithmetic::div_mod::*;

verus! {

/// Fixed-point steps per unit: `1000 * 2^24`.
pub const SCALE: i64 = 16_777_216_000;

/// Largest magnitude (in steps) admitted by the multiplying operations:
/// `2^48`, about 16777 units.  Products of two such magnitudes divided by
/// `SCALE` always fit in an `i64`.
pub const FX_LIM: i64 = 281_474_976_710_656;

/// Smallest divisor magnitude (in steps) admitted by [`fx_div`]: `2^20`,
/// about `6.25e-5` units.
pub const FX_DIV_MIN: i64 = 1_048_576;

/// A fixed-point scalar: the value `bits / SCALE`.
#[derive(Clone, Copy, Debug, PartialEq, Eq, Hash, Structural)]
pub struct Fx {
    pub bits: i64,
}

/// Absolute value, as an `int`.
pub open spec fn iabs(x: int) -> int {
    if x >= 0 {
        x
    } else {
        -x
    }
}

/// Scalars the multiplying operations accept: magnitude at most `FX_LIM`.
pub open spec fn fx_wf(a: Fx) -> bool {
    -FX_LIM <= a.bits <= FX_LIM
}

/// Quotient of `p` by `q` (with `q > 0`) rounded toward zero, as Rust's
/// integer division rounds.
pub open spec fn div_trunc(p: int, q: int) -> int {
    if p >= 0 {
        p / q
    } else {
        -((-p) / q)
    }
}

/// The step count of the product `a * b`, rounded toward zero.
pub open spec fn fx_mul_bits(a: int, b: int) -> int {
    div_trunc(a * b, SCALE as int)
}

/// The step count of the quotient `a / b`, rounded toward zero.
pub open spec fn fx_div_bits(a: int, b: int) -> int {
    if b == 0 {
        0
    } else if b > 0 {
        div_trunc(a * (SCALE as int), b)
    } else {
        div_trunc(-(a * (SCALE as int)), -b)
    }
}

impl Fx {
    /// The scalar zero.
    pub fn zero() -> (r: Fx)
        ensures
            r.bits == 0,
    {
        Fx { bits: 0 }
    }

    /// The scalar one.
    pub fn one() -> (r: Fx)
        ensures
            r.bits == SCALE,
    {
        Fx { bits: SCALE }
    }

    /// The scalar `i`.
    pub fn from_int(i: i64) -> (r: Fx)
        requires
            -549_755_813 <= i <= 549_755_813,
        ensures
            r.bits == i * SCALE,
    {
        proof {
            lemma_mul_inequality(-549_755_813, i as int, SCALE as int);
            lemma_mul_inequality(i as int, 549_755_813, SCALE as int);
        }
        Fx { bits: i * SCALE }
    }

    /// The scalar `m / 1000`.
    pub fn from_millis(m: i64) -> (r: Fx)
        requires
            -549_755_813_000 <= m <= 549_755_813_000,
        ensures
            r.bits == m * 16_777_216,
    {
        proof {
            lemma_mul_inequality(-549_755_813_000, m as int, 16_777_216);
            lemma_mul_inequality(m as int, 549_755_813_000, 16_777_216);
        }
        Fx { bits: m * 16_777_216 }
    }
}

/// `a + b`.
pub fn fx_add(a: Fx, b: Fx) -> (r: Fx)
    requires
        i64::MIN <= a.bits + b.bits <= i64::MAX,
    ensures
        r.bits == a.bits + b.bits,
{
    Fx { bits: a.bits + b.bits }
}

/// `a - b`.
pub fn fx_sub(a: Fx, b: Fx) -> (r: Fx)
    requires
        i64::MIN <= a.bits - b.bits <= i64::MAX,
    ensures
        r.bits == a.bits - b.bits,
{
    Fx { bits: a.bits - b.bits }
}

/// `-a`.
pub fn fx_neg(a: Fx) -> (r: Fx)
    requires
        a.bits != i64::MIN,
    ensures
        r.bits == -a.bits,
{
    Fx { bits: -a.bits }
}

/// The magnitude of `a.bits`, as an unsigned count of steps.
fn fx_mag(a: Fx) -> (r: u64)
    requires
        a.bits != i64::MIN,
    ensures
        r == iabs(a.bits as int),
{
    if a.bits < 0 {
        (-a.bits) as u64
    } else {
        a.bits as u64
    }
}

proof fn lemma_abs_mul(a: int, b: int)
    ensures
        iabs(a) * iabs(b) == iabs(a * b),
        (a * b < 0) <==> ((a < 0) != (b < 0) && a != 0 && b != 0),
        (a == 0 || b == 0) ==> a * b == 0,
{
    assert((iabs(a) * iabs(b) == iabs(a * b)) && ((a * b < 0) <==> ((a < 0) != (b < 0) && a != 0 && b
        != 0)) && ((a == 0 || b == 0) ==> a * b == 0)) by (nonlinear_arith);
}

/// The magnitude of a product's step count is bounded by the squared limit
/// over the scale, which leaves room to add another bounded scalar.
pub proof fn lemma_fx_mul_bits_bound(a: int, b: int)
    requires
        -FX_LIM <= a <= FX_LIM,
        -FX_LIM <= b <= FX_LIM,
    ensures
        iabs(fx_mul_bits(a, b)) <= 4_722_366_482_869_645_213,
{
    let p = a * b;
    lemma_abs_mul(a, b);
    assert(iabs(p) <= (FX_LIM as int) * (FX_LIM as int)) by (nonlinear_arith)
        requires
            iabs(p) == iabs(a) * iabs(b),
            iabs(a) <= FX_LIM as int,
            iabs(b) <= FX_LIM as int,
    ;
    lemma_div_is_ordered(iabs(p), (FX_LIM as int) * (FX_LIM as int), SCALE as int);
    lemma_div_is_ordered(0, iabs(p), SCALE as int);
    assert((FX_LIM as int) * (FX_LIM as int) / (SCALE as int) == 4_722_366_482_869_645_213);
}

/// Multiplying by a scalar of magnitude at most `k` units scales the other
/// factor's magnitude by at most `k`.
pub proof fn lemma_fx_mul_bits_scaled(a: int, b: int, k: int)
    requires
        k >= 0,
        iabs(a) <= k * (SCALE as int),
    ensures
        iabs(fx_mul_bits(a, b)) <= k * iabs(b),
{
    let p = a * b;
    lemma_abs_mul(a, b);
    assert(iabs(p) <= (k * iabs(b)) * (SCALE as int)) by (nonlinear_arith)
        requires
            iabs(p) == iabs(a) * iabs(b),
            iabs(a) <= k * (SCALE as int),
            iabs(b) >= 0,
            k >= 0,
    ;
    lemma_div_is_ordered(iabs(p), (k * iabs(b)) * (SCALE as int), SCALE as int);
    lemma_div_is_ordered(0, iabs(p), SCALE as int);
    lemma_div_by_multiple(k * iabs(b), SCALE as int);
}

/// Dividing by a scalar of no smaller magnitude yields at most one unit.
pub proof fn lemma_fx_div_bits_within(a: int, b: int)
    requires
        iabs(a) <= iabs(b),
        b != 0,
    ensures
        iabs(fx_div_bits(a, b)) <= SCALE as int,
{
    let p = a * (SCALE as int);
    lemma_abs_mul(a, SCALE as int);
    assert(iabs(p) == iabs(a) * (SCALE as int));
    assert(iabs(p) <= iabs(b) * (SCALE as int)) by (nonlinear_arith)
        requires
            iabs(p) == iabs(a) * (SCALE as int),
            iabs(a) <= iabs(b),
    ;
    lemma_div_is_ordered(iabs(p), iabs(b) * (SCALE as int), iabs(b));
    lemma_div_is_ordered(0, iabs(p), iabs(b));
    lemma_div_by_multiple(SCALE as int, iabs(b));
    assert(iabs(b) * (SCALE as int) == (SCALE as int) * iabs(b)) by (nonlinear_arith);
    // In every sign case the result's magnitude is |a * SCALE| / |b|.
    if b > 0 {
        assert(iabs(fx_div_bits(a, b)) == iabs(p) / iabs(b));
    } else {
        assert(iabs(fx_div_bits(a, b)) == iabs(p) / iabs(b));
    }
}

/// `a * b`, rounded toward zero.
pub fn fx_mul(a: Fx, b: Fx) -> (r: Fx)
    requires
        -FX_LIM <= a.bits <= FX_LIM,
        -FX_LIM <= b.bits <= FX_LIM,
    ensures
        r.bits == fx_mul_bits(a.bits as int, b.bits as int),
{
    let neg: bool = (a.bits < 0) != (b.bits < 0);
    let am: u64 = fx_mag(a);
    let bm: u64 = fx_mag(b);
    proof {
        assert((am as int) * (bm as int) <= u128::MAX as int) by (nonlinear_arith)
            requires
                am <= u64::MAX,
                bm <= u64::MAX,
        ;
    }
    let prod: u128 = (am as u128) * (bm as u128);
    let q: u128 = prod / (SCALE as u128);
    proof {
        let p = (a.bits as int) * (b.bits as int);
        lemma_abs_mul(a.bits as int, b.bits as int);
        assert(prod == iabs(p));
        assert(iabs(p) <= (FX_LIM as int) * (FX_LIM as int)) by (nonlinear_arith)
            requires
                iabs(p) == iabs(a.bits as int) * iabs(b.bits as int),
                iabs(a.bits as int) <= FX_LIM as int,
                iabs(b.bits as int) <= FX_LIM as int,
        ;
        lemma_div_is_ordered(iabs(p), (FX_LIM as int) * (FX_LIM as int), SCALE as int);
        assert((FX_LIM as int) * (FX_LIM as int) / (SCALE as int) < i64::MAX as int);
        assert(q == iabs(p) / (SCALE as int));
        if p >= 0 {
            assert(div_trunc(p, SCALE as int) == q);
            if neg {
                // Signs differ but the product is not negative: a factor is zero.
                assert(p == 0);
                assert(q == 0);
            }
        } else {
            assert(neg);
            assert(div_trunc(p, SCALE as int) == -(q as int));
        }
    }
    if neg {
        Fx { bits: -(q as i64) }
    } else {
        Fx { bits: q as i64 }
    }
}

/// `a / b`, rounded toward zero.
pub fn fx_div(a: Fx, b: Fx) -> (r: Fx)
    requires
        -FX_LIM <= a.bits <= FX_LIM,
        FX_DIV_MIN <= iabs(b.bits as int) <= FX_LIM,
    ensures
        r.bits == fx_div_bits(a.bits as int, b.bits as int),
{
    let neg: bool = (a.bits < 0) != (b.bits < 0);
    let am: u64 = fx_mag(a);
    let bm: u64 = fx_mag(b);
    proof {
        assert((am as int) * (SCALE as int) <= u128::MAX as int) by (nonlinear_arith)
            requires
                am <= u64::MAX,
        ;
    }
    let scaled: u128 = (am as u128) * (SCALE as u128);
    let q: u128 = scaled / (bm as u128);
    proof {
        let p = (a.bits as int) * (SCALE as int);
        lemma_abs_mul(a.bits as int, SCALE as int);
        assert(scaled == iabs(p));
        assert(iabs(p) <= (FX_LIM as int) * (SCALE as int)) by (nonlinear_arith)
            requires
                iabs(p) == iabs(a.bits as int) * iabs(SCALE as int),
                iabs(a.bits as int) <= FX_LIM as int,
        ;
        lemma_div_is_ordered_by_denominator(iabs(p), FX_DIV_MIN as int, bm as int);
        lemma_div_is_ordered(iabs(p), (FX_LIM as int) * (SCALE as int), FX_DIV_MIN as int);
        assert((FX_LIM as int) * (SCALE as int) / (FX_DIV_MIN as int) < i64::MAX as int)
           ;
        assert(q == iabs(p) / (bm as int));
        if b.bits > 0 {
            if a.bits >= 0 {
                assert(p >= 0);
                assert(fx_div_bits(a.bits as int, b.bits as int) == q);
                assert(!neg);
            } else {
                assert(p < 0);
                assert(fx_div_bits(a.bits as int, b.bits as int) == -(q as int));
                assert(neg);
            }
        } else {
            assert(b.bits < 0);
            if a.bits >= 0 {
                assert(p >= 0);
                assert(fx_div_bits(a.bits as int, b.bits as int) == div_trunc(-p, -(b.bits as int)));
                assert(fx_div_bits(a.bits as int, b.bits as int) == -(q as int));
            } else {
                assert(p < 0);
                assert(fx_div_bits(a.bits as int, b.bits as int) == q);
                assert(!neg);
            }
        }
    }
    if neg {
        Fx { bits: -(q as i64) }
    } else {
        Fx { bits: q as i64 }
    }
}

} // verus!
