//! Exact rational numbers, specification-level only.
//!
//! Field expressions are given meaning by evaluating them over rationals
//! ([`crate::field::eval`]).  A rational is a pair of a numerator and a
//! positive denominator; two rationals are the same number when they agree
//! under cross multiplication ([`rat_eq`]).  The lemmas here show that every
//! operation respects that sameness, which is what lets the laws reason about
//! a field's value rather than about one particular representation.

use vstd::prelude::*;
use crate::scalar::iabs;

verus! {

pub ghost struct Rat {
    pub n: int,
    pub d: int,
}

/// Well-formed rationals keep their denominator positive.
pub open spec fn rat_wf(x: Rat) -> bool {
    x.d > 0
}

/// The number `bits / SCALE` denoted by a fixed-point scalar.
pub open spec fn rat_of_fx(a: crate::scalar::Fx) -> Rat {
    Rat { n: a.bits as int, d: crate::scalar::SCALE as int }
}

/// The integer `i` as a rational.
pub open spec fn rat_of_int(i: int) -> Rat {
    Rat { n: i, d: 1 }
}

/// `x` and `y` denote the same number.
pub open spec fn rat_eq(x: Rat, y: Rat) -> bool {
    x.n * y.d == y.n * x.d
}

/// `x <= y` as numbers (valid for well-formed rationals).
pub open spec fn rat_le(x: Rat, y: Rat) -> bool {
    x.n * y.d <= y.n * x.d
}

/// `x < y` as numbers (valid for well-formed rationals).
pub open spec fn rat_lt(x: Rat, y: Rat) -> bool {
    x.n * y.d < y.n * x.d
}

pub open spec fn rat_add(x: Rat, y: Rat) -> Rat {
    Rat { n: x.n * y.d + y.n * x.d, d: x.d * y.d }
}

pub open spec fn rat_sub(x: Rat, y: Rat) -> Rat {
    Rat { n: x.n * y.d - y.n * x.d, d: x.d * y.d }
}

pub open spec fn rat_neg(x: Rat) -> Rat {
    Rat { n: -x.n, d: x.d }
}

pub open spec fn rat_iabs(x: Rat) -> Rat {
    Rat { n: iabs(x.n), d: x.d }
}

pub open spec fn rat_mul(x: Rat, y: Rat) -> Rat {
    Rat { n: x.n * y.n, d: x.d * y.d }
}

/// Division; a zero divisor yields zero (the evaluation semantics must be
/// total, and no law speaks of dividing by zero).
pub open spec fn rat_div(x: Rat, y: Rat) -> Rat {
    if y.n == 0 {
        rat_of_int(0)
    } else if y.n > 0 {
        Rat { n: x.n * y.d, d: x.d * y.n }
    } else {
        Rat { n: -(x.n * y.d), d: x.d * -y.n }
    }
}

pub open spec fn rat_min(x: Rat, y: Rat) -> Rat {
    if rat_le(x, y) {
        x
    } else {
        y
    }
}

pub open spec fn rat_max(x: Rat, y: Rat) -> Rat {
    if rat_le(x, y) {
        y
    } else {
        x
    }
}

// ----------------------------------------------------------------------------
// Well-formedness of the operations.

pub proof fn lemma_rat_ops_wf(x: Rat, y: Rat)
    requires
        rat_wf(x),
        rat_wf(y),
    ensures
        rat_wf(rat_add(x, y)),
        rat_wf(rat_sub(x, y)),
        rat_wf(rat_neg(x)),
        rat_wf(rat_iabs(x)),
        rat_wf(rat_mul(x, y)),
        rat_wf(rat_div(x, y)),
        rat_wf(rat_min(x, y)),
        rat_wf(rat_max(x, y)),
{
    assert(x.d * y.d > 0) by (nonlinear_arith)
        requires
            x.d > 0,
            y.d > 0,
    ;
    if y.n > 0 {
        assert(x.d * y.n > 0) by (nonlinear_arith)
            requires
                x.d > 0,
                y.n > 0,
        ;
    }
    if y.n < 0 {
        assert(x.d * -y.n > 0) by (nonlinear_arith)
            requires
                x.d > 0,
                y.n < 0,
        ;
    }
}

// ----------------------------------------------------------------------------
// rat_eq is an equivalence on well-formed rationals, compatible with order.

pub proof fn lemma_rat_eq_trans(x: Rat, y: Rat, z: Rat)
    requires
        rat_wf(x),
        rat_wf(y),
        rat_wf(z),
        rat_eq(x, y),
        rat_eq(y, z),
    ensures
        rat_eq(x, z),
{
    assert(x.n * z.d == z.n * x.d) by (nonlinear_arith)
        requires
            x.n * y.d == y.n * x.d,
            y.n * z.d == z.n * y.d,
            y.d > 0,
    ;
}

pub proof fn lemma_rat_le_congr(x: Rat, y: Rat, x2: Rat, y2: Rat)
    requires
        rat_wf(x),
        rat_wf(y),
        rat_wf(x2),
        rat_wf(y2),
        rat_eq(x, x2),
        rat_eq(y, y2),
    ensures
        rat_le(x, y) == rat_le(x2, y2),
        rat_lt(x, y) == rat_lt(x2, y2),
{
    assert((x.n * y.d <= y.n * x.d <==> x2.n * y2.d <= y2.n * x2.d) && (x.n * y.d < y.n * x.d <==>
    x2.n * y2.d < y2.n * x2.d)) by (nonlinear_arith)
        requires
            x.n * x2.d == x2.n * x.d,
            y.n * y2.d == y2.n * y.d,
            x.d > 0,
            y.d > 0,
            x2.d > 0,
            y2.d > 0,
    ;
}

// ----------------------------------------------------------------------------
// Every operation respects rat_eq.

pub proof fn lemma_rat_add_congr(x: Rat, y: Rat, x2: Rat, y2: Rat)
    requires
        rat_wf(x),
        rat_wf(y),
        rat_wf(x2),
        rat_wf(y2),
        rat_eq(x, x2),
        rat_eq(y, y2),
    ensures
        rat_eq(rat_add(x, y), rat_add(x2, y2)),
        rat_eq(rat_sub(x, y), rat_sub(x2, y2)),
{
    assert((x.n * y.d) * (x2.d * y2.d) == (x2.n * y2.d) * (x.d * y.d)) by (nonlinear_arith)
        requires
            x.n * x2.d == x2.n * x.d,
    ;
    assert((y.n * x.d) * (x2.d * y2.d) == (y2.n * x2.d) * (x.d * y.d)) by (nonlinear_arith)
        requires
            y.n * y2.d == y2.n * y.d,
    ;
    assert((x.n * y.d + y.n * x.d) * (x2.d * y2.d) == (x.n * y.d) * (x2.d * y2.d) + (y.n * x.d) * (
    x2.d * y2.d)) by (nonlinear_arith);
    assert((x2.n * y2.d + y2.n * x2.d) * (x.d * y.d) == (x2.n * y2.d) * (x.d * y.d) + (y2.n * x2.d)
        * (x.d * y.d)) by (nonlinear_arith);
    assert((x.n * y.d - y.n * x.d) * (x2.d * y2.d) == (x.n * y.d) * (x2.d * y2.d) - (y.n * x.d) * (
    x2.d * y2.d)) by (nonlinear_arith);
    assert((x2.n * y2.d - y2.n * x2.d) * (x.d * y.d) == (x2.n * y2.d) * (x.d * y.d) - (y2.n * x2.d)
        * (x.d * y.d)) by (nonlinear_arith);
}

pub proof fn lemma_rat_mul_congr(x: Rat, y: Rat, x2: Rat, y2: Rat)
    requires
        rat_wf(x),
        rat_wf(y),
        rat_wf(x2),
        rat_wf(y2),
        rat_eq(x, x2),
        rat_eq(y, y2),
    ensures
        rat_eq(rat_mul(x, y), rat_mul(x2, y2)),
{
    assert((x.n * y.n) * (x2.d * y2.d) == (x2.n * y2.n) * (x.d * y.d)) by (nonlinear_arith)
        requires
            x.n * x2.d == x2.n * x.d,
            y.n * y2.d == y2.n * y.d,
    ;
}

pub proof fn lemma_rat_neg_congr(x: Rat, x2: Rat)
    requires
        rat_wf(x),
        rat_wf(x2),
        rat_eq(x, x2),
    ensures
        rat_eq(rat_neg(x), rat_neg(x2)),
        rat_eq(rat_iabs(x), rat_iabs(x2)),
{
    assert((-x.n) * x2.d == (-x2.n) * x.d) by (nonlinear_arith)
        requires
            x.n * x2.d == x2.n * x.d,
    ;
    assert(iabs(x.n) * x2.d == iabs(x2.n) * x.d) by (nonlinear_arith)
        requires
            x.n * x2.d == x2.n * x.d,
            x.d > 0,
            x2.d > 0,
    ;
}

pub proof fn lemma_rat_div_congr(x: Rat, y: Rat, x2: Rat, y2: Rat)
    requires
        rat_wf(x),
        rat_wf(y),
        rat_wf(x2),
        rat_wf(y2),
        rat_eq(x, x2),
        rat_eq(y, y2),
    ensures
        rat_eq(rat_div(x, y), rat_div(x2, y2)),
{
    // Equal rationals have numerators of the same sign.
    assert((y.n == 0 <==> y2.n == 0) && (y.n > 0 <==> y2.n > 0)) by (nonlinear_arith)
        requires
            y.n * y2.d == y2.n * y.d,
            y.d > 0,
            y2.d > 0,
    ;
    if y.n == 0 {
    } else if y.n > 0 {
        assert((x.n * y.d) * (x2.d * y2.n) == (x2.n * y2.d) * (x.d * y.n)) by (nonlinear_arith)
            requires
                x.n * x2.d == x2.n * x.d,
                y.n * y2.d == y2.n * y.d,
        ;
    } else {
        assert((x.n * y.d) * (x2.d * y2.n) == (x2.n * y2.d) * (x.d * y.n)) by (nonlinear_arith)
            requires
                x.n * x2.d == x2.n * x.d,
                y.n * y2.d == y2.n * y.d,
        ;
        assert((-(x.n * y.d)) * (x2.d * -y2.n) == (-(x2.n * y2.d)) * (x.d * -y.n))
            by (nonlinear_arith)
            requires
                (x.n * y.d) * (x2.d * y2.n) == (x2.n * y2.d) * (x.d * y.n),
        ;
    }
}

pub proof fn lemma_rat_min_congr(x: Rat, y: Rat, x2: Rat, y2: Rat)
    requires
        rat_wf(x),
        rat_wf(y),
        rat_wf(x2),
        rat_wf(y2),
        rat_eq(x, x2),
        rat_eq(y, y2),
    ensures
        rat_eq(rat_min(x, y), rat_min(x2, y2)),
        rat_eq(rat_max(x, y), rat_max(x2, y2)),
{
    lemma_rat_le_congr(x, y, x2, y2);
}

// ----------------------------------------------------------------------------
// Ring identities.

/// Subtracting and then adding the same rational is the identity.
pub proof fn lemma_rat_add_sub_cancel(x: Rat, c: Rat)
    requires
        rat_wf(x),
        rat_wf(c),
    ensures
        rat_eq(rat_add(rat_sub(x, c), c), x),
{
    let s = rat_sub(x, c);
    assert((s.n * c.d + c.n * s.d) * x.d == x.n * (s.d * c.d)) by (nonlinear_arith)
        requires
            s.n == x.n * c.d - c.n * x.d,
            s.d == x.d * c.d,
    ;
}

/// Dividing by a nonzero rational and multiplying by it again is the
/// identity.
pub proof fn lemma_rat_div_mul_cancel(x: Rat, s: Rat)
    requires
        rat_wf(x),
        rat_wf(s),
        s.n != 0,
    ensures
        rat_eq(rat_mul(rat_div(x, s), s), x),
{
    if s.n > 0 {
        assert(((x.n * s.d) * s.n) * x.d == x.n * ((x.d * s.n) * s.d)) by (nonlinear_arith);
    } else {
        assert(((-(x.n * s.d)) * s.n) * x.d == x.n * ((x.d * -s.n) * s.d)) by (nonlinear_arith);
    }
}

// ----------------------------------------------------------------------------
// Order facts.

pub proof fn lemma_rat_le_trans(x: Rat, y: Rat, z: Rat)
    requires
        rat_wf(x),
        rat_wf(y),
        rat_wf(z),
        rat_le(x, y),
        rat_le(y, z),
    ensures
        rat_le(x, z),
{
    assert(x.n * z.d <= z.n * x.d) by (nonlinear_arith)
        requires
            x.n * y.d <= y.n * x.d,
            y.n * z.d <= z.n * y.d,
            x.d > 0,
            y.d > 0,
            z.d > 0,
    ;
}

/// The pairwise minimum is commutative and associative up to rat_eq.
pub proof fn lemma_rat_min_comm(x: Rat, y: Rat)
    requires
        rat_wf(x),
        rat_wf(y),
    ensures
        rat_eq(rat_min(x, y), rat_min(y, x)),
        rat_eq(rat_max(x, y), rat_max(y, x)),
{
}

pub proof fn lemma_rat_min_assoc(x: Rat, y: Rat, z: Rat)
    requires
        rat_wf(x),
        rat_wf(y),
        rat_wf(z),
    ensures
        rat_eq(rat_min(rat_min(x, y), z), rat_min(x, rat_min(y, z))),
        rat_eq(rat_max(rat_max(x, y), z), rat_max(x, rat_max(y, z))),
{
    if rat_le(x, y) && rat_le(y, z) {
        lemma_rat_le_trans(x, y, z);
    }
    if !rat_le(x, y) && !rat_le(y, z) {
        // x > y and y > z, so x > z.
        assert(z.n * x.d < x.n * z.d) by (nonlinear_arith)
            requires
                y.n * x.d < x.n * y.d,
                z.n * y.d < y.n * z.d,
                x.d > 0,
                y.d > 0,
                z.d > 0,
        ;
    }
}

} // verus!
