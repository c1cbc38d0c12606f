//! Node-space operations.
//!
//! Constructors that combine and reshape field expressions: the CSG
//! combinators, the affine coordinate remappings, the steep clamp, the bleed
//! expansion and the colour packing.  Each executable function builds exactly
//! the expression its specification function names, so the laws below and in
//! the other modules can speak about the built expressions' values.

use vstd::prelude::*;
use crate::scalar::{Fx, SCALE};
use crate::field::{FieldNode, Point, point_wf, eval, lemma_eval_wf, lemma_eval_congr};
use crate::rat::{Rat, rat_wf, rat_eq, rat_of_fx, rat_add, rat_sub, rat_mul, rat_div,
    lemma_rat_ops_wf, lemma_rat_mul_congr, lemma_rat_eq_trans, lemma_rat_add_sub_cancel,
    lemma_rat_div_mul_cancel, lemma_rat_min_comm};

verus! {

/// Steps of the steep clamp slope, the scalar one thousand.
pub const STEEP_SLOPE_BITS: i64 = 16_777_216_000_000;

/// Steps of minus one.
pub const NEG_SCALE: i64 = -16_777_216_000;

/// Steps of minus one half.
pub const NEG_HALF_BITS: i64 = -8_388_608_000;

/// Steps of the colour offset, the scalar one tenth.
pub const COLOR_OFFSET_BITS: i64 = 1_677_721_600;

/// Steps of the default bleed factor, the scalar one and one tenth.
pub const DEFAULT_BLEED_BITS: i64 = 18_454_937_600;

pub open spec fn union_field(a: FieldNode, b: FieldNode) -> FieldNode {
    FieldNode::Max(Box::new(a), Box::new(b))
}

pub open spec fn difference_field(a: FieldNode, b: FieldNode) -> FieldNode {
    FieldNode::Max(Box::new(a), Box::new(FieldNode::Neg(Box::new(b))))
}

pub open spec fn intersection_field(a: FieldNode, b: FieldNode) -> FieldNode {
    FieldNode::Min(Box::new(a), Box::new(b))
}

pub open spec fn replacement_field(a: FieldNode, b: FieldNode) -> FieldNode {
    FieldNode::Min(
        Box::new(a),
        Box::new(FieldNode::Min(Box::new(b), Box::new(FieldNode::Neg(Box::new(a))))),
    )
}

pub open spec fn translate_field(shape: FieldNode, pos: [Fx; 3]) -> FieldNode {
    FieldNode::Remap(
        Box::new(shape),
        Box::new(FieldNode::Sub(Box::new(FieldNode::X), Box::new(FieldNode::Const(pos[0])))),
        Box::new(FieldNode::Sub(Box::new(FieldNode::Y), Box::new(FieldNode::Const(pos[1])))),
        Box::new(FieldNode::Sub(Box::new(FieldNode::Z), Box::new(FieldNode::Const(pos[2])))),
    )
}

/// Scaling substitutes `x' = x / scale` per axis before the child is
/// evaluated, so a factor above one enlarges the shape.
pub open spec fn scale_field(shape: FieldNode, scale: [Fx; 3]) -> FieldNode {
    FieldNode::Remap(
        Box::new(shape),
        Box::new(FieldNode::Div(Box::new(FieldNode::X), Box::new(FieldNode::Const(scale[0])))),
        Box::new(FieldNode::Div(Box::new(FieldNode::Y), Box::new(FieldNode::Const(scale[1])))),
        Box::new(FieldNode::Div(Box::new(FieldNode::Z), Box::new(FieldNode::Const(scale[2])))),
    )
}

/// Remap world coordinates of the region of size `size` at `pos` into the
/// unit cube: each coordinate becomes `(coordinate + pos) * size`.
pub open spec fn normalize_region_field(shape: FieldNode, pos: [Fx; 3], size: [Fx; 3]) -> FieldNode {
    FieldNode::Remap(
        Box::new(shape),
        Box::new(FieldNode::Mul(
            Box::new(FieldNode::Add(Box::new(FieldNode::X), Box::new(FieldNode::Const(pos[0])))),
            Box::new(FieldNode::Const(size[0])),
        )),
        Box::new(FieldNode::Mul(
            Box::new(FieldNode::Add(Box::new(FieldNode::Y), Box::new(FieldNode::Const(pos[1])))),
            Box::new(FieldNode::Const(size[1])),
        )),
        Box::new(FieldNode::Mul(
            Box::new(FieldNode::Add(Box::new(FieldNode::Z), Box::new(FieldNode::Const(pos[2])))),
            Box::new(FieldNode::Const(size[2])),
        )),
    )
}

/// The inverse remapping of [`normalize_region_field`]: each coordinate
/// becomes `coordinate / size - pos`.
pub open spec fn denormalize_region_field(shape: FieldNode, pos: [Fx; 3], size: [Fx; 3]) -> FieldNode {
    FieldNode::Remap(
        Box::new(shape),
        Box::new(FieldNode::Sub(
            Box::new(FieldNode::Div(Box::new(FieldNode::X), Box::new(FieldNode::Const(size[0])))),
            Box::new(FieldNode::Const(pos[0])),
        )),
        Box::new(FieldNode::Sub(
            Box::new(FieldNode::Div(Box::new(FieldNode::Y), Box::new(FieldNode::Const(size[1])))),
            Box::new(FieldNode::Const(pos[1])),
        )),
        Box::new(FieldNode::Sub(
            Box::new(FieldNode::Div(Box::new(FieldNode::Z), Box::new(FieldNode::Const(size[2])))),
            Box::new(FieldNode::Const(pos[2])),
        )),
    )
}

/// Steeply clamp the field to `[-1, 1]`: multiply by a large slope, then cut
/// above at one and below at minus one.
pub open spec fn clamp_field(shape: FieldNode) -> FieldNode {
    FieldNode::Max(
        Box::new(FieldNode::Min(
            Box::new(FieldNode::Mul(
                Box::new(shape),
                Box::new(FieldNode::Const(Fx { bits: STEEP_SLOPE_BITS })),
            )),
            Box::new(FieldNode::Const(Fx { bits: SCALE })),
        )),
        Box::new(FieldNode::Const(Fx { bits: NEG_SCALE })),
    )
}

/// Clamp, then widen the clamped field's unit cube by `factor`.
pub open spec fn bleed_field(shape: FieldNode, factor: Fx) -> FieldNode {
    FieldNode::Remap(
        Box::new(clamp_field(shape)),
        Box::new(FieldNode::Div(Box::new(FieldNode::X), Box::new(FieldNode::Const(factor)))),
        Box::new(FieldNode::Div(Box::new(FieldNode::Y), Box::new(FieldNode::Const(factor)))),
        Box::new(FieldNode::Div(Box::new(FieldNode::Z), Box::new(FieldNode::Const(factor)))),
    )
}

/// The 24-bit packed value of an rgb triple.
pub open spec fn rgb24_of(rgb: [u8; 3]) -> int {
    (rgb[0] as int) * 65536 + (rgb[1] as int) * 256 + (rgb[2] as int)
}

/// The packed colour constant for a 24-bit packed channel value: that value
/// over the 24-bit maximum, rescaled into `[0.1, 1.0]`.  Exact in steps:
/// `rgb24 * 900 + 2^24 * 100`.
pub open spec fn color_const(rgb24: int) -> Fx {
    Fx { bits: (rgb24 * 900 + COLOR_OFFSET_BITS as int) as i64 }
}

/// Colour a clamped field: turn minus-one-inside/one-outside into
/// one-inside/zero-outside, clamp to `[0, 1]`, and scale by the packed
/// colour constant.
pub open spec fn color_applied_field(shape: FieldNode, rgb24: int) -> FieldNode {
    FieldNode::Mul(
        Box::new(FieldNode::Min(
            Box::new(FieldNode::Max(
                Box::new(FieldNode::Mul(
                    Box::new(FieldNode::Sub(
                        Box::new(shape),
                        Box::new(FieldNode::Const(Fx { bits: SCALE })),
                    )),
                    Box::new(FieldNode::Const(Fx { bits: NEG_HALF_BITS })),
                )),
                Box::new(FieldNode::Const(Fx { bits: 0 })),
            )),
            Box::new(FieldNode::Const(Fx { bits: SCALE })),
        )),
        Box::new(FieldNode::Const(color_const(rgb24))),
    )
}

/// CSG union: the pointwise maximum of the two solid fields.
pub fn nso_union(a: FieldNode, b: FieldNode) -> (r: FieldNode)
    ensures
        r == union_field(a, b),
{
    FieldNode::Max(Box::new(a), Box::new(b))
}

/// CSG difference: keeps `a` outside of `b`.
pub fn nso_difference(a: FieldNode, b: FieldNode) -> (r: FieldNode)
    ensures
        r == difference_field(a, b),
{
    let nb = FieldNode::Neg(Box::new(b));
    FieldNode::Max(Box::new(a), Box::new(nb))
}

/// CSG intersection: the pointwise minimum of the two solid fields.
pub fn nso_intersection(a: FieldNode, b: FieldNode) -> (r: FieldNode)
    ensures
        r == intersection_field(a, b),
{
    FieldNode::Min(Box::new(a), Box::new(b))
}

/// CSG union that preserves the value of `a` where both shapes overlap.
pub fn nso_replacement(a: FieldNode, b: FieldNode) -> (r: FieldNode)
    ensures
        r == replacement_field(a, b),
{
    let a2 = a.clone();
    let neg_a = FieldNode::Neg(Box::new(a2));
    let bb = FieldNode::Min(Box::new(b), Box::new(neg_a));
    FieldNode::Min(Box::new(a), Box::new(bb))
}

/// Translates a field by `pos`.
pub fn nso_translate(shape: FieldNode, pos: [Fx; 3]) -> (r: FieldNode)
    ensures
        r == translate_field(shape, pos),
{
    let new_x = FieldNode::Sub(Box::new(FieldNode::X), Box::new(FieldNode::Const(pos[0])));
    let new_y = FieldNode::Sub(Box::new(FieldNode::Y), Box::new(FieldNode::Const(pos[1])));
    let new_z = FieldNode::Sub(Box::new(FieldNode::Z), Box::new(FieldNode::Const(pos[2])));
    FieldNode::Remap(Box::new(shape), Box::new(new_x), Box::new(new_y), Box::new(new_z))
}

/// Scales a field by `scale`: each coordinate is divided by the factor
/// before the field is evaluated.
pub fn nso_scale(shape: FieldNode, scale: [Fx; 3]) -> (r: FieldNode)
    ensures
        r == scale_field(shape, scale),
{
    let new_x = FieldNode::Div(Box::new(FieldNode::X), Box::new(FieldNode::Const(scale[0])));
    let new_y = FieldNode::Div(Box::new(FieldNode::Y), Box::new(FieldNode::Const(scale[1])));
    let new_z = FieldNode::Div(Box::new(FieldNode::Z), Box::new(FieldNode::Const(scale[2])));
    FieldNode::Remap(Box::new(shape), Box::new(new_x), Box::new(new_y), Box::new(new_z))
}

/// Transform a volume of size `size` centred at `pos` to the unit cube.
pub fn nso_normalize_region(shape: FieldNode, pos: [Fx; 3], size: [Fx; 3]) -> (r: FieldNode)
    ensures
        r == normalize_region_field(shape, pos, size),
{
    let moved_x = FieldNode::Add(Box::new(FieldNode::X), Box::new(FieldNode::Const(pos[0])));
    let moved_y = FieldNode::Add(Box::new(FieldNode::Y), Box::new(FieldNode::Const(pos[1])));
    let moved_z = FieldNode::Add(Box::new(FieldNode::Z), Box::new(FieldNode::Const(pos[2])));
    let new_x = FieldNode::Mul(Box::new(moved_x), Box::new(FieldNode::Const(size[0])));
    let new_y = FieldNode::Mul(Box::new(moved_y), Box::new(FieldNode::Const(size[1])));
    let new_z = FieldNode::Mul(Box::new(moved_z), Box::new(FieldNode::Const(size[2])));
    FieldNode::Remap(Box::new(shape), Box::new(new_x), Box::new(new_y), Box::new(new_z))
}

/// Transform the unit cube to a volume of size `size` centred at `pos`.
/// Reverses [`nso_normalize_region`] under identical `pos` and `size`
/// ([`lemma_denormalize_normalize_roundtrip`]).
pub fn nso_denormalize_region(shape: FieldNode, pos: [Fx; 3], size: [Fx; 3]) -> (r: FieldNode)
    ensures
        r == denormalize_region_field(shape, pos, size),
{
    let new_x = FieldNode::Div(Box::new(FieldNode::X), Box::new(FieldNode::Const(size[0])));
    let new_y = FieldNode::Div(Box::new(FieldNode::Y), Box::new(FieldNode::Const(size[1])));
    let new_z = FieldNode::Div(Box::new(FieldNode::Z), Box::new(FieldNode::Const(size[2])));
    let moved_x = FieldNode::Sub(Box::new(new_x), Box::new(FieldNode::Const(pos[0])));
    let moved_y = FieldNode::Sub(Box::new(new_y), Box::new(FieldNode::Const(pos[1])));
    let moved_z = FieldNode::Sub(Box::new(new_z), Box::new(FieldNode::Const(pos[2])));
    FieldNode::Remap(Box::new(shape), Box::new(moved_x), Box::new(moved_y), Box::new(moved_z))
}

/// Clamps a field to `[-1, 1]`, drastically steepening the transition
/// between the two extents.
pub fn nso_clamp(shape: FieldNode) -> (r: FieldNode)
    ensures
        r == clamp_field(shape),
{
    let steep = FieldNode::Mul(
        Box::new(shape),
        Box::new(FieldNode::Const(Fx { bits: STEEP_SLOPE_BITS })),
    );
    let bounded = FieldNode::Min(Box::new(steep), Box::new(FieldNode::Const(Fx { bits: SCALE })));
    FieldNode::Max(Box::new(bounded), Box::new(FieldNode::Const(Fx { bits: NEG_SCALE })))
}

/// Clamps and then widens a field by `factor`.
pub fn nso_bleed(shape: FieldNode, factor: Fx) -> (r: FieldNode)
    ensures
        r == bleed_field(shape, factor),
{
    let clamped = nso_clamp(shape);
    let new_x = FieldNode::Div(Box::new(FieldNode::X), Box::new(FieldNode::Const(factor)));
    let new_y = FieldNode::Div(Box::new(FieldNode::Y), Box::new(FieldNode::Const(factor)));
    let new_z = FieldNode::Div(Box::new(FieldNode::Z), Box::new(FieldNode::Const(factor)));
    FieldNode::Remap(Box::new(clamped), Box::new(new_x), Box::new(new_y), Box::new(new_z))
}

/// Colour a field with the given rgb value.  Expects a clamped field (minus
/// one inside, one outside); it is recommended to bleed the field first so
/// pruning does not clip coloured vertices.
pub fn nso_color(shape: FieldNode, rgb: [u8; 3]) -> (r: FieldNode)
    ensures
        r == color_applied_field(shape, rgb24_of(rgb)),
{
    let rgb24: i64 = (rgb[0] as i64) * 65536 + (rgb[1] as i64) * 256 + (rgb[2] as i64);
    let color_val = FieldNode::Const(Fx { bits: rgb24 * 900 + COLOR_OFFSET_BITS });
    let shifted = FieldNode::Sub(Box::new(shape), Box::new(FieldNode::Const(Fx { bits: SCALE })));
    let scaled = FieldNode::Mul(
        Box::new(shifted),
        Box::new(FieldNode::Const(Fx { bits: NEG_HALF_BITS })),
    );
    let low = FieldNode::Max(Box::new(scaled), Box::new(FieldNode::Const(Fx { bits: 0 })));
    let high = FieldNode::Min(Box::new(low), Box::new(FieldNode::Const(Fx { bits: SCALE })));
    FieldNode::Mul(Box::new(high), Box::new(color_val))
}

// ----------------------------------------------------------------------------
// Laws.

/// The union of two fields has the same value whichever way around its
/// operands are given.
pub proof fn lemma_union_commutes(a: FieldNode, b: FieldNode, p: Point)
    requires
        point_wf(p),
    ensures
        rat_eq(eval(union_field(a, b), p), eval(union_field(b, a), p)),
{
    lemma_eval_wf(a, p);
    lemma_eval_wf(b, p);
    lemma_rat_min_comm(eval(a, p), eval(b, p));
}

/// Remapping a field through the normalizing transform and then through the
/// denormalizing transform with the same `pos` and nonzero `size` leaves its
/// value at every point unchanged.
pub proof fn lemma_denormalize_normalize_roundtrip(
    shape: FieldNode,
    pos: [Fx; 3],
    size: [Fx; 3],
    p: Point,
)
    requires
        point_wf(p),
        size[0].bits != 0,
        size[1].bits != 0,
        size[2].bits != 0,
    ensures
        rat_eq(
            eval(denormalize_region_field(normalize_region_field(shape, pos, size), pos, size), p),
            eval(shape, p),
        ),
{
    let inner = Point {
        x: rat_sub(rat_div(p.x, rat_of_fx(size[0])), rat_of_fx(pos[0])),
        y: rat_sub(rat_div(p.y, rat_of_fx(size[1])), rat_of_fx(pos[1])),
        z: rat_sub(rat_div(p.z, rat_of_fx(size[2])), rat_of_fx(pos[2])),
    };
    let landed = Point {
        x: rat_mul(rat_add(inner.x, rat_of_fx(pos[0])), rat_of_fx(size[0])),
        y: rat_mul(rat_add(inner.y, rat_of_fx(pos[1])), rat_of_fx(size[1])),
        z: rat_mul(rat_add(inner.z, rat_of_fx(pos[2])), rat_of_fx(size[2])),
    };
    assert(eval(
        denormalize_region_field(normalize_region_field(shape, pos, size), pos, size),
        p,
    ) == eval(shape, landed)) by {
        reveal_with_fuel(eval, 6);
    }
    lemma_axis_roundtrip(p.x, rat_of_fx(pos[0]), rat_of_fx(size[0]));
    lemma_axis_roundtrip(p.y, rat_of_fx(pos[1]), rat_of_fx(size[1]));
    lemma_axis_roundtrip(p.z, rat_of_fx(pos[2]), rat_of_fx(size[2]));
    assert(point_wf(landed)) by {
        lemma_axis_wf(p.x, rat_of_fx(pos[0]), rat_of_fx(size[0]));
        lemma_axis_wf(p.y, rat_of_fx(pos[1]), rat_of_fx(size[1]));
        lemma_axis_wf(p.z, rat_of_fx(pos[2]), rat_of_fx(size[2]));
    }
    lemma_eval_congr(shape, landed, p);
}

/// One axis of the round trip: `((t / s - c) + c) * s` is `t` again.
proof fn lemma_axis_roundtrip(t: Rat, c: Rat, s: Rat)
    requires
        rat_wf(t),
        rat_wf(c),
        rat_wf(s),
        s.n != 0,
    ensures
        rat_eq(rat_mul(rat_add(rat_sub(rat_div(t, s), c), c), s), t),
{
    let q = rat_div(t, s);
    lemma_rat_ops_wf(t, s);
    lemma_rat_ops_wf(q, c);
    lemma_rat_ops_wf(rat_sub(q, c), c);
    lemma_rat_add_sub_cancel(q, c);
    // (q - c) + c == q, so multiplying both by s stays equal.
    lemma_rat_mul_congr(rat_add(rat_sub(q, c), c), s, q, s);
    lemma_rat_div_mul_cancel(t, s);
    lemma_rat_ops_wf(rat_add(rat_sub(q, c), c), s);
    lemma_rat_ops_wf(q, s);
    lemma_rat_eq_trans(rat_mul(rat_add(rat_sub(q, c), c), s), rat_mul(q, s), t);
}

/// One axis of the round trip is well formed.
proof fn lemma_axis_wf(t: Rat, c: Rat, s: Rat)
    requires
        rat_wf(t),
        rat_wf(c),
        rat_wf(s),
    ensures
        rat_wf(rat_mul(rat_add(rat_sub(rat_div(t, s), c), c), s)),
{
    let q = rat_div(t, s);
    lemma_rat_ops_wf(t, s);
    lemma_rat_ops_wf(q, c);
    lemma_rat_ops_wf(rat_sub(q, c), c);
    lemma_rat_ops_wf(rat_add(rat_sub(q, c), c), s);
}

} // verus!
