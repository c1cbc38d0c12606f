//! Octree addresses and the transforms they induce.
//!
//! A [`LodCoords`] names a cubic chunk of the volume: an integer position
//! and a depth, the position bounded by two to the depth.  From an address
//! the chunk's centre and size in normalized map space (the cube from minus
//! one to one) follow exactly; a [`Transform`] carries that centre and size,
//! and [`transform_context`] remaps a compiled field into the chunk's local
//! coordinates.

use vstd::prelude::*;
use crate::scalar::{Fx, SCALE, FX_LIM, FX_DIV_MIN, fx_wf, fx_div_bits, fx_mul_bits, iabs};
use crate::field::FieldNode;

verus! {

/// An octree address: an integer cell position and a depth.  At depth `d`
/// the volume splits into `2^d` cells along each axis.
#[derive(Debug, Clone, Copy, PartialEq, Eq, Hash)]
pub struct LodCoords {
    pub pos: [u32; 3],
    pub lod: u8,
}

/// Addresses keep their position inside the grid of their depth, and the
/// depth small enough that a cell's size stays exact in fixed point.
pub open spec fn lod_coords_wf(c: LodCoords) -> bool {
    c.lod <= 24 && (c.pos[0] as u64) < (1u64 << (c.lod as u64)) && (c.pos[1] as u64) < (1u64 << (
    c.lod as u64)) && (c.pos[2] as u64) < (1u64 << (c.lod as u64))
}

/// The size in steps of a cell at depth `lod`, on a zero-to-one scale.
pub open spec fn lod_size_bits(lod: u8) -> int {
    ((SCALE as u64) >> (lod as u64)) as int
}

/// The centre in steps of cell `pos` at depth `lod` along one axis, on the
/// minus-one-to-one scale: `(pos * size + size / 2) * 2 - 1`.
pub open spec fn lod_center_bits(pos: u32, lod: u8) -> int {
    2 * (pos as int) * lod_size_bits(lod) + lod_size_bits(lod) - SCALE as int
}

/// The centres of a cell, as a point array.
pub open spec fn lod_center_array(c: LodCoords) -> [Fx; 3] {
    [
        Fx { bits: lod_center_bits(c.pos[0], c.lod) as i64 },
        Fx { bits: lod_center_bits(c.pos[1], c.lod) as i64 },
        Fx { bits: lod_center_bits(c.pos[2], c.lod) as i64 },
    ]
}

/// The uniform scale of a cell, as a vector array.
pub open spec fn lod_scale_array(c: LodCoords) -> [Fx; 3] {
    [
        Fx { bits: lod_size_bits(c.lod) as i64 },
        Fx { bits: lod_size_bits(c.lod) as i64 },
        Fx { bits: lod_size_bits(c.lod) as i64 },
    ]
}

/// The grid cell at depth `lod` containing the map-space coordinate
/// `bits / SCALE` of the minus-one-to-one cube, clamped into the grid.
pub open spec fn lod_cell_of(bits: int, lod: u8) -> int {
    let t = bits + SCALE as int;
    let cells = (1u64 << (lod as u64)) as int;
    if t < 0 {
        0
    } else {
        let u = t * cells / (2 * SCALE as int);
        if u >= cells {
            cells - 1
        } else {
            u
        }
    }
}

impl LodCoords {
    /// An address from its components.
    pub fn new(pos: [u32; 3], lod: u8) -> (r: LodCoords)
        requires
            lod_coords_wf(LodCoords { pos, lod }),
        ensures
            r == (LodCoords { pos, lod }),
    {
        LodCoords { pos, lod }
    }

    /// The size of the region, on a zero-to-one scale.
    pub fn float_size(&self) -> (r: Fx)
        requires
            lod_coords_wf(*self),
        ensures
            r.bits == lod_size_bits(self.lod),
            0 < r.bits <= SCALE,
    {
        let sz: u64 = (SCALE as u64) >> (self.lod as u64);
        proof {
            let l = self.lod as u64;
            assert((SCALE as u64) >> l <= SCALE as u64 && (l <= 24 ==> (SCALE as u64) >> l >= 1000))
                by (bit_vector);
        }
        Fx { bits: sz as i64 }
    }

    /// The centre of the region, on the minus-one-to-one scale, with no
    /// overlap factor applied (the placement a bleed of one would give).
    /// The bled chunk placement is [`crate::chunk::Template::map_transform`].
    pub fn float_center_coords(&self) -> (r: [Fx; 3])
        requires
            lod_coords_wf(*self),
        ensures
            r == lod_center_array(*self),
            r[0].bits == lod_center_bits(self.pos[0], self.lod),
            r[1].bits == lod_center_bits(self.pos[1], self.lod),
            r[2].bits == lod_center_bits(self.pos[2], self.lod),
    {
        proof {
            let p0 = self.pos[0] as u64;
            let p1 = self.pos[1] as u64;
            let p2 = self.pos[2] as u64;
            let l = self.lod as u64;
            assert(p0 < (1u64 << l) && l <= 24 ==> p0 < 0x1000000u64) by (bit_vector);
            assert(p1 < (1u64 << l) && l <= 24 ==> p1 < 0x1000000u64) by (bit_vector);
            assert(p2 < (1u64 << l) && l <= 24 ==> p2 < 0x1000000u64) by (bit_vector);
        }
        let sz = self.float_size();
        let c0 = Self::center_axis(self.pos[0], sz.bits);
        let c1 = Self::center_axis(self.pos[1], sz.bits);
        let c2 = Self::center_axis(self.pos[2], sz.bits);
        [c0, c1, c2]
    }

    /// One axis of the centre computation.
    fn center_axis(pos: u32, sz: i64) -> (r: Fx)
        requires
            pos < 0x1000000u32,
            0 < sz <= SCALE,
        ensures
            r.bits == 2 * (pos as int) * sz + sz - SCALE as int,
    {
        proof {
            assert((pos as int) * (sz as int) <= 0x1000000 * (SCALE as int)) by (nonlinear_arith)
                requires
                    0 <= pos < 0x1000000,
                    0 <= sz <= SCALE,
            ;
            assert((pos as int) * (sz as int) >= 0) by (nonlinear_arith)
                requires
                    0 <= pos,
                    0 <= sz,
            ;
        }
        proof {
            assert(2 * (pos as int) * (sz as int) == 2 * ((pos as int) * (sz as int)))
                by (nonlinear_arith);
        }
        let scaled: i64 = (pos as i64) * sz;
        Fx { bits: 2 * scaled + sz - SCALE }
    }

    /// The address of the cell at depth `lod` containing the map-space
    /// point `pos`, each coordinate clamped into the grid.
    pub fn new_from_float(pos: [Fx; 3], lod: u8) -> (r: LodCoords)
        requires
            lod <= 24,
            fx_wf(pos[0]),
            fx_wf(pos[1]),
            fx_wf(pos[2]),
        ensures
            r.lod == lod,
            r.pos[0] as int == lod_cell_of(pos[0].bits as int, lod),
            r.pos[1] as int == lod_cell_of(pos[1].bits as int, lod),
            r.pos[2] as int == lod_cell_of(pos[2].bits as int, lod),
            lod_coords_wf(r),
    {
        let cells: u64 = 1u64 << (lod as u64);
        proof {
            let l = lod as u64;
            assert(l <= 24 ==> 1u64 <= (1u64 << l) && (1u64 << l) <= 0x1000000u64) by (bit_vector);
        }
        let c0 = Self::cell_axis(pos[0], cells);
        let c1 = Self::cell_axis(pos[1], cells);
        let c2 = Self::cell_axis(pos[2], cells);
        let r = LodCoords { pos: [c0, c1, c2], lod };
        proof {
            assert(lod_coords_wf(r));
        }
        r
    }

    /// The address of the cell at depth `lod` containing the world-space
    /// point `pos` of a volume of side length `world_size`: the point is
    /// first brought onto the minus-one-to-one scale by dividing by half
    /// the side length.  The point must lie within the volume.
    pub fn new_from_world(pos: [Fx; 3], lod: u8, world_size: Fx) -> (r: LodCoords)
        requires
            lod <= 24,
            2 * FX_DIV_MIN <= world_size.bits <= 2 * FX_LIM,
            iabs(pos[0].bits as int) <= world_size.bits / 2,
            iabs(pos[1].bits as int) <= world_size.bits / 2,
            iabs(pos[2].bits as int) <= world_size.bits / 2,
        ensures
            r.lod == lod,
            r.pos[0] as int == lod_cell_of(
                fx_div_bits(pos[0].bits as int, world_size.bits as int / 2),
                lod,
            ),
            r.pos[1] as int == lod_cell_of(
                fx_div_bits(pos[1].bits as int, world_size.bits as int / 2),
                lod,
            ),
            r.pos[2] as int == lod_cell_of(
                fx_div_bits(pos[2].bits as int, world_size.bits as int / 2),
                lod,
            ),
            lod_coords_wf(r),
    {
        let half = Fx { bits: ((world_size.bits as u64) / 2) as i64 };
        proof {
            crate::scalar::lemma_fx_div_bits_within(pos[0].bits as int, half.bits as int);
            crate::scalar::lemma_fx_div_bits_within(pos[1].bits as int, half.bits as int);
            crate::scalar::lemma_fx_div_bits_within(pos[2].bits as int, half.bits as int);
        }
        let q0 = crate::scalar::fx_div(pos[0], half);
        let q1 = crate::scalar::fx_div(pos[1], half);
        let q2 = crate::scalar::fx_div(pos[2], half);
        Self::new_from_float([q0, q1, q2], lod)
    }

    /// One axis of the cell computation.
    fn cell_axis(p: Fx, cells: u64) -> (r: u32)
        requires
            fx_wf(p),
            1 <= cells <= 0x1000000u64,
        ensures
            r as int == ({
                let t = p.bits as int + SCALE as int;
                if t < 0 {
                    0int
                } else {
                    let u = t * (cells as int) / (2 * SCALE as int);
                    if u >= cells as int {
                        cells as int - 1
                    } else {
                        u
                    }
                }
            }),
            (r as u64) < cells,
    {
        if p.bits < -SCALE {
            return 0u32;
        }
        let t: u64 = (p.bits + SCALE) as u64;
        proof {
            assert((t as int) * (cells as int) <= u128::MAX as int) by (nonlinear_arith)
                requires
                    0 <= t as int <= u64::MAX as int,
                    0 <= cells as int <= u64::MAX as int,
            ;
        }
        let m: u128 = (t as u128) * (cells as u128);
        let u: u128 = m / ((2 * SCALE) as u128);
        proof {
            assert((m as int) / (2 * SCALE as int) <= (u64::MAX as int) * 0x1000000 / (2
                * SCALE as int)) by {
                vstd::arithmetic::div_mod::lemma_div_is_ordered_by_denominator(m as int, 1, 2
                    * SCALE as int);
                assert((t as int) * (cells as int) <= (u64::MAX as int) * 0x1000000)
                    by (nonlinear_arith)
                    requires
                        0 <= t as int <= u64::MAX as int,
                        0 <= cells as int <= 0x1000000,
                ;
                vstd::arithmetic::div_mod::lemma_div_is_ordered(m as int, (u64::MAX as int)
                    * 0x1000000, 2 * SCALE as int);
            }
        }
        if u >= cells as u128 {
            (cells - 1) as u32
        } else {
            u as u32
        }
    }
}

/// A cell's centre computed with a widened size `s` of at most twice the
/// cell size stays within three units of the origin.
pub proof fn lemma_bled_center_in_range(c: LodCoords, s: int)
    requires
        lod_coords_wf(c),
        0 <= s <= 2 * lod_size_bits(c.lod),
    ensures
        -(SCALE as int) <= 2 * (c.pos[0] as int) * s + s - SCALE as int <= 3 * SCALE as int,
        -(SCALE as int) <= 2 * (c.pos[1] as int) * s + s - SCALE as int <= 3 * SCALE as int,
        -(SCALE as int) <= 2 * (c.pos[2] as int) * s + s - SCALE as int <= 3 * SCALE as int,
{
    let l = c.lod as u64;
    let p0 = c.pos[0] as u64;
    let p1 = c.pos[1] as u64;
    let p2 = c.pos[2] as u64;
    let sz = (SCALE as u64) >> l;
    let cells = 1u64 << l;
    assert(l <= 24 ==> ((SCALE as u64) >> l >= 1 && (SCALE as u64) >> l <= SCALE as u64 && (1u64
        << l) * ((SCALE as u64) >> l) == SCALE as u64 && 1u64 <= (1u64 << l))) by (bit_vector);
    lemma_bled_center_axis_range(p0 as int, s, sz as int, cells as int);
    lemma_bled_center_axis_range(p1 as int, s, sz as int, cells as int);
    lemma_bled_center_axis_range(p2 as int, s, sz as int, cells as int);
}

proof fn lemma_bled_center_axis_range(pos: int, s: int, sz: int, cells: int)
    requires
        0 <= pos < cells,
        1 <= sz,
        0 <= s <= 2 * sz,
        cells * sz == SCALE as int,
    ensures
        -(SCALE as int) <= 2 * pos * s + s - SCALE as int <= 3 * SCALE as int,
{
    // pos * s is at most (cells - 1) * 2 * sz, which is 2 * (SCALE - sz).
    assert(0 <= pos * s && pos * s <= 2 * ((SCALE as int) - sz)) by (nonlinear_arith)
        requires
            0 <= pos <= cells - 1,
            1 <= sz,
            0 <= s <= 2 * sz,
            cells * sz == SCALE as int,
    ;
    assert(2 * pos * s == 2 * (pos * s)) by (nonlinear_arith);
}

/// A map-space placement: a centre position and a size.
#[derive(Debug, Clone, Copy, PartialEq)]
pub struct Transform {
    pub position: [Fx; 3],
    pub scale: [Fx; 3],
}

pub open spec fn transform_wf(t: Transform) -> bool {
    fx_wf(t.position[0]) && fx_wf(t.position[1]) && fx_wf(t.position[2]) && fx_wf(t.scale[0])
        && fx_wf(t.scale[1]) && fx_wf(t.scale[2])
}

/// The transform of an address: its centre and its size in map space.
pub open spec fn transform_of_coords(c: LodCoords) -> Transform {
    Transform { position: lod_center_array(c), scale: lod_scale_array(c) }
}

impl From<LodCoords> for Transform {
    /// The transform whose position is the chunk's centre and whose scale is
    /// the chunk's size.  An address outside its grid yields the identity
    /// placement.
    fn from(v: LodCoords) -> (r: Transform)
        ensures
            lod_coords_wf(v) ==> r == transform_of_coords(v),
    {
        let ok = v.lod <= 24 && (v.pos[0] as u64) < (1u64 << (v.lod as u64)) && (v.pos[1] as u64)
            < (1u64 << (v.lod as u64)) && (v.pos[2] as u64) < (1u64 << (v.lod as u64));
        if ok {
            let position = v.float_center_coords();
            let size = v.float_size();
            Transform { position, scale: [size, size, size] }
        } else {
            let zero = Fx { bits: 0 };
            let one = Fx { bits: SCALE };
            Transform { position: [zero, zero, zero], scale: [one, one, one] }
        }
    }
}

impl vstd::std_specs::convert::FromSpecImpl<LodCoords> for Transform {
    open spec fn obeys_from_spec() -> bool {
        false
    }

    open spec fn from_spec(v: LodCoords) -> Transform {
        transform_of_coords(v)
    }
}

/// The remapping of a compiled field into the coordinates of a transform:
/// each coordinate is scaled by the transform's scale and moved to its
/// position before the field is evaluated.
pub open spec fn transform_context_field(root: FieldNode, t: Transform) -> FieldNode {
    FieldNode::Remap(
        Box::new(root),
        Box::new(FieldNode::Add(
            Box::new(FieldNode::Mul(Box::new(FieldNode::X), Box::new(FieldNode::Const(t.scale[0])))),
            Box::new(FieldNode::Const(t.position[0])),
        )),
        Box::new(FieldNode::Add(
            Box::new(FieldNode::Mul(Box::new(FieldNode::Y), Box::new(FieldNode::Const(t.scale[1])))),
            Box::new(FieldNode::Const(t.position[1])),
        )),
        Box::new(FieldNode::Add(
            Box::new(FieldNode::Mul(Box::new(FieldNode::Z), Box::new(FieldNode::Const(t.scale[2])))),
            Box::new(FieldNode::Const(t.position[2])),
        )),
    )
}

/// Remaps a compiled field into the local coordinates of `transform`.
pub fn transform_context(root: FieldNode, transform: &Transform) -> (r: FieldNode)
    ensures
        r == transform_context_field(root, *transform),
{
    let sx = FieldNode::Mul(Box::new(FieldNode::X), Box::new(FieldNode::Const(transform.scale[0])));
    let sy = FieldNode::Mul(Box::new(FieldNode::Y), Box::new(FieldNode::Const(transform.scale[1])));
    let sz = FieldNode::Mul(Box::new(FieldNode::Z), Box::new(FieldNode::Const(transform.scale[2])));
    let tx = FieldNode::Add(Box::new(sx), Box::new(FieldNode::Const(transform.position[0])));
    let ty = FieldNode::Add(Box::new(sy), Box::new(FieldNode::Const(transform.position[1])));
    let tz = FieldNode::Add(Box::new(sz), Box::new(FieldNode::Const(transform.position[2])));
    FieldNode::Remap(Box::new(root), Box::new(tx), Box::new(ty), Box::new(tz))
}

impl Transform {
    /// The point `point * scale + position`, the map-to-world application of
    /// the transform.
    pub fn transform_point(&self, point: [Fx; 3]) -> (r: [Fx; 3])
        requires
            transform_wf(*self),
            fx_wf(point[0]),
            fx_wf(point[1]),
            fx_wf(point[2]),
        ensures
            r[0].bits == fx_mul_bits(point[0].bits as int, self.scale[0].bits as int)
                + self.position[0].bits,
            r[1].bits == fx_mul_bits(point[1].bits as int, self.scale[1].bits as int)
                + self.position[1].bits,
            r[2].bits == fx_mul_bits(point[2].bits as int, self.scale[2].bits as int)
                + self.position[2].bits,
    {
        let r0 = Self::point_axis(point[0], self.scale[0], self.position[0]);
        let r1 = Self::point_axis(point[1], self.scale[1], self.position[1]);
        let r2 = Self::point_axis(point[2], self.scale[2], self.position[2]);
        [r0, r1, r2]
    }

    /// One axis of the point transform.
    fn point_axis(p: Fx, s: Fx, o: Fx) -> (r: Fx)
        requires
            fx_wf(p),
            fx_wf(s),
            fx_wf(o),
        ensures
            r.bits == fx_mul_bits(p.bits as int, s.bits as int) + o.bits,
    {
        let m = crate::scalar::fx_mul(p, s);
        proof {
            crate::scalar::lemma_fx_mul_bits_bound(p.bits as int, s.bits as int);
        }
        crate::scalar::fx_add(m, o)
    }

    /// The direction `normal / scale`, the transform's action on normals.
    pub fn transform_normal(&self, normal: [Fx; 3]) -> (r: [Fx; 3])
        requires
            fx_wf(normal[0]),
            fx_wf(normal[1]),
            fx_wf(normal[2]),
            FX_DIV_MIN <= iabs(self.scale[0].bits as int) <= FX_LIM,
            FX_DIV_MIN <= iabs(self.scale[1].bits as int) <= FX_LIM,
            FX_DIV_MIN <= iabs(self.scale[2].bits as int) <= FX_LIM,
        ensures
            r[0].bits == fx_div_bits(normal[0].bits as int, self.scale[0].bits as int),
            r[1].bits == fx_div_bits(normal[1].bits as int, self.scale[1].bits as int),
            r[2].bits == fx_div_bits(normal[2].bits as int, self.scale[2].bits as int),
    {
        let r0 = crate::scalar::fx_div(normal[0], self.scale[0]);
        let r1 = crate::scalar::fx_div(normal[1], self.scale[1]);
        let r2 = crate::scalar::fx_div(normal[2], self.scale[2]);
        [r0, r1, r2]
    }

    /// The inverse placement: applying the result after `self` returns every
    /// point to where it started, up to rounding.
    pub fn invert(&self) -> (r: Transform)
        requires
            fx_wf(self.position[0]),
            fx_wf(self.position[1]),
            fx_wf(self.position[2]),
            FX_DIV_MIN <= iabs(self.scale[0].bits as int) <= FX_LIM,
            FX_DIV_MIN <= iabs(self.scale[1].bits as int) <= FX_LIM,
            FX_DIV_MIN <= iabs(self.scale[2].bits as int) <= FX_LIM,
        ensures
            r.scale[0].bits == fx_div_bits(SCALE as int, self.scale[0].bits as int),
            r.scale[1].bits == fx_div_bits(SCALE as int, self.scale[1].bits as int),
            r.scale[2].bits == fx_div_bits(SCALE as int, self.scale[2].bits as int),
            r.position[0].bits == fx_div_bits(-(self.position[0].bits as int),
                self.scale[0].bits as int),
            r.position[1].bits == fx_div_bits(-(self.position[1].bits as int),
                self.scale[1].bits as int),
            r.position[2].bits == fx_div_bits(-(self.position[2].bits as int),
                self.scale[2].bits as int),
    {
        let one = Fx { bits: SCALE };
        let inv_scale = [
            crate::scalar::fx_div(one, self.scale[0]),
            crate::scalar::fx_div(one, self.scale[1]),
            crate::scalar::fx_div(one, self.scale[2]),
        ];
        let inv_position = [
            crate::scalar::fx_div(crate::scalar::fx_neg(self.position[0]), self.scale[0]),
            crate::scalar::fx_div(crate::scalar::fx_neg(self.position[1]), self.scale[1]),
            crate::scalar::fx_div(crate::scalar::fx_neg(self.position[2]), self.scale[2]),
        ];
        Transform { position: inv_position, scale: inv_scale }
    }
}

} // verus!
