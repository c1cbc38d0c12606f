//! Triangle meshes extracted from a field, and the operations the pipeline
//! applies to them: pruning the bleed overlap and denormalizing into world
//! space, plus the decoding of evaluated colour values into rgb channels.

use vstd::prelude::*;
use vstd::arithmetic::div_mod::{lemma_div_by_multiple, lemma_fundamental_div_mod_converse};
use crate::scalar::{Fx, SCALE, fx_wf, fx_mul_bits};
use crate::nso::{COLOR_OFFSET_BITS, color_const, rgb24_of};
use crate::coords::{Transform, transform_wf};

verus! {

/// An indexed triangle mesh with optional per-vertex normals and colours.
pub struct FullMesh {
    pub vertices: Vec<[Fx; 3]>,
    pub triangles: Vec<[u32; 3]>,
    pub normals: Option<Vec<[Fx; 3]>>,
    pub colors: Option<Vec<[u8; 4]>>,
}

/// Every coordinate of the vertex lies within the canonical unit region.
pub open spec fn vertex_in_bounds(v: [Fx; 3]) -> bool {
    -SCALE <= v[0].bits <= SCALE && -SCALE <= v[1].bits <= SCALE && -SCALE <= v[2].bits <= SCALE
}

/// The triangle's three corners name vertices of the mesh.
pub open spec fn tri_indices_valid(verts: Seq<[Fx; 3]>, t: [u32; 3]) -> bool {
    (t[0] as int) < verts.len() && (t[1] as int) < verts.len() && (t[2] as int) < verts.len()
}

/// The triangle survives pruning: all three of its vertices lie within the
/// canonical unit region.
pub open spec fn tri_keep(verts: Seq<[Fx; 3]>, t: [u32; 3]) -> bool {
    tri_indices_valid(verts, t) && vertex_in_bounds(verts[t[0] as int]) && vertex_in_bounds(
        verts[t[1] as int],
    ) && vertex_in_bounds(verts[t[2] as int])
}

/// Every triangle's corners name vertices of the mesh.
pub open spec fn full_mesh_wf(m: FullMesh) -> bool {
    forall|i: int|
        0 <= i < m.triangles@.len() ==> tri_indices_valid(m.vertices@, #[trigger] m.triangles@[i])
}

pub open spec fn vertex_fx_wf(v: [Fx; 3]) -> bool {
    fx_wf(v[0]) && fx_wf(v[1]) && fx_wf(v[2])
}

/// Every vertex coordinate is small enough for fixed-point arithmetic.
pub open spec fn mesh_coords_wf(m: FullMesh) -> bool {
    forall|i: int| 0 <= i < m.vertices@.len() ==> vertex_fx_wf(#[trigger] m.vertices@[i])
}

/// The rgba channels decoded from an evaluated colour-field value: values
/// below the colour offset are the white sentinel; above it, the value is
/// rescaled back to the 24-bit packed channels.
pub open spec fn color_decoded(val: Fx) -> [u8; 4] {
    if val.bits < COLOR_OFFSET_BITS {
        [255u8, 255u8, 255u8, 255u8]
    } else {
        let u = (val.bits - COLOR_OFFSET_BITS) as int / 900;
        [(u / 65536 % 256) as u8, (u / 256 % 256) as u8, (u % 256) as u8, 255u8]
    }
}

fn vertex_within(v: &[Fx; 3]) -> (r: bool)
    ensures
        r == vertex_in_bounds(*v),
{
    -SCALE <= v[0].bits && v[0].bits <= SCALE && -SCALE <= v[1].bits && v[1].bits <= SCALE
        && -SCALE <= v[2].bits && v[2].bits <= SCALE
}

impl FullMesh {
    /// An empty mesh: a valid result that signals "no surface here".
    pub fn new_empty() -> (r: FullMesh)
        ensures
            r.vertices@.len() == 0,
            r.triangles@.len() == 0,
            r.normals matches Option::None,
            r.colors matches Option::None,
            full_mesh_wf(r),
            mesh_coords_wf(r),
    {
        FullMesh { vertices: Vec::new(), triangles: Vec::new(), normals: None, colors: None }
    }

    /// Discards every triangle that references a vertex outside the
    /// canonical unit region.  Such vertices exist only because of the bleed
    /// expansion; the surviving triangles all lie within the chunk's own
    /// bounds.
    pub fn prune(&mut self)
        requires
            full_mesh_wf(*old(self)),
        ensures
            final(self).vertices == old(self).vertices,
            final(self).normals == old(self).normals,
            final(self).colors == old(self).colors,
            final(self).triangles@ == old(self).triangles@.filter(
                |t: [u32; 3]| tri_keep(old(self).vertices@, t),
            ),
            forall|j: int|
                0 <= j < final(self).triangles@.len() ==> tri_keep(
                    old(self).vertices@,
                    #[trigger] final(self).triangles@[j],
                ),
            full_mesh_wf(*final(self)),
    {
        let ghost verts = self.vertices@;
        let ghost pred = |t: [u32; 3]| tri_keep(verts, t);
        let mut kept: Vec<[u32; 3]> = Vec::new();
        let mut i: usize = 0;
        while i < self.triangles.len()
            invariant
                i <= self.triangles@.len(),
                full_mesh_wf(*self),
                verts == self.vertices@,
                *self == *old(self),
                kept@ == self.triangles@.take(i as int).filter(pred),
                pred == (|t: [u32; 3]| tri_keep(verts, t)),
            decreases self.triangles@.len() - i,
        {
            let t = self.triangles[i];
            let v0 = &self.vertices[t[0] as usize];
            let v1 = &self.vertices[t[1] as usize];
            let v2 = &self.vertices[t[2] as usize];
            let keep = vertex_within(v0) && vertex_within(v1) && vertex_within(v2);
            if keep {
                kept.push(t);
            }
            proof {
                reveal(Seq::filter);
                assert(keep == pred(t));
                assert(self.triangles@.take(i + 1).drop_last() =~= self.triangles@.take(i as int));
                assert(self.triangles@.take(i + 1).last() == t);
                assert(kept@ =~= self.triangles@.take(i + 1).filter(pred));
            }
            i = i + 1;
        }
        proof {
            assert(self.triangles@.take(i as int) =~= self.triangles@);
        }
        self.triangles = kept;
        proof {
            broadcast use vstd::seq_lib::group_filter_ensures;

        }
    }

    /// Applies a placement to every vertex: `v * scale + position`.
    /// Triangles, normals and colours are untouched.
    pub fn transform(&mut self, transform: &Transform)
        requires
            full_mesh_wf(*old(self)),
            mesh_coords_wf(*old(self)),
            transform_wf(*transform),
        ensures
            final(self).triangles == old(self).triangles,
            final(self).normals == old(self).normals,
            final(self).colors == old(self).colors,
            final(self).vertices@.len() == old(self).vertices@.len(),
            forall|j: int|
                0 <= j < old(self).vertices@.len() ==> (#[trigger] final(self).vertices@[j])[0].bits
                    == fx_mul_bits(
                    old(self).vertices@[j][0].bits as int,
                    transform.scale[0].bits as int,
                ) + transform.position[0].bits && final(self).vertices@[j][1].bits == fx_mul_bits(
                    old(self).vertices@[j][1].bits as int,
                    transform.scale[1].bits as int,
                ) + transform.position[1].bits && final(self).vertices@[j][2].bits == fx_mul_bits(
                    old(self).vertices@[j][2].bits as int,
                    transform.scale[2].bits as int,
                ) + transform.position[2].bits,
            full_mesh_wf(*final(self)),
    {
        let mut moved: Vec<[Fx; 3]> = Vec::new();
        let mut j: usize = 0;
        while j < self.vertices.len()
            invariant
                j <= self.vertices@.len(),
                *self == *old(self),
                full_mesh_wf(*self),
                mesh_coords_wf(*self),
                transform_wf(*transform),
                moved@.len() == j,
                forall|k: int|
                    0 <= k < j ==> (#[trigger] moved@[k])[0].bits == fx_mul_bits(
                        self.vertices@[k][0].bits as int,
                        transform.scale[0].bits as int,
                    ) + transform.position[0].bits && moved@[k][1].bits == fx_mul_bits(
                        self.vertices@[k][1].bits as int,
                        transform.scale[1].bits as int,
                    ) + transform.position[1].bits && moved@[k][2].bits == fx_mul_bits(
                        self.vertices@[k][2].bits as int,
                        transform.scale[2].bits as int,
                    ) + transform.position[2].bits,
            decreases self.vertices@.len() - j,
        {
            let v = self.vertices[j];
            let w = transform.transform_point(v);
            moved.push(w);
            j = j + 1;
        }
        self.vertices = moved;
    }

    /// Applies `v * size + pos` to every vertex: the denormalization of a
    /// chunk-local mesh into the region of size `size` at `pos`.
    pub fn denormalize(&mut self, pos: [Fx; 3], size: [Fx; 3])
        requires
            full_mesh_wf(*old(self)),
            mesh_coords_wf(*old(self)),
            fx_wf(pos[0]),
            fx_wf(pos[1]),
            fx_wf(pos[2]),
            fx_wf(size[0]),
            fx_wf(size[1]),
            fx_wf(size[2]),
        ensures
            final(self).triangles == old(self).triangles,
            final(self).normals == old(self).normals,
            final(self).colors == old(self).colors,
            final(self).vertices@.len() == old(self).vertices@.len(),
            forall|j: int|
                0 <= j < old(self).vertices@.len() ==> (#[trigger] final(self).vertices@[j])[0].bits
                    == fx_mul_bits(old(self).vertices@[j][0].bits as int, size[0].bits as int)
                    + pos[0].bits && final(self).vertices@[j][1].bits == fx_mul_bits(
                    old(self).vertices@[j][1].bits as int,
                    size[1].bits as int,
                ) + pos[1].bits && final(self).vertices@[j][2].bits == fx_mul_bits(
                    old(self).vertices@[j][2].bits as int,
                    size[2].bits as int,
                ) + pos[2].bits,
            full_mesh_wf(*final(self)),
    {
        let placement = Transform { position: pos, scale: size };
        self.transform(&placement);
    }
}

/// Decodes one evaluated colour-field value into rgba channels, as
/// [`color_decoded`] states: below the offset is the white sentinel, above
/// it the 24-bit packed channels are recovered.
pub fn transform_implicit_color(val: Fx) -> (r: [u8; 4])
    ensures
        r == color_decoded(val),
{
    if val.bits < COLOR_OFFSET_BITS {
        return [255u8, 255u8, 255u8, 255u8];
    }
    let u: u64 = ((val.bits - COLOR_OFFSET_BITS) as u64) / 900;
    let red = ((u / 65536) % 256) as u8;
    let green = ((u / 256) % 256) as u8;
    let blue = (u % 256) as u8;
    [red, green, blue, 255u8]
}

/// Decodes a batch of evaluated colour-field values, one vertex each.
pub fn decode_implicit_colors(values: &Vec<Fx>) -> (r: Vec<[u8; 4]>)
    ensures
        r@.len() == values@.len(),
        forall|j: int| 0 <= j < values@.len() ==> r@[j] == color_decoded(#[trigger] values@[j]),
{
    let mut out: Vec<[u8; 4]> = Vec::new();
    let mut i: usize = 0;
    while i < values.len()
        invariant
            i <= values@.len(),
            out@.len() == i,
            forall|j: int| 0 <= j < i ==> out@[j] == color_decoded(#[trigger] values@[j]),
        decreases values@.len() - i,
    {
        let c = transform_implicit_color(values[i]);
        out.push(c);
        i = i + 1;
    }
    out
}

/// Encoding an rgb colour into the packed colour constant and decoding the
/// constant's value recovers the same channels exactly.
pub proof fn lemma_color_roundtrip(rgb: [u8; 3])
    ensures
        color_decoded(color_const(rgb24_of(rgb))) == [rgb[0], rgb[1], rgb[2], 255u8],
{
    let rgb24 = rgb24_of(rgb);
    let val = color_const(rgb24);
    assert(0 <= rgb24 < 16777216);
    assert(val.bits == rgb24 * 900 + COLOR_OFFSET_BITS as int);
    assert(val.bits >= COLOR_OFFSET_BITS);
    let u = (val.bits - COLOR_OFFSET_BITS) as int / 900;
    lemma_div_by_multiple(rgb24, 900);
    assert(u == rgb24);
    let r = rgb[0] as int;
    let g = rgb[1] as int;
    let b = rgb[2] as int;
    // Peel the three channels off the packed value.
    lemma_fundamental_div_mod_converse(u, 65536, r, g * 256 + b);
    lemma_fundamental_div_mod_converse(u, 256, r * 256 + g, b);
    lemma_fundamental_div_mod_converse(r, 256, 0, r);
    lemma_fundamental_div_mod_converse(r * 256 + g, 256, r, g);
    assert(u / 65536 % 256 == r);
    assert(u / 256 % 256 == g);
    assert(u % 256 == b);
}

} // verus!
