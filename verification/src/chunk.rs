//! The per-chunk pipeline.
//!
//! A [`Template`] carries everything a level-of-detail pass needs: the
//! composition to mesh, the world volume size, the per-chunk octree detail,
//! the neighbour halo, the bleed factor and the target addresses.
//! [`build_tree`] materializes the chunk addresses; [`chunk_solid_field`]
//! and [`chunk_color_field`] compile the composition and remap it into one
//! chunk's local coordinates, ready for an outside evaluation engine to
//! compile into a tape and mesh; [`assemble_chunk`] takes the extracted
//! mesh back, prunes the bleed overlap and denormalizes the survivors into
//! world space.

use vstd::prelude::*;
use crate::scalar::{Fx, SCALE, FX_LIM, fx_mul_bits, iabs, lemma_fx_mul_bits_scaled};
use crate::field::FieldNode;
use crate::comp::{Composition, CompilationSettings, comp_wf, comp_has_matrix, comp_solid_field,
    comp_color_field, settings_wf};
use crate::shape::CompileError;
use crate::coords::{LodCoords, Transform, lod_coords_wf, lod_size_bits, transform_wf,
    transform_context, transform_context_field, lemma_bled_center_in_range};
use crate::lod::{lod_coords_wf8, chunk_in_lod_tree, build_tree_coords};
use crate::mesh::{FullMesh, full_mesh_wf, mesh_coords_wf, tri_keep};
use crate::nso::DEFAULT_BLEED_BITS;

verus! {

/// The configuration of a level-of-detail pass.
pub struct Template {
    /// The composition to mesh.
    pub source: Composition,
    /// The side length of the world volume, in world units.
    pub volume_size: Fx,
    /// The octree depth used within each chunk.
    pub local_chunk_detail: u8,
    /// How many rings of same-depth neighbours surround each target.
    pub neighbor_count: u8,
    /// How far each chunk's evaluated region overlaps its neighbours;
    /// one means no overlap.
    pub chunk_mesh_bleed: Fx,
    /// The addresses around which detail is wanted.
    pub targets: Vec<LodCoords>,
    /// Whether the field is remapped into world space before evaluation
    /// rather than after meshing.
    pub world_space_eval: bool,
}

/// The numeric bounds are fixed-point headroom, not policy: a volume of at
/// most `FX_LIM` steps and an overlap factor of at most two (far above the
/// configured ten percent) keep every scalar of the derived transforms
/// within the range the fixed-point operations accept.
pub open spec fn template_wf(t: Template) -> bool {
    &&& comp_wf(t.source.shapes@)
    &&& 0 <= t.volume_size.bits <= FX_LIM
    &&& 0 <= t.chunk_mesh_bleed.bits <= 2 * SCALE
    &&& t.local_chunk_detail <= 24
    &&& forall|i: int| 0 <= i < t.targets@.len() ==> lod_coords_wf8(#[trigger] t.targets@[i])
}

/// A finished chunk: its metadata and its world-space mesh.
pub struct Chunk(pub ChunkMetadata, pub FullMesh);

/// What a built chunk carries beside its mesh: a snapshot of the template
/// it was built from, the address it covers, and the compiled solid field
/// whose tape the evaluation engine meshed.
pub struct ChunkMetadata {
    pub template: Template,
    pub coords: LodCoords,
    pub field: FieldNode,
}

/// The minimum voxel size implied by a per-chunk detail: the chunk spans
/// two map units across `2^detail` voxels.
pub open spec fn detail_voxel_bits(detail: u8) -> int {
    (((2 * SCALE) as u64) >> (detail as u64)) as int
}

/// A quarter of a nonnegative scalar, in steps: the map-to-world scaling of
/// the volume.
pub open spec fn quarter_bits(v: Fx) -> int {
    (v.bits as int) / 4
}

/// The cell size widened by the bleed factor, in steps.
pub open spec fn bled_size_bits(lod: u8, bleed: Fx) -> int {
    fx_mul_bits(lod_size_bits(lod), bleed.bits as int)
}

/// The chunk centre along one axis, in steps, computed with the bled size
/// `s` as the address-to-map formula prescribes:
/// `(address * size + size / 2) * 2 - 1`.
pub open spec fn bled_center_bits(pos: u32, lod: u8, bleed: Fx) -> int {
    2 * (pos as int) * bled_size_bits(lod, bleed) + bled_size_bits(lod, bleed) - SCALE as int
}

/// The map-space placement of a chunk: both the centre and the size are
/// computed with the bled cell size.
pub open spec fn map_transform_spec(c: LodCoords, bleed: Fx) -> Transform {
    Transform {
        position: [
            Fx { bits: bled_center_bits(c.pos[0], c.lod, bleed) as i64 },
            Fx { bits: bled_center_bits(c.pos[1], c.lod, bleed) as i64 },
            Fx { bits: bled_center_bits(c.pos[2], c.lod, bleed) as i64 },
        ],
        scale: [
            Fx { bits: bled_size_bits(c.lod, bleed) as i64 },
            Fx { bits: bled_size_bits(c.lod, bleed) as i64 },
            Fx { bits: bled_size_bits(c.lod, bleed) as i64 },
        ],
    }
}

/// The world-space placement of a chunk: the map placement, position and
/// scale both scaled by a quarter of the volume size.
pub open spec fn world_transform_spec(c: LodCoords, bleed: Fx, volume: Fx) -> Transform {
    Transform {
        position: [
            Fx { bits: fx_mul_bits(bled_center_bits(c.pos[0], c.lod, bleed),
                quarter_bits(volume)) as i64 },
            Fx { bits: fx_mul_bits(bled_center_bits(c.pos[1], c.lod, bleed),
                quarter_bits(volume)) as i64 },
            Fx { bits: fx_mul_bits(bled_center_bits(c.pos[2], c.lod, bleed),
                quarter_bits(volume)) as i64 },
        ],
        scale: [
            Fx { bits: fx_mul_bits(bled_size_bits(c.lod, bleed), quarter_bits(volume)) as i64 },
            Fx { bits: fx_mul_bits(bled_size_bits(c.lod, bleed), quarter_bits(volume)) as i64 },
            Fx { bits: fx_mul_bits(bled_size_bits(c.lod, bleed), quarter_bits(volume)) as i64 },
        ],
    }
}

/// The placement under which a chunk's field is evaluated: world space when
/// the template asks for it, map space otherwise.
pub open spec fn eval_transform_spec(t: Template, c: LodCoords) -> Transform {
    if t.world_space_eval {
        world_transform_spec(c, t.chunk_mesh_bleed, t.volume_size)
    } else {
        map_transform_spec(c, t.chunk_mesh_bleed)
    }
}

/// The solid field of one chunk: the composition's solid field remapped
/// into the chunk's evaluation coordinates.
pub open spec fn chunk_solid_spec(t: Template, c: LodCoords) -> FieldNode {
    transform_context_field(
        comp_solid_field(t.source.shapes@, Fx { bits: detail_voxel_bits(t.local_chunk_detail) as i64 }),
        eval_transform_spec(t, c),
    )
}

/// The colour field of one chunk, remapped the same way.
pub open spec fn chunk_color_spec(t: Template, c: LodCoords) -> FieldNode {
    transform_context_field(
        comp_color_field(t.source.shapes@, Fx { bits: detail_voxel_bits(t.local_chunk_detail) as i64 }),
        eval_transform_spec(t, c),
    )
}

impl Template {
    /// The compilation settings a chunk of this template is compiled under.
    pub fn chunk_settings(&self) -> (r: CompilationSettings)
        requires
            self.local_chunk_detail <= 24,
        ensures
            r.min_voxel_size.bits == detail_voxel_bits(self.local_chunk_detail),
            settings_wf(r),
    {
        let d: u64 = self.local_chunk_detail as u64;
        let bits: u64 = ((2 * SCALE) as u64) >> d;
        proof {
            assert(((2 * SCALE) as u64) >> d <= (2 * SCALE) as u64) by (bit_vector);
        }
        CompilationSettings { min_voxel_size: Fx { bits: bits as i64 } }
    }

    /// The map-space placement of the chunk at `coords`: centre and size,
    /// both computed with the bled cell size.
    pub fn map_transform(&self, coords: LodCoords) -> (r: Transform)
        requires
            template_wf(*self),
            lod_coords_wf(coords),
        ensures
            r == map_transform_spec(coords, self.chunk_mesh_bleed),
            r.position[0].bits == bled_center_bits(coords.pos[0], coords.lod,
                self.chunk_mesh_bleed),
            r.position[1].bits == bled_center_bits(coords.pos[1], coords.lod,
                self.chunk_mesh_bleed),
            r.position[2].bits == bled_center_bits(coords.pos[2], coords.lod,
                self.chunk_mesh_bleed),
            r.scale[0].bits == bled_size_bits(coords.lod, self.chunk_mesh_bleed),
            r.scale[1] == r.scale[0] && r.scale[2] == r.scale[0],
            transform_wf(r),
            iabs(r.scale[0].bits as int) <= 2 * SCALE,
            iabs(r.position[0].bits as int) <= 3 * SCALE,
            iabs(r.position[1].bits as int) <= 3 * SCALE,
            iabs(r.position[2].bits as int) <= 3 * SCALE,
    {
        let size = coords.float_size();
        let bled = crate::scalar::fx_mul(size, self.chunk_mesh_bleed);
        proof {
            // The widened size is nonnegative and at most twice the cell
            // size, so the bled centres stay within three units.
            assert(size.bits as int * (self.chunk_mesh_bleed.bits as int) >= 0)
                by (nonlinear_arith)
                requires
                    size.bits >= 0,
                    self.chunk_mesh_bleed.bits >= 0,
            ;
            lemma_fx_mul_bits_scaled(self.chunk_mesh_bleed.bits as int, size.bits as int, 2);
            assert(size.bits as int * (self.chunk_mesh_bleed.bits as int)
                == (self.chunk_mesh_bleed.bits as int) * (size.bits as int));
            lemma_bled_center_in_range(coords, bled.bits as int);
            let p0 = coords.pos[0] as u64;
            let p1 = coords.pos[1] as u64;
            let p2 = coords.pos[2] as u64;
            let l = coords.lod as u64;
            assert(p0 < (1u64 << l) && l <= 24 ==> p0 < 0x1000000u64) by (bit_vector);
            assert(p1 < (1u64 << l) && l <= 24 ==> p1 < 0x1000000u64) by (bit_vector);
            assert(p2 < (1u64 << l) && l <= 24 ==> p2 < 0x1000000u64) by (bit_vector);
        }
        let c0 = Self::bled_center_axis(coords.pos[0], bled.bits);
        let c1 = Self::bled_center_axis(coords.pos[1], bled.bits);
        let c2 = Self::bled_center_axis(coords.pos[2], bled.bits);
        Transform { position: [c0, c1, c2], scale: [bled, bled, bled] }
    }

    /// One axis of the bled centre: `(pos * s + s / 2) * 2 - 1` with the
    /// halving folded away.
    fn bled_center_axis(pos: u32, s: i64) -> (r: Fx)
        requires
            pos < 0x1000000u32,
            0 <= s <= 2 * SCALE,
        ensures
            r.bits == 2 * (pos as int) * s + s - SCALE as int,
    {
        proof {
            assert(0 <= (pos as int) * (s as int) <= 0x1000000 * (2 * SCALE as int))
                by (nonlinear_arith)
                requires
                    0 <= pos < 0x1000000,
                    0 <= s <= 2 * SCALE,
            ;
            assert(2 * (pos as int) * (s as int) == 2 * ((pos as int) * (s as int)))
                by (nonlinear_arith);
        }
        let scaled: i64 = (pos as i64) * s;
        Fx { bits: 2 * scaled + s - SCALE }
    }

    /// The world-space placement of the chunk at `coords`: the map
    /// placement scaled by a quarter of the volume size.
    pub fn world_transform(&self, coords: LodCoords) -> (r: Transform)
        requires
            template_wf(*self),
            lod_coords_wf(coords),
        ensures
            r == world_transform_spec(coords, self.chunk_mesh_bleed, self.volume_size),
            transform_wf(r),
    {
        let base = self.map_transform(coords);
        let quarter = Fx { bits: ((self.volume_size.bits as u64) / 4) as i64 };
        proof {
            lemma_fx_mul_bits_scaled(base.position[0].bits as int, quarter.bits as int, 3);
            lemma_fx_mul_bits_scaled(base.position[1].bits as int, quarter.bits as int, 3);
            lemma_fx_mul_bits_scaled(base.position[2].bits as int, quarter.bits as int, 3);
            lemma_fx_mul_bits_scaled(base.scale[0].bits as int, quarter.bits as int, 2);
        }
        let px = crate::scalar::fx_mul(base.position[0], quarter);
        let py = crate::scalar::fx_mul(base.position[1], quarter);
        let pz = crate::scalar::fx_mul(base.position[2], quarter);
        let s = crate::scalar::fx_mul(base.scale[0], quarter);
        Transform { position: [px, py, pz], scale: [s, s, s] }
    }
}

impl Clone for Template {
    /// A snapshot: every configuration field copied, the composition deeply.
    fn clone(&self) -> (r: Self)
        ensures
            r.source.shapes@ == self.source.shapes@,
            r.volume_size == self.volume_size,
            r.local_chunk_detail == self.local_chunk_detail,
            r.neighbor_count == self.neighbor_count,
            r.chunk_mesh_bleed == self.chunk_mesh_bleed,
            r.targets@ == self.targets@,
            r.world_space_eval == self.world_space_eval,
    {
        let mut targets: Vec<LodCoords> = Vec::new();
        let mut i: usize = 0;
        while i < self.targets.len()
            invariant
                i <= self.targets@.len(),
                targets@ == self.targets@.take(i as int),
            decreases self.targets@.len() - i,
        {
            targets.push(self.targets[i]);
            proof {
                assert(targets@ =~= self.targets@.take(i as int + 1));
            }
            i = i + 1;
        }
        proof {
            assert(self.targets@.take(i as int) =~= self.targets@);
        }
        Template {
            source: self.source.clone(),
            volume_size: self.volume_size,
            local_chunk_detail: self.local_chunk_detail,
            neighbor_count: self.neighbor_count,
            chunk_mesh_bleed: self.chunk_mesh_bleed,
            targets,
            world_space_eval: self.world_space_eval,
        }
    }
}

/// Materializes the set of chunk addresses this template's targets ask for.
pub fn build_tree(template: &Template) -> (r: Vec<LodCoords>)
    requires
        template_wf(*template),
    ensures
        r@.no_duplicates(),
        forall|j: int|
            0 <= j < r@.len() ==> lod_coords_wf8(#[trigger] r@[j]) && chunk_in_lod_tree(
                template.targets@,
                template.neighbor_count as u32,
                r@[j],
            ),
        forall|c: LodCoords|
            lod_coords_wf8(c) && chunk_in_lod_tree(
                template.targets@,
                template.neighbor_count as u32,
                c,
            ) ==> exists|j: int| 0 <= j < r@.len() && #[trigger] r@[j] == c,
{
    build_tree_coords(&template.targets, template.neighbor_count)
}

/// Compiles the solid field of the chunk at `coords`: the composition's
/// solid field under the template's voxel size, remapped into the chunk's
/// evaluation coordinates.  Fails exactly when a shape of the composition
/// holds a `MatrixTransform` operator.
pub fn chunk_solid_field(template: &Template, coords: LodCoords) -> (r: Result<
    FieldNode,
    CompileError,
>)
    requires
        template_wf(*template),
        lod_coords_wf(coords),
    ensures
        !comp_has_matrix(template.source.shapes@) ==> r == Ok::<FieldNode, CompileError>(
            chunk_solid_spec(*template, coords),
        ),
        comp_has_matrix(template.source.shapes@) ==> r == Err::<FieldNode, CompileError>(
            CompileError::UnsupportedMatrixTransform,
        ),
{
    let settings = template.chunk_settings();
    let field = match template.source.compile_solid(&settings) {
        Ok(f) => f,
        Err(e) => {
            return Err(e);
        },
    };
    let placement = if template.world_space_eval {
        template.world_transform(coords)
    } else {
        template.map_transform(coords)
    };
    Ok(transform_context(field, &placement))
}

/// Compiles the colour field of the chunk at `coords`, remapped the same
/// way as the solid field.
pub fn chunk_color_field(template: &Template, coords: LodCoords) -> (r: Result<
    FieldNode,
    CompileError,
>)
    requires
        template_wf(*template),
        lod_coords_wf(coords),
    ensures
        !comp_has_matrix(template.source.shapes@) ==> r == Ok::<FieldNode, CompileError>(
            chunk_color_spec(*template, coords),
        ),
        comp_has_matrix(template.source.shapes@) ==> r == Err::<FieldNode, CompileError>(
            CompileError::UnsupportedMatrixTransform,
        ),
{
    let settings = template.chunk_settings();
    let field = match template.source.compile_color(&settings) {
        Ok(f) => f,
        Err(e) => {
            return Err(e);
        },
    };
    let placement = if template.world_space_eval {
        template.world_transform(coords)
    } else {
        template.map_transform(coords)
    };
    Ok(transform_context(field, &placement))
}

/// Finishes a chunk from the mesh an outside extractor returned for its
/// compiled solid field `field`: prunes every triangle that reaches outside
/// the canonical unit region (geometry owed to the bleed overlap), then
/// denormalizes the surviving vertices into world space.  The metadata
/// keeps a snapshot of the template, the address, and the compiled field.
/// An empty mesh stays empty and signals "no surface in this region".
pub fn assemble_chunk(
    template: &Template,
    coords: LodCoords,
    field: FieldNode,
    mesh: FullMesh,
) -> (r: Chunk)
    requires
        template_wf(*template),
        lod_coords_wf(coords),
        full_mesh_wf(mesh),
        mesh_coords_wf(mesh),
    ensures
        r.0.coords == coords,
        r.0.field == field,
        r.0.template.source.shapes@ == template.source.shapes@,
        r.0.template.volume_size == template.volume_size,
        r.0.template.local_chunk_detail == template.local_chunk_detail,
        r.0.template.neighbor_count == template.neighbor_count,
        r.0.template.chunk_mesh_bleed == template.chunk_mesh_bleed,
        r.0.template.targets@ == template.targets@,
        r.0.template.world_space_eval == template.world_space_eval,
        r.1.triangles@ == mesh.triangles@.filter(|t: [u32; 3]| tri_keep(mesh.vertices@, t)),
        forall|j: int|
            0 <= j < r.1.triangles@.len() ==> tri_keep(mesh.vertices@, #[trigger] r.1.triangles@[j]),
        full_mesh_wf(r.1),
        r.1.vertices@.len() == mesh.vertices@.len(),
        forall|j: int|
            0 <= j < mesh.vertices@.len() ==> {
                let w = world_transform_spec(coords, template.chunk_mesh_bleed,
                    template.volume_size);
                (#[trigger] r.1.vertices@[j])[0].bits == fx_mul_bits(
                    mesh.vertices@[j][0].bits as int,
                    w.scale[0].bits as int,
                ) + w.position[0].bits && r.1.vertices@[j][1].bits == fx_mul_bits(
                    mesh.vertices@[j][1].bits as int,
                    w.scale[1].bits as int,
                ) + w.position[1].bits && r.1.vertices@[j][2].bits == fx_mul_bits(
                    mesh.vertices@[j][2].bits as int,
                    w.scale[2].bits as int,
                ) + w.position[2].bits
            },
        r.1.normals == mesh.normals,
        r.1.colors == mesh.colors,
{
    let mut m = mesh;
    m.prune();
    let placement = template.world_transform(coords);
    m.transform(&placement);
    Chunk(ChunkMetadata { template: template.clone(), coords, field }, m)
}

} // verus!
