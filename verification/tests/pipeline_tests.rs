//! Tests for compositions, coordinates, transforms and mesh operations.

use planiscope::builder::sphere;
use planiscope::chunk::{assemble_chunk, chunk_solid_field, Template};
use planiscope::comp::{CompilationSettings, Composition};
use planiscope::coords::{transform_context, LodCoords, Transform};
use planiscope::field::FieldNode;
use planiscope::mesh::{decode_implicit_colors, transform_implicit_color, FullMesh};
use planiscope::scalar::{fx_add, fx_div, fx_mul, fx_neg, fx_sub, Fx, SCALE};

fn fx(v: f64) -> Fx {
    Fx { bits: (v * SCALE as f64).round() as i64 }
}

fn fx_val(a: Fx) -> f64 {
    a.bits as f64 / SCALE as f64
}

fn eval(f: &FieldNode, x: f64, y: f64, z: f64) -> f64 {
    match f {
        FieldNode::X => x,
        FieldNode::Y => y,
        FieldNode::Z => z,
        FieldNode::Const(c) => c.bits as f64 / SCALE as f64,
        FieldNode::Add(a, b) => eval(a, x, y, z) + eval(b, x, y, z),
        FieldNode::Sub(a, b) => eval(a, x, y, z) - eval(b, x, y, z),
        FieldNode::Mul(a, b) => eval(a, x, y, z) * eval(b, x, y, z),
        FieldNode::Div(a, b) => eval(a, x, y, z) / eval(b, x, y, z),
        FieldNode::Neg(a) => -eval(a, x, y, z),
        FieldNode::Abs(a) => eval(a, x, y, z).abs(),
        FieldNode::Square(a) => {
            let v = eval(a, x, y, z);
            v * v
        }
        FieldNode::Min(a, b) => eval(a, x, y, z).min(eval(b, x, y, z)),
        FieldNode::Max(a, b) => eval(a, x, y, z).max(eval(b, x, y, z)),
        FieldNode::Remap(f, ex, ey, ez) => {
            let nx = eval(ex, x, y, z);
            let ny = eval(ey, x, y, z);
            let nz = eval(ez, x, y, z);
            eval(f, nx, ny, nz)
        }
    }
}

const EPS: f64 = 1e-9;

fn sphere_solid(radius: f64, min_voxel: f64) -> FieldNode {
    sphere(fx(radius))
        .compile_solid(&CompilationSettings { min_voxel_size: fx(min_voxel) })
        .unwrap()
}

#[test]
fn scalar_arithmetic_is_exact() {
    assert_eq!(fx_add(fx(1.5), fx(2.25)).bits, fx(3.75).bits);
    assert_eq!(fx_sub(fx(1.0), fx(0.25)).bits, fx(0.75).bits);
    assert_eq!(fx_neg(fx(0.5)).bits, fx(-0.5).bits);
    assert_eq!(fx_mul(fx(1.5), fx(2.0)).bits, fx(3.0).bits);
    assert_eq!(fx_div(fx(3.0), fx(2.0)).bits, fx(1.5).bits);
    assert_eq!(fx_mul(fx(-1.5), fx(2.0)).bits, fx(-3.0).bits);
    assert_eq!(fx_div(fx(1.0), fx(-4.0)).bits, fx(-0.25).bits);
}

#[test]
fn composition_solid_is_min_of_translated_fields() {
    let mut comp = Composition::new();
    comp.add_shape(sphere(fx(1.0)), [fx(0.0), fx(0.0), fx(0.0)]);
    comp.add_shape(sphere(fx(0.5)), [fx(2.0), fx(0.0), fx(0.0)]);
    let settings = CompilationSettings { min_voxel_size: fx(0.1) };
    let f = comp.compile_solid(&settings).unwrap();
    let a = sphere_solid(1.0, 0.1);
    let b = sphere_solid(0.5, 0.1);
    for &(x, y, z) in &[(0.0, 0.0, 0.0), (2.0, 0.0, 0.0), (1.2, 0.3, -0.4), (3.0, 1.0, 0.0)] {
        let expect = eval(&a, x, y, z).min(eval(&b, x - 2.0, y, z));
        assert!((eval(&f, x, y, z) - expect).abs() < EPS);
    }
}

#[test]
fn empty_composition_compiles_to_outside() {
    let comp = Composition::new();
    let settings = CompilationSettings { min_voxel_size: fx(0.1) };
    let f = comp.compile_solid(&settings).unwrap();
    assert_eq!(f, FieldNode::Const(Fx { bits: SCALE }));
}

#[test]
fn composition_of_three_folds_balanced() {
    // An odd count exercises the self-paired tail of the reduction tree.
    let mut comp = Composition::new();
    comp.add_shape(sphere(fx(1.0)), [fx(0.0), fx(0.0), fx(0.0)]);
    comp.add_shape(sphere(fx(1.0)), [fx(3.0), fx(0.0), fx(0.0)]);
    comp.add_shape(sphere(fx(1.0)), [fx(0.0), fx(3.0), fx(0.0)]);
    let settings = CompilationSettings { min_voxel_size: fx(0.1) };
    let f = comp.compile_solid(&settings).unwrap();
    let s = sphere_solid(1.0, 0.1);
    for &(x, y, z) in &[(0.0, 0.0, 0.0), (3.0, 0.0, 0.0), (0.0, 3.0, 0.0), (1.5, 1.5, 0.0)] {
        let expect = eval(&s, x, y, z)
            .min(eval(&s, x - 3.0, y, z))
            .min(eval(&s, x, y - 3.0, z));
        assert!((eval(&f, x, y, z) - expect).abs() < EPS);
    }
}

#[test]
fn composition_from_shape_list() {
    let shapes = vec![(sphere(fx(1.0)), [fx(0.0), fx(0.0), fx(0.0)])];
    let comp = Composition::from(shapes);
    assert_eq!(comp.shapes.len(), 1);
    let empty = Composition::default();
    assert_eq!(empty.shapes.len(), 0);
}

#[test]
fn prune_removes_out_of_bounds_triangles() {
    // Vertex 1 lies outside the unit region, so both triangles touching it
    // go; the triangle over vertices 0, 2, 3 stays.
    let mesh = FullMesh {
        vertices: vec![
            [fx(0.5), fx(0.0), fx(0.0)],
            [fx(1.5), fx(0.0), fx(0.0)],
            [fx(0.0), fx(1.0), fx(0.0)],
            [fx(0.0), fx(-0.25), fx(0.75)],
        ],
        triangles: vec![[0, 1, 2], [0, 2, 3], [1, 2, 3]],
        normals: None,
        colors: None,
    };
    let mut m = mesh;
    m.prune();
    assert_eq!(m.triangles, vec![[0, 2, 3]]);
    assert_eq!(m.vertices.len(), 4);
    // No surviving triangle references a vertex with any coordinate
    // magnitude above one.
    for t in &m.triangles {
        for &i in t.iter() {
            let v = &m.vertices[i as usize];
            assert!(v[0].bits.abs() <= SCALE);
            assert!(v[1].bits.abs() <= SCALE);
            assert!(v[2].bits.abs() <= SCALE);
        }
    }
}

#[test]
fn prune_keeps_fully_interior_mesh() {
    let mut m = FullMesh {
        vertices: vec![
            [fx(1.0), fx(0.0), fx(0.0)],
            [fx(0.0), fx(1.0), fx(0.0)],
            [fx(0.0), fx(0.0), fx(-1.0)],
        ],
        triangles: vec![[0, 1, 2]],
        normals: None,
        colors: None,
    };
    m.prune();
    assert_eq!(m.triangles, vec![[0, 1, 2]]);
}

#[test]
fn denormalize_scales_and_offsets_vertices() {
    let mut m = FullMesh {
        vertices: vec![[fx(0.5), fx(-1.0), fx(0.0)]],
        triangles: vec![],
        normals: None,
        colors: None,
    };
    m.denormalize([fx(10.0), fx(20.0), fx(30.0)], [fx(2.0), fx(2.0), fx(2.0)]);
    assert_eq!(m.vertices[0][0].bits, fx(11.0).bits);
    assert_eq!(m.vertices[0][1].bits, fx(18.0).bits);
    assert_eq!(m.vertices[0][2].bits, fx(30.0).bits);
}

#[test]
fn transform_implicit_color_white_sentinel() {
    assert_eq!(transform_implicit_color(fx(0.05)), [255, 255, 255, 255]);
    assert_eq!(transform_implicit_color(fx(0.0)), [255, 255, 255, 255]);
    assert_eq!(transform_implicit_color(fx(-2.0)), [255, 255, 255, 255]);
}

#[test]
fn color_encode_decode_round_trip() {
    for &(r, g, b) in &[(0u8, 0u8, 0u8), (255, 255, 255), (10, 20, 30), (1, 0, 255)] {
        let rgb24 = (r as i64) * 65536 + (g as i64) * 256 + (b as i64);
        let bits = rgb24 * 900 + 1_677_721_600;
        assert_eq!(transform_implicit_color(Fx { bits }), [r, g, b, 255]);
    }
}

#[test]
fn decode_implicit_colors_batch() {
    let rgb24: i64 = 77 * 65536 + 8 * 256 + 200;
    let values = vec![fx(0.0), Fx { bits: rgb24 * 900 + 1_677_721_600 }];
    let out = decode_implicit_colors(&values);
    assert_eq!(out.len(), 2);
    assert_eq!(out[0], [255, 255, 255, 255]);
    assert_eq!(out[1], [77, 8, 200, 255]);
}

#[test]
fn lod_coords_center_and_size() {
    let root = LodCoords::new([0, 0, 0], 0);
    assert_eq!(fx_val(root.float_size()), 1.0);
    let c = root.float_center_coords();
    assert_eq!(c[0].bits, 0);
    let cell = LodCoords::new([1, 0, 3], 2);
    assert_eq!(fx_val(cell.float_size()), 0.25);
    let cc = cell.float_center_coords();
    // centre = (pos * size + size / 2) * 2 - 1.
    assert!((fx_val(cc[0]) - (-0.25)).abs() < EPS);
    assert!((fx_val(cc[1]) - (-0.75)).abs() < EPS);
    assert!((fx_val(cc[2]) - 0.75).abs() < EPS);
}

#[test]
fn lod_coords_from_float() {
    let c = LodCoords::new_from_float([fx(-1.0), fx(0.0), fx(0.999)], 2);
    assert_eq!(c.pos, [0, 2, 3]);
    assert_eq!(c.lod, 2);
    // Out-of-cube points clamp into the grid.
    let d = LodCoords::new_from_float([fx(-5.0), fx(5.0), fx(1.0)], 3);
    assert_eq!(d.pos, [0, 7, 7]);
}

#[test]
fn lod_coords_from_world() {
    // A volume of side four: world coordinates divide by two before the
    // grid lookup.
    let c = LodCoords::new_from_world([fx(1.0), fx(-2.0), fx(0.0)], 2, fx(4.0));
    assert_eq!(c.pos, [3, 0, 2]);
    assert_eq!(c.lod, 2);
}

#[test]
fn composition_remove_keeps_order() {
    let mut comp = Composition::new();
    comp.add_shape(sphere(fx(1.0)), [fx(0.0), fx(0.0), fx(0.0)]);
    comp.add_shape(sphere(fx(2.0)), [fx(1.0), fx(0.0), fx(0.0)]);
    comp.add_shape(sphere(fx(3.0)), [fx(2.0), fx(0.0), fx(0.0)]);
    comp.remove(1);
    assert_eq!(comp.shapes.len(), 2);
    assert_eq!(comp.shapes[0].0, sphere(fx(1.0)));
    assert_eq!(comp.shapes[1].0, sphere(fx(3.0)));
}

#[test]
fn transform_point_and_invert() {
    let t = Transform {
        position: [fx(1.0), fx(2.0), fx(3.0)],
        scale: [fx(2.0), fx(4.0), fx(0.5)],
    };
    let p = t.transform_point([fx(1.0), fx(1.0), fx(1.0)]);
    assert_eq!(p[0].bits, fx(3.0).bits);
    assert_eq!(p[1].bits, fx(6.0).bits);
    assert_eq!(p[2].bits, fx(3.5).bits);
    let inv = t.invert();
    let q = inv.transform_point(p);
    assert_eq!(q[0].bits, fx(1.0).bits);
    assert_eq!(q[1].bits, fx(1.0).bits);
    assert_eq!(q[2].bits, fx(1.0).bits);
    let n = t.transform_normal([fx(1.0), fx(1.0), fx(1.0)]);
    assert_eq!(n[0].bits, fx(0.5).bits);
    assert_eq!(n[1].bits, fx(0.25).bits);
    assert_eq!(n[2].bits, fx(2.0).bits);
}

#[test]
fn transform_from_coords() {
    let t = Transform::from(LodCoords::new([1, 0, 0], 1));
    assert_eq!(fx_val(t.scale[0]), 0.5);
    assert!((fx_val(t.position[0]) - 0.5).abs() < EPS);
    assert!((fx_val(t.position[1]) - (-0.5)).abs() < EPS);
}

#[test]
fn transform_context_remaps_field() {
    let f = sphere_solid(1.0, 0.1);
    let g = sphere_solid(1.0, 0.1);
    let t = Transform {
        position: [fx(0.5), fx(0.0), fx(0.0)],
        scale: [fx(0.25), fx(0.25), fx(0.25)],
    };
    let remapped = transform_context(f, &t);
    // Evaluating the remapped field at local coordinates is evaluating the
    // original at scale * local + position.
    for &(x, y, z) in &[(0.0, 0.0, 0.0), (1.0, -1.0, 0.5)] {
        let expect = eval(&g, 0.25 * x + 0.5, 0.25 * y, 0.25 * z);
        assert!((eval(&remapped, x, y, z) - expect).abs() < EPS);
    }
}

fn demo_template(world_space_eval: bool) -> Template {
    let mut comp = Composition::new();
    comp.add_shape(sphere(fx(1.0)), [fx(0.0), fx(0.0), fx(0.0)]);
    Template {
        source: comp,
        volume_size: fx(4.0),
        local_chunk_detail: 5,
        neighbor_count: 1,
        chunk_mesh_bleed: fx(1.1),
        targets: vec![LodCoords::new([0, 0, 0], 0)],
        world_space_eval,
    }
}

#[test]
fn template_transforms() {
    let t = demo_template(false);
    let root = LodCoords::new([0, 0, 0], 0);
    let map = t.map_transform(root);
    // The centre uses the bled size: (0 * 1.1 + 1.1 / 2) * 2 - 1 = 0.1.
    assert!((fx_val(map.position[0]) - 0.1).abs() < EPS);
    assert!((fx_val(map.scale[0]) - 1.1).abs() < EPS);
    let world = t.world_transform(root);
    // volume_size / 4 is one, so world equals map here.
    assert_eq!(world.scale[0].bits, map.scale[0].bits);
    assert_eq!(world.position[0].bits, map.position[0].bits);
}

#[test]
fn chunk_solid_field_matches_sphere() {
    // A root chunk of a volume of size four: the map cube is the world cube,
    // up to the bleed widening of the evaluated region.
    let t = demo_template(false);
    let root = LodCoords::new([0, 0, 0], 0);
    let f = chunk_solid_field(&t, root).unwrap();
    let s = sphere_solid(1.0, 2.0 / 32.0);
    // Local coordinates are scaled by the bled size and moved to the bled
    // centre, which at the root is one tenth.
    for &(x, y, z) in &[(0.0, 0.0, 0.0), (0.5, 0.0, 0.0), (0.9, 0.0, 0.0)] {
        let expect = eval(&s, 1.1 * x + 0.1, 1.1 * y + 0.1, 1.1 * z + 0.1);
        assert!((eval(&f, x, y, z) - expect).abs() < EPS);
    }
}

#[test]
fn assemble_chunk_prunes_and_denormalizes() {
    let t = demo_template(false);
    let root = LodCoords::new([0, 0, 0], 0);
    let mesh = FullMesh {
        vertices: vec![
            [fx(0.5), fx(0.0), fx(0.0)],
            [fx(1.05), fx(0.0), fx(0.0)],
            [fx(0.0), fx(0.5), fx(0.0)],
            [fx(0.0), fx(0.0), fx(0.5)],
        ],
        triangles: vec![[0, 1, 2], [0, 2, 3]],
        normals: None,
        colors: None,
    };
    let field = chunk_solid_field(&t, root).unwrap();
    let chunk = assemble_chunk(&t, root, field, mesh);
    assert_eq!(chunk.0.coords, root);
    // The metadata keeps a snapshot of the template and the compiled field.
    assert_eq!(chunk.0.template.volume_size, t.volume_size);
    assert_eq!(chunk.0.template.source.shapes.len(), t.source.shapes.len());
    assert_eq!(chunk.0.field, chunk_solid_field(&t, root).unwrap());
    // The bled vertex 1 took its triangle with it.
    assert_eq!(chunk.1.triangles, vec![[0, 2, 3]]);
    // Survivors are scaled by bleed * volume / 4 = 1.1 and offset by the
    // bled chunk centre, one tenth per axis.
    assert!((fx_val(chunk.1.vertices[0][0]) - 0.65).abs() < 1e-6);
    assert!((fx_val(chunk.1.vertices[2][1]) - 0.65).abs() < 1e-6);
}
