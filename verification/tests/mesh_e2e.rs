//! End-to-end test: a compiled chunk field handed to the real outside
//! evaluation engine and surface extractor.

use std::num::NonZeroUsize;

use fidget::context::Tree;
use fidget::eval::MathShape;
use planiscope::builder::sphere;
use planiscope::chunk::{assemble_chunk, chunk_solid_field, Template};
use planiscope::comp::Composition;
use planiscope::coords::LodCoords;
use planiscope::field::FieldNode;
use planiscope::mesh::FullMesh;
use planiscope::scalar::{Fx, SCALE};

fn fx(v: f64) -> Fx {
    Fx { bits: (v * SCALE as f64).round() as i64 }
}

fn fx_val(a: Fx) -> f64 {
    a.bits as f64 / SCALE as f64
}

/// Lowers a field expression into the evaluation engine's tree type.
fn to_tree(f: &FieldNode) -> Tree {
    match f {
        FieldNode::X => Tree::x(),
        FieldNode::Y => Tree::y(),
        FieldNode::Z => Tree::z(),
        FieldNode::Const(c) => Tree::constant(c.bits as f64 / SCALE as f64),
        FieldNode::Add(a, b) => to_tree(a) + to_tree(b),
        FieldNode::Sub(a, b) => to_tree(a) - to_tree(b),
        FieldNode::Mul(a, b) => to_tree(a) * to_tree(b),
        FieldNode::Div(a, b) => to_tree(a) / to_tree(b),
        FieldNode::Neg(a) => to_tree(a).neg(),
        FieldNode::Abs(a) => to_tree(a).abs(),
        FieldNode::Square(a) => to_tree(a).square(),
        FieldNode::Min(a, b) => to_tree(a).min(to_tree(b)),
        FieldNode::Max(a, b) => to_tree(a).max(to_tree(b)),
        FieldNode::Remap(f, ex, ey, ez) => {
            to_tree(f).remap_xyz(to_tree(ex), to_tree(ey), to_tree(ez))
        }
    }
}

#[test]
fn sphere_mesh_end_to_end() {
    // A single unit sphere at the origin, meshed at detail five inside the
    // root chunk, which covers the unit cube.
    let mut comp = Composition::new();
    comp.add_shape(sphere(fx(1.0)), [fx(0.0), fx(0.0), fx(0.0)]);
    let template = Template {
        source: comp,
        volume_size: fx(4.0),
        local_chunk_detail: 5,
        neighbor_count: 1,
        chunk_mesh_bleed: fx(1.0),
        targets: vec![LodCoords::new([0, 0, 0], 0)],
        world_space_eval: false,
    };
    let root = LodCoords::new([0, 0, 0], 0);
    let field = chunk_solid_field(&template, root).unwrap();

    let tree = to_tree(&field);
    let mut ctx = fidget::Context::new();
    let node = ctx.import(&tree);
    let shape = fidget::vm::VmShape::new(&ctx, node).unwrap();
    let settings = fidget::mesh::Settings {
        depth: template.local_chunk_detail,
        bounds: Default::default(),
        threads: NonZeroUsize::new(4).unwrap(),
    };
    let octree = fidget::mesh::Octree::build(&shape, settings);
    let raw = octree.walk_dual(settings);

    // A non-empty surface, every vertex close to the unit sphere.
    assert!(!raw.vertices.is_empty());
    assert!(!raw.triangles.is_empty());
    for v in &raw.vertices {
        let d = ((v.x * v.x + v.y * v.y + v.z * v.z) as f64).sqrt();
        assert!((d - 1.0).abs() < 0.1, "vertex at distance {}", d);
    }

    // Hand the raw mesh back through the verified pipeline.
    let mesh = FullMesh {
        vertices: raw
            .vertices
            .iter()
            .map(|v| [fx(v.x as f64), fx(v.y as f64), fx(v.z as f64)])
            .collect(),
        triangles: raw
            .triangles
            .iter()
            .map(|t| [t[0] as u32, t[1] as u32, t[2] as u32])
            .collect(),
        normals: None,
        colors: None,
    };
    let chunk = assemble_chunk(&template, root, field, mesh);
    assert!(!chunk.1.triangles.is_empty());
    assert_eq!(chunk.0.coords, root);
    // The world volume is four, so map and world coordinates agree here and
    // surviving vertices still sit near the unit sphere.
    for t in &chunk.1.triangles {
        for &i in t.iter() {
            let v = &chunk.1.vertices[i as usize];
            let d = (fx_val(v[0]).powi(2) + fx_val(v[1]).powi(2) + fx_val(v[2]).powi(2)).sqrt();
            assert!((d - 1.0).abs() < 0.1);
        }
    }
}
