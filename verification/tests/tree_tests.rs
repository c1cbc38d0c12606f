//! Tests for the level-of-detail chunk scheduler, run against the real
//! outside octree index.

use planiscope::builder::sphere;
use planiscope::chunk::{build_tree, Template};
use planiscope::comp::Composition;
use planiscope::coords::LodCoords;
use planiscope::scalar::{Fx, SCALE};

fn fx(v: f64) -> Fx {
    Fx { bits: (v * SCALE as f64).round() as i64 }
}

fn template_with_targets(targets: Vec<LodCoords>, neighbor_count: u8) -> Template {
    let mut comp = Composition::new();
    comp.add_shape(sphere(fx(1.0)), [fx(0.0), fx(0.0), fx(0.0)]);
    Template {
        source: comp,
        volume_size: fx(4.0),
        local_chunk_detail: 5,
        neighbor_count,
        chunk_mesh_bleed: fx(1.1),
        targets,
        world_space_eval: false,
    }
}

fn is_strict_ancestor(a: &LodCoords, b: &LodCoords) -> bool {
    a.lod < b.lod
        && (0..3).all(|i| (b.pos[i] >> (b.lod - a.lod)) == a.pos[i])
}

#[test]
fn build_tree_single_target_depth5_with_neighbors() {
    let target = LodCoords::new([16, 16, 16], 5);
    let t = template_with_targets(vec![target], 1);
    let chunks = build_tree(&t);
    // The target's own address is materialized at its own depth.
    assert!(chunks.contains(&target));
    // So are at least its immediate same-depth neighbours.
    for (dx, dy, dz) in [
        (-1i32, 0i32, 0i32),
        (1, 0, 0),
        (0, -1, 0),
        (0, 1, 0),
        (0, 0, -1),
        (0, 0, 1),
    ] {
        let n = LodCoords::new(
            [
                (16 + dx) as u32,
                (16 + dy) as u32,
                (16 + dz) as u32,
            ],
            5,
        );
        assert!(chunks.contains(&n), "missing neighbour {:?}", n);
    }
    // No returned address is an ancestor of another returned address.
    for a in &chunks {
        for b in &chunks {
            assert!(!is_strict_ancestor(a, b), "{:?} is an ancestor of {:?}", a, b);
        }
    }
}

#[test]
fn build_tree_returns_distinct_addresses() {
    let t = template_with_targets(vec![LodCoords::new([2, 3, 1], 3)], 1);
    let chunks = build_tree(&t);
    assert!(!chunks.is_empty());
    for (i, a) in chunks.iter().enumerate() {
        for (j, b) in chunks.iter().enumerate() {
            if i != j {
                assert!(a != b, "duplicate address {:?}", a);
            }
        }
    }
    // Every address stays within its depth's grid.
    for c in &chunks {
        assert!(c.lod <= 8);
        for i in 0..3 {
            assert!((c.pos[i] as u64) < (1u64 << c.lod));
        }
    }
}

#[test]
fn build_tree_multiple_targets_cover_both() {
    let t1 = LodCoords::new([1, 1, 1], 4);
    let t2 = LodCoords::new([14, 14, 14], 4);
    let t = template_with_targets(vec![t1, t2], 0);
    let chunks = build_tree(&t);
    assert!(chunks.contains(&t1));
    assert!(chunks.contains(&t2));
}
