//! Tests for the shape algebra and the field compiler.

use planiscope::builder::{abbreviate, box_, cube, difference, matrix_transform, recolor,
    replacement, scale, sphere, translate, union};
use planiscope::comp::CompilationSettings;
use planiscope::field::FieldNode;
use planiscope::mesh::transform_implicit_color;
use planiscope::nso::{nso_denormalize_region, nso_normalize_region};
use planiscope::scalar::{Fx, SCALE};
use planiscope::shape::{ColorComponent, CompileError, FieldType, Shape};

fn fx(v: f64) -> Fx {
    Fx { bits: (v * SCALE as f64).round() as i64 }
}

fn settings(min_voxel_size: f64) -> CompilationSettings {
    CompilationSettings { min_voxel_size: fx(min_voxel_size) }
}

fn eval(f: &FieldNode, x: f64, y: f64, z: f64) -> f64 {
    match f {
        FieldNode::X => x,
        FieldNode::Y => y,
        FieldNode::Z => z,
        FieldNode::Const(c) => c.bits as f64 / SCALE as f64,
        FieldNode::Add(a, b) => eval(a, x, y, z) + eval(b, x, y, z),
        FieldNode::Sub(a, b) => eval(a, x, y, z) - eval(b, x, y, z),
        FieldNode::Mul(a, b) => eval(a, x, y, z) * eval(b, x, y, z),
        FieldNode::Div(a, b) => eval(a, x, y, z) / eval(b, x, y, z),
        FieldNode::Neg(a) => -eval(a, x, y, z),
        FieldNode::Abs(a) => eval(a, x, y, z).abs(),
        FieldNode::Square(a) => {
            let v = eval(a, x, y, z);
            v * v
        }
        FieldNode::Min(a, b) => eval(a, x, y, z).min(eval(b, x, y, z)),
        FieldNode::Max(a, b) => eval(a, x, y, z).max(eval(b, x, y, z)),
        FieldNode::Remap(f, ex, ey, ez) => {
            let nx = eval(ex, x, y, z);
            let ny = eval(ey, x, y, z);
            let nz = eval(ez, x, y, z);
            eval(f, nx, ny, nz)
        }
    }
}

fn solid(shape: &Shape, min_voxel_size: f64) -> FieldNode {
    shape.compile_solid(&settings(min_voxel_size)).unwrap()
}

const EPS: f64 = 1e-9;

#[test]
fn sphere_sign_inside_surface_outside() {
    let f = solid(&sphere(fx(1.0)), 0.1);
    assert!(eval(&f, 0.5, 0.0, 0.0) < 0.0);
    assert!(eval(&f, 1.0, 0.0, 0.0).abs() < EPS);
    assert!(eval(&f, 2.0, 0.0, 0.0) > 0.0);
    assert!(eval(&f, 0.0, 0.3, 0.4) < 0.0);
}

#[test]
fn sphere_field_exact_value() {
    // The distance function is d^2 - r^2.
    let f = solid(&sphere(fx(1.0)), 0.1);
    assert!((eval(&f, 0.5, 0.0, 0.0) - (-0.75)).abs() < EPS);
    assert!((eval(&f, 1.0, 2.0, 2.0) - 8.0).abs() < EPS);
}

#[test]
fn sphere_degenerates_below_voxel_size() {
    // A sphere smaller than the voxel compiles to the constant outside field.
    let f = solid(&sphere(fx(0.04)), 0.1);
    assert_eq!(f, FieldNode::Const(Fx { bits: SCALE }));
    // A sphere of exactly the voxel diameter still compiles normally.
    let g = solid(&sphere(fx(0.05)), 0.1);
    assert!(eval(&g, 0.0, 0.0, 0.0) < 0.0);
}

#[test]
fn rect_prism_and_cube_fields() {
    let f = solid(&box_(fx(0.5), fx(0.5), fx(0.5)), 0.1);
    let g = solid(&cube(fx(0.5)), 0.1);
    for &(x, y, z) in &[(0.5, 0.5, 0.5), (0.2, 0.9, 0.4), (1.5, 0.5, 0.5)] {
        assert!((eval(&f, x, y, z) - eval(&g, x, y, z)).abs() < EPS);
    }
    // The field is the largest coordinate distance from the centre.
    assert!((eval(&f, 0.5, 0.5, 0.5) - 0.0).abs() < EPS);
    assert!((eval(&f, 1.5, 0.5, 0.5) - 1.0).abs() < EPS);
}

#[test]
fn union_commutes_at_sample_points() {
    let a = || translate(sphere(fx(1.0)), fx(0.5), fx(0.0), fx(0.0));
    let b = || sphere(fx(0.7));
    let ab = solid(&union(a(), b()), 0.1);
    let ba = solid(&union(b(), a()), 0.1);
    for &(x, y, z) in &[(0.0, 0.0, 0.0), (0.5, 0.2, -0.3), (1.4, 0.0, 0.0), (-0.7, 0.0, 0.0)] {
        assert!((eval(&ab, x, y, z) - eval(&ba, x, y, z)).abs() < EPS);
    }
}

#[test]
fn difference_not_commutative() {
    let a = || sphere(fx(2.0));
    let b = || sphere(fx(1.0));
    let ab = solid(&difference(a(), b()), 0.1);
    let ba = solid(&difference(b(), a()), 0.1);
    // At a point inside exactly one operand the two differences disagree.
    let p = (1.5, 0.0, 0.0);
    assert!((eval(&ab, p.0, p.1, p.2) - eval(&ba, p.0, p.1, p.2)).abs() > 0.5);
}

#[test]
fn replacement_preserves_first_operand_interior() {
    // Inside a, with b's field no smaller, the replacement has a's value.
    let r = solid(&replacement(sphere(fx(2.0)), sphere(fx(1.0))), 0.1);
    let a = solid(&sphere(fx(2.0)), 0.1);
    let p = (0.5, 0.0, 0.0);
    assert!((eval(&r, p.0, p.1, p.2) - eval(&a, p.0, p.1, p.2)).abs() < EPS);
}

#[test]
fn replacement_takes_deeper_second_operand() {
    // Where b's field falls below a's, the replacement takes b's value.
    let r = solid(&replacement(sphere(fx(2.0)), sphere(fx(3.0))), 0.1);
    assert!((eval(&r, 0.0, 0.0, 0.0) - (-9.0)).abs() < EPS);
}

#[test]
fn abbreviate_elides_at_coarse_voxel() {
    // Once the voxel size reaches the threshold the shape is elided.
    let f = solid(&abbreviate(sphere(fx(1.0)), fx(0.5)), 0.5);
    assert_eq!(f, FieldNode::Const(Fx { bits: SCALE }));
    let g = solid(&abbreviate(sphere(fx(1.0)), fx(0.5)), 0.7);
    assert_eq!(g, FieldNode::Const(Fx { bits: SCALE }));
}

#[test]
fn abbreviate_keeps_child_at_fine_voxel() {
    let f = solid(&abbreviate(sphere(fx(1.0)), fx(0.5)), 0.1);
    let g = solid(&sphere(fx(1.0)), 0.1);
    assert_eq!(f, g);
}

#[test]
fn translate_moves_field() {
    let f = solid(&translate(sphere(fx(1.0)), fx(2.0), fx(0.0), fx(0.0)), 0.1);
    assert!(eval(&f, 2.0, 0.0, 0.0) < 0.0);
    assert!(eval(&f, 0.0, 0.0, 0.0) > 0.0);
    assert!((eval(&f, 2.5, 0.0, 0.0) - (-0.75)).abs() < EPS);
}

#[test]
fn scale_scales_field() {
    // The scale operator divides the coordinates fed to the child, so a
    // factor of two doubles the shape.
    let f = solid(&scale(sphere(fx(1.0)), fx(2.0), fx(2.0), fx(2.0)), 0.1);
    assert!(eval(&f, 1.8, 0.0, 0.0) < 0.0);
    assert!(eval(&f, 2.2, 0.0, 0.0) > 0.0);
    // At (1, 0, 0) the child sees (0.5, 0, 0): value 0.25 - 1.
    assert!((eval(&f, 1.0, 0.0, 0.0) - (-0.75)).abs() < EPS);
}

#[test]
fn matrix_transform_is_rejected() {
    let m = matrix_transform(sphere(fx(1.0)), [fx(0.0); 16]);
    assert_eq!(
        m.compile_solid(&settings(0.1)),
        Err(CompileError::UnsupportedMatrixTransform)
    );
    assert_eq!(
        m.compile_color(&settings(0.1)),
        Err(CompileError::UnsupportedMatrixTransform)
    );
    // The rejection also reaches operators that skip the child's own field.
    let hidden = abbreviate(matrix_transform(sphere(fx(1.0)), [fx(0.0); 16]), fx(0.5));
    assert_eq!(
        hidden.compile_solid(&settings(0.9)),
        Err(CompileError::UnsupportedMatrixTransform)
    );
}

#[test]
fn semantic_field_is_rejected() {
    let s = sphere(fx(1.0));
    assert_eq!(
        s.build(FieldType::Semantic, &settings(0.1)),
        Err(CompileError::UnsupportedSemanticField)
    );
    // The other field kinds all compile.
    assert!(s.build(FieldType::Solid, &settings(0.1)).is_ok());
    assert!(s.build(FieldType::Color(ColorComponent::Hue), &settings(0.1)).is_ok());
    assert!(s.build(FieldType::Identity, &settings(0.1)).is_ok());
}

#[test]
fn identity_field_is_clamped_solid() {
    let s = sphere(fx(1.0));
    let f = s.build(FieldType::Identity, &settings(0.1)).unwrap();
    // Deep inside, the clamp saturates at minus one; far outside, at one.
    assert!((eval(&f, 0.0, 0.0, 0.0) - (-1.0)).abs() < EPS);
    assert!((eval(&f, 3.0, 0.0, 0.0) - 1.0).abs() < EPS);
}

#[test]
fn normalize_denormalize_round_trip() {
    let f = solid(&sphere(fx(1.0)), 0.1);
    let g = solid(&sphere(fx(1.0)), 0.1);
    let pos = [fx(0.25), fx(-0.5), fx(1.5)];
    let size = [fx(2.0), fx(0.5), fx(3.0)];
    let n = nso_normalize_region(f, pos, size);
    let rt = nso_denormalize_region(n, pos, size);
    for &(x, y, z) in &[(0.0, 0.0, 0.0), (0.3, -0.2, 0.9), (1.5, 2.0, -1.0)] {
        assert!((eval(&rt, x, y, z) - eval(&g, x, y, z)).abs() < EPS);
    }
}

#[test]
fn recolor_color_field_round_trips_rgb() {
    // Inside the recoloured shape the colour field evaluates to the packed
    // constant, which decodes back to the requested channels.
    let s = recolor(sphere(fx(1.0)), 10, 20, 30);
    let c = s.compile_color(&settings(0.1)).unwrap();
    let v = eval(&c, 0.0, 0.0, 0.0);
    let rgb24: i64 = 10 * 65536 + 20 * 256 + 30;
    let expected_bits: i64 = rgb24 * 900 + 1_677_721_600;
    assert!((v - expected_bits as f64 / SCALE as f64).abs() < 1e-6);
    let decoded = transform_implicit_color(Fx { bits: expected_bits });
    assert_eq!(decoded, [10, 20, 30, 255]);
}

#[test]
fn color_field_outside_is_white_sentinel() {
    let s = recolor(sphere(fx(1.0)), 10, 20, 30);
    let c = s.compile_color(&settings(0.1)).unwrap();
    // Far outside the clamped solid is one, so the colour value drops to
    // zero, which decodes to the white sentinel.
    let v = eval(&c, 3.0, 0.0, 0.0);
    assert!(v < 0.1);
    assert_eq!(transform_implicit_color(fx(v)), [255, 255, 255, 255]);
}
