//! Builder functions for shapes.

use vstd::prelude::*;
use crate::scalar::Fx;
use crate::shape::{BinaryOp, Shape, ShapeDef, ShapeOp, UnaryOp};

verus! {

/// A sphere of radius `radius` centred at the origin.
pub fn sphere(radius: Fx) -> (r: Shape)
    ensures
        r == Shape::ShapeDef(ShapeDef::SpherePrimitive { radius }),
{
    Shape::ShapeDef(ShapeDef::SpherePrimitive { radius })
}

/// A rectangular prism of half-extents `x`, `y`, `z`.
pub fn box_(x: Fx, y: Fx, z: Fx) -> (r: Shape)
    ensures
        r == Shape::ShapeDef(ShapeDef::RectPrismPrimitive { x, y, z }),
{
    Shape::ShapeDef(ShapeDef::RectPrismPrimitive { x, y, z })
}

/// A cube of size `size`.
pub fn cube(size: Fx) -> (r: Shape)
    ensures
        r == Shape::ShapeDef(ShapeDef::CubePrimitive { size }),
{
    Shape::ShapeDef(ShapeDef::CubePrimitive { size })
}

/// `shape` translated by `(x, y, z)`.
pub fn translate(shape: Shape, x: Fx, y: Fx, z: Fx) -> (r: Shape)
    ensures
        r == Shape::ShapeOp(ShapeOp::UnaryOp(UnaryOp::Translate { pos: [x, y, z] }, Box::new(
            shape,
        ))),
{
    Shape::ShapeOp(ShapeOp::UnaryOp(UnaryOp::Translate { pos: [x, y, z] }, Box::new(shape)))
}

/// `shape` scaled by `(x, y, z)`.
pub fn scale(shape: Shape, x: Fx, y: Fx, z: Fx) -> (r: Shape)
    ensures
        r == Shape::ShapeOp(ShapeOp::UnaryOp(UnaryOp::Scale { scale: [x, y, z] }, Box::new(shape))),
{
    Shape::ShapeOp(ShapeOp::UnaryOp(UnaryOp::Scale { scale: [x, y, z] }, Box::new(shape)))
}

/// `shape` under a matrix transform.  The operator is declared but not
/// implemented: shapes built with it are rejected by every compilation.
pub fn matrix_transform(shape: Shape, matrix: [Fx; 16]) -> (r: Shape)
    ensures
        r == Shape::ShapeOp(ShapeOp::UnaryOp(UnaryOp::MatrixTransform { matrix }, Box::new(shape))),
{
    Shape::ShapeOp(ShapeOp::UnaryOp(UnaryOp::MatrixTransform { matrix }, Box::new(shape)))
}

/// `shape` recoloured to the rgb colour `(r, g, b)`.
pub fn recolor(shape: Shape, red: u8, green: u8, blue: u8) -> (r: Shape)
    ensures
        r == Shape::ShapeOp(ShapeOp::UnaryOp(UnaryOp::Recolor { rgb: [red, green, blue] },
            Box::new(shape))),
{
    Shape::ShapeOp(ShapeOp::UnaryOp(UnaryOp::Recolor { rgb: [red, green, blue] }, Box::new(shape)))
}

/// `shape`, elided once the compiled voxel size reaches `threshold`.
pub fn abbreviate(shape: Shape, threshold: Fx) -> (r: Shape)
    ensures
        r == Shape::ShapeOp(ShapeOp::UnaryOp(UnaryOp::Abbreviate { threshold }, Box::new(shape))),
{
    Shape::ShapeOp(ShapeOp::UnaryOp(UnaryOp::Abbreviate { threshold }, Box::new(shape)))
}

/// The union of `a` and `b`.
pub fn union(a: Shape, b: Shape) -> (r: Shape)
    ensures
        r == Shape::ShapeOp(ShapeOp::BinaryOp(BinaryOp::Union, Box::new(a), Box::new(b))),
{
    Shape::ShapeOp(ShapeOp::BinaryOp(BinaryOp::Union, Box::new(a), Box::new(b)))
}

/// `a` with `b` removed.
pub fn difference(a: Shape, b: Shape) -> (r: Shape)
    ensures
        r == Shape::ShapeOp(ShapeOp::BinaryOp(BinaryOp::Difference, Box::new(a), Box::new(b))),
{
    Shape::ShapeOp(ShapeOp::BinaryOp(BinaryOp::Difference, Box::new(a), Box::new(b)))
}

/// The common part of `a` and `b`.
pub fn intersection(a: Shape, b: Shape) -> (r: Shape)
    ensures
        r == Shape::ShapeOp(ShapeOp::BinaryOp(BinaryOp::Intersection, Box::new(a), Box::new(b))),
{
    Shape::ShapeOp(ShapeOp::BinaryOp(BinaryOp::Intersection, Box::new(a), Box::new(b)))
}

/// The union of `a` and `b` in which `a`'s properties win on overlap.
pub fn replacement(a: Shape, b: Shape) -> (r: Shape)
    ensures
        r == Shape::ShapeOp(ShapeOp::BinaryOp(BinaryOp::Replacement, Box::new(a), Box::new(b))),
{
    Shape::ShapeOp(ShapeOp::BinaryOp(BinaryOp::Replacement, Box::new(a), Box::new(b)))
}

} // verus!
