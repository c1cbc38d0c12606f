//! The shape algebra and its compiler.
//!
//! A [`Shape`] is a finite tree: primitives at the leaves, unary and binary
//! operators above them.  Compiling a shape lowers it to a [`FieldNode`]:
//! [`Shape::compile_solid`] yields the signed solid field,
//! [`Shape::compile_color`] the packed colour field.  The specification
//! functions [`solid_field`] and [`color_field`] state exactly which
//! expression each compilation produces; the laws at the bottom relate the
//! values of those expressions.
//!
//! The `MatrixTransform` operator is declared but deliberately not
//! implemented: every compilation of a tree containing it is rejected with a
//! typed error rather than silently skipped.

use vstd::prelude::*;
use crate::scalar::{Fx, SCALE, fx_wf};
use crate::field::{FieldNode, Point, point_wf, eval, lemma_eval_wf};
use crate::rat::{rat_eq, rat_le, rat_lt, rat_of_fx, rat_of_int, rat_add, rat_sub, rat_mul,
    rat_neg, rat_min};
use crate::nso::{union_field, difference_field, intersection_field, replacement_field,
    translate_field, scale_field, clamp_field, bleed_field, color_applied_field, rgb24_of,
    nso_union, nso_difference, nso_intersection, nso_replacement, nso_translate, nso_scale,
    nso_clamp, nso_bleed, nso_color, lemma_union_commutes, DEFAULT_BLEED_BITS};
use crate::comp::CompilationSettings;

verus! {

/// A shape: a primitive definition or an operation on shapes.
#[derive(Debug, PartialEq)]
pub enum Shape {
    ShapeDef(ShapeDef),
    ShapeOp(ShapeOp),
}

/// A primitive shape definition.
#[derive(Debug, Clone, Copy, PartialEq)]
pub enum ShapeDef {
    SpherePrimitive { radius: Fx },
    RectPrismPrimitive { x: Fx, y: Fx, z: Fx },
    CubePrimitive { size: Fx },
}

/// An operation on one or two shapes.
#[derive(Debug, PartialEq)]
pub enum ShapeOp {
    UnaryOp(UnaryOp, Box<Shape>),
    BinaryOp(BinaryOp, Box<Shape>, Box<Shape>),
}

/// A unary operation and its parameters.
#[derive(Debug, Clone, Copy, PartialEq)]
pub enum UnaryOp {
    /// Translates a shape by a vector.
    Translate { pos: [Fx; 3] },
    /// Scales a shape by a vector.
    Scale { scale: [Fx; 3] },
    /// Applies a matrix transform to a shape.  Declared but not implemented:
    /// compiling a tree that holds one is rejected.
    MatrixTransform { matrix: [Fx; 16] },
    /// Recolours a shape to a specific rgb colour.
    Recolor { rgb: [u8; 3] },
    /// Replaces a shape by the constant "outside" field once the compiled
    /// voxel size reaches `threshold`, eliminating sub-voxel detail.
    Abbreviate { threshold: Fx },
}

/// A binary operation between two shapes.
#[derive(Debug, Clone, Copy, PartialEq, Eq, Structural)]
pub enum BinaryOp {
    /// Combines two shapes into one.
    Union,
    /// Subtracts the second shape from the first.
    Difference,
    /// Keeps the common part of two shapes.
    Intersection,
    /// A union in which the properties of the first shape win where the
    /// shapes overlap.
    Replacement,
}

/// The field types a shape can compile to.
#[derive(Debug, Clone, Copy, PartialEq, Eq, Hash)]
pub enum FieldType {
    /// The implicit surface of the shape: negative inside, positive outside,
    /// zero on the surface.
    Solid,
    /// The packed colour field of the shape.
    Color(ColorComponent),
    /// One inside the shape, minus one outside: the clamped solid field.
    Identity,
    /// The semantic-identifier field.  Declared but not implemented:
    /// requesting it is rejected.
    Semantic,
}

/// A component of the colour field.  The packed colour field is a single
/// scalar; both components compile to it.
#[derive(Debug, Clone, Copy, PartialEq, Eq, Hash)]
pub enum ColorComponent {
    Hue,
    Saturation,
}

/// Why a compilation was refused.
#[derive(Debug, Clone, Copy, PartialEq, Eq, Structural)]
pub enum CompileError {
    /// The shape tree holds a `MatrixTransform` operator.
    UnsupportedMatrixTransform,
    /// The semantic field was requested.
    UnsupportedSemanticField,
}

// ----------------------------------------------------------------------------
// Structural measures and well-formedness.

/// The number of nodes of a shape tree.
pub open spec fn shape_size(s: Shape) -> nat
    decreases s,
{
    match s {
        Shape::ShapeDef(_) => 1,
        Shape::ShapeOp(op) => shape_op_size(op),
    }
}

pub open spec fn shape_op_size(op: ShapeOp) -> nat
    decreases op,
{
    match op {
        ShapeOp::UnaryOp(_, a) => 1 + shape_size(*a),
        ShapeOp::BinaryOp(_, a, b) => 1 + shape_size(*a) + shape_size(*b),
    }
}

/// Every scalar in the tree is small enough for fixed-point arithmetic.
pub open spec fn shape_wf(s: Shape) -> bool
    decreases s,
{
    match s {
        Shape::ShapeDef(sd) => shape_def_wf(sd),
        Shape::ShapeOp(ShapeOp::UnaryOp(u, a)) => unary_wf(u) && shape_wf(*a),
        Shape::ShapeOp(ShapeOp::BinaryOp(_, a, b)) => shape_wf(*a) && shape_wf(*b),
    }
}

pub open spec fn shape_def_wf(sd: ShapeDef) -> bool {
    match sd {
        ShapeDef::SpherePrimitive { radius } => fx_wf(radius),
        ShapeDef::RectPrismPrimitive { x, y, z } => fx_wf(x) && fx_wf(y) && fx_wf(z),
        ShapeDef::CubePrimitive { size } => fx_wf(size),
    }
}

pub open spec fn unary_wf(u: UnaryOp) -> bool {
    match u {
        UnaryOp::Translate { pos } => fx_wf(pos[0]) && fx_wf(pos[1]) && fx_wf(pos[2]),
        UnaryOp::Scale { scale } => fx_wf(scale[0]) && fx_wf(scale[1]) && fx_wf(scale[2]),
        UnaryOp::MatrixTransform { .. } => true,
        UnaryOp::Recolor { .. } => true,
        UnaryOp::Abbreviate { threshold } => fx_wf(threshold),
    }
}

/// Whether the tree holds a `MatrixTransform` operator anywhere.
pub open spec fn shape_has_matrix(s: Shape) -> bool
    decreases s,
{
    match s {
        Shape::ShapeDef(_) => false,
        Shape::ShapeOp(ShapeOp::UnaryOp(u, a)) => (u matches UnaryOp::MatrixTransform { .. })
            || shape_has_matrix(*a),
        Shape::ShapeOp(ShapeOp::BinaryOp(_, a, b)) => shape_has_matrix(*a) || shape_has_matrix(*b),
    }
}

// ----------------------------------------------------------------------------
// The compiled fields, as specification functions.

/// The solid field of a rectangular prism of half-extents `x`, `y`, `z`
/// centred at `(x, y, z)`: the largest coordinate distance from the centre.
pub open spec fn rect_prism_field(x: Fx, y: Fx, z: Fx) -> FieldNode {
    FieldNode::Max(
        Box::new(FieldNode::Max(
            Box::new(FieldNode::Abs(Box::new(FieldNode::Sub(
                Box::new(FieldNode::X),
                Box::new(FieldNode::Const(x)),
            )))),
            Box::new(FieldNode::Abs(Box::new(FieldNode::Sub(
                Box::new(FieldNode::Y),
                Box::new(FieldNode::Const(y)),
            )))),
        )),
        Box::new(FieldNode::Abs(Box::new(FieldNode::Sub(
            Box::new(FieldNode::Z),
            Box::new(FieldNode::Const(z)),
        )))),
    )
}

/// The solid field of a primitive.  A primitive whose maximal extent is
/// below the minimum voxel size compiles to the constant "outside" field.
pub open spec fn solid_field_def(sd: ShapeDef, v: Fx) -> FieldNode {
    match sd {
        ShapeDef::SpherePrimitive { radius } => if radius.bits * 2 < v.bits {
            FieldNode::Const(Fx { bits: SCALE })
        } else {
            FieldNode::Sub(
                Box::new(FieldNode::Add(
                    Box::new(FieldNode::Add(
                        Box::new(FieldNode::Square(Box::new(FieldNode::X))),
                        Box::new(FieldNode::Square(Box::new(FieldNode::Y))),
                    )),
                    Box::new(FieldNode::Square(Box::new(FieldNode::Z))),
                )),
                Box::new(FieldNode::Square(Box::new(FieldNode::Const(radius)))),
            )
        },
        ShapeDef::RectPrismPrimitive { x, y, z } => if x.bits < v.bits && y.bits < v.bits && z.bits
            < v.bits {
            FieldNode::Const(Fx { bits: SCALE })
        } else {
            rect_prism_field(x, y, z)
        },
        ShapeDef::CubePrimitive { size } => if size.bits < v.bits {
            FieldNode::Const(Fx { bits: SCALE })
        } else {
            rect_prism_field(size, size, size)
        },
    }
}

/// The solid field a shape compiles to under minimum voxel size `v`.
/// Meaningless for trees holding a `MatrixTransform` (which do not compile).
pub open spec fn solid_field(s: Shape, v: Fx) -> FieldNode
    decreases s,
{
    match s {
        Shape::ShapeDef(sd) => solid_field_def(sd, v),
        Shape::ShapeOp(ShapeOp::UnaryOp(u, a)) => match u {
            UnaryOp::Translate { pos } => translate_field(solid_field(*a, v), pos),
            UnaryOp::Scale { scale } => scale_field(solid_field(*a, v), scale),
            UnaryOp::MatrixTransform { .. } => FieldNode::Const(Fx { bits: 0 }),
            UnaryOp::Recolor { .. } => solid_field(*a, v),
            UnaryOp::Abbreviate { threshold } => if v.bits < threshold.bits {
                solid_field(*a, v)
            } else {
                FieldNode::Const(Fx { bits: SCALE })
            },
        },
        Shape::ShapeOp(ShapeOp::BinaryOp(op, a, b)) => {
            let fa = solid_field(*a, v);
            let fb = solid_field(*b, v);
            match op {
                BinaryOp::Union => union_field(fa, fb),
                BinaryOp::Difference => difference_field(fa, fb),
                BinaryOp::Intersection => intersection_field(fa, fb),
                BinaryOp::Replacement => replacement_field(fa, fb),
            }
        },
    }
}

/// The solid field clamped steeply to `[-1, 1]`.
pub open spec fn clamped_solid_field(s: Shape, v: Fx) -> FieldNode {
    clamp_field(solid_field(s, v))
}

/// The default bleed factor applied before colouring.
pub open spec fn default_bleed() -> Fx {
    Fx { bits: DEFAULT_BLEED_BITS }
}

/// The colour field of a primitive: its clamped solid field, bled, coloured
/// white.
pub open spec fn color_field_def(sd: ShapeDef, v: Fx) -> FieldNode {
    color_applied_field(bleed_field(clamp_field(solid_field_def(sd, v)), default_bleed()), 16777215)
}

/// The colour rule shared by `Union` and `Replacement`: the first operand's
/// colour, plus the second's wherever the second extends beyond the first.
pub open spec fn replacement_color_field(
    sa: FieldNode,
    sb: FieldNode,
    ca: FieldNode,
    cb: FieldNode,
) -> FieldNode {
    FieldNode::Add(
        Box::new(ca),
        Box::new(FieldNode::Mul(
            Box::new(cb),
            Box::new(clamp_field(difference_field(sb, sa))),
        )),
    )
}

/// The colour field a shape compiles to under minimum voxel size `v`.
///
/// The per-operator colour rules are deliberately asymmetric and only
/// partially analogous to the solid rules: a union colours like a
/// replacement (the first operand wins on overlap), an intersection is flat
/// white over its own solid, and the translate, scale and abbreviate
/// operators pass the child's colour through untouched.
pub open spec fn color_field(s: Shape, v: Fx) -> FieldNode
    decreases s,
{
    match s {
        Shape::ShapeDef(sd) => color_field_def(sd, v),
        Shape::ShapeOp(ShapeOp::UnaryOp(u, a)) => match u {
            UnaryOp::Recolor { rgb } => color_applied_field(
                bleed_field(clamp_field(solid_field(*a, v)), default_bleed()),
                rgb24_of(rgb),
            ),
            UnaryOp::MatrixTransform { .. } => FieldNode::Const(Fx { bits: 0 }),
            _ => color_field(*a, v),
        },
        Shape::ShapeOp(ShapeOp::BinaryOp(op, a, b)) => match op {
            BinaryOp::Union => replacement_color_field(
                solid_field(*a, v),
                solid_field(*b, v),
                color_field(*a, v),
                color_field(*b, v),
            ),
            BinaryOp::Replacement => replacement_color_field(
                solid_field(*a, v),
                solid_field(*b, v),
                color_field(*a, v),
                color_field(*b, v),
            ),
            BinaryOp::Difference => FieldNode::Mul(
                Box::new(color_field(*a, v)),
                Box::new(clamp_field(difference_field(solid_field(*a, v), solid_field(*b, v)))),
            ),
            BinaryOp::Intersection => color_applied_field(
                bleed_field(intersection_field(solid_field(*a, v), solid_field(*b, v)),
                    default_bleed()),
                16777215,
            ),
        },
    }
}

// ----------------------------------------------------------------------------
// Compilation.

impl ShapeDef {
    /// Compiles the solid field of a primitive.
    pub fn compile_solid(&self, settings: &CompilationSettings) -> (r: FieldNode)
        requires
            shape_def_wf(*self),
            fx_wf(settings.min_voxel_size),
        ensures
            r == solid_field_def(*self, settings.min_voxel_size),
    {
        match self {
            ShapeDef::SpherePrimitive { radius } => {
                if radius.bits * 2 < settings.min_voxel_size.bits {
                    return FieldNode::Const(Fx { bits: SCALE });
                }
                let sum = FieldNode::Add(
                    Box::new(FieldNode::Square(Box::new(FieldNode::X))),
                    Box::new(FieldNode::Square(Box::new(FieldNode::Y))),
                );
                let sum = FieldNode::Add(
                    Box::new(sum),
                    Box::new(FieldNode::Square(Box::new(FieldNode::Z))),
                );
                FieldNode::Sub(
                    Box::new(sum),
                    Box::new(FieldNode::Square(Box::new(FieldNode::Const(*radius)))),
                )
            },
            ShapeDef::RectPrismPrimitive { x, y, z } => {
                if x.bits < settings.min_voxel_size.bits && y.bits < settings.min_voxel_size.bits
                    && z.bits < settings.min_voxel_size.bits {
                    return FieldNode::Const(Fx { bits: SCALE });
                }
                Self::rect_prism(*x, *y, *z)
            },
            ShapeDef::CubePrimitive { size } => {
                if size.bits < settings.min_voxel_size.bits {
                    return FieldNode::Const(Fx { bits: SCALE });
                }
                Self::rect_prism(*size, *size, *size)
            },
        }
    }

    /// The rectangular-prism distance expression.
    fn rect_prism(x: Fx, y: Fx, z: Fx) -> (r: FieldNode)
        ensures
            r == rect_prism_field(x, y, z),
    {
        let dx = FieldNode::Abs(Box::new(FieldNode::Sub(
            Box::new(FieldNode::X),
            Box::new(FieldNode::Const(x)),
        )));
        let dy = FieldNode::Abs(Box::new(FieldNode::Sub(
            Box::new(FieldNode::Y),
            Box::new(FieldNode::Const(y)),
        )));
        let dz = FieldNode::Abs(Box::new(FieldNode::Sub(
            Box::new(FieldNode::Z),
            Box::new(FieldNode::Const(z)),
        )));
        let max_xy = FieldNode::Max(Box::new(dx), Box::new(dy));
        FieldNode::Max(Box::new(max_xy), Box::new(dz))
    }

    /// Compiles the solid field, clamped to one inside and minus one outside.
    pub fn compile_clamped_solid(&self, settings: &CompilationSettings) -> (r: FieldNode)
        requires
            shape_def_wf(*self),
            fx_wf(settings.min_voxel_size),
        ensures
            r == clamp_field(solid_field_def(*self, settings.min_voxel_size)),
    {
        let f = self.compile_solid(settings);
        nso_clamp(f)
    }

    /// Compiles the colour field of a primitive.
    pub fn compile_color(&self, settings: &CompilationSettings) -> (r: FieldNode)
        requires
            shape_def_wf(*self),
            fx_wf(settings.min_voxel_size),
        ensures
            r == color_field_def(*self, settings.min_voxel_size),
    {
        let f = self.compile_clamped_solid(settings);
        let f = nso_bleed(f, Fx { bits: DEFAULT_BLEED_BITS });
        nso_color(f, [255, 255, 255])
    }
}

impl Shape {
    /// Whether the tree holds a `MatrixTransform` operator anywhere.
    pub fn contains_matrix_transform(&self) -> (r: bool)
        ensures
            r == shape_has_matrix(*self),
        decreases shape_size(*self), 0nat,
    {
        match self {
            Shape::ShapeDef(_) => false,
            Shape::ShapeOp(ShapeOp::UnaryOp(u, a)) => {
                let here = match u {
                    UnaryOp::MatrixTransform { .. } => true,
                    _ => false,
                };
                here || a.contains_matrix_transform()
            },
            Shape::ShapeOp(ShapeOp::BinaryOp(_, a, b)) => a.contains_matrix_transform()
                || b.contains_matrix_transform(),
        }
    }

    /// Compiles the solid field of a shape.  Fails exactly on trees that
    /// hold a `MatrixTransform` operator.
    pub fn compile_solid(&self, settings: &CompilationSettings) -> (r: Result<
        FieldNode,
        CompileError,
    >)
        requires
            shape_wf(*self),
            fx_wf(settings.min_voxel_size),
        ensures
            !shape_has_matrix(*self) ==> r == Ok::<FieldNode, CompileError>(
                solid_field(*self, settings.min_voxel_size),
            ),
            shape_has_matrix(*self) ==> r == Err::<FieldNode, CompileError>(
                CompileError::UnsupportedMatrixTransform,
            ),
        decreases shape_size(*self), 2nat,
    {
        match self {
            Shape::ShapeDef(sd) => Ok(sd.compile_solid(settings)),
            Shape::ShapeOp(op) => op.compile_solid(settings),
        }
    }

    /// Compiles the solid field clamped to one inside and minus one outside.
    pub fn compile_clamped_solid(&self, settings: &CompilationSettings) -> (r: Result<
        FieldNode,
        CompileError,
    >)
        requires
            shape_wf(*self),
            fx_wf(settings.min_voxel_size),
        ensures
            !shape_has_matrix(*self) ==> r == Ok::<FieldNode, CompileError>(
                clamped_solid_field(*self, settings.min_voxel_size),
            ),
            shape_has_matrix(*self) ==> r == Err::<FieldNode, CompileError>(
                CompileError::UnsupportedMatrixTransform,
            ),
        decreases shape_size(*self), 3nat,
    {
        let f = match self.compile_solid(settings) {
            Ok(f) => f,
            Err(e) => {
                return Err(e);
            },
        };
        Ok(nso_clamp(f))
    }

    /// Compiles the colour field of a shape.  Fails exactly on trees that
    /// hold a `MatrixTransform` operator.
    pub fn compile_color(&self, settings: &CompilationSettings) -> (r: Result<
        FieldNode,
        CompileError,
    >)
        requires
            shape_wf(*self),
            fx_wf(settings.min_voxel_size),
        ensures
            !shape_has_matrix(*self) ==> r == Ok::<FieldNode, CompileError>(
                color_field(*self, settings.min_voxel_size),
            ),
            shape_has_matrix(*self) ==> r == Err::<FieldNode, CompileError>(
                CompileError::UnsupportedMatrixTransform,
            ),
        decreases shape_size(*self), 4nat,
    {
        match self {
            Shape::ShapeDef(sd) => Ok(sd.compile_color(settings)),
            Shape::ShapeOp(op) => op.compile_color(settings),
        }
    }

    /// Compiles the requested field of a shape.  The semantic field is not
    /// implemented and is rejected; the other fields fail exactly on trees
    /// that hold a `MatrixTransform` operator.
    pub fn build(&self, field: FieldType, settings: &CompilationSettings) -> (r: Result<
        FieldNode,
        CompileError,
    >)
        requires
            shape_wf(*self),
            fx_wf(settings.min_voxel_size),
        ensures
            field matches FieldType::Semantic ==> r == Err::<FieldNode, CompileError>(
                CompileError::UnsupportedSemanticField,
            ),
            !(field matches FieldType::Semantic) && shape_has_matrix(*self) ==> r == Err::<
                FieldNode,
                CompileError,
            >(CompileError::UnsupportedMatrixTransform),
            field matches FieldType::Solid && !shape_has_matrix(*self) ==> r == Ok::<
                FieldNode,
                CompileError,
            >(solid_field(*self, settings.min_voxel_size)),
            field matches FieldType::Color(_) && !shape_has_matrix(*self) ==> r == Ok::<
                FieldNode,
                CompileError,
            >(color_field(*self, settings.min_voxel_size)),
            field matches FieldType::Identity && !shape_has_matrix(*self) ==> r == Ok::<
                FieldNode,
                CompileError,
            >(clamped_solid_field(*self, settings.min_voxel_size)),
        decreases shape_size(*self), 5nat,
    {
        match field {
            FieldType::Solid => self.compile_solid(settings),
            FieldType::Color(_) => self.compile_color(settings),
            FieldType::Identity => self.compile_clamped_solid(settings),
            FieldType::Semantic => Err(CompileError::UnsupportedSemanticField),
        }
    }
}

impl ShapeOp {
    /// Compiles the solid field of a shape operation.
    pub fn compile_solid(&self, settings: &CompilationSettings) -> (r: Result<
        FieldNode,
        CompileError,
    >)
        requires
            shape_wf(Shape::ShapeOp(*self)),
            fx_wf(settings.min_voxel_size),
        ensures
            !shape_has_matrix(Shape::ShapeOp(*self)) ==> r == Ok::<FieldNode, CompileError>(
                solid_field(Shape::ShapeOp(*self), settings.min_voxel_size),
            ),
            shape_has_matrix(Shape::ShapeOp(*self)) ==> r == Err::<FieldNode, CompileError>(
                CompileError::UnsupportedMatrixTransform,
            ),
        decreases shape_op_size(*self), 1nat,
    {
        match self {
            ShapeOp::UnaryOp(unary_op, a) => unary_op.compile_solid(&**a, settings),
            ShapeOp::BinaryOp(binary_op, a, b) => binary_op.compile_solid(&**a, &**b, settings),
        }
    }

    /// Compiles the colour field of a shape operation.
    pub fn compile_color(&self, settings: &CompilationSettings) -> (r: Result<
        FieldNode,
        CompileError,
    >)
        requires
            shape_wf(Shape::ShapeOp(*self)),
            fx_wf(settings.min_voxel_size),
        ensures
            !shape_has_matrix(Shape::ShapeOp(*self)) ==> r == Ok::<FieldNode, CompileError>(
                color_field(Shape::ShapeOp(*self), settings.min_voxel_size),
            ),
            shape_has_matrix(Shape::ShapeOp(*self)) ==> r == Err::<FieldNode, CompileError>(
                CompileError::UnsupportedMatrixTransform,
            ),
        decreases shape_op_size(*self), 3nat,
    {
        match self {
            ShapeOp::UnaryOp(unary_op, a) => unary_op.compile_color(&**a, settings),
            ShapeOp::BinaryOp(binary_op, a, b) => binary_op.compile_color(&**a, &**b, settings),
        }
    }
}

impl UnaryOp {
    /// Compiles the solid field of a unary operation applied to `a`.
    fn compile_solid(&self, a: &Shape, settings: &CompilationSettings) -> (r: Result<
        FieldNode,
        CompileError,
    >)
        requires
            unary_wf(*self),
            shape_wf(*a),
            fx_wf(settings.min_voxel_size),
        ensures
            !shape_has_matrix(Shape::ShapeOp(ShapeOp::UnaryOp(*self, Box::new(*a)))) ==> r == Ok::<
                FieldNode,
                CompileError,
            >(solid_field(
                Shape::ShapeOp(ShapeOp::UnaryOp(*self, Box::new(*a))),
                settings.min_voxel_size,
            )),
            shape_has_matrix(Shape::ShapeOp(ShapeOp::UnaryOp(*self, Box::new(*a)))) ==> r == Err::<
                FieldNode,
                CompileError,
            >(CompileError::UnsupportedMatrixTransform),
        decreases 1nat + shape_size(*a), 0nat,
    {
        match self {
            UnaryOp::Translate { pos } => {
                let f = match a.compile_solid(settings) {
                    Ok(f) => f,
                    Err(e) => {
                        return Err(e);
                    },
                };
                Ok(nso_translate(f, *pos))
            },
            UnaryOp::Scale { scale } => {
                let f = match a.compile_solid(settings) {
                    Ok(f) => f,
                    Err(e) => {
                        return Err(e);
                    },
                };
                Ok(nso_scale(f, *scale))
            },
            UnaryOp::MatrixTransform { .. } => Err(CompileError::UnsupportedMatrixTransform),
            UnaryOp::Recolor { .. } => a.compile_solid(settings),
            UnaryOp::Abbreviate { threshold } => {
                if settings.min_voxel_size.bits < threshold.bits {
                    a.compile_solid(settings)
                } else if a.contains_matrix_transform() {
                    // The child is not compiled here, but a tree holding the
                    // unimplemented operator is still rejected.
                    Err(CompileError::UnsupportedMatrixTransform)
                } else {
                    Ok(FieldNode::Const(Fx { bits: SCALE }))
                }
            },
        }
    }

    /// Compiles the colour field of a unary operation applied to `a`.
    fn compile_color(&self, a: &Shape, settings: &CompilationSettings) -> (r: Result<
        FieldNode,
        CompileError,
    >)
        requires
            unary_wf(*self),
            shape_wf(*a),
            fx_wf(settings.min_voxel_size),
        ensures
            !shape_has_matrix(Shape::ShapeOp(ShapeOp::UnaryOp(*self, Box::new(*a)))) ==> r == Ok::<
                FieldNode,
                CompileError,
            >(color_field(
                Shape::ShapeOp(ShapeOp::UnaryOp(*self, Box::new(*a))),
                settings.min_voxel_size,
            )),
            shape_has_matrix(Shape::ShapeOp(ShapeOp::UnaryOp(*self, Box::new(*a)))) ==> r == Err::<
                FieldNode,
                CompileError,
            >(CompileError::UnsupportedMatrixTransform),
        decreases 1nat + shape_size(*a), 2nat,
    {
        match self {
            UnaryOp::Recolor { rgb } => {
                let f = match a.compile_clamped_solid(settings) {
                    Ok(f) => f,
                    Err(e) => {
                        return Err(e);
                    },
                };
                let f = nso_bleed(f, Fx { bits: DEFAULT_BLEED_BITS });
                Ok(nso_color(f, *rgb))
            },
            UnaryOp::MatrixTransform { .. } => Err(CompileError::UnsupportedMatrixTransform),
            _ => a.compile_color(settings),
        }
    }
}

impl BinaryOp {
    /// Compiles the solid field of a binary operation on `a` and `b`.
    pub fn compile_solid(&self, a: &Shape, b: &Shape, settings: &CompilationSettings) -> (r: Result<
        FieldNode,
        CompileError,
    >)
        requires
            shape_wf(*a),
            shape_wf(*b),
            fx_wf(settings.min_voxel_size),
        ensures
            !shape_has_matrix(*a) && !shape_has_matrix(*b) ==> r == Ok::<FieldNode, CompileError>(
                solid_field(
                    Shape::ShapeOp(ShapeOp::BinaryOp(*self, Box::new(*a), Box::new(*b))),
                    settings.min_voxel_size,
                ),
            ),
            shape_has_matrix(*a) || shape_has_matrix(*b) ==> r == Err::<FieldNode, CompileError>(
                CompileError::UnsupportedMatrixTransform,
            ),
        decreases 1nat + shape_size(*a) + shape_size(*b), 0nat,
    {
        let fa = match a.compile_solid(settings) {
            Ok(f) => f,
            Err(e) => {
                return Err(e);
            },
        };
        let fb = match b.compile_solid(settings) {
            Ok(f) => f,
            Err(e) => {
                return Err(e);
            },
        };
        match self {
            BinaryOp::Union => Ok(nso_union(fa, fb)),
            BinaryOp::Difference => Ok(nso_difference(fa, fb)),
            BinaryOp::Intersection => Ok(nso_intersection(fa, fb)),
            BinaryOp::Replacement => Ok(nso_replacement(fa, fb)),
        }
    }

    /// Compiles the solid field of the operation, clamped.
    pub fn compile_clamped_solid(
        &self,
        a: &Shape,
        b: &Shape,
        settings: &CompilationSettings,
    ) -> (r: Result<FieldNode, CompileError>)
        requires
            shape_wf(*a),
            shape_wf(*b),
            fx_wf(settings.min_voxel_size),
        ensures
            !shape_has_matrix(*a) && !shape_has_matrix(*b) ==> r == Ok::<FieldNode, CompileError>(
                clamped_solid_field(
                    Shape::ShapeOp(ShapeOp::BinaryOp(*self, Box::new(*a), Box::new(*b))),
                    settings.min_voxel_size,
                ),
            ),
            shape_has_matrix(*a) || shape_has_matrix(*b) ==> r == Err::<FieldNode, CompileError>(
                CompileError::UnsupportedMatrixTransform,
            ),
        decreases 1nat + shape_size(*a) + shape_size(*b), 1nat,
    {
        let f = match self.compile_solid(a, b, settings) {
            Ok(f) => f,
            Err(e) => {
                return Err(e);
            },
        };
        Ok(nso_clamp(f))
    }

    /// Compiles the colour field of a binary operation on `a` and `b`.
    pub fn compile_color(&self, a: &Shape, b: &Shape, settings: &CompilationSettings) -> (r: Result<
        FieldNode,
        CompileError,
    >)
        requires
            shape_wf(*a),
            shape_wf(*b),
            fx_wf(settings.min_voxel_size),
        ensures
            !shape_has_matrix(*a) && !shape_has_matrix(*b) ==> r == Ok::<FieldNode, CompileError>(
                color_field(
                    Shape::ShapeOp(ShapeOp::BinaryOp(*self, Box::new(*a), Box::new(*b))),
                    settings.min_voxel_size,
                ),
            ),
            shape_has_matrix(*a) || shape_has_matrix(*b) ==> r == Err::<FieldNode, CompileError>(
                CompileError::UnsupportedMatrixTransform,
            ),
        decreases 1nat + shape_size(*a) + shape_size(*b), 2nat,
    {
        match self {
            BinaryOp::Union | BinaryOp::Replacement => {
                let fa = match a.compile_solid(settings) {
                    Ok(f) => f,
                    Err(e) => {
                        return Err(e);
                    },
                };
                let fb = match b.compile_solid(settings) {
                    Ok(f) => f,
                    Err(e) => {
                        return Err(e);
                    },
                };
                let bd = nso_difference(fb, fa);
                let bc = nso_clamp(bd);
                let ca = match a.compile_color(settings) {
                    Ok(f) => f,
                    Err(e) => {
                        return Err(e);
                    },
                };
                let cb = match b.compile_color(settings) {
                    Ok(f) => f,
                    Err(e) => {
                        return Err(e);
                    },
                };
                let weighted = FieldNode::Mul(Box::new(cb), Box::new(bc));
                Ok(FieldNode::Add(Box::new(ca), Box::new(weighted)))
            },
            BinaryOp::Difference => {
                let f = match self.compile_clamped_solid(a, b, settings) {
                    Ok(f) => f,
                    Err(e) => {
                        return Err(e);
                    },
                };
                let ca = match a.compile_color(settings) {
                    Ok(f) => f,
                    Err(e) => {
                        return Err(e);
                    },
                };
                Ok(FieldNode::Mul(Box::new(ca), Box::new(f)))
            },
            BinaryOp::Intersection => {
                let f = match self.compile_solid(a, b, settings) {
                    Ok(f) => f,
                    Err(e) => {
                        return Err(e);
                    },
                };
                let f = nso_bleed(f, Fx { bits: DEFAULT_BLEED_BITS });
                Ok(nso_color(f, [255, 255, 255]))
            },
        }
    }
}

impl Clone for Shape {
    /// An exact structural copy.
    fn clone(&self) -> (r: Self)
        ensures
            r == *self,
        decreases shape_size(*self),
    {
        match self {
            Shape::ShapeDef(sd) => Shape::ShapeDef(*sd),
            Shape::ShapeOp(ShapeOp::UnaryOp(u, a)) => Shape::ShapeOp(
                ShapeOp::UnaryOp(*u, Box::new((**a).clone())),
            ),
            Shape::ShapeOp(ShapeOp::BinaryOp(op, a, b)) => Shape::ShapeOp(
                ShapeOp::BinaryOp(*op, Box::new((**a).clone()), Box::new((**b).clone())),
            ),
        }
    }
}

// ----------------------------------------------------------------------------
// Laws.

/// The solid field of a non-degenerate sphere of radius `radius` evaluates
/// at every point to the squared distance from the origin minus the squared
/// radius: negative strictly inside, zero on the surface, positive strictly
/// outside.
pub proof fn lemma_sphere_solid_sign(s: Shape, radius: Fx, v: Fx, p: Point)
    requires
        point_wf(p),
        s matches Shape::ShapeDef(ShapeDef::SpherePrimitive { radius: r2 }) && r2 == radius,
        radius.bits * 2 >= v.bits,
    ensures
        eval(solid_field(s, v), p) == rat_sub(
            rat_add(rat_add(rat_mul(p.x, p.x), rat_mul(p.y, p.y)), rat_mul(p.z, p.z)),
            rat_mul(rat_of_fx(radius), rat_of_fx(radius)),
        ),
        rat_lt(
            rat_add(rat_add(rat_mul(p.x, p.x), rat_mul(p.y, p.y)), rat_mul(p.z, p.z)),
            rat_mul(rat_of_fx(radius), rat_of_fx(radius)),
        ) ==> rat_lt(eval(solid_field(s, v), p), rat_of_int(0)),
        rat_eq(
            rat_add(rat_add(rat_mul(p.x, p.x), rat_mul(p.y, p.y)), rat_mul(p.z, p.z)),
            rat_mul(rat_of_fx(radius), rat_of_fx(radius)),
        ) ==> rat_eq(eval(solid_field(s, v), p), rat_of_int(0)),
        rat_lt(
            rat_mul(rat_of_fx(radius), rat_of_fx(radius)),
            rat_add(rat_add(rat_mul(p.x, p.x), rat_mul(p.y, p.y)), rat_mul(p.z, p.z)),
        ) ==> rat_lt(rat_of_int(0), eval(solid_field(s, v), p)),
{
    assert(eval(solid_field(s, v), p) == rat_sub(
        rat_add(rat_add(rat_mul(p.x, p.x), rat_mul(p.y, p.y)), rat_mul(p.z, p.z)),
        rat_mul(rat_of_fx(radius), rat_of_fx(radius)),
    )) by {
        reveal_with_fuel(eval, 5);
    }
}

/// The union of two shapes has the same solid-field value whichever way
/// around its operands are composed.
pub proof fn lemma_union_commutative(u1: Shape, u2: Shape, a: Shape, b: Shape, v: Fx, p: Point)
    requires
        point_wf(p),
        u1 matches Shape::ShapeOp(ShapeOp::BinaryOp(BinaryOp::Union, x1, y1)) && *x1 == a && *y1
            == b,
        u2 matches Shape::ShapeOp(ShapeOp::BinaryOp(BinaryOp::Union, x2, y2)) && *x2 == b && *y2
            == a,
    ensures
        rat_eq(eval(solid_field(u1, v), p), eval(solid_field(u2, v), p)),
{
    lemma_union_commutes(solid_field(a, v), solid_field(b, v), p);
}

/// At a point strictly inside the first operand where the second operand's
/// field is no smaller, a replacement has exactly the first operand's solid
/// value.  (Where the second operand's field falls below the first's, the
/// replacement takes the smaller value instead.)
pub proof fn lemma_replacement_preserves_interior(
    r: Shape,
    a: Shape,
    b: Shape,
    v: Fx,
    p: Point,
)
    requires
        point_wf(p),
        r matches Shape::ShapeOp(ShapeOp::BinaryOp(BinaryOp::Replacement, x1, y1)) && *x1 == a
            && *y1 == b,
        rat_lt(eval(solid_field(a, v), p), rat_of_int(0)),
        rat_le(eval(solid_field(a, v), p), eval(solid_field(b, v), p)),
    ensures
        eval(solid_field(r, v), p) == eval(solid_field(a, v), p),
{
    let ea = eval(solid_field(a, v), p);
    let eb = eval(solid_field(b, v), p);
    lemma_eval_wf(solid_field(a, v), p);
    lemma_eval_wf(solid_field(b, v), p);
    assert(solid_field(r, v) == replacement_field(solid_field(a, v), solid_field(b, v)));
    assert(eval(solid_field(r, v), p) == rat_min(ea, rat_min(eb, rat_neg(ea)))) by {
        reveal_with_fuel(eval, 4);
    }
    // Strictly inside `a`, the numerator of `ea` is negative, so `-ea` is
    // above `ea`.
    assert(rat_lt(ea, rat_of_int(0)));
    assert(ea.n * 1 < 0 * ea.d);
    assert(ea.n < 0);
    assert(ea.n * ea.d <= (-ea.n) * ea.d) by (nonlinear_arith)
        requires
            ea.n < 0,
            ea.d > 0,
    ;
    assert(rat_le(ea, rat_neg(ea)));
}

/// An abbreviated shape compiles to the constant "outside" field whenever
/// the minimum voxel size has reached the threshold, and to the child's own
/// field otherwise.
pub proof fn lemma_abbreviate_cutoff(s: Shape, child: Shape, t: Fx, v: Fx)
    requires
        s matches Shape::ShapeOp(ShapeOp::UnaryOp(u, c)) && u == (UnaryOp::Abbreviate {
            threshold: t,
        }) && *c == child,
    ensures
        v.bits >= t.bits ==> solid_field(s, v) == FieldNode::Const(Fx { bits: SCALE }),
        v.bits < t.bits ==> solid_field(s, v) == solid_field(child, v),
{
}

} // verus!
