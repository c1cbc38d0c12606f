//! Planiscope: a shape algebra for implicit surfaces and the
//! level-of-detail chunk pipeline built on it.
//!
//! Shapes are closed trees of primitives and CSG operators ([`shape`],
//! [`builder`]).  Compiling a shape or a [`comp::Composition`] lowers it to
//! a [`field::FieldNode`]: an expression over the three spatial coordinates
//! whose sign tells inside from outside.  The exact meaning of every
//! compiled expression is fixed by a rational-number semantics ([`rat`],
//! [`field::eval`]), and the laws of the algebra are proved against it.
//!
//! Around the algebra stand the coordinate system of octree addresses and
//! their transforms ([`coords`]), the level-of-detail scheduler over an
//! outside octree index ([`lod`]), and the per-chunk pipeline ([`chunk`],
//! [`mesh`]): compile, remap, hand the expression to an outside evaluation
//! engine for meshing, then prune the bleed overlap and denormalize the
//! surviving mesh into world space.
//!
//! All scalar quantities are exact fixed-point values ([`scalar::Fx`]);
//! the crate holds no floating point.

pub mod scalar;
pub mod rat;
pub mod field;
pub mod nso;
pub mod shape;
pub mod comp;
pub mod builder;
pub mod coords;
pub mod mesh;
pub mod lod;
pub mod chunk;
