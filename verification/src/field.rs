//! Field expressions.
//!
//! A [`FieldNode`] is an expression tree over the three spatial coordinates.
//! Compiling a shape produces one for its solid field (negative inside,
//! positive outside, zero on the surface) and one for its colour field.
//! [`eval`] gives the expression its mathematical meaning: the exact rational
//! value of the field at a point.  Callers hand finished expressions to an
//! outside evaluation engine for numeric work; every law of this library is
//! a statement about [`eval`].

use vstd::prelude::*;
use crate::scalar::Fx;
use crate::rat::{Rat, rat_wf, rat_eq, rat_of_fx, rat_add, rat_sub, rat_mul, rat_div, rat_neg, rat_iabs, rat_min, rat_max, lemma_rat_ops_wf, lemma_rat_add_congr, lemma_rat_mul_congr, lemma_rat_div_congr, lemma_rat_neg_congr, lemma_rat_min_congr};

verus! {

/// An expression over the coordinates `X`, `Y`, `Z`.
///
/// `Remap(f, ex, ey, ez)` evaluates `f` with the three coordinates replaced
/// by the values of `ex`, `ey`, `ez` at the original point, as the remapping
/// operation of expression-graph engines does.
#[derive(Debug, PartialEq, Eq)]
pub enum FieldNode {
    X,
    Y,
    Z,
    Const(Fx),
    Add(Box<FieldNode>, Box<FieldNode>),
    Sub(Box<FieldNode>, Box<FieldNode>),
    Mul(Box<FieldNode>, Box<FieldNode>),
    Div(Box<FieldNode>, Box<FieldNode>),
    Neg(Box<FieldNode>),
    Abs(Box<FieldNode>),
    Square(Box<FieldNode>),
    Min(Box<FieldNode>, Box<FieldNode>),
    Max(Box<FieldNode>, Box<FieldNode>),
    Remap(Box<FieldNode>, Box<FieldNode>, Box<FieldNode>, Box<FieldNode>),
}

/// A point of evaluation: three exact rational coordinates.
pub ghost struct Point {
    pub x: Rat,
    pub y: Rat,
    pub z: Rat,
}

pub open spec fn point_wf(p: Point) -> bool {
    rat_wf(p.x) && rat_wf(p.y) && rat_wf(p.z)
}

/// The two points name the same position.
pub open spec fn point_eq(p: Point, q: Point) -> bool {
    rat_eq(p.x, q.x) && rat_eq(p.y, q.y) && rat_eq(p.z, q.z)
}

/// The exact value of a field expression at a point.
pub open spec fn eval(f: FieldNode, p: Point) -> Rat
    decreases f,
{
    match f {
        FieldNode::X => p.x,
        FieldNode::Y => p.y,
        FieldNode::Z => p.z,
        FieldNode::Const(c) => rat_of_fx(c),
        FieldNode::Add(a, b) => rat_add(eval(*a, p), eval(*b, p)),
        FieldNode::Sub(a, b) => rat_sub(eval(*a, p), eval(*b, p)),
        FieldNode::Mul(a, b) => rat_mul(eval(*a, p), eval(*b, p)),
        FieldNode::Div(a, b) => rat_div(eval(*a, p), eval(*b, p)),
        FieldNode::Neg(a) => rat_neg(eval(*a, p)),
        FieldNode::Abs(a) => rat_iabs(eval(*a, p)),
        FieldNode::Square(a) => rat_mul(eval(*a, p), eval(*a, p)),
        FieldNode::Min(a, b) => rat_min(eval(*a, p), eval(*b, p)),
        FieldNode::Max(a, b) => rat_max(eval(*a, p), eval(*b, p)),
        FieldNode::Remap(f, ex, ey, ez) => eval(
            *f,
            Point { x: eval(*ex, p), y: eval(*ey, p), z: eval(*ez, p) },
        ),
    }
}

/// Evaluation at a well-formed point yields a well-formed rational.
pub proof fn lemma_eval_wf(f: FieldNode, p: Point)
    requires
        point_wf(p),
    ensures
        rat_wf(eval(f, p)),
    decreases f,
{
    match f {
        FieldNode::X => {},
        FieldNode::Y => {},
        FieldNode::Z => {},
        FieldNode::Const(c) => {},
        FieldNode::Add(a, b) => {
            lemma_eval_wf(*a, p);
            lemma_eval_wf(*b, p);
            lemma_rat_ops_wf(eval(*a, p), eval(*b, p));
        },
        FieldNode::Sub(a, b) => {
            lemma_eval_wf(*a, p);
            lemma_eval_wf(*b, p);
            lemma_rat_ops_wf(eval(*a, p), eval(*b, p));
        },
        FieldNode::Mul(a, b) => {
            lemma_eval_wf(*a, p);
            lemma_eval_wf(*b, p);
            lemma_rat_ops_wf(eval(*a, p), eval(*b, p));
        },
        FieldNode::Div(a, b) => {
            lemma_eval_wf(*a, p);
            lemma_eval_wf(*b, p);
            lemma_rat_ops_wf(eval(*a, p), eval(*b, p));
        },
        FieldNode::Neg(a) => {
            lemma_eval_wf(*a, p);
            lemma_rat_ops_wf(eval(*a, p), eval(*a, p));
        },
        FieldNode::Abs(a) => {
            lemma_eval_wf(*a, p);
            lemma_rat_ops_wf(eval(*a, p), eval(*a, p));
        },
        FieldNode::Square(a) => {
            lemma_eval_wf(*a, p);
            lemma_rat_ops_wf(eval(*a, p), eval(*a, p));
        },
        FieldNode::Min(a, b) => {
            lemma_eval_wf(*a, p);
            lemma_eval_wf(*b, p);
            lemma_rat_ops_wf(eval(*a, p), eval(*b, p));
        },
        FieldNode::Max(a, b) => {
            lemma_eval_wf(*a, p);
            lemma_eval_wf(*b, p);
            lemma_rat_ops_wf(eval(*a, p), eval(*b, p));
        },
        FieldNode::Remap(f2, ex, ey, ez) => {
            lemma_eval_wf(*ex, p);
            lemma_eval_wf(*ey, p);
            lemma_eval_wf(*ez, p);
            lemma_eval_wf(*f2, Point { x: eval(*ex, p), y: eval(*ey, p), z: eval(*ez, p) });
        },
    }
}

/// Evaluation respects sameness of points: the value of a field depends on
/// the position named, not on the representation of its coordinates.
pub proof fn lemma_eval_congr(f: FieldNode, p: Point, q: Point)
    requires
        point_wf(p),
        point_wf(q),
        point_eq(p, q),
    ensures
        rat_eq(eval(f, p), eval(f, q)),
    decreases f,
{
    match f {
        FieldNode::X => {},
        FieldNode::Y => {},
        FieldNode::Z => {},
        FieldNode::Const(c) => {},
        FieldNode::Add(a, b) => {
            lemma_eval_congr(*a, p, q);
            lemma_eval_congr(*b, p, q);
            lemma_eval_wf(*a, p);
            lemma_eval_wf(*b, p);
            lemma_eval_wf(*a, q);
            lemma_eval_wf(*b, q);
            lemma_rat_add_congr(eval(*a, p), eval(*b, p), eval(*a, q), eval(*b, q));
        },
        FieldNode::Sub(a, b) => {
            lemma_eval_congr(*a, p, q);
            lemma_eval_congr(*b, p, q);
            lemma_eval_wf(*a, p);
            lemma_eval_wf(*b, p);
            lemma_eval_wf(*a, q);
            lemma_eval_wf(*b, q);
            lemma_rat_add_congr(eval(*a, p), eval(*b, p), eval(*a, q), eval(*b, q));
        },
        FieldNode::Mul(a, b) => {
            lemma_eval_congr(*a, p, q);
            lemma_eval_congr(*b, p, q);
            lemma_eval_wf(*a, p);
            lemma_eval_wf(*b, p);
            lemma_eval_wf(*a, q);
            lemma_eval_wf(*b, q);
            lemma_rat_mul_congr(eval(*a, p), eval(*b, p), eval(*a, q), eval(*b, q));
        },
        FieldNode::Div(a, b) => {
            lemma_eval_congr(*a, p, q);
            lemma_eval_congr(*b, p, q);
            lemma_eval_wf(*a, p);
            lemma_eval_wf(*b, p);
            lemma_eval_wf(*a, q);
            lemma_eval_wf(*b, q);
            lemma_rat_div_congr(eval(*a, p), eval(*b, p), eval(*a, q), eval(*b, q));
        },
        FieldNode::Neg(a) => {
            lemma_eval_congr(*a, p, q);
            lemma_eval_wf(*a, p);
            lemma_eval_wf(*a, q);
            lemma_rat_neg_congr(eval(*a, p), eval(*a, q));
        },
        FieldNode::Abs(a) => {
            lemma_eval_congr(*a, p, q);
            lemma_eval_wf(*a, p);
            lemma_eval_wf(*a, q);
            lemma_rat_neg_congr(eval(*a, p), eval(*a, q));
        },
        FieldNode::Square(a) => {
            lemma_eval_congr(*a, p, q);
            lemma_eval_wf(*a, p);
            lemma_eval_wf(*a, q);
            lemma_rat_mul_congr(eval(*a, p), eval(*a, p), eval(*a, q), eval(*a, q));
        },
        FieldNode::Min(a, b) => {
            lemma_eval_congr(*a, p, q);
            lemma_eval_congr(*b, p, q);
            lemma_eval_wf(*a, p);
            lemma_eval_wf(*b, p);
            lemma_eval_wf(*a, q);
            lemma_eval_wf(*b, q);
            lemma_rat_min_congr(eval(*a, p), eval(*b, p), eval(*a, q), eval(*b, q));
        },
        FieldNode::Max(a, b) => {
            lemma_eval_congr(*a, p, q);
            lemma_eval_congr(*b, p, q);
            lemma_eval_wf(*a, p);
            lemma_eval_wf(*b, p);
            lemma_eval_wf(*a, q);
            lemma_eval_wf(*b, q);
            lemma_rat_min_congr(eval(*a, p), eval(*b, p), eval(*a, q), eval(*b, q));
        },
        FieldNode::Remap(f2, ex, ey, ez) => {
            lemma_eval_congr(*ex, p, q);
            lemma_eval_congr(*ey, p, q);
            lemma_eval_congr(*ez, p, q);
            lemma_eval_wf(*ex, p);
            lemma_eval_wf(*ey, p);
            lemma_eval_wf(*ez, p);
            lemma_eval_wf(*ex, q);
            lemma_eval_wf(*ey, q);
            lemma_eval_wf(*ez, q);
            let p2 = Point { x: eval(*ex, p), y: eval(*ey, p), z: eval(*ez, p) };
            let q2 = Point { x: eval(*ex, q), y: eval(*ey, q), z: eval(*ez, q) };
            lemma_eval_congr(*f2, p2, q2);
        },
    }
}

impl Clone for FieldNode {
    /// An exact structural copy.
    fn clone(&self) -> (r: Self)
        ensures
            r == *self,
        decreases *self,
    {
        match self {
            FieldNode::X => FieldNode::X,
            FieldNode::Y => FieldNode::Y,
            FieldNode::Z => FieldNode::Z,
            FieldNode::Const(c) => FieldNode::Const(*c),
            FieldNode::Add(a, b) => FieldNode::Add(
                Box::new((**a).clone()),
                Box::new((**b).clone()),
            ),
            FieldNode::Sub(a, b) => FieldNode::Sub(
                Box::new((**a).clone()),
                Box::new((**b).clone()),
            ),
            FieldNode::Mul(a, b) => FieldNode::Mul(
                Box::new((**a).clone()),
                Box::new((**b).clone()),
            ),
            FieldNode::Div(a, b) => FieldNode::Div(
                Box::new((**a).clone()),
                Box::new((**b).clone()),
            ),
            FieldNode::Neg(a) => FieldNode::Neg(Box::new((**a).clone())),
            FieldNode::Abs(a) => FieldNode::Abs(Box::new((**a).clone())),
            FieldNode::Square(a) => FieldNode::Square(Box::new((**a).clone())),
            FieldNode::Min(a, b) => FieldNode::Min(
                Box::new((**a).clone()),
                Box::new((**b).clone()),
            ),
            FieldNode::Max(a, b) => FieldNode::Max(
                Box::new((**a).clone()),
                Box::new((**b).clone()),
            ),
            FieldNode::Remap(f, ex, ey, ez) => FieldNode::Remap(
                Box::new((**f).clone()),
                Box::new((**ex).clone()),
                Box::new((**ey).clone()),
                Box::new((**ez).clone()),
            ),
        }
    }
}

} // verus!
