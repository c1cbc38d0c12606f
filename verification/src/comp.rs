//! Compositions: ordered collections of placed shapes.
//!
//! A [`Composition`] compiles each of its shapes independently, translates
//! each compiled field to the shape's position, and folds the resulting list
//! into a single field with a balanced pairwise reduction tree, keeping the
//! expression depth logarithmic in the number of shapes.  The solid fields
//! fold under the pointwise minimum, the colour fields under the pointwise
//! maximum; [`lemma_fold_pairs_eval`] shows the balanced tree computes
//! exactly the straightforward left-to-right combination.
//!
//! An empty composition compiles to the neutral constant "outside" field.

use vstd::prelude::*;
use crate::scalar::{Fx, SCALE, fx_wf};
use crate::field::{FieldNode, Point, point_wf, eval, lemma_eval_wf};
use crate::rat::{Rat, rat_wf, rat_eq, rat_of_fx, rat_min, rat_max, lemma_rat_ops_wf,
    lemma_rat_min_congr, lemma_rat_min_assoc, lemma_rat_eq_trans};
use crate::shape::{Shape, CompileError, shape_wf, shape_has_matrix, solid_field, color_field};
use crate::nso::{translate_field, nso_translate};

verus! {

/// A world-space offset.
pub type Position = [Fx; 3];

/// Settings that govern compilation: the smallest voxel edge the target
/// resolution can resolve.  Primitives smaller than this compile to the
/// constant "outside" field, and [`crate::shape::UnaryOp::Abbreviate`]
/// compares its threshold against it.
#[derive(Debug, Clone, Copy)]
pub struct CompilationSettings {
    pub min_voxel_size: Fx,
}

pub open spec fn settings_wf(s: CompilationSettings) -> bool {
    fx_wf(s.min_voxel_size)
}

/// How the balanced reduction tree combines two fields.
#[derive(Debug, Clone, Copy, PartialEq, Eq, Structural)]
pub enum BinaryShapeTreeCombinator {
    Min,
    Max,
    Add,
}

/// An ordered collection of shapes with their world positions.
pub struct Composition {
    pub shapes: Vec<(Shape, Position)>,
}

// ----------------------------------------------------------------------------
// The balanced reduction tree, as specification functions.

pub open spec fn combine(
    c: BinaryShapeTreeCombinator,
    a: FieldNode,
    b: FieldNode,
) -> FieldNode {
    match c {
        BinaryShapeTreeCombinator::Min => FieldNode::Min(Box::new(a), Box::new(b)),
        BinaryShapeTreeCombinator::Max => FieldNode::Max(Box::new(a), Box::new(b)),
        BinaryShapeTreeCombinator::Add => FieldNode::Add(Box::new(a), Box::new(b)),
    }
}

/// One pass of the reduction: adjacent elements pairwise combined; an odd
/// final element is combined with itself.
pub open spec fn pair_pass(
    s: Seq<FieldNode>,
    c: BinaryShapeTreeCombinator,
) -> Seq<FieldNode> {
    Seq::new(((s.len() + 1) / 2) as nat, |i: int| if 2 * i + 1 < s.len() {
        combine(c, s[2 * i], s[2 * i + 1])
    } else {
        combine(c, s[2 * i], s[2 * i])
    })
}

/// The balanced reduction tree over a list of fields.  The empty list folds
/// to the constant "outside" field.
pub open spec fn fold_pairs(s: Seq<FieldNode>, c: BinaryShapeTreeCombinator) -> FieldNode
    decreases s.len(),
{
    if s.len() == 0 {
        FieldNode::Const(Fx { bits: SCALE })
    } else if s.len() == 1 {
        s[0]
    } else {
        fold_pairs(pair_pass(s, c), c)
    }
}

/// The value of one combination step.
pub open spec fn combine_val(c: BinaryShapeTreeCombinator, x: Rat, y: Rat) -> Rat {
    match c {
        BinaryShapeTreeCombinator::Max => rat_max(x, y),
        _ => rat_min(x, y),
    }
}

/// The straightforward left-to-right combination of the fields' values:
/// the minimum (or maximum) of the values of all fields in the list.
pub open spec fn comb_eval(c: BinaryShapeTreeCombinator, s: Seq<FieldNode>, p: Point) -> Rat
    decreases s.len(),
{
    if s.len() == 0 {
        rat_of_fx(Fx { bits: SCALE })
    } else if s.len() == 1 {
        eval(s[0], p)
    } else {
        combine_val(c, eval(s[0], p), comb_eval(c, s.drop_first(), p))
    }
}

/// The translated solid fields of a composition's shapes, in order.
pub open spec fn comp_solid_fields(shapes: Seq<(Shape, Position)>, v: Fx) -> Seq<FieldNode> {
    shapes.map(|i: int, sp: (Shape, Position)| translate_field(solid_field(sp.0, v), sp.1))
}

/// The translated colour fields of a composition's shapes, in order.
pub open spec fn comp_color_fields(shapes: Seq<(Shape, Position)>, v: Fx) -> Seq<FieldNode> {
    shapes.map(|i: int, sp: (Shape, Position)| translate_field(color_field(sp.0, v), sp.1))
}

/// The solid field a composition compiles to.
pub open spec fn comp_solid_field(shapes: Seq<(Shape, Position)>, v: Fx) -> FieldNode {
    fold_pairs(comp_solid_fields(shapes, v), BinaryShapeTreeCombinator::Min)
}

/// The colour field a composition compiles to.
pub open spec fn comp_color_field(shapes: Seq<(Shape, Position)>, v: Fx) -> FieldNode {
    fold_pairs(comp_color_fields(shapes, v), BinaryShapeTreeCombinator::Max)
}

pub open spec fn comp_wf(shapes: Seq<(Shape, Position)>) -> bool {
    forall|i: int| 0 <= i < shapes.len() ==> shape_wf(#[trigger] shapes[i].0)
}

pub open spec fn comp_has_matrix(shapes: Seq<(Shape, Position)>) -> bool {
    exists|i: int| 0 <= i < shapes.len() && shape_has_matrix(#[trigger] shapes[i].0)
}

// ----------------------------------------------------------------------------
// Execution.

/// Folds a list of compiled fields with a balanced pairwise reduction.
pub fn binary_shape_tree(
    nodes: Vec<FieldNode>,
    combinator: BinaryShapeTreeCombinator,
) -> (r: FieldNode)
    ensures
        r == fold_pairs(nodes@, combinator),
{
    let mut min_tree = nodes;
    if min_tree.len() == 0 {
        return FieldNode::Const(Fx { bits: SCALE });
    }
    while min_tree.len() > 1
        invariant
            min_tree.len() >= 1,
            fold_pairs(min_tree@, combinator) == fold_pairs(nodes@, combinator),
        decreases min_tree.len(),
    {
        let ghost prev = min_tree@;
        let mut new_tree: Vec<FieldNode> = Vec::new();
        let mut i: usize = 0;
        while i + 1 < min_tree.len()
            invariant
                min_tree@ == prev,
                min_tree.len() >= 2,
                i == 2 * new_tree.len(),
                i <= min_tree.len(),
                new_tree@ == pair_pass(prev, combinator).take(new_tree.len() as int),
            decreases min_tree.len() - i,
        {
            let a = min_tree[i].clone();
            let b = min_tree[i + 1].clone();
            let node = match combinator {
                BinaryShapeTreeCombinator::Min => FieldNode::Min(Box::new(a), Box::new(b)),
                BinaryShapeTreeCombinator::Max => FieldNode::Max(Box::new(a), Box::new(b)),
                BinaryShapeTreeCombinator::Add => FieldNode::Add(Box::new(a), Box::new(b)),
            };
            new_tree.push(node);
            proof {
                assert(new_tree@ =~= pair_pass(prev, combinator).take(new_tree.len() as int));
            }
            i = i + 2;
        }
        if i < min_tree.len() {
            // An odd final element is combined with itself.
            let a = min_tree[i].clone();
            let b = min_tree[i].clone();
            let node = match combinator {
                BinaryShapeTreeCombinator::Min => FieldNode::Min(Box::new(a), Box::new(b)),
                BinaryShapeTreeCombinator::Max => FieldNode::Max(Box::new(a), Box::new(b)),
                BinaryShapeTreeCombinator::Add => FieldNode::Add(Box::new(a), Box::new(b)),
            };
            new_tree.push(node);
            proof {
                assert(new_tree@ =~= pair_pass(prev, combinator).take(new_tree.len() as int));
            }
        }
        proof {
            assert(new_tree@ =~= pair_pass(prev, combinator));
        }
        min_tree = new_tree;
    }
    let r = match min_tree.pop() {
        Some(f) => f,
        None => FieldNode::Const(Fx { bits: SCALE }),
    };
    r
}

impl Composition {
    /// An empty composition.
    pub fn new() -> (r: Self)
        ensures
            r.shapes@ == Seq::<(Shape, Position)>::empty(),
    {
        Composition { shapes: Vec::new() }
    }

    /// Appends a shape at a world position.
    pub fn add_shape(&mut self, shape: Shape, translation: Position)
        ensures
            final(self).shapes@ == old(self).shapes@.push((shape, translation)),
    {
        self.shapes.push((shape, translation));
    }

    /// Removes the shape at `index`, keeping the order of the rest.
    pub fn remove(&mut self, index: usize)
        requires
            index < old(self).shapes@.len(),
        ensures
            final(self).shapes@ == old(self).shapes@.remove(index as int),
    {
        self.shapes.remove(index);
    }

    /// Compiles the composition's solid field: each shape's solid field,
    /// translated to its position, folded under the pointwise minimum.
    /// Fails exactly when some shape holds a `MatrixTransform` operator.
    pub fn compile_solid(&self, settings: &CompilationSettings) -> (r: Result<
        FieldNode,
        CompileError,
    >)
        requires
            comp_wf(self.shapes@),
            settings_wf(*settings),
        ensures
            !comp_has_matrix(self.shapes@) ==> r == Ok::<FieldNode, CompileError>(
                comp_solid_field(self.shapes@, settings.min_voxel_size),
            ),
            comp_has_matrix(self.shapes@) ==> r == Err::<FieldNode, CompileError>(
                CompileError::UnsupportedMatrixTransform,
            ),
    {
        let ghost v = settings.min_voxel_size;
        let mut fields: Vec<FieldNode> = Vec::new();
        let mut i: usize = 0;
        while i < self.shapes.len()
            invariant
                i <= self.shapes.len(),
                comp_wf(self.shapes@),
                settings_wf(*settings),
                v == settings.min_voxel_size,
                fields@ == comp_solid_fields(self.shapes@.take(i as int), v),
                forall|j: int| 0 <= j < i ==> !shape_has_matrix(#[trigger] self.shapes@[j].0),
            decreases self.shapes.len() - i,
        {
            let pair = &self.shapes[i];
            let f = match pair.0.compile_solid(settings) {
                Ok(f) => f,
                Err(e) => {
                    return Err(e);
                },
            };
            let translated = nso_translate(f, pair.1);
            fields.push(translated);
            proof {
                assert(fields@ =~= comp_solid_fields(self.shapes@.take(i as int + 1), v));
            }
            i = i + 1;
        }
        proof {
            assert(self.shapes@.take(i as int) =~= self.shapes@);
        }
        Ok(binary_shape_tree(fields, BinaryShapeTreeCombinator::Min))
    }

    /// Compiles the composition's colour field: each shape's colour field,
    /// translated to its position, folded under the pointwise maximum.
    /// Fails exactly when some shape holds a `MatrixTransform` operator.
    pub fn compile_color(&self, settings: &CompilationSettings) -> (r: Result<
        FieldNode,
        CompileError,
    >)
        requires
            comp_wf(self.shapes@),
            settings_wf(*settings),
        ensures
            !comp_has_matrix(self.shapes@) ==> r == Ok::<FieldNode, CompileError>(
                comp_color_field(self.shapes@, settings.min_voxel_size),
            ),
            comp_has_matrix(self.shapes@) ==> r == Err::<FieldNode, CompileError>(
                CompileError::UnsupportedMatrixTransform,
            ),
    {
        let ghost v = settings.min_voxel_size;
        let mut fields: Vec<FieldNode> = Vec::new();
        let mut i: usize = 0;
        while i < self.shapes.len()
            invariant
                i <= self.shapes.len(),
                comp_wf(self.shapes@),
                settings_wf(*settings),
                v == settings.min_voxel_size,
                fields@ == comp_color_fields(self.shapes@.take(i as int), v),
                forall|j: int| 0 <= j < i ==> !shape_has_matrix(#[trigger] self.shapes@[j].0),
            decreases self.shapes.len() - i,
        {
            let pair = &self.shapes[i];
            let f = match pair.0.compile_color(settings) {
                Ok(f) => f,
                Err(e) => {
                    return Err(e);
                },
            };
            let translated = nso_translate(f, pair.1);
            fields.push(translated);
            proof {
                assert(fields@ =~= comp_color_fields(self.shapes@.take(i as int + 1), v));
            }
            i = i + 1;
        }
        proof {
            assert(self.shapes@.take(i as int) =~= self.shapes@);
        }
        Ok(binary_shape_tree(fields, BinaryShapeTreeCombinator::Max))
    }
}

impl Clone for Composition {
    /// An exact copy of the placed shapes, in order.
    fn clone(&self) -> (r: Self)
        ensures
            r.shapes@ == self.shapes@,
    {
        let mut shapes: Vec<(Shape, Position)> = Vec::new();
        let mut i: usize = 0;
        while i < self.shapes.len()
            invariant
                i <= self.shapes@.len(),
                shapes@ == self.shapes@.take(i as int),
            decreases self.shapes@.len() - i,
        {
            let pair = &self.shapes[i];
            shapes.push((pair.0.clone(), pair.1));
            proof {
                assert(shapes@ =~= self.shapes@.take(i as int + 1));
            }
            i = i + 1;
        }
        proof {
            assert(self.shapes@.take(i as int) =~= self.shapes@);
        }
        Composition { shapes }
    }
}

impl Default for Composition {
    /// An empty composition.
    fn default() -> (r: Self)
        ensures
            r.shapes@ == Seq::<(Shape, Position)>::empty(),
    {
        Composition::new()
    }
}

impl From<Vec<(Shape, Position)>> for Composition {
    /// A composition of exactly the given placed shapes.
    fn from(shapes: Vec<(Shape, Position)>) -> (r: Self) {
        Composition { shapes }
    }
}

impl vstd::std_specs::convert::FromSpecImpl<Vec<(Shape, Position)>> for Composition {
    open spec fn obeys_from_spec() -> bool {
        true
    }

    open spec fn from_spec(shapes: Vec<(Shape, Position)>) -> Composition {
        Composition { shapes }
    }
}

// ----------------------------------------------------------------------------
// Laws.

proof fn lemma_comb_eval_wf(c: BinaryShapeTreeCombinator, s: Seq<FieldNode>, p: Point)
    requires
        point_wf(p),
    ensures
        rat_wf(comb_eval(c, s, p)),
    decreases s.len(),
{
    if s.len() == 0 {
    } else if s.len() == 1 {
        lemma_eval_wf(s[0], p);
    } else {
        lemma_eval_wf(s[0], p);
        lemma_comb_eval_wf(c, s.drop_first(), p);
        lemma_rat_ops_wf(eval(s[0], p), comb_eval(c, s.drop_first(), p));
    }
}

/// One reduction pass leaves the combined value of the list unchanged.
proof fn lemma_pair_pass_eval(s: Seq<FieldNode>, c: BinaryShapeTreeCombinator, p: Point)
    requires
        point_wf(p),
        !(c matches BinaryShapeTreeCombinator::Add),
        s.len() >= 1,
    ensures
        rat_eq(comb_eval(c, pair_pass(s, c), p), comb_eval(c, s, p)),
    decreases s.len(),
{
    let pp = pair_pass(s, c);
    if s.len() == 1 {
        assert(pp.len() == 1);
        assert(pp[0] == combine(c, s[0], s[0]));
        lemma_eval_wf(s[0], p);
        assert(comb_eval(c, pp, p) == eval(pp[0], p));
        assert(eval(pp[0], p) == combine_val(c, eval(s[0], p), eval(s[0], p)));
        assert(rat_eq(comb_eval(c, pp, p), comb_eval(c, s, p)));
    } else if s.len() == 2 {
        assert(pp.len() == 1);
        assert(pp[0] == combine(c, s[0], s[1]));
        assert(s.drop_first().len() == 1);
        assert(s.drop_first()[0] == s[1]);
        lemma_eval_wf(combine(c, s[0], s[1]), p);
        assert(comb_eval(c, pp, p) == eval(pp[0], p));
        assert(eval(pp[0], p) == combine_val(c, eval(s[0], p), eval(s[1], p)));
        assert(comb_eval(c, s, p) == combine_val(c, eval(s[0], p), eval(s[1], p))) by {
            reveal_with_fuel(comb_eval, 3);
        }
        assert(rat_eq(comb_eval(c, pp, p), comb_eval(c, s, p)));
    } else {
        let e0 = eval(s[0], p);
        let e1 = eval(s[1], p);
        let rest = s.skip(2);
        let drop1 = s.drop_first();
        lemma_eval_wf(s[0], p);
        lemma_eval_wf(s[1], p);
        lemma_comb_eval_wf(c, rest, p);
        lemma_pair_pass_eval(rest, c, p);
        lemma_comb_eval_wf(c, pair_pass(rest, c), p);
        let m = comb_eval(c, rest, p);
        let mpp = comb_eval(c, pair_pass(rest, c), p);
        assert(pp.len() >= 2);
        assert(pp[0] == combine(c, s[0], s[1]));
        assert(pp.drop_first() =~= pair_pass(rest, c));
        assert(drop1.drop_first() =~= rest);
        assert(drop1[0] == s[1]);
        assert(drop1.len() >= 2);
        // The head of the pass combines the first two elements; the tail is
        // a pass over the rest.
        assert(eval(pp[0], p) == combine_val(c, e0, e1));
        assert(comb_eval(c, pp, p) == combine_val(c, combine_val(c, e0, e1), mpp));
        assert(comb_eval(c, drop1, p) == combine_val(c, e1, m)) by {
            reveal_with_fuel(comb_eval, 3);
        }
        assert(comb_eval(c, s, p) == combine_val(c, e0, combine_val(c, e1, m))) by {
            reveal_with_fuel(comb_eval, 3);
        }
        // Replace the pass over the rest by the rest itself, then reassociate.
        lemma_combine_val_wf(c, e0, e1);
        lemma_combine_val_wf(c, e1, m);
        lemma_combine_val_wf2(c, combine_val(c, e0, e1), mpp, m);
        lemma_combine_val_wf2(c, e0, combine_val(c, e1, m), m);
        lemma_combine_val_congr(c, combine_val(c, e0, e1), mpp, combine_val(c, e0, e1), m);
        lemma_combine_val_assoc(c, e0, e1, m);
        lemma_rat_eq_trans(
            combine_val(c, combine_val(c, e0, e1), mpp),
            combine_val(c, combine_val(c, e0, e1), m),
            combine_val(c, e0, combine_val(c, e1, m)),
        );
        assert(rat_eq(comb_eval(c, pp, p), comb_eval(c, s, p)));
    }
}


proof fn lemma_combine_val_wf(c: BinaryShapeTreeCombinator, x: Rat, y: Rat)
    requires
        rat_wf(x),
        rat_wf(y),
    ensures
        rat_wf(combine_val(c, x, y)),
{
    lemma_rat_ops_wf(x, y);
}

proof fn lemma_combine_val_wf2(c: BinaryShapeTreeCombinator, x: Rat, y: Rat, z: Rat)
    requires
        rat_wf(x),
        rat_wf(y),
        rat_wf(z),
    ensures
        rat_wf(combine_val(c, x, y)),
        rat_wf(combine_val(c, x, z)),
        rat_wf(combine_val(c, y, z)),
{
    lemma_rat_ops_wf(x, y);
    lemma_rat_ops_wf(x, z);
    lemma_rat_ops_wf(y, z);
}

proof fn lemma_combine_val_congr(
    c: BinaryShapeTreeCombinator,
    x: Rat,
    y: Rat,
    x2: Rat,
    y2: Rat,
)
    requires
        rat_wf(x),
        rat_wf(y),
        rat_wf(x2),
        rat_wf(y2),
        rat_eq(x, x2),
        rat_eq(y, y2),
    ensures
        rat_eq(combine_val(c, x, y), combine_val(c, x2, y2)),
{
    lemma_rat_min_congr(x, y, x2, y2);
}

proof fn lemma_combine_val_assoc(c: BinaryShapeTreeCombinator, x: Rat, y: Rat, z: Rat)
    requires
        rat_wf(x),
        rat_wf(y),
        rat_wf(z),
    ensures
        rat_eq(combine_val(c, combine_val(c, x, y), z), combine_val(c, x, combine_val(c, y, z))),
{
    lemma_rat_min_assoc(x, y, z);
}

/// The balanced reduction tree evaluates to the same value as the
/// straightforward left-to-right combination: for the solid fold, the
/// minimum of all the fields' values; for the colour fold, the maximum.
pub proof fn lemma_fold_pairs_eval(s: Seq<FieldNode>, c: BinaryShapeTreeCombinator, p: Point)
    requires
        point_wf(p),
        !(c matches BinaryShapeTreeCombinator::Add),
    ensures
        rat_eq(eval(fold_pairs(s, c), p), comb_eval(c, s, p)),
    decreases s.len(),
{
    if s.len() == 0 {
    } else if s.len() == 1 {
        lemma_eval_wf(s[0], p);
    } else {
        let pp = pair_pass(s, c);
        assert(pp.len() < s.len());
        lemma_fold_pairs_eval(pp, c, p);
        lemma_pair_pass_eval(s, c, p);
        lemma_eval_wf(fold_pairs(s, c), p);
        lemma_comb_eval_wf(c, pp, p);
        lemma_comb_eval_wf(c, s, p);
        lemma_rat_eq_trans(eval(fold_pairs(s, c), p), comb_eval(c, pp, p), comb_eval(c, s, p));
    }
}

/// The compiled solid field of a composition evaluates, at every point, to
/// the minimum over its shapes of the translated solid fields' values.
pub proof fn lemma_composition_solid_min(shapes: Seq<(Shape, Position)>, v: Fx, p: Point)
    requires
        point_wf(p),
    ensures
        rat_eq(
            eval(comp_solid_field(shapes, v), p),
            comb_eval(BinaryShapeTreeCombinator::Min, comp_solid_fields(shapes, v), p),
        ),
{
    lemma_fold_pairs_eval(comp_solid_fields(shapes, v), BinaryShapeTreeCombinator::Min, p);
}

/// The compiled colour field of a composition evaluates, at every point, to
/// the maximum over its shapes of the translated colour fields' values.
pub proof fn lemma_composition_color_max(shapes: Seq<(Shape, Position)>, v: Fx, p: Point)
    requires
        point_wf(p),
    ensures
        rat_eq(
            eval(comp_color_field(shapes, v), p),
            comb_eval(BinaryShapeTreeCombinator::Max, comp_color_fields(shapes, v), p),
        ),
{
    lemma_fold_pairs_eval(comp_color_fields(shapes, v), BinaryShapeTreeCombinator::Max, p);
}

} // verus!
