//! Level-of-detail chunk scheduling.
//!
//! Given a set of target addresses and a neighbour-halo width, the outside
//! octree index materializes the minimal subdivision that places leaf chunks
//! at each target's detail, with `detail` rings of same-depth neighbours
//! around every target.  The index itself is an outside collection, held
//! behind trusted wrappers; [`chunk_in_lod_tree`] states exactly which
//! addresses its update produces, and the laws below follow from that
//! statement alone.

use vstd::prelude::*;
use vstd::arithmetic::power2::pow2;
use crate::coords::{LodCoords, lod_coords_wf};

verus! {

/// An address at most eight levels deep, as the outside index stores: its
/// cell coordinates fit in a byte.
pub open spec fn lod_coords_wf8(c: LodCoords) -> bool {
    lod_coords_wf(c) && c.lod <= 8
}

/// Mirror of the outside index's subdivision test: whether a target asks
/// for the given node to be subdivided, with a halo of `detail` same-depth
/// chunks around the target.
pub open spec fn oct_can_subdivide(target: LodCoords, node: LodCoords, detail: u32) -> bool {
    &&& node.lod < target.lod
    &&& {
        let ld = (target.lod - node.lod) as nat;
        let bb = (detail as int + 1) * pow2(ld);
        let off = pow2(ld) as int;
        &&& subdivide_axis(target.pos[0] as int, node.pos[0] as int, ld, bb, off)
        &&& subdivide_axis(target.pos[1] as int, node.pos[1] as int, ld, bb, off)
        &&& subdivide_axis(target.pos[2] as int, node.pos[2] as int, ld, bb, off)
    }
}

/// One axis of the subdivision test: the doubled target cell lies within
/// the node's bounding box, widened by the halo.
pub open spec fn subdivide_axis(target_pos: int, node_pos: int, ld: nat, bb: int, off: int) -> bool {
    let base = node_pos * pow2((ld + 1) as nat);
    let lower = if base - (bb - off) >= 0 {
        base - (bb - off)
    } else {
        0
    };
    let local = 2 * target_pos;
    lower <= local < base + bb + off
}

/// Whether any of the targets asks for the node to be subdivided.
pub open spec fn any_subdivide(targets: Seq<LodCoords>, node: LodCoords, detail: u32) -> bool {
    exists|i: int|
        0 <= i < targets.len() && oct_can_subdivide(#[trigger] targets[i], node, detail)
}

/// The ancestor of `c` at depth `d`: its cell coordinates with the lower
/// levels stripped.
pub open spec fn ancestor_at(c: LodCoords, d: u8) -> LodCoords {
    LodCoords {
        pos: [
            ((c.pos[0] as int) / pow2((c.lod - d) as nat) as int) as u32,
            ((c.pos[1] as int) / pow2((c.lod - d) as nat) as int) as u32,
            ((c.pos[2] as int) / pow2((c.lod - d) as nat) as int) as u32,
        ],
        lod: d,
    }
}

/// The addresses the index's update materializes: an address holds a chunk
/// exactly when it is below the root, every strictly shallower ancestor
/// (other than the root) is subdivided by some target, and the address
/// itself is not.
pub open spec fn chunk_in_lod_tree(targets: Seq<LodCoords>, detail: u32, c: LodCoords) -> bool {
    &&& c.lod >= 1
    &&& !any_subdivide(targets, c, detail)
    &&& forall|d: u8| 1 <= d < c.lod ==> any_subdivide(targets, ancestor_at(c, d), detail)
}

/// The outside octree index, held opaquely.
#[verifier::external_body]
pub struct LodTree {
    inner: spatialtree::OctTree<spatialtree::OctVec, spatialtree::OctVec>,
}

/// The chunk addresses the tree currently stores, as plain tuples of cell
/// coordinates and depth.
pub uninterp spec fn tree_chunks(t: LodTree) -> Set<(u8, u8, u8, u8)>;

pub open spec fn coords_tuple(c: LodCoords) -> (u8, u8, u8, u8) {
    (c.pos[0] as u8, c.pos[1] as u8, c.pos[2] as u8, c.lod)
}

/// Relies on spatialtree's `OctTree::with_capacity`: a fresh tree holds a
/// lone root node and no chunks.
#[verifier::external_body]
fn lod_tree_with_capacity(nodes_capacity: usize, chunks_capacity: usize) -> (t: LodTree)
    requires
        nodes_capacity >= 1,
        chunks_capacity >= 1,
    ensures
        tree_chunks(t) == Set::<(u8, u8, u8, u8)>::empty(),
{
    LodTree { inner: spatialtree::OctTree::with_capacity(nodes_capacity, chunks_capacity) }
}

/// Relies on spatialtree's `Tree::lod_update`: walking from the root, it
/// subdivides exactly the child positions some target's `can_subdivide`
/// accepts, stores a chunk at every non-subdivided child of a subdivided
/// node, and erases all other chunks.  The chunk set afterwards is therefore
/// [`chunk_in_lod_tree`] of the targets, whatever the tree held before.
#[verifier::external_body]
fn lod_tree_update(t: &mut LodTree, targets: &Vec<LodCoords>, detail: u32)
    requires
        forall|i: int| 0 <= i < targets@.len() ==> lod_coords_wf8(#[trigger] targets@[i]),
        detail <= 255,
    ensures
        forall|c: LodCoords|
            lod_coords_wf8(c) ==> (tree_chunks(*final(t)).contains(#[trigger] coords_tuple(c))
                <==> chunk_in_lod_tree(targets@, detail, c)),
        forall|q: (u8, u8, u8, u8)|
            tree_chunks(*final(t)).contains(q) ==> lod_coords_wf8(
                LodCoords { pos: [q.0 as u32, q.1 as u32, q.2 as u32], lod: q.3 },
            ),
{
    let tgts: Vec<spatialtree::OctVec> = targets.iter().map(
        |c: &LodCoords| spatialtree::OctVec::new(
            [c.pos[0] as u8, c.pos[1] as u8, c.pos[2] as u8],
            c.lod,
        ),
    ).collect();
    t.inner.lod_update(&tgts, detail, |v| v, |_, _| {});
}

/// Relies on spatialtree's `Tree::iter_chunks`: it yields every stored
/// chunk exactly once, with the payload its creator was given (here the
/// chunk's own address), and leaves the tree unchanged.  Distinct chunks
/// sit at distinct addresses, so the returned list has no duplicates.
#[verifier::external_body]
fn lod_tree_chunks(t: &mut LodTree) -> (r: Vec<LodCoords>)
    ensures
        tree_chunks(*final(t)) == tree_chunks(*old(t)),
        r@.no_duplicates(),
        forall|j: int|
            0 <= j < r@.len() ==> tree_chunks(*old(t)).contains(coords_tuple(#[trigger] r@[j])),
        forall|q: (u8, u8, u8, u8)|
            tree_chunks(*old(t)).contains(q) ==> exists|j: int|
                0 <= j < r@.len() && coords_tuple(#[trigger] r@[j]) == q,
        forall|j: int|
            0 <= j < r@.len() ==> (#[trigger] r@[j].pos)[0] < 256 && r@[j].pos[1] < 256
                && r@[j].pos[2] < 256,
{
    t.inner.iter_chunks().map(
        |pair: (usize, &spatialtree::ChunkContainer<3, spatialtree::OctVec, spatialtree::OctVec>)|
            LodCoords {
                pos: [
                    pair.1.chunk.pos[0] as u32,
                    pair.1.chunk.pos[1] as u32,
                    pair.1.chunk.pos[2] as u32,
                ],
                lod: pair.1.chunk.depth,
            },
    ).collect()
}

/// Materializes the octree subdivision covering `targets` with a halo of
/// `neighbor_count` same-depth neighbours, and returns the addresses of the
/// resulting leaf chunks.
pub fn build_tree_coords(targets: &Vec<LodCoords>, neighbor_count: u8) -> (r: Vec<LodCoords>)
    requires
        forall|i: int| 0 <= i < targets@.len() ==> lod_coords_wf8(#[trigger] targets@[i]),
    ensures
        r@.no_duplicates(),
        forall|j: int|
            0 <= j < r@.len() ==> lod_coords_wf8(#[trigger] r@[j]) && chunk_in_lod_tree(
                targets@,
                neighbor_count as u32,
                r@[j],
            ),
        forall|c: LodCoords|
            lod_coords_wf8(c) && chunk_in_lod_tree(targets@, neighbor_count as u32, c)
                ==> exists|j: int| 0 <= j < r@.len() && #[trigger] r@[j] == c,
{
    let mut tree = lod_tree_with_capacity(32, 64);
    lod_tree_update(&mut tree, targets, neighbor_count as u32);
    let chunks = lod_tree_chunks(&mut tree);
    proof {
        broadcast use vstd::array::group_array_axioms;

        assert forall|j: int| 0 <= j < chunks@.len() implies lod_coords_wf8(#[trigger] chunks@[j])
            && chunk_in_lod_tree(targets@, neighbor_count as u32, chunks@[j]) by {
            let q = coords_tuple(chunks@[j]);
            let c2 = LodCoords { pos: [q.0 as u32, q.1 as u32, q.2 as u32], lod: q.3 };
            assert(tree_chunks(tree).contains(q));
            assert(lod_coords_wf8(c2));
            assert(c2.pos =~= chunks@[j].pos);
            assert(c2 == chunks@[j]);
        }
        assert forall|c: LodCoords|
            lod_coords_wf8(c) && chunk_in_lod_tree(targets@, neighbor_count as u32, c) implies
            exists|j: int| 0 <= j < chunks@.len() && #[trigger] chunks@[j] == c by {
            assert(tree_chunks(tree).contains(coords_tuple(c)));
            let j = choose|j: int|
                0 <= j < chunks@.len() && coords_tuple(#[trigger] chunks@[j]) == coords_tuple(c);
            assert(lod_coords_wf8(chunks@[j]));
            assert(chunks@[j] == c) by {
                let a = chunks@[j];
                lemma_wf8_pos_small(c);
                assert(coords_tuple(a) == coords_tuple(c));
                assert(a.pos =~= c.pos);
            }
        }
    }
    chunks
}

/// The coordinates of an address at most eight levels deep fit in a byte.
proof fn lemma_wf8_pos_small(c: LodCoords)
    requires
        lod_coords_wf8(c),
    ensures
        c.pos[0] < 256,
        c.pos[1] < 256,
        c.pos[2] < 256,
{
    let p0 = c.pos[0] as u64;
    let p1 = c.pos[1] as u64;
    let p2 = c.pos[2] as u64;
    let l = c.lod as u64;
    assert(p0 < (1u64 << l) && l <= 8 ==> p0 < 256) by (bit_vector);
    assert(p1 < (1u64 << l) && l <= 8 ==> p1 < 256) by (bit_vector);
    assert(p2 < (1u64 << l) && l <= 8 ==> p2 < 256) by (bit_vector);
}

// ----------------------------------------------------------------------------
// Laws.

/// One axis of the neighbourhood argument: the doubled target cell lies
/// within the widened bounding box of the neighbour's ancestor cell.
proof fn lemma_neighbor_axis(p: int, q: int, ld: nat, detail: int)
    requires
        0 <= p,
        0 <= q,
        -1 <= q - p <= 1,
        ld >= 1,
        1 <= detail,
    ensures
        subdivide_axis(p, q / pow2(ld) as int, ld, (detail + 1) * pow2(ld), pow2(ld) as int),
{
    let d = pow2(ld) as int;
    let d2 = pow2((ld + 1) as nat) as int;
    vstd::arithmetic::power2::lemma_pow2_pos(ld);
    vstd::arithmetic::power2::lemma_pow2_strictly_increases(0, ld);
    vstd::arithmetic::power2::lemma_pow2_adds(ld, 1);
    vstd::arithmetic::power2::lemma2_to64();
    assert(d >= 2);
    assert(d2 == 2 * d) by (nonlinear_arith)
        requires
            d2 == d * pow2(1),
            pow2(1) == 2,
    ;
    let a = q / d;
    vstd::arithmetic::div_mod::lemma_fundamental_div_mod(q, d);
    vstd::arithmetic::div_mod::lemma_mod_bound(q, d);
    vstd::arithmetic::div_mod::lemma_div_is_ordered(0, q, d);
    let r = q % d;
    let base = a * d2;
    assert(base == 2 * (d * a)) by (nonlinear_arith)
        requires
            d2 == 2 * d,
            base == a * d2,
    ;
    assert(base == 2 * q - 2 * r);
    assert((detail + 1) * d - d == detail * d && detail * d >= d && (detail + 1) * d + d == (detail
        + 2) * d && (detail + 2) * d >= 3 * d) by (nonlinear_arith)
        requires
            1 <= detail,
            2 <= d,
    ;
    // Above: the target sits at most one cell past the neighbour, and the
    // halo extends at least three half-cells beyond the ancestor's base.
    assert(2 * p < base + ((detail + 1) * d + d));
    // Below: the halo's lower clamp reaches at least one cell under the
    // ancestor's base.
    if base - ((detail + 1) * d - d) >= 0 {
        assert(base - ((detail + 1) * d - d) <= 2 * p);
    }
}

/// With a single target and a halo of at least one ring, the target's own
/// address, and every same-depth address within one cell of it on each
/// axis, is materialized as a chunk.  Through the contract of
/// [`build_tree_coords`], all these addresses are in the returned set.
pub proof fn lemma_single_target_neighborhood(t: LodCoords, q: LodCoords, detail: u32)
    requires
        lod_coords_wf8(t),
        lod_coords_wf8(q),
        t.lod >= 1,
        q.lod == t.lod,
        1 <= detail,
        -1 <= q.pos[0] as int - t.pos[0] as int <= 1,
        -1 <= q.pos[1] as int - t.pos[1] as int <= 1,
        -1 <= q.pos[2] as int - t.pos[2] as int <= 1,
    ensures
        chunk_in_lod_tree(seq![t], detail, q),
{
    let targets = seq![t];
    // An address at the target's own depth is never subdivided by it.
    assert(!any_subdivide(targets, q, detail)) by {
        assert forall|i: int| 0 <= i < targets.len() implies !oct_can_subdivide(
            #[trigger] targets[i],
            q,
            detail,
        ) by {
            assert(targets[i] == t);
        }
    }
    // Every proper ancestor of the neighbour is subdivided by the target.
    assert forall|d: u8| 1 <= d < q.lod implies any_subdivide(
        targets,
        ancestor_at(q, d),
        detail,
    ) by {
        let node = ancestor_at(q, d);
        let ld = (q.lod - d) as nat;
        vstd::arithmetic::power2::lemma_pow2_pos(ld);
        let dd = pow2(ld) as int;
        // The ancestor's coordinates are the plain quotients, which fit.
        assert(node.pos[0] as int == (q.pos[0] as int) / dd && node.pos[1] as int == (
        q.pos[1] as int) / dd && node.pos[2] as int == (q.pos[2] as int) / dd) by {
            lemma_quotient_small(q.pos[0] as int, dd);
            lemma_quotient_small(q.pos[1] as int, dd);
            lemma_quotient_small(q.pos[2] as int, dd);
        }
        lemma_neighbor_axis(t.pos[0] as int, q.pos[0] as int, ld, detail as int);
        lemma_neighbor_axis(t.pos[1] as int, q.pos[1] as int, ld, detail as int);
        lemma_neighbor_axis(t.pos[2] as int, q.pos[2] as int, ld, detail as int);
        assert(oct_can_subdivide(t, node, detail));
        assert(0 <= 0 < targets.len() && oct_can_subdivide(targets[0], node, detail));
    }
}

/// A nonnegative quotient is bounded by its dividend.
proof fn lemma_quotient_small(x: int, d: int)
    requires
        0 <= x,
        1 <= d,
    ensures
        0 <= x / d <= x,
{
    vstd::arithmetic::div_mod::lemma_div_is_ordered_by_denominator(x, 1, d);
    vstd::arithmetic::div_mod::lemma_div_basics(x);
    vstd::arithmetic::div_mod::lemma_div_is_ordered(0, x, d);
}

/// No materialized chunk address is a strict octree ancestor of another:
/// together the chunks form a leaf set.
pub proof fn lemma_chunks_ancestor_free(
    targets: Seq<LodCoords>,
    detail: u32,
    a: LodCoords,
    b: LodCoords,
)
    requires
        chunk_in_lod_tree(targets, detail, a),
        chunk_in_lod_tree(targets, detail, b),
        a.lod < b.lod,
    ensures
        ancestor_at(b, a.lod) != a,
{
    if ancestor_at(b, a.lod) == a {
        // b's chain says the ancestor at a's depth is subdivided; a's own
        // membership says a is not.
        assert(1 <= a.lod < b.lod);
        assert(any_subdivide(targets, ancestor_at(b, a.lod), detail));
    }
}

} // verus!
