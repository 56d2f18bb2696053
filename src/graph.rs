//! The fixed dodecahedron graph: its edges, and the pairs of edges that share
//! a vertex.

use crate::symmetry::is_edge_set;
use vstd::prelude::*;

verus! {

/// The number of vertices.
pub const VERTEX_COUNT: u32 = 20;

/// The number of edges.
pub const EDGE_COUNT: usize = 30;

/// The two endpoints of each edge, by edge index.
pub open spec fn edge_points_spec() -> Seq<(u32, u32)> {
    seq![
        (0u32, 1u32),
        (1u32, 2u32),
        (2u32, 3u32),
        (3u32, 4u32),
        (4u32, 0u32),
        (1u32, 5u32),
        (2u32, 6u32),
        (3u32, 7u32),
        (4u32, 8u32),
        (0u32, 9u32),
        (9u32, 10u32),
        (5u32, 11u32),
        (6u32, 12u32),
        (7u32, 13u32),
        (8u32, 14u32),
        (5u32, 10u32),
        (6u32, 11u32),
        (7u32, 12u32),
        (8u32, 13u32),
        (9u32, 14u32),
        (10u32, 15u32),
        (11u32, 16u32),
        (12u32, 17u32),
        (13u32, 18u32),
        (14u32, 19u32),
        (15u32, 16u32),
        (16u32, 17u32),
        (17u32, 18u32),
        (18u32, 19u32),
        (19u32, 15u32)
    ]
}

/// The mask of a single vertex or edge index.
pub open spec fn bit_of(i: u32) -> u32 {
    1u32 << i
}

/// The vertex mask of an edge: its two endpoints.
pub open spec fn vertex_mask(p: (u32, u32)) -> u32 {
    bit_of(p.0) | bit_of(p.1)
}

/// Whether two edges, given by their vertex masks, share a vertex.
pub open spec fn adjacent(a: u32, b: u32) -> bool {
    a & b != 0
}

/// The pair masks of edge `i` with the edges `j` of `i < j < k` that share a
/// vertex with it, in the order of `j`.
pub open spec fn pair_row(masks: Seq<u32>, i: int, k: int) -> Seq<u32>
    decreases k - i,
{
    if k <= i + 1 {
        seq![]
    } else {
        let prev = pair_row(masks, i, k - 1);
        if adjacent(masks[i], masks[k - 1]) {
            prev.push(bit_of(i as u32) | bit_of((k - 1) as u32))
        } else {
            prev
        }
    }
}

/// The pair masks of every adjacent pair `i < j` with `i < n`, ordered by `i`
/// and then by `j`.
pub open spec fn pair_table(masks: Seq<u32>, n: int) -> Seq<u32>
    decreases n,
{
    if n <= 0 {
        seq![]
    } else {
        pair_table(masks, n - 1) + pair_row(masks, n - 1, masks.len() as int)
    }
}

/// The pair masks of all adjacent pairs of edges.
pub open spec fn pair_masks_spec(masks: Seq<u32>) -> Seq<u32> {
    pair_table(masks, masks.len() as int)
}

/// The endpoints of the dodecahedron's edges, by edge index.
pub fn edge_points() -> (r: Vec<(u32, u32)>)
    ensures
        r@ == edge_points_spec(),
{
    let mut r: Vec<(u32, u32)> = Vec::new();
    r.push((0, 1));
    r.push((1, 2));
    r.push((2, 3));
    r.push((3, 4));
    r.push((4, 0));
    r.push((1, 5));
    r.push((2, 6));
    r.push((3, 7));
    r.push((4, 8));
    r.push((0, 9));
    r.push((9, 10));
    r.push((5, 11));
    r.push((6, 12));
    r.push((7, 13));
    r.push((8, 14));
    r.push((5, 10));
    r.push((6, 11));
    r.push((7, 12));
    r.push((8, 13));
    r.push((9, 14));
    r.push((10, 15));
    r.push((11, 16));
    r.push((12, 17));
    r.push((13, 18));
    r.push((14, 19));
    r.push((15, 16));
    r.push((16, 17));
    r.push((17, 18));
    r.push((18, 19));
    r.push((19, 15));
    assert(r@ =~= edge_points_spec());
    r
}

/// The vertex mask of each edge.
pub fn edge_masks(points: &Vec<(u32, u32)>) -> (r: Vec<u32>)
    requires
        forall|i: int| 0 <= i < points@.len() ==> points@[i].0 < 32 && points@[i].1 < 32,
    ensures
        r@.len() == points@.len(),
        forall|i: int| 0 <= i < r@.len() ==> r@[i] == vertex_mask(points@[i]),
{
    let mut r: Vec<u32> = Vec::new();
    let mut i: usize = 0;
    while i < points.len()
        invariant
            i <= points@.len(),
            r@.len() == i,
            forall|k: int| 0 <= k < points@.len() ==> points@[k].0 < 32 && points@[k].1 < 32,
            forall|k: int| 0 <= k < i ==> r@[k] == vertex_mask(points@[k]),
        decreases points@.len() - i,
    {
        let (u, v) = points[i];
        r.push((1u32 << u) | (1u32 << v));
        i = i + 1;
    }
    r
}

/// The pair mask of every pair of edges that share a vertex, each pair once,
/// ordered by the lower edge index and then by the higher.
pub fn pair_masks(masks: &Vec<u32>) -> (r: Vec<u32>)
    requires
        masks@.len() <= 32,
    ensures
        r@ == pair_masks_spec(masks@),
{
    let n = masks.len();
    let mut r: Vec<u32> = Vec::new();
    let mut i: usize = 0;
    while i < n
        invariant
            n == masks@.len() <= 32,
            i <= n,
            r@ == pair_table(masks@, i as int),
        decreases n - i,
    {
        let mut j: usize = i + 1;
        while j < n
            invariant
                n == masks@.len() <= 32,
                i < n,
                i + 1 <= j <= n,
                r@ == pair_table(masks@, i as int) + pair_row(masks@, i as int, j as int),
            decreases n - j,
        {
            if masks[i] & masks[j] != 0 {
                r.push((1u32 << (i as u32)) | (1u32 << (j as u32)));
            }
            j = j + 1;
            assert(r@ =~= pair_table(masks@, i as int) + pair_row(masks@, i as int, j as int));
        }
        i = i + 1;
        assert(r@ =~= pair_table(masks@, i as int));
    }
    r
}

/// Every pair mask of the first `k` entries of row `i` names edge `i` and a
/// later edge that shares a vertex with it.
proof fn lemma_pair_row_member(masks: Seq<u32>, i: int, k: int, m: u32)
    requires
        0 <= i,
        k <= masks.len() <= 32,
        pair_row(masks, i, k).contains(m),
    ensures
        exists|j: int|
            i < j < k && m == bit_of(i as u32) | bit_of(j as u32) && adjacent(masks[i], masks[j]),
    decreases k - i,
{
    if k > i + 1 {
        let prev = pair_row(masks, i, k - 1);
        if prev.contains(m) {
            lemma_pair_row_member(masks, i, k - 1, m);
        } else {
            let j = k - 1;
            assert(m == bit_of(i as u32) | bit_of(j as u32) && adjacent(masks[i], masks[j]));
        }
    }
}

/// Every pair mask names two distinct edges that share a vertex.
pub proof fn lemma_pair_mask_member(masks: Seq<u32>, n: int, m: u32)
    requires
        n <= masks.len() <= 32,
        pair_table(masks, n).contains(m),
    ensures
        exists|i: int, j: int|
            0 <= i < j < masks.len() && m == bit_of(i as u32) | bit_of(j as u32) && adjacent(
                masks[i],
                masks[j],
            ),
    decreases n,
{
    if n > 0 {
        let prev = pair_table(masks, n - 1);
        let row = pair_row(masks, n - 1, masks.len() as int);
        if prev.contains(m) {
            lemma_pair_mask_member(masks, n - 1, m);
        } else {
            let k = choose|k: int| 0 <= k < (prev + row).len() && (prev + row)[k] == m;
            assert(row[k - prev.len()] == m);
            lemma_pair_row_member(masks, n - 1, masks.len() as int, m);
        }
    }
}

/// The edge set of a list of edge indices.
pub open spec fn edge_set_of(es: Seq<int>) -> u32
    decreases es.len(),
{
    if es.len() == 0 {
        0
    } else {
        edge_set_of(es.drop_last()) | bit_of(es.last() as u32)
    }
}

/// Whether `es` lists edges in an order in which each edge after the first
/// shares a vertex with an earlier one.
pub open spec fn growth_order(masks: Seq<u32>, es: Seq<int>) -> bool {
    &&& es.len() > 0
    &&& forall|t: int| 0 <= t < es.len() ==> 0 <= #[trigger] es[t] < masks.len()
    &&& forall|t: int|
        1 <= t < es.len() ==> exists|u: int|
            0 <= u < t && adjacent(masks[es[u]], masks[#[trigger] es[t]])
}

/// Whether the edge set `x` is connected: its edges can be listed so that each
/// after the first shares a vertex with an earlier one.
pub open spec fn connected(masks: Seq<u32>, x: u32) -> bool {
    exists|es: Seq<int>| growth_order(masks, es) && edge_set_of(es) == x
}

/// An edge belongs to the edge set of a list only if the list names it.
proof fn lemma_edge_set_of_member(masks: Seq<u32>, es: Seq<int>, i: int)
    requires
        masks.len() <= 32,
        0 <= i < 32,
        forall|t: int| 0 <= t < es.len() ==> 0 <= #[trigger] es[t] < masks.len(),
        edge_set_of(es) & bit_of(i as u32) != 0,
    ensures
        exists|u: int| 0 <= u < es.len() && es[u] == i,
    decreases es.len(),
{
    if es.len() == 0 {
        assert(0u32 & bit_of(i as u32) == 0) by (bit_vector);
    } else {
        let prev = es.drop_last();
        let r = edge_set_of(prev);
        let e = es.last();
        if e != i {
            let iu = i as u32;
            let eu = e as u32;
            assert((r | (1u32 << eu)) & (1u32 << iu) != 0 ==> r & (1u32 << iu) != 0) by (bit_vector)
                requires
                    iu < 32,
                    eu < 32,
                    iu != eu,
            ;
            assert forall|t: int| 0 <= t < prev.len() implies 0 <= #[trigger] prev[t] < masks.len() by {
                assert(prev[t] == es[t]);
            }
            lemma_edge_set_of_member(masks, prev, i);
            let u = choose|u: int| 0 <= u < prev.len() && prev[u] == i;
            assert(es[u] == i);
        } else {
            assert(es[es.len() - 1] == i);
        }
    }
}

/// Adding to a connected edge set an edge that shares a vertex with one of its
/// edges gives a connected edge set.
pub proof fn lemma_connected_grow(masks: Seq<u32>, x: u32, i: int, j: int)
    requires
        masks.len() <= 32,
        connected(masks, x),
        0 <= i < masks.len(),
        0 <= j < masks.len(),
        x & bit_of(i as u32) != 0,
        adjacent(masks[i], masks[j]),
    ensures
        connected(masks, x | bit_of(j as u32)),
{
    let es = choose|es: Seq<int>| growth_order(masks, es) && edge_set_of(es) == x;
    lemma_edge_set_of_member(masks, es, i);
    let u = choose|u: int| 0 <= u < es.len() && es[u] == i;
    let es2 = es.push(j);
    assert(es2.drop_last() =~= es);
    assert forall|t: int| 0 <= t < es2.len() implies 0 <= #[trigger] es2[t] < masks.len() by {
        if t < es.len() {
            assert(es2[t] == es[t]);
        }
    }
    assert forall|t: int| 1 <= t < es2.len() implies exists|w: int|
        0 <= w < t && adjacent(masks[es2[w]], masks[#[trigger] es2[t]]) by {
        if t < es.len() {
            assert(es2[t] == es[t]);
            let w = choose|w: int| 0 <= w < t && adjacent(masks[es[w]], masks[es[t]]);
            assert(es2[w] == es[w]);
        } else {
            assert(es2[u] == i);
            assert(adjacent(masks[es2[u]], masks[es2[t]]));
        }
    }
    assert(growth_order(masks, es2) && edge_set_of(es2) == x | bit_of(j as u32));
}

/// A single edge is connected.
pub proof fn lemma_connected_single(masks: Seq<u32>, i: int)
    requires
        masks.len() <= 32,
        0 <= i < masks.len(),
    ensures
        connected(masks, bit_of(i as u32)),
{
    let es = seq![i];
    assert(es.drop_last() =~= Seq::<int>::empty());
    assert(edge_set_of(Seq::<int>::empty()) == 0);
    assert(es.last() == i);
    assert(es[0] == i);
    assert(edge_set_of(es) == 0u32 | bit_of(i as u32));
    assert(0u32 | bit_of(i as u32) == bit_of(i as u32)) by {
        let iu = i as u32;
        assert(0u32 | (1u32 << iu) == (1u32 << iu)) by (bit_vector);
    }
    assert(growth_order(masks, es) && edge_set_of(es) == bit_of(i as u32));
}

/// With at most thirty edges, every pair mask is an edge set.
pub proof fn lemma_pair_masks_edge_sets(masks: Seq<u32>)
    requires
        masks.len() <= 30,
    ensures
        forall|k: int|
            0 <= k < pair_masks_spec(masks).len() ==> is_edge_set(#[trigger] pair_masks_spec(masks)[k]),
{
    let pairs = pair_masks_spec(masks);
    assert forall|k: int| 0 <= k < pairs.len() implies is_edge_set(#[trigger] pairs[k]) by {
        let m = pairs[k];
        assert(pairs.contains(m));
        lemma_pair_mask_member(masks, masks.len() as int, m);
        let (i, j) = choose|i: int, j: int|
            0 <= i < j < masks.len() && m == bit_of(i as u32) | bit_of(j as u32) && adjacent(
                masks[i],
                masks[j],
            );
        let iu = i as u32;
        let ju = j as u32;
        assert(((1u32 << iu) | (1u32 << ju)) >> 30u32 == 0) by (bit_vector)
            requires
                iu < 30,
                ju < 30,
        ;
    }
}

} // verus!
