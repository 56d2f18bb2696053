//! Laws of the symmetry group and of the canonical form.

use crate::symmetry::{
    orbit, orbit_no_flip, orbit_no_flip_upto, rot1_orbit_upto,
    coset_start, flip_spec, is_edge_set, min_no_flip_upto, min_repr_spec, min_rot1_spec, min_rot1_upto,
    rot1_pow, rot1_spec, rot2_spec,
};
use vstd::prelude::*;

verus! {

/// Five vertex rotations give back the edge set.
pub proof fn lemma_rot1_order(x: u32)
    requires
        is_edge_set(x),
    ensures
        rot1_spec(rot1_spec(rot1_spec(rot1_spec(rot1_spec(x))))) == x,
{
    assert(rot1_spec(rot1_spec(rot1_spec(rot1_spec(rot1_spec(x))))) == x) by (bit_vector)
        requires
            x >> 30u32 == 0,
    ;
}

/// Five face rotations give back the edge set.
pub proof fn lemma_rot2_order(x: u32)
    requires
        is_edge_set(x),
    ensures
        rot2_spec(rot2_spec(rot2_spec(rot2_spec(rot2_spec(x))))) == x,
{
    let y1 = rot2_spec(x);
    let y2 = rot2_spec(y1);
    let y3 = rot2_spec(y2);
    let y4 = rot2_spec(y3);
    assert(rot2_spec(y4) == x) by (bit_vector)
        requires
            x >> 30u32 == 0,
            y1 == rot2_spec(x),
            y2 == rot2_spec(y1),
            y3 == rot2_spec(y2),
            y4 == rot2_spec(y3),
    ;
}

/// The image of `x` under the word numbered by the mirror count `f`, the coset
/// `c` and the vertex-rotation count `a`: the hundred and twenty symmetries,
/// of which the canonical form takes the least image.
pub open spec fn orbit_value(x: u32, f: int, c: int, a: nat) -> u32 {
    rot1_pow(coset_start(if f == 0 { x } else { flip_spec(x) }, c), a)
}

/// The face rotation yields an edge set.
pub proof fn lemma_rot2_edge_set(x: u32)
    ensures
        is_edge_set(rot2_spec(x)),
{
    assert(rot2_spec(x) >> 30u32 == 0) by (bit_vector);
}

/// The mirror yields an edge set.
pub proof fn lemma_flip_edge_set(x: u32)
    ensures
        is_edge_set(flip_spec(x)),
{
    assert(flip_spec(x) >> 30u32 == 0) by (bit_vector);
}

/// The mirror applied twice gives back the edge set.
pub proof fn lemma_flip_order(x: u32)
    requires
        is_edge_set(x),
    ensures
        flip_spec(flip_spec(x)) == x,
{
    let y = flip_spec(x);
    assert(flip_spec(y) == x) by (bit_vector)
        requires
            x >> 30u32 == 0,
            y == flip_spec(x),
    ;
}

proof fn lemma_min_rot1_upto_le(y: u32, k: nat, a: nat)
    requires
        a <= k,
    ensures
        min_rot1_upto(y, k) <= rot1_pow(y, a),
    decreases k,
{
    if k > 0 && a < k {
        lemma_min_rot1_upto_le(y, (k - 1) as nat, a);
    }
}

proof fn lemma_min_rot1_upto_attained(y: u32, k: nat) -> (a: nat)
    ensures
        a <= k,
        min_rot1_upto(y, k) == rot1_pow(y, a),
    decreases k,
{
    if k == 0 {
        0
    } else {
        let b = lemma_min_rot1_upto_attained(y, (k - 1) as nat);
        if min_rot1_upto(y, (k - 1) as nat) <= rot1_pow(y, k) {
            b
        } else {
            k
        }
    }
}

proof fn lemma_min_no_flip_upto_le(y: u32, k: nat, c: nat, a: nat)
    requires
        c <= k,
        a <= 4,
    ensures
        min_no_flip_upto(y, k) <= rot1_pow(coset_start(y, c as int), a),
    decreases k,
{
    if k > 0 && c < k {
        lemma_min_no_flip_upto_le(y, (k - 1) as nat, c, a);
    } else {
        lemma_min_rot1_upto_le(coset_start(y, c as int), 4, a);
        if k > 0 {
            lemma_min_no_flip_upto_le(y, (k - 1) as nat, 0, 0);
        }
    }
}

proof fn lemma_min_no_flip_upto_attained(y: u32, k: nat) -> (ca: (nat, nat))
    ensures
        ca.0 <= k,
        ca.1 <= 4,
        min_no_flip_upto(y, k) == rot1_pow(coset_start(y, ca.0 as int), ca.1),
    decreases k,
{
    if k == 0 {
        (0, lemma_min_rot1_upto_attained(coset_start(y, 0), 4))
    } else {
        let prev = lemma_min_no_flip_upto_attained(y, (k - 1) as nat);
        if min_no_flip_upto(y, (k - 1) as nat) <= min_rot1_spec(coset_start(y, k as int)) {
            prev
        } else {
            (k, lemma_min_rot1_upto_attained(coset_start(y, k as int), 4))
        }
    }
}

/// The canonical form is at most every image of `y` under the hundred and twenty words.
pub proof fn lemma_min_repr_le(y: u32)
    ensures
        forall|f: int, c: int, a: nat|
            0 <= f < 2 && 0 <= c < 12 && a < 5 ==> #[trigger] orbit_value(y, f, c, a)
                >= min_repr_spec(y),
{
    assert forall|f: int, c: int, a: nat|
        0 <= f < 2 && 0 <= c < 12 && a < 5 implies #[trigger] orbit_value(y, f, c, a)
        >= min_repr_spec(y) by {
        if f == 0 {
            lemma_min_no_flip_upto_le(y, 11, c as nat, a);
        } else {
            lemma_min_no_flip_upto_le(flip_spec(y), 11, c as nat, a);
        }
    }
}

/// The canonical form of `y` is one of its images under the hundred and twenty words.
pub proof fn lemma_min_repr_attained(y: u32) -> (fca: (int, int, nat))
    ensures
        0 <= fca.0 < 2,
        0 <= fca.1 < 12,
        fca.2 < 5,
        min_repr_spec(y) == orbit_value(y, fca.0, fca.1, fca.2),
{
    let (c0, a0) = lemma_min_no_flip_upto_attained(y, 11);
    let (c1, a1) = lemma_min_no_flip_upto_attained(flip_spec(y), 11);
    if min_repr_spec(y) == min_no_flip_upto(y, 11) {
        (0, c0 as int, a0)
    } else {
        (1, c1 as int, a1)
    }
}

/// The images of `rot1_spec(y)` under the hundred and twenty words, matched one
/// by one with images of `y`, computed bit by bit.
proof fn lemma_words_rot1_bits(
    y: u32,
    x_f: u32,
    x_v0: u32,
    x_v1: u32,
    x_v2: u32,
    x_v3: u32,
    x_v4: u32,
    x_v5: u32,
    x_v6: u32,
    x_v7: u32,
    x_v8: u32,
    x_v9: u32,
    x_v10: u32,
    x_v11: u32,
    x_f_v0: u32,
    x_f_v1: u32,
    x_f_v2: u32,
    x_f_v3: u32,
    x_f_v4: u32,
    x_f_v5: u32,
    x_f_v6: u32,
    x_f_v7: u32,
    x_f_v8: u32,
    x_f_v9: u32,
    x_f_v10: u32,
    x_f_v11: u32,
    g_f: u32,
    g_v0: u32,
    g_v1: u32,
    g_v2: u32,
    g_v3: u32,
    g_v4: u32,
    g_v5: u32,
    g_v6: u32,
    g_v7: u32,
    g_v8: u32,
    g_v9: u32,
    g_v10: u32,
    g_v11: u32,
    g_f_v0: u32,
    g_f_v1: u32,
    g_f_v2: u32,
    g_f_v3: u32,
    g_f_v4: u32,
    g_f_v5: u32,
    g_f_v6: u32,
    g_f_v7: u32,
    g_f_v8: u32,
    g_f_v9: u32,
    g_f_v10: u32,
    g_f_v11: u32,
)
    by (bit_vector)
    requires
        y >> 30u32 == 0,
        x_f == flip_spec(y),
        x_v0 == rot2_spec(y),
        x_v1 == rot2_spec(x_v0),
        x_v2 == rot2_spec(x_v1),
        x_v3 == rot2_spec(rot1_spec(rot1_spec(rot1_spec(rot1_spec(y))))),
        x_v4 == rot2_spec(x_v3),
        x_v5 == rot2_spec(rot1_spec(rot1_spec(rot1_spec(y)))),
        x_v6 == rot2_spec(x_v5),
        x_v7 == rot2_spec(rot1_spec(y)),
        x_v8 == rot2_spec(rot1_spec(rot1_spec(y))),
        x_v9 == rot2_spec(x_v8),
        x_v10 == rot2_spec(rot1_spec(rot1_spec(rot1_spec(rot1_spec(x_v0))))),
        x_v11 == rot2_spec(x_v10),
        x_f_v0 == rot2_spec(x_f),
        x_f_v1 == rot2_spec(x_f_v0),
        x_f_v2 == rot2_spec(x_f_v1),
        x_f_v3 == rot2_spec(rot1_spec(rot1_spec(rot1_spec(rot1_spec(x_f))))),
        x_f_v4 == rot2_spec(x_f_v3),
        x_f_v5 == rot2_spec(rot1_spec(rot1_spec(rot1_spec(x_f)))),
        x_f_v6 == rot2_spec(x_f_v5),
        x_f_v7 == rot2_spec(rot1_spec(x_f)),
        x_f_v8 == rot2_spec(rot1_spec(rot1_spec(x_f))),
        x_f_v9 == rot2_spec(x_f_v8),
        x_f_v10 == rot2_spec(rot1_spec(rot1_spec(rot1_spec(rot1_spec(x_f_v0))))),
        x_f_v11 == rot2_spec(x_f_v10),
        g_f == flip_spec(rot1_spec(y)),
        g_v0 == rot2_spec(rot1_spec(y)),
        g_v1 == rot2_spec(g_v0),
        g_v2 == rot2_spec(g_v1),
        g_v3 == rot2_spec(rot1_spec(rot1_spec(rot1_spec(rot1_spec(rot1_spec(y)))))),
        g_v4 == rot2_spec(g_v3),
        g_v5 == rot2_spec(rot1_spec(rot1_spec(rot1_spec(rot1_spec(y))))),
        g_v6 == rot2_spec(g_v5),
        g_v7 == rot2_spec(rot1_spec(rot1_spec(y))),
        g_v8 == rot2_spec(rot1_spec(rot1_spec(rot1_spec(y)))),
        g_v9 == rot2_spec(g_v8),
        g_v10 == rot2_spec(rot1_spec(rot1_spec(rot1_spec(rot1_spec(g_v0))))),
        g_v11 == rot2_spec(g_v10),
        g_f_v0 == rot2_spec(g_f),
        g_f_v1 == rot2_spec(g_f_v0),
        g_f_v2 == rot2_spec(g_f_v1),
        g_f_v3 == rot2_spec(rot1_spec(rot1_spec(rot1_spec(rot1_spec(g_f))))),
        g_f_v4 == rot2_spec(g_f_v3),
        g_f_v5 == rot2_spec(rot1_spec(rot1_spec(rot1_spec(g_f)))),
        g_f_v6 == rot2_spec(g_f_v5),
        g_f_v7 == rot2_spec(rot1_spec(g_f)),
        g_f_v8 == rot2_spec(rot1_spec(rot1_spec(g_f))),
        g_f_v9 == rot2_spec(g_f_v8),
        g_f_v10 == rot2_spec(rot1_spec(rot1_spec(rot1_spec(rot1_spec(g_f_v0))))),
        g_f_v11 == rot2_spec(g_f_v10),
    ensures
        rot1_pow(rot1_spec(y), 0) == rot1_pow(y, 1),
        rot1_pow(rot1_spec(y), 1) == rot1_pow(y, 2),
        rot1_pow(rot1_spec(y), 2) == rot1_pow(y, 3),
        rot1_pow(rot1_spec(y), 3) == rot1_pow(y, 4),
        rot1_pow(rot1_spec(y), 4) == rot1_pow(y, 0),
        rot1_pow(g_v0, 0) == rot1_pow(x_v7, 0),
        rot1_pow(g_v0, 1) == rot1_pow(x_v7, 1),
        rot1_pow(g_v0, 2) == rot1_pow(x_v7, 2),
        rot1_pow(g_v0, 3) == rot1_pow(x_v7, 3),
        rot1_pow(g_v0, 4) == rot1_pow(x_v7, 4),
        rot1_pow(g_v1, 0) == rot1_pow(x_v2, 4),
        rot1_pow(g_v1, 1) == rot1_pow(x_v2, 0),
        rot1_pow(g_v1, 2) == rot1_pow(x_v2, 1),
        rot1_pow(g_v1, 3) == rot1_pow(x_v2, 2),
        rot1_pow(g_v1, 4) == rot1_pow(x_v2, 3),
        rot1_pow(g_v2, 0) == rot1_pow(x_v9, 1),
        rot1_pow(g_v2, 1) == rot1_pow(x_v9, 2),
        rot1_pow(g_v2, 2) == rot1_pow(x_v9, 3),
        rot1_pow(g_v2, 3) == rot1_pow(x_v9, 4),
        rot1_pow(g_v2, 4) == rot1_pow(x_v9, 0),
        rot1_pow(g_v4, 0) == rot1_pow(x_v1, 0),
        rot1_pow(g_v4, 1) == rot1_pow(x_v1, 1),
        rot1_pow(g_v4, 2) == rot1_pow(x_v1, 2),
        rot1_pow(g_v4, 3) == rot1_pow(x_v1, 3),
        rot1_pow(g_v4, 4) == rot1_pow(x_v1, 4),
        rot1_pow(g_v6, 0) == rot1_pow(x_v4, 0),
        rot1_pow(g_v6, 1) == rot1_pow(x_v4, 1),
        rot1_pow(g_v6, 2) == rot1_pow(x_v4, 2),
        rot1_pow(g_v6, 3) == rot1_pow(x_v4, 3),
        rot1_pow(g_v6, 4) == rot1_pow(x_v4, 4),
        rot1_pow(g_v7, 0) == rot1_pow(x_v8, 0),
        rot1_pow(g_v7, 1) == rot1_pow(x_v8, 1),
        rot1_pow(g_v7, 2) == rot1_pow(x_v8, 2),
        rot1_pow(g_v7, 3) == rot1_pow(x_v8, 3),
        rot1_pow(g_v7, 4) == rot1_pow(x_v8, 4),
        rot1_pow(g_v8, 0) == rot1_pow(x_v5, 0),
        rot1_pow(g_v8, 1) == rot1_pow(x_v5, 1),
        rot1_pow(g_v8, 2) == rot1_pow(x_v5, 2),
        rot1_pow(g_v8, 3) == rot1_pow(x_v5, 3),
        rot1_pow(g_v8, 4) == rot1_pow(x_v5, 4),
        rot1_pow(g_v5, 0) == rot1_pow(x_v3, 0),
        rot1_pow(g_v5, 1) == rot1_pow(x_v3, 1),
        rot1_pow(g_v5, 2) == rot1_pow(x_v3, 2),
        rot1_pow(g_v5, 3) == rot1_pow(x_v3, 3),
        rot1_pow(g_v5, 4) == rot1_pow(x_v3, 4),
        rot1_pow(g_v9, 0) == rot1_pow(x_v6, 0),
        rot1_pow(g_v9, 1) == rot1_pow(x_v6, 1),
        rot1_pow(g_v9, 2) == rot1_pow(x_v6, 2),
        rot1_pow(g_v9, 3) == rot1_pow(x_v6, 3),
        rot1_pow(g_v9, 4) == rot1_pow(x_v6, 4),
        rot1_pow(g_v3, 0) == rot1_pow(x_v0, 0),
        rot1_pow(g_v3, 1) == rot1_pow(x_v0, 1),
        rot1_pow(g_v3, 2) == rot1_pow(x_v0, 2),
        rot1_pow(g_v3, 3) == rot1_pow(x_v0, 3),
        rot1_pow(g_v3, 4) == rot1_pow(x_v0, 4),
        rot1_pow(g_v11, 0) == rot1_pow(x_v11, 4),
        rot1_pow(g_v11, 1) == rot1_pow(x_v11, 0),
        rot1_pow(g_v11, 2) == rot1_pow(x_v11, 1),
        rot1_pow(g_v11, 3) == rot1_pow(x_v11, 2),
        rot1_pow(g_v11, 4) == rot1_pow(x_v11, 3),
        rot1_pow(g_f, 0) == rot1_pow(x_f_v8, 2),
        rot1_pow(g_f, 1) == rot1_pow(x_f_v8, 3),
        rot1_pow(g_f, 2) == rot1_pow(x_f_v8, 4),
        rot1_pow(g_f, 3) == rot1_pow(x_f_v8, 0),
        rot1_pow(g_f, 4) == rot1_pow(x_f_v8, 1),
        rot1_pow(g_f_v0, 0) == rot1_pow(x_f, 0),
        rot1_pow(g_f_v0, 1) == rot1_pow(x_f, 1),
        rot1_pow(g_f_v0, 2) == rot1_pow(x_f, 2),
        rot1_pow(g_f_v0, 3) == rot1_pow(x_f, 3),
        rot1_pow(g_f_v0, 4) == rot1_pow(x_f, 4),
        rot1_pow(g_f_v1, 0) == rot1_pow(x_f_v0, 0),
        rot1_pow(g_f_v1, 1) == rot1_pow(x_f_v0, 1),
        rot1_pow(g_f_v1, 2) == rot1_pow(x_f_v0, 2),
        rot1_pow(g_f_v1, 3) == rot1_pow(x_f_v0, 3),
        rot1_pow(g_f_v1, 4) == rot1_pow(x_f_v0, 4),
        rot1_pow(g_f_v2, 0) == rot1_pow(x_f_v1, 0),
        rot1_pow(g_f_v2, 1) == rot1_pow(x_f_v1, 1),
        rot1_pow(g_f_v2, 2) == rot1_pow(x_f_v1, 2),
        rot1_pow(g_f_v2, 3) == rot1_pow(x_f_v1, 3),
        rot1_pow(g_f_v2, 4) == rot1_pow(x_f_v1, 4),
        rot1_pow(g_f_v4, 0) == rot1_pow(x_f_v3, 1),
        rot1_pow(g_f_v4, 1) == rot1_pow(x_f_v3, 2),
        rot1_pow(g_f_v4, 2) == rot1_pow(x_f_v3, 3),
        rot1_pow(g_f_v4, 3) == rot1_pow(x_f_v3, 4),
        rot1_pow(g_f_v4, 4) == rot1_pow(x_f_v3, 0),
        rot1_pow(g_f_v6, 0) == rot1_pow(x_f_v6, 1),
        rot1_pow(g_f_v6, 1) == rot1_pow(x_f_v6, 2),
        rot1_pow(g_f_v6, 2) == rot1_pow(x_f_v6, 3),
        rot1_pow(g_f_v6, 3) == rot1_pow(x_f_v6, 4),
        rot1_pow(g_f_v6, 4) == rot1_pow(x_f_v6, 0),
        rot1_pow(g_f_v7, 0) == rot1_pow(x_f_v7, 4),
        rot1_pow(g_f_v7, 1) == rot1_pow(x_f_v7, 0),
        rot1_pow(g_f_v7, 2) == rot1_pow(x_f_v7, 1),
        rot1_pow(g_f_v7, 3) == rot1_pow(x_f_v7, 2),
        rot1_pow(g_f_v7, 4) == rot1_pow(x_f_v7, 3),
        rot1_pow(g_f_v8, 0) == rot1_pow(x_f_v2, 3),
        rot1_pow(g_f_v8, 1) == rot1_pow(x_f_v2, 4),
        rot1_pow(g_f_v8, 2) == rot1_pow(x_f_v2, 0),
        rot1_pow(g_f_v8, 3) == rot1_pow(x_f_v2, 1),
        rot1_pow(g_f_v8, 4) == rot1_pow(x_f_v2, 2),
        rot1_pow(g_f_v5, 0) == rot1_pow(x_f_v9, 0),
        rot1_pow(g_f_v5, 1) == rot1_pow(x_f_v9, 1),
        rot1_pow(g_f_v5, 2) == rot1_pow(x_f_v9, 2),
        rot1_pow(g_f_v5, 3) == rot1_pow(x_f_v9, 3),
        rot1_pow(g_f_v5, 4) == rot1_pow(x_f_v9, 4),
        rot1_pow(g_f_v9, 0) == rot1_pow(x_f_v11, 3),
        rot1_pow(g_f_v9, 1) == rot1_pow(x_f_v11, 4),
        rot1_pow(g_f_v9, 2) == rot1_pow(x_f_v11, 0),
        rot1_pow(g_f_v9, 3) == rot1_pow(x_f_v11, 1),
        rot1_pow(g_f_v9, 4) == rot1_pow(x_f_v11, 2),
        rot1_pow(g_f_v3, 0) == rot1_pow(x_f_v5, 1),
        rot1_pow(g_f_v3, 1) == rot1_pow(x_f_v5, 2),
        rot1_pow(g_f_v3, 2) == rot1_pow(x_f_v5, 3),
        rot1_pow(g_f_v3, 3) == rot1_pow(x_f_v5, 4),
        rot1_pow(g_f_v3, 4) == rot1_pow(x_f_v5, 0),
        rot1_pow(g_f_v11, 0) == rot1_pow(x_f_v4, 0),
        rot1_pow(g_f_v11, 1) == rot1_pow(x_f_v4, 1),
        rot1_pow(g_f_v11, 2) == rot1_pow(x_f_v4, 2),
        rot1_pow(g_f_v11, 3) == rot1_pow(x_f_v4, 3),
        rot1_pow(g_f_v11, 4) == rot1_pow(x_f_v4, 4),
{
}

/// Each image of `rot1_spec(y)` under the hundred and twenty words is an image of
/// `y`.
proof fn lemma_orbit_values_rot1(y: u32)
    requires
        is_edge_set(y),
    ensures
        orbit_value(rot1_spec(y), 0, 0, 0) == orbit_value(y, 0, 0, 1),
        orbit_value(rot1_spec(y), 0, 0, 1) == orbit_value(y, 0, 0, 2),
        orbit_value(rot1_spec(y), 0, 0, 2) == orbit_value(y, 0, 0, 3),
        orbit_value(rot1_spec(y), 0, 0, 3) == orbit_value(y, 0, 0, 4),
        orbit_value(rot1_spec(y), 0, 0, 4) == orbit_value(y, 0, 0, 0),
        orbit_value(rot1_spec(y), 0, 1, 0) == orbit_value(y, 0, 6, 0),
        orbit_value(rot1_spec(y), 0, 1, 1) == orbit_value(y, 0, 6, 1),
        orbit_value(rot1_spec(y), 0, 1, 2) == orbit_value(y, 0, 6, 2),
        orbit_value(rot1_spec(y), 0, 1, 3) == orbit_value(y, 0, 6, 3),
        orbit_value(rot1_spec(y), 0, 1, 4) == orbit_value(y, 0, 6, 4),
        orbit_value(rot1_spec(y), 0, 2, 0) == orbit_value(y, 0, 3, 4),
        orbit_value(rot1_spec(y), 0, 2, 1) == orbit_value(y, 0, 3, 0),
        orbit_value(rot1_spec(y), 0, 2, 2) == orbit_value(y, 0, 3, 1),
        orbit_value(rot1_spec(y), 0, 2, 3) == orbit_value(y, 0, 3, 2),
        orbit_value(rot1_spec(y), 0, 2, 4) == orbit_value(y, 0, 3, 3),
        orbit_value(rot1_spec(y), 0, 3, 0) == orbit_value(y, 0, 9, 1),
        orbit_value(rot1_spec(y), 0, 3, 1) == orbit_value(y, 0, 9, 2),
        orbit_value(rot1_spec(y), 0, 3, 2) == orbit_value(y, 0, 9, 3),
        orbit_value(rot1_spec(y), 0, 3, 3) == orbit_value(y, 0, 9, 4),
        orbit_value(rot1_spec(y), 0, 3, 4) == orbit_value(y, 0, 9, 0),
        orbit_value(rot1_spec(y), 0, 4, 0) == orbit_value(y, 0, 2, 0),
        orbit_value(rot1_spec(y), 0, 4, 1) == orbit_value(y, 0, 2, 1),
        orbit_value(rot1_spec(y), 0, 4, 2) == orbit_value(y, 0, 2, 2),
        orbit_value(rot1_spec(y), 0, 4, 3) == orbit_value(y, 0, 2, 3),
        orbit_value(rot1_spec(y), 0, 4, 4) == orbit_value(y, 0, 2, 4),
        orbit_value(rot1_spec(y), 0, 5, 0) == orbit_value(y, 0, 4, 0),
        orbit_value(rot1_spec(y), 0, 5, 1) == orbit_value(y, 0, 4, 1),
        orbit_value(rot1_spec(y), 0, 5, 2) == orbit_value(y, 0, 4, 2),
        orbit_value(rot1_spec(y), 0, 5, 3) == orbit_value(y, 0, 4, 3),
        orbit_value(rot1_spec(y), 0, 5, 4) == orbit_value(y, 0, 4, 4),
        orbit_value(rot1_spec(y), 0, 6, 0) == orbit_value(y, 0, 7, 0),
        orbit_value(rot1_spec(y), 0, 6, 1) == orbit_value(y, 0, 7, 1),
        orbit_value(rot1_spec(y), 0, 6, 2) == orbit_value(y, 0, 7, 2),
        orbit_value(rot1_spec(y), 0, 6, 3) == orbit_value(y, 0, 7, 3),
        orbit_value(rot1_spec(y), 0, 6, 4) == orbit_value(y, 0, 7, 4),
        orbit_value(rot1_spec(y), 0, 7, 0) == orbit_value(y, 0, 8, 0),
        orbit_value(rot1_spec(y), 0, 7, 1) == orbit_value(y, 0, 8, 1),
        orbit_value(rot1_spec(y), 0, 7, 2) == orbit_value(y, 0, 8, 2),
        orbit_value(rot1_spec(y), 0, 7, 3) == orbit_value(y, 0, 8, 3),
        orbit_value(rot1_spec(y), 0, 7, 4) == orbit_value(y, 0, 8, 4),
        orbit_value(rot1_spec(y), 0, 8, 0) == orbit_value(y, 0, 10, 0),
        orbit_value(rot1_spec(y), 0, 8, 1) == orbit_value(y, 0, 10, 1),
        orbit_value(rot1_spec(y), 0, 8, 2) == orbit_value(y, 0, 10, 2),
        orbit_value(rot1_spec(y), 0, 8, 3) == orbit_value(y, 0, 10, 3),
        orbit_value(rot1_spec(y), 0, 8, 4) == orbit_value(y, 0, 10, 4),
        orbit_value(rot1_spec(y), 0, 9, 0) == orbit_value(y, 0, 5, 0),
        orbit_value(rot1_spec(y), 0, 9, 1) == orbit_value(y, 0, 5, 1),
        orbit_value(rot1_spec(y), 0, 9, 2) == orbit_value(y, 0, 5, 2),
        orbit_value(rot1_spec(y), 0, 9, 3) == orbit_value(y, 0, 5, 3),
        orbit_value(rot1_spec(y), 0, 9, 4) == orbit_value(y, 0, 5, 4),
        orbit_value(rot1_spec(y), 0, 10, 0) == orbit_value(y, 0, 1, 0),
        orbit_value(rot1_spec(y), 0, 10, 1) == orbit_value(y, 0, 1, 1),
        orbit_value(rot1_spec(y), 0, 10, 2) == orbit_value(y, 0, 1, 2),
        orbit_value(rot1_spec(y), 0, 10, 3) == orbit_value(y, 0, 1, 3),
        orbit_value(rot1_spec(y), 0, 10, 4) == orbit_value(y, 0, 1, 4),
        orbit_value(rot1_spec(y), 0, 11, 0) == orbit_value(y, 0, 11, 4),
        orbit_value(rot1_spec(y), 0, 11, 1) == orbit_value(y, 0, 11, 0),
        orbit_value(rot1_spec(y), 0, 11, 2) == orbit_value(y, 0, 11, 1),
        orbit_value(rot1_spec(y), 0, 11, 3) == orbit_value(y, 0, 11, 2),
        orbit_value(rot1_spec(y), 0, 11, 4) == orbit_value(y, 0, 11, 3),
        orbit_value(rot1_spec(y), 1, 0, 0) == orbit_value(y, 1, 7, 2),
        orbit_value(rot1_spec(y), 1, 0, 1) == orbit_value(y, 1, 7, 3),
        orbit_value(rot1_spec(y), 1, 0, 2) == orbit_value(y, 1, 7, 4),
        orbit_value(rot1_spec(y), 1, 0, 3) == orbit_value(y, 1, 7, 0),
        orbit_value(rot1_spec(y), 1, 0, 4) == orbit_value(y, 1, 7, 1),
        orbit_value(rot1_spec(y), 1, 1, 0) == orbit_value(y, 1, 0, 0),
        orbit_value(rot1_spec(y), 1, 1, 1) == orbit_value(y, 1, 0, 1),
        orbit_value(rot1_spec(y), 1, 1, 2) == orbit_value(y, 1, 0, 2),
        orbit_value(rot1_spec(y), 1, 1, 3) == orbit_value(y, 1, 0, 3),
        orbit_value(rot1_spec(y), 1, 1, 4) == orbit_value(y, 1, 0, 4),
        orbit_value(rot1_spec(y), 1, 2, 0) == orbit_value(y, 1, 1, 0),
        orbit_value(rot1_spec(y), 1, 2, 1) == orbit_value(y, 1, 1, 1),
        orbit_value(rot1_spec(y), 1, 2, 2) == orbit_value(y, 1, 1, 2),
        orbit_value(rot1_spec(y), 1, 2, 3) == orbit_value(y, 1, 1, 3),
        orbit_value(rot1_spec(y), 1, 2, 4) == orbit_value(y, 1, 1, 4),
        orbit_value(rot1_spec(y), 1, 3, 0) == orbit_value(y, 1, 2, 0),
        orbit_value(rot1_spec(y), 1, 3, 1) == orbit_value(y, 1, 2, 1),
        orbit_value(rot1_spec(y), 1, 3, 2) == orbit_value(y, 1, 2, 2),
        orbit_value(rot1_spec(y), 1, 3, 3) == orbit_value(y, 1, 2, 3),
        orbit_value(rot1_spec(y), 1, 3, 4) == orbit_value(y, 1, 2, 4),
        orbit_value(rot1_spec(y), 1, 4, 0) == orbit_value(y, 1, 10, 1),
        orbit_value(rot1_spec(y), 1, 4, 1) == orbit_value(y, 1, 10, 2),
        orbit_value(rot1_spec(y), 1, 4, 2) == orbit_value(y, 1, 10, 3),
        orbit_value(rot1_spec(y), 1, 4, 3) == orbit_value(y, 1, 10, 4),
        orbit_value(rot1_spec(y), 1, 4, 4) == orbit_value(y, 1, 10, 0),
        orbit_value(rot1_spec(y), 1, 5, 0) == orbit_value(y, 1, 5, 1),
        orbit_value(rot1_spec(y), 1, 5, 1) == orbit_value(y, 1, 5, 2),
        orbit_value(rot1_spec(y), 1, 5, 2) == orbit_value(y, 1, 5, 3),
        orbit_value(rot1_spec(y), 1, 5, 3) == orbit_value(y, 1, 5, 4),
        orbit_value(rot1_spec(y), 1, 5, 4) == orbit_value(y, 1, 5, 0),
        orbit_value(rot1_spec(y), 1, 6, 0) == orbit_value(y, 1, 6, 4),
        orbit_value(rot1_spec(y), 1, 6, 1) == orbit_value(y, 1, 6, 0),
        orbit_value(rot1_spec(y), 1, 6, 2) == orbit_value(y, 1, 6, 1),
        orbit_value(rot1_spec(y), 1, 6, 3) == orbit_value(y, 1, 6, 2),
        orbit_value(rot1_spec(y), 1, 6, 4) == orbit_value(y, 1, 6, 3),
        orbit_value(rot1_spec(y), 1, 7, 0) == orbit_value(y, 1, 3, 3),
        orbit_value(rot1_spec(y), 1, 7, 1) == orbit_value(y, 1, 3, 4),
        orbit_value(rot1_spec(y), 1, 7, 2) == orbit_value(y, 1, 3, 0),
        orbit_value(rot1_spec(y), 1, 7, 3) == orbit_value(y, 1, 3, 1),
        orbit_value(rot1_spec(y), 1, 7, 4) == orbit_value(y, 1, 3, 2),
        orbit_value(rot1_spec(y), 1, 8, 0) == orbit_value(y, 1, 9, 0),
        orbit_value(rot1_spec(y), 1, 8, 1) == orbit_value(y, 1, 9, 1),
        orbit_value(rot1_spec(y), 1, 8, 2) == orbit_value(y, 1, 9, 2),
        orbit_value(rot1_spec(y), 1, 8, 3) == orbit_value(y, 1, 9, 3),
        orbit_value(rot1_spec(y), 1, 8, 4) == orbit_value(y, 1, 9, 4),
        orbit_value(rot1_spec(y), 1, 9, 0) == orbit_value(y, 1, 11, 3),
        orbit_value(rot1_spec(y), 1, 9, 1) == orbit_value(y, 1, 11, 4),
        orbit_value(rot1_spec(y), 1, 9, 2) == orbit_value(y, 1, 11, 0),
        orbit_value(rot1_spec(y), 1, 9, 3) == orbit_value(y, 1, 11, 1),
        orbit_value(rot1_spec(y), 1, 9, 4) == orbit_value(y, 1, 11, 2),
        orbit_value(rot1_spec(y), 1, 10, 0) == orbit_value(y, 1, 8, 1),
        orbit_value(rot1_spec(y), 1, 10, 1) == orbit_value(y, 1, 8, 2),
        orbit_value(rot1_spec(y), 1, 10, 2) == orbit_value(y, 1, 8, 3),
        orbit_value(rot1_spec(y), 1, 10, 3) == orbit_value(y, 1, 8, 4),
        orbit_value(rot1_spec(y), 1, 10, 4) == orbit_value(y, 1, 8, 0),
        orbit_value(rot1_spec(y), 1, 11, 0) == orbit_value(y, 1, 4, 0),
        orbit_value(rot1_spec(y), 1, 11, 1) == orbit_value(y, 1, 4, 1),
        orbit_value(rot1_spec(y), 1, 11, 2) == orbit_value(y, 1, 4, 2),
        orbit_value(rot1_spec(y), 1, 11, 3) == orbit_value(y, 1, 4, 3),
        orbit_value(rot1_spec(y), 1, 11, 4) == orbit_value(y, 1, 4, 4),
{
    let x_f = flip_spec(y);
    let x_v0 = rot2_spec(y);
    let x_v1 = rot2_spec(x_v0);
    let x_v2 = rot2_spec(x_v1);
    let x_v3 = rot2_spec(rot1_spec(rot1_spec(rot1_spec(rot1_spec(y)))));
    let x_v4 = rot2_spec(x_v3);
    let x_v5 = rot2_spec(rot1_spec(rot1_spec(rot1_spec(y))));
    let x_v6 = rot2_spec(x_v5);
    let x_v7 = rot2_spec(rot1_spec(y));
    let x_v8 = rot2_spec(rot1_spec(rot1_spec(y)));
    let x_v9 = rot2_spec(x_v8);
    let x_v10 = rot2_spec(rot1_spec(rot1_spec(rot1_spec(rot1_spec(x_v0)))));
    let x_v11 = rot2_spec(x_v10);
    let x_f_v0 = rot2_spec(x_f);
    let x_f_v1 = rot2_spec(x_f_v0);
    let x_f_v2 = rot2_spec(x_f_v1);
    let x_f_v3 = rot2_spec(rot1_spec(rot1_spec(rot1_spec(rot1_spec(x_f)))));
    let x_f_v4 = rot2_spec(x_f_v3);
    let x_f_v5 = rot2_spec(rot1_spec(rot1_spec(rot1_spec(x_f))));
    let x_f_v6 = rot2_spec(x_f_v5);
    let x_f_v7 = rot2_spec(rot1_spec(x_f));
    let x_f_v8 = rot2_spec(rot1_spec(rot1_spec(x_f)));
    let x_f_v9 = rot2_spec(x_f_v8);
    let x_f_v10 = rot2_spec(rot1_spec(rot1_spec(rot1_spec(rot1_spec(x_f_v0)))));
    let x_f_v11 = rot2_spec(x_f_v10);
    let g_f = flip_spec(rot1_spec(y));
    let g_v0 = rot2_spec(rot1_spec(y));
    let g_v1 = rot2_spec(g_v0);
    let g_v2 = rot2_spec(g_v1);
    let g_v3 = rot2_spec(rot1_spec(rot1_spec(rot1_spec(rot1_spec(rot1_spec(y))))));
    let g_v4 = rot2_spec(g_v3);
    let g_v5 = rot2_spec(rot1_spec(rot1_spec(rot1_spec(rot1_spec(y)))));
    let g_v6 = rot2_spec(g_v5);
    let g_v7 = rot2_spec(rot1_spec(rot1_spec(y)));
    let g_v8 = rot2_spec(rot1_spec(rot1_spec(rot1_spec(y))));
    let g_v9 = rot2_spec(g_v8);
    let g_v10 = rot2_spec(rot1_spec(rot1_spec(rot1_spec(rot1_spec(g_v0)))));
    let g_v11 = rot2_spec(g_v10);
    let g_f_v0 = rot2_spec(g_f);
    let g_f_v1 = rot2_spec(g_f_v0);
    let g_f_v2 = rot2_spec(g_f_v1);
    let g_f_v3 = rot2_spec(rot1_spec(rot1_spec(rot1_spec(rot1_spec(g_f)))));
    let g_f_v4 = rot2_spec(g_f_v3);
    let g_f_v5 = rot2_spec(rot1_spec(rot1_spec(rot1_spec(g_f))));
    let g_f_v6 = rot2_spec(g_f_v5);
    let g_f_v7 = rot2_spec(rot1_spec(g_f));
    let g_f_v8 = rot2_spec(rot1_spec(rot1_spec(g_f)));
    let g_f_v9 = rot2_spec(g_f_v8);
    let g_f_v10 = rot2_spec(rot1_spec(rot1_spec(rot1_spec(rot1_spec(g_f_v0)))));
    let g_f_v11 = rot2_spec(g_f_v10);
    lemma_words_rot1_bits(y, x_f, x_v0, x_v1, x_v2, x_v3, x_v4, x_v5, x_v6, x_v7, x_v8, x_v9, x_v10, x_v11, x_f_v0, x_f_v1, x_f_v2, x_f_v3, x_f_v4, x_f_v5, x_f_v6, x_f_v7, x_f_v8, x_f_v9, x_f_v10, x_f_v11, g_f, g_v0, g_v1, g_v2, g_v3, g_v4, g_v5, g_v6, g_v7, g_v8, g_v9, g_v10, g_v11, g_f_v0, g_f_v1, g_f_v2, g_f_v3, g_f_v4, g_f_v5, g_f_v6, g_f_v7, g_f_v8, g_f_v9, g_f_v10, g_f_v11);
}

proof fn lemma_min_repr_rot1_ge(y: u32)
    requires
        is_edge_set(y),
    ensures
        min_repr_spec(rot1_spec(y)) >= min_repr_spec(y),
{
    let (f, c, a) = lemma_min_repr_attained(rot1_spec(y));
    lemma_orbit_values_rot1(y);
    lemma_min_repr_le(y);
    assert(f == 0 || f == 1);
    assert(c == 0 || c == 1 || c == 2 || c == 3 || c == 4 || c == 5 || c == 6 || c == 7 || c == 8 || c == 9 || c == 10 || c == 11);
    assert(a == 0 || a == 1 || a == 2 || a == 3 || a == 4);
}

/// The images of `rot2_spec(y)` under the hundred and twenty words, matched one
/// by one with images of `y`, computed bit by bit.
proof fn lemma_words_rot2_bits(
    y: u32,
    gy: u32,
    x_f: u32,
    x_v0: u32,
    x_v1: u32,
    x_v2: u32,
    x_v3: u32,
    x_v4: u32,
    x_v5: u32,
    x_v6: u32,
    x_v7: u32,
    x_v8: u32,
    x_v9: u32,
    x_v10: u32,
    x_v11: u32,
    x_f_v0: u32,
    x_f_v1: u32,
    x_f_v2: u32,
    x_f_v3: u32,
    x_f_v4: u32,
    x_f_v5: u32,
    x_f_v6: u32,
    x_f_v7: u32,
    x_f_v8: u32,
    x_f_v9: u32,
    x_f_v10: u32,
    x_f_v11: u32,
    g_f: u32,
    g_v0: u32,
    g_v1: u32,
    g_v2: u32,
    g_v3: u32,
    g_v4: u32,
    g_v5: u32,
    g_v6: u32,
    g_v7: u32,
    g_v8: u32,
    g_v9: u32,
    g_v10: u32,
    g_v11: u32,
    g_f_v0: u32,
    g_f_v1: u32,
    g_f_v2: u32,
    g_f_v3: u32,
    g_f_v4: u32,
    g_f_v5: u32,
    g_f_v6: u32,
    g_f_v7: u32,
    g_f_v8: u32,
    g_f_v9: u32,
    g_f_v10: u32,
    g_f_v11: u32,
)
    by (bit_vector)
    requires
        y >> 30u32 == 0,
        gy == rot2_spec(y),
        x_f == flip_spec(y),
        x_v0 == rot2_spec(y),
        x_v1 == rot2_spec(x_v0),
        x_v2 == rot2_spec(x_v1),
        x_v3 == rot2_spec(rot1_spec(rot1_spec(rot1_spec(rot1_spec(y))))),
        x_v4 == rot2_spec(x_v3),
        x_v5 == rot2_spec(rot1_spec(rot1_spec(rot1_spec(y)))),
        x_v6 == rot2_spec(x_v5),
        x_v7 == rot2_spec(rot1_spec(y)),
        x_v8 == rot2_spec(rot1_spec(rot1_spec(y))),
        x_v9 == rot2_spec(x_v8),
        x_v10 == rot2_spec(rot1_spec(rot1_spec(rot1_spec(rot1_spec(x_v0))))),
        x_v11 == rot2_spec(x_v10),
        x_f_v0 == rot2_spec(x_f),
        x_f_v1 == rot2_spec(x_f_v0),
        x_f_v2 == rot2_spec(x_f_v1),
        x_f_v3 == rot2_spec(rot1_spec(rot1_spec(rot1_spec(rot1_spec(x_f))))),
        x_f_v4 == rot2_spec(x_f_v3),
        x_f_v5 == rot2_spec(rot1_spec(rot1_spec(rot1_spec(x_f)))),
        x_f_v6 == rot2_spec(x_f_v5),
        x_f_v7 == rot2_spec(rot1_spec(x_f)),
        x_f_v8 == rot2_spec(rot1_spec(rot1_spec(x_f))),
        x_f_v9 == rot2_spec(x_f_v8),
        x_f_v10 == rot2_spec(rot1_spec(rot1_spec(rot1_spec(rot1_spec(x_f_v0))))),
        x_f_v11 == rot2_spec(x_f_v10),
        g_f == flip_spec(gy),
        g_v0 == rot2_spec(gy),
        g_v1 == rot2_spec(g_v0),
        g_v2 == rot2_spec(g_v1),
        g_v3 == rot2_spec(rot1_spec(rot1_spec(rot1_spec(rot1_spec(gy))))),
        g_v4 == rot2_spec(g_v3),
        g_v5 == rot2_spec(rot1_spec(rot1_spec(rot1_spec(gy)))),
        g_v6 == rot2_spec(g_v5),
        g_v7 == rot2_spec(rot1_spec(gy)),
        g_v8 == rot2_spec(rot1_spec(rot1_spec(gy))),
        g_v9 == rot2_spec(g_v8),
        g_v10 == rot2_spec(rot1_spec(rot1_spec(rot1_spec(rot1_spec(g_v0))))),
        g_v11 == rot2_spec(g_v10),
        g_f_v0 == rot2_spec(g_f),
        g_f_v1 == rot2_spec(g_f_v0),
        g_f_v2 == rot2_spec(g_f_v1),
        g_f_v3 == rot2_spec(rot1_spec(rot1_spec(rot1_spec(rot1_spec(g_f))))),
        g_f_v4 == rot2_spec(g_f_v3),
        g_f_v5 == rot2_spec(rot1_spec(rot1_spec(rot1_spec(g_f)))),
        g_f_v6 == rot2_spec(g_f_v5),
        g_f_v7 == rot2_spec(rot1_spec(g_f)),
        g_f_v8 == rot2_spec(rot1_spec(rot1_spec(g_f))),
        g_f_v9 == rot2_spec(g_f_v8),
        g_f_v10 == rot2_spec(rot1_spec(rot1_spec(rot1_spec(rot1_spec(g_f_v0))))),
        g_f_v11 == rot2_spec(g_f_v10),
    ensures
        rot1_pow(gy, 0) == rot1_pow(x_v0, 0),
        rot1_pow(gy, 1) == rot1_pow(x_v0, 1),
        rot1_pow(gy, 2) == rot1_pow(x_v0, 2),
        rot1_pow(gy, 3) == rot1_pow(x_v0, 3),
        rot1_pow(gy, 4) == rot1_pow(x_v0, 4),
        rot1_pow(g_v0, 0) == rot1_pow(x_v1, 0),
        rot1_pow(g_v0, 1) == rot1_pow(x_v1, 1),
        rot1_pow(g_v0, 2) == rot1_pow(x_v1, 2),
        rot1_pow(g_v0, 3) == rot1_pow(x_v1, 3),
        rot1_pow(g_v0, 4) == rot1_pow(x_v1, 4),
        rot1_pow(g_v1, 0) == rot1_pow(x_v2, 0),
        rot1_pow(g_v1, 1) == rot1_pow(x_v2, 1),
        rot1_pow(g_v1, 2) == rot1_pow(x_v2, 2),
        rot1_pow(g_v1, 3) == rot1_pow(x_v2, 3),
        rot1_pow(g_v1, 4) == rot1_pow(x_v2, 4),
        rot1_pow(g_v2, 0) == rot1_pow(x_v8, 2),
        rot1_pow(g_v2, 1) == rot1_pow(x_v8, 3),
        rot1_pow(g_v2, 2) == rot1_pow(x_v8, 4),
        rot1_pow(g_v2, 3) == rot1_pow(x_v8, 0),
        rot1_pow(g_v2, 4) == rot1_pow(x_v8, 1),
        rot1_pow(g_v4, 0) == rot1_pow(x_v11, 0),
        rot1_pow(g_v4, 1) == rot1_pow(x_v11, 1),
        rot1_pow(g_v4, 2) == rot1_pow(x_v11, 2),
        rot1_pow(g_v4, 3) == rot1_pow(x_v11, 3),
        rot1_pow(g_v4, 4) == rot1_pow(x_v11, 4),
        rot1_pow(g_v6, 0) == rot1_pow(x_v6, 4),
        rot1_pow(g_v6, 1) == rot1_pow(x_v6, 0),
        rot1_pow(g_v6, 2) == rot1_pow(x_v6, 1),
        rot1_pow(g_v6, 3) == rot1_pow(x_v6, 2),
        rot1_pow(g_v6, 4) == rot1_pow(x_v6, 3),
        rot1_pow(g_v7, 0) == rot1_pow(x_v7, 1),
        rot1_pow(g_v7, 1) == rot1_pow(x_v7, 2),
        rot1_pow(g_v7, 2) == rot1_pow(x_v7, 3),
        rot1_pow(g_v7, 3) == rot1_pow(x_v7, 4),
        rot1_pow(g_v7, 4) == rot1_pow(x_v7, 0),
        rot1_pow(g_v8, 0) == rot1_pow(y, 3),
        rot1_pow(g_v8, 1) == rot1_pow(y, 4),
        rot1_pow(g_v8, 2) == rot1_pow(y, 0),
        rot1_pow(g_v8, 3) == rot1_pow(y, 1),
        rot1_pow(g_v8, 4) == rot1_pow(y, 2),
        rot1_pow(g_v5, 0) == rot1_pow(x_v3, 4),
        rot1_pow(g_v5, 1) == rot1_pow(x_v3, 0),
        rot1_pow(g_v5, 2) == rot1_pow(x_v3, 1),
        rot1_pow(g_v5, 3) == rot1_pow(x_v3, 2),
        rot1_pow(g_v5, 4) == rot1_pow(x_v3, 3),
        rot1_pow(g_v9, 0) == rot1_pow(x_v5, 0),
        rot1_pow(g_v9, 1) == rot1_pow(x_v5, 1),
        rot1_pow(g_v9, 2) == rot1_pow(x_v5, 2),
        rot1_pow(g_v9, 3) == rot1_pow(x_v5, 3),
        rot1_pow(g_v9, 4) == rot1_pow(x_v5, 4),
        rot1_pow(g_v3, 0) == rot1_pow(x_v4, 4),
        rot1_pow(g_v3, 1) == rot1_pow(x_v4, 0),
        rot1_pow(g_v3, 2) == rot1_pow(x_v4, 1),
        rot1_pow(g_v3, 3) == rot1_pow(x_v4, 2),
        rot1_pow(g_v3, 4) == rot1_pow(x_v4, 3),
        rot1_pow(g_v11, 0) == rot1_pow(x_v9, 2),
        rot1_pow(g_v11, 1) == rot1_pow(x_v9, 3),
        rot1_pow(g_v11, 2) == rot1_pow(x_v9, 4),
        rot1_pow(g_v11, 3) == rot1_pow(x_v9, 0),
        rot1_pow(g_v11, 4) == rot1_pow(x_v9, 1),
        rot1_pow(g_f, 0) == rot1_pow(x_f, 4),
        rot1_pow(g_f, 1) == rot1_pow(x_f, 0),
        rot1_pow(g_f, 2) == rot1_pow(x_f, 1),
        rot1_pow(g_f, 3) == rot1_pow(x_f, 2),
        rot1_pow(g_f, 4) == rot1_pow(x_f, 3),
        rot1_pow(g_f_v0, 0) == rot1_pow(x_f_v3, 0),
        rot1_pow(g_f_v0, 1) == rot1_pow(x_f_v3, 1),
        rot1_pow(g_f_v0, 2) == rot1_pow(x_f_v3, 2),
        rot1_pow(g_f_v0, 3) == rot1_pow(x_f_v3, 3),
        rot1_pow(g_f_v0, 4) == rot1_pow(x_f_v3, 4),
        rot1_pow(g_f_v1, 0) == rot1_pow(x_f_v4, 0),
        rot1_pow(g_f_v1, 1) == rot1_pow(x_f_v4, 1),
        rot1_pow(g_f_v1, 2) == rot1_pow(x_f_v4, 2),
        rot1_pow(g_f_v1, 3) == rot1_pow(x_f_v4, 3),
        rot1_pow(g_f_v1, 4) == rot1_pow(x_f_v4, 4),
        rot1_pow(g_f_v2, 0) == rot1_pow(x_f_v1, 1),
        rot1_pow(g_f_v2, 1) == rot1_pow(x_f_v1, 2),
        rot1_pow(g_f_v2, 2) == rot1_pow(x_f_v1, 3),
        rot1_pow(g_f_v2, 3) == rot1_pow(x_f_v1, 4),
        rot1_pow(g_f_v2, 4) == rot1_pow(x_f_v1, 0),
        rot1_pow(g_f_v4, 0) == rot1_pow(x_f_v6, 0),
        rot1_pow(g_f_v4, 1) == rot1_pow(x_f_v6, 1),
        rot1_pow(g_f_v4, 2) == rot1_pow(x_f_v6, 2),
        rot1_pow(g_f_v4, 3) == rot1_pow(x_f_v6, 3),
        rot1_pow(g_f_v4, 4) == rot1_pow(x_f_v6, 4),
        rot1_pow(g_f_v6, 0) == rot1_pow(x_f_v9, 0),
        rot1_pow(g_f_v6, 1) == rot1_pow(x_f_v9, 1),
        rot1_pow(g_f_v6, 2) == rot1_pow(x_f_v9, 2),
        rot1_pow(g_f_v6, 3) == rot1_pow(x_f_v9, 3),
        rot1_pow(g_f_v6, 4) == rot1_pow(x_f_v9, 4),
        rot1_pow(g_f_v7, 0) == rot1_pow(x_f_v0, 0),
        rot1_pow(g_f_v7, 1) == rot1_pow(x_f_v0, 1),
        rot1_pow(g_f_v7, 2) == rot1_pow(x_f_v0, 2),
        rot1_pow(g_f_v7, 3) == rot1_pow(x_f_v0, 3),
        rot1_pow(g_f_v7, 4) == rot1_pow(x_f_v0, 4),
        rot1_pow(g_f_v8, 0) == rot1_pow(x_f_v7, 0),
        rot1_pow(g_f_v8, 1) == rot1_pow(x_f_v7, 1),
        rot1_pow(g_f_v8, 2) == rot1_pow(x_f_v7, 2),
        rot1_pow(g_f_v8, 3) == rot1_pow(x_f_v7, 3),
        rot1_pow(g_f_v8, 4) == rot1_pow(x_f_v7, 4),
        rot1_pow(g_f_v5, 0) == rot1_pow(x_f_v8, 0),
        rot1_pow(g_f_v5, 1) == rot1_pow(x_f_v8, 1),
        rot1_pow(g_f_v5, 2) == rot1_pow(x_f_v8, 2),
        rot1_pow(g_f_v5, 3) == rot1_pow(x_f_v8, 3),
        rot1_pow(g_f_v5, 4) == rot1_pow(x_f_v8, 4),
        rot1_pow(g_f_v9, 0) == rot1_pow(x_f_v2, 4),
        rot1_pow(g_f_v9, 1) == rot1_pow(x_f_v2, 0),
        rot1_pow(g_f_v9, 2) == rot1_pow(x_f_v2, 1),
        rot1_pow(g_f_v9, 3) == rot1_pow(x_f_v2, 2),
        rot1_pow(g_f_v9, 4) == rot1_pow(x_f_v2, 3),
        rot1_pow(g_f_v3, 0) == rot1_pow(x_f_v5, 0),
        rot1_pow(g_f_v3, 1) == rot1_pow(x_f_v5, 1),
        rot1_pow(g_f_v3, 2) == rot1_pow(x_f_v5, 2),
        rot1_pow(g_f_v3, 3) == rot1_pow(x_f_v5, 3),
        rot1_pow(g_f_v3, 4) == rot1_pow(x_f_v5, 4),
        rot1_pow(g_f_v11, 0) == rot1_pow(x_f_v11, 1),
        rot1_pow(g_f_v11, 1) == rot1_pow(x_f_v11, 2),
        rot1_pow(g_f_v11, 2) == rot1_pow(x_f_v11, 3),
        rot1_pow(g_f_v11, 3) == rot1_pow(x_f_v11, 4),
        rot1_pow(g_f_v11, 4) == rot1_pow(x_f_v11, 0),
{
}

/// Each image of `rot2_spec(y)` under the hundred and twenty words is an image of
/// `y`.
proof fn lemma_orbit_values_rot2(y: u32)
    requires
        is_edge_set(y),
    ensures
        orbit_value(rot2_spec(y), 0, 0, 0) == orbit_value(y, 0, 1, 0),
        orbit_value(rot2_spec(y), 0, 0, 1) == orbit_value(y, 0, 1, 1),
        orbit_value(rot2_spec(y), 0, 0, 2) == orbit_value(y, 0, 1, 2),
        orbit_value(rot2_spec(y), 0, 0, 3) == orbit_value(y, 0, 1, 3),
        orbit_value(rot2_spec(y), 0, 0, 4) == orbit_value(y, 0, 1, 4),
        orbit_value(rot2_spec(y), 0, 1, 0) == orbit_value(y, 0, 2, 0),
        orbit_value(rot2_spec(y), 0, 1, 1) == orbit_value(y, 0, 2, 1),
        orbit_value(rot2_spec(y), 0, 1, 2) == orbit_value(y, 0, 2, 2),
        orbit_value(rot2_spec(y), 0, 1, 3) == orbit_value(y, 0, 2, 3),
        orbit_value(rot2_spec(y), 0, 1, 4) == orbit_value(y, 0, 2, 4),
        orbit_value(rot2_spec(y), 0, 2, 0) == orbit_value(y, 0, 3, 0),
        orbit_value(rot2_spec(y), 0, 2, 1) == orbit_value(y, 0, 3, 1),
        orbit_value(rot2_spec(y), 0, 2, 2) == orbit_value(y, 0, 3, 2),
        orbit_value(rot2_spec(y), 0, 2, 3) == orbit_value(y, 0, 3, 3),
        orbit_value(rot2_spec(y), 0, 2, 4) == orbit_value(y, 0, 3, 4),
        orbit_value(rot2_spec(y), 0, 3, 0) == orbit_value(y, 0, 7, 2),
        orbit_value(rot2_spec(y), 0, 3, 1) == orbit_value(y, 0, 7, 3),
        orbit_value(rot2_spec(y), 0, 3, 2) == orbit_value(y, 0, 7, 4),
        orbit_value(rot2_spec(y), 0, 3, 3) == orbit_value(y, 0, 7, 0),
        orbit_value(rot2_spec(y), 0, 3, 4) == orbit_value(y, 0, 7, 1),
        orbit_value(rot2_spec(y), 0, 4, 0) == orbit_value(y, 0, 11, 0),
        orbit_value(rot2_spec(y), 0, 4, 1) == orbit_value(y, 0, 11, 1),
        orbit_value(rot2_spec(y), 0, 4, 2) == orbit_value(y, 0, 11, 2),
        orbit_value(rot2_spec(y), 0, 4, 3) == orbit_value(y, 0, 11, 3),
        orbit_value(rot2_spec(y), 0, 4, 4) == orbit_value(y, 0, 11, 4),
        orbit_value(rot2_spec(y), 0, 5, 0) == orbit_value(y, 0, 5, 4),
        orbit_value(rot2_spec(y), 0, 5, 1) == orbit_value(y, 0, 5, 0),
        orbit_value(rot2_spec(y), 0, 5, 2) == orbit_value(y, 0, 5, 1),
        orbit_value(rot2_spec(y), 0, 5, 3) == orbit_value(y, 0, 5, 2),
        orbit_value(rot2_spec(y), 0, 5, 4) == orbit_value(y, 0, 5, 3),
        orbit_value(rot2_spec(y), 0, 6, 0) == orbit_value(y, 0, 6, 1),
        orbit_value(rot2_spec(y), 0, 6, 1) == orbit_value(y, 0, 6, 2),
        orbit_value(rot2_spec(y), 0, 6, 2) == orbit_value(y, 0, 6, 3),
        orbit_value(rot2_spec(y), 0, 6, 3) == orbit_value(y, 0, 6, 4),
        orbit_value(rot2_spec(y), 0, 6, 4) == orbit_value(y, 0, 6, 0),
        orbit_value(rot2_spec(y), 0, 7, 0) == orbit_value(y, 0, 0, 3),
        orbit_value(rot2_spec(y), 0, 7, 1) == orbit_value(y, 0, 0, 4),
        orbit_value(rot2_spec(y), 0, 7, 2) == orbit_value(y, 0, 0, 0),
        orbit_value(rot2_spec(y), 0, 7, 3) == orbit_value(y, 0, 0, 1),
        orbit_value(rot2_spec(y), 0, 7, 4) == orbit_value(y, 0, 0, 2),
        orbit_value(rot2_spec(y), 0, 8, 0) == orbit_value(y, 0, 10, 4),
        orbit_value(rot2_spec(y), 0, 8, 1) == orbit_value(y, 0, 10, 0),
        orbit_value(rot2_spec(y), 0, 8, 2) == orbit_value(y, 0, 10, 1),
        orbit_value(rot2_spec(y), 0, 8, 3) == orbit_value(y, 0, 10, 2),
        orbit_value(rot2_spec(y), 0, 8, 4) == orbit_value(y, 0, 10, 3),
        orbit_value(rot2_spec(y), 0, 9, 0) == orbit_value(y, 0, 8, 0),
        orbit_value(rot2_spec(y), 0, 9, 1) == orbit_value(y, 0, 8, 1),
        orbit_value(rot2_spec(y), 0, 9, 2) == orbit_value(y, 0, 8, 2),
        orbit_value(rot2_spec(y), 0, 9, 3) == orbit_value(y, 0, 8, 3),
        orbit_value(rot2_spec(y), 0, 9, 4) == orbit_value(y, 0, 8, 4),
        orbit_value(rot2_spec(y), 0, 10, 0) == orbit_value(y, 0, 4, 4),
        orbit_value(rot2_spec(y), 0, 10, 1) == orbit_value(y, 0, 4, 0),
        orbit_value(rot2_spec(y), 0, 10, 2) == orbit_value(y, 0, 4, 1),
        orbit_value(rot2_spec(y), 0, 10, 3) == orbit_value(y, 0, 4, 2),
        orbit_value(rot2_spec(y), 0, 10, 4) == orbit_value(y, 0, 4, 3),
        orbit_value(rot2_spec(y), 0, 11, 0) == orbit_value(y, 0, 9, 2),
        orbit_value(rot2_spec(y), 0, 11, 1) == orbit_value(y, 0, 9, 3),
        orbit_value(rot2_spec(y), 0, 11, 2) == orbit_value(y, 0, 9, 4),
        orbit_value(rot2_spec(y), 0, 11, 3) == orbit_value(y, 0, 9, 0),
        orbit_value(rot2_spec(y), 0, 11, 4) == orbit_value(y, 0, 9, 1),
        orbit_value(rot2_spec(y), 1, 0, 0) == orbit_value(y, 1, 0, 4),
        orbit_value(rot2_spec(y), 1, 0, 1) == orbit_value(y, 1, 0, 0),
        orbit_value(rot2_spec(y), 1, 0, 2) == orbit_value(y, 1, 0, 1),
        orbit_value(rot2_spec(y), 1, 0, 3) == orbit_value(y, 1, 0, 2),
        orbit_value(rot2_spec(y), 1, 0, 4) == orbit_value(y, 1, 0, 3),
        orbit_value(rot2_spec(y), 1, 1, 0) == orbit_value(y, 1, 10, 0),
        orbit_value(rot2_spec(y), 1, 1, 1) == orbit_value(y, 1, 10, 1),
        orbit_value(rot2_spec(y), 1, 1, 2) == orbit_value(y, 1, 10, 2),
        orbit_value(rot2_spec(y), 1, 1, 3) == orbit_value(y, 1, 10, 3),
        orbit_value(rot2_spec(y), 1, 1, 4) == orbit_value(y, 1, 10, 4),
        orbit_value(rot2_spec(y), 1, 2, 0) == orbit_value(y, 1, 4, 0),
        orbit_value(rot2_spec(y), 1, 2, 1) == orbit_value(y, 1, 4, 1),
        orbit_value(rot2_spec(y), 1, 2, 2) == orbit_value(y, 1, 4, 2),
        orbit_value(rot2_spec(y), 1, 2, 3) == orbit_value(y, 1, 4, 3),
        orbit_value(rot2_spec(y), 1, 2, 4) == orbit_value(y, 1, 4, 4),
        orbit_value(rot2_spec(y), 1, 3, 0) == orbit_value(y, 1, 2, 1),
        orbit_value(rot2_spec(y), 1, 3, 1) == orbit_value(y, 1, 2, 2),
        orbit_value(rot2_spec(y), 1, 3, 2) == orbit_value(y, 1, 2, 3),
        orbit_value(rot2_spec(y), 1, 3, 3) == orbit_value(y, 1, 2, 4),
        orbit_value(rot2_spec(y), 1, 3, 4) == orbit_value(y, 1, 2, 0),
        orbit_value(rot2_spec(y), 1, 4, 0) == orbit_value(y, 1, 5, 0),
        orbit_value(rot2_spec(y), 1, 4, 1) == orbit_value(y, 1, 5, 1),
        orbit_value(rot2_spec(y), 1, 4, 2) == orbit_value(y, 1, 5, 2),
        orbit_value(rot2_spec(y), 1, 4, 3) == orbit_value(y, 1, 5, 3),
        orbit_value(rot2_spec(y), 1, 4, 4) == orbit_value(y, 1, 5, 4),
        orbit_value(rot2_spec(y), 1, 5, 0) == orbit_value(y, 1, 9, 0),
        orbit_value(rot2_spec(y), 1, 5, 1) == orbit_value(y, 1, 9, 1),
        orbit_value(rot2_spec(y), 1, 5, 2) == orbit_value(y, 1, 9, 2),
        orbit_value(rot2_spec(y), 1, 5, 3) == orbit_value(y, 1, 9, 3),
        orbit_value(rot2_spec(y), 1, 5, 4) == orbit_value(y, 1, 9, 4),
        orbit_value(rot2_spec(y), 1, 6, 0) == orbit_value(y, 1, 1, 0),
        orbit_value(rot2_spec(y), 1, 6, 1) == orbit_value(y, 1, 1, 1),
        orbit_value(rot2_spec(y), 1, 6, 2) == orbit_value(y, 1, 1, 2),
        orbit_value(rot2_spec(y), 1, 6, 3) == orbit_value(y, 1, 1, 3),
        orbit_value(rot2_spec(y), 1, 6, 4) == orbit_value(y, 1, 1, 4),
        orbit_value(rot2_spec(y), 1, 7, 0) == orbit_value(y, 1, 6, 0),
        orbit_value(rot2_spec(y), 1, 7, 1) == orbit_value(y, 1, 6, 1),
        orbit_value(rot2_spec(y), 1, 7, 2) == orbit_value(y, 1, 6, 2),
        orbit_value(rot2_spec(y), 1, 7, 3) == orbit_value(y, 1, 6, 3),
        orbit_value(rot2_spec(y), 1, 7, 4) == orbit_value(y, 1, 6, 4),
        orbit_value(rot2_spec(y), 1, 8, 0) == orbit_value(y, 1, 7, 0),
        orbit_value(rot2_spec(y), 1, 8, 1) == orbit_value(y, 1, 7, 1),
        orbit_value(rot2_spec(y), 1, 8, 2) == orbit_value(y, 1, 7, 2),
        orbit_value(rot2_spec(y), 1, 8, 3) == orbit_value(y, 1, 7, 3),
        orbit_value(rot2_spec(y), 1, 8, 4) == orbit_value(y, 1, 7, 4),
        orbit_value(rot2_spec(y), 1, 9, 0) == orbit_value(y, 1, 3, 4),
        orbit_value(rot2_spec(y), 1, 9, 1) == orbit_value(y, 1, 3, 0),
        orbit_value(rot2_spec(y), 1, 9, 2) == orbit_value(y, 1, 3, 1),
        orbit_value(rot2_spec(y), 1, 9, 3) == orbit_value(y, 1, 3, 2),
        orbit_value(rot2_spec(y), 1, 9, 4) == orbit_value(y, 1, 3, 3),
        orbit_value(rot2_spec(y), 1, 10, 0) == orbit_value(y, 1, 8, 0),
        orbit_value(rot2_spec(y), 1, 10, 1) == orbit_value(y, 1, 8, 1),
        orbit_value(rot2_spec(y), 1, 10, 2) == orbit_value(y, 1, 8, 2),
        orbit_value(rot2_spec(y), 1, 10, 3) == orbit_value(y, 1, 8, 3),
        orbit_value(rot2_spec(y), 1, 10, 4) == orbit_value(y, 1, 8, 4),
        orbit_value(rot2_spec(y), 1, 11, 0) == orbit_value(y, 1, 11, 1),
        orbit_value(rot2_spec(y), 1, 11, 1) == orbit_value(y, 1, 11, 2),
        orbit_value(rot2_spec(y), 1, 11, 2) == orbit_value(y, 1, 11, 3),
        orbit_value(rot2_spec(y), 1, 11, 3) == orbit_value(y, 1, 11, 4),
        orbit_value(rot2_spec(y), 1, 11, 4) == orbit_value(y, 1, 11, 0),
{
    let gy = rot2_spec(y);
    let x_f = flip_spec(y);
    let x_v0 = rot2_spec(y);
    let x_v1 = rot2_spec(x_v0);
    let x_v2 = rot2_spec(x_v1);
    let x_v3 = rot2_spec(rot1_spec(rot1_spec(rot1_spec(rot1_spec(y)))));
    let x_v4 = rot2_spec(x_v3);
    let x_v5 = rot2_spec(rot1_spec(rot1_spec(rot1_spec(y))));
    let x_v6 = rot2_spec(x_v5);
    let x_v7 = rot2_spec(rot1_spec(y));
    let x_v8 = rot2_spec(rot1_spec(rot1_spec(y)));
    let x_v9 = rot2_spec(x_v8);
    let x_v10 = rot2_spec(rot1_spec(rot1_spec(rot1_spec(rot1_spec(x_v0)))));
    let x_v11 = rot2_spec(x_v10);
    let x_f_v0 = rot2_spec(x_f);
    let x_f_v1 = rot2_spec(x_f_v0);
    let x_f_v2 = rot2_spec(x_f_v1);
    let x_f_v3 = rot2_spec(rot1_spec(rot1_spec(rot1_spec(rot1_spec(x_f)))));
    let x_f_v4 = rot2_spec(x_f_v3);
    let x_f_v5 = rot2_spec(rot1_spec(rot1_spec(rot1_spec(x_f))));
    let x_f_v6 = rot2_spec(x_f_v5);
    let x_f_v7 = rot2_spec(rot1_spec(x_f));
    let x_f_v8 = rot2_spec(rot1_spec(rot1_spec(x_f)));
    let x_f_v9 = rot2_spec(x_f_v8);
    let x_f_v10 = rot2_spec(rot1_spec(rot1_spec(rot1_spec(rot1_spec(x_f_v0)))));
    let x_f_v11 = rot2_spec(x_f_v10);
    let g_f = flip_spec(gy);
    let g_v0 = rot2_spec(gy);
    let g_v1 = rot2_spec(g_v0);
    let g_v2 = rot2_spec(g_v1);
    let g_v3 = rot2_spec(rot1_spec(rot1_spec(rot1_spec(rot1_spec(gy)))));
    let g_v4 = rot2_spec(g_v3);
    let g_v5 = rot2_spec(rot1_spec(rot1_spec(rot1_spec(gy))));
    let g_v6 = rot2_spec(g_v5);
    let g_v7 = rot2_spec(rot1_spec(gy));
    let g_v8 = rot2_spec(rot1_spec(rot1_spec(gy)));
    let g_v9 = rot2_spec(g_v8);
    let g_v10 = rot2_spec(rot1_spec(rot1_spec(rot1_spec(rot1_spec(g_v0)))));
    let g_v11 = rot2_spec(g_v10);
    let g_f_v0 = rot2_spec(g_f);
    let g_f_v1 = rot2_spec(g_f_v0);
    let g_f_v2 = rot2_spec(g_f_v1);
    let g_f_v3 = rot2_spec(rot1_spec(rot1_spec(rot1_spec(rot1_spec(g_f)))));
    let g_f_v4 = rot2_spec(g_f_v3);
    let g_f_v5 = rot2_spec(rot1_spec(rot1_spec(rot1_spec(g_f))));
    let g_f_v6 = rot2_spec(g_f_v5);
    let g_f_v7 = rot2_spec(rot1_spec(g_f));
    let g_f_v8 = rot2_spec(rot1_spec(rot1_spec(g_f)));
    let g_f_v9 = rot2_spec(g_f_v8);
    let g_f_v10 = rot2_spec(rot1_spec(rot1_spec(rot1_spec(rot1_spec(g_f_v0)))));
    let g_f_v11 = rot2_spec(g_f_v10);
    lemma_words_rot2_bits(y, gy, x_f, x_v0, x_v1, x_v2, x_v3, x_v4, x_v5, x_v6, x_v7, x_v8, x_v9, x_v10, x_v11, x_f_v0, x_f_v1, x_f_v2, x_f_v3, x_f_v4, x_f_v5, x_f_v6, x_f_v7, x_f_v8, x_f_v9, x_f_v10, x_f_v11, g_f, g_v0, g_v1, g_v2, g_v3, g_v4, g_v5, g_v6, g_v7, g_v8, g_v9, g_v10, g_v11, g_f_v0, g_f_v1, g_f_v2, g_f_v3, g_f_v4, g_f_v5, g_f_v6, g_f_v7, g_f_v8, g_f_v9, g_f_v10, g_f_v11);
}

proof fn lemma_min_repr_rot2_ge(y: u32)
    requires
        is_edge_set(y),
    ensures
        min_repr_spec(rot2_spec(y)) >= min_repr_spec(y),
{
    let (f, c, a) = lemma_min_repr_attained(rot2_spec(y));
    lemma_orbit_values_rot2(y);
    lemma_min_repr_le(y);
    assert(f == 0 || f == 1);
    assert(c == 0 || c == 1 || c == 2 || c == 3 || c == 4 || c == 5 || c == 6 || c == 7 || c == 8 || c == 9 || c == 10 || c == 11);
    assert(a == 0 || a == 1 || a == 2 || a == 3 || a == 4);
}

/// The images of `flip_spec(y)` under the hundred and twenty words, matched one
/// by one with images of `y`, computed bit by bit.
proof fn lemma_words_flip_bits(
    y: u32,
    gy: u32,
    x_f: u32,
    x_v0: u32,
    x_v1: u32,
    x_v2: u32,
    x_v3: u32,
    x_v4: u32,
    x_v5: u32,
    x_v6: u32,
    x_v7: u32,
    x_v8: u32,
    x_v9: u32,
    x_v10: u32,
    x_v11: u32,
    x_f_v0: u32,
    x_f_v1: u32,
    x_f_v2: u32,
    x_f_v3: u32,
    x_f_v4: u32,
    x_f_v5: u32,
    x_f_v6: u32,
    x_f_v7: u32,
    x_f_v8: u32,
    x_f_v9: u32,
    x_f_v10: u32,
    x_f_v11: u32,
    g_f: u32,
    g_v0: u32,
    g_v1: u32,
    g_v2: u32,
    g_v3: u32,
    g_v4: u32,
    g_v5: u32,
    g_v6: u32,
    g_v7: u32,
    g_v8: u32,
    g_v9: u32,
    g_v10: u32,
    g_v11: u32,
    g_f_v0: u32,
    g_f_v1: u32,
    g_f_v2: u32,
    g_f_v3: u32,
    g_f_v4: u32,
    g_f_v5: u32,
    g_f_v6: u32,
    g_f_v7: u32,
    g_f_v8: u32,
    g_f_v9: u32,
    g_f_v10: u32,
    g_f_v11: u32,
)
    by (bit_vector)
    requires
        y >> 30u32 == 0,
        gy == flip_spec(y),
        x_f == flip_spec(y),
        x_v0 == rot2_spec(y),
        x_v1 == rot2_spec(x_v0),
        x_v2 == rot2_spec(x_v1),
        x_v3 == rot2_spec(rot1_spec(rot1_spec(rot1_spec(rot1_spec(y))))),
        x_v4 == rot2_spec(x_v3),
        x_v5 == rot2_spec(rot1_spec(rot1_spec(rot1_spec(y)))),
        x_v6 == rot2_spec(x_v5),
        x_v7 == rot2_spec(rot1_spec(y)),
        x_v8 == rot2_spec(rot1_spec(rot1_spec(y))),
        x_v9 == rot2_spec(x_v8),
        x_v10 == rot2_spec(rot1_spec(rot1_spec(rot1_spec(rot1_spec(x_v0))))),
        x_v11 == rot2_spec(x_v10),
        x_f_v0 == rot2_spec(x_f),
        x_f_v1 == rot2_spec(x_f_v0),
        x_f_v2 == rot2_spec(x_f_v1),
        x_f_v3 == rot2_spec(rot1_spec(rot1_spec(rot1_spec(rot1_spec(x_f))))),
        x_f_v4 == rot2_spec(x_f_v3),
        x_f_v5 == rot2_spec(rot1_spec(rot1_spec(rot1_spec(x_f)))),
        x_f_v6 == rot2_spec(x_f_v5),
        x_f_v7 == rot2_spec(rot1_spec(x_f)),
        x_f_v8 == rot2_spec(rot1_spec(rot1_spec(x_f))),
        x_f_v9 == rot2_spec(x_f_v8),
        x_f_v10 == rot2_spec(rot1_spec(rot1_spec(rot1_spec(rot1_spec(x_f_v0))))),
        x_f_v11 == rot2_spec(x_f_v10),
        g_f == flip_spec(gy),
        g_v0 == rot2_spec(gy),
        g_v1 == rot2_spec(g_v0),
        g_v2 == rot2_spec(g_v1),
        g_v3 == rot2_spec(rot1_spec(rot1_spec(rot1_spec(rot1_spec(gy))))),
        g_v4 == rot2_spec(g_v3),
        g_v5 == rot2_spec(rot1_spec(rot1_spec(rot1_spec(gy)))),
        g_v6 == rot2_spec(g_v5),
        g_v7 == rot2_spec(rot1_spec(gy)),
        g_v8 == rot2_spec(rot1_spec(rot1_spec(gy))),
        g_v9 == rot2_spec(g_v8),
        g_v10 == rot2_spec(rot1_spec(rot1_spec(rot1_spec(rot1_spec(g_v0))))),
        g_v11 == rot2_spec(g_v10),
        g_f_v0 == rot2_spec(g_f),
        g_f_v1 == rot2_spec(g_f_v0),
        g_f_v2 == rot2_spec(g_f_v1),
        g_f_v3 == rot2_spec(rot1_spec(rot1_spec(rot1_spec(rot1_spec(g_f))))),
        g_f_v4 == rot2_spec(g_f_v3),
        g_f_v5 == rot2_spec(rot1_spec(rot1_spec(rot1_spec(g_f)))),
        g_f_v6 == rot2_spec(g_f_v5),
        g_f_v7 == rot2_spec(rot1_spec(g_f)),
        g_f_v8 == rot2_spec(rot1_spec(rot1_spec(g_f))),
        g_f_v9 == rot2_spec(g_f_v8),
        g_f_v10 == rot2_spec(rot1_spec(rot1_spec(rot1_spec(rot1_spec(g_f_v0))))),
        g_f_v11 == rot2_spec(g_f_v10),
    ensures
        rot1_pow(gy, 0) == rot1_pow(x_f, 0),
        rot1_pow(gy, 1) == rot1_pow(x_f, 1),
        rot1_pow(gy, 2) == rot1_pow(x_f, 2),
        rot1_pow(gy, 3) == rot1_pow(x_f, 3),
        rot1_pow(gy, 4) == rot1_pow(x_f, 4),
        rot1_pow(g_v0, 0) == rot1_pow(x_f_v0, 0),
        rot1_pow(g_v0, 1) == rot1_pow(x_f_v0, 1),
        rot1_pow(g_v0, 2) == rot1_pow(x_f_v0, 2),
        rot1_pow(g_v0, 3) == rot1_pow(x_f_v0, 3),
        rot1_pow(g_v0, 4) == rot1_pow(x_f_v0, 4),
        rot1_pow(g_v1, 0) == rot1_pow(x_f_v1, 0),
        rot1_pow(g_v1, 1) == rot1_pow(x_f_v1, 1),
        rot1_pow(g_v1, 2) == rot1_pow(x_f_v1, 2),
        rot1_pow(g_v1, 3) == rot1_pow(x_f_v1, 3),
        rot1_pow(g_v1, 4) == rot1_pow(x_f_v1, 4),
        rot1_pow(g_v2, 0) == rot1_pow(x_f_v2, 0),
        rot1_pow(g_v2, 1) == rot1_pow(x_f_v2, 1),
        rot1_pow(g_v2, 2) == rot1_pow(x_f_v2, 2),
        rot1_pow(g_v2, 3) == rot1_pow(x_f_v2, 3),
        rot1_pow(g_v2, 4) == rot1_pow(x_f_v2, 4),
        rot1_pow(g_v4, 0) == rot1_pow(x_f_v4, 0),
        rot1_pow(g_v4, 1) == rot1_pow(x_f_v4, 1),
        rot1_pow(g_v4, 2) == rot1_pow(x_f_v4, 2),
        rot1_pow(g_v4, 3) == rot1_pow(x_f_v4, 3),
        rot1_pow(g_v4, 4) == rot1_pow(x_f_v4, 4),
        rot1_pow(g_v6, 0) == rot1_pow(x_f_v6, 0),
        rot1_pow(g_v6, 1) == rot1_pow(x_f_v6, 1),
        rot1_pow(g_v6, 2) == rot1_pow(x_f_v6, 2),
        rot1_pow(g_v6, 3) == rot1_pow(x_f_v6, 3),
        rot1_pow(g_v6, 4) == rot1_pow(x_f_v6, 4),
        rot1_pow(g_v7, 0) == rot1_pow(x_f_v7, 0),
        rot1_pow(g_v7, 1) == rot1_pow(x_f_v7, 1),
        rot1_pow(g_v7, 2) == rot1_pow(x_f_v7, 2),
        rot1_pow(g_v7, 3) == rot1_pow(x_f_v7, 3),
        rot1_pow(g_v7, 4) == rot1_pow(x_f_v7, 4),
        rot1_pow(g_v8, 0) == rot1_pow(x_f_v8, 0),
        rot1_pow(g_v8, 1) == rot1_pow(x_f_v8, 1),
        rot1_pow(g_v8, 2) == rot1_pow(x_f_v8, 2),
        rot1_pow(g_v8, 3) == rot1_pow(x_f_v8, 3),
        rot1_pow(g_v8, 4) == rot1_pow(x_f_v8, 4),
        rot1_pow(g_v5, 0) == rot1_pow(x_f_v5, 0),
        rot1_pow(g_v5, 1) == rot1_pow(x_f_v5, 1),
        rot1_pow(g_v5, 2) == rot1_pow(x_f_v5, 2),
        rot1_pow(g_v5, 3) == rot1_pow(x_f_v5, 3),
        rot1_pow(g_v5, 4) == rot1_pow(x_f_v5, 4),
        rot1_pow(g_v9, 0) == rot1_pow(x_f_v9, 0),
        rot1_pow(g_v9, 1) == rot1_pow(x_f_v9, 1),
        rot1_pow(g_v9, 2) == rot1_pow(x_f_v9, 2),
        rot1_pow(g_v9, 3) == rot1_pow(x_f_v9, 3),
        rot1_pow(g_v9, 4) == rot1_pow(x_f_v9, 4),
        rot1_pow(g_v3, 0) == rot1_pow(x_f_v3, 0),
        rot1_pow(g_v3, 1) == rot1_pow(x_f_v3, 1),
        rot1_pow(g_v3, 2) == rot1_pow(x_f_v3, 2),
        rot1_pow(g_v3, 3) == rot1_pow(x_f_v3, 3),
        rot1_pow(g_v3, 4) == rot1_pow(x_f_v3, 4),
        rot1_pow(g_v11, 0) == rot1_pow(x_f_v11, 0),
        rot1_pow(g_v11, 1) == rot1_pow(x_f_v11, 1),
        rot1_pow(g_v11, 2) == rot1_pow(x_f_v11, 2),
        rot1_pow(g_v11, 3) == rot1_pow(x_f_v11, 3),
        rot1_pow(g_v11, 4) == rot1_pow(x_f_v11, 4),
        rot1_pow(g_f, 0) == rot1_pow(y, 0),
        rot1_pow(g_f, 1) == rot1_pow(y, 1),
        rot1_pow(g_f, 2) == rot1_pow(y, 2),
        rot1_pow(g_f, 3) == rot1_pow(y, 3),
        rot1_pow(g_f, 4) == rot1_pow(y, 4),
        rot1_pow(g_f_v0, 0) == rot1_pow(x_v0, 0),
        rot1_pow(g_f_v0, 1) == rot1_pow(x_v0, 1),
        rot1_pow(g_f_v0, 2) == rot1_pow(x_v0, 2),
        rot1_pow(g_f_v0, 3) == rot1_pow(x_v0, 3),
        rot1_pow(g_f_v0, 4) == rot1_pow(x_v0, 4),
        rot1_pow(g_f_v1, 0) == rot1_pow(x_v1, 0),
        rot1_pow(g_f_v1, 1) == rot1_pow(x_v1, 1),
        rot1_pow(g_f_v1, 2) == rot1_pow(x_v1, 2),
        rot1_pow(g_f_v1, 3) == rot1_pow(x_v1, 3),
        rot1_pow(g_f_v1, 4) == rot1_pow(x_v1, 4),
        rot1_pow(g_f_v2, 0) == rot1_pow(x_v2, 0),
        rot1_pow(g_f_v2, 1) == rot1_pow(x_v2, 1),
        rot1_pow(g_f_v2, 2) == rot1_pow(x_v2, 2),
        rot1_pow(g_f_v2, 3) == rot1_pow(x_v2, 3),
        rot1_pow(g_f_v2, 4) == rot1_pow(x_v2, 4),
        rot1_pow(g_f_v4, 0) == rot1_pow(x_v4, 0),
        rot1_pow(g_f_v4, 1) == rot1_pow(x_v4, 1),
        rot1_pow(g_f_v4, 2) == rot1_pow(x_v4, 2),
        rot1_pow(g_f_v4, 3) == rot1_pow(x_v4, 3),
        rot1_pow(g_f_v4, 4) == rot1_pow(x_v4, 4),
        rot1_pow(g_f_v6, 0) == rot1_pow(x_v6, 0),
        rot1_pow(g_f_v6, 1) == rot1_pow(x_v6, 1),
        rot1_pow(g_f_v6, 2) == rot1_pow(x_v6, 2),
        rot1_pow(g_f_v6, 3) == rot1_pow(x_v6, 3),
        rot1_pow(g_f_v6, 4) == rot1_pow(x_v6, 4),
        rot1_pow(g_f_v7, 0) == rot1_pow(x_v7, 0),
        rot1_pow(g_f_v7, 1) == rot1_pow(x_v7, 1),
        rot1_pow(g_f_v7, 2) == rot1_pow(x_v7, 2),
        rot1_pow(g_f_v7, 3) == rot1_pow(x_v7, 3),
        rot1_pow(g_f_v7, 4) == rot1_pow(x_v7, 4),
        rot1_pow(g_f_v8, 0) == rot1_pow(x_v8, 0),
        rot1_pow(g_f_v8, 1) == rot1_pow(x_v8, 1),
        rot1_pow(g_f_v8, 2) == rot1_pow(x_v8, 2),
        rot1_pow(g_f_v8, 3) == rot1_pow(x_v8, 3),
        rot1_pow(g_f_v8, 4) == rot1_pow(x_v8, 4),
        rot1_pow(g_f_v5, 0) == rot1_pow(x_v5, 0),
        rot1_pow(g_f_v5, 1) == rot1_pow(x_v5, 1),
        rot1_pow(g_f_v5, 2) == rot1_pow(x_v5, 2),
        rot1_pow(g_f_v5, 3) == rot1_pow(x_v5, 3),
        rot1_pow(g_f_v5, 4) == rot1_pow(x_v5, 4),
        rot1_pow(g_f_v9, 0) == rot1_pow(x_v9, 0),
        rot1_pow(g_f_v9, 1) == rot1_pow(x_v9, 1),
        rot1_pow(g_f_v9, 2) == rot1_pow(x_v9, 2),
        rot1_pow(g_f_v9, 3) == rot1_pow(x_v9, 3),
        rot1_pow(g_f_v9, 4) == rot1_pow(x_v9, 4),
        rot1_pow(g_f_v3, 0) == rot1_pow(x_v3, 0),
        rot1_pow(g_f_v3, 1) == rot1_pow(x_v3, 1),
        rot1_pow(g_f_v3, 2) == rot1_pow(x_v3, 2),
        rot1_pow(g_f_v3, 3) == rot1_pow(x_v3, 3),
        rot1_pow(g_f_v3, 4) == rot1_pow(x_v3, 4),
        rot1_pow(g_f_v11, 0) == rot1_pow(x_v11, 0),
        rot1_pow(g_f_v11, 1) == rot1_pow(x_v11, 1),
        rot1_pow(g_f_v11, 2) == rot1_pow(x_v11, 2),
        rot1_pow(g_f_v11, 3) == rot1_pow(x_v11, 3),
        rot1_pow(g_f_v11, 4) == rot1_pow(x_v11, 4),
{
}

/// Each image of `flip_spec(y)` under the hundred and twenty words is an image of
/// `y`.
proof fn lemma_orbit_values_flip(y: u32)
    requires
        is_edge_set(y),
    ensures
        orbit_value(flip_spec(y), 0, 0, 0) == orbit_value(y, 1, 0, 0),
        orbit_value(flip_spec(y), 0, 0, 1) == orbit_value(y, 1, 0, 1),
        orbit_value(flip_spec(y), 0, 0, 2) == orbit_value(y, 1, 0, 2),
        orbit_value(flip_spec(y), 0, 0, 3) == orbit_value(y, 1, 0, 3),
        orbit_value(flip_spec(y), 0, 0, 4) == orbit_value(y, 1, 0, 4),
        orbit_value(flip_spec(y), 0, 1, 0) == orbit_value(y, 1, 1, 0),
        orbit_value(flip_spec(y), 0, 1, 1) == orbit_value(y, 1, 1, 1),
        orbit_value(flip_spec(y), 0, 1, 2) == orbit_value(y, 1, 1, 2),
        orbit_value(flip_spec(y), 0, 1, 3) == orbit_value(y, 1, 1, 3),
        orbit_value(flip_spec(y), 0, 1, 4) == orbit_value(y, 1, 1, 4),
        orbit_value(flip_spec(y), 0, 2, 0) == orbit_value(y, 1, 2, 0),
        orbit_value(flip_spec(y), 0, 2, 1) == orbit_value(y, 1, 2, 1),
        orbit_value(flip_spec(y), 0, 2, 2) == orbit_value(y, 1, 2, 2),
        orbit_value(flip_spec(y), 0, 2, 3) == orbit_value(y, 1, 2, 3),
        orbit_value(flip_spec(y), 0, 2, 4) == orbit_value(y, 1, 2, 4),
        orbit_value(flip_spec(y), 0, 3, 0) == orbit_value(y, 1, 3, 0),
        orbit_value(flip_spec(y), 0, 3, 1) == orbit_value(y, 1, 3, 1),
        orbit_value(flip_spec(y), 0, 3, 2) == orbit_value(y, 1, 3, 2),
        orbit_value(flip_spec(y), 0, 3, 3) == orbit_value(y, 1, 3, 3),
        orbit_value(flip_spec(y), 0, 3, 4) == orbit_value(y, 1, 3, 4),
        orbit_value(flip_spec(y), 0, 4, 0) == orbit_value(y, 1, 4, 0),
        orbit_value(flip_spec(y), 0, 4, 1) == orbit_value(y, 1, 4, 1),
        orbit_value(flip_spec(y), 0, 4, 2) == orbit_value(y, 1, 4, 2),
        orbit_value(flip_spec(y), 0, 4, 3) == orbit_value(y, 1, 4, 3),
        orbit_value(flip_spec(y), 0, 4, 4) == orbit_value(y, 1, 4, 4),
        orbit_value(flip_spec(y), 0, 5, 0) == orbit_value(y, 1, 5, 0),
        orbit_value(flip_spec(y), 0, 5, 1) == orbit_value(y, 1, 5, 1),
        orbit_value(flip_spec(y), 0, 5, 2) == orbit_value(y, 1, 5, 2),
        orbit_value(flip_spec(y), 0, 5, 3) == orbit_value(y, 1, 5, 3),
        orbit_value(flip_spec(y), 0, 5, 4) == orbit_value(y, 1, 5, 4),
        orbit_value(flip_spec(y), 0, 6, 0) == orbit_value(y, 1, 6, 0),
        orbit_value(flip_spec(y), 0, 6, 1) == orbit_value(y, 1, 6, 1),
        orbit_value(flip_spec(y), 0, 6, 2) == orbit_value(y, 1, 6, 2),
        orbit_value(flip_spec(y), 0, 6, 3) == orbit_value(y, 1, 6, 3),
        orbit_value(flip_spec(y), 0, 6, 4) == orbit_value(y, 1, 6, 4),
        orbit_value(flip_spec(y), 0, 7, 0) == orbit_value(y, 1, 7, 0),
        orbit_value(flip_spec(y), 0, 7, 1) == orbit_value(y, 1, 7, 1),
        orbit_value(flip_spec(y), 0, 7, 2) == orbit_value(y, 1, 7, 2),
        orbit_value(flip_spec(y), 0, 7, 3) == orbit_value(y, 1, 7, 3),
        orbit_value(flip_spec(y), 0, 7, 4) == orbit_value(y, 1, 7, 4),
        orbit_value(flip_spec(y), 0, 8, 0) == orbit_value(y, 1, 8, 0),
        orbit_value(flip_spec(y), 0, 8, 1) == orbit_value(y, 1, 8, 1),
        orbit_value(flip_spec(y), 0, 8, 2) == orbit_value(y, 1, 8, 2),
        orbit_value(flip_spec(y), 0, 8, 3) == orbit_value(y, 1, 8, 3),
        orbit_value(flip_spec(y), 0, 8, 4) == orbit_value(y, 1, 8, 4),
        orbit_value(flip_spec(y), 0, 9, 0) == orbit_value(y, 1, 9, 0),
        orbit_value(flip_spec(y), 0, 9, 1) == orbit_value(y, 1, 9, 1),
        orbit_value(flip_spec(y), 0, 9, 2) == orbit_value(y, 1, 9, 2),
        orbit_value(flip_spec(y), 0, 9, 3) == orbit_value(y, 1, 9, 3),
        orbit_value(flip_spec(y), 0, 9, 4) == orbit_value(y, 1, 9, 4),
        orbit_value(flip_spec(y), 0, 10, 0) == orbit_value(y, 1, 10, 0),
        orbit_value(flip_spec(y), 0, 10, 1) == orbit_value(y, 1, 10, 1),
        orbit_value(flip_spec(y), 0, 10, 2) == orbit_value(y, 1, 10, 2),
        orbit_value(flip_spec(y), 0, 10, 3) == orbit_value(y, 1, 10, 3),
        orbit_value(flip_spec(y), 0, 10, 4) == orbit_value(y, 1, 10, 4),
        orbit_value(flip_spec(y), 0, 11, 0) == orbit_value(y, 1, 11, 0),
        orbit_value(flip_spec(y), 0, 11, 1) == orbit_value(y, 1, 11, 1),
        orbit_value(flip_spec(y), 0, 11, 2) == orbit_value(y, 1, 11, 2),
        orbit_value(flip_spec(y), 0, 11, 3) == orbit_value(y, 1, 11, 3),
        orbit_value(flip_spec(y), 0, 11, 4) == orbit_value(y, 1, 11, 4),
        orbit_value(flip_spec(y), 1, 0, 0) == orbit_value(y, 0, 0, 0),
        orbit_value(flip_spec(y), 1, 0, 1) == orbit_value(y, 0, 0, 1),
        orbit_value(flip_spec(y), 1, 0, 2) == orbit_value(y, 0, 0, 2),
        orbit_value(flip_spec(y), 1, 0, 3) == orbit_value(y, 0, 0, 3),
        orbit_value(flip_spec(y), 1, 0, 4) == orbit_value(y, 0, 0, 4),
        orbit_value(flip_spec(y), 1, 1, 0) == orbit_value(y, 0, 1, 0),
        orbit_value(flip_spec(y), 1, 1, 1) == orbit_value(y, 0, 1, 1),
        orbit_value(flip_spec(y), 1, 1, 2) == orbit_value(y, 0, 1, 2),
        orbit_value(flip_spec(y), 1, 1, 3) == orbit_value(y, 0, 1, 3),
        orbit_value(flip_spec(y), 1, 1, 4) == orbit_value(y, 0, 1, 4),
        orbit_value(flip_spec(y), 1, 2, 0) == orbit_value(y, 0, 2, 0),
        orbit_value(flip_spec(y), 1, 2, 1) == orbit_value(y, 0, 2, 1),
        orbit_value(flip_spec(y), 1, 2, 2) == orbit_value(y, 0, 2, 2),
        orbit_value(flip_spec(y), 1, 2, 3) == orbit_value(y, 0, 2, 3),
        orbit_value(flip_spec(y), 1, 2, 4) == orbit_value(y, 0, 2, 4),
        orbit_value(flip_spec(y), 1, 3, 0) == orbit_value(y, 0, 3, 0),
        orbit_value(flip_spec(y), 1, 3, 1) == orbit_value(y, 0, 3, 1),
        orbit_value(flip_spec(y), 1, 3, 2) == orbit_value(y, 0, 3, 2),
        orbit_value(flip_spec(y), 1, 3, 3) == orbit_value(y, 0, 3, 3),
        orbit_value(flip_spec(y), 1, 3, 4) == orbit_value(y, 0, 3, 4),
        orbit_value(flip_spec(y), 1, 4, 0) == orbit_value(y, 0, 4, 0),
        orbit_value(flip_spec(y), 1, 4, 1) == orbit_value(y, 0, 4, 1),
        orbit_value(flip_spec(y), 1, 4, 2) == orbit_value(y, 0, 4, 2),
        orbit_value(flip_spec(y), 1, 4, 3) == orbit_value(y, 0, 4, 3),
        orbit_value(flip_spec(y), 1, 4, 4) == orbit_value(y, 0, 4, 4),
        orbit_value(flip_spec(y), 1, 5, 0) == orbit_value(y, 0, 5, 0),
        orbit_value(flip_spec(y), 1, 5, 1) == orbit_value(y, 0, 5, 1),
        orbit_value(flip_spec(y), 1, 5, 2) == orbit_value(y, 0, 5, 2),
        orbit_value(flip_spec(y), 1, 5, 3) == orbit_value(y, 0, 5, 3),
        orbit_value(flip_spec(y), 1, 5, 4) == orbit_value(y, 0, 5, 4),
        orbit_value(flip_spec(y), 1, 6, 0) == orbit_value(y, 0, 6, 0),
        orbit_value(flip_spec(y), 1, 6, 1) == orbit_value(y, 0, 6, 1),
        orbit_value(flip_spec(y), 1, 6, 2) == orbit_value(y, 0, 6, 2),
        orbit_value(flip_spec(y), 1, 6, 3) == orbit_value(y, 0, 6, 3),
        orbit_value(flip_spec(y), 1, 6, 4) == orbit_value(y, 0, 6, 4),
        orbit_value(flip_spec(y), 1, 7, 0) == orbit_value(y, 0, 7, 0),
        orbit_value(flip_spec(y), 1, 7, 1) == orbit_value(y, 0, 7, 1),
        orbit_value(flip_spec(y), 1, 7, 2) == orbit_value(y, 0, 7, 2),
        orbit_value(flip_spec(y), 1, 7, 3) == orbit_value(y, 0, 7, 3),
        orbit_value(flip_spec(y), 1, 7, 4) == orbit_value(y, 0, 7, 4),
        orbit_value(flip_spec(y), 1, 8, 0) == orbit_value(y, 0, 8, 0),
        orbit_value(flip_spec(y), 1, 8, 1) == orbit_value(y, 0, 8, 1),
        orbit_value(flip_spec(y), 1, 8, 2) == orbit_value(y, 0, 8, 2),
        orbit_value(flip_spec(y), 1, 8, 3) == orbit_value(y, 0, 8, 3),
        orbit_value(flip_spec(y), 1, 8, 4) == orbit_value(y, 0, 8, 4),
        orbit_value(flip_spec(y), 1, 9, 0) == orbit_value(y, 0, 9, 0),
        orbit_value(flip_spec(y), 1, 9, 1) == orbit_value(y, 0, 9, 1),
        orbit_value(flip_spec(y), 1, 9, 2) == orbit_value(y, 0, 9, 2),
        orbit_value(flip_spec(y), 1, 9, 3) == orbit_value(y, 0, 9, 3),
        orbit_value(flip_spec(y), 1, 9, 4) == orbit_value(y, 0, 9, 4),
        orbit_value(flip_spec(y), 1, 10, 0) == orbit_value(y, 0, 10, 0),
        orbit_value(flip_spec(y), 1, 10, 1) == orbit_value(y, 0, 10, 1),
        orbit_value(flip_spec(y), 1, 10, 2) == orbit_value(y, 0, 10, 2),
        orbit_value(flip_spec(y), 1, 10, 3) == orbit_value(y, 0, 10, 3),
        orbit_value(flip_spec(y), 1, 10, 4) == orbit_value(y, 0, 10, 4),
        orbit_value(flip_spec(y), 1, 11, 0) == orbit_value(y, 0, 11, 0),
        orbit_value(flip_spec(y), 1, 11, 1) == orbit_value(y, 0, 11, 1),
        orbit_value(flip_spec(y), 1, 11, 2) == orbit_value(y, 0, 11, 2),
        orbit_value(flip_spec(y), 1, 11, 3) == orbit_value(y, 0, 11, 3),
        orbit_value(flip_spec(y), 1, 11, 4) == orbit_value(y, 0, 11, 4),
{
    let gy = flip_spec(y);
    let x_f = flip_spec(y);
    let x_v0 = rot2_spec(y);
    let x_v1 = rot2_spec(x_v0);
    let x_v2 = rot2_spec(x_v1);
    let x_v3 = rot2_spec(rot1_spec(rot1_spec(rot1_spec(rot1_spec(y)))));
    let x_v4 = rot2_spec(x_v3);
    let x_v5 = rot2_spec(rot1_spec(rot1_spec(rot1_spec(y))));
    let x_v6 = rot2_spec(x_v5);
    let x_v7 = rot2_spec(rot1_spec(y));
    let x_v8 = rot2_spec(rot1_spec(rot1_spec(y)));
    let x_v9 = rot2_spec(x_v8);
    let x_v10 = rot2_spec(rot1_spec(rot1_spec(rot1_spec(rot1_spec(x_v0)))));
    let x_v11 = rot2_spec(x_v10);
    let x_f_v0 = rot2_spec(x_f);
    let x_f_v1 = rot2_spec(x_f_v0);
    let x_f_v2 = rot2_spec(x_f_v1);
    let x_f_v3 = rot2_spec(rot1_spec(rot1_spec(rot1_spec(rot1_spec(x_f)))));
    let x_f_v4 = rot2_spec(x_f_v3);
    let x_f_v5 = rot2_spec(rot1_spec(rot1_spec(rot1_spec(x_f))));
    let x_f_v6 = rot2_spec(x_f_v5);
    let x_f_v7 = rot2_spec(rot1_spec(x_f));
    let x_f_v8 = rot2_spec(rot1_spec(rot1_spec(x_f)));
    let x_f_v9 = rot2_spec(x_f_v8);
    let x_f_v10 = rot2_spec(rot1_spec(rot1_spec(rot1_spec(rot1_spec(x_f_v0)))));
    let x_f_v11 = rot2_spec(x_f_v10);
    let g_f = flip_spec(gy);
    let g_v0 = rot2_spec(gy);
    let g_v1 = rot2_spec(g_v0);
    let g_v2 = rot2_spec(g_v1);
    let g_v3 = rot2_spec(rot1_spec(rot1_spec(rot1_spec(rot1_spec(gy)))));
    let g_v4 = rot2_spec(g_v3);
    let g_v5 = rot2_spec(rot1_spec(rot1_spec(rot1_spec(gy))));
    let g_v6 = rot2_spec(g_v5);
    let g_v7 = rot2_spec(rot1_spec(gy));
    let g_v8 = rot2_spec(rot1_spec(rot1_spec(gy)));
    let g_v9 = rot2_spec(g_v8);
    let g_v10 = rot2_spec(rot1_spec(rot1_spec(rot1_spec(rot1_spec(g_v0)))));
    let g_v11 = rot2_spec(g_v10);
    let g_f_v0 = rot2_spec(g_f);
    let g_f_v1 = rot2_spec(g_f_v0);
    let g_f_v2 = rot2_spec(g_f_v1);
    let g_f_v3 = rot2_spec(rot1_spec(rot1_spec(rot1_spec(rot1_spec(g_f)))));
    let g_f_v4 = rot2_spec(g_f_v3);
    let g_f_v5 = rot2_spec(rot1_spec(rot1_spec(rot1_spec(g_f))));
    let g_f_v6 = rot2_spec(g_f_v5);
    let g_f_v7 = rot2_spec(rot1_spec(g_f));
    let g_f_v8 = rot2_spec(rot1_spec(rot1_spec(g_f)));
    let g_f_v9 = rot2_spec(g_f_v8);
    let g_f_v10 = rot2_spec(rot1_spec(rot1_spec(rot1_spec(rot1_spec(g_f_v0)))));
    let g_f_v11 = rot2_spec(g_f_v10);
    lemma_words_flip_bits(y, gy, x_f, x_v0, x_v1, x_v2, x_v3, x_v4, x_v5, x_v6, x_v7, x_v8, x_v9, x_v10, x_v11, x_f_v0, x_f_v1, x_f_v2, x_f_v3, x_f_v4, x_f_v5, x_f_v6, x_f_v7, x_f_v8, x_f_v9, x_f_v10, x_f_v11, g_f, g_v0, g_v1, g_v2, g_v3, g_v4, g_v5, g_v6, g_v7, g_v8, g_v9, g_v10, g_v11, g_f_v0, g_f_v1, g_f_v2, g_f_v3, g_f_v4, g_f_v5, g_f_v6, g_f_v7, g_f_v8, g_f_v9, g_f_v10, g_f_v11);
}

proof fn lemma_min_repr_flip_ge(y: u32)
    requires
        is_edge_set(y),
    ensures
        min_repr_spec(flip_spec(y)) >= min_repr_spec(y),
{
    let (f, c, a) = lemma_min_repr_attained(flip_spec(y));
    lemma_orbit_values_flip(y);
    lemma_min_repr_le(y);
    assert(f == 0 || f == 1);
    assert(c == 0 || c == 1 || c == 2 || c == 3 || c == 4 || c == 5 || c == 6 || c == 7 || c == 8 || c == 9 || c == 10 || c == 11);
    assert(a == 0 || a == 1 || a == 2 || a == 3 || a == 4);
}

/// Each coset representative of an edge set is an edge set with the same
/// canonical form.
proof fn lemma_coset_start_invariant(z: u32, c: int)
    requires
        is_edge_set(z),
    ensures
        is_edge_set(coset_start(z, c)),
        min_repr_spec(coset_start(z, c)) == min_repr_spec(z),
{
    if c == 0 {
    } else if c == 1 {
        lemma_rot2_edge_set(z);
        lemma_min_repr_rot2(z);
    } else if c == 2 {
        lemma_rot2_edge_set(z);
        lemma_min_repr_rot2(z);
        lemma_rot2_edge_set(rot2_spec(z));
        lemma_min_repr_rot2(rot2_spec(z));
    } else if c == 3 {
        lemma_rot2_edge_set(z);
        lemma_min_repr_rot2(z);
        lemma_rot2_edge_set(rot2_spec(z));
        lemma_min_repr_rot2(rot2_spec(z));
        lemma_rot2_edge_set(rot2_spec(rot2_spec(z)));
        lemma_min_repr_rot2(rot2_spec(rot2_spec(z)));
    } else if c == 4 {
        lemma_rot1_edge_set(z);
        lemma_min_repr_rot1(z);
        lemma_rot1_edge_set(rot1_spec(z));
        lemma_min_repr_rot1(rot1_spec(z));
        lemma_rot1_edge_set(rot1_spec(rot1_spec(z)));
        lemma_min_repr_rot1(rot1_spec(rot1_spec(z)));
        lemma_rot1_edge_set(rot1_spec(rot1_spec(rot1_spec(z))));
        lemma_min_repr_rot1(rot1_spec(rot1_spec(rot1_spec(z))));
        lemma_rot2_edge_set(rot1_spec(rot1_spec(rot1_spec(rot1_spec(z)))));
        lemma_min_repr_rot2(rot1_spec(rot1_spec(rot1_spec(rot1_spec(z)))));
        lemma_rot2_edge_set(rot2_spec(rot1_spec(rot1_spec(rot1_spec(rot1_spec(z))))));
        lemma_min_repr_rot2(rot2_spec(rot1_spec(rot1_spec(rot1_spec(rot1_spec(z))))));
    } else if c == 5 {
        lemma_rot1_edge_set(z);
        lemma_min_repr_rot1(z);
        lemma_rot1_edge_set(rot1_spec(z));
        lemma_min_repr_rot1(rot1_spec(z));
        lemma_rot1_edge_set(rot1_spec(rot1_spec(z)));
        lemma_min_repr_rot1(rot1_spec(rot1_spec(z)));
        lemma_rot2_edge_set(rot1_spec(rot1_spec(rot1_spec(z))));
        lemma_min_repr_rot2(rot1_spec(rot1_spec(rot1_spec(z))));
        lemma_rot2_edge_set(rot2_spec(rot1_spec(rot1_spec(rot1_spec(z)))));
        lemma_min_repr_rot2(rot2_spec(rot1_spec(rot1_spec(rot1_spec(z)))));
    } else if c == 6 {
        lemma_rot1_edge_set(z);
        lemma_min_repr_rot1(z);
        lemma_rot2_edge_set(rot1_spec(z));
        lemma_min_repr_rot2(rot1_spec(z));
    } else if c == 7 {
        lemma_rot1_edge_set(z);
        lemma_min_repr_rot1(z);
        lemma_rot1_edge_set(rot1_spec(z));
        lemma_min_repr_rot1(rot1_spec(z));
        lemma_rot2_edge_set(rot1_spec(rot1_spec(z)));
        lemma_min_repr_rot2(rot1_spec(rot1_spec(z)));
    } else if c == 8 {
        lemma_rot1_edge_set(z);
        lemma_min_repr_rot1(z);
        lemma_rot1_edge_set(rot1_spec(z));
        lemma_min_repr_rot1(rot1_spec(z));
        lemma_rot1_edge_set(rot1_spec(rot1_spec(z)));
        lemma_min_repr_rot1(rot1_spec(rot1_spec(z)));
        lemma_rot2_edge_set(rot1_spec(rot1_spec(rot1_spec(z))));
        lemma_min_repr_rot2(rot1_spec(rot1_spec(rot1_spec(z))));
    } else if c == 9 {
        lemma_rot1_edge_set(z);
        lemma_min_repr_rot1(z);
        lemma_rot1_edge_set(rot1_spec(z));
        lemma_min_repr_rot1(rot1_spec(z));
        lemma_rot2_edge_set(rot1_spec(rot1_spec(z)));
        lemma_min_repr_rot2(rot1_spec(rot1_spec(z)));
        lemma_rot2_edge_set(rot2_spec(rot1_spec(rot1_spec(z))));
        lemma_min_repr_rot2(rot2_spec(rot1_spec(rot1_spec(z))));
    } else if c == 10 {
        lemma_rot1_edge_set(z);
        lemma_min_repr_rot1(z);
        lemma_rot1_edge_set(rot1_spec(z));
        lemma_min_repr_rot1(rot1_spec(z));
        lemma_rot1_edge_set(rot1_spec(rot1_spec(z)));
        lemma_min_repr_rot1(rot1_spec(rot1_spec(z)));
        lemma_rot1_edge_set(rot1_spec(rot1_spec(rot1_spec(z))));
        lemma_min_repr_rot1(rot1_spec(rot1_spec(rot1_spec(z))));
        lemma_rot2_edge_set(rot1_spec(rot1_spec(rot1_spec(rot1_spec(z)))));
        lemma_min_repr_rot2(rot1_spec(rot1_spec(rot1_spec(rot1_spec(z)))));
    } else {
        lemma_rot2_edge_set(z);
        lemma_min_repr_rot2(z);
        lemma_rot1_edge_set(rot2_spec(z));
        lemma_min_repr_rot1(rot2_spec(z));
        lemma_rot1_edge_set(rot1_spec(rot2_spec(z)));
        lemma_min_repr_rot1(rot1_spec(rot2_spec(z)));
        lemma_rot1_edge_set(rot1_spec(rot1_spec(rot2_spec(z))));
        lemma_min_repr_rot1(rot1_spec(rot1_spec(rot2_spec(z))));
        lemma_rot1_edge_set(rot1_spec(rot1_spec(rot1_spec(rot2_spec(z)))));
        lemma_min_repr_rot1(rot1_spec(rot1_spec(rot1_spec(rot2_spec(z)))));
        lemma_rot2_edge_set(rot1_spec(rot1_spec(rot1_spec(rot1_spec(rot2_spec(z))))));
        lemma_min_repr_rot2(rot1_spec(rot1_spec(rot1_spec(rot1_spec(rot2_spec(z))))));
        lemma_rot2_edge_set(rot2_spec(rot1_spec(rot1_spec(rot1_spec(rot1_spec(rot2_spec(z)))))));
        lemma_min_repr_rot2(rot2_spec(rot1_spec(rot1_spec(rot1_spec(rot1_spec(rot2_spec(z)))))));
    }
}

/// The vertex rotation yields an edge set.
pub proof fn lemma_rot1_edge_set(x: u32)
    ensures
        is_edge_set(rot1_spec(x)),
{
    assert(rot1_spec(x) >> 30u32 == 0) by (bit_vector);
}

proof fn lemma_min_repr_rot1(y: u32)
    requires
        is_edge_set(y),
    ensures
        min_repr_spec(rot1_spec(y)) == min_repr_spec(y),
{
    let y1 = rot1_spec(y);
    let y2 = rot1_spec(y1);
    let y3 = rot1_spec(y2);
    let y4 = rot1_spec(y3);
    lemma_rot1_edge_set(y);
    lemma_rot1_edge_set(y1);
    lemma_rot1_edge_set(y2);
    lemma_rot1_edge_set(y3);
    lemma_rot1_order(y);
    lemma_min_repr_rot1_ge(y);
    lemma_min_repr_rot1_ge(y1);
    lemma_min_repr_rot1_ge(y2);
    lemma_min_repr_rot1_ge(y3);
    lemma_min_repr_rot1_ge(y4);
}

proof fn lemma_min_repr_rot2(y: u32)
    requires
        is_edge_set(y),
    ensures
        min_repr_spec(rot2_spec(y)) == min_repr_spec(y),
{
    let y1 = rot2_spec(y);
    let y2 = rot2_spec(y1);
    let y3 = rot2_spec(y2);
    let y4 = rot2_spec(y3);
    lemma_rot2_edge_set(y);
    lemma_rot2_edge_set(y1);
    lemma_rot2_edge_set(y2);
    lemma_rot2_edge_set(y3);
    lemma_rot2_order(y);
    lemma_min_repr_rot2_ge(y);
    lemma_min_repr_rot2_ge(y1);
    lemma_min_repr_rot2_ge(y2);
    lemma_min_repr_rot2_ge(y3);
    lemma_min_repr_rot2_ge(y4);
}

proof fn lemma_min_repr_flip(y: u32)
    requires
        is_edge_set(y),
    ensures
        min_repr_spec(flip_spec(y)) == min_repr_spec(y),
{
    lemma_flip_edge_set(y);
    lemma_flip_order(y);
    lemma_min_repr_flip_ge(y);
    lemma_min_repr_flip_ge(flip_spec(y));
}

/// The canonical form does not change under the vertex rotation, the face
/// rotation or the mirror, which generate all hundred and twenty symmetries.
pub proof fn lemma_min_repr_invariant(x: u32)
    requires
        is_edge_set(x),
    ensures
        min_repr_spec(rot1_spec(x)) == min_repr_spec(x),
        min_repr_spec(rot2_spec(x)) == min_repr_spec(x),
        min_repr_spec(flip_spec(x)) == min_repr_spec(x),
{
    lemma_min_repr_rot1(x);
    lemma_min_repr_rot2(x);
    lemma_min_repr_flip(x);
}

proof fn lemma_min_repr_rot1_pow(y: u32, k: nat)
    requires
        is_edge_set(y),
    ensures
        is_edge_set(rot1_pow(y, k)),
        min_repr_spec(rot1_pow(y, k)) == min_repr_spec(y),
    decreases k,
{
    if k > 0 {
        lemma_min_repr_rot1_pow(y, (k - 1) as nat);
        lemma_rot1_edge_set(rot1_pow(y, (k - 1) as nat));
        lemma_min_repr_rot1(rot1_pow(y, (k - 1) as nat));
    }
}

proof fn lemma_min_repr_orbit_value(x: u32, f: int, c: int, a: nat)
    requires
        is_edge_set(x),
    ensures
        min_repr_spec(orbit_value(x, f, c, a)) == min_repr_spec(x),
{
    lemma_min_repr_flip(x);
    lemma_flip_edge_set(x);
    let z = if f == 0 {
        x
    } else {
        flip_spec(x)
    };
    lemma_coset_start_invariant(z, c);
    lemma_min_repr_rot1_pow(coset_start(z, c), a);
}

/// Taking the canonical form twice gives the canonical form.
pub proof fn lemma_min_repr_idempotent(x: u32)
    requires
        is_edge_set(x),
    ensures
        min_repr_spec(min_repr_spec(x)) == min_repr_spec(x),
{
    let (f, c, a) = lemma_min_repr_attained(x);
    lemma_min_repr_orbit_value(x, f, c, a);
}

/// The edge set of all thirty edges.
pub open spec fn all_edges() -> u32 {
    0x3fff_ffffu32
}

/// The whole edge set is fixed by both rotations and by the mirror, and is its
/// own canonical form.
pub proof fn lemma_all_edges_fixed()
    ensures
        rot1_spec(all_edges()) == all_edges(),
        rot2_spec(all_edges()) == all_edges(),
        flip_spec(all_edges()) == all_edges(),
        min_repr_spec(all_edges()) == all_edges(),
{
    let x = all_edges();
    assert(rot1_spec(0x3fff_ffffu32) == 0x3fff_ffffu32) by (bit_vector);
    assert(rot2_spec(0x3fff_ffffu32) == 0x3fff_ffffu32) by (bit_vector);
    assert(flip_spec(0x3fff_ffffu32) == 0x3fff_ffffu32) by (bit_vector);
    assert forall|k: nat| k <= 4 implies #[trigger] rot1_pow(x, k) == x by {
        reveal_with_fuel(rot1_pow, 5);
    }
    let (f, c, a) = lemma_min_repr_attained(x);
    assert(flip_spec(x) == x);
    assert(coset_start(x, c) == x);
}

proof fn lemma_rot1_orbit_upto_member(z: u32, k: nat, y: u32)
    ensures
        rot1_orbit_upto(z, k).contains(y) <==> exists|a: nat| a <= k && rot1_pow(z, a) == y,
    decreases k,
{
    if k > 0 {
        lemma_rot1_orbit_upto_member(z, (k - 1) as nat, y);
        if rot1_orbit_upto(z, k).contains(y) {
            if y == rot1_pow(z, k) {
                assert(k <= k && rot1_pow(z, k) == y);
            } else {
                let b = choose|b: nat| b <= k - 1 && rot1_pow(z, b) == y;
                assert(b <= k && rot1_pow(z, b) == y);
            }
        }
        if exists|a: nat| a <= k && rot1_pow(z, a) == y {
            let a = choose|a: nat| a <= k && rot1_pow(z, a) == y;
            if a < k {
                assert(a <= k - 1 && rot1_pow(z, a) == y);
            }
        }
    } else {
        if rot1_orbit_upto(z, k).contains(y) {
            assert(0 <= k && rot1_pow(z, 0) == y);
        }
        if exists|a: nat| a <= k && rot1_pow(z, a) == y {
            let a = choose|a: nat| a <= k && rot1_pow(z, a) == y;
            assert(a == 0);
        }
    }
}

proof fn lemma_orbit_no_flip_upto_member(z: u32, k: nat, y: u32)
    ensures
        orbit_no_flip_upto(z, k).contains(y) <==> exists|c: int, a: nat|
            0 <= c <= k && a <= 4 && rot1_pow(coset_start(z, c), a) == y,
    decreases k,
{
    lemma_rot1_orbit_upto_member(coset_start(z, k as int), 4, y);
    if k > 0 {
        lemma_orbit_no_flip_upto_member(z, (k - 1) as nat, y);
        if exists|c: int, a: nat| 0 <= c <= k && a <= 4 && rot1_pow(coset_start(z, c), a) == y {
            let (c, a) = choose|c: int, a: nat|
                0 <= c <= k && a <= 4 && rot1_pow(coset_start(z, c), a) == y;
            if c < k {
                assert(exists|c2: int, a2: nat|
                    0 <= c2 <= k - 1 && a2 <= 4 && rot1_pow(coset_start(z, c2), a2) == y);
            }
        }
    } else {
        if exists|c: int, a: nat| 0 <= c <= k && a <= 4 && rot1_pow(coset_start(z, c), a) == y {
            let (c, a) = choose|c: int, a: nat|
                0 <= c <= k && a <= 4 && rot1_pow(coset_start(z, c), a) == y;
            assert(c == 0);
        }
    }
}

/// The orbit of `x` is the set of its images under the hundred and twenty words.
pub proof fn lemma_orbit_member(x: u32, y: u32)
    ensures
        orbit(x).contains(y) <==> exists|f: int, c: int, a: nat|
            0 <= f < 2 && 0 <= c < 12 && a < 5 && #[trigger] orbit_value(x, f, c, a) == y,
{
    lemma_orbit_no_flip_upto_member(x, 11, y);
    lemma_orbit_no_flip_upto_member(flip_spec(x), 11, y);
    if orbit(x).contains(y) {
        if orbit_no_flip(x).contains(y) {
            let (c, a) = choose|c: int, a: nat|
                0 <= c <= 11 && a <= 4 && rot1_pow(coset_start(x, c), a) == y;
            assert(orbit_value(x, 0, c, a) == y);
        } else {
            let (c, a) = choose|c: int, a: nat|
                0 <= c <= 11 && a <= 4 && rot1_pow(coset_start(flip_spec(x), c), a) == y;
            assert(orbit_value(x, 1, c, a) == y);
        }
    }
    if exists|f: int, c: int, a: nat|
        0 <= f < 2 && 0 <= c < 12 && a < 5 && #[trigger] orbit_value(x, f, c, a) == y {
        let (f, c, a) = choose|f: int, c: int, a: nat|
            0 <= f < 2 && 0 <= c < 12 && a < 5 && #[trigger] orbit_value(x, f, c, a) == y;
        if f == 0 {
            assert(rot1_pow(coset_start(x, c), a) == y);
        } else {
            assert(rot1_pow(coset_start(flip_spec(x), c), a) == y);
        }
    }
}

proof fn lemma_orbit_rot1_subset(y: u32)
    requires
        is_edge_set(y),
    ensures
        orbit(rot1_spec(y)).subset_of(orbit(y)),
{
    lemma_orbit_values_rot1(y);
    assert forall|v: u32| orbit(rot1_spec(y)).contains(v) implies orbit(y).contains(v) by {
        lemma_orbit_member(rot1_spec(y), v);
        lemma_orbit_member(y, v);
        let (f, c, a) = choose|f: int, c: int, a: nat|
            0 <= f < 2 && 0 <= c < 12 && a < 5 && #[trigger] orbit_value(rot1_spec(y), f, c, a) == v;
        assert(f == 0 || f == 1);
        assert(c == 0 || c == 1 || c == 2 || c == 3 || c == 4 || c == 5 || c == 6 || c == 7 || c == 8 || c == 9 || c == 10 || c == 11);
        assert(a == 0 || a == 1 || a == 2 || a == 3 || a == 4);
    }
}

proof fn lemma_orbit_rot2_subset(y: u32)
    requires
        is_edge_set(y),
    ensures
        orbit(rot2_spec(y)).subset_of(orbit(y)),
{
    lemma_orbit_values_rot2(y);
    assert forall|v: u32| orbit(rot2_spec(y)).contains(v) implies orbit(y).contains(v) by {
        lemma_orbit_member(rot2_spec(y), v);
        lemma_orbit_member(y, v);
        let (f, c, a) = choose|f: int, c: int, a: nat|
            0 <= f < 2 && 0 <= c < 12 && a < 5 && #[trigger] orbit_value(rot2_spec(y), f, c, a) == v;
        assert(f == 0 || f == 1);
        assert(c == 0 || c == 1 || c == 2 || c == 3 || c == 4 || c == 5 || c == 6 || c == 7 || c == 8 || c == 9 || c == 10 || c == 11);
        assert(a == 0 || a == 1 || a == 2 || a == 3 || a == 4);
    }
}

proof fn lemma_orbit_flip_subset(y: u32)
    requires
        is_edge_set(y),
    ensures
        orbit(flip_spec(y)).subset_of(orbit(y)),
{
    lemma_orbit_values_flip(y);
    assert forall|v: u32| orbit(flip_spec(y)).contains(v) implies orbit(y).contains(v) by {
        lemma_orbit_member(flip_spec(y), v);
        lemma_orbit_member(y, v);
        let (f, c, a) = choose|f: int, c: int, a: nat|
            0 <= f < 2 && 0 <= c < 12 && a < 5 && #[trigger] orbit_value(flip_spec(y), f, c, a) == v;
        assert(f == 0 || f == 1);
        assert(c == 0 || c == 1 || c == 2 || c == 3 || c == 4 || c == 5 || c == 6 || c == 7 || c == 8 || c == 9 || c == 10 || c == 11);
        assert(a == 0 || a == 1 || a == 2 || a == 3 || a == 4);
    }
}

proof fn lemma_orbit_rot1(y: u32)
    requires
        is_edge_set(y),
    ensures
        orbit(rot1_spec(y)) == orbit(y),
{
    let y1 = rot1_spec(y);
    let y2 = rot1_spec(y1);
    let y3 = rot1_spec(y2);
    let y4 = rot1_spec(y3);
    lemma_rot1_edge_set(y);
    lemma_rot1_edge_set(y1);
    lemma_rot1_edge_set(y2);
    lemma_rot1_edge_set(y3);
    lemma_rot1_order(y);
    lemma_orbit_rot1_subset(y);
    lemma_orbit_rot1_subset(y1);
    lemma_orbit_rot1_subset(y2);
    lemma_orbit_rot1_subset(y3);
    lemma_orbit_rot1_subset(y4);
    assert(orbit(y1) =~= orbit(y));
}

proof fn lemma_orbit_rot2(y: u32)
    requires
        is_edge_set(y),
    ensures
        orbit(rot2_spec(y)) == orbit(y),
{
    let y1 = rot2_spec(y);
    let y2 = rot2_spec(y1);
    let y3 = rot2_spec(y2);
    let y4 = rot2_spec(y3);
    lemma_rot2_edge_set(y);
    lemma_rot2_edge_set(y1);
    lemma_rot2_edge_set(y2);
    lemma_rot2_edge_set(y3);
    lemma_rot2_order(y);
    lemma_orbit_rot2_subset(y);
    lemma_orbit_rot2_subset(y1);
    lemma_orbit_rot2_subset(y2);
    lemma_orbit_rot2_subset(y3);
    lemma_orbit_rot2_subset(y4);
    assert(orbit(y1) =~= orbit(y));
}

proof fn lemma_orbit_flip(y: u32)
    requires
        is_edge_set(y),
    ensures
        orbit(flip_spec(y)) == orbit(y),
{
    lemma_flip_edge_set(y);
    lemma_flip_order(y);
    lemma_orbit_flip_subset(y);
    lemma_orbit_flip_subset(flip_spec(y));
    assert(orbit(flip_spec(y)) =~= orbit(y));
}

/// The set that orbit marking adds does not change under the vertex rotation,
/// the face rotation or the mirror.
pub proof fn lemma_orbit_invariant(x: u32)
    requires
        is_edge_set(x),
    ensures
        orbit(rot1_spec(x)) == orbit(x),
        orbit(rot2_spec(x)) == orbit(x),
        orbit(flip_spec(x)) == orbit(x),
{
    lemma_orbit_rot1(x);
    lemma_orbit_rot2(x);
    lemma_orbit_flip(x);
}

proof fn lemma_orbit_rot1_pow(y: u32, k: nat)
    requires
        is_edge_set(y),
    ensures
        is_edge_set(rot1_pow(y, k)),
        orbit(rot1_pow(y, k)) == orbit(y),
    decreases k,
{
    if k > 0 {
        lemma_orbit_rot1_pow(y, (k - 1) as nat);
        lemma_rot1_edge_set(rot1_pow(y, (k - 1) as nat));
        lemma_orbit_rot1(rot1_pow(y, (k - 1) as nat));
    }
}

proof fn lemma_coset_start_orbit(z: u32, c: int)
    requires
        is_edge_set(z),
    ensures
        is_edge_set(coset_start(z, c)),
        orbit(coset_start(z, c)) == orbit(z),
{
    if c == 0 {
    } else if c == 1 {
        lemma_rot2_edge_set(z);
        lemma_orbit_rot2(z);
    } else if c == 2 {
        lemma_rot2_edge_set(z);
        lemma_orbit_rot2(z);
        lemma_rot2_edge_set(rot2_spec(z));
        lemma_orbit_rot2(rot2_spec(z));
    } else if c == 3 {
        lemma_rot2_edge_set(z);
        lemma_orbit_rot2(z);
        lemma_rot2_edge_set(rot2_spec(z));
        lemma_orbit_rot2(rot2_spec(z));
        lemma_rot2_edge_set(rot2_spec(rot2_spec(z)));
        lemma_orbit_rot2(rot2_spec(rot2_spec(z)));
    } else if c == 4 {
        lemma_rot1_edge_set(z);
        lemma_orbit_rot1(z);
        lemma_rot1_edge_set(rot1_spec(z));
        lemma_orbit_rot1(rot1_spec(z));
        lemma_rot1_edge_set(rot1_spec(rot1_spec(z)));
        lemma_orbit_rot1(rot1_spec(rot1_spec(z)));
        lemma_rot1_edge_set(rot1_spec(rot1_spec(rot1_spec(z))));
        lemma_orbit_rot1(rot1_spec(rot1_spec(rot1_spec(z))));
        lemma_rot2_edge_set(rot1_spec(rot1_spec(rot1_spec(rot1_spec(z)))));
        lemma_orbit_rot2(rot1_spec(rot1_spec(rot1_spec(rot1_spec(z)))));
        lemma_rot2_edge_set(rot2_spec(rot1_spec(rot1_spec(rot1_spec(rot1_spec(z))))));
        lemma_orbit_rot2(rot2_spec(rot1_spec(rot1_spec(rot1_spec(rot1_spec(z))))));
    } else if c == 5 {
        lemma_rot1_edge_set(z);
        lemma_orbit_rot1(z);
        lemma_rot1_edge_set(rot1_spec(z));
        lemma_orbit_rot1(rot1_spec(z));
        lemma_rot1_edge_set(rot1_spec(rot1_spec(z)));
        lemma_orbit_rot1(rot1_spec(rot1_spec(z)));
        lemma_rot2_edge_set(rot1_spec(rot1_spec(rot1_spec(z))));
        lemma_orbit_rot2(rot1_spec(rot1_spec(rot1_spec(z))));
        lemma_rot2_edge_set(rot2_spec(rot1_spec(rot1_spec(rot1_spec(z)))));
        lemma_orbit_rot2(rot2_spec(rot1_spec(rot1_spec(rot1_spec(z)))));
    } else if c == 6 {
        lemma_rot1_edge_set(z);
        lemma_orbit_rot1(z);
        lemma_rot2_edge_set(rot1_spec(z));
        lemma_orbit_rot2(rot1_spec(z));
    } else if c == 7 {
        lemma_rot1_edge_set(z);
        lemma_orbit_rot1(z);
        lemma_rot1_edge_set(rot1_spec(z));
        lemma_orbit_rot1(rot1_spec(z));
        lemma_rot2_edge_set(rot1_spec(rot1_spec(z)));
        lemma_orbit_rot2(rot1_spec(rot1_spec(z)));
    } else if c == 8 {
        lemma_rot1_edge_set(z);
        lemma_orbit_rot1(z);
        lemma_rot1_edge_set(rot1_spec(z));
        lemma_orbit_rot1(rot1_spec(z));
        lemma_rot1_edge_set(rot1_spec(rot1_spec(z)));
        lemma_orbit_rot1(rot1_spec(rot1_spec(z)));
        lemma_rot2_edge_set(rot1_spec(rot1_spec(rot1_spec(z))));
        lemma_orbit_rot2(rot1_spec(rot1_spec(rot1_spec(z))));
    } else if c == 9 {
        lemma_rot1_edge_set(z);
        lemma_orbit_rot1(z);
        lemma_rot1_edge_set(rot1_spec(z));
        lemma_orbit_rot1(rot1_spec(z));
        lemma_rot2_edge_set(rot1_spec(rot1_spec(z)));
        lemma_orbit_rot2(rot1_spec(rot1_spec(z)));
        lemma_rot2_edge_set(rot2_spec(rot1_spec(rot1_spec(z))));
        lemma_orbit_rot2(rot2_spec(rot1_spec(rot1_spec(z))));
    } else if c == 10 {
        lemma_rot1_edge_set(z);
        lemma_orbit_rot1(z);
        lemma_rot1_edge_set(rot1_spec(z));
        lemma_orbit_rot1(rot1_spec(z));
        lemma_rot1_edge_set(rot1_spec(rot1_spec(z)));
        lemma_orbit_rot1(rot1_spec(rot1_spec(z)));
        lemma_rot1_edge_set(rot1_spec(rot1_spec(rot1_spec(z))));
        lemma_orbit_rot1(rot1_spec(rot1_spec(rot1_spec(z))));
        lemma_rot2_edge_set(rot1_spec(rot1_spec(rot1_spec(rot1_spec(z)))));
        lemma_orbit_rot2(rot1_spec(rot1_spec(rot1_spec(rot1_spec(z)))));
    } else {
        lemma_rot2_edge_set(z);
        lemma_orbit_rot2(z);
        lemma_rot1_edge_set(rot2_spec(z));
        lemma_orbit_rot1(rot2_spec(z));
        lemma_rot1_edge_set(rot1_spec(rot2_spec(z)));
        lemma_orbit_rot1(rot1_spec(rot2_spec(z)));
        lemma_rot1_edge_set(rot1_spec(rot1_spec(rot2_spec(z))));
        lemma_orbit_rot1(rot1_spec(rot1_spec(rot2_spec(z))));
        lemma_rot1_edge_set(rot1_spec(rot1_spec(rot1_spec(rot2_spec(z)))));
        lemma_orbit_rot1(rot1_spec(rot1_spec(rot1_spec(rot2_spec(z)))));
        lemma_rot2_edge_set(rot1_spec(rot1_spec(rot1_spec(rot1_spec(rot2_spec(z))))));
        lemma_orbit_rot2(rot1_spec(rot1_spec(rot1_spec(rot1_spec(rot2_spec(z))))));
        lemma_rot2_edge_set(rot2_spec(rot1_spec(rot1_spec(rot1_spec(rot1_spec(rot2_spec(z)))))));
        lemma_orbit_rot2(rot2_spec(rot1_spec(rot1_spec(rot1_spec(rot1_spec(rot2_spec(z)))))));
    }
}

proof fn lemma_orbit_orbit_value(x: u32, f: int, c: int, a: nat)
    requires
        is_edge_set(x),
    ensures
        orbit(orbit_value(x, f, c, a)) == orbit(x),
{
    lemma_orbit_flip(x);
    lemma_flip_edge_set(x);
    let z = if f == 0 {
        x
    } else {
        flip_spec(x)
    };
    lemma_coset_start_orbit(z, c);
    lemma_orbit_rot1_pow(coset_start(z, c), a);
}

/// Taking the canonical form keeps the orbit.
pub proof fn lemma_orbit_of_min_repr(x: u32)
    requires
        is_edge_set(x),
    ensures
        orbit(min_repr_spec(x)) == orbit(x),
{
    let (f, c, a) = lemma_min_repr_attained(x);
    lemma_orbit_orbit_value(x, f, c, a);
}

/// An edge set lies in the orbit of another exactly when the two have the same
/// canonical form: the orbits are the symmetry classes, and the orbit marking
/// and the canonical form judge redundancy alike.
pub proof fn lemma_orbit_is_class(x: u32, y: u32)
    requires
        is_edge_set(x),
        is_edge_set(y),
    ensures
        orbit(x).contains(y) <==> min_repr_spec(y) == min_repr_spec(x),
{
    lemma_orbit_member(x, y);
    if orbit(x).contains(y) {
        let (f, c, a) = choose|f: int, c: int, a: nat|
            0 <= f < 2 && 0 <= c < 12 && a < 5 && #[trigger] orbit_value(x, f, c, a) == y;
        lemma_min_repr_orbit_value(x, f, c, a);
    }
    if min_repr_spec(y) == min_repr_spec(x) {
        lemma_orbit_of_min_repr(x);
        lemma_orbit_of_min_repr(y);
        lemma_orbit_member(y, y);
        assert(orbit_value(y, 0, 0, 0) == y);
    }
}

} // verus!
