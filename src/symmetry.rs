//! The symmetry group of the dodecahedron acting on 30-bit edge sets, and the
//! canonical form of an edge set: the least member of its orbit.

use crate::bitmap::{bitmap_insert, bitmap_set};
use roaring::RoaringBitmap;
use vstd::prelude::*;

verus! {

/// Edges whose position within their group of five is not the first.
pub const ROT1_MASK_A: u32 = 0b111101111011110111101111011110;

/// Edges that come first within their group of five.
pub const ROT1_MASK_B: u32 = 0b000010000100001000010000100001;

/// The 30-bit edge sets that describe subgraphs.
pub open spec fn is_edge_set(x: u32) -> bool {
    x >> 30u32 == 0
}

/// The vertex rotation: within each group of five edges, each edge moves one
/// place down and the first wraps round to the last (the two masks above,
/// written out).
pub open spec fn rot1_spec(x: u32) -> u32 {
    ((x & 0b111101111011110111101111011110u32) >> 1u32) | ((x & 0b000010000100001000010000100001u32)
        << 4u32)
}

/// Where the face rotation sends edge `i`.
pub open spec fn rot2_target(i: int) -> u32 {
    if i == 0 {
        5
    } else if i == 1 {
        11
    } else if i == 2 {
        16
    } else if i == 3 {
        6
    } else if i == 4 {
        1
    } else if i == 5 {
        15
    } else if i == 6 {
        21
    } else if i == 7 {
        12
    } else if i == 8 {
        2
    } else if i == 9 {
        0
    } else if i == 10 {
        9
    } else if i == 11 {
        20
    } else if i == 12 {
        26
    } else if i == 13 {
        17
    } else if i == 14 {
        3
    } else if i == 15 {
        10
    } else if i == 16 {
        25
    } else if i == 17 {
        22
    } else if i == 18 {
        7
    } else if i == 19 {
        4
    } else if i == 20 {
        19
    } else if i == 21 {
        29
    } else if i == 22 {
        27
    } else if i == 23 {
        13
    } else if i == 24 {
        8
    } else if i == 25 {
        24
    } else if i == 26 {
        28
    } else if i == 27 {
        23
    } else if i == 28 {
        18
    } else {
        14
    }
}

/// Where the mirror sends edge `i`: a reflection of the solid that keeps
/// edge `0` in place.
pub open spec fn flip_target(i: int) -> u32 {
    if i == 0 {
        0
    } else if i == 1 {
        5
    } else if i == 2 {
        15
    } else if i == 3 {
        10
    } else if i == 4 {
        9
    } else if i == 5 {
        1
    } else if i == 6 {
        11
    } else if i == 7 {
        20
    } else if i == 8 {
        19
    } else if i == 9 {
        4
    } else if i == 10 {
        3
    } else if i == 11 {
        6
    } else if i == 12 {
        21
    } else if i == 13 {
        29
    } else if i == 14 {
        14
    } else if i == 15 {
        2
    } else if i == 16 {
        16
    } else if i == 17 {
        25
    } else if i == 18 {
        24
    } else if i == 19 {
        8
    } else if i == 20 {
        7
    } else if i == 21 {
        12
    } else if i == 22 {
        26
    } else if i == 23 {
        28
    } else if i == 24 {
        18
    } else if i == 25 {
        17
    } else if i == 26 {
        22
    } else if i == 27 {
        27
    } else if i == 28 {
        23
    } else {
        13
    }
}

/// Where the face rotation (`mirror` false) or the mirror (`mirror` true) sends
/// edge `i`.
pub open spec fn edge_target(mirror: bool, i: int) -> u32 {
    if mirror {
        flip_target(i)
    } else {
        rot2_target(i)
    }
}

/// The face rotation or the mirror applied to the edges below `k`: edge `i`
/// of `x` becomes edge `edge_target(mirror, i)` of the result.
pub open spec fn permute_upto(x: u32, k: nat, mirror: bool) -> u32
    decreases k,
{
    if k == 0 {
        0
    } else {
        permute_upto(x, (k - 1) as nat, mirror) | (((x >> ((k - 1) as u32)) & 1u32) << edge_target(
            mirror,
            k - 1,
        ))
    }
}

/// The face rotation of an edge set.
pub open spec fn rot2_spec(x: u32) -> u32 {
    permute_upto(x, 30, false)
}

/// The mirror image of an edge set.
pub open spec fn flip_spec(x: u32) -> u32 {
    permute_upto(x, 30, true)
}

/// Applies the vertex rotation.
pub fn rot1(repr: u32) -> (r: u32)
    ensures
        r == rot1_spec(repr),
        is_edge_set(r),
{
    let tmp = (repr & ROT1_MASK_A) >> 1;
    let r = tmp | (repr & ROT1_MASK_B) << 4;
    assert(((((repr & 0b111101111011110111101111011110u32) >> 1u32) | ((repr
        & 0b000010000100001000010000100001u32) << 4u32)) >> 30u32) == 0) by (bit_vector);
    r
}

/// Where the face rotation or the mirror sends edge `i`.
fn edge_target_of(i: usize, mirror: bool) -> (r: u32)
    requires
        i < 30,
    ensures
        r == edge_target(mirror, i as int),
{
    if mirror {
        match i {
            0 => 0,
            1 => 5,
            2 => 15,
            3 => 10,
            4 => 9,
            5 => 1,
            6 => 11,
            7 => 20,
            8 => 19,
            9 => 4,
            10 => 3,
            11 => 6,
            12 => 21,
            13 => 29,
            14 => 14,
            15 => 2,
            16 => 16,
            17 => 25,
            18 => 24,
            19 => 8,
            20 => 7,
            21 => 12,
            22 => 26,
            23 => 28,
            24 => 18,
            25 => 17,
            26 => 22,
            27 => 27,
            28 => 23,
            _ => 13,
        }
    } else {
        match i {
            0 => 5,
            1 => 11,
            2 => 16,
            3 => 6,
            4 => 1,
            5 => 15,
            6 => 21,
            7 => 12,
            8 => 2,
            9 => 0,
            10 => 9,
            11 => 20,
            12 => 26,
            13 => 17,
            14 => 3,
            15 => 10,
            16 => 25,
            17 => 22,
            18 => 7,
            19 => 4,
            20 => 19,
            21 => 29,
            22 => 27,
            23 => 13,
            24 => 8,
            25 => 24,
            26 => 28,
            27 => 23,
            28 => 18,
            _ => 14,
        }
    }
}

/// Moves each edge `i` of `repr` to `edge_target(mirror, i)`.
fn permute(repr: u32, mirror: bool) -> (r: u32)
    ensures
        r == permute_upto(repr, 30, mirror),
{
    let mut rest: u32 = repr;
    let mut result: u32 = 0;
    let mut i: usize = 0;
    assert(repr >> 0u32 == repr) by (bit_vector);
    while i < 30
        invariant
            i <= 30,
            rest == repr >> (i as u32),
            result == permute_upto(repr, i as nat, mirror),
        decreases 30 - i,
    {
        if rest == 0 {
            proof {
                lemma_permute_rest_zero(repr, i as nat, mirror);
            }
            return result;
        }
        let target = edge_target_of(i, mirror);
        let iu: u32 = i as u32;
        assert(rest % 2 == (repr >> iu) & 1u32) by (bit_vector)
            requires
                rest == repr >> iu,
        ;
        result = result | ((rest % 2) << target);
        assert((repr >> iu) >> 1u32 == repr >> ((iu + 1) as u32)) by (bit_vector)
            requires
                iu < 30,
        ;
        rest = rest >> 1;
        i = i + 1;
    }
    result
}

/// Applies the face rotation.
pub fn rot2(repr: u32) -> (r: u32)
    ensures
        r == rot2_spec(repr),
{
    permute(repr, false)
}

/// Applies the mirror.
pub fn flip(repr: u32) -> (r: u32)
    ensures
        r == flip_spec(repr),
{
    permute(repr, true)
}

/// Once no edge is left at or above `k`, the permutation adds nothing more.
proof fn lemma_permute_rest_zero(x: u32, k: nat, mirror: bool)
    requires
        k <= 30,
        x >> (k as u32) == 0,
    ensures
        permute_upto(x, k, mirror) == permute_upto(x, 30, mirror),
    decreases 30 - k,
{
    if k < 30 {
        let ku = k as u32;
        let t = edge_target(mirror, k as int);
        let r = permute_upto(x, k, mirror);
        assert(x >> ((ku + 1) as u32) == 0 && r | (((x >> ku) & 1u32) << t) == r) by (bit_vector)
            requires
                x >> ku == 0,
                ku < 30,
        ;
        assert(permute_upto(x, (k + 1) as nat, mirror) == r);
        lemma_permute_rest_zero(x, (k + 1) as nat, mirror);
    }
}

/// `k` vertex rotations of `x`.
pub open spec fn rot1_pow(x: u32, k: nat) -> u32
    decreases k,
{
    if k == 0 {
        x
    } else {
        rot1_spec(rot1_pow(x, (k - 1) as nat))
    }
}

/// The lesser of two values.
pub open spec fn min_u32(a: u32, b: u32) -> u32 {
    if a <= b {
        a
    } else {
        b
    }
}

/// The least of the first `k + 1` vertex rotations of `x`.
pub open spec fn min_rot1_upto(x: u32, k: nat) -> u32
    decreases k,
{
    if k == 0 {
        x
    } else {
        min_u32(min_rot1_upto(x, (k - 1) as nat), rot1_pow(x, k))
    }
}

/// The least member of the vertex-rotation orbit of `x`.
pub open spec fn min_rot1_spec(x: u32) -> u32 {
    min_rot1_upto(x, 4)
}

/// The twelve coset representatives that, each with its five vertex rotations,
/// give the sixty rotations of the solid.
pub open spec fn coset_start(x: u32, c: int) -> u32 {
    if c == 0 {
        x
    } else if c == 1 {
        rot2_spec(x)
    } else if c == 2 {
        rot2_spec(rot2_spec(x))
    } else if c == 3 {
        rot2_spec(rot2_spec(rot2_spec(x)))
    } else if c == 4 {
        rot2_spec(rot2_spec(rot1_spec(rot1_spec(rot1_spec(rot1_spec(x))))))
    } else if c == 5 {
        rot2_spec(rot2_spec(rot1_spec(rot1_spec(rot1_spec(x)))))
    } else if c == 6 {
        rot2_spec(rot1_spec(x))
    } else if c == 7 {
        rot2_spec(rot1_spec(rot1_spec(x)))
    } else if c == 8 {
        rot2_spec(rot1_spec(rot1_spec(rot1_spec(x))))
    } else if c == 9 {
        rot2_spec(rot2_spec(rot1_spec(rot1_spec(x))))
    } else if c == 10 {
        rot2_spec(rot1_spec(rot1_spec(rot1_spec(rot1_spec(x)))))
    } else {
        rot2_spec(rot2_spec(rot1_spec(rot1_spec(rot1_spec(rot1_spec(rot2_spec(x)))))))
    }
}

/// The least image of `x` under the rotations of the first `c + 1` cosets.
pub open spec fn min_no_flip_upto(x: u32, c: nat) -> u32
    decreases c,
{
    if c == 0 {
        min_rot1_spec(coset_start(x, 0))
    } else {
        min_u32(min_no_flip_upto(x, (c - 1) as nat), min_rot1_spec(coset_start(x, c as int)))
    }
}

/// The least image of `x` under the sixty rotations.
pub open spec fn min_repr_no_flip_spec(x: u32) -> u32 {
    min_no_flip_upto(x, 11)
}

/// The canonical form of `x`: the least image of `x` under the hundred and
/// twenty symmetries, the sixty rotations and their mirror images.
pub open spec fn min_repr_spec(x: u32) -> u32 {
    min_u32(min_repr_no_flip_spec(x), min_repr_no_flip_spec(flip_spec(x)))
}

/// The first `k + 1` vertex rotations of `x`.
pub open spec fn rot1_orbit_upto(x: u32, k: nat) -> Set<u32>
    decreases k,
{
    if k == 0 {
        set![x]
    } else {
        rot1_orbit_upto(x, (k - 1) as nat).insert(rot1_pow(x, k))
    }
}

/// The vertex-rotation orbit of `x`.
pub open spec fn rot1_orbit(x: u32) -> Set<u32> {
    rot1_orbit_upto(x, 4)
}

/// The images of `x` under the rotations of the first `c + 1` cosets.
pub open spec fn orbit_no_flip_upto(x: u32, c: nat) -> Set<u32>
    decreases c,
{
    if c == 0 {
        rot1_orbit(coset_start(x, 0))
    } else {
        orbit_no_flip_upto(x, (c - 1) as nat).union(rot1_orbit(coset_start(x, c as int)))
    }
}

/// The images of `x` under the sixty rotations.
pub open spec fn orbit_no_flip(x: u32) -> Set<u32> {
    orbit_no_flip_upto(x, 11)
}

/// The orbit of `x`: its images under all hundred and twenty symmetries.
pub open spec fn orbit(x: u32) -> Set<u32> {
    orbit_no_flip(x).union(orbit_no_flip(flip_spec(x)))
}

/// The least value among the vertex rotations of `repr`.
pub fn min_rot1(repr: u32) -> (r: u32)
    ensures
        r == min_rot1_spec(repr),
{
    let mut base = repr;
    let mut best = repr;
    let mut k: usize = 0;
    while k < 4
        invariant
            k <= 4,
            base == rot1_pow(repr, k as nat),
            best == min_rot1_upto(repr, k as nat),
        decreases 4 - k,
    {
        base = rot1(base);
        if base < best {
            best = base;
        }
        k = k + 1;
    }
    best
}

/// The twelve coset representatives of `repr`, in order.
fn coset_starts(repr: u32) -> (r: Vec<u32>)
    ensures
        r@.len() == 12,
        forall|c: int| 0 <= c < 12 ==> r@[c] == coset_start(repr, c),
{
    let mut r: Vec<u32> = Vec::new();
    r.push(repr);
    r.push(rot2(repr));
    r.push(rot2(rot2(repr)));
    r.push(rot2(rot2(rot2(repr))));
    r.push(rot2(rot2(rot1(rot1(rot1(rot1(repr)))))));
    r.push(rot2(rot2(rot1(rot1(rot1(repr))))));
    r.push(rot2(rot1(repr)));
    r.push(rot2(rot1(rot1(repr))));
    r.push(rot2(rot1(rot1(rot1(repr)))));
    r.push(rot2(rot2(rot1(rot1(repr)))));
    r.push(rot2(rot1(rot1(rot1(rot1(repr))))));
    r.push(rot2(rot2(rot1(rot1(rot1(rot1(rot2(repr))))))));
    r
}

/// The least value among the images of `repr` under the sixty rotations.
pub fn min_repr_no_flip(repr: u32) -> (r: u32)
    ensures
        r == min_repr_no_flip_spec(repr),
{
    let starts = coset_starts(repr);
    let mut best = min_rot1(starts[0]);
    let mut c: usize = 1;
    while c < 12
        invariant
            1 <= c <= 12,
            starts@.len() == 12,
            forall|d: int| 0 <= d < 12 ==> starts@[d] == coset_start(repr, d),
            best == min_no_flip_upto(repr, (c - 1) as nat),
        decreases 12 - c,
    {
        let m = min_rot1(starts[c]);
        if m < best {
            best = m;
        }
        c = c + 1;
    }
    best
}

/// The canonical form of `repr`: the least value of its orbit under all
/// hundred and twenty symmetries.
pub fn min_repr(repr: u32) -> (r: u32)
    ensures
        r == min_repr_spec(repr),
{
    let a = min_repr_no_flip(repr);
    let b = min_repr_no_flip(flip(repr));
    if a <= b {
        a
    } else {
        b
    }
}

/// Adds the vertex-rotation orbit of `repr` to `skip`.
pub fn skip_rot1(repr: u32, skip: &mut RoaringBitmap)
    ensures
        bitmap_set(*final(skip)) == bitmap_set(*old(skip)).union(rot1_orbit(repr)),
{
    let mut base = repr;
    bitmap_insert(skip, base);
    let mut k: usize = 0;
    while k < 4
        invariant
            k <= 4,
            base == rot1_pow(repr, k as nat),
            bitmap_set(*skip) == bitmap_set(*old(skip)).union(rot1_orbit_upto(repr, k as nat)),
        decreases 4 - k,
    {
        base = rot1(base);
        bitmap_insert(skip, base);
        k = k + 1;
        assert(bitmap_set(*skip) =~= bitmap_set(*old(skip)).union(rot1_orbit_upto(repr, k as nat)));
    }
}

/// Adds to `skip` the images of `repr` under the sixty rotations.
pub fn skip_repr_no_flip(repr: u32, skip: &mut RoaringBitmap)
    ensures
        bitmap_set(*final(skip)) == bitmap_set(*old(skip)).union(orbit_no_flip(repr)),
{
    let starts = coset_starts(repr);
    skip_rot1(starts[0], skip);
    let mut c: usize = 1;
    while c < 12
        invariant
            1 <= c <= 12,
            starts@.len() == 12,
            forall|d: int| 0 <= d < 12 ==> starts@[d] == coset_start(repr, d),
            bitmap_set(*skip) == bitmap_set(*old(skip)).union(
                orbit_no_flip_upto(repr, (c - 1) as nat),
            ),
        decreases 12 - c,
    {
        skip_rot1(starts[c], skip);
        assert(bitmap_set(*skip) =~= bitmap_set(*old(skip)).union(
            orbit_no_flip_upto(repr, c as nat),
        ));
        c = c + 1;
    }
}

/// Adds to `skip` the whole orbit of `repr`: its images under the sixty
/// rotations and their mirror images.
pub fn skip_repr(repr: u32, skip: &mut RoaringBitmap)
    ensures
        bitmap_set(*final(skip)) == bitmap_set(*old(skip)).union(orbit(repr)),
{
    let flipped = flip(repr);
    skip_repr_no_flip(repr, skip);
    skip_repr_no_flip(flipped, skip);
    assert(bitmap_set(*skip) =~= bitmap_set(*old(skip)).union(orbit(repr)));
}

} // verus!
