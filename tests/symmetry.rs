use dodeca_subgraphs::symmetry::{
    flip, min_repr, min_repr_no_flip, min_rot1, rot1, rot2, skip_repr, skip_repr_no_flip, skip_rot1,
};
use roaring::RoaringBitmap;

const FULL: u32 = (1 << 30) - 1;

fn samples() -> Vec<u32> {
    let mut v = vec![0, 1, 2, 3, 17, 33, 513, FULL, 0x2aaa_aaaa, 0x1555_5555, 0x0f0f_0f0f & FULL];
    let mut x: u32 = 12345;
    for _ in 0..200 {
        x = x.wrapping_mul(1_103_515_245).wrapping_add(12345);
        v.push(x & FULL);
    }
    v
}

#[test]
fn rot1_moves_each_edge_within_its_group() {
    assert_eq!(rot1(1), 1 << 4);
    assert_eq!(rot1(2), 1);
    assert_eq!(rot1(1 << 25), 1 << 29);
    assert_eq!(rot1(FULL), FULL);
}

#[test]
fn rot2_follows_its_table() {
    assert_eq!(rot2(1), 1 << 5);
    assert_eq!(rot2(2), 1 << 11);
    assert_eq!(rot2(1 << 29), 1 << 14);
    assert_eq!(rot2(0), 0);
    assert_eq!(rot2(FULL), FULL);
}

#[test]
fn generators_have_order_five() {
    for x in samples() {
        let mut a = x;
        let mut b = x;
        for _ in 0..5 {
            a = rot1(a);
            b = rot2(b);
        }
        assert_eq!(a, x);
        assert_eq!(b, x);
    }
}

#[test]
fn rot1_has_no_smaller_order() {
    assert_ne!(rot1(1), 1);
    assert_ne!(rot2(1), 1);
}

#[test]
fn canonical_form_is_invariant() {
    for x in samples() {
        let m = min_repr(x);
        assert_eq!(min_repr(rot1(x)), m);
        assert_eq!(min_repr(rot2(x)), m);
        assert_eq!(min_repr(flip(x)), m);
        assert!(m <= x);
    }
}

#[test]
fn canonical_form_is_idempotent() {
    for x in samples() {
        let m = min_repr(x);
        assert_eq!(min_repr(m), m);
    }
}

#[test]
fn canonical_form_of_single_edges_is_edge_zero() {
    for i in 0..30 {
        assert_eq!(min_repr(1 << i), 1);
    }
}

#[test]
fn canonical_form_values() {
    assert_eq!(min_repr(0), 0);
    assert_eq!(min_repr(FULL), FULL);
    assert_eq!(min_rot1(1 << 3), 1);
    assert_eq!(min_repr_no_flip(1 << 29), 1);
    assert_eq!(min_repr(17), 3);
    assert_eq!(min_repr(513), 3);
}

#[test]
fn orbit_marks_match_canonical_form() {
    for x in samples().into_iter().take(40) {
        let mut skip = RoaringBitmap::new();
        skip_repr(x, &mut skip);
        let m = min_repr(x);
        assert_eq!(skip.min(), Some(m));
        assert!(skip.contains(x));
        assert!(skip.contains(rot1(x)));
        assert!(skip.contains(rot2(x)));
        assert!(skip.contains(flip(x)));
        assert!(skip.len() <= 120);
        assert_eq!(120 % skip.len(), 0);
    }
}

#[test]
fn orbit_of_single_edge_is_all_edges() {
    let mut skip = RoaringBitmap::new();
    skip_repr(1, &mut skip);
    assert_eq!(skip.len(), 30);
    let mut part = RoaringBitmap::new();
    skip_rot1(1, &mut part);
    assert_eq!(part.iter().collect::<Vec<u32>>(), vec![1, 2, 4, 8, 16]);
    let mut no_flip = RoaringBitmap::new();
    skip_repr_no_flip(1, &mut no_flip);
    assert_eq!(no_flip.len(), 30);
    assert!(no_flip.contains(1));
}

#[test]
fn mirror_images_share_a_canonical_form() {
    assert_eq!(min_repr(49), min_repr(515));
    assert_eq!(min_repr(39), min_repr(51));
    let mut skip = RoaringBitmap::new();
    skip_repr(49, &mut skip);
    assert!(skip.contains(515));
}

#[test]
fn rotations_alone_reach_every_pair() {
    let mut skip = RoaringBitmap::new();
    skip_repr_no_flip(3, &mut skip);
    assert!(skip.contains(33));
    assert_eq!(skip.len(), 60);
}

#[test]
fn mirror_has_order_two_and_fixes_edge_zero() {
    assert_eq!(flip(1), 1);
    for x in samples() {
        assert_eq!(flip(flip(x)), x);
    }
}
