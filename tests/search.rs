use dodeca_subgraphs::frontier::{Search, Strategy};
use dodeca_subgraphs::graph::{edge_masks, edge_points, pair_masks};
use dodeca_subgraphs::symmetry::min_repr;
use roaring::RoaringBitmap;

fn pairs() -> Vec<u32> {
    pair_masks(&edge_masks(&edge_points()))
}

fn is_connected(set: u32) -> bool {
    let points = edge_points();
    let edges: Vec<usize> = (0..30).filter(|i| set & (1 << i) != 0).collect();
    if edges.is_empty() {
        return true;
    }
    let mut reached: Vec<usize> = vec![edges[0]];
    let mut changed = true;
    while changed {
        changed = false;
        for &e in &edges {
            if reached.contains(&e) {
                continue;
            }
            let (u, v) = points[e];
            if reached.iter().any(|&r| {
                let (a, b) = points[r];
                a == u || a == v || b == u || b == v
            }) {
                reached.push(e);
                changed = true;
            }
        }
    }
    reached.len() == edges.len()
}

#[test]
fn pair_count_of_dodecahedron() {
    assert_eq!(pairs().len(), 60);
}

#[test]
fn edge_masks_hold_both_endpoints() {
    let masks = edge_masks(&edge_points());
    assert_eq!(masks.len(), 30);
    assert_eq!(masks[0], 0b11);
    assert_eq!(masks[4], 0b10001);
    assert_eq!(masks[29], (1 << 19) | (1 << 15));
}

#[test]
fn first_pairs_are_those_of_edge_zero() {
    let p = pairs();
    assert_eq!(&p[..4], &[0b11, 0b10001, 0b100001, (1 << 9) | 1]);
}

#[test]
fn level_one_children_of_edge_zero() {
    let mut s = Search::new(pairs(), Strategy::OrbitMark);
    assert_eq!(s.expand_level(), 1);
    assert_eq!(s.frontier(), vec![3, 17, 33, 513]);
    assert_eq!(s.discovered_count(), 1);
}

#[test]
fn level_one_canonical_children() {
    let mut s = Search::new(pairs(), Strategy::CanonicalInsert);
    assert_eq!(s.expand_level(), 1);
    assert_eq!(s.frontier(), vec![3]);
}

#[test]
fn strategies_agree_level_by_level() {
    let mut a = Search::new(pairs(), Strategy::CanonicalInsert);
    let mut b = Search::new(pairs(), Strategy::OrbitMark);
    for _ in 0..7 {
        assert_eq!(a.expand_level(), b.expand_level());
        assert_eq!(a.discovered_count(), b.discovered_count());
    }
}

#[test]
fn discovered_never_shrinks() {
    let mut s = Search::new(pairs(), Strategy::OrbitMark);
    let mut last = s.discovered_count();
    for _ in 0..6 {
        s.expand_level();
        let now = s.discovered_count();
        assert!(now >= last);
        last = now;
    }
}

#[test]
fn frontiers_hold_connected_edge_sets() {
    for strategy in [Strategy::OrbitMark, Strategy::CanonicalInsert] {
        let mut s = Search::new(pairs(), strategy);
        for level in 1..6u32 {
            s.expand_level();
            for v in s.frontier() {
                assert!(is_connected(v));
                assert_eq!(v.count_ones(), level + 1);
            }
        }
    }
}

#[test]
fn canonical_frontier_holds_canonical_forms() {
    let mut s = Search::new(pairs(), Strategy::CanonicalInsert);
    for _ in 0..5 {
        s.expand_level();
        for v in s.frontier() {
            assert_eq!(min_repr(v), v);
        }
    }
}

#[test]
fn full_edge_set_is_one_class_with_no_children() {
    for strategy in [Strategy::OrbitMark, Strategy::CanonicalInsert] {
        let mut curr = RoaringBitmap::new();
        curr.insert((1 << 30) - 1);
        let mut s = Search { discovered: RoaringBitmap::new(), curr, pairs: pairs(), strategy };
        assert_eq!(s.expand_level(), 1);
        assert!(s.frontier().is_empty());
        assert_eq!(s.discovered_count(), 1);
    }
}

#[test]
fn symmetric_frontier_members_are_counted_once() {
    let mut curr = RoaringBitmap::new();
    for v in [3u32, 17, 33, 513] {
        curr.insert(v);
    }
    let mut s = Search { discovered: RoaringBitmap::new(), curr, pairs: pairs(), strategy: Strategy::OrbitMark };
    assert_eq!(s.expand_level(), 1);
}

#[test]
fn run_reports_each_level() {
    let mut a = Search::new(pairs(), Strategy::OrbitMark);
    let counts = a.run(4);
    assert_eq!(counts.len(), 4);
    assert_eq!(counts[0], 1);
    assert_eq!(counts[1], 1);
    let mut b = Search::new(pairs(), Strategy::OrbitMark);
    let mut one_by_one = Vec::new();
    for _ in 0..4 {
        one_by_one.push(b.expand_level());
    }
    assert_eq!(counts, one_by_one);
    assert_eq!(a.discovered_count(), b.discovered_count());
    assert_eq!(a.discovered_count(), counts.iter().sum::<usize>() as u64);
}

#[test]
fn first_levels_count_classes_under_all_symmetries() {
    for strategy in [Strategy::OrbitMark, Strategy::CanonicalInsert] {
        let mut s = Search::new(pairs(), strategy);
        assert_eq!(s.run(5), vec![1, 1, 3, 4, 12]);
        assert_eq!(s.discovered_count(), 21);
    }
}
