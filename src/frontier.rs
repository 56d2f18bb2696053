//! The level-by-level search over connected edge sets, with its two ways of
//! skipping edge sets that are symmetric to one already handled.

use crate::bitmap::{bitmap_contains, bitmap_insert, bitmap_len, bitmap_new, bitmap_set, bitmap_values};
use crate::graph::{
    adjacent, bit_of, connected, lemma_connected_grow, lemma_pair_mask_member, pair_masks_spec,
};
use crate::laws::{all_edges, lemma_all_edges_fixed, lemma_min_repr_idempotent};
use crate::symmetry::{is_edge_set, min_repr, min_repr_spec, orbit, skip_repr};
use roaring::RoaringBitmap;
use vstd::prelude::*;

verus! {

/// How the search keeps one edge set of each symmetry class.
#[derive(Clone, Copy, PartialEq, Eq, Structural, Debug)]
pub enum Strategy {
    /// Every new edge set is replaced by its canonical form before it is queued.
    CanonicalInsert,
    /// Edge sets are queued as they are; the first of a class to be handled
    /// marks its whole orbit, and the later ones are skipped.
    OrbitMark,
}

/// Whether adding the pair `m` to `parent` grows it by one adjacent edge: one
/// edge of the pair is present and the other is not.
pub open spec fn grows(parent: u32, m: u32) -> bool {
    m & parent != 0 && m | parent != parent
}

/// The form in which a new edge set is queued.
pub open spec fn admitted(strategy: Strategy, child: u32) -> u32 {
    match strategy {
        Strategy::CanonicalInsert => min_repr_spec(child),
        Strategy::OrbitMark => child,
    }
}

/// The queued children of `parent` from the first `k` pair masks.
pub open spec fn children_upto(parent: u32, pairs: Seq<u32>, strategy: Strategy, k: nat) -> Set<
    u32,
>
    decreases k,
{
    if k == 0 {
        Set::empty()
    } else {
        let prev = children_upto(parent, pairs, strategy, (k - 1) as nat);
        let m = pairs[k - 1];
        if grows(parent, m) {
            prev.insert(admitted(strategy, parent | m))
        } else {
            prev
        }
    }
}

/// The queued children of `parent`.
pub open spec fn children(parent: u32, pairs: Seq<u32>, strategy: Strategy) -> Set<u32> {
    children_upto(parent, pairs, strategy, pairs.len())
}

/// The queued children of all the handled parents.
pub open spec fn next_frontier(handled: Seq<u32>, pairs: Seq<u32>, strategy: Strategy) -> Set<u32>
    decreases handled.len(),
{
    if handled.len() == 0 {
        Set::empty()
    } else {
        next_frontier(handled.drop_last(), pairs, strategy).union(
            children(handled.last(), pairs, strategy),
        )
    }
}

/// The edge sets that handling `v` marks redundant for the rest of its level.
pub open spec fn guard_mark(strategy: Strategy, v: u32) -> Set<u32> {
    match strategy {
        Strategy::CanonicalInsert => set![v],
        Strategy::OrbitMark => orbit(v),
    }
}

/// Scans the frontier `s` in order: the guard after the scan, and the edge sets
/// that were handled, in order.
pub open spec fn scan(s: Seq<u32>, strategy: Strategy) -> (Set<u32>, Seq<u32>)
    decreases s.len(),
{
    if s.len() == 0 {
        (Set::empty(), seq![])
    } else {
        let (guard, handled) = scan(s.drop_last(), strategy);
        let v = s.last();
        if guard.contains(v) {
            (guard, handled)
        } else {
            (guard.union(guard_mark(strategy, v)), handled.push(v))
        }
    }
}

/// The edge sets of the frontier `s` that a level handles, in order.
pub open spec fn handled(s: Seq<u32>, strategy: Strategy) -> Seq<u32> {
    scan(s, strategy).1
}

/// One level of the search on the frontier `curr` and the discovered set
/// `disc`: the next frontier, the new discovered set, and how many edge sets
/// were handled.
pub open spec fn level_step(curr: Set<u32>, disc: Set<u32>, pairs: Seq<u32>, strategy: Strategy) -> (
    Set<u32>,
    Set<u32>,
    nat,
) {
    let h = handled(sorted_values(curr), strategy);
    (next_frontier(h, pairs, strategy), disc.union(h.to_set()), h.len())
}

/// The frontier and the discovered set after `k` levels.
pub open spec fn after_levels(
    curr: Set<u32>,
    disc: Set<u32>,
    pairs: Seq<u32>,
    strategy: Strategy,
    k: nat,
) -> (Set<u32>, Set<u32>)
    decreases k,
{
    if k == 0 {
        (curr, disc)
    } else {
        let (c, d) = after_levels(curr, disc, pairs, strategy, (k - 1) as nat);
        let (c2, d2, _) = level_step(c, d, pairs, strategy);
        (c2, d2)
    }
}

/// From one level to the next the discovered set only grows, and so does its
/// size.
pub proof fn lemma_discovered_monotone(
    curr: Set<u32>,
    disc: Set<u32>,
    pairs: Seq<u32>,
    strategy: Strategy,
    k: nat,
)
    requires
        disc.finite(),
    ensures
        after_levels(curr, disc, pairs, strategy, k).1.finite(),
        after_levels(curr, disc, pairs, strategy, k).1.subset_of(
            after_levels(curr, disc, pairs, strategy, k + 1).1,
        ),
        after_levels(curr, disc, pairs, strategy, k).1.len() <= after_levels(
            curr,
            disc,
            pairs,
            strategy,
            k + 1,
        ).1.len(),
    decreases k,
{
    if k > 0 {
        lemma_discovered_monotone(curr, disc, pairs, strategy, (k - 1) as nat);
    }
    let (c, d) = after_levels(curr, disc, pairs, strategy, k);
    let h = handled(sorted_values(c), strategy);
    let d2 = d.union(h.to_set());
    assert(after_levels(curr, disc, pairs, strategy, k + 1).1 == d2);
    vstd::seq_lib::seq_to_set_is_finite(h);
    vstd::set_lib::lemma_set_union_finite_iff(d, h.to_set());
    vstd::set_lib::lemma_len_subset(d, d2);
}

/// Whether the sequence is strictly ascending.
pub open spec fn ascending(s: Seq<u32>) -> bool {
    forall|i: int, j: int| 0 <= i < j < s.len() ==> s[i] < s[j]
}

/// The values of a finite set, in ascending order.
pub open spec fn sorted_values(set: Set<u32>) -> Seq<u32> {
    choose|s: Seq<u32>| ascending(s) && s.to_set() == set
}

/// Two ascending sequences with the same values are equal.
proof fn lemma_ascending_unique(a: Seq<u32>, b: Seq<u32>)
    requires
        ascending(a),
        ascending(b),
        a.to_set() == b.to_set(),
    ensures
        a == b,
    decreases a.len(),
{
    if a.len() == 0 {
        if b.len() > 0 {
            assert(b.to_set().contains(b[0]));
        }
        assert(a =~= b);
    } else {
        assert(a.to_set().contains(a[0]));
        assert(b.len() > 0) by {
            if b.len() == 0 {
                assert(b.to_set().contains(a[0]));
            }
        }
        assert(b.to_set().contains(b[0]));
        assert(a.contains(b[0]));
        assert(b.contains(a[0]));
        assert(a[0] == b[0]);
        let a1 = a.drop_first();
        let b1 = b.drop_first();
        assert forall|v: u32| a1.to_set().contains(v) implies b1.to_set().contains(v) by {
            let i = choose|i: int| 0 <= i < a1.len() && a1[i] == v;
            assert(a[i + 1] == v);
            assert(a.to_set().contains(v));
            assert(b.to_set().contains(v));
            let k = choose|k: int| 0 <= k < b.len() && b[k] == v;
            assert(k != 0);
            assert(b1[k - 1] == v);
        }
        assert forall|v: u32| b1.to_set().contains(v) implies a1.to_set().contains(v) by {
            let i = choose|i: int| 0 <= i < b1.len() && b1[i] == v;
            assert(b[i + 1] == v);
            assert(b.to_set().contains(v));
            assert(a.to_set().contains(v));
            let k = choose|k: int| 0 <= k < a.len() && a[k] == v;
            assert(k != 0);
            assert(a1[k - 1] == v);
        }
        assert(a1.to_set() =~= b1.to_set());
        lemma_ascending_unique(a1, b1);
        assert forall|i: int| 0 <= i < a.len() implies a[i] == b[i] by {
            if i > 0 {
                assert(a[i] == a1[i - 1] && b[i] == b1[i - 1]);
            }
        }
        assert(a =~= b);
    }
}

/// Growing an edge set by a pair mask of the table adds exactly one edge, and
/// that edge shares a vertex with an edge already present: so a connected edge
/// set stays connected.
pub proof fn lemma_growth_adds_adjacent_edge(masks: Seq<u32>, parent: u32, m: u32)
    requires
        masks.len() <= 32,
        pair_masks_spec(masks).contains(m),
        grows(parent, m),
    ensures
        exists|i: int, j: int|
            0 <= i < masks.len() && 0 <= j < masks.len() && parent & bit_of(i as u32) != 0
                && parent & bit_of(j as u32) == 0 && adjacent(masks[i], masks[j]) && parent | m
                == parent | bit_of(j as u32),
{
    lemma_pair_mask_member(masks, masks.len() as int, m);
    let (i, j) = choose|i: int, j: int|
        0 <= i < j < masks.len() && m == bit_of(i as u32) | bit_of(j as u32) && adjacent(
            masks[i],
            masks[j],
        );
    let iu = i as u32;
    let ju = j as u32;
    assert({
        &&& parent & (1u32 << iu) != 0 && parent & (1u32 << ju) == 0 && parent | m == parent | (1u32
            << ju)
    } || {
        &&& parent & (1u32 << ju) != 0 && parent & (1u32 << iu) == 0 && parent | m == parent | (1u32
            << iu)
    }) by (bit_vector)
        requires
            iu < 32,
            ju < 32,
            iu != ju,
            m == (1u32 << iu) | (1u32 << ju),
            m & parent != 0,
            m | parent != parent,
    ;
    let (mi, mj) = (masks[i], masks[j]);
    assert(mi & mj == mj & mi) by (bit_vector);
    if parent & bit_of(iu) != 0 && parent & bit_of(ju) == 0 && parent | m == parent | bit_of(ju) {
        assert(adjacent(masks[i], masks[j]));
    } else {
        assert(parent & bit_of(ju) != 0 && parent & bit_of(iu) == 0 && parent | m == parent
            | bit_of(iu));
        assert(adjacent(masks[j], masks[i]));
    }
}

proof fn lemma_children_upto_connected(masks: Seq<u32>, parent: u32, k: nat)
    requires
        masks.len() <= 32,
        connected(masks, parent),
        k <= pair_masks_spec(masks).len(),
    ensures
        forall|c: u32|
            children_upto(parent, pair_masks_spec(masks), Strategy::OrbitMark, k).contains(c)
                ==> connected(masks, c),
    decreases k,
{
    let pairs = pair_masks_spec(masks);
    if k > 0 {
        lemma_children_upto_connected(masks, parent, (k - 1) as nat);
        let m = pairs[k - 1];
        if grows(parent, m) {
            assert(pairs.contains(m));
            lemma_growth_adds_adjacent_edge(masks, parent, m);
            let (i, j) = choose|i: int, j: int|
                0 <= i < masks.len() && 0 <= j < masks.len() && parent & bit_of(i as u32) != 0
                    && parent & bit_of(j as u32) == 0 && adjacent(masks[i], masks[j]) && parent | m
                    == parent | bit_of(j as u32);
            lemma_connected_grow(masks, parent, i, j);
        }
    }
}

/// Each edge set that a scan handles is one of the scanned edge sets.
pub proof fn lemma_handled_from_frontier(s: Seq<u32>, strategy: Strategy)
    ensures
        forall|t: int| 0 <= t < handled(s, strategy).len() ==> s.contains(#[trigger] handled(s, strategy)[t]),
    decreases s.len(),
{
    if s.len() > 0 {
        let prev = s.drop_last();
        lemma_handled_from_frontier(prev, strategy);
        let h0 = handled(prev, strategy);
        let h = handled(s, strategy);
        assert forall|t: int| 0 <= t < h.len() implies s.contains(#[trigger] h[t]) by {
            if t < h0.len() {
                assert(h[t] == h0[t]);
                assert(prev.contains(h0[t]));
                let w = choose|w: int| 0 <= w < prev.len() && prev[w] == h0[t];
                assert(s[w] == prev[w]);
            } else {
                assert(h[t] == s[s.len() - 1]);
            }
        }
    }
}

/// With edge sets queued as they are, a level whose frontier holds only
/// connected edge sets queues only connected edge sets.
pub proof fn lemma_frontier_stays_connected(masks: Seq<u32>, s: Seq<u32>)
    requires
        masks.len() <= 32,
        forall|t: int| 0 <= t < s.len() ==> connected(masks, #[trigger] s[t]),
    ensures
        forall|c: u32|
            next_frontier(handled(s, Strategy::OrbitMark), pair_masks_spec(masks), Strategy::OrbitMark).contains(c)
                ==> connected(masks, c),
{
    let h = handled(s, Strategy::OrbitMark);
    lemma_handled_from_frontier(s, Strategy::OrbitMark);
    assert forall|t: int| 0 <= t < h.len() implies connected(masks, #[trigger] h[t]) by {
        assert(s.contains(h[t]));
    }
    lemma_next_frontier_connected(masks, h);
}

proof fn lemma_next_frontier_connected(masks: Seq<u32>, h: Seq<u32>)
    requires
        masks.len() <= 32,
        forall|t: int| 0 <= t < h.len() ==> connected(masks, #[trigger] h[t]),
    ensures
        forall|c: u32|
            next_frontier(h, pair_masks_spec(masks), Strategy::OrbitMark).contains(c) ==> connected(
                masks,
                c,
            ),
    decreases h.len(),
{
    if h.len() > 0 {
        let prev = h.drop_last();
        assert forall|t: int| 0 <= t < prev.len() implies connected(masks, #[trigger] prev[t]) by {
            assert(prev[t] == h[t]);
        }
        lemma_next_frontier_connected(masks, prev);
        assert(connected(masks, h[h.len() - 1]));
        lemma_children_upto_connected(
            masks,
            h.last(),
            pair_masks_spec(masks).len(),
        );
    }
}

proof fn lemma_children_upto_canonical(parent: u32, pairs: Seq<u32>, k: nat)
    requires
        is_edge_set(parent),
        k <= pairs.len(),
        forall|i: int| 0 <= i < pairs.len() ==> is_edge_set(#[trigger] pairs[i]),
    ensures
        forall|c: u32|
            children_upto(parent, pairs, Strategy::CanonicalInsert, k).contains(c) ==> min_repr_spec(c)
                == c,
    decreases k,
{
    if k > 0 {
        lemma_children_upto_canonical(parent, pairs, (k - 1) as nat);
        let m = pairs[k - 1];
        assert(is_edge_set(m));
        assert((parent | m) >> 30u32 == 0) by (bit_vector)
            requires
                parent >> 30u32 == 0,
                m >> 30u32 == 0,
        ;
        lemma_min_repr_idempotent(parent | m);
    }
}

/// With canonical insertion, every queued edge set is its own canonical form.
pub proof fn lemma_canonical_frontier(h: Seq<u32>, pairs: Seq<u32>)
    requires
        forall|t: int| 0 <= t < h.len() ==> is_edge_set(#[trigger] h[t]),
        forall|i: int| 0 <= i < pairs.len() ==> is_edge_set(#[trigger] pairs[i]),
    ensures
        forall|c: u32|
            next_frontier(h, pairs, Strategy::CanonicalInsert).contains(c) ==> min_repr_spec(c)
                == c,
    decreases h.len(),
{
    if h.len() > 0 {
        let prev = h.drop_last();
        assert forall|t: int| 0 <= t < prev.len() implies is_edge_set(#[trigger] prev[t]) by {
            assert(prev[t] == h[t]);
        }
        lemma_canonical_frontier(prev, pairs);
        assert(is_edge_set(h[h.len() - 1]));
        lemma_children_upto_canonical(h.last(), pairs, pairs.len());
    }
}

/// A level whose frontier is the whole edge set alone handles it once and
/// leaves an empty frontier, with either strategy.
pub proof fn lemma_last_level(disc: Set<u32>, pairs: Seq<u32>, strategy: Strategy)
    requires
        forall|i: int| 0 <= i < pairs.len() ==> is_edge_set(#[trigger] pairs[i]),
    ensures
        level_step(set![all_edges()], disc, pairs, strategy) == (
            Set::<u32>::empty(),
            disc.insert(all_edges()),
            1nat,
        ),
{
    let x = all_edges();
    let s = seq![x];
    assert(s.to_set() =~= set![x]) by {
        assert(s[0] == x);
    }
    let t = sorted_values(set![x]);
    assert(ascending(s));
    assert(ascending(t) && t.to_set() == set![x]);
    lemma_ascending_unique(s, t);
    assert(s.drop_last() =~= Seq::<u32>::empty());
    assert(scan(s.drop_last(), strategy) == (Set::<u32>::empty(), Seq::<u32>::empty()));
    assert(s.last() == x);
    let h = handled(s, strategy);
    assert(h == Seq::<u32>::empty().push(x));
    assert(h =~= seq![x]);
    assert(h.drop_last() =~= Seq::<u32>::empty());
    assert(h.last() == x);
    lemma_no_children_of_all_edges(pairs, strategy, pairs.len());
    assert(children(x, pairs, strategy) =~= Set::<u32>::empty());
    assert(next_frontier(h.drop_last(), pairs, strategy) =~= Set::<u32>::empty());
    assert(next_frontier(h, pairs, strategy) =~= Set::<u32>::empty());
    assert(h.to_set() =~= set![x]) by {
        assert(h[0] == x);
    }
    assert(disc.union(h.to_set()) =~= disc.insert(x));
}

proof fn lemma_no_children_of_all_edges(pairs: Seq<u32>, strategy: Strategy, k: nat)
    requires
        k <= pairs.len(),
        forall|i: int| 0 <= i < pairs.len() ==> is_edge_set(#[trigger] pairs[i]),
    ensures
        children_upto(all_edges(), pairs, strategy, k) =~= Set::<u32>::empty(),
    decreases k,
{
    if k > 0 {
        lemma_no_children_of_all_edges(pairs, strategy, (k - 1) as nat);
        let m = pairs[k - 1];
        assert(is_edge_set(m));
        assert(m | 0x3fff_ffffu32 == 0x3fff_ffffu32) by (bit_vector)
            requires
                m >> 30u32 == 0,
        ;
    }
}

/// The state of the search between two levels.
pub struct Search {
    /// Every edge set handled so far.
    pub discovered: RoaringBitmap,
    /// The edge sets of the level about to be expanded.
    pub curr: RoaringBitmap,
    /// The pair masks of adjacent edges.
    pub pairs: Vec<u32>,
    /// How symmetric edge sets are skipped.
    pub strategy: Strategy,
}

impl Search {
    /// The search before its first level: the single edge `0` is both the
    /// frontier and the only edge set discovered.
    pub fn new(pairs: Vec<u32>, strategy: Strategy) -> (r: Search)
        ensures
            bitmap_set(r.curr) == set![1u32],
            bitmap_set(r.discovered) == set![1u32],
            r.pairs == pairs,
            r.strategy == strategy,
    {
        let mut curr = bitmap_new();
        let mut discovered = bitmap_new();
        bitmap_insert(&mut curr, 1);
        bitmap_insert(&mut discovered, 1);
        assert(bitmap_set(curr) =~= set![1u32]);
        assert(bitmap_set(discovered) =~= set![1u32]);
        Search { discovered, curr, pairs, strategy }
    }

    /// Expands one level: handles each edge set of the frontier in ascending
    /// order unless it is judged redundant, records it as discovered, and
    /// makes the one-edge extensions of the handled edge sets the next
    /// frontier. Returns how many edge sets were handled.
    pub fn expand_level(&mut self) -> (r: usize)
        ensures
            ({
                let s = sorted_values(bitmap_set(old(self).curr));
                let h = handled(s, old(self).strategy);
                &&& r == h.len()
                &&& bitmap_set(final(self).discovered) == bitmap_set(old(self).discovered).union(
                    h.to_set(),
                )
                &&& bitmap_set(final(self).curr) == next_frontier(
                    h,
                    old(self).pairs@,
                    old(self).strategy,
                )
            }),
            bitmap_set(old(self).discovered).subset_of(bitmap_set(final(self).discovered)),
            final(self).pairs == old(self).pairs,
            final(self).strategy == old(self).strategy,
    {
        let values = bitmap_values(&self.curr);
        proof {
            let s = sorted_values(bitmap_set(self.curr));
            assert(ascending(values@) && values@.to_set() == bitmap_set(self.curr));
            assert(ascending(s) && s.to_set() == bitmap_set(self.curr));
            lemma_ascending_unique(values@, s);
        }
        let strategy = self.strategy;
        let ghost disc0 = bitmap_set(self.discovered);
        let mut skip = bitmap_new();
        let mut next = bitmap_new();
        let mut round: usize = 0;
        let mut k: usize = 0;
        while k < values.len()
            invariant
                k <= values@.len(),
                strategy == self.strategy,
                self.strategy == old(self).strategy,
                self.pairs == old(self).pairs,
                disc0 == bitmap_set(old(self).discovered),
                round == handled(values@.take(k as int), strategy).len(),
                round <= k,
                bitmap_set(self.discovered) == disc0.union(
                    handled(values@.take(k as int), strategy).to_set(),
                ),
                scan(values@.take(k as int), strategy).0 == bitmap_set(skip),
                bitmap_set(next) == next_frontier(
                    handled(values@.take(k as int), strategy),
                    self.pairs@,
                    strategy,
                ),
            decreases values@.len() - k,
        {
            let parent = values[k];
            let ghost prefix = values@.take(k as int);
            let ghost h0 = handled(prefix, strategy);
            assert(values@.take(k as int + 1).drop_last() =~= prefix);
            if !bitmap_contains(&skip, parent) {
                match strategy {
                    Strategy::CanonicalInsert => {
                        bitmap_insert(&mut skip, parent);
                    },
                    Strategy::OrbitMark => skip_repr(parent, &mut skip),
                }
                bitmap_insert(&mut self.discovered, parent);
                round = round + 1;
                let mut j: usize = 0;
                while j < self.pairs.len()
                    invariant
                        j <= self.pairs@.len(),
                        bitmap_set(next) == next_frontier(h0, self.pairs@, strategy).union(
                            children_upto(parent, self.pairs@, strategy, j as nat),
                        ),
                    decreases self.pairs@.len() - j,
                {
                    let m = self.pairs[j];
                    if (m & parent) != 0 && (m | parent) != parent {
                        let child = match strategy {
                            Strategy::CanonicalInsert => min_repr(parent | m),
                            Strategy::OrbitMark => parent | m,
                        };
                        bitmap_insert(&mut next, child);
                    }
                    j = j + 1;
                    assert(bitmap_set(next) =~= next_frontier(h0, self.pairs@, strategy).union(
                        children_upto(parent, self.pairs@, strategy, j as nat),
                    ));
                }
                proof {
                    let h1 = h0.push(parent);
                    assert(h1.drop_last() =~= h0);
                    assert(h1.to_set() =~= h0.to_set().insert(parent)) by {
                        assert(h1.last() == parent);
                        assert forall|v: u32| h1.to_set().contains(v) implies h0.to_set().insert(
                            parent,
                        ).contains(v) by {
                            let i = choose|i: int| 0 <= i < h1.len() && h1[i] == v;
                            if i < h0.len() {
                                assert(h0.contains(v));
                            }
                        }
                        assert forall|v: u32| h0.to_set().insert(parent).contains(v) implies h1.to_set().contains(
                            v,
                        ) by {
                            if v == parent {
                                assert(h1[h0.len() as int] == parent);
                            } else {
                                let i = choose|i: int| 0 <= i < h0.len() && h0[i] == v;
                                assert(h1[i] == v);
                            }
                        }
                    }
                    assert(bitmap_set(self.discovered) =~= disc0.union(h1.to_set()));
                    assert(bitmap_set(skip) =~= scan(values@.take(k as int + 1), strategy).0);
                }
            }
            k = k + 1;
        }
        assert(values@.take(values@.len() as int) =~= values@);
        self.curr = next;
        round
    }

    /// Expands `levels` levels in turn and returns how many edge sets each
    /// level handled.
    pub fn run(&mut self, levels: usize) -> (r: Vec<usize>)
        ensures
            r@.len() == levels,
            forall|k: int|
                0 <= k < levels ==> {
                    let (c, d) = #[trigger] after_levels(
                        bitmap_set(old(self).curr),
                        bitmap_set(old(self).discovered),
                        old(self).pairs@,
                        old(self).strategy,
                        k as nat,
                    );
                    r@[k] == level_step(c, d, old(self).pairs@, old(self).strategy).2
                },
            (bitmap_set(final(self).curr), bitmap_set(final(self).discovered)) == after_levels(
                bitmap_set(old(self).curr),
                bitmap_set(old(self).discovered),
                old(self).pairs@,
                old(self).strategy,
                levels as nat,
            ),
            bitmap_set(old(self).discovered).subset_of(bitmap_set(final(self).discovered)),
            final(self).pairs == old(self).pairs,
            final(self).strategy == old(self).strategy,
    {
        let ghost c0 = bitmap_set(self.curr);
        let ghost d0 = bitmap_set(self.discovered);
        let mut r: Vec<usize> = Vec::new();
        let mut k: usize = 0;
        while k < levels
            invariant
                k <= levels,
                r@.len() == k,
                self.pairs == old(self).pairs,
                self.strategy == old(self).strategy,
                c0 == bitmap_set(old(self).curr),
                d0 == bitmap_set(old(self).discovered),
                (bitmap_set(self.curr), bitmap_set(self.discovered)) == after_levels(
                    c0,
                    d0,
                    self.pairs@,
                    self.strategy,
                    k as nat,
                ),
                d0.subset_of(bitmap_set(self.discovered)),
                forall|t: int|
                    0 <= t < k ==> {
                        let (c, d) = #[trigger] after_levels(c0, d0, self.pairs@, self.strategy, t as nat);
                        r@[t] == level_step(c, d, self.pairs@, self.strategy).2
                    },
            decreases levels - k,
        {
            let round = self.expand_level();
            r.push(round);
            k = k + 1;
        }
        r
    }

    /// The number of edge sets discovered so far.
    pub fn discovered_count(&self) -> (r: u64)
        ensures
            r as nat == bitmap_set(self.discovered).len(),
    {
        bitmap_len(&self.discovered)
    }

    /// The edge sets of the current frontier, in ascending order.
    pub fn frontier(&self) -> (r: Vec<u32>)
        ensures
            r@ == sorted_values(bitmap_set(self.curr)),
    {
        let values = bitmap_values(&self.curr);
        proof {
            let s = sorted_values(bitmap_set(self.curr));
            assert(ascending(values@) && values@.to_set() == bitmap_set(self.curr));
            lemma_ascending_unique(values@, s);
        }
        values
    }
}

} // verus!
