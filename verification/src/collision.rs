use vstd::prelude::*;

use crate::barrier::{Barrier, BarrierHit};

verus! {

/// `e` is the first target of the row that is in range.
pub open spec fn is_first_hit(in_range: Seq<bool>, e: int) -> bool {
    &&& 0 <= e < in_range.len()
    &&& in_range[e]
    &&& forall|j: int| 0 <= j < e ==> !#[trigger] in_range[j]
}

/// The first target in range, if any.
pub open spec fn first_hit(in_range: Seq<bool>) -> Option<int> {
    if exists|e: int| is_first_hit(in_range, e) {
        Some(choose|e: int| is_first_hit(in_range, e))
    } else {
        None
    }
}

/// A row has one first hit at most.
pub proof fn lemma_first_hit_unique(in_range: Seq<bool>, e1: int, e2: int)
    requires
        is_first_hit(in_range, e1),
        is_first_hit(in_range, e2),
    ensures
        e1 == e2,
{
    if e1 < e2 {
        assert(!in_range[e1]);
    } else if e2 < e1 {
        assert(!in_range[e2]);
    }
}

/// Finds the first target in range of one bullet, scanning the targets in
/// query order.
pub fn first_in_range(in_range: &Vec<bool>) -> (hit: Option<usize>)
    ensures
        hit matches Some(e) ==> first_hit(in_range@) == Some(e as int),
        hit is None ==> first_hit(in_range@) is None,
        hit is None <==> forall|j: int| 0 <= j < in_range@.len() ==> !#[trigger] in_range@[j],
{
    let mut e: usize = 0;
    while e < in_range.len()
        invariant
            e <= in_range@.len(),
            forall|j: int| 0 <= j < e ==> !#[trigger] in_range@[j],
        decreases in_range@.len() - e,
    {
        if in_range[e] {
            proof {
                assert(is_first_hit(in_range@, e as int));
                let c = choose|c: int| is_first_hit(in_range@, c);
                lemma_first_hit_unique(in_range@, c, e as int);
            }
            return Some(e);
        }
        e = e + 1;
    }
    proof {
        assert forall|c: int| !is_first_hit(in_range@, c) by {
            if 0 <= c < in_range@.len() {
                assert(!in_range@[c]);
            }
        }
    }
    None
}

/// A target index as a spec integer.
pub open spec fn as_index(hit: Option<usize>) -> Option<int> {
    match hit {
        Some(e) => Some(e as int),
        None => None,
    }
}

/// The view of a matrix of range tests: one row per bullet, one entry per
/// target.
pub open spec fn rows_view(in_range: Seq<Vec<bool>>) -> Seq<Seq<bool>> {
    in_range.map_values(|row: Vec<bool>| row@)
}

/// Resolves the hits of player bullets on targets that a hit destroys (the
/// aliens, the mystery ship): each bullet is spent on the first target in
/// range, in query order; a target may be claimed by several bullets of the
/// same frame, as the removal only takes effect at the end of the frame.
/// `in_range[b][t]` tells whether bullet `b` is close enough to target `t`.
pub fn first_hits(in_range: &Vec<Vec<bool>>) -> (hits: Vec<Option<usize>>)
    ensures
        hits@.len() == in_range@.len(),
        forall|b: int|
            0 <= b < hits@.len() ==> as_index(#[trigger] hits@[b]) == first_hit(
                in_range@[b]@,
            ),
{
    let mut hits: Vec<Option<usize>> = Vec::new();
    let mut b: usize = 0;
    while b < in_range.len()
        invariant
            b <= in_range@.len(),
            hits@.len() == b,
            forall|k: int|
                0 <= k < b ==> as_index(#[trigger] hits@[k]) == first_hit(
                    in_range@[k]@,
                ),
        decreases in_range@.len() - b,
    {
        let hit = first_in_range(&in_range[b]);
        hits.push(hit);
        b = b + 1;
    }
    hits
}

/// One bullet against the barriers: the first block in range takes the hit.
pub open spec fn barrier_step_outcome(barriers: Seq<Barrier>, in_range: Seq<bool>) -> Option<
    (usize, BarrierHit),
> {
    match first_hit(in_range) {
        Some(e) => Some((e as usize, barriers[e].hit_outcome())),
        None => None,
    }
}

pub open spec fn barrier_step(barriers: Seq<Barrier>, in_range: Seq<bool>) -> Seq<Barrier> {
    match first_hit(in_range) {
        Some(e) => barriers.update(e, barriers[e].after_hit()),
        None => barriers,
    }
}

/// The blocks after the bullets of `in_range` hit them, one bullet after
/// the other.
pub open spec fn barrier_pass(barriers: Seq<Barrier>, in_range: Seq<Seq<bool>>) -> Seq<Barrier>
    decreases in_range.len(),
{
    if in_range.len() == 0 {
        barriers
    } else {
        barrier_step(barrier_pass(barriers, in_range.drop_last()), in_range.last())
    }
}

/// Resolves the hits of bullets on barrier blocks, bullet by bullet: each
/// bullet is spent on the first block in range, which is damaged or
/// destroyed at once, so that a later bullet of the same frame sees the
/// damage. A destroyed block stays in the list until the frame ends (it is
/// removed then), and a later bullet may still hit it.
/// Returns, per bullet, the block it hit and what became of it.
pub fn barrier_collisions(barriers: &mut Vec<Barrier>, in_range: &Vec<Vec<bool>>) -> (hits: Vec<
    Option<(usize, BarrierHit)>,
>)
    requires
        forall|b: int| 0 <= b < in_range@.len() ==> (#[trigger] in_range@[b])@.len() == old(
            barriers,
        )@.len(),
    ensures
        final(barriers)@ == barrier_pass(old(barriers)@, rows_view(in_range@)),
        hits@.len() == in_range@.len(),
        forall|b: int|
            0 <= b < hits@.len() ==> #[trigger] hits@[b] == barrier_step_outcome(
                barrier_pass(old(barriers)@, rows_view(in_range@).take(b)),
                in_range@[b]@,
            ),
{
    let ghost start = barriers@;
    let ghost rows = rows_view(in_range@);
    let mut hits: Vec<Option<(usize, BarrierHit)>> = Vec::new();
    let mut b: usize = 0;
    while b < in_range.len()
        invariant
            rows == rows_view(in_range@),
            rows.len() == in_range@.len(),
            b <= in_range@.len(),
            hits@.len() == b,
            barriers@.len() == start.len(),
            forall|k: int| 0 <= k < in_range@.len() ==> (#[trigger] in_range@[k])@.len() == start.len(),
            barriers@ == barrier_pass(start, rows.take(b as int)),
            forall|k: int|
                0 <= k < b ==> #[trigger] hits@[k] == barrier_step_outcome(
                    barrier_pass(start, rows.take(k)),
                    in_range@[k]@,
                ),
        decreases in_range@.len() - b,
    {
        let ghost before = barriers@;
        assert(rows.take(b + 1).drop_last() =~= rows.take(b as int));
        assert(rows.take(b + 1).last() == in_range@[b as int]@);
        let hit = first_in_range(&in_range[b]);
        match hit {
            Some(e) => {
                let mut block = barriers[e];
                let outcome = block.take_hit();
                barriers.set(e, block);
                hits.push(Some((e, outcome)));
            },
            None => {
                hits.push(None);
            },
        }
        b = b + 1;
    }
    assert(rows.take(in_range@.len() as int) =~= rows);
    hits
}

} // verus!
