//! Ranking of an output score buffer: descending by value, ties broken by
//! ascending buffer index, and selection of the leading entries.
//!
//! Scores arrive as raw bits of 32-bit floating-point values; an
//! order-preserving integer key stands in for the float total order, so the
//! ranking itself is pure integer logic.

use vstd::prelude::*;

verus! {

/// One classification result: the position of a score in the output buffer
/// and the score's total-order key.
#[derive(Clone, Copy, Debug, PartialEq, Eq, Structural)]
pub struct Ranked {
    pub index: usize,
    pub value: u32,
}

/// Order-preserving key of a 32-bit IEEE float's raw bits: comparing keys
/// as unsigned integers agrees with the float total order (sign first, then
/// magnitude), so ranking can stay in integer arithmetic.
pub open spec fn key_of(bits: u32) -> u32 {
    if bits >= 0x8000_0000 {
        !bits
    } else {
        bits ^ 0x8000_0000
    }
}

/// Computes `key_of` on a score's raw bits.
pub fn total_order_key(bits: u32) -> (r: u32)
    ensures
        r == key_of(bits),
{
    if bits >= 0x8000_0000 {
        !bits
    } else {
        bits ^ 0x8000_0000
    }
}

/// Strict "is reported earlier" order: the higher value first, a tie broken
/// by the smaller buffer index.
pub open spec fn ranked_before(a: Ranked, b: Ranked) -> bool {
    a.value > b.value || (a.value == b.value && a.index < b.index)
}

/// Executable form of `ranked_before`.
pub fn comes_before(a: Ranked, b: Ranked) -> (r: bool)
    ensures
        r == ranked_before(a, b),
{
    a.value > b.value || (a.value == b.value && a.index < b.index)
}

/// Whether buffer position `idx` appears in the ranking `r`.
pub open spec fn appears(r: Seq<Ranked>, idx: int) -> bool {
    exists|j: int| 0 <= j < r.len() && (#[trigger] r[j]).index == idx
}

/// `r` ranks the whole score buffer: same length, every entry quotes its
/// score, strictly ordered by `ranked_before`, and every buffer position
/// appears.  These clauses determine `r` uniquely.
pub open spec fn is_ranking(scores: Seq<u32>, r: Seq<Ranked>) -> bool {
    &&& r.len() == scores.len()
    &&& forall|j: int|
        0 <= j < r.len() ==> (#[trigger] r[j]).index < scores.len()
            && r[j].value == scores[r[j].index as int]
    &&& forall|j: int, k: int|
        0 <= j < k < r.len() ==> ranked_before(#[trigger] r[j], #[trigger] r[k])
    &&& forall|idx: int| 0 <= idx < scores.len() ==> #[trigger] appears(r, idx)
}

/// The position at which a new entry joins a ranking so that everything
/// before it is reported earlier.
fn insertion_point(out: &Vec<Ranked>, new: Ranked) -> (pos: usize)
    ensures
        pos <= out@.len(),
        forall|t: int| 0 <= t < pos ==> ranked_before(#[trigger] out@[t], new),
        pos < out@.len() ==> !ranked_before(out@[pos as int], new),
{
    let mut pos: usize = 0;
    while pos < out.len()
        invariant
            pos <= out@.len(),
            forall|t: int| 0 <= t < pos ==> ranked_before(#[trigger] out@[t], new),
        decreases out@.len() - pos,
    {
        if !comes_before(out[pos], new) {
            return pos;
        }
        pos = pos + 1;
    }
    pos
}

/// Ranks the whole score buffer by descending value, index ties broken by
/// index order.
pub fn rank_descending(scores: &Vec<u32>) -> (r: Vec<Ranked>)
    ensures
        is_ranking(scores@, r@),
{
    let mut out: Vec<Ranked> = Vec::new();
    let mut i: usize = 0;
    proof {
        assert(scores@.subrange(0, 0) =~= Seq::<u32>::empty());
    }
    while i < scores.len()
        invariant
            i <= scores@.len(),
            is_ranking(scores@.subrange(0, i as int), out@),
        decreases scores@.len() - i,
    {
        let new = Ranked { index: i, value: scores[i] };
        let pos = insertion_point(&out, new);
        let ghost prev = out@;
        let ghost pre = scores@.subrange(0, i as int);
        let ghost post = scores@.subrange(0, i as int + 1);
        out.insert(pos, new);
        proof {
            assert(pre =~= post.drop_last());
            assert(forall|k: int|
                0 <= k < out@.len() ==> out@[k] == (if k < pos {
                    prev[k]
                } else if k == pos {
                    new
                } else {
                    prev[k - 1]
                }));
            // everything at or past the insertion point is reported later
            // than the new entry
            assert forall|t: int| pos <= t < prev.len() implies ranked_before(new, prev[t]) by {
                assert(prev[pos as int].index < i);
                assert(!ranked_before(prev[pos as int], new));
                assert(new.value > prev[pos as int].value);
                if t > pos {
                    assert(ranked_before(prev[pos as int], prev[t]));
                }
            }
            // every old buffer position still appears, one slot later when
            // it sat at or past the insertion point; the new position
            // appears at the insertion point itself
            assert forall|idx: int| 0 <= idx < post.len() implies appears(out@, idx) by {
                if idx < i {
                    assert(appears(prev, idx));
                    let j = choose|j: int| 0 <= j < prev.len() && (#[trigger] prev[j]).index
                        == idx;
                    if j < pos {
                        assert(out@[j].index == idx);
                    } else {
                        assert(out@[j + 1].index == idx);
                    }
                } else {
                    assert(out@[pos as int].index == idx);
                }
            }
            assert(is_ranking(post, out@));
        }
        i = i + 1;
    }
    proof {
        assert(scores@.subrange(0, scores@.len() as int) =~= scores@);
    }
    out
}

/// `r` holds the first `k` entries of the ranking of `scores` (all of them
/// when the buffer is shorter): strictly ordered, quoting scores, and every
/// position left out is reported later than everything in `r`.
pub open spec fn is_top_ranking(scores: Seq<u32>, k: int, r: Seq<Ranked>) -> bool {
    &&& r.len() == (if k < scores.len() {
        k
    } else {
        scores.len() as int
    })
    &&& forall|j: int|
        0 <= j < r.len() ==> (#[trigger] r[j]).index < scores.len()
            && r[j].value == scores[r[j].index as int]
    &&& forall|j: int, k2: int|
        0 <= j < k2 < r.len() ==> ranked_before(#[trigger] r[j], #[trigger] r[k2])
    &&& forall|idx: int|
        0 <= idx < scores.len() && !appears(r, idx) ==> forall|j: int|
            0 <= j < r.len() ==> ranked_before(
                #[trigger] r[j],
                (Ranked { index: idx as usize, value: scores[idx] }),
            )
}

/// The `k` best-scoring buffer positions in report order.
pub fn top_k(scores: &Vec<u32>, k: usize) -> (r: Vec<Ranked>)
    ensures
        is_top_ranking(scores@, k as int, r@),
{
    let full = rank_descending(scores);
    let mut out: Vec<Ranked> = Vec::new();
    let mut j: usize = 0;
    while j < k && j < full.len()
        invariant
            j <= full@.len(),
            k <= full@.len() ==> j <= k,
            out@ =~= full@.subrange(0, j as int),
        decreases full@.len() - j,
    {
        out.push(full[j]);
        j = j + 1;
    }
    proof {
        assert(out@.len() == (if (k as int) < scores@.len() {
            k as int
        } else {
            scores@.len() as int
        }));
        assert forall|idx: int| 0 <= idx < scores@.len() && !appears(out@, idx) implies forall|
            t: int,
        |
            0 <= t < out@.len() ==> ranked_before(
                #[trigger] out@[t],
                (Ranked { index: idx as usize, value: scores@[idx] }),
            ) by {
            assert(appears(full@, idx));
            let p = choose|p: int| 0 <= p < full@.len() && (#[trigger] full@[p]).index == idx;
            assert(full@[p] == (Ranked { index: idx as usize, value: scores@[idx] }));
            if p < out@.len() {
                assert(out@[p].index == idx);
                assert(appears(out@, idx));
            }
            assert forall|t: int|
                0 <= t < out@.len() implies ranked_before(
                #[trigger] out@[t],
                (Ranked { index: idx as usize, value: scores@[idx] }),
            ) by {
                assert(out@[t] == full@[t]);
                assert(ranked_before(full@[t], full@[p]));
            }
        }
    }
    out
}

} // verus!
