use vstd::prelude::*;

use crate::process::ProcessData;

verus! {

/// Whether `a` is listed strictly before `b`: more CPU, or as much CPU and
/// more memory.
pub open spec fn ranks_before(a: ProcessData, b: ProcessData) -> bool {
    a.cpu_usage_percent > b.cpu_usage_percent || (a.cpu_usage_percent == b.cpu_usage_percent
        && a.mem_usage_percent > b.mem_usage_percent)
}

/// Whether two rows have the same rank.
pub open spec fn same_rank(a: ProcessData, b: ProcessData) -> bool {
    a.cpu_usage_percent == b.cpu_usage_percent && a.mem_usage_percent == b.mem_usage_percent
}

/// Whether the rows are in ranking order: no row ranks before one above it.
pub open spec fn is_ranked(r: Seq<ProcessData>) -> bool {
    forall|i: int, j: int| 0 <= i < j < r.len() ==> !ranks_before(#[trigger] r[j], #[trigger] r[i])
}

/// Whether `r` lists the rows of `v` once each, `r[i]` being `v[p[i]]`, with
/// rows of the same rank in the order that they have in `v`.
pub open spec fn is_stable_arrangement(r: Seq<ProcessData>, v: Seq<ProcessData>, p: Seq<int>) -> bool {
    &&& r.len() == v.len()
    &&& p.len() == v.len()
    &&& forall|i: int| 0 <= i < p.len() ==> 0 <= #[trigger] p[i] < v.len()
    &&& forall|i: int, j: int| 0 <= i < j < p.len() ==> #[trigger] p[i] != #[trigger] p[j]
    &&& forall|i: int| 0 <= i < r.len() ==> #[trigger] r[i] == v[p[i]]
    &&& forall|i: int, j: int|
        0 <= i < j < r.len() && same_rank(#[trigger] r[i], #[trigger] r[j]) ==> p[i] < p[j]
}

/// Whether row `a` ranks before row `b`.
pub fn rank_before(a: &ProcessData, b: &ProcessData) -> (r: bool)
    ensures
        r == ranks_before(*a, *b),
{
    a.cpu_usage_percent > b.cpu_usage_percent || (a.cpu_usage_percent == b.cpu_usage_percent
        && a.mem_usage_percent > b.mem_usage_percent)
}

/// Sorts rows by CPU share, highest first, then by memory share, highest
/// first. The sort is stable: rows of the same rank keep their order.
pub fn sort_rows(rows: Vec<ProcessData>) -> (r: Vec<ProcessData>)
    ensures
        is_ranked(r@),
        exists|p: Seq<int>| is_stable_arrangement(r@, rows@, p),
{
    let ghost v = rows@;
    let mut rest = rows;
    let mut r: Vec<ProcessData> = Vec::new();
    let ghost mut p: Seq<int> = Seq::empty();
    while rest.len() > 0
        invariant
            r.len() + rest.len() == v.len(),
            rest@ == v.subrange(r.len() as int, v.len() as int),
            is_ranked(r@),
            p.len() == r.len(),
            forall|i: int| 0 <= i < p.len() ==> 0 <= #[trigger] p[i] < r.len(),
            forall|i: int, j: int| 0 <= i < j < p.len() ==> #[trigger] p[i] != #[trigger] p[j],
            forall|i: int| 0 <= i < r.len() ==> #[trigger] r[i] == v[p[i]],
            forall|i: int, j: int|
                0 <= i < j < r.len() && same_rank(#[trigger] r[i], #[trigger] r[j]) ==> p[i]
                    < p[j],
        decreases rest.len(),
    {
        let ghost k = r.len() as int;
        let x = rest.remove(0);
        assert(x == v[k]);
        let mut pos: usize = r.len();
        while pos > 0 && rank_before(&x, &r[pos - 1])
            invariant
                pos <= r.len(),
                is_ranked(r@),
                forall|i: int| pos <= i < r.len() ==> ranks_before(x, #[trigger] r[i]),
            decreases pos,
        {
            pos = pos - 1;
        }
        proof {
            assert forall|i: int| 0 <= i < pos implies !ranks_before(x, #[trigger] r[i]) by {
                if ranks_before(x, r[i]) {
                    assert(!ranks_before(r[pos - 1], r[i]));
                }
            }
        }
        let ghost old_r = r@;
        let ghost old_p = p;
        r.insert(pos, x);
        proof {
            p = old_p.insert(pos as int, k);
            assert(r@ == old_r.insert(pos as int, x));
            assert forall|i: int, j: int| 0 <= i < j < r.len() implies !ranks_before(
                #[trigger] r[j],
                #[trigger] r[i],
            ) by {
                if j < pos {
                    assert(r[i] == old_r[i] && r[j] == old_r[j]);
                } else if j == pos {
                    assert(r[i] == old_r[i]);
                } else if i == pos {
                    assert(r[j] == old_r[j - 1]);
                } else if i < pos {
                    assert(r[i] == old_r[i] && r[j] == old_r[j - 1]);
                } else {
                    assert(r[i] == old_r[i - 1] && r[j] == old_r[j - 1]);
                }
            }
            assert forall|i: int| 0 <= i < r.len() implies #[trigger] r[i] == v[p[i]] by {
                if i < pos {
                    assert(r[i] == old_r[i] && p[i] == old_p[i]);
                } else if i > pos {
                    assert(r[i] == old_r[i - 1] && p[i] == old_p[i - 1]);
                }
            }
            assert forall|i: int| 0 <= i < p.len() implies 0 <= #[trigger] p[i] < r.len() by {
                if i < pos {
                    assert(p[i] == old_p[i]);
                } else if i > pos {
                    assert(p[i] == old_p[i - 1]);
                }
            }
            assert forall|i: int, j: int| 0 <= i < j < p.len() implies #[trigger] p[i]
                != #[trigger] p[j] by {
                if i < pos && j < pos {
                    assert(p[i] == old_p[i] && p[j] == old_p[j]);
                } else if i < pos && j > pos {
                    assert(p[i] == old_p[i] && p[j] == old_p[j - 1]);
                } else if i > pos {
                    assert(p[i] == old_p[i - 1] && p[j] == old_p[j - 1]);
                } else if i == pos {
                    assert(p[j] == old_p[j - 1]);
                } else {
                    assert(p[i] == old_p[i]);
                }
            }
            assert forall|i: int, j: int|
                0 <= i < j < r.len() && same_rank(#[trigger] r[i], #[trigger] r[j]) implies p[i]
                < p[j] by {
                if i < pos && j < pos {
                    assert(r[i] == old_r[i] && r[j] == old_r[j]);
                    assert(p[i] == old_p[i] && p[j] == old_p[j]);
                } else if i < pos && j == pos {
                    assert(p[i] == old_p[i]);
                } else if i < pos && j > pos {
                    assert(r[i] == old_r[i] && r[j] == old_r[j - 1]);
                    assert(p[i] == old_p[i] && p[j] == old_p[j - 1]);
                } else if i == pos {
                    assert(r[j] == old_r[j - 1]);
                    assert(ranks_before(x, old_r[j - 1]));
                } else {
                    assert(r[i] == old_r[i - 1] && r[j] == old_r[j - 1]);
                    assert(p[i] == old_p[i - 1] && p[j] == old_p[j - 1]);
                }
            }
        }
    }
    assert(is_stable_arrangement(r@, v, p));
    r
}

} // verus!
