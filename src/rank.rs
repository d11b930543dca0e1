use vstd::prelude::*;
use crate::record::EnrichedRecord;

verus! {

/// Whether `a` may stand before `b` in a ranking: a larger statistic first,
/// and on equal statistics the smaller catalog index first.
pub open spec fn ranks_before(a: EnrichedRecord, b: EnrichedRecord) -> bool {
    a.statistic > b.statistic || (a.statistic == b.statistic && a.index <= b.index)
}

/// Whether `s` is ordered by statistic, descending, ties by index, ascending.
pub open spec fn is_ranked(s: Seq<EnrichedRecord>) -> bool {
    forall|i: int, j: int| 0 <= i < j < s.len() ==> ranks_before(#[trigger] s[i], #[trigger] s[j])
}

proof fn lemma_insert_keeps_multiset(s: Seq<EnrichedRecord>, p: int, x: EnrichedRecord)
    requires
        0 <= p <= s.len(),
    ensures
        s.insert(p, x).to_multiset() =~= s.to_multiset().insert(x),
{
    broadcast use vstd::seq_lib::group_to_multiset_ensures;

    let t = s.insert(p, x);
    assert(t.remove(p) =~= s);
    assert(t[p] == x);
    assert(t.contains(x));
}

/// Orders the records by statistic, descending; records with equal statistics
/// keep the order of their catalog indices.
pub fn rank(records: Vec<EnrichedRecord>) -> (r: Vec<EnrichedRecord>)
    ensures
        is_ranked(r@),
        r@.to_multiset() == records@.to_multiset(),
{
    broadcast use vstd::seq_lib::group_to_multiset_ensures;

    let mut out: Vec<EnrichedRecord> = Vec::new();
    let n = records.len();
    let mut i: usize = 0;
    while i < n
        invariant
            n == records@.len(),
            i <= n,
            is_ranked(out@),
            out@.to_multiset() == records@.subrange(0, i as int).to_multiset(),
        decreases n - i,
    {
        let x = records[i].duplicate();
        let mut p: usize = 0;
        while p < out.len() && (out[p].statistic > x.statistic || (out[p].statistic == x.statistic
            && out[p].index <= x.index))
            invariant
                p <= out@.len(),
                forall|a: int| 0 <= a < p ==> ranks_before(#[trigger] out@[a], x),
            decreases out@.len() - p,
        {
            p = p + 1;
        }
        let ghost before = out@;
        proof {
            assert forall|a: int| p <= a < before.len() implies ranks_before(x, #[trigger] before[a]) by {
                assert(!ranks_before(before[p as int], x));
                if a > p {
                    assert(ranks_before(before[p as int], before[a]));
                }
            }
        }
        out.insert(p, x);
        proof {
            lemma_insert_keeps_multiset(before, p as int, x);
            assert(records@.subrange(0, i + 1) =~= records@.subrange(0, i as int).push(x));
            vstd::seq_lib::to_multiset_build(records@.subrange(0, i as int), x);
            assert forall|a: int, b: int| 0 <= a < b < out@.len() implies ranks_before(
                #[trigger] out@[a],
                #[trigger] out@[b],
            ) by {
                if b < p {
                    assert(ranks_before(before[a], before[b]));
                } else if b == p {
                } else if a < p {
                    assert(ranks_before(before[a], x));
                    assert(ranks_before(x, before[b - 1]));
                } else if a == p {
                } else {
                    assert(ranks_before(before[a - 1], before[b - 1]));
                }
            }
        }
        i = i + 1;
    }
    assert(records@.subrange(0, n as int) =~= records@);
    out
}

} // verus!
