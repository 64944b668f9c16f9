//! The ranking of records by volforce, and the overall volforce.
//!
//! Records are ranked by volforce, the highest first. Among records of equal
//! volforce the lower music id comes first, then the lower difficulty; among
//! records equal in all three, the one that came first.
use crate::model::record::{record_views, FullRecord, FullRecordView, Volfoce};
use vstd::prelude::*;

verus! {

/// `a` ranks strictly before `b`.
pub open spec fn outranks(a: FullRecordView, b: FullRecordView) -> bool {
    ||| a.volfoce.0 > b.volfoce.0
    ||| a.volfoce.0 == b.volfoce.0 && a.music_id < b.music_id
    ||| a.volfoce.0 == b.volfoce.0 && a.music_id == b.music_id && a.difficulty.ordinal()
        < b.difficulty.ordinal()
}

/// `p` is the place at which `record` enters the ranking `ranking`: behind
/// every record that it does not outrank from the front on, before the first
/// that it outranks.
pub open spec fn is_rank_position(
    ranking: Seq<FullRecordView>,
    record: FullRecordView,
    p: int,
) -> bool {
    &&& 0 <= p <= ranking.len()
    &&& forall|k: int| 0 <= k < p ==> !outranks(record, #[trigger] ranking[k])
    &&& p < ranking.len() ==> outranks(record, ranking[p])
}

/// The place at which `record` enters the ranking.
pub open spec fn rank_position(ranking: Seq<FullRecordView>, record: FullRecordView) -> int {
    choose|p: int| is_rank_position(ranking, record, p)
}

/// The ranking of `records`: one after the other in their order, each enters
/// at its place.
pub open spec fn ranked(records: Seq<FullRecordView>) -> Seq<FullRecordView>
    decreases records.len(),
{
    if records.len() == 0 {
        Seq::empty()
    } else {
        let before = ranked(records.drop_last());
        before.insert(rank_position(before, records.last()), records.last())
    }
}

/// The first `n` records of the ranking, or all of them where they are fewer.
pub open spec fn best_of(records: Seq<FullRecordView>, n: nat) -> Seq<FullRecordView> {
    let ranking = ranked(records);
    if n < ranking.len() {
        ranking.take(n as int)
    } else {
        ranking
    }
}

/// The sum of the volforces of the records.
pub open spec fn volforce_sum(records: Seq<FullRecordView>) -> nat
    decreases records.len(),
{
    if records.len() == 0 {
        0
    } else {
        volforce_sum(records.drop_last()) + records.last().volfoce.0 as nat
    }
}

/// The overall volforce: the volforces of the best 50 records, added up and
/// divided by 50, rounded down. The divisor is 50 also where the records are
/// fewer.
pub open spec fn overall_volforce(records: Seq<FullRecordView>) -> nat {
    volforce_sum(best_of(records, 50)) / 50
}

/// Every ranking has exactly one place for a record to enter at.
pub proof fn lemma_rank_position(ranking: Seq<FullRecordView>, record: FullRecordView)
    ensures
        is_rank_position(ranking, record, rank_position(ranking, record)),
        forall|p: int|
            is_rank_position(ranking, record, p) ==> p == rank_position(ranking, record),
{
    lemma_rank_position_exists(ranking, record, 0);
    let q = rank_position(ranking, record);
    assert forall|p: int| is_rank_position(ranking, record, p) implies p == q by {
        if p < q {
            assert(!outranks(record, ranking[p]));
        } else if q < p {
            assert(!outranks(record, ranking[q]));
        }
    }
}

proof fn lemma_rank_position_exists(ranking: Seq<FullRecordView>, record: FullRecordView, from: int)
    requires
        0 <= from <= ranking.len(),
        forall|k: int| 0 <= k < from ==> !outranks(record, #[trigger] ranking[k]),
    ensures
        exists|p: int| is_rank_position(ranking, record, p),
    decreases ranking.len() - from,
{
    if from == ranking.len() || outranks(record, ranking[from]) {
        assert(is_rank_position(ranking, record, from));
    } else {
        lemma_rank_position_exists(ranking, record, from + 1);
    }
}

/// A ranking has as many records as were ranked.
pub proof fn lemma_ranked_len(records: Seq<FullRecordView>)
    ensures
        ranked(records).len() == records.len(),
    decreases records.len(),
{
    if records.len() > 0 {
        lemma_ranked_len(records.drop_last());
        lemma_rank_position(ranked(records.drop_last()), records.last());
    }
}

/// In a ranking no record is outranked by one behind it.
pub proof fn lemma_ranked_sorted(records: Seq<FullRecordView>)
    ensures
        forall|i: int, j: int|
            0 <= i < j < ranked(records).len() ==> !outranks(
                #[trigger] ranked(records)[j],
                #[trigger] ranked(records)[i],
            ),
    decreases records.len(),
{
    if records.len() > 0 {
        let before = ranked(records.drop_last());
        let last = records.last();
        let p = rank_position(before, last);
        let after = ranked(records);
        lemma_ranked_sorted(records.drop_last());
        lemma_rank_position(before, last);
        assert forall|i: int, j: int| 0 <= i < j < after.len() implies !outranks(
            #[trigger] after[j],
            #[trigger] after[i],
        ) by {
            if j == p {
                assert(after[i] == before[i]);
            } else if i == p {
                assert(after[j] == before[j - 1]);
                if p < j - 1 {
                    assert(!outranks(before[j - 1], before[p]));
                }
                lemma_outranks_order(last, before[p], before[j - 1]);
            } else {
                let bi = if i < p {
                    i
                } else {
                    i - 1
                };
                let bj = if j < p {
                    j
                } else {
                    j - 1
                };
                assert(after[i] == before[bi]);
                assert(after[j] == before[bj]);
                assert(!outranks(before[bj], before[bi]));
            }
        }
    }
}

/// Ranking is an order: a record that outranks another outranks all that the
/// other is not outranked by, and none outranks itself.
pub proof fn lemma_outranks_order(a: FullRecordView, b: FullRecordView, c: FullRecordView)
    ensures
        !outranks(a, a),
        outranks(a, b) ==> !outranks(b, a),
        outranks(a, b) && !outranks(c, b) ==> outranks(a, c),
        outranks(a, b) && outranks(b, c) ==> outranks(a, c),
{
}

/// A ranking holds the records that were ranked, each as often as it came.
pub proof fn lemma_ranked_permutation(records: Seq<FullRecordView>)
    ensures
        ranked(records).to_multiset() == records.to_multiset(),
    decreases records.len(),
{
    broadcast use vstd::seq_lib::group_to_multiset_ensures;

    if records.len() > 0 {
        let front = records.drop_last();
        let before = ranked(front);
        let last = records.last();
        let p = rank_position(before, last);
        lemma_ranked_permutation(front);
        lemma_rank_position(before, last);
        assert(records =~= front.push(last));
        assert(ranked(records).to_multiset() =~= before.to_multiset().insert(last));
        assert(records.to_multiset() =~= front.to_multiset().insert(last));
    } else {
        assert(ranked(records) =~= records);
    }
}

/// The best `n` are `n` of the records, or all of them where they are fewer;
/// none of them is outranked by one behind it, and no record that is left
/// out outranks one of them.
pub proof fn lemma_best_of(records: Seq<FullRecordView>, n: nat)
    ensures
        best_of(records, n).len() == if n < records.len() {
            n
        } else {
            records.len()
        },
        forall|i: int, j: int|
            0 <= i < j < best_of(records, n).len() ==> !outranks(
                #[trigger] best_of(records, n)[j],
                #[trigger] best_of(records, n)[i],
            ),
        forall|i: int|
            0 <= i < best_of(records, n).len() ==> records.contains(
                #[trigger] best_of(records, n)[i],
            ),
        forall|record: FullRecordView, i: int|
            records.contains(record) && !best_of(records, n).contains(record) && 0 <= i < best_of(
                records,
                n,
            ).len() ==> !#[trigger] outranks(record, best_of(records, n)[i]),
{
    broadcast use vstd::seq_lib::group_to_multiset_ensures;

    let ranking = ranked(records);
    let best = best_of(records, n);
    lemma_ranked_len(records);
    lemma_ranked_sorted(records);
    lemma_ranked_permutation(records);
    assert forall|i: int, j: int| 0 <= i < j < best.len() implies !outranks(
        #[trigger] best[j],
        #[trigger] best[i],
    ) by {
        assert(best[i] == ranking[i] && best[j] == ranking[j]);
    }
    assert forall|i: int| 0 <= i < best.len() implies records.contains(#[trigger] best[i]) by {
        assert(best[i] == ranking[i]);
        assert(ranking.to_multiset().count(ranking[i]) > 0);
    }
    assert forall|record: FullRecordView, i: int|
        records.contains(record) && !best.contains(record) && 0 <= i
            < best.len() implies !#[trigger] outranks(record, best[i]) by {
        assert(records.to_multiset().count(record) > 0);
        assert(ranking.contains(record));
        let k = choose|k: int| 0 <= k < ranking.len() && ranking[k] == record;
        if k < best.len() {
            assert(best[k] == record);
        }
        assert(best[i] == ranking[i]);
        assert(!outranks(ranking[k], ranking[i]));
    }
}

/// Of records that differ in their charts, each outranks all behind it in
/// the ranking.
pub proof fn lemma_ranked_strict(records: Seq<FullRecordView>)
    requires
        forall|i: int, j: int|
            0 <= i < j < records.len() ==> !(records[i].music_id == records[j].music_id
                && records[i].difficulty == records[j].difficulty),
    ensures
        forall|i: int, j: int|
            0 <= i < j < ranked(records).len() ==> outranks(
                #[trigger] ranked(records)[i],
                #[trigger] ranked(records)[j],
            ),
{
    let ranking = ranked(records);
    lemma_ranked_sorted(records);
    lemma_ranked_len(records);
    lemma_ranked_permutation(records);
    broadcast use vstd::seq_lib::group_to_multiset_ensures;

    assert forall|i: int, j: int| 0 <= i < j < ranking.len() implies outranks(
        #[trigger] ranking[i],
        #[trigger] ranking[j],
    ) by {
        let a = ranking[i];
        let b = ranking[j];
        assert(!outranks(b, a));
        lemma_same_chart_twice(records, ranking, i, j);
        crate::model::music::lemma_ordinal_injective(a.difficulty, b.difficulty);
    }
}

proof fn lemma_same_chart_twice(
    records: Seq<FullRecordView>,
    ranking: Seq<FullRecordView>,
    i: int,
    j: int,
)
    requires
        ranking.to_multiset() == records.to_multiset(),
        0 <= i < j < ranking.len(),
        forall|i: int, j: int|
            0 <= i < j < records.len() ==> !(records[i].music_id == records[j].music_id
                && records[i].difficulty == records[j].difficulty),
    ensures
        !(ranking[i].music_id == ranking[j].music_id && ranking[i].difficulty
            == ranking[j].difficulty),
{
    broadcast use vstd::seq_lib::group_to_multiset_ensures;

    let a = ranking[i];
    let b = ranking[j];
    assert(ranking.to_multiset().count(a) > 0);
    assert(ranking.to_multiset().count(b) > 0);
    assert(records.contains(a));
    assert(records.contains(b));
    let x = choose|x: int| 0 <= x < records.len() && records[x] == a;
    let y = choose|y: int| 0 <= y < records.len() && records[y] == b;
    if x == y {
        assert(records.no_duplicates()) by {
            assert forall|m: int, n: int|
                0 <= m < records.len() && 0 <= n < records.len() && m != n implies records[m]
                != records[n] by {
                if m < n {
                    assert(!(records[m].music_id == records[n].music_id && records[m].difficulty
                        == records[n].difficulty));
                } else {
                    assert(!(records[n].music_id == records[m].music_id && records[n].difficulty
                        == records[m].difficulty));
                }
            }
        }
        records.lemma_multiset_has_no_duplicates();
        assert(records.to_multiset().count(a) <= 1);
        lemma_count_two(ranking, i, j);
    } else if x < y {
        assert(!(records[x].music_id == records[y].music_id && records[x].difficulty
            == records[y].difficulty));
    } else {
        assert(!(records[y].music_id == records[x].music_id && records[y].difficulty
            == records[x].difficulty));
    }
}

proof fn lemma_count_two(s: Seq<FullRecordView>, i: int, j: int)
    requires
        0 <= i < j < s.len(),
        s[i] == s[j],
    ensures
        s.to_multiset().count(s[i]) >= 2,
    decreases s.len(),
{
    broadcast use vstd::seq_lib::group_to_multiset_ensures;

    let front = s.drop_last();
    assert(s =~= front.push(s.last()));
    if j == s.len() - 1 {
        assert(front[i] == s[i]);
        assert(front.contains(s[i]));
        assert(front.to_multiset().count(s[i]) > 0);
        assert(s.to_multiset() =~= front.to_multiset().insert(s.last()));
    } else {
        lemma_count_two(front, i, j);
        assert(s.to_multiset() =~= front.to_multiset().insert(s.last()));
    }
}

/// The sum of the volforces of `n` records is at most `n` times the highest
/// value of a volforce.
pub proof fn lemma_volforce_sum_bound(records: Seq<FullRecordView>)
    ensures
        volforce_sum(records) <= records.len() * 0xffff_ffff,
    decreases records.len(),
{
    if records.len() > 0 {
        lemma_volforce_sum_bound(records.drop_last());
    }
}

/// Tells whether `a` ranks strictly before `b`.
pub fn ranks_before(a: &FullRecord, b: &FullRecord) -> (before: bool)
    ensures
        before == outranks(a@, b@),
{
    let va = a.volfoce.0;
    let vb = b.volfoce.0;
    if va != vb {
        va > vb
    } else if a.music_id != b.music_id {
        a.music_id < b.music_id
    } else {
        a.difficulty.get_ordinal() < b.difficulty.get_ordinal()
    }
}

/// The ranking of `records`.
pub fn rank(records: &Vec<FullRecord>) -> (ranking: Vec<FullRecord>)
    ensures
        record_views(ranking@) == ranked(record_views(records@)),
        ranking@.len() == records@.len(),
{
    let ghost views = record_views(records@);
    let mut ranking: Vec<FullRecord> = Vec::new();
    let mut i: usize = 0;
    assert(record_views(ranking@) =~= ranked(views.take(0)));
    while i < records.len()
        invariant
            i <= records.len(),
            views == record_views(records@),
            ranking@.len() == i,
            record_views(ranking@) == ranked(views.take(i as int)),
        decreases records.len() - i,
    {
        let record = &records[i];
        let ghost before = record_views(ranking@);
        let mut p: usize = 0;
        while p < ranking.len() && !ranks_before(record, &ranking[p])
            invariant
                p <= ranking.len(),
                before == record_views(ranking@),
                forall|k: int| 0 <= k < p ==> !outranks(record@, #[trigger] before[k]),
            decreases ranking.len() - p,
        {
            p += 1;
        }
        proof {
            assert(is_rank_position(before, record@, p as int));
            lemma_rank_position(before, record@);
            assert(views.take(i + 1).drop_last() =~= views.take(i as int));
            assert(views.take(i + 1).last() == record@);
        }
        ranking.insert(p, record.clone());
        assert(record_views(ranking@) =~= before.insert(p as int, record@));
        i += 1;
    }
    assert(views.take(i as int) =~= views);
    ranking
}

/// The first `n` records of the ranking of `records`, or all of them where
/// they are fewer.
pub fn best_n(records: &Vec<FullRecord>, n: usize) -> (best: Vec<FullRecord>)
    ensures
        record_views(best@) == best_of(record_views(records@), n as nat),
{
    let mut best = rank(records);
    if n < best.len() {
        let ghost full = record_views(best@);
        best.truncate(n);
        assert(record_views(best@) =~= full.take(n as int));
    }
    best
}

/// The sum of the volforces of at most 50 records, divided by 50.
pub(crate) fn volforce_average(best: &Vec<FullRecord>) -> (volforce: Volfoce)
    requires
        best.len() <= 50,
    ensures
        volforce.0 == volforce_sum(record_views(best@)) / 50,
{
    let ghost views = record_views(best@);
    let mut sum: u64 = 0;
    let mut i: usize = 0;
    while i < best.len()
        invariant
            i <= best.len(),
            best.len() <= 50,
            views == record_views(best@),
            sum == volforce_sum(views.take(i as int)),
            sum <= i * 0xffff_ffff,
        decreases best.len() - i,
    {
        proof {
            assert(views.take(i + 1).drop_last() =~= views.take(i as int));
            assert(views.take(i + 1).last() == best@[i as int]@);
        }
        sum += best[i].volfoce.0 as u64;
        i += 1;
    }
    assert(views.take(i as int) =~= views);
    Volfoce((sum / 50) as u32)
}

/// The overall volforce of `records`: the sum of the volforces of the best
/// 50, divided by 50.
pub fn average_skill(records: &Vec<FullRecord>) -> (volforce: Volfoce)
    ensures
        volforce.0 == overall_volforce(record_views(records@)),
{
    let best = best_n(records, 50);
    proof {
        lemma_ranked_len(record_views(records@));
        assert(record_views(best@).len() == best@.len());
    }
    volforce_average(&best)
}

} // verus!
