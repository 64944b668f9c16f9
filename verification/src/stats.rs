//! The tally of grades and clears per level.
use crate::model::record::{record_views, ClearType, FullRecord, FullRecordView, Grade, LevelStat};
use vstd::prelude::*;

verus! {

/// The records at the level `level`.
pub open spec fn at_level(level: u8) -> spec_fn(FullRecordView) -> bool {
    |record: FullRecordView| record.level == level
}

/// The records at the level `level` with the grade `grade`.
pub open spec fn at_level_with_grade(level: u8, grade: Grade) -> spec_fn(FullRecordView) -> bool {
    |record: FullRecordView| record.level == level && record.grade == grade
}

/// The records at the level `level` with the clear type `clear`.
pub open spec fn at_level_with_clear(level: u8, clear: ClearType) -> spec_fn(
    FullRecordView,
) -> bool {
    |record: FullRecordView| record.level == level && record.clear_type == clear
}

/// The tally of the level `level` over `records`: for each of the grades S,
/// AAA+ and AAA and each of the clears from complete to perfect ultimate
/// chain the number of records at the level that have it, and the number of
/// all records at the level.
pub open spec fn level_stat_at(records: Seq<FullRecordView>, level: u8) -> LevelStat
    recommends
        records.len() <= u16::MAX,
{
    LevelStat {
        level,
        s_num: records.filter(at_level_with_grade(level, Grade::S)).len() as u16,
        tap_num: records.filter(at_level_with_grade(level, Grade::AAAPlus)).len() as u16,
        ta_num: records.filter(at_level_with_grade(level, Grade::AAA)).len() as u16,
        nc_num: records.filter(at_level_with_clear(level, ClearType::Complete)).len() as u16,
        hc_num: records.filter(at_level_with_clear(level, ClearType::HardComplete)).len() as u16,
        uc_num: records.filter(at_level_with_clear(level, ClearType::UltimateChain)).len() as u16,
        puc_num: records.filter(
            at_level_with_clear(level, ClearType::PerfectUltimateChain),
        ).len() as u16,
        played: records.filter(at_level(level)).len() as u16,
    }
}

/// The tally of a single record: 1 for the record itself, 1 for its grade if
/// that is S, AAA+ or AAA, and 1 for its clear type if that is at least
/// complete.
pub open spec fn unit_stat_of(record: FullRecordView) -> LevelStat {
    LevelStat {
        level: record.level,
        s_num: if record.grade == Grade::S { 1 } else { 0 },
        tap_num: if record.grade == Grade::AAAPlus { 1 } else { 0 },
        ta_num: if record.grade == Grade::AAA { 1 } else { 0 },
        nc_num: if record.clear_type == ClearType::Complete { 1 } else { 0 },
        hc_num: if record.clear_type == ClearType::HardComplete { 1 } else { 0 },
        uc_num: if record.clear_type == ClearType::UltimateChain { 1 } else { 0 },
        puc_num: if record.clear_type == ClearType::PerfectUltimateChain { 1 } else { 0 },
        played: 1,
    }
}

/// The level passes the filter: it is the level asked for, or none was.
pub open spec fn level_selected(filter: Option<u8>, level: u8) -> bool {
    match filter {
        Some(wanted) => wanted == level,
        None => true,
    }
}

/// `stats` are the tallies of `records` under the filter: in ascending order
/// of the level, the tally of each level that passes the filter and has a
/// record, and of no other.
pub open spec fn is_level_stats(
    stats: Seq<LevelStat>,
    records: Seq<FullRecordView>,
    filter: Option<u8>,
) -> bool {
    &&& forall|i: int, j: int| 0 <= i < j < stats.len() ==> stats[i].level < stats[j].level
    &&& forall|i: int|
        0 <= i < stats.len() ==> {
            &&& level_selected(filter, #[trigger] stats[i].level)
            &&& stats[i].played > 0
            &&& stats[i] == level_stat_at(records, stats[i].level)
        }
    &&& forall|level: u8|
        level_selected(filter, level) && #[trigger] records.filter(at_level(level)).len() > 0
            ==> exists|i: int| 0 <= i < stats.len() && #[trigger] stats[i].level == level
}

/// The tally of a level over the records `a` followed by `b` is the sum of
/// its tallies over `a` and over `b`.
pub proof fn lemma_level_stat_additive(a: Seq<FullRecordView>, b: Seq<FullRecordView>, level: u8)
    requires
        a.len() + b.len() <= u16::MAX,
    ensures
        level_stat_at(a, level).can_add(level_stat_at(b, level)),
        level_stat_at(a + b, level) == level_stat_at(a, level).plus(level_stat_at(b, level)),
{
    lemma_filter_add_len(a, b, at_level_with_grade(level, Grade::S));
    lemma_filter_add_len(a, b, at_level_with_grade(level, Grade::AAAPlus));
    lemma_filter_add_len(a, b, at_level_with_grade(level, Grade::AAA));
    lemma_filter_add_len(a, b, at_level_with_clear(level, ClearType::Complete));
    lemma_filter_add_len(a, b, at_level_with_clear(level, ClearType::HardComplete));
    lemma_filter_add_len(a, b, at_level_with_clear(level, ClearType::UltimateChain));
    lemma_filter_add_len(a, b, at_level_with_clear(level, ClearType::PerfectUltimateChain));
    lemma_filter_add_len(a, b, at_level(level));
}

proof fn lemma_filter_add_len(
    a: Seq<FullRecordView>,
    b: Seq<FullRecordView>,
    p: spec_fn(FullRecordView) -> bool,
)
    ensures
        (a + b).filter(p).len() == a.filter(p).len() + b.filter(p).len(),
        a.filter(p).len() <= a.len(),
        b.filter(p).len() <= b.len(),
{
    Seq::filter_distributes_over_add(a, b, p);
    a.lemma_filter_len(p);
    b.lemma_filter_len(p);
}

/// The tally of a single record.
pub fn unit_stat(record: &FullRecord) -> (stat: LevelStat)
    ensures
        stat == unit_stat_of(record@),
{
    let mut stat = LevelStat::new(record.get_level(), 0, 0, 0, 0, 0, 0, 0, 1);
    match record.get_clear_type() {
        ClearType::Complete => stat.incr_nc_num(1),
        ClearType::HardComplete => stat.incr_hc_num(1),
        ClearType::UltimateChain => stat.incr_uc_num(1),
        ClearType::PerfectUltimateChain => stat.incr_puc_num(1),
        _ => {},
    }
    match record.get_grade() {
        Grade::AAA => stat.incr_ta_num(1),
        Grade::AAAPlus => stat.incr_tap_num(1),
        Grade::S => stat.incr_s_num(1),
        _ => {},
    }
    stat
}

/// The tally of the level `level` over `records`.
pub fn level_stat(records: &Vec<FullRecord>, level: u8) -> (stat: LevelStat)
    requires
        records.len() <= u16::MAX,
    ensures
        stat == level_stat_at(record_views(records@), level),
{
    let ghost views = record_views(records@);
    let mut stat = LevelStat::new(level, 0, 0, 0, 0, 0, 0, 0, 0);
    let mut i: usize = 0;
    proof {
        lemma_level_stat_of_none(level);
        assert(views.take(0) =~= Seq::<FullRecordView>::empty());
    }
    while i < records.len()
        invariant
            i <= records.len(),
            records.len() <= u16::MAX,
            views == record_views(records@),
            stat == level_stat_at(views.take(i as int), level),
        decreases records.len() - i,
    {
        let record = &records[i];
        proof {
            let front = views.take(i as int);
            let one = seq![record@];
            assert(views.take(i + 1) =~= front + one);
            lemma_level_stat_additive(front, one, level);
            lemma_level_stat_of_one(record@, level);
        }
        if record.get_level() == level {
            stat = stat + unit_stat(record);
        }
        i += 1;
    }
    assert(views.take(i as int) =~= views);
    stat
}

proof fn lemma_level_stat_of_none(level: u8)
    ensures
        level_stat_at(Seq::empty(), level) == (LevelStat {
            level,
            s_num: 0,
            tap_num: 0,
            ta_num: 0,
            nc_num: 0,
            hc_num: 0,
            uc_num: 0,
            puc_num: 0,
            played: 0,
        }),
{
    let none = Seq::<FullRecordView>::empty();
    none.lemma_filter_len(at_level_with_grade(level, Grade::S));
    none.lemma_filter_len(at_level_with_grade(level, Grade::AAAPlus));
    none.lemma_filter_len(at_level_with_grade(level, Grade::AAA));
    none.lemma_filter_len(at_level_with_clear(level, ClearType::Complete));
    none.lemma_filter_len(at_level_with_clear(level, ClearType::HardComplete));
    none.lemma_filter_len(at_level_with_clear(level, ClearType::UltimateChain));
    none.lemma_filter_len(at_level_with_clear(level, ClearType::PerfectUltimateChain));
    none.lemma_filter_len(at_level(level));
}

proof fn lemma_filter_one(record: FullRecordView, p: spec_fn(FullRecordView) -> bool)
    ensures
        seq![record].filter(p).len() == if p(record) {
            1nat
        } else {
            0nat
        },
{
    let none = Seq::<FullRecordView>::empty();
    none.lemma_filter_len(p);
    assert(none.filter(p) =~= none);
    none.lemma_filter_push(record, p);
    assert(seq![record] =~= none.push(record));
}

/// The tally of a level over a single record is the tally of that record
/// where it is at the level, and holds nothing else.
pub proof fn lemma_level_stat_of_one(record: FullRecordView, level: u8)
    ensures
        level_stat_at(seq![record], level) == if record.level == level {
            unit_stat_of(record)
        } else {
            LevelStat {
                level,
                s_num: 0,
                tap_num: 0,
                ta_num: 0,
                nc_num: 0,
                hc_num: 0,
                uc_num: 0,
                puc_num: 0,
                played: 0,
            }
        },
{
    lemma_filter_one(record, at_level_with_grade(level, Grade::S));
    lemma_filter_one(record, at_level_with_grade(level, Grade::AAAPlus));
    lemma_filter_one(record, at_level_with_grade(level, Grade::AAA));
    lemma_filter_one(record, at_level_with_clear(level, ClearType::Complete));
    lemma_filter_one(record, at_level_with_clear(level, ClearType::HardComplete));
    lemma_filter_one(record, at_level_with_clear(level, ClearType::UltimateChain));
    lemma_filter_one(record, at_level_with_clear(level, ClearType::PerfectUltimateChain));
    lemma_filter_one(record, at_level(level));
}

/// The tallies of `records`: for the level `level` alone where one is given,
/// for every level if not. A level without a record has no tally; the
/// tallies come in ascending order of the level.
pub fn aggregate(records: &Vec<FullRecord>, level: Option<u8>) -> (stats: Vec<LevelStat>)
    requires
        records.len() <= u16::MAX,
    ensures
        is_level_stats(stats@, record_views(records@), level),
{
    let ghost views = record_views(records@);
    let mut stats: Vec<LevelStat> = Vec::new();
    let mut next: u16 = 0;
    while next < 256
        invariant
            next <= 256,
            records.len() <= u16::MAX,
            views == record_views(records@),
            forall|i: int, j: int| 0 <= i < j < stats.len() ==> stats[i].level < stats[j].level,
            forall|i: int|
                0 <= i < stats.len() ==> {
                    &&& level_selected(level, #[trigger] stats[i].level)
                    &&& stats[i].level < next
                    &&& stats[i].played > 0
                    &&& stats[i] == level_stat_at(views, stats[i].level)
                },
            forall|l: u8|
                l < next && level_selected(level, l) && #[trigger] views.filter(at_level(l)).len()
                    > 0 ==> exists|i: int| 0 <= i < stats.len() && #[trigger] stats[i].level == l,
        decreases 256 - next,
    {
        let current: u8 = next as u8;
        let selected = match level {
            Some(wanted) => wanted == current,
            None => true,
        };
        if selected {
            let stat = level_stat(records, current);
            proof {
                views.lemma_filter_len(at_level(current));
            }
            if stat.played > 0 {
                let ghost before = stats@;
                stats.push(stat);
                proof {
                    assert(stats@[before.len() as int].level == current);
                    assert forall|l: u8|
                        l < next + 1 && level_selected(level, l) && #[trigger] views.filter(
                            at_level(l),
                        ).len() > 0 implies exists|i: int|
                        0 <= i < stats.len() && #[trigger] stats[i].level == l by {
                        if l < next {
                            let i = choose|i: int|
                                0 <= i < before.len() && #[trigger] before[i].level == l;
                            assert(stats@[i].level == l);
                        } else {
                            assert(stats@[before.len() as int].level == l);
                        }
                    }
                }
            }
        }
        next += 1;
    }
    stats
}

} // verus!
