//! The store of best records: one record per chart, the best play on it.
use crate::model::music::{Difficulty, Music};
use crate::model::record::{
    build_record, canonical_record, record_views, ClearType, FullRecord, FullRecordView, Grade,
    LevelStat, Volfoce,
};
use crate::ranking::{average_skill, best_n, best_of, overall_volforce};
use crate::stats::{aggregate, is_level_stats};
use crate::storage::asphyxia::AsphyxiaRecord;
use crate::storage::sdvx::{find_music, MusicStore};
use crate::text::str_equal;
use vstd::prelude::*;

verus! {

/// A score event reduced to the fields that a record is built from, with
/// the profile under `user_id`.
#[derive(Debug)]
pub struct Record {
    pub collection: String,
    pub music_id: u16,
    pub music_type: u8,
    pub score: u32,
    pub clear_type: u8,
    pub grade: u8,
    pub user_id: String,
}

impl Record {
    pub fn get_collectoin_str(&self) -> (collection: &str)
        ensures
            collection@ == self.collection@,
    {
        self.collection.as_str()
    }

    pub fn get_music_id(&self) -> (music_id: u16)
        ensures
            music_id == self.music_id,
    {
        self.music_id
    }

    pub fn get_score(&self) -> (score: u32)
        ensures
            score == self.score,
    {
        self.score
    }

    pub fn get_user_id_str(&self) -> (user_id: &str)
        ensures
            user_id@ == self.user_id@,
    {
        self.user_id.as_str()
    }

    pub fn get_music_type(&self) -> (music_type: u8)
        ensures
            music_type == self.music_type,
    {
        self.music_type
    }

    pub fn get_grade(&self) -> (grade: u8)
        ensures
            grade == self.grade,
    {
        self.grade
    }

    pub fn get_clear_type(&self) -> (clear_type: u8)
        ensures
            clear_type == self.clear_type,
    {
        self.clear_type
    }
}

impl FullRecord {
    /// The canonical record of the event `rec`, resolved against the catalog
    /// entry `mus`.
    pub fn from_record_with_music(rec: &Record, mus: Option<&Music>) -> (record: Self)
        ensures
            record@ == canonical_record(
                rec.music_id,
                rec.music_type,
                rec.score,
                Grade::of_code(rec.grade),
                ClearType::of_code(rec.clear_type),
                match mus {
                    Some(m) => Some(*m),
                    None => None,
                },
            ),
    {
        build_record(
            rec.get_music_id(),
            rec.get_music_type(),
            rec.get_score(),
            Grade::from(rec.get_grade()),
            ClearType::from(rec.get_clear_type()),
            mus,
        )
    }
}

/// The two records are of the same chart: the same music, the same
/// difficulty.
pub open spec fn same_chart(a: FullRecordView, b: FullRecordView) -> bool {
    a.music_id == b.music_id && a.difficulty == b.difficulty
}

/// No two records are of the same chart.
pub open spec fn charts_distinct(records: Seq<FullRecordView>) -> bool {
    forall|i: int, j: int| 0 <= i < j < records.len() ==> !same_chart(records[i], records[j])
}

/// Some record is of the chart of `record`.
pub open spec fn holds_chart(records: Seq<FullRecordView>, record: FullRecordView) -> bool {
    exists|i: int| 0 <= i < records.len() && same_chart(#[trigger] records[i], record)
}

/// The place of a record of the chart of `record`.
pub open spec fn chart_index(records: Seq<FullRecordView>, record: FullRecordView) -> int {
    choose|i: int| 0 <= i < records.len() && same_chart(#[trigger] records[i], record)
}

/// The records after `record` arrives. A first record of its chart goes to
/// the end. Where the chart has a record, the new one takes its place if its
/// volforce is strictly greater, and is dropped if not.
pub open spec fn ingested(records: Seq<FullRecordView>, record: FullRecordView) -> Seq<
    FullRecordView,
> {
    if holds_chart(records, record) {
        let i = chart_index(records, record);
        if records[i].volfoce.0 < record.volfoce.0 {
            records.update(i, record)
        } else {
            records
        }
    } else {
        records.push(record)
    }
}

/// The records after all of `arrivals` have arrived, in their order.
pub open spec fn ingested_all(records: Seq<FullRecordView>, arrivals: Seq<FullRecordView>) -> Seq<
    FullRecordView,
>
    decreases arrivals.len(),
{
    if arrivals.len() == 0 {
        records
    } else {
        ingested(ingested_all(records, arrivals.drop_last()), arrivals.last())
    }
}

/// The volforce that the records hold for the chart of `record`; 0 where
/// they hold none.
pub open spec fn stored_volforce(records: Seq<FullRecordView>, record: FullRecordView) -> nat {
    if holds_chart(records, record) {
        records[chart_index(records, record)].volfoce.0 as nat
    } else {
        0
    }
}

/// The chart of a record: its music and its difficulty.
pub open spec fn chart_of(record: FullRecordView) -> (u16, Difficulty) {
    (record.music_id, record.difficulty)
}

/// The charts that the records are of.
pub open spec fn charts(records: Seq<FullRecordView>) -> Set<(u16, Difficulty)> {
    records.map_values(|record: FullRecordView| chart_of(record)).to_set()
}

/// The score events of the profile `user` among the lines of a save file.
pub open spec fn is_score_of(event: AsphyxiaRecord, user: Seq<char>) -> bool {
    event.collection@ == "music"@ && event.refid@ == user
}

/// The canonical records of the score events of the profile `user`, in the
/// order of the lines, each resolved against the catalog.
pub open spec fn score_records(
    events: Seq<AsphyxiaRecord>,
    user: Seq<char>,
    catalog: Seq<Music>,
) -> Seq<FullRecordView>
    decreases events.len(),
{
    if events.len() == 0 {
        Seq::empty()
    } else {
        let before = score_records(events.drop_last(), user, catalog);
        let event = events.last();
        if is_score_of(event, user) {
            before.push(event.full_record(find_music(catalog, event.music_id)))
        } else {
            before
        }
    }
}

/// The best records of the profile `user`: the canonical records of its
/// score events, ingested in the order of the lines.
pub open spec fn loaded(events: Seq<AsphyxiaRecord>, user: Seq<char>, catalog: Seq<Music>) -> Seq<
    FullRecordView,
> {
    ingested_all(Seq::empty(), score_records(events, user, catalog))
}

/// The records of the musics in `ids`, in the order of the records.
pub open spec fn records_of_ids(records: Seq<FullRecordView>, ids: Seq<u16>) -> Seq<
    FullRecordView,
> {
    records.filter(|record: FullRecordView| ids.contains(record.music_id))
}

/// With distinct charts, a record is found under its chart at its own place.
pub proof fn lemma_chart_at(records: Seq<FullRecordView>, i: int, record: FullRecordView)
    requires
        charts_distinct(records),
        0 <= i < records.len(),
        same_chart(records[i], record),
    ensures
        holds_chart(records, record),
        chart_index(records, record) == i,
{
    assert(holds_chart(records, record));
    let k = chart_index(records, record);
    assert(0 <= k < records.len() && same_chart(records[k], record));
    if k < i {
        assert(!same_chart(records[k], records[i]));
    } else if i < k {
        assert(!same_chart(records[i], records[k]));
    }
}

/// An arrival leaves the charts of the records distinct.
pub proof fn lemma_ingested_distinct(records: Seq<FullRecordView>, record: FullRecordView)
    requires
        charts_distinct(records),
    ensures
        charts_distinct(ingested(records, record)),
{
    let after = ingested(records, record);
    if holds_chart(records, record) {
        let k = chart_index(records, record);
        assert forall|i: int, j: int| 0 <= i < j < after.len() implies !same_chart(
            after[i],
            after[j],
        ) by {
            assert(same_chart(after[i], records[i]));
            assert(same_chart(after[j], records[j]));
            assert(!same_chart(records[i], records[j]));
        }
    } else {
        assert forall|i: int, j: int| 0 <= i < j < after.len() implies !same_chart(
            after[i],
            after[j],
        ) by {
            if j == records.len() {
                assert(!same_chart(records[i], record));
            } else {
                assert(!same_chart(records[i], records[j]));
            }
        }
    }
}

/// Any number of arrivals leaves the charts of the records distinct.
pub proof fn lemma_ingested_all_distinct(
    records: Seq<FullRecordView>,
    arrivals: Seq<FullRecordView>,
)
    requires
        charts_distinct(records),
    ensures
        charts_distinct(ingested_all(records, arrivals)),
    decreases arrivals.len(),
{
    if arrivals.len() > 0 {
        lemma_ingested_all_distinct(records, arrivals.drop_last());
        lemma_ingested_distinct(ingested_all(records, arrivals.drop_last()), arrivals.last());
    }
}

/// The charts of the records after an arrival are those before it and the
/// chart of the arrival.
pub proof fn lemma_ingested_charts(records: Seq<FullRecordView>, record: FullRecordView)
    requires
        charts_distinct(records),
    ensures
        charts(ingested(records, record)) == charts(records).insert(chart_of(record)),
{
    let key = |record: FullRecordView| chart_of(record);
    let keys = records.map_values(key);
    if holds_chart(records, record) {
        let i = chart_index(records, record);
        assert(keys[i] == chart_of(record));
        assert(keys.to_set().contains(chart_of(record)));
        assert(records.update(i, record).map_values(key) =~= keys);
        assert(charts(records).insert(chart_of(record)) =~= charts(records));
    } else {
        assert(records.push(record).map_values(key) =~= keys.push(chart_of(record)));
        keys.lemma_push_to_set_commute(chart_of(record));
    }
}

/// The charts of the records after any number of arrivals are those before
/// them and the charts of the arrivals.
pub proof fn lemma_ingested_all_charts(
    records: Seq<FullRecordView>,
    arrivals: Seq<FullRecordView>,
)
    requires
        charts_distinct(records),
    ensures
        charts(ingested_all(records, arrivals)) == charts(records).union(charts(arrivals)),
    decreases arrivals.len(),
{
    let key = |record: FullRecordView| chart_of(record);
    if arrivals.len() == 0 {
        assert(arrivals.map_values(key) =~= Seq::empty());
        assert(charts(arrivals) =~= Set::empty());
        assert(charts(records).union(charts(arrivals)) =~= charts(records));
    } else {
        let front = arrivals.drop_last();
        let last = arrivals.last();
        lemma_ingested_all_charts(records, front);
        lemma_ingested_all_distinct(records, front);
        lemma_ingested_charts(ingested_all(records, front), last);
        assert(arrivals.map_values(key) =~= front.map_values(key).push(chart_of(last)));
        front.map_values(key).lemma_push_to_set_commute(chart_of(last));
        assert(charts(records).union(charts(front)).insert(chart_of(last)) =~= charts(
            records,
        ).union(charts(arrivals)));
    }
}

/// Records of distinct charts are as many as their charts.
pub proof fn lemma_distinct_charts_len(records: Seq<FullRecordView>)
    requires
        charts_distinct(records),
    ensures
        charts(records).len() == records.len(),
{
    let keys = records.map_values(|record: FullRecordView| chart_of(record));
    assert(keys.no_duplicates()) by {
        assert forall|i: int, j: int|
            0 <= i < keys.len() && 0 <= j < keys.len() && i != j implies keys[i] != keys[j] by {
            if i < j {
                assert(!same_chart(records[i], records[j]));
            } else {
                assert(!same_chart(records[j], records[i]));
            }
        }
    }
    keys.unique_seq_to_set();
}

/// A store filled from nothing holds exactly the charts of what arrived, one
/// record for each: never more records than distinct charts arrived, and
/// never more than arrivals.
pub proof fn lemma_store_holds_charts_of_input(arrivals: Seq<FullRecordView>)
    ensures
        charts_distinct(ingested_all(Seq::empty(), arrivals)),
        charts(ingested_all(Seq::empty(), arrivals)) == charts(arrivals),
        ingested_all(Seq::empty(), arrivals).len() == charts(arrivals).len(),
        ingested_all(Seq::empty(), arrivals).len() <= arrivals.len(),
{
    let none = Seq::<FullRecordView>::empty();
    let key = |record: FullRecordView| chart_of(record);
    lemma_ingested_all_distinct(none, arrivals);
    lemma_ingested_all_charts(none, arrivals);
    assert(none.map_values(key) =~= Seq::empty());
    assert(charts(none) =~= Set::empty());
    assert(charts(none).union(charts(arrivals)) =~= charts(arrivals));
    lemma_distinct_charts_len(ingested_all(none, arrivals));
    arrivals.map_values(key).lemma_cardinality_of_set();
}

/// The music and the slot code of each score event of the profile `user`, in
/// the order of the lines.
pub open spec fn raw_charts(events: Seq<AsphyxiaRecord>, user: Seq<char>) -> Seq<(u16, u8)>
    decreases events.len(),
{
    if events.len() == 0 {
        Seq::empty()
    } else {
        let before = raw_charts(events.drop_last(), user);
        let event = events.last();
        if is_score_of(event, user) {
            before.push((event.music_id, event.music_type))
        } else {
            before
        }
    }
}

/// The chart that the catalog resolves a music and a slot code to.
pub open spec fn resolved_chart(catalog: Seq<Music>, raw: (u16, u8)) -> (u16, Difficulty) {
    (
        raw.0,
        match find_music(catalog, raw.0) {
            Some(music) => Difficulty::of_code(raw.1).refined(music.info.inf_ver),
            None => Difficulty::Unknown,
        },
    )
}

/// The charts of the canonical records of a profile are the charts that its
/// score events resolve to, and no more than the events name.
pub proof fn lemma_resolved_charts(
    events: Seq<AsphyxiaRecord>,
    user: Seq<char>,
    catalog: Seq<Music>,
)
    ensures
        forall|raw: (u16, u8)| #[trigger]
            raw_charts(events, user).to_set().contains(raw) ==> charts(
                score_records(events, user, catalog),
            ).contains(resolved_chart(catalog, raw)),
        charts(score_records(events, user, catalog)).finite(),
        raw_charts(events, user).to_set().finite(),
        charts(score_records(events, user, catalog)).len() <= raw_charts(
            events,
            user,
        ).to_set().len(),
    decreases events.len(),
{
    broadcast use vstd::seq_lib::seq_to_set_is_finite;

    let key = |record: FullRecordView| chart_of(record);
    let records = score_records(events, user, catalog);
    let raws = raw_charts(events, user);
    if events.len() == 0 {
        assert(records.map_values(key) =~= Seq::empty());
        assert(charts(records) =~= Set::empty());
        assert(raws.to_set() =~= Set::empty());
    } else {
        let front = events.drop_last();
        let event = events.last();
        let records_before = score_records(front, user, catalog);
        let raws_before = raw_charts(front, user);
        lemma_resolved_charts(front, user, catalog);
        if is_score_of(event, user) {
            let raw = (event.music_id, event.music_type);
            let record = event.full_record(find_music(catalog, event.music_id));
            let chart = chart_of(record);
            assert(chart == resolved_chart(catalog, raw));
            assert(records.map_values(key) =~= records_before.map_values(key).push(chart));
            records_before.map_values(key).lemma_push_to_set_commute(chart);
            raws_before.lemma_push_to_set_commute(raw);
            assert(charts(records) == charts(records_before).insert(chart));
            assert(raws.to_set() == raws_before.to_set().insert(raw));
            assert forall|other: (u16, u8)| #[trigger]
                raws.to_set().contains(other) implies charts(records).contains(
                resolved_chart(catalog, other),
            ) by {
                if other != raw {
                    assert(raws_before.to_set().contains(other));
                }
            }
            if raws_before.to_set().contains(raw) {
                assert(charts(records_before).contains(chart));
                assert(charts(records) =~= charts(records_before));
                assert(raws.to_set() =~= raws_before.to_set());
            }
        }
    }
}

/// The best records of a profile are of distinct charts, and no more than
/// the distinct pairs of music and slot code that its score events name.
pub proof fn lemma_loaded_no_larger_than_input(
    events: Seq<AsphyxiaRecord>,
    user: Seq<char>,
    catalog: Seq<Music>,
)
    ensures
        charts_distinct(loaded(events, user, catalog)),
        charts(loaded(events, user, catalog)).len() == loaded(events, user, catalog).len(),
        loaded(events, user, catalog).len() <= raw_charts(events, user).to_set().len(),
        loaded(events, user, catalog).len() <= events.len(),
{
    let arrivals = score_records(events, user, catalog);
    lemma_store_holds_charts_of_input(arrivals);
    lemma_resolved_charts(events, user, catalog);
    lemma_distinct_charts_len(loaded(events, user, catalog));
    lemma_score_records_len(events, user, catalog);
}

/// A profile has no more canonical records than the save file has lines.
pub proof fn lemma_score_records_len(
    events: Seq<AsphyxiaRecord>,
    user: Seq<char>,
    catalog: Seq<Music>,
)
    ensures
        score_records(events, user, catalog).len() <= events.len(),
    decreases events.len(),
{
    if events.len() > 0 {
        lemma_score_records_len(events.drop_last(), user, catalog);
    }
}

/// The same record arriving twice leaves the records as they were after its
/// first arrival.
pub proof fn lemma_ingest_idempotent(records: Seq<FullRecordView>, record: FullRecordView)
    requires
        charts_distinct(records),
    ensures
        ingested(ingested(records, record), record) == ingested(records, record),
{
    let once = ingested(records, record);
    lemma_ingested_distinct(records, record);
    if holds_chart(records, record) {
        let i = chart_index(records, record);
        assert(same_chart(once[i], record));
        lemma_chart_at(once, i, record);
    } else {
        lemma_chart_at(once, records.len() as int, record);
    }
}

/// A score event that stands twice on end in a save file leaves the best
/// records as its first occurrence left them.
pub proof fn lemma_same_event_twice(
    events: Seq<AsphyxiaRecord>,
    event: AsphyxiaRecord,
    user: Seq<char>,
    catalog: Seq<Music>,
)
    ensures
        loaded(events.push(event).push(event), user, catalog) == loaded(
            events.push(event),
            user,
            catalog,
        ),
{
    let once = events.push(event);
    let twice = once.push(event);
    assert(twice.drop_last() =~= once);
    assert(once.drop_last() =~= events);
    if is_score_of(event, user) {
        let before = score_records(events, user, catalog);
        let record = event.full_record(find_music(catalog, event.music_id));
        assert(before.push(record).drop_last() =~= before);
        assert(before.push(record).push(record).drop_last() =~= before.push(record));
        lemma_ingested_all_distinct(Seq::empty(), before);
        lemma_ingest_idempotent(ingested_all(Seq::empty(), before), record);
    }
}

/// An arrival lowers the stored volforce of no chart, and leaves its own
/// chart with the greater of its volforce and the one stored before.
pub proof fn lemma_ingest_never_lowers(
    records: Seq<FullRecordView>,
    record: FullRecordView,
    chart: FullRecordView,
)
    requires
        charts_distinct(records),
    ensures
        stored_volforce(ingested(records, record), chart) >= stored_volforce(records, chart),
        stored_volforce(ingested(records, record), record) == if stored_volforce(records, record)
            < record.volfoce.0 {
            record.volfoce.0 as nat
        } else {
            stored_volforce(records, record)
        },
{
    let after = ingested(records, record);
    lemma_ingested_distinct(records, record);
    let place = if holds_chart(records, record) {
        chart_index(records, record)
    } else {
        records.len() as int
    };
    if holds_chart(records, record) {
        assert(same_chart(after[place], record));
    }
    lemma_chart_at(after, place, record);
    if holds_chart(records, chart) {
        let k = chart_index(records, chart);
        assert(same_chart(after[k], chart));
        lemma_chart_at(after, k, chart);
    }
}

/// A play with a higher score on the same chart, all else equal, leaves the
/// chart with no lower a stored volforce than the play with the lower score
/// would.
pub proof fn lemma_higher_score_never_lowers(
    records: Seq<FullRecordView>,
    music_id: u16,
    music_type: u8,
    low: u32,
    high: u32,
    grade: Grade,
    clear_type: ClearType,
    music: Option<Music>,
)
    requires
        charts_distinct(records),
        low <= high,
    ensures
        ({
            let lower = canonical_record(music_id, music_type, low, grade, clear_type, music);
            let higher = canonical_record(music_id, music_type, high, grade, clear_type, music);
            &&& lower.volfoce.0 <= higher.volfoce.0
            &&& stored_volforce(ingested(records, higher), higher) >= stored_volforce(
                ingested(records, lower),
                lower,
            )
            &&& stored_volforce(ingested(records, higher), higher) >= stored_volforce(
                records,
                higher,
            )
        }),
{
    let lower = canonical_record(music_id, music_type, low, grade, clear_type, music);
    let higher = canonical_record(music_id, music_type, high, grade, clear_type, music);
    crate::model::record::lemma_volforce_monotonic_in_score(
        lower.level,
        low,
        high,
        grade,
        clear_type,
    );
    crate::model::record::lemma_volforce_bounds(lower.level, low, grade, clear_type);
    crate::model::record::lemma_volforce_bounds(lower.level, high, grade, clear_type);
    lemma_ingest_never_lowers(records, higher, higher);
    lemma_ingest_never_lowers(records, lower, lower);
    assert(same_chart(lower, higher));
    assert(holds_chart(records, lower) == holds_chart(records, higher)) by {
        if holds_chart(records, lower) {
            assert(same_chart(records[chart_index(records, lower)], higher));
        }
        if holds_chart(records, higher) {
            assert(same_chart(records[chart_index(records, higher)], lower));
        }
    }
    if holds_chart(records, lower) {
        let k = chart_index(records, lower);
        lemma_chart_at(records, k, higher);
    }
}

/// The store of best records: at most one record per chart.
pub struct RecordStore {
    records: Vec<FullRecord>,
}

impl View for RecordStore {
    type V = Seq<FullRecordView>;

    closed spec fn view(&self) -> Seq<FullRecordView> {
        record_views(self.records@)
    }
}

impl RecordStore {
    #[verifier::type_invariant]
    spec fn one_record_per_chart(&self) -> bool {
        charts_distinct(record_views(self.records@))
    }

    /// The empty store.
    pub fn new() -> (store: Self)
        ensures
            store@ == Seq::<FullRecordView>::empty(),
    {
        let store = RecordStore { records: Vec::new() };
        assert(store@ =~= Seq::<FullRecordView>::empty());
        store
    }

    /// The number of records, which is the number of charts played.
    pub fn len(&self) -> (n: usize)
        ensures
            n == self@.len(),
            charts_distinct(self@),
    {
        proof {
            use_type_invariant(self);
        }
        self.records.len()
    }

    fn position(&self, music_id: u16, difficulty: Difficulty) -> (place: Option<usize>)
        ensures
            charts_distinct(self@),
            match place {
                Some(i) => {
                    &&& i < self@.len()
                    &&& self@[i as int].music_id == music_id
                    &&& self@[i as int].difficulty == difficulty
                },
                None => forall|k: int|
                    0 <= k < self@.len() ==> !(self@[k].music_id == music_id && self@[k].difficulty
                        == difficulty),
            },
    {
        proof {
            use_type_invariant(self);
        }
        let mut i: usize = 0;
        while i < self.records.len()
            invariant
                i <= self.records.len(),
                charts_distinct(self@),
                forall|k: int|
                    0 <= k < i ==> !(self@[k].music_id == music_id && self@[k].difficulty
                        == difficulty),
            decreases self.records.len() - i,
        {
            if self.records[i].music_id == music_id && self.records[i].difficulty == difficulty {
                return Some(i);
            }
            i += 1;
        }
        None
    }

    /// Takes `record` into the store: as the record of its chart where the
    /// chart has none, in place of the chart's record where its volforce is
    /// strictly greater. Otherwise the store stays as it is.
    pub fn ingest(&mut self, record: FullRecord)
        ensures
            final(self)@ == ingested(old(self)@, record@),
            charts_distinct(final(self)@),
    {
        let place = self.position(record.music_id, record.difficulty);
        let ghost before = self@;
        let mut records: Vec<FullRecord> = Vec::new();
        std::mem::swap(&mut self.records, &mut records);
        assert(record_views(records@) == before);
        proof {
            lemma_ingested_distinct(before, record@);
        }
        match place {
            Some(i) => {
                proof {
                    lemma_chart_at(before, i as int, record@);
                }
                if records[i].volfoce.0 < record.volfoce.0 {
                    records[i] = record;
                    assert(record_views(records@) =~= before.update(i as int, record@));
                }
            },
            None => {
                assert(!holds_chart(before, record@));
                records.push(record);
                assert(record_views(records@) =~= before.push(record@));
            },
        }
        std::mem::swap(&mut self.records, &mut records);
    }

    /// The best records of the profile `user` among the lines of a save
    /// file, each resolved against the catalog.
    pub fn load(user: &str, events: &Vec<AsphyxiaRecord>, music_store: &MusicStore) -> (store: Self)
        ensures
            store@ == loaded(events@, user@, music_store@),
            charts_distinct(store@),
    {
        let mut store = RecordStore::new();
        let mut i: usize = 0;
        assert(events@.take(0) =~= Seq::<AsphyxiaRecord>::empty());
        while i < events.len()
            invariant
                i <= events.len(),
                store@ == loaded(events@.take(i as int), user@, music_store@),
                charts_distinct(store@),
            decreases events.len() - i,
        {
            let ghost before = score_records(events@.take(i as int), user@, music_store@);
            proof {
                assert(events@.take(i + 1).drop_last() =~= events@.take(i as int));
            }
            let event = &events[i];
            if str_equal(event.get_collectoin_str(), "music") && str_equal(
                event.get_refid_str(),
                user,
            ) {
                let music = music_store.get_music_ref(event.get_music_id());
                let record = event.to_full_record(music);
                proof {
                    assert(before.push(record@).drop_last() =~= before);
                }
                store.ingest(record);
            }
            i += 1;
        }
        proof {
            assert(events@.take(i as int) =~= events@);
        }
        store
    }

    /// The records of the store as they are held, in the order in which
    /// their charts first arrived.
    pub fn records(&self) -> (records: &Vec<FullRecord>)
        ensures
            record_views(records@) == self@,
            charts_distinct(self@),
    {
        proof {
            use_type_invariant(self);
        }
        &self.records
    }

    /// Every record of the store, in the order in which their charts first
    /// arrived.
    pub fn all(&self) -> (records: Vec<FullRecord>)
        ensures
            record_views(records@) == self@,
            charts_distinct(self@),
    {
        proof {
            use_type_invariant(self);
        }
        let mut records: Vec<FullRecord> = Vec::new();
        let mut i: usize = 0;
        while i < self.records.len()
            invariant
                i <= self.records.len(),
                records@ == self.records@.take(i as int),
            decreases self.records.len() - i,
        {
            records.push(self.records[i].clone());
            assert(self.records@.take(i + 1) =~= self.records@.take(i as int).push(
                self.records@[i as int],
            ));
            i += 1;
        }
        assert(self.records@.take(i as int) =~= self.records@);
        records
    }

    /// The records of the musics in `music_id`, for every difficulty played,
    /// in the order of the store.
    pub fn get_record_by_id(&self, music_id: Vec<u16>) -> (records: Vec<FullRecord>)
        ensures
            record_views(records@) == records_of_ids(self@, music_id@),
    {
        let ghost wanted = |record: FullRecordView| music_id@.contains(record.music_id);
        let mut records: Vec<FullRecord> = Vec::new();
        let mut i: usize = 0;
        assert(self@.take(0).filter(wanted) =~= Seq::<FullRecordView>::empty()) by {
            self@.take(0).lemma_filter_len(wanted);
        }
        while i < self.records.len()
            invariant
                i <= self.records.len(),
                wanted == |record: FullRecordView| music_id@.contains(record.music_id),
                record_views(records@) == self@.take(i as int).filter(wanted),
            decreases self.records.len() - i,
        {
            let record = &self.records[i];
            let hit = contains_id(&music_id, record.music_id);
            proof {
                let front = self@.take(i as int);
                assert(self@.take(i + 1) =~= front.push(record@));
                front.lemma_filter_push(record@, wanted);
                assert(hit == wanted(record@));
                if hit {
                    assert(record_views(records@.push(*record)) =~= record_views(records@).push(
                        record@,
                    ));
                }
            }
            if hit {
                records.push(record.clone());
            }
            i += 1;
        }
        assert(self@.take(i as int) =~= self@);
        records
    }

    /// The best 50 records of the store, the highest volforce first.
    pub fn get_best50(&self) -> (best: Vec<FullRecord>)
        ensures
            record_views(best@) == best_of(self@, 50),
    {
        best_n(&self.records, 50)
    }

    /// The overall volforce: the volforces of the best 50 records, added up
    /// and divided by 50.
    pub fn compute_volforce(&self) -> (volforce: Volfoce)
        ensures
            volforce.0 == overall_volforce(self@),
    {
        average_skill(&self.records)
    }

    /// The tallies of the store: for the level `level` alone where one is
    /// given, for every level if not.
    pub fn get_level_stat(&self, level: Option<u8>) -> (stats: Vec<LevelStat>)
        requires
            self@.len() <= u16::MAX,
        ensures
            is_level_stats(stats@, self@, level),
    {
        aggregate(&self.records, level)
    }
}

/// Tells whether `id` is among `ids`.
pub fn contains_id(ids: &Vec<u16>, id: u16) -> (found: bool)
    ensures
        found == ids@.contains(id),
{
    let mut i: usize = 0;
    while i < ids.len()
        invariant
            i <= ids.len(),
            forall|k: int| 0 <= k < i ==> ids@[k] != id,
        decreases ids.len() - i,
    {
        if ids[i] == id {
            return true;
        }
        i += 1;
    }
    false
}

} // verus!
