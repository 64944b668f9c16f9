//! Play data of a server database, which names its charts itself.
use super::DataSource;
use crate::model::music::Difficulty;
use crate::model::record::{
    compute_volforce, lemma_volforce_bounds, record_views, volforce_of, ClearType, FullRecord,
    FullRecordView, Grade, LevelStat, Volfoce,
};
use crate::ranking::{rank, ranked};
use crate::stats::at_level;
use crate::storage::record::{ingested_all, RecordStore};
use crate::storage::sdvx::{is_lowered_match, name_matches};
use crate::text::{lowercase_of, to_lowercase};
use vstd::prelude::*;

verus! {

/// One score of the database: the song and the chart, its name and level,
/// and the result in the codes of the server.
#[derive(Debug)]
pub struct BemaniutilsRecord {
    pub songid: u16,
    pub name: String,
    pub chart: u8,
    pub points: u32,
    pub grade: u16,
    pub clear_type: u16,
    pub difficulty: u8,
}

impl BemaniutilsRecord {
    /// The canonical record of this score: the name and the level as the
    /// database gives them, the difficulty of the chart's slot, and the
    /// grade and clear type that the codes of the server stand for.
    pub open spec fn full_record(self) -> FullRecordView {
        let grade = Grade::of_wide_code(self.grade);
        let clear_type = ClearType::of_wide_code(self.clear_type);
        FullRecordView {
            music_id: self.songid,
            music_name: self.name@,
            difficulty: Difficulty::of_code(self.chart),
            level: self.difficulty,
            score: self.points,
            grade,
            clear_type,
            volfoce: Volfoce(volforce_of(self.difficulty, self.points, grade, clear_type) as u32),
        }
    }

    /// The canonical record of this score.
    pub fn to_full_record(&self) -> (record: FullRecord)
        ensures
            record@ == self.full_record(),
    {
        let grade = Grade::from(self.grade);
        let clear_type = ClearType::from(self.clear_type);
        proof {
            lemma_volforce_bounds(self.difficulty, self.points, grade, clear_type);
        }
        FullRecord {
            music_id: self.songid,
            music_name: self.name.clone(),
            difficulty: Difficulty::from(self.chart),
            level: self.difficulty,
            score: self.points,
            grade,
            clear_type,
            volfoce: compute_volforce(self.difficulty, self.points, grade, clear_type),
        }
    }
}

/// The canonical records of the scores, in the same order.
pub open spec fn full_records(rows: Seq<BemaniutilsRecord>) -> Seq<FullRecordView> {
    Seq::new(rows.len(), |i: int| rows[i].full_record())
}

/// The records whose names a fuzzy search for `name` finds.
pub open spec fn records_named(records: Seq<FullRecordView>, name: Seq<char>) -> Seq<
    FullRecordView,
> {
    records.filter(|record: FullRecordView| name_matches(name, record.music_name, true))
}

/// The best records of one user of a server.
pub struct BemaniutilsDataSource {
    store: RecordStore,
}

impl BemaniutilsDataSource {
    /// The source of the scores `rows`: their canonical records, ingested in
    /// the order of the rows.
    pub fn from_rows(rows: &Vec<BemaniutilsRecord>) -> (source: Self)
        ensures
            source.records() == ingested_all(Seq::empty(), full_records(rows@)),
    {
        let ghost views = full_records(rows@);
        let mut store = RecordStore::new();
        let mut i: usize = 0;
        assert(views.take(0) =~= Seq::<FullRecordView>::empty());
        while i < rows.len()
            invariant
                i <= rows.len(),
                views == full_records(rows@),
                store@ == ingested_all(Seq::empty(), views.take(i as int)),
            decreases rows.len() - i,
        {
            proof {
                assert(views.take(i + 1).drop_last() =~= views.take(i as int));
                assert(views.take(i + 1).last() == rows@[i as int].full_record());
            }
            store.ingest(rows[i].to_full_record());
            i += 1;
        }
        assert(views.take(i as int) =~= views);
        BemaniutilsDataSource { store }
    }

    /// All records, the highest volforce first.
    pub fn get_records(&self) -> (records: Vec<FullRecord>)
        ensures
            record_views(records@) == ranked(self.records()),
    {
        rank(self.store.records())
    }
}

impl DataSource for BemaniutilsDataSource {
    closed spec fn records(&self) -> Seq<FullRecordView> {
        self.store@
    }

    /// The records whose own names a fuzzy search for `name` finds.
    closed spec fn found_by_name(&self, name: Seq<char>) -> Seq<FullRecordView> {
        records_named(self.store@, name)
    }

    /// The number of records at the level: the database lists no chart
    /// without a score.
    closed spec fn chart_count(&self, level: u8) -> nat {
        self.store@.filter(at_level(level)).len()
    }

    fn record_count(&self) -> (count: usize) {
        self.store.len()
    }

    fn get_record_by_id(&self, music_id: Vec<u16>) -> (records: Vec<FullRecord>) {
        self.store.get_record_by_id(music_id)
    }

    fn get_record_by_name(&self, name: String) -> (records: Vec<FullRecord>)
        ensures
            record_views(records@) == records_named(self.records(), name@),
    {
        let all = self.store.records();
        let ghost views = record_views(all@);
        let ghost found = |record: FullRecordView| name_matches(name@, record.music_name, true);
        let query = to_lowercase(name.as_str());
        let mut records: Vec<FullRecord> = Vec::new();
        let mut i: usize = 0;
        assert(views.take(0).filter(found) =~= Seq::<FullRecordView>::empty()) by {
            views.take(0).lemma_filter_len(found);
        }
        while i < all.len()
            invariant
                i <= all.len(),
                views == record_views(all@),
                query@ == lowercase_of(name@),
                found == |record: FullRecordView| name_matches(name@, record.music_name, true),
                record_views(records@) == views.take(i as int).filter(found),
            decreases all.len() - i,
        {
            let record = &all[i];
            let lower = to_lowercase(record.get_music_name_str());
            let hit = is_lowered_match(query.as_str(), lower.as_str(), true);
            proof {
                let front = views.take(i as int);
                assert(views.take(i + 1) =~= front.push(record@));
                front.lemma_filter_push(record@, found);
                assert(hit == found(record@));
                if hit {
                    assert(record_views(records@.push(*record)) =~= record_views(records@).push(
                        record@,
                    ));
                }
            }
            if hit {
                records.push(record.clone());
            }
            i += 1;
        }
        assert(views.take(i as int) =~= views);
        records
    }

    fn get_best50_records(&self) -> (best: Vec<FullRecord>) {
        self.store.get_best50()
    }

    fn get_volforce(&self) -> (volforce: Volfoce) {
        self.store.compute_volforce()
    }

    fn get_level_stat(&self, level: Option<u8>) -> (stats: Vec<LevelStat>) {
        self.store.get_level_stat(level)
    }

    fn get_level_count(&self, level: u8) -> (count: usize)
        ensures
            count == self.records().filter(at_level(level)).len(),
    {
        let all = self.store.records();
        let ghost views = record_views(all@);
        let ghost wanted = at_level(level);
        let mut count: usize = 0;
        let mut i: usize = 0;
        assert(views.take(0).filter(wanted).len() == 0) by {
            views.take(0).lemma_filter_len(wanted);
        }
        while i < all.len()
            invariant
                i <= all.len(),
                views == record_views(all@),
                wanted == at_level(level),
                count == views.take(i as int).filter(wanted).len(),
                count <= i,
            decreases all.len() - i,
        {
            proof {
                let front = views.take(i as int);
                assert(views.take(i + 1) =~= front.push(all@[i as int]@));
                front.lemma_filter_push(all@[i as int]@, wanted);
            }
            if all[i].get_level() == level {
                count += 1;
            }
            i += 1;
        }
        assert(views.take(i as int) =~= views);
        count
    }
}

} // verus!
