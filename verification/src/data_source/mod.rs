//! The sources of play data, behind one set of queries.
pub mod asphyxia;
pub mod bemaniutils;

use crate::model::record::{record_views, FullRecord, FullRecordView, LevelStat, Volfoce};
use crate::ranking::{best_of, lemma_ranked_len, overall_volforce, volforce_average};
use crate::stats::is_level_stats;
use crate::storage::record::{charts_distinct, records_of_ids};
use vstd::prelude::*;

verus! {

/// A source of play data: the best records of one player, and what can be
/// asked of them.
pub trait DataSource {
    /// The best records of the player: one per chart.
    spec fn records(&self) -> Seq<FullRecordView>;

    /// The records that a search for the name `name` finds.
    spec fn found_by_name(&self, name: Seq<char>) -> Seq<FullRecordView>;

    /// The number of charts at the level `level` that the source knows of.
    spec fn chart_count(&self, level: u8) -> nat;

    /// The number of records.
    fn record_count(&self) -> (count: usize)
        ensures
            count == self.records().len(),
            charts_distinct(self.records()),
    ;

    /// The records of the musics in `music_id`.
    fn get_record_by_id(&self, music_id: Vec<u16>) -> (records: Vec<FullRecord>)
        ensures
            record_views(records@) == records_of_ids(self.records(), music_id@),
    ;

    /// The records of the musics that a search for the name `name` finds.
    fn get_record_by_name(&self, name: String) -> (records: Vec<FullRecord>)
        ensures
            record_views(records@) == self.found_by_name(name@),
    ;

    /// The best 50 records, the highest volforce first.
    fn get_best50_records(&self) -> (best: Vec<FullRecord>)
        ensures
            record_views(best@) == best_of(self.records(), 50),
    ;

    /// The overall volforce of the player.
    fn get_volforce(&self) -> (volforce: Volfoce)
        ensures
            volforce.0 == overall_volforce(self.records()),
    {
        let best50 = self.get_best50_records();
        proof {
            lemma_ranked_len(self.records());
            assert(record_views(best50@).len() == best50@.len());
        }
        volforce_average(&best50)
    }

    /// The tallies of grades and clears: of the level `level` alone where
    /// one is given, of every level if not.
    fn get_level_stat(&self, level: Option<u8>) -> (stats: Vec<LevelStat>)
        requires
            self.records().len() <= u16::MAX,
        ensures
            is_level_stats(stats@, self.records(), level),
    ;

    /// The number of charts at the level `level` that the source knows of.
    fn get_level_count(&self, level: u8) -> (count: usize)
        ensures
            count == self.chart_count(level),
    ;
}

} // verus!
