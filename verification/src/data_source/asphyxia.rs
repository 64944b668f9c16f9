//! Play data of a local save file, with the catalog that names its charts.
use super::DataSource;
use crate::model::music::Music;
use crate::model::record::{record_views, FullRecord, FullRecordView, LevelStat, Volfoce};
use crate::storage::asphyxia::AsphyxiaRecord;
use crate::storage::record::{loaded, records_of_ids, RecordStore};
use crate::storage::sdvx::{catalog_of, ids_by_name, level_count, name_of, Mdb, MusicStore};
use vstd::prelude::*;

verus! {

/// The best records of one profile of a save file, and the catalog.
pub struct AsphyxiaDataSource {
    record_store: RecordStore,
    music_store: MusicStore,
}

impl AsphyxiaDataSource {
    /// The entries of the catalog.
    pub closed spec fn catalog(&self) -> Seq<Music> {
        self.music_store@
    }

    /// A source over a catalog and a store of records.
    pub fn new(music_store: MusicStore, record_store: RecordStore) -> (source: Self)
        ensures
            source.catalog() == music_store@,
            source.records() == record_store@,
    {
        AsphyxiaDataSource { record_store, music_store }
    }

    /// The source of the profile `refid`: the catalog of the music list, and
    /// the best records of the profile among the lines of the save file.
    pub fn load(refid: &str, events: &Vec<AsphyxiaRecord>, mdb: Mdb) -> (source: Self)
        ensures
            source.catalog() == catalog_of(mdb.music@),
            source.records() == loaded(events@, refid@, catalog_of(mdb.music@)),
    {
        let music_store = MusicStore::from_mdb(mdb);
        let record_store = RecordStore::load(refid, events, &music_store);
        AsphyxiaDataSource { record_store, music_store }
    }

    /// The name under which the music `music_id` is shown.
    pub fn get_music_name(&self, music_id: u16) -> (name: String)
        ensures
            name@ == name_of(self.catalog(), music_id),
    {
        self.music_store.get_music_name(music_id)
    }
}

impl DataSource for AsphyxiaDataSource {
    closed spec fn records(&self) -> Seq<FullRecordView> {
        self.record_store@
    }

    /// The records of the musics whose names in the catalog a fuzzy search
    /// for `name` finds.
    closed spec fn found_by_name(&self, name: Seq<char>) -> Seq<FullRecordView> {
        records_of_ids(self.record_store@, ids_by_name(self.music_store@, name, true))
    }

    /// The number of charts of the catalog at the level.
    closed spec fn chart_count(&self, level: u8) -> nat {
        level_count(self.music_store@, level)
    }

    fn record_count(&self) -> (count: usize) {
        self.record_store.len()
    }

    fn get_record_by_id(&self, music_id: Vec<u16>) -> (records: Vec<FullRecord>) {
        self.record_store.get_record_by_id(music_id)
    }

    fn get_record_by_name(&self, name: String) -> (records: Vec<FullRecord>)
        ensures
            record_views(records@) == records_of_ids(
                self.records(),
                ids_by_name(self.catalog(), name@, true),
            ),
    {
        let ids = self.music_store.get_id_by_name(&name, true);
        self.record_store.get_record_by_id(ids)
    }

    fn get_best50_records(&self) -> (best: Vec<FullRecord>) {
        self.record_store.get_best50()
    }

    fn get_volforce(&self) -> (volforce: Volfoce) {
        self.record_store.compute_volforce()
    }

    fn get_level_stat(&self, level: Option<u8>) -> (stats: Vec<LevelStat>) {
        self.record_store.get_level_stat(level)
    }

    fn get_level_count(&self, level: u8) -> (count: usize)
        ensures
            count == level_count(self.catalog(), level),
    {
        self.music_store.get_level_count(level)
    }
}

} // verus!
