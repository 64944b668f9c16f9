//! A store of records together with the catalog that names their charts.
use crate::model::music::Music;
use crate::model::record::{record_views, FullRecord, FullRecordView, Volfoce};
use crate::ranking::{best_of, overall_volforce};
use crate::storage::asphyxia::AsphyxiaRecord;
use crate::storage::record::{loaded, records_of_ids, RecordStore};
use crate::storage::sdvx::{catalog_of, ids_by_name, Mdb, MusicStore};
use vstd::prelude::*;

verus! {

/// The best records of one profile, and the music catalog.
pub struct DataStore {
    record_store: RecordStore,
    music_store: MusicStore,
}

impl DataStore {
    /// The best records of the profile.
    pub closed spec fn records(&self) -> Seq<FullRecordView> {
        self.record_store@
    }

    /// The entries of the catalog.
    pub closed spec fn catalog(&self) -> Seq<Music> {
        self.music_store@
    }

    /// The store of the profile `user`: the catalog of the music list, and
    /// the best records of the profile among the lines of the save file.
    pub fn load(user: &str, events: &Vec<AsphyxiaRecord>, mdb: Mdb) -> (store: Self)
        ensures
            store.catalog() == catalog_of(mdb.music@),
            store.records() == loaded(events@, user@, catalog_of(mdb.music@)),
    {
        let music_store = MusicStore::from_mdb(mdb);
        let record_store = RecordStore::load(user, events, &music_store);
        DataStore { record_store, music_store }
    }

    /// The catalog, to look up the names of musics in.
    pub fn music_store(&self) -> (music_store: &MusicStore)
        ensures
            music_store@ == self.catalog(),
    {
        &self.music_store
    }

    pub fn get_record_by_id(&self, music_id: Vec<u16>) -> (records: Vec<FullRecord>)
        ensures
            record_views(records@) == records_of_ids(self.records(), music_id@),
    {
        self.record_store.get_record_by_id(music_id)
    }

    /// The records of the musics whose names a fuzzy search for `name`
    /// finds.
    pub fn get_record_by_name(&self, name: String) -> (records: Vec<FullRecord>)
        ensures
            record_views(records@) == records_of_ids(
                self.records(),
                ids_by_name(self.catalog(), name@, true),
            ),
    {
        let ids = self.music_store.get_id_by_name(&name, true);
        self.record_store.get_record_by_id(ids)
    }

    pub fn get_best50_records(&self) -> (best: Vec<FullRecord>)
        ensures
            record_views(best@) == best_of(self.records(), 50),
    {
        self.record_store.get_best50()
    }

    pub fn get_volforce(&self) -> (volforce: Volfoce)
        ensures
            volforce.0 == overall_volforce(self.records()),
    {
        self.record_store.compute_volforce()
    }
}

} // verus!
