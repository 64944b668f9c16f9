//! The music catalog: the entries by id, and the search by name.
use crate::model::music::{Difficulty, Music};
use crate::similarity::{fuzzy_match, similar};
use crate::text::{lowercase_of, str_equal, to_lowercase};
use vstd::prelude::*;
use vstd::set_lib::{lemma_int_range, lemma_len_subset, set_int_range};

verus! {

/// A music list as it is read from a catalog file.
#[derive(Debug, PartialEq)]
pub struct Mdb {
    pub music: Vec<Music>,
}

/// No two entries have the same id.
pub open spec fn ids_distinct(entries: Seq<Music>) -> bool {
    forall|i: int, j: int| 0 <= i < j < entries.len() ==> entries[i].id != entries[j].id
}

/// Some entry has the id `music_id`.
pub open spec fn has_id(entries: Seq<Music>, music_id: u16) -> bool {
    exists|i: int| 0 <= i < entries.len() && #[trigger] entries[i].id == music_id
}

/// The place of an entry with the id `music_id`.
pub open spec fn index_of_id(entries: Seq<Music>, music_id: u16) -> int {
    choose|i: int| 0 <= i < entries.len() && #[trigger] entries[i].id == music_id
}

/// The entry with the id `music_id`, if there is one.
pub open spec fn find_music(entries: Seq<Music>, music_id: u16) -> Option<Music> {
    if has_id(entries, music_id) {
        Some(entries[index_of_id(entries, music_id)])
    } else {
        None
    }
}

/// The entries after `music` is entered: it takes the place of the entry with
/// its id, or the last place where no entry has its id.
pub open spec fn registered(entries: Seq<Music>, music: Music) -> Seq<Music> {
    if has_id(entries, music.id) {
        entries.update(index_of_id(entries, music.id), music)
    } else {
        entries.push(music)
    }
}

/// The catalog of a music list: its entries entered one after the other.
pub open spec fn catalog_of(list: Seq<Music>) -> Seq<Music>
    decreases list.len(),
{
    if list.len() == 0 {
        Seq::empty()
    } else {
        registered(catalog_of(list.drop_last()), list.last())
    }
}

/// The name under which the id `music_id` is shown.
pub open spec fn name_of(entries: Seq<Music>, music_id: u16) -> Seq<char> {
    match find_music(entries, music_id) {
        Some(music) => music.info.name@,
        None => "(NOT FOUND)"@,
    }
}

/// The level of the chart of `music_id` in the slot with the code
/// `music_type`; 0 where the catalog has no such entry or chart.
pub open spec fn level_for(entries: Seq<Music>, music_id: u16, music_type: u8) -> u8 {
    match find_music(entries, music_id) {
        Some(music) => music.level_of(Difficulty::of_code(music_type)),
        None => 0,
    }
}

/// The query finds the name, both taken as they stand: the two are equal,
/// or, in a fuzzy search, the query is similar to the name.
pub open spec fn lowered_match(query: Seq<char>, name: Seq<char>, fuzzy: bool) -> bool {
    query == name || (fuzzy && similar(query, name))
}

/// The query finds the name: it does so once both are in lower case.
pub open spec fn name_matches(query: Seq<char>, name: Seq<char>, fuzzy: bool) -> bool {
    lowered_match(lowercase_of(query), lowercase_of(name), fuzzy)
}

/// Tells whether a query finds a name, both already in lower case.
pub fn is_lowered_match(query: &str, name: &str, fuzzy: bool) -> (hit: bool)
    ensures
        hit == lowered_match(query@, name@, fuzzy),
{
    if str_equal(query, name) {
        true
    } else if fuzzy {
        fuzzy_match(query, name)
    } else {
        false
    }
}

/// The ids of the entries whose names the query finds, in the order of the
/// entries.
pub open spec fn ids_by_name(entries: Seq<Music>, query: Seq<char>, fuzzy: bool) -> Seq<u16> {
    entries.filter(|music: Music| name_matches(query, music.info.name@, fuzzy)).map_values(
        |music: Music| music.id,
    )
}

/// How many of the five charts of an entry have the level `level`.
pub open spec fn charts_at_level(music: Music, level: u8) -> nat {
    let slots = music.difficulty;
    let novice: nat = if slots.novice.level == level { 1 } else { 0 };
    let advanced: nat = if slots.advanced.level == level { 1 } else { 0 };
    let exhaust: nat = if slots.exhaust.level == level { 1 } else { 0 };
    let infinite: nat = if slots.infinite.level == level { 1 } else { 0 };
    let maximum: nat = if slots.maximum.level == level { 1 } else { 0 };
    novice + advanced + exhaust + infinite + maximum
}

/// How many charts of the entries have the level `level`.
pub open spec fn level_count(entries: Seq<Music>, level: u8) -> nat
    decreases entries.len(),
{
    if entries.len() == 0 {
        0
    } else {
        level_count(entries.drop_last(), level) + charts_at_level(entries.last(), level)
    }
}

/// With distinct ids, an entry is found under its id at its own place.
pub proof fn lemma_find_at(entries: Seq<Music>, i: int)
    requires
        ids_distinct(entries),
        0 <= i < entries.len(),
    ensures
        has_id(entries, entries[i].id),
        index_of_id(entries, entries[i].id) == i,
        find_music(entries, entries[i].id) == Some(entries[i]),
{
    let id = entries[i].id;
    assert(has_id(entries, id));
    let k = index_of_id(entries, id);
    assert(0 <= k < entries.len() && entries[k].id == id);
    if k < i {
        assert(entries[k].id != entries[i].id);
    } else if i < k {
        assert(entries[i].id != entries[k].id);
    }
}

/// Entering an entry keeps the ids distinct.
pub proof fn lemma_registered_distinct(entries: Seq<Music>, music: Music)
    requires
        ids_distinct(entries),
    ensures
        ids_distinct(registered(entries, music)),
{
    let after = registered(entries, music);
    if has_id(entries, music.id) {
        let k = index_of_id(entries, music.id);
        assert forall|i: int, j: int| 0 <= i < j < after.len() implies after[i].id
            != after[j].id by {
            assert(after[i].id == entries[i].id);
            assert(after[j].id == entries[j].id);
        }
    } else {
        assert forall|i: int, j: int| 0 <= i < j < after.len() implies after[i].id
            != after[j].id by {
            if j == entries.len() {
                assert(entries[i].id != music.id);
            }
        }
    }
}

/// The ids of a catalog are distinct.
pub proof fn lemma_catalog_distinct(list: Seq<Music>)
    ensures
        ids_distinct(catalog_of(list)),
    decreases list.len(),
{
    if list.len() > 0 {
        lemma_catalog_distinct(list.drop_last());
        lemma_registered_distinct(catalog_of(list.drop_last()), list.last());
    }
}

/// After an entry is entered, its id resolves to it, and every other id
/// resolves as before.
pub proof fn lemma_registered_resolves(entries: Seq<Music>, music: Music, music_id: u16)
    requires
        ids_distinct(entries),
    ensures
        find_music(registered(entries, music), music_id) == if music_id == music.id {
            Some(music)
        } else {
            find_music(entries, music_id)
        },
{
    let after = registered(entries, music);
    lemma_registered_distinct(entries, music);
    let place = if has_id(entries, music.id) {
        index_of_id(entries, music.id)
    } else {
        entries.len() as int
    };
    assert(after[place] == music);
    if music_id == music.id {
        lemma_find_at(after, place);
    } else if has_id(entries, music_id) {
        let k = index_of_id(entries, music_id);
        assert(after[k] == entries[k]);
        lemma_find_at(after, k);
    } else {
        if has_id(after, music_id) {
            let k = index_of_id(after, music_id);
            assert(k != place);
            assert(entries[k].id == music_id);
        }
    }
}

/// A catalog resolves an id to the last entry of the list with that id, and
/// to nothing where the list has none.
pub proof fn lemma_catalog_resolves_last(list: Seq<Music>, music_id: u16)
    ensures
        match find_music(catalog_of(list), music_id) {
            Some(music) => exists|i: int|
                0 <= i < list.len() && #[trigger] list[i] == music && music.id == music_id
                    && forall|j: int| i < j < list.len() ==> (#[trigger] list[j]).id != music_id,
            None => forall|j: int| 0 <= j < list.len() ==> (#[trigger] list[j]).id != music_id,
        },
    decreases list.len(),
{
    if list.len() > 0 {
        let front = list.drop_last();
        lemma_catalog_resolves_last(front, music_id);
        lemma_catalog_distinct(front);
        lemma_registered_resolves(catalog_of(front), list.last(), music_id);
        if music_id == list.last().id {
            assert(list[list.len() - 1] == list.last());
        } else {
            match find_music(catalog_of(front), music_id) {
                Some(music) => {
                    let i = choose|i: int|
                        0 <= i < front.len() && #[trigger] front[i] == music && music.id
                            == music_id && forall|j: int|
                            i < j < front.len() ==> (#[trigger] front[j]).id != music_id;
                    assert(list[i] == music);
                    assert forall|j: int| i < j < list.len() implies (#[trigger] list[j]).id
                        != music_id by {
                        if j < front.len() {
                            assert(front[j].id != music_id);
                        }
                    }
                },
                None => {
                    assert forall|j: int| 0 <= j < list.len() implies (#[trigger] list[j]).id
                        != music_id by {
                        if j < front.len() {
                            assert(front[j].id != music_id);
                        }
                    }
                },
            }
        }
    }
}

/// Entries with distinct ids are no more than there are ids.
pub proof fn lemma_distinct_ids_bound(entries: Seq<Music>)
    requires
        ids_distinct(entries),
    ensures
        entries.len() <= 0x1_0000,
{
    let ids = entries.map_values(|music: Music| music.id as int);
    assert(ids.no_duplicates());
    ids.unique_seq_to_set();
    lemma_int_range(0, 0x1_0000);
    assert(ids.to_set().subset_of(set_int_range(0, 0x1_0000))) by {
        assert forall|id: int| ids.to_set().contains(id) implies set_int_range(
            0,
            0x1_0000,
        ).contains(id) by {
            let i = choose|i: int| 0 <= i < ids.len() && ids[i] == id;
            assert(ids[i] == entries[i].id as int);
        }
    }
    lemma_len_subset(ids.to_set(), set_int_range(0, 0x1_0000));
}

/// No entry has more than five charts at a level.
pub proof fn lemma_level_count_bound(entries: Seq<Music>, level: u8)
    ensures
        level_count(entries, level) <= 5 * entries.len(),
    decreases entries.len(),
{
    if entries.len() > 0 {
        lemma_level_count_bound(entries.drop_last(), level);
    }
}

/// The music catalog: the entries, each under an id of its own.
pub struct MusicStore {
    entries: Vec<Music>,
}

impl View for MusicStore {
    type V = Seq<Music>;

    closed spec fn view(&self) -> Seq<Music> {
        self.entries@
    }
}

impl MusicStore {
    #[verifier::type_invariant]
    spec fn ids_are_distinct(&self) -> bool {
        ids_distinct(self.entries@)
    }

    /// The empty catalog.
    pub fn new() -> (store: Self)
        ensures
            store@ == Seq::<Music>::empty(),
    {
        MusicStore { entries: Vec::new() }
    }

    fn position(&self, music_id: u16) -> (place: Option<usize>)
        ensures
            ids_distinct(self@),
            match place {
                Some(i) => i < self@.len() && self@[i as int].id == music_id && has_id(
                    self@,
                    music_id,
                ) && index_of_id(self@, music_id) == i,
                None => !has_id(self@, music_id),
            },
    {
        proof {
            use_type_invariant(self);
        }
        let mut i: usize = 0;
        while i < self.entries.len()
            invariant
                i <= self.entries.len(),
                ids_distinct(self.entries@),
                forall|k: int| 0 <= k < i ==> self.entries@[k].id != music_id,
            decreases self.entries.len() - i,
        {
            if self.entries[i].id == music_id {
                proof {
                    lemma_find_at(self.entries@, i as int);
                }
                return Some(i);
            }
            i += 1;
        }
        None
    }

    /// Enters `music` into the catalog, in place of the entry with its id
    /// where there is one.
    pub fn register(&mut self, music: Music)
        ensures
            final(self)@ == registered(old(self)@, music),
            ids_distinct(final(self)@),
    {
        proof {
            use_type_invariant(&*self);
            lemma_registered_distinct(self.entries@, music);
        }
        let place = self.position(music.id);
        let mut entries: Vec<Music> = Vec::new();
        std::mem::swap(&mut self.entries, &mut entries);
        match place {
            Some(i) => {
                entries[i] = music;
            },
            None => {
                entries.push(music);
            },
        }
        std::mem::swap(&mut self.entries, &mut entries);
    }

    /// The catalog of a music list. Where two entries of the list have the
    /// same id, the later one stands.
    pub fn from_mdb(mdb: Mdb) -> (store: Self)
        ensures
            store@ == catalog_of(mdb.music@),
            ids_distinct(store@),
    {
        let mut store = MusicStore::new();
        let mut i: usize = 0;
        while i < mdb.music.len()
            invariant
                i <= mdb.music.len(),
                store@ == catalog_of(mdb.music@.take(i as int)),
                ids_distinct(store@),
            decreases mdb.music.len() - i,
        {
            proof {
                assert(mdb.music@.take(i + 1).drop_last() =~= mdb.music@.take(i as int));
            }
            store.register(mdb.music[i].clone());
            i += 1;
        }
        proof {
            assert(mdb.music@.take(i as int) =~= mdb.music@);
        }
        store
    }

    /// The number of entries.
    pub fn len(&self) -> (n: usize)
        ensures
            n == self@.len(),
    {
        self.entries.len()
    }

    pub fn get_music_ref(&self, music_id: u16) -> (found: Option<&Music>)
        ensures
            match found {
                Some(music) => find_music(self@, music_id) == Some(*music),
                None => find_music(self@, music_id) == None::<Music>,
            },
    {
        match self.position(music_id) {
            Some(i) => Some(&self.entries[i]),
            None => None,
        }
    }

    pub fn get_music(&self, music_id: u16) -> (found: Option<&Music>)
        ensures
            match found {
                Some(music) => find_music(self@, music_id) == Some(*music),
                None => find_music(self@, music_id) == None::<Music>,
            },
    {
        self.get_music_ref(music_id)
    }

    pub fn get_music_name(&self, music_id: u16) -> (name: String)
        ensures
            name@ == name_of(self@, music_id),
    {
        match self.get_music_ref(music_id) {
            Some(music) => music.get_name(),
            None => "(NOT FOUND)".to_owned(),
        }
    }

    /// The level of the chart of `music_id` in the slot with the code
    /// `music_type`; 0 where the catalog has no such entry or chart.
    pub fn get_level(&self, music_id: u16, music_type: u8) -> (level: u8)
        ensures
            level == level_for(self@, music_id, music_type),
    {
        match self.get_music_ref(music_id) {
            Some(music) => music.get_level(music_type),
            None => 0,
        }
    }

    /// The ids of the entries whose names the query finds, in the order of
    /// the entries. Names are compared in lower case; a fuzzy search also
    /// finds the names that the query is similar to.
    pub fn get_id_by_name(&self, name: &String, fuzzy: bool) -> (ids: Vec<u16>)
        ensures
            ids@ == ids_by_name(self@, name@, fuzzy),
    {
        let query = to_lowercase(name.as_str());
        let ghost found = |music: Music| name_matches(name@, music.info.name@, fuzzy);
        let ghost id_of = |music: Music| music.id;
        let mut ids: Vec<u16> = Vec::new();
        let mut i: usize = 0;
        while i < self.entries.len()
            invariant
                i <= self.entries.len(),
                query@ == lowercase_of(name@),
                found == |music: Music| name_matches(name@, music.info.name@, fuzzy),
                id_of == |music: Music| music.id,
                ids@ == self.entries@.take(i as int).filter(found).map_values(id_of),
            decreases self.entries.len() - i,
        {
            let music = &self.entries[i];
            let lower = to_lowercase(music.info.name.as_str());
            let hit = is_lowered_match(query.as_str(), lower.as_str(), fuzzy);
            proof {
                let front = self.entries@.take(i as int);
                assert(self.entries@.take(i + 1) =~= front.push(*music));
                front.lemma_filter_push(*music, found);
                assert(hit == found(*music));
                if hit {
                    assert(front.filter(found).push(*music).map_values(id_of) =~= front.filter(
                        found,
                    ).map_values(id_of).push(music.id));
                }
            }
            if hit {
                ids.push(music.id);
            }
            i += 1;
        }
        proof {
            assert(self.entries@.take(i as int) =~= self.entries@);
        }
        ids
    }

    /// The number of charts in the catalog that have the level `level`.
    pub fn get_level_count(&self, level: u8) -> (count: usize)
        ensures
            count == level_count(self@, level),
    {
        proof {
            use_type_invariant(self);
            lemma_distinct_ids_bound(self.entries@);
        }
        let mut count: usize = 0;
        let mut i: usize = 0;
        while i < self.entries.len()
            invariant
                i <= self.entries.len(),
                self.entries.len() <= 0x1_0000,
                count == level_count(self.entries@.take(i as int), level),
                count <= 5 * i,
            decreases self.entries.len() - i,
        {
            proof {
                assert(self.entries@.take(i + 1).drop_last() =~= self.entries@.take(i as int));
            }
            let slots = &self.entries[i].difficulty;
            if slots.novice.level == level {
                count += 1;
            }
            if slots.advanced.level == level {
                count += 1;
            }
            if slots.exhaust.level == level {
                count += 1;
            }
            if slots.infinite.level == level {
                count += 1;
            }
            if slots.maximum.level == level {
                count += 1;
            }
            i += 1;
        }
        proof {
            assert(self.entries@.take(i as int) =~= self.entries@);
        }
        count
    }
}

} // verus!
