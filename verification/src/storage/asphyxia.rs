//! The score events of the local save file.
use crate::model::music::Music;
use crate::model::record::{
    build_record, canonical_record, ClearType, FullRecord, FullRecordView, Grade,
};
use crate::text::{decimal, decimal_string};
use vstd::prelude::*;

verus! {

/// A time stamp of the save file, in milliseconds since the Unix epoch.
#[derive(Debug)]
pub struct AsphyxiaRecordDate {
    pub date: u128,
}

impl Default for AsphyxiaRecordDate {
    fn default() -> (stamp: Self)
        ensures
            stamp.date == 0,
    {
        AsphyxiaRecordDate { date: 0 }
    }
}

/// One line of the save file. A line of the collection "music" is a score
/// event: the best play of the profile `refid` on one chart.
#[derive(Debug)]
pub struct AsphyxiaRecord {
    pub collection: String,
    pub music_id: u16,
    pub music_type: u8,
    pub score: u32,
    pub clear_type: u8,
    pub grade: u8,
    pub refid: String,
    pub id: String,
    pub button_rate: u8,
    pub long_rate: u8,
    pub vol_rate: u8,
    pub create_at: AsphyxiaRecordDate,
    pub update_at: AsphyxiaRecordDate,
    pub a: String,
    pub s: String,
}

impl AsphyxiaRecord {
    /// The canonical record of this event, resolved against the catalog
    /// entry `music`.
    pub open spec fn full_record(self, music: Option<Music>) -> FullRecordView {
        canonical_record(
            self.music_id,
            self.music_type,
            self.score,
            Grade::of_code(self.grade),
            ClearType::of_code(self.clear_type),
            music,
        )
    }

    /// A score event of the collection "music" for the profile `refid`,
    /// created and last updated at `now`, in milliseconds since the Unix
    /// epoch.
    pub fn new_sdvx_record(
        refid: String,
        music_id: u16,
        music_type: u8,
        score: u32,
        clear_type: u8,
        grade: u8,
        id: String,
        now: u128,
    ) -> (record: Self)
        ensures
            record.collection@ == "music"@,
            record.music_id == music_id,
            record.music_type == music_type,
            record.score == score,
            record.clear_type == clear_type,
            record.grade == grade,
            record.refid == refid,
            record.id == id,
            record.button_rate == 0,
            record.long_rate == 0,
            record.vol_rate == 0,
            record.create_at.date == now,
            record.update_at.date == now,
            record.a@ == "sdvx@asphyxia"@,
            record.s@ == "plugins_profile"@,
    {
        Self {
            collection: "music".to_owned(),
            music_id,
            music_type,
            score,
            clear_type,
            grade,
            refid,
            id,
            button_rate: 0,
            long_rate: 0,
            vol_rate: 0,
            create_at: AsphyxiaRecordDate { date: now },
            update_at: AsphyxiaRecordDate { date: now },
            a: "sdvx@asphyxia".to_owned(),
            s: "plugins_profile".to_owned(),
        }
    }

    /// The score event that writes `record` for the profile `refid`, as the
    /// line number `index` of a save file: the difficulty, the clear type
    /// and the grade in the codes of the save file, the line number in
    /// decimal as the id of the line.
    pub fn of_full_record(refid: &String, record: &FullRecord, index: usize, now: u128) -> (event:
        Self)
        ensures
            event.collection@ == "music"@,
            event.refid == *refid,
            event.music_id == record.music_id,
            event.music_type == record.difficulty.code(),
            event.score == record.score,
            event.clear_type == record.clear_type.code(),
            event.grade == record.grade.code(),
            event.id@ == decimal(index as nat),
            event.create_at.date == now,
            event.update_at.date == now,
    {
        AsphyxiaRecord::new_sdvx_record(
            refid.clone(),
            record.get_music_id(),
            record.get_difficulty().into(),
            record.get_score(),
            record.get_clear_type().into(),
            record.get_grade().into(),
            decimal_string(index as u64),
            now,
        )
    }

    pub fn get_collectoin_str(&self) -> (collection: &str)
        ensures
            collection@ == self.collection@,
    {
        self.collection.as_str()
    }

    pub fn get_music_id(&self) -> (music_id: u16)
        ensures
            music_id == self.music_id,
    {
        self.music_id
    }

    pub fn get_score(&self) -> (score: u32)
        ensures
            score == self.score,
    {
        self.score
    }

    pub fn get_refid_str(&self) -> (refid: &str)
        ensures
            refid@ == self.refid@,
    {
        self.refid.as_str()
    }

    pub fn get_music_type(&self) -> (music_type: u8)
        ensures
            music_type == self.music_type,
    {
        self.music_type
    }

    pub fn get_grade(&self) -> (grade: u8)
        ensures
            grade == self.grade,
    {
        self.grade
    }

    pub fn get_clear_type(&self) -> (clear_type: u8)
        ensures
            clear_type == self.clear_type,
    {
        self.clear_type
    }

    /// The canonical record of this event. Every event has one: without a
    /// catalog entry it carries the name "(NOT FOUND)" and the level 0.
    pub fn to_full_record(&self, mus: Option<&Music>) -> (record: FullRecord)
        ensures
            record@ == self.full_record(
                match mus {
                    Some(m) => Some(*m),
                    None => None,
                },
            ),
    {
        build_record(
            self.get_music_id(),
            self.get_music_type(),
            self.get_score(),
            Grade::from(self.get_grade()),
            ClearType::from(self.get_clear_type()),
            mus,
        )
    }
}

} // verus!
