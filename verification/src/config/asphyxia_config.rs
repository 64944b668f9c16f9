//! Settings for reading a local save file.
use vstd::prelude::*;

verus! {

/// The profile to read, and the paths of the save file and of the catalog.
#[derive(Debug)]
pub struct AsphyxiaConfig {
    pub refid: String,
    pub record_path: String,
    pub music_path: String,
}

impl Default for AsphyxiaConfig {
    fn default() -> (conf: Self)
        ensures
            conf.refid@ == ""@,
            conf.record_path@ == ""@,
            conf.music_path@ == ""@,
    {
        Self { refid: "".to_owned(), record_path: "".to_owned(), music_path: "".to_owned() }
    }
}

} // verus!
