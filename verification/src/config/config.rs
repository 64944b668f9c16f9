//! The settings of a run.
use super::asphyxia_config::AsphyxiaConfig;
use super::bemaniutils_config::BemaniutilsConfig;
use vstd::prelude::*;

verus! {

/// The settings of a run: the file they were read from, and the two sources
/// of play data.
#[derive(Debug)]
pub struct Config {
    pub config_file: String,
    pub asyphyxia: AsphyxiaConfig,
    pub bemaniutils: BemaniutilsConfig,
}

impl Default for Config {
    fn default() -> (conf: Self)
        ensures
            conf.config_file@ == "config.toml"@,
            conf.asyphyxia.refid@ == ""@,
            conf.asyphyxia.record_path@ == ""@,
            conf.asyphyxia.music_path@ == ""@,
            conf.bemaniutils.db_address@ == ""@,
            conf.bemaniutils.db_port == 3306,
            conf.bemaniutils.db_name@ == "bemani"@,
            conf.bemaniutils.db_user@ == "root"@,
            conf.bemaniutils.db_password@ == ""@,
            conf.bemaniutils.username@ == ""@,
    {
        Self {
            config_file: "config.toml".to_owned(),
            asyphyxia: AsphyxiaConfig::default(),
            bemaniutils: BemaniutilsConfig::default(),
        }
    }
}

} // verus!
