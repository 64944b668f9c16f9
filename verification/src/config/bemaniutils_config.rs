//! Settings for reading the database of a server.
use vstd::prelude::*;

verus! {

/// The database to connect to, and the user whose plays are read.
#[derive(Debug)]
pub struct BemaniutilsConfig {
    pub db_address: String,
    pub db_port: u16,
    pub db_name: String,
    pub db_user: String,
    pub db_password: String,
    pub username: String,
}

impl Default for BemaniutilsConfig {
    fn default() -> (conf: Self)
        ensures
            conf.db_address@ == ""@,
            conf.db_port == 3306,
            conf.db_name@ == "bemani"@,
            conf.db_user@ == "root"@,
            conf.db_password@ == ""@,
            conf.username@ == ""@,
    {
        Self {
            db_address: "".to_owned(),
            db_port: 3306,
            db_name: "bemani".to_owned(),
            db_user: "root".to_owned(),
            db_password: "".to_owned(),
            username: "".to_owned(),
        }
    }
}

} // verus!
