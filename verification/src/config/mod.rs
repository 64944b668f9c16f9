//! Where the play data is read from.
pub mod asphyxia_config;
pub mod bemaniutils_config;
pub mod config;
