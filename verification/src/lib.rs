//! Play-record normalization and scoring for SOUND VOLTEX play data.
//!
//! Raw score events are resolved against a music catalog, reduced to the best
//! record per chart, and queried for rankings, the overall volforce and
//! per-level statistics.
pub mod cmdline;
pub mod command;
pub mod config;
pub mod data_source;
pub mod errors;
pub mod model;
pub mod ranking;
pub mod similarity;
pub mod stats;
pub mod storage;
pub mod text;

pub use crate::config::config::Config;
pub use crate::data_source::asphyxia::AsphyxiaDataSource;
pub use crate::data_source::bemaniutils::BemaniutilsDataSource;
pub use crate::data_source::DataSource;
pub use crate::errors::Error;
