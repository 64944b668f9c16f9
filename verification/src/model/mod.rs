//! The data model: charts, grades, clear types and play records.
pub mod music;
pub mod record;
