//! The music catalog, the raw score events and the store of best records.
pub mod asphyxia;
pub mod record;
pub mod sdvx;
pub mod storage;
