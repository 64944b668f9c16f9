//! The commands of the interactive prompt: what each is called, and what it
//! answers to its arguments.
pub mod command;

use crate::errors::Error;
use crate::model::record::{FullRecord, LevelStat, Volfoce};
use vstd::prelude::*;

verus! {

/// The tally of a level, with the number of charts at the level.
#[derive(Debug)]
pub struct LevelCount {
    pub stat: LevelStat,
    pub total: usize,
}

/// What a command answers: the data of the table that is shown for it.
#[derive(Debug)]
pub enum CmdOutput {
    /// The records found, one row each.
    Records(Vec<FullRecord>),
    /// The best records in the order of their rank, one row each.
    Best50(Vec<FullRecord>),
    /// The overall volforce.
    Volforce(Volfoce),
    /// The tallies, one row for each level.
    Count(Vec<LevelCount>),
}

/// A command of the prompt.
///
/// `name`, `usage` and `description` are what the help table shows.
pub trait Cmd {
    /// The name of the command.
    fn name(&self) -> &str;

    /// The usage of the command.
    fn usage(&self) -> &str;

    /// The description of the command.
    fn description(&self) -> &str;

    /// Does the command: answers to the arguments behind its name.
    fn do_cmd(&self, args: &[String]) -> Result<CmdOutput, Error>;
}

} // verus!
