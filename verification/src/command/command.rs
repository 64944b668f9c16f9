//! The four commands: records of a music, the best 50, the overall
//! volforce, and the tallies per level.
use super::{Cmd, CmdOutput, LevelCount};
use crate::data_source::DataSource;
use crate::errors::Error;
use crate::model::record::{record_views, FullRecordView, LevelStat};
use crate::ranking::{best_of, lemma_ranked_len, overall_volforce};
use crate::stats::is_level_stats;
use crate::storage::record::records_of_ids;
use crate::text::{join, joined, parse_number, parsed_number, str_equal, string_views};
use std::rc::Rc;
use vstd::prelude::*;

verus! {

/// Gets the records of a music, by its id or by its name.
pub struct CmdRecord<T: DataSource> {
    store: Rc<T>,
}

impl<T: DataSource> CmdRecord<T> {
    /// The source that the command asks.
    pub closed spec fn source(&self) -> T {
        *self.store
    }

    pub fn new(store: Rc<T>) -> (cmd: Self)
        ensures
            cmd.source() == *store,
    {
        CmdRecord { store }
    }

    /// The records that the arguments ask for: those of the music with the
    /// id that the first argument writes, or, where it writes none, those
    /// that a search finds for the arguments as one name, a blank between
    /// each two.
    pub open spec fn asked(&self, args: Seq<String>) -> Seq<FullRecordView>
        recommends
            args.len() > 0,
    {
        match parsed_number(args[0]@, 0xffff) {
            Some(music_id) => records_of_ids(self.source().records(), seq![music_id as u16]),
            None => self.source().found_by_name(joined(string_views(args), " "@)),
        }
    }
}

impl<T: DataSource> Cmd for CmdRecord<T> {
    fn name(&self) -> (name: &str)
        ensures
            name@ == "record"@,
    {
        "record"
    }

    fn usage(&self) -> (usage: &str)
        ensures
            usage@ == "record <music-id | music-name>"@,
    {
        "record <music-id | music-name>"
    }

    fn description(&self) -> (description: &str)
        ensures
            description@ == "get music record by the music id or name."@,
    {
        "get music record by the music id or name."
    }

    /// Answers with the records asked for. Without an argument, and where
    /// no record is found, the command fails.
    fn do_cmd(&self, args: &[String]) -> (answer: Result<CmdOutput, Error>)
        ensures
            match answer {
                Ok(CmdOutput::Records(records)) => {
                    &&& args@.len() > 0
                    &&& records@.len() > 0
                    &&& record_views(records@) == self.asked(args@)
                },
                Ok(_) => false,
                Err(Error::DoCmdError(reason)) => if args@.len() == 0 {
                    reason@ == "args unmatched."@
                } else {
                    self.asked(args@).len() == 0 && reason@ == "The music record not found."@
                },
                Err(_) => false,
            },
    {
        if args.len() < 1 {
            return Err(Error::DoCmdError("args unmatched.".to_owned()));
        }
        let records = match parse_number(args[0].as_str(), 0xffff) {
            Some(music_id) => {
                let mut ids: Vec<u16> = Vec::new();
                ids.push(music_id as u16);
                assert(ids@ =~= seq![music_id as u16]);
                self.store.get_record_by_id(ids)
            },
            None => {
                let name = join(args, " ");
                self.store.get_record_by_name(name)
            },
        };
        assert(record_views(records@).len() == records@.len());
        if records.len() > 0 {
            Ok(CmdOutput::Records(records))
        } else {
            Err(Error::DoCmdError("The music record not found.".to_owned()))
        }
    }
}

/// Gets the best 50 records in the order of their volforce.
pub struct CmdBest50<T: DataSource> {
    store: Rc<T>,
}

impl<T: DataSource> CmdBest50<T> {
    /// The source that the command asks.
    pub closed spec fn source(&self) -> T {
        *self.store
    }

    pub fn new(store: Rc<T>) -> (cmd: Self)
        ensures
            cmd.source() == *store,
    {
        CmdBest50 { store }
    }
}

impl<T: DataSource> Cmd for CmdBest50<T> {
    fn name(&self) -> (name: &str)
        ensures
            name@ == "best50"@,
    {
        "best50"
    }

    fn usage(&self) -> (usage: &str)
        ensures
            usage@ == "best50"@,
    {
        "best50"
    }

    fn description(&self) -> (description: &str)
        ensures
            description@ == "get the best 50 records in volforce order."@,
    {
        "get the best 50 records in volforce order."
    }

    /// Answers with the best 50 records, whatever the arguments. Where the
    /// source has no record, the command fails.
    fn do_cmd(&self, _args: &[String]) -> (answer: Result<CmdOutput, Error>)
        ensures
            match answer {
                Ok(CmdOutput::Best50(records)) => {
                    &&& self.source().records().len() > 0
                    &&& record_views(records@) == best_of(self.source().records(), 50)
                },
                Ok(_) => false,
                Err(Error::DoCmdError(reason)) => {
                    &&& self.source().records().len() == 0
                    &&& reason@ == "The music record not found."@
                },
                Err(_) => false,
            },
    {
        let records = self.store.get_best50_records();
        proof {
            lemma_ranked_len(self.source().records());
            assert(record_views(records@).len() == records@.len());
        }
        if records.len() > 0 {
            Ok(CmdOutput::Best50(records))
        } else {
            Err(Error::DoCmdError("The music record not found.".to_owned()))
        }
    }
}

/// Computes the overall volforce.
pub struct CmdVolforce<T: DataSource> {
    store: Rc<T>,
}

impl<T: DataSource> CmdVolforce<T> {
    /// The source that the command asks.
    pub closed spec fn source(&self) -> T {
        *self.store
    }

    pub fn new(store: Rc<T>) -> (cmd: Self)
        ensures
            cmd.source() == *store,
    {
        CmdVolforce { store }
    }
}

impl<T: DataSource> Cmd for CmdVolforce<T> {
    fn name(&self) -> (name: &str)
        ensures
            name@ == "vf"@,
    {
        "vf"
    }

    fn usage(&self) -> (usage: &str)
        ensures
            usage@ == "vf"@,
    {
        "vf"
    }

    fn description(&self) -> (description: &str)
        ensures
            description@ == "compute and print your volforce."@,
    {
        "compute and print your volforce."
    }

    /// Answers with the overall volforce, whatever the arguments.
    fn do_cmd(&self, _args: &[String]) -> (answer: Result<CmdOutput, Error>)
        ensures
            match answer {
                Ok(CmdOutput::Volforce(volforce)) => volforce.0 == overall_volforce(
                    self.source().records(),
                ),
                _ => false,
            },
    {
        Ok(CmdOutput::Volforce(self.store.get_volforce()))
    }
}

/// What the argument of the count command asks for: the tallies of every
/// level for "all", those of one level for a number from 1 to 20, and
/// nothing for anything else.
pub open spec fn asked_level(arg: Seq<char>) -> Option<Option<u8>> {
    match parsed_number(arg, 0xff) {
        Some(level) => if 1 <= level <= 20 {
            Some(Some(level as u8))
        } else {
            None
        },
        None => if arg == "all"@ {
            Some(None)
        } else {
            None
        },
    }
}

/// Reads the argument of the count command.
pub fn parse_level(arg: &str) -> (asked: Option<Option<u8>>)
    ensures
        asked == asked_level(arg@),
{
    match parse_number(arg, 0xff) {
        Some(level) => {
            if level < 1 || level > 20 {
                None
            } else {
                Some(Some(level as u8))
            }
        },
        None => {
            if str_equal(arg, "all") {
                Some(None)
            } else {
                None
            }
        },
    }
}

/// The tallies of the rows, in the same order.
pub open spec fn stats_of(rows: Seq<LevelCount>) -> Seq<LevelStat> {
    Seq::new(rows.len(), |i: int| rows[i].stat)
}

/// Counts the grades and clears of one level, or of all.
pub struct CmdCount<T: DataSource> {
    store: Rc<T>,
}

impl<T: DataSource> CmdCount<T> {
    /// The source that the command asks.
    pub closed spec fn source(&self) -> T {
        *self.store
    }

    pub fn new(store: Rc<T>) -> (cmd: Self)
        ensures
            cmd.source() == *store,
    {
        CmdCount { store }
    }
}

impl<T: DataSource> Cmd for CmdCount<T> {
    fn name(&self) -> (name: &str)
        ensures
            name@ == "count"@,
    {
        "count"
    }

    fn usage(&self) -> (usage: &str)
        ensures
            usage@ == "count <all | level>"@,
    {
        "count <all | level>"
    }

    fn description(&self) -> (description: &str)
        ensures
            description@ == "count the grades of one level(or all)"@,
    {
        "count the grades of one level(or all)"
    }

    /// Answers with the tallies that the one argument asks for, each with
    /// the number of charts at its level. With no argument or several, with
    /// one that asks for nothing, and with more records than a tally can
    /// count, the command fails.
    fn do_cmd(&self, args: &[String]) -> (answer: Result<CmdOutput, Error>)
        ensures
            match answer {
                Ok(CmdOutput::Count(rows)) => {
                    &&& args@.len() == 1
                    &&& asked_level(args@[0]@) is Some
                    &&& self.source().records().len() <= u16::MAX
                    &&& is_level_stats(
                        stats_of(rows@),
                        self.source().records(),
                        asked_level(args@[0]@)->0,
                    )
                    &&& forall|i: int|
                        0 <= i < rows@.len() ==> (#[trigger] rows@[i]).total
                            == self.source().chart_count(rows@[i].stat.level)
                },
                Ok(_) => false,
                Err(Error::DoCmdError(reason)) => if args@.len() == 1 && asked_level(
                    args@[0]@,
                ) is Some {
                    self.source().records().len() > u16::MAX && reason@ == "too many records."@
                } else {
                    reason@ == "args unmatched."@
                },
                Err(_) => false,
            },
    {
        if args.len() != 1 {
            return Err(Error::DoCmdError("args unmatched.".to_owned()));
        }
        let level = match parse_level(args[0].as_str()) {
            Some(level) => level,
            None => {
                return Err(Error::DoCmdError("args unmatched.".to_owned()));
            },
        };
        if self.store.record_count() > 0xffff {
            return Err(Error::DoCmdError("too many records.".to_owned()));
        }
        let stats = self.store.get_level_stat(level);
        let mut rows: Vec<LevelCount> = Vec::new();
        let mut i: usize = 0;
        while i < stats.len()
            invariant
                i <= stats.len(),
                rows@.len() == i,
                forall|k: int|
                    0 <= k < i ==> (#[trigger] rows@[k]).stat == stats@[k] && rows@[k].total
                        == self.source().chart_count(stats@[k].level),
            decreases stats.len() - i,
        {
            let stat = stats[i];
            let total = self.store.get_level_count(stat.get_level());
            rows.push(LevelCount { stat, total });
            i += 1;
        }
        assert(stats_of(rows@) =~= stats@);
        Ok(CmdOutput::Count(rows))
    }
}

} // verus!
