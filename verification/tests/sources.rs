use ruborute::cmdline::{
    interact, split_line, split_words, starts_with, Action, CmdCompleter,
};
use ruborute::command::command::{parse_level, CmdBest50, CmdCount, CmdRecord, CmdVolforce};
use ruborute::command::{Cmd, CmdOutput};
use ruborute::config::asphyxia_config::AsphyxiaConfig;
use ruborute::config::bemaniutils_config::BemaniutilsConfig;
use ruborute::config::config::Config;
use ruborute::data_source::asphyxia::AsphyxiaDataSource;
use ruborute::data_source::bemaniutils::{BemaniutilsDataSource, BemaniutilsRecord};
use ruborute::data_source::DataSource;
use ruborute::errors::Error;
use ruborute::model::music::{DiffInfo, Difficulty, Music, MusicDiffculty, MusicInfo};
use ruborute::model::record::{ClearType, FullRecord, Grade, LevelStat};
use ruborute::storage::asphyxia::{AsphyxiaRecord, AsphyxiaRecordDate};
use ruborute::storage::record::RecordStore;
use ruborute::storage::sdvx::{Mdb, MusicStore};
use ruborute::text::{chars_of, decimal_string, join, parse_number};
use std::rc::Rc;

fn music(id: u16, name: &str, inf_ver: u8, levels: [u8; 5]) -> Music {
    Music {
        id,
        info: MusicInfo { name: name.to_string(), inf_ver },
        difficulty: MusicDiffculty {
            novice: DiffInfo { level: levels[0] },
            advanced: DiffInfo { level: levels[1] },
            exhaust: DiffInfo { level: levels[2] },
            infinite: DiffInfo { level: levels[3] },
            maximum: DiffInfo { level: levels[4] },
        },
    }
}

fn mdb() -> Mdb {
    Mdb {
        music: vec![
            music(1, "Infinite", 3, [3, 8, 13, 16, 0]),
            music(2, "Max Burning!!", 0, [5, 10, 15, 0, 18]),
            music(3, "Sayonara Heaven", 5, [2, 7, 13, 17, 18]),
        ],
    }
}

fn event(
    user: &str,
    music_id: u16,
    music_type: u8,
    score: u32,
    clear: u8,
    grade: u8,
) -> AsphyxiaRecord {
    AsphyxiaRecord::new_sdvx_record(
        user.to_string(),
        music_id,
        music_type,
        score,
        clear,
        grade,
        "id".to_string(),
        0,
    )
}

fn local() -> AsphyxiaDataSource {
    let events = vec![
        event("u", 1, 2, 9_000_000, 2, 6),
        event("u", 2, 4, 9_500_000, 3, 8),
        event("u", 3, 4, 9_900_000, 5, 10),
        event("u", 3, 3, 9_800_000, 3, 9),
        event("v", 1, 0, 9_800_000, 3, 9),
        event("u", 77, 0, 9_800_000, 3, 9),
    ];
    AsphyxiaDataSource::load("u", &events, mdb())
}

fn row(
    songid: u16,
    name: &str,
    chart: u8,
    points: u32,
    grade: u16,
    clear: u16,
    level: u8,
) -> BemaniutilsRecord {
    BemaniutilsRecord {
        songid,
        name: name.to_string(),
        chart,
        points,
        grade,
        clear_type: clear,
        difficulty: level,
    }
}

fn remote() -> BemaniutilsDataSource {
    BemaniutilsDataSource::from_rows(&vec![
        row(10, "Ten Thousand", 2, 9_000_000, 600, 200, 14),
        row(11, "eleven", 4, 9_950_000, 900, 400, 19),
        row(12, "Twelve", 3, 10_000_000, 900, 500, 17),
        row(11, "eleven", 4, 9_000_000, 600, 200, 19),
        row(13, "thirteen", 0, 5_000_000, 200, 100, 14),
    ])
}

fn keys(records: &Vec<FullRecord>) -> Vec<(u16, Difficulty, u32)> {
    records.iter().map(|r| (r.music_id, r.difficulty, r.volfoce.get_internal())).collect()
}

fn args(words: &[&str]) -> Vec<String> {
    words.iter().map(|w| w.to_string()).collect()
}

fn failure(answer: Result<CmdOutput, Error>) -> String {
    match answer {
        Err(Error::DoCmdError(reason)) => reason,
        other => panic!("no command failure: {:?}", other),
    }
}

#[test]
fn a_local_source_answers_over_store_and_catalog() {
    let source = local();
    assert_eq!(source.record_count(), 5);
    assert_eq!(source.get_music_name(2), "Max Burning!!");
    assert_eq!(source.get_music_name(77), "(NOT FOUND)");
    // 13 * 9_000_000 * 94 * 100, 18 * 9_500_000 * 100 * 102, 18 * 9_900_000 * 105 * 110,
    // 17 * 9_800_000 * 102 * 102, each divided by 10^8
    assert_eq!(
        keys(&source.get_best50_records()),
        vec![
            (3, Difficulty::Maximum, 20582),
            (2, Difficulty::Maximum, 17442),
            (3, Difficulty::Vivid, 17333),
            (1, Difficulty::Exhaust, 10998),
            (77, Difficulty::Unknown, 0),
        ]
    );
    // 66355 / 50
    assert_eq!(source.get_volforce().get_internal(), 1327);
    assert_eq!(keys(&source.get_record_by_id(vec![1])), vec![(1, Difficulty::Exhaust, 10998)]);
    assert_eq!(
        keys(&source.get_record_by_name("Sayonara".to_string())),
        vec![(3, Difficulty::Maximum, 20582), (3, Difficulty::Vivid, 17333)]
    );
    assert_eq!(source.get_record_by_name("zzz_no_match".to_string()).len(), 0);
    assert_eq!(
        source.get_level_stat(Some(18)),
        vec![LevelStat::new(18, 1, 0, 1, 0, 1, 0, 1, 2)]
    );
    assert_eq!(source.get_level_stat(None).len(), 4);
    assert_eq!(source.get_level_count(18), 2);
    assert_eq!(source.get_level_count(13), 2);
}

#[test]
fn a_source_built_of_store_and_catalog() {
    let music_store = MusicStore::from_mdb(mdb());
    let events = vec![event("v", 1, 0, 9_800_000, 3, 9)];
    let record_store = RecordStore::load("v", &events, &music_store);
    let source = AsphyxiaDataSource::new(music_store, record_store);
    assert_eq!(source.record_count(), 1);
    // 3 * 9_800_000 * 102 * 102 / 10^8 = 3058.7
    assert_eq!(keys(&source.get_best50_records()), vec![(1, Difficulty::Novice, 3058)]);
    assert_eq!(source.get_volforce().get_internal(), 61);
}

#[test]
fn a_score_of_the_server_becomes_a_canonical_record() {
    let r = row(11, "eleven", 3, 9_950_000, 900, 400, 19).to_full_record();
    assert_eq!(r.music_id, 11);
    assert_eq!(r.music_name, "eleven");
    assert_eq!(r.difficulty, Difficulty::Infinite);
    assert_eq!(r.level, 19);
    assert_eq!(r.score, 9_950_000);
    assert_eq!(r.grade, Grade::S);
    assert_eq!(r.clear_type, ClearType::UltimateChain);
    // 19 * 9_950_000 * 105 * 105 / 10^8 = 20842.7
    assert_eq!(r.volfoce.get_internal(), 20842);
    let unknown = row(1, "x", 9, 1, 1, 1, 1).to_full_record();
    assert_eq!(unknown.difficulty, Difficulty::Unknown);
    assert_eq!(unknown.grade, Grade::NoGrade);
    assert_eq!(unknown.clear_type, ClearType::NoPlay);
}

#[test]
fn a_remote_source_answers_over_its_own_records() {
    let source = remote();
    assert_eq!(source.record_count(), 4);
    // 17 * 10_000_000 * 105 * 110, 19 * 9_950_000 * 105 * 105, 14 * 9_000_000 * 94 * 100,
    // 14 * 5_000_000 * 80 * 50, each divided by 10^8
    let ranking = vec![
        (11, Difficulty::Maximum, 20842),
        (12, Difficulty::Infinite, 19635),
        (10, Difficulty::Exhaust, 11844),
        (13, Difficulty::Novice, 2800),
    ];
    assert_eq!(keys(&source.get_records()), ranking);
    assert_eq!(keys(&source.get_best50_records()), ranking);
    // 55121 / 50
    assert_eq!(source.get_volforce().get_internal(), 1102);
    assert_eq!(keys(&source.get_record_by_id(vec![12, 13])), vec![ranking[1], ranking[3]]);
    assert_eq!(keys(&source.get_record_by_name("ELEVEN".to_string())), vec![ranking[0]]);
    assert_eq!(keys(&source.get_record_by_name("ten thousan".to_string())), vec![ranking[2]]);
    assert_eq!(source.get_record_by_name("zzz_no_match".to_string()).len(), 0);
    assert_eq!(
        source.get_level_stat(Some(14)),
        vec![LevelStat::new(14, 0, 0, 0, 1, 0, 0, 0, 2)]
    );
    assert_eq!(source.get_level_count(14), 2);
    assert_eq!(source.get_level_count(15), 0);
    assert_eq!(BemaniutilsDataSource::from_rows(&Vec::new()).record_count(), 0);
}

#[test]
fn the_names_of_the_commands() {
    let source = Rc::new(local());
    let record = CmdRecord::new(Rc::clone(&source));
    let best50 = CmdBest50::new(Rc::clone(&source));
    let vf = CmdVolforce::new(Rc::clone(&source));
    let count = CmdCount::new(Rc::clone(&source));
    assert_eq!(record.name(), "record");
    assert_eq!(record.usage(), "record <music-id | music-name>");
    assert_eq!(record.description(), "get music record by the music id or name.");
    assert_eq!(best50.name(), "best50");
    assert_eq!(best50.usage(), "best50");
    assert_eq!(best50.description(), "get the best 50 records in volforce order.");
    assert_eq!(vf.name(), "vf");
    assert_eq!(vf.usage(), "vf");
    assert_eq!(vf.description(), "compute and print your volforce.");
    assert_eq!(count.name(), "count");
    assert_eq!(count.usage(), "count <all | level>");
    assert_eq!(count.description(), "count the grades of one level(or all)");
}

#[test]
fn the_record_command_by_id_and_by_name() {
    let cmd = CmdRecord::new(Rc::new(local()));
    match cmd.do_cmd(&args(&["3"])) {
        Ok(CmdOutput::Records(records)) => assert_eq!(
            keys(&records),
            vec![(3, Difficulty::Maximum, 20582), (3, Difficulty::Vivid, 17333)]
        ),
        other => panic!("no records: {:?}", other),
    }
    match cmd.do_cmd(&args(&["+2", "ignored"])) {
        Ok(CmdOutput::Records(records)) => {
            assert_eq!(keys(&records), vec![(2, Difficulty::Maximum, 17442)])
        }
        other => panic!("no records: {:?}", other),
    }
    match cmd.do_cmd(&args(&["max", "burning"])) {
        Ok(CmdOutput::Records(records)) => {
            assert_eq!(keys(&records), vec![(2, Difficulty::Maximum, 17442)])
        }
        other => panic!("no records: {:?}", other),
    }
}

#[test]
fn the_record_command_fails_without_argument_or_record() {
    let cmd = CmdRecord::new(Rc::new(local()));
    assert_eq!(failure(cmd.do_cmd(&args(&[]))), "args unmatched.");
    assert_eq!(failure(cmd.do_cmd(&args(&["9"]))), "The music record not found.");
    assert_eq!(failure(cmd.do_cmd(&args(&["zzz_no_match"]))), "The music record not found.");
    // no id: too large for one, so it is taken as a name
    assert_eq!(failure(cmd.do_cmd(&args(&["65536"]))), "The music record not found.");
}

#[test]
fn the_best50_command() {
    let cmd = CmdBest50::new(Rc::new(local()));
    match cmd.do_cmd(&args(&["whatever"])) {
        Ok(CmdOutput::Best50(records)) => {
            assert_eq!(records.len(), 5);
            assert_eq!(records[0].volfoce.get_internal(), 20582);
        }
        other => panic!("no ranking: {:?}", other),
    }
    let empty = CmdBest50::new(Rc::new(BemaniutilsDataSource::from_rows(&Vec::new())));
    assert_eq!(failure(empty.do_cmd(&args(&[]))), "The music record not found.");
}

#[test]
fn the_volforce_command() {
    let cmd = CmdVolforce::new(Rc::new(remote()));
    match cmd.do_cmd(&args(&[])) {
        Ok(CmdOutput::Volforce(vf)) => assert_eq!(vf.to_string(), "1.102"),
        other => panic!("no volforce: {:?}", other),
    }
}

#[test]
fn the_count_command_of_one_level_and_of_all() {
    let cmd = CmdCount::new(Rc::new(local()));
    match cmd.do_cmd(&args(&["18"])) {
        Ok(CmdOutput::Count(rows)) => {
            assert_eq!(rows.len(), 1);
            assert_eq!(rows[0].stat, LevelStat::new(18, 1, 0, 1, 0, 1, 0, 1, 2));
            assert_eq!(rows[0].total, 2);
        }
        other => panic!("no tallies: {:?}", other),
    }
    match cmd.do_cmd(&args(&["all"])) {
        Ok(CmdOutput::Count(rows)) => {
            let levels: Vec<(u8, u16, usize)> =
                rows.iter().map(|r| (r.stat.level, r.stat.played, r.total)).collect();
            assert_eq!(levels, vec![(0, 1, 2), (13, 1, 2), (17, 1, 1), (18, 2, 2)]);
        }
        other => panic!("no tallies: {:?}", other),
    }
    match cmd.do_cmd(&args(&["20"])) {
        Ok(CmdOutput::Count(rows)) => assert_eq!(rows.len(), 0),
        other => panic!("no tallies: {:?}", other),
    }
}

#[test]
fn the_count_command_fails_on_other_arguments() {
    let cmd = CmdCount::new(Rc::new(local()));
    let refused: [&[&str]; 10] = [
        &[],
        &["0"],
        &["21"],
        &["255"],
        &["256"],
        &["ALL"],
        &["all", "18"],
        &["-1"],
        &["1 "],
        &[""],
    ];
    for words in refused {
        assert_eq!(failure(cmd.do_cmd(&args(words))), "args unmatched.");
    }
}

#[test]
fn the_argument_of_the_count_command() {
    assert_eq!(parse_level("all"), Some(None));
    assert_eq!(parse_level("1"), Some(Some(1)));
    assert_eq!(parse_level("20"), Some(Some(20)));
    assert_eq!(parse_level("+7"), Some(Some(7)));
    assert_eq!(parse_level("007"), Some(Some(7)));
    assert_eq!(parse_level("0"), None);
    assert_eq!(parse_level("21"), None);
    assert_eq!(parse_level("all "), None);
    assert_eq!(parse_level(""), None);
}

#[test]
fn numbers_are_read_as_std_reads_them() {
    let words = [
        "0", "7", "42", "255", "256", "65535", "65536", "4294967296", "+", "+5", "-5", "++5", "5+",
        "", " 5", "5 ", "0x10", "００", "٣", "000000000000000000012", "1_000", "1e3", "+0",
    ];
    for w in words {
        assert_eq!(parse_number(w, 0xffff), w.parse::<u16>().ok().map(|n| n as u32), "{:?}", w);
        assert_eq!(parse_number(w, 0xff), w.parse::<u8>().ok().map(|n| n as u32), "{:?}", w);
    }
}

#[test]
fn numbers_are_written_in_decimal() {
    for n in [0u64, 1, 9, 10, 11, 99, 100, 101, 12345, 1_000_000, 4_294_967_295, u64::MAX] {
        assert_eq!(decimal_string(n), format!("{}", n));
    }
}

#[test]
fn words_are_joined_with_a_separator() {
    assert_eq!(join(&args(&[]), " "), "");
    assert_eq!(join(&args(&["one"]), " "), "one");
    assert_eq!(join(&args(&["max", "burning", "!!"]), " "), "max burning !!");
    assert_eq!(join(&args(&["a", "", "b"]), ", "), "a, , b");
}

#[test]
fn the_characters_of_a_string() {
    assert_eq!(chars_of("a冥b"), vec!['a', '冥', 'b']);
    assert_eq!(chars_of(""), Vec::<char>::new());
}

#[test]
fn errors_in_words() {
    assert_eq!(
        Error::DoCmdError("args unmatched.".to_string()).to_string(),
        "do command failed: args unmatched."
    );
    assert_eq!(Error::OtherError("no such user".to_string()).to_string(), "no such user");
}

#[test]
fn default_settings() {
    let conf = Config::default();
    assert_eq!(conf.config_file, "config.toml");
    assert_eq!(conf.bemaniutils.db_address, "");
    assert_eq!(conf.bemaniutils.db_port, 3306);
    assert_eq!(conf.bemaniutils.db_name, "bemani");
    assert_eq!(conf.bemaniutils.db_user, "root");
    assert_eq!(conf.bemaniutils.db_password, "");
    assert_eq!(conf.bemaniutils.username, "");
    assert_eq!(BemaniutilsConfig::default().db_port, 3306);
    assert_eq!(AsphyxiaConfig::default().refid, "");
    assert_eq!(conf.asyphyxia.record_path, "");
    assert_eq!(conf.asyphyxia.music_path, "");
    assert_eq!(AsphyxiaRecordDate::default().date, 0);
}

#[test]
fn a_line_is_split_into_its_words() {
    assert_eq!(split_line("record max burning"), args(&["record", "max", "burning"]));
    assert_eq!(split_line("  count   all \n"), args(&["count", "all"]));
    assert_eq!(split_line("\tvf\t"), args(&["vf"]));
    assert_eq!(split_line("a\tb c"), args(&["a\tb", "c"]));
    assert_eq!(split_line(""), args(&[]));
    assert_eq!(split_line("   "), args(&[]));
    for line in ["", " ", "a", " a", "a ", "a  b", "  record  12  ", "x\u{3000}y z", "\u{3000}x "] {
        let expected: Vec<String> =
            line.trim().split(" ").filter(|&s| s.ne("")).map(|s| String::from(s)).collect();
        assert_eq!(split_line(line), expected, "{:?}", line);
    }
}

#[test]
fn the_first_word_decides_what_is_done() {
    let names = args(&["record", "best50", "vf", "count"]);
    assert_eq!(interact(&names, &args(&[])), Action::Nothing);
    assert_eq!(interact(&names, &args(&["help"])), Action::Help);
    assert_eq!(interact(&names, &args(&["help", "me"])), Action::Help);
    assert_eq!(interact(&names, &args(&["record", "12"])), Action::Run(0));
    assert_eq!(interact(&names, &args(&["count"])), Action::Run(3));
    assert_eq!(interact(&names, &args(&["Count"])), Action::Unknown);
    assert_eq!(interact(&names, &args(&["", "vf"])), Action::Unknown);
    assert_eq!(interact(&args(&["vf", "help", "vf"]), &args(&["vf"])), Action::Run(2));
    assert_eq!(interact(&args(&["vf", "help", "vf"]), &args(&["help"])), Action::Help);
}

#[test]
fn commands_complete_what_was_typed() {
    let mut completer = CmdCompleter::new();
    for name in ["help", "record", "best50", "vf", "count"] {
        completer.add_command(name.to_string());
    }
    assert_eq!(completer.complete("re"), args(&["record "]));
    assert_eq!(completer.complete("record"), args(&["record "]));
    assert_eq!(completer.complete("records"), args(&[]));
    assert_eq!(
        completer.complete(""),
        args(&["help ", "record ", "best50 ", "vf ", "count "])
    );
    assert_eq!(completer.complete("b"), args(&["best50 "]));
    assert_eq!(completer.complete("x"), args(&[]));
    assert_eq!(CmdCompleter::new().complete(""), args(&[]));
    assert!(starts_with(&vec!['a', 'b'], &vec!['a']));
    assert!(starts_with(&vec!['a', 'b'], &vec![]));
    assert!(!starts_with(&vec!['a'], &vec!['a', 'b']));
}

#[test]
fn a_record_is_written_as_a_score_line() {
    let r = row(11, "eleven", 3, 9_950_000, 900, 400, 19).to_full_record();
    let e = AsphyxiaRecord::of_full_record(&"REF".to_string(), &r, 41, 1_700_000_000_000);
    assert_eq!(e.get_collectoin_str(), "music");
    assert_eq!(e.get_refid_str(), "REF");
    assert_eq!(e.get_music_id(), 11);
    assert_eq!(e.get_music_type(), 3);
    assert_eq!(e.get_score(), 9_950_000);
    assert_eq!(e.get_clear_type(), 4);
    assert_eq!(e.get_grade(), 10);
    assert_eq!(e.id, "41");
    assert_eq!(e.create_at.date, 1_700_000_000_000);
    assert_eq!(e.update_at.date, 1_700_000_000_000);
}

#[test]
fn words_are_the_runs_between_blanks() {
    assert_eq!(split_words("a  bc d"), args(&["a", "bc", "d"]));
    assert_eq!(split_words(" a "), args(&["a"]));
    assert_eq!(split_words("\ta "), args(&["\ta"]));
    assert_eq!(split_words("   "), args(&[]));
    assert_eq!(split_words(""), args(&[]));
}
