use ruborute::model::music::{DiffInfo, Difficulty, Music, MusicDiffculty, MusicInfo};
use ruborute::model::record::{ClearType, FullRecord, Grade, LevelStat, Volfoce};
use ruborute::ranking::{average_skill, best_n, rank, ranks_before};
use ruborute::stats::{aggregate, level_stat, unit_stat};
use ruborute::storage::asphyxia::AsphyxiaRecord;
use ruborute::storage::record::{contains_id, Record, RecordStore};
use ruborute::storage::sdvx::{Mdb, MusicStore};
use ruborute::storage::storage::DataStore;

fn music(id: u16, name: &str, inf_ver: u8, levels: [u8; 5]) -> Music {
    Music {
        id,
        info: MusicInfo { name: name.to_string(), inf_ver },
        difficulty: MusicDiffculty {
            novice: DiffInfo { level: levels[0] },
            advanced: DiffInfo { level: levels[1] },
            exhaust: DiffInfo { level: levels[2] },
            infinite: DiffInfo { level: levels[3] },
            maximum: DiffInfo { level: levels[4] },
        },
    }
}

fn mdb() -> Mdb {
    Mdb {
        music: vec![
            music(1, "Infinite", 3, [3, 8, 13, 16, 0]),
            music(2, "Max Burning!!", 0, [5, 10, 15, 0, 18]),
            music(3, "Sayonara Heaven", 5, [2, 7, 13, 17, 19]),
        ],
    }
}

fn event(
    user: &str,
    music_id: u16,
    music_type: u8,
    score: u32,
    clear: u8,
    grade: u8,
) -> AsphyxiaRecord {
    AsphyxiaRecord::new_sdvx_record(
        user.to_string(),
        music_id,
        music_type,
        score,
        clear,
        grade,
        "id".to_string(),
        1_633_772_620_910,
    )
}

fn record(music_id: u16, difficulty: Difficulty, level: u8, vf: u32) -> FullRecord {
    FullRecord {
        music_id,
        music_name: format!("music {}", music_id),
        difficulty,
        level,
        score: 9_000_000,
        grade: Grade::AA,
        clear_type: ClearType::Played,
        volfoce: Volfoce::new(vf),
    }
}

fn graded(music_id: u16, level: u8, grade: Grade, clear_type: ClearType) -> FullRecord {
    FullRecord {
        music_id,
        music_name: format!("music {}", music_id),
        difficulty: Difficulty::Exhaust,
        level,
        score: 9_000_000,
        grade,
        clear_type,
        volfoce: Volfoce::new(0),
    }
}

fn keys(records: &Vec<FullRecord>) -> Vec<(u16, Difficulty, u32)> {
    records.iter().map(|r| (r.music_id, r.difficulty, r.volfoce.get_internal())).collect()
}

#[test]
fn a_new_event_has_the_fields_of_a_score_line() {
    let e = event("AB973E24894A6D58", 913, 3, 9_554_896, 2, 7);
    assert_eq!(e.get_collectoin_str(), "music");
    assert_eq!(e.get_refid_str(), "AB973E24894A6D58");
    assert_eq!(e.get_music_id(), 913);
    assert_eq!(e.get_music_type(), 3);
    assert_eq!(e.get_score(), 9_554_896);
    assert_eq!(e.get_clear_type(), 2);
    assert_eq!(e.get_grade(), 7);
    assert_eq!(e.id, "id");
    assert_eq!(e.button_rate, 0);
    assert_eq!(e.long_rate, 0);
    assert_eq!(e.vol_rate, 0);
    assert_eq!(e.create_at.date, 1_633_772_620_910);
    assert_eq!(e.update_at.date, 1_633_772_620_910);
    assert_eq!(e.a, "sdvx@asphyxia");
    assert_eq!(e.s, "plugins_profile");
}

#[test]
fn an_event_becomes_a_canonical_record() {
    let catalog = MusicStore::from_mdb(mdb());
    let e = event("u", 1, 3, 9_900_000, 4, 10);
    let r = e.to_full_record(catalog.get_music_ref(1));
    assert_eq!(r.music_name, "Infinite");
    assert_eq!(r.difficulty, Difficulty::Gravity);
    assert_eq!(r.level, 16);
    assert_eq!(r.grade, Grade::S);
    assert_eq!(r.clear_type, ClearType::UltimateChain);
    // 16 * 9_900_000 * 105 * 105 / 10^8 = 17463.6
    assert_eq!(r.volfoce.get_internal(), 17463);
    let missing = e.to_full_record(catalog.get_music_ref(9));
    assert_eq!(missing.music_name, "(NOT FOUND)");
    assert_eq!(missing.difficulty, Difficulty::Unknown);
    assert_eq!(missing.level, 0);
    assert_eq!(missing.volfoce.get_internal(), 0);
}

#[test]
fn an_earlier_event_form_gives_the_same_record() {
    let catalog = MusicStore::from_mdb(mdb());
    let rec = Record {
        collection: "music".to_string(),
        music_id: 2,
        music_type: 4,
        score: 9_700_000,
        clear_type: 3,
        grade: 8,
        user_id: "u".to_string(),
    };
    assert_eq!(rec.get_collectoin_str(), "music");
    assert_eq!(rec.get_user_id_str(), "u");
    assert_eq!(rec.get_music_id(), 2);
    assert_eq!(rec.get_music_type(), 4);
    assert_eq!(rec.get_score(), 9_700_000);
    assert_eq!(rec.get_clear_type(), 3);
    assert_eq!(rec.get_grade(), 8);
    let r = FullRecord::from_record_with_music(&rec, catalog.get_music(2));
    assert_eq!(r.music_name, "Max Burning!!");
    assert_eq!(r.difficulty, Difficulty::Maximum);
    assert_eq!(r.level, 18);
    assert_eq!(r.grade, Grade::AAA);
    assert_eq!(r.clear_type, ClearType::HardComplete);
    // 18 * 9_700_000 * 100 * 102 / 10^8 = 17809.2
    assert_eq!(r.volfoce.get_internal(), 17809);
}

#[test]
fn the_first_record_of_a_chart_is_kept() {
    let mut store = RecordStore::new();
    assert_eq!(store.len(), 0);
    store.ingest(record(1, Difficulty::Exhaust, 15, 1000));
    store.ingest(record(1, Difficulty::Maximum, 18, 900));
    store.ingest(record(2, Difficulty::Exhaust, 15, 800));
    assert_eq!(store.len(), 3);
    assert_eq!(
        keys(&store.all()),
        vec![
            (1, Difficulty::Exhaust, 1000),
            (1, Difficulty::Maximum, 900),
            (2, Difficulty::Exhaust, 800)
        ]
    );
}

#[test]
fn a_strictly_better_record_takes_the_place() {
    let mut store = RecordStore::new();
    store.ingest(record(1, Difficulty::Exhaust, 15, 1000));
    store.ingest(record(2, Difficulty::Exhaust, 15, 800));
    store.ingest(record(1, Difficulty::Exhaust, 15, 1001));
    assert_eq!(
        keys(&store.all()),
        vec![(1, Difficulty::Exhaust, 1001), (2, Difficulty::Exhaust, 800)]
    );
    store.ingest(record(1, Difficulty::Exhaust, 15, 999));
    assert_eq!(
        keys(&store.all()),
        vec![(1, Difficulty::Exhaust, 1001), (2, Difficulty::Exhaust, 800)]
    );
}

#[test]
fn a_tie_keeps_the_record_that_was_there() {
    let mut store = RecordStore::new();
    let mut first = record(1, Difficulty::Exhaust, 15, 1000);
    first.score = 1;
    let mut second = record(1, Difficulty::Exhaust, 15, 1000);
    second.score = 2;
    store.ingest(first);
    store.ingest(second);
    let all = store.all();
    assert_eq!(all.len(), 1);
    assert_eq!(all[0].score, 1);
}

#[test]
fn the_same_event_twice_changes_nothing() {
    let catalog = MusicStore::from_mdb(mdb());
    let e = event("u", 3, 4, 9_800_000, 3, 9);
    let mut store = RecordStore::new();
    store.ingest(record(1, Difficulty::Exhaust, 15, 1000));
    store.ingest(e.to_full_record(catalog.get_music_ref(3)));
    let once = keys(&store.all());
    store.ingest(e.to_full_record(catalog.get_music_ref(3)));
    assert_eq!(keys(&store.all()), once);
    assert_eq!(store.len(), 2);
}

#[test]
fn a_higher_score_never_lowers_the_stored_volforce() {
    let catalog = MusicStore::from_mdb(mdb());
    let mut store = RecordStore::new();
    let mut last = 0;
    for score in [9_000_000, 9_500_000, 9_200_000, 9_900_000, 9_900_000, 100] {
        store.ingest(event("u", 2, 2, score, 2, 8).to_full_record(catalog.get_music_ref(2)));
        let stored = store.all()[0].volfoce.get_internal();
        assert!(stored >= last);
        last = stored;
    }
    // 15 * 9_900_000 * 100 * 100 / 10^8
    assert_eq!(last, 14850);
    assert_eq!(store.len(), 1);
}

#[test]
fn the_store_has_no_more_records_than_charts_arrived() {
    let catalog = MusicStore::from_mdb(mdb());
    let events = vec![
        event("u", 1, 0, 9_000_000, 2, 6),
        event("u", 1, 0, 9_100_000, 2, 6),
        event("u", 1, 1, 9_000_000, 2, 6),
        event("u", 2, 0, 9_000_000, 2, 6),
        event("u", 1, 0, 8_000_000, 2, 6),
        event("u", 2, 0, 9_300_000, 2, 6),
        event("u", 50, 0, 9_300_000, 2, 6),
        event("u", 50, 1, 9_300_000, 2, 6),
    ];
    let store = RecordStore::load("u", &events, &catalog);
    // the charts (1, NOV), (1, ADV), (2, NOV), and (50, unknown) for both events of music 50;
    // 3 * 9_100_000 * 94 * 100 / 10^8 = 2566.2
    assert_eq!(store.len(), 4);
    assert_eq!(
        keys(&store.all()),
        vec![
            (1, Difficulty::Novice, 2566),
            (1, Difficulty::Advanced, 6768),
            (2, Difficulty::Novice, 4371),
            (50, Difficulty::Unknown, 0)
        ]
    );
}

#[test]
fn only_the_score_lines_of_the_profile_are_loaded() {
    let catalog = MusicStore::from_mdb(mdb());
    let mut other_collection = event("u", 1, 1, 9_000_000, 2, 6);
    other_collection.collection = "profile".to_string();
    let events = vec![
        event("someone else", 1, 0, 9_000_000, 2, 6),
        other_collection,
        event("u", 2, 4, 9_000_000, 2, 6),
        event("U", 3, 0, 9_000_000, 2, 6),
        event("", 3, 1, 9_000_000, 2, 6),
    ];
    let store = RecordStore::load("u", &events, &catalog);
    assert_eq!(store.len(), 1);
    assert_eq!(store.all()[0].music_id, 2);
    assert_eq!(RecordStore::load("nobody", &events, &catalog).len(), 0);
    assert_eq!(RecordStore::load("", &events, &catalog).len(), 1);
    assert_eq!(RecordStore::load("u", &Vec::new(), &catalog).len(), 0);
}

#[test]
fn records_of_some_ids_in_the_order_of_the_store() {
    let mut store = RecordStore::new();
    store.ingest(record(5, Difficulty::Exhaust, 15, 1));
    store.ingest(record(3, Difficulty::Exhaust, 15, 2));
    store.ingest(record(5, Difficulty::Maximum, 18, 3));
    store.ingest(record(4, Difficulty::Novice, 3, 4));
    assert_eq!(
        keys(&store.get_record_by_id(vec![5])),
        vec![(5, Difficulty::Exhaust, 1), (5, Difficulty::Maximum, 3)]
    );
    assert_eq!(
        keys(&store.get_record_by_id(vec![4, 3, 4])),
        vec![(3, Difficulty::Exhaust, 2), (4, Difficulty::Novice, 4)]
    );
    assert_eq!(store.get_record_by_id(vec![6]).len(), 0);
    assert_eq!(store.get_record_by_id(Vec::new()).len(), 0);
    assert_eq!(store.records().len(), 4);
    assert!(contains_id(&vec![1, 2, 3], 3));
    assert!(!contains_id(&vec![1, 2, 3], 4));
}

#[test]
fn ranking_is_by_volforce_then_music_then_difficulty() {
    let records = vec![
        record(9, Difficulty::Exhaust, 15, 500),
        record(2, Difficulty::Maximum, 18, 700),
        record(2, Difficulty::Exhaust, 15, 700),
        record(1, Difficulty::Novice, 3, 500),
        record(7, Difficulty::Advanced, 9, 900),
        record(2, Difficulty::Heaven, 17, 700),
    ];
    assert_eq!(
        keys(&rank(&records)),
        vec![
            (7, Difficulty::Advanced, 900),
            (2, Difficulty::Exhaust, 700),
            (2, Difficulty::Heaven, 700),
            (2, Difficulty::Maximum, 700),
            (1, Difficulty::Novice, 500),
            (9, Difficulty::Exhaust, 500),
        ]
    );
    assert!(ranks_before(&records[4], &records[0]));
    assert!(!ranks_before(&records[0], &records[4]));
    assert!(!ranks_before(&records[0], &records[0]));
}

#[test]
fn equal_records_keep_their_order_in_the_ranking() {
    let mut a = record(1, Difficulty::Exhaust, 15, 500);
    a.score = 1;
    let mut b = record(1, Difficulty::Exhaust, 15, 500);
    b.score = 2;
    let mut c = record(1, Difficulty::Exhaust, 15, 500);
    c.score = 3;
    let ranking = rank(&vec![a, b, c]);
    assert_eq!(ranking.iter().map(|r| r.score).collect::<Vec<u32>>(), vec![1, 2, 3]);
}

#[test]
fn the_best_n_are_the_head_of_the_ranking() {
    let records = vec![
        record(1, Difficulty::Exhaust, 15, 100),
        record(2, Difficulty::Exhaust, 15, 300),
        record(3, Difficulty::Exhaust, 15, 200),
        record(4, Difficulty::Exhaust, 15, 400),
    ];
    assert_eq!(
        keys(&best_n(&records, 2)),
        vec![(4, Difficulty::Exhaust, 400), (2, Difficulty::Exhaust, 300)]
    );
    assert_eq!(best_n(&records, 0).len(), 0);
    assert_eq!(best_n(&records, 4).len(), 4);
    assert_eq!(best_n(&records, 9).len(), 4);
    assert_eq!(best_n(&Vec::new(), 3).len(), 0);
}

#[test]
fn the_best_50_of_more_than_50() {
    let mut store = RecordStore::new();
    for i in 0..60u16 {
        store.ingest(record(i, Difficulty::Exhaust, 15, 1000 + i as u32));
    }
    let best = store.get_best50();
    assert_eq!(best.len(), 50);
    assert_eq!(best[0].volfoce.get_internal(), 1059);
    assert_eq!(best[49].volfoce.get_internal(), 1010);
    for i in 1..50 {
        assert!(best[i - 1].volfoce > best[i].volfoce);
    }
    // the sum of 1010..=1059 is 51725
    assert_eq!(store.compute_volforce().get_internal(), 1034);
}

#[test]
fn the_overall_volforce_divides_by_50_whatever_the_number_of_records() {
    let mut store = RecordStore::new();
    store.ingest(record(1, Difficulty::Exhaust, 15, 1000));
    store.ingest(record(2, Difficulty::Exhaust, 15, 2000));
    store.ingest(record(3, Difficulty::Exhaust, 15, 3000));
    assert_eq!(store.compute_volforce().get_internal(), 120);
    assert_eq!(average_skill(&store.all()).get_internal(), 120);
    assert_eq!(RecordStore::new().compute_volforce().get_internal(), 0);
    let mut one = RecordStore::new();
    one.ingest(record(1, Difficulty::Exhaust, 15, 49));
    assert_eq!(one.compute_volforce().get_internal(), 0);
}

#[test]
fn the_overall_volforce_of_the_highest_values_fits() {
    let mut records = Vec::new();
    for i in 0..50u16 {
        records.push(record(i, Difficulty::Exhaust, 15, u32::MAX));
    }
    assert_eq!(average_skill(&records).get_internal(), u32::MAX);
}

#[test]
fn two_records_at_level_10() {
    let mut store = RecordStore::new();
    store.ingest(graded(1, 10, Grade::S, ClearType::PerfectUltimateChain));
    store.ingest(graded(2, 10, Grade::A, ClearType::Complete));
    let expected = LevelStat::new(10, 1, 0, 0, 1, 0, 0, 1, 2);
    assert_eq!(store.get_level_stat(None), vec![expected]);
    assert_eq!(store.get_level_stat(Some(10)), vec![expected]);
    assert_eq!(store.get_level_stat(Some(11)), Vec::<LevelStat>::new());
}

#[test]
fn tallies_come_by_level_in_ascending_order() {
    let records = vec![
        graded(1, 18, Grade::AAA, ClearType::HardComplete),
        graded(2, 3, Grade::S, ClearType::UltimateChain),
        graded(3, 18, Grade::AAAPlus, ClearType::Played),
        graded(4, 18, Grade::AAA, ClearType::NoPlay),
        graded(5, 0, Grade::NoGrade, ClearType::Complete),
        graded(6, 255, Grade::B, ClearType::PerfectUltimateChain),
        graded(7, 18, Grade::D, ClearType::HardComplete),
    ];
    assert_eq!(
        aggregate(&records, None),
        vec![
            LevelStat::new(0, 0, 0, 0, 1, 0, 0, 0, 1),
            LevelStat::new(3, 1, 0, 0, 0, 0, 1, 0, 1),
            LevelStat::new(18, 0, 1, 2, 0, 2, 0, 0, 4),
            LevelStat::new(255, 0, 0, 0, 0, 0, 0, 1, 1),
        ]
    );
    assert_eq!(aggregate(&records, Some(18)), vec![LevelStat::new(18, 0, 1, 2, 0, 2, 0, 0, 4)]);
    assert_eq!(aggregate(&records, Some(17)), Vec::<LevelStat>::new());
    assert_eq!(aggregate(&Vec::new(), None), Vec::<LevelStat>::new());
    assert_eq!(level_stat(&records, 18), LevelStat::new(18, 0, 1, 2, 0, 2, 0, 0, 4));
    assert_eq!(level_stat(&records, 17), LevelStat::new(17, 0, 0, 0, 0, 0, 0, 0, 0));
}

#[test]
fn the_tally_of_one_record() {
    assert_eq!(
        unit_stat(&graded(1, 12, Grade::S, ClearType::PerfectUltimateChain)),
        LevelStat::new(12, 1, 0, 0, 0, 0, 0, 1, 1)
    );
    assert_eq!(
        unit_stat(&graded(1, 12, Grade::AA, ClearType::Played)),
        LevelStat::new(12, 0, 0, 0, 0, 0, 0, 0, 1)
    );
    assert_eq!(
        unit_stat(&graded(1, 12, Grade::AAAPlus, ClearType::Complete)),
        LevelStat::new(12, 0, 1, 0, 1, 0, 0, 0, 1)
    );
}

#[test]
fn a_data_store_answers_by_id_and_by_name() {
    let events = vec![
        event("u", 1, 2, 9_000_000, 2, 6),
        event("u", 2, 2, 9_500_000, 3, 8),
        event("u", 3, 4, 9_900_000, 4, 10),
        event("u", 3, 3, 9_800_000, 3, 9),
    ];
    let store = DataStore::load("u", &events, mdb());
    assert_eq!(store.music_store().get_music_name(3), "Sayonara Heaven");
    assert_eq!(store.get_record_by_id(vec![2]).len(), 1);
    assert_eq!(
        keys(&store.get_record_by_name("sayonara heaven".to_string())),
        vec![(3, Difficulty::Maximum, 20738), (3, Difficulty::Vivid, 17333)]
    );
    assert_eq!(store.get_record_by_name("nothing like it".to_string()).len(), 0);
    let best = store.get_best50_records();
    assert_eq!(best.len(), 4);
    assert_eq!(best[0].volfoce.get_internal(), 20738);
    // 20738 + 17333 + 14535 + 10998 = 63604
    assert_eq!(store.get_volforce().get_internal(), 1272);
}
