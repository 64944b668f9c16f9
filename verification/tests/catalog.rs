use ruborute::model::music::{DiffInfo, Music, MusicDiffculty, MusicInfo};
use ruborute::similarity::fuzzy_match;
use ruborute::storage::sdvx::{is_lowered_match, Mdb, MusicStore};
use rust_fuzzy_search::fuzzy_compare;

fn music(id: u16, name: &str, inf_ver: u8, levels: [u8; 5]) -> Music {
    Music {
        id,
        info: MusicInfo { name: name.to_string(), inf_ver },
        difficulty: MusicDiffculty {
            novice: DiffInfo { level: levels[0] },
            advanced: DiffInfo { level: levels[1] },
            exhaust: DiffInfo { level: levels[2] },
            infinite: DiffInfo { level: levels[3] },
            maximum: DiffInfo { level: levels[4] },
        },
    }
}

fn catalog() -> MusicStore {
    MusicStore::from_mdb(Mdb {
        music: vec![
            music(1, "Infinite", 2, [3, 8, 13, 16, 0]),
            music(2, "Max Burning!!", 0, [5, 10, 15, 0, 18]),
            music(3, "infinite", 4, [4, 9, 13, 18, 0]),
            music(4, "Sayonara Heaven", 5, [2, 7, 13, 17, 19]),
            music(5, "冥", 0, [6, 12, 16, 0, 20]),
        ],
    })
}

#[test]
fn an_id_resolves_to_its_entry() {
    let store = catalog();
    assert_eq!(store.len(), 5);
    let m = store.get_music_ref(2).unwrap();
    assert_eq!(m.get_name(), "Max Burning!!");
    assert_eq!(store.get_music(4).unwrap().get_inf_ver(), 5);
    assert!(store.get_music_ref(6).is_none());
    assert!(store.get_music(0).is_none());
}

#[test]
fn an_unknown_id_is_shown_as_not_found() {
    let store = catalog();
    assert_eq!(store.get_music_name(5), "冥");
    assert_eq!(store.get_music_name(1), "Infinite");
    assert_eq!(store.get_music_name(999), "(NOT FOUND)");
    assert_eq!(MusicStore::new().get_music_name(1), "(NOT FOUND)");
}

#[test]
fn the_later_of_two_entries_with_one_id_stands() {
    let store = MusicStore::from_mdb(Mdb {
        music: vec![
            music(1, "first", 0, [1, 0, 0, 0, 0]),
            music(2, "second", 0, [2, 0, 0, 0, 0]),
            music(1, "first again", 0, [3, 0, 0, 0, 0]),
        ],
    });
    assert_eq!(store.len(), 2);
    assert_eq!(store.get_music_name(1), "first again");
    assert_eq!(store.get_music_name(2), "second");
    assert_eq!(store.get_level(1, 0), 3);
}

#[test]
fn registering_replaces_or_appends() {
    let mut store = MusicStore::new();
    store.register(music(9, "nine", 0, [9, 0, 0, 0, 0]));
    store.register(music(8, "eight", 0, [8, 0, 0, 0, 0]));
    store.register(music(9, "NINE", 0, [19, 0, 0, 0, 0]));
    assert_eq!(store.len(), 2);
    assert_eq!(store.get_music_name(9), "NINE");
    assert_eq!(store.get_id_by_name(&"nine".to_string(), false), vec![9]);
    assert_eq!(store.get_id_by_name(&"eight".to_string(), false), vec![8]);
}

#[test]
fn level_of_a_chart_or_zero() {
    let store = catalog();
    assert_eq!(store.get_level(2, 0), 5);
    assert_eq!(store.get_level(2, 4), 18);
    assert_eq!(store.get_level(2, 3), 0);
    assert_eq!(store.get_level(2, 7), 0);
    assert_eq!(store.get_level(77, 0), 0);
}

#[test]
fn exact_search_ignores_case() {
    let store = catalog();
    assert_eq!(store.get_id_by_name(&"INFINITE".to_string(), false), vec![1, 3]);
    assert_eq!(store.get_id_by_name(&"max burning!!".to_string(), false), vec![2]);
    assert_eq!(store.get_id_by_name(&"Max Burning".to_string(), false), Vec::<u16>::new());
    assert_eq!(store.get_id_by_name(&"冥".to_string(), false), vec![5]);
}

#[test]
fn fuzzy_search_finds_near_misses() {
    let store = catalog();
    assert_eq!(store.get_id_by_name(&"Infinit".to_string(), true), vec![1, 3]);
    assert_eq!(store.get_id_by_name(&"sayonara".to_string(), true), vec![4]);
    assert_eq!(store.get_id_by_name(&"max burnin".to_string(), true), vec![2]);
    assert_eq!(store.get_id_by_name(&"zzz_no_match".to_string(), true), Vec::<u16>::new());
    assert_eq!(store.get_id_by_name(&"zzz_no_match".to_string(), false), Vec::<u16>::new());
}

#[test]
fn fuzzy_search_with_too_little_in_common_finds_nothing() {
    let store = catalog();
    // of the five groups of "ifri" only the first is one of "infinite"
    assert!(!fuzzy_match("ifri", "infinite"));
    assert_eq!(store.get_id_by_name(&"ifri".to_string(), true), Vec::<u16>::new());
}

#[test]
fn a_search_in_an_empty_catalog_finds_nothing() {
    let store = MusicStore::new();
    assert_eq!(store.get_id_by_name(&"anything".to_string(), true), Vec::<u16>::new());
    assert_eq!(store.get_level_count(1), 0);
}

#[test]
fn half_of_the_groups_is_enough() {
    // "ab" has the groups "  a", " ab", "ab "; "abcd" has the first two
    assert!(fuzzy_match("ab", "abcd"));
    // "abxy" has five groups, two of them in "abcd"
    assert!(!fuzzy_match("abxy", "abcd"));
    // "a" has the groups "  a" and " a "; "ab" has the first: exactly half
    assert!(fuzzy_match("a", "ab"));
    assert!(fuzzy_match("", ""));
    assert!(!fuzzy_match("", "a"));
    assert!(fuzzy_match("same", "same"));
}

#[test]
fn similarity_agrees_with_the_trigram_score() {
    let words = [
        "", "a", "ab", "abc", "infinite", "infinit", "ifri", "max burning!!", "burning max",
        "sayonara heaven", "heaven", "冥", "冥界", "kolbasobulko", "bulko", "zzz_no_match", "  ",
        "a a a", "aaaa",
    ];
    for a in words {
        for b in words {
            assert_eq!(fuzzy_match(a, b), fuzzy_compare(a, b) >= 0.5, "{:?} against {:?}", a, b);
        }
    }
}

#[test]
fn charts_at_a_level_are_counted_over_all_slots() {
    let store = catalog();
    assert_eq!(store.get_level_count(13), 3);
    assert_eq!(store.get_level_count(18), 2);
    assert_eq!(store.get_level_count(16), 2);
    assert_eq!(store.get_level_count(20), 1);
    assert_eq!(store.get_level_count(1), 0);
    let twice = MusicStore::from_mdb(Mdb { music: vec![music(1, "t", 0, [10, 10, 12, 10, 0])] });
    assert_eq!(twice.get_level_count(10), 3);
    assert_eq!(twice.get_level_count(0), 1);
}

#[test]
fn names_in_lower_case_match_when_equal_or_similar() {
    assert!(is_lowered_match("infinite", "infinite", false));
    assert!(is_lowered_match("infinite", "infinite", true));
    assert!(!is_lowered_match("infinit", "infinite", false));
    assert!(is_lowered_match("infinit", "infinite", true));
    assert!(!is_lowered_match("Infinite", "infinite", false));
    assert!(!is_lowered_match("zzz_no_match", "infinite", true));
    assert!(!is_lowered_match("ifri", "infinite", true));
}
