use muse::cache::{cache_key, normalize};

#[test]
fn cache_key_joins_title_and_artists_in_lowercase() {
    let artists = vec!["Artist One".to_string(), "B".to_string()];
    assert_eq!(cache_key("Hello World", &artists, "Any Album"), "helloworldartistoneb");
}

#[test]
fn cache_key_keeps_underscores_and_drops_punctuation() {
    let artists = vec!["a_b".to_string()];
    assert_eq!(cache_key("It's (Live)!", &artists, ""), "itslivea_b");
}

#[test]
fn cache_key_ignores_the_album() {
    let artists = vec!["X".to_string()];
    assert_eq!(cache_key("T", &artists, "one"), cache_key("T", &artists, "two"));
}

#[test]
fn cache_key_without_artists_is_the_title() {
    assert_eq!(cache_key("Title", &vec![], ""), "title");
}

#[test]
fn cache_key_keeps_unicode_letters() {
    let artists = vec!["Björk".to_string()];
    assert_eq!(cache_key("Ünïcode", &artists, ""), "ünïcodebjörk");
}

#[test]
fn cache_key_lowercases_the_whole_string_and_normalize_each_character() {
    assert_eq!(cache_key("ΟΔΟΣ", &vec![], ""), "οδος");
    assert_eq!(normalize("ΟΔΟΣ"), "οδοσ");
}

#[test]
fn normalize_lowercases_and_filters() {
    assert_eq!(normalize("Hello, World_2!"), "helloworld_2");
    assert_eq!(normalize(""), "");
    assert_eq!(normalize("İ"), "i");
}

#[test]
fn normalize_leaves_only_key_characters() {
    for s in ["Hello, World!", "ÀÉÎ õü_ 12-34", "İstanbul", "ΣΑΣ", "tab\there", "日本語 音楽"] {
        let n = normalize(s);
        assert!(n.chars().all(|c| c.is_alphanumeric() || c == '_'), "{n}");
    }
}

#[test]
fn normalizing_ascii_twice_is_normalizing_once() {
    for s in ["Hello, World!", "ABC_def 123", "a/b.c-d e\tf", "", "__X__"] {
        let once = normalize(s);
        assert_eq!(normalize(&once), once);
    }
    assert_eq!(normalize("Hello, World!"), "helloworld");
}

#[test]
fn cache_keys_hold_no_path_characters() {
    let artists = vec!["AC/DC".to_string(), "Mr. X".to_string()];
    let key = cache_key("../Back In Black\t(Live)", &artists, "");
    assert_eq!(key, "backinblackliveacdcmrx");
    assert!(!key.contains(['/', '.', '-', ' ', '\t']));
}
