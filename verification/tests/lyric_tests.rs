use muse::lyric::{
    convert_to_timed, convertible_to_timed, lyric_query, lyrics_from_body, lyrics_from_cache,
    lyrics_from_synced, parse_timestamp, LyricLine,
};
use muse::cache::cache_key;

fn pairs(lines: &[LyricLine]) -> Vec<(u64, String)> {
    lines.iter().map(|l| (l.timestamp, l.line.clone())).collect()
}

#[test]
fn parse_timestamp_reads_minutes_seconds_and_fraction() {
    assert_eq!(parse_timestamp("01:02.50"), Some(62_500));
    assert_eq!(parse_timestamp("1:2.5"), Some(62_500));
    assert_eq!(parse_timestamp("00:10.123"), Some(10_123));
    assert_eq!(parse_timestamp("03:00.00"), Some(180_000));
}

#[test]
fn parse_timestamp_takes_a_leading_plus_in_each_part() {
    assert_eq!(parse_timestamp("+1:+2.+5"), Some(62_050));
}

#[test]
fn parse_timestamp_refuses_malformed_stamps() {
    assert_eq!(parse_timestamp("00:10"), None);
    assert_eq!(parse_timestamp("aa:10.00"), None);
    assert_eq!(parse_timestamp("00:10.1234"), None);
    assert_eq!(parse_timestamp("00:10."), None);
    assert_eq!(parse_timestamp(":10.00"), None);
    assert_eq!(parse_timestamp("00:-1.00"), None);
    assert_eq!(parse_timestamp("+:10.00"), None);
    assert_eq!(parse_timestamp(""), None);
}

#[test]
fn convert_to_timed_keeps_tagged_lines_in_order() {
    let text = "[00:01.00]Hello\n[00:02.50] World \r\nno tag here\n[xx]bad stamp\n[00:03.1]   \n";
    assert!(convertible_to_timed(text));
    let lines = convert_to_timed(text);
    assert_eq!(
        pairs(&lines),
        vec![(1_000, "Hello".to_string()), (2_500, "World".to_string()), (3_100, String::new())]
    );
}

#[test]
fn convert_to_timed_keeps_a_last_line_without_break() {
    let lines = convert_to_timed("[00:01.00]a\n[00:02.00]b");
    assert_eq!(pairs(&lines), vec![(1_000, "a".to_string()), (2_000, "b".to_string())]);
}

#[test]
fn convert_to_timed_of_empty_text_is_empty() {
    assert!(convert_to_timed("").is_empty());
    assert!(convert_to_timed("\n\n").is_empty());
}

#[test]
fn convert_to_timed_trims_unicode_whitespace() {
    let lines = convert_to_timed("[00:01.00]\u{3000}wide\u{a0}\n");
    assert_eq!(pairs(&lines), vec![(1_000, "wide".to_string())]);
}

#[test]
fn convert_to_timed_works_line_by_line() {
    let a = "[00:01.00]one\n[00:02.00]two\n";
    let b = "[00:03.00]three\nplain\n[00:04.00]four";
    let joined = format!("{}{}", a, b);
    let mut expected = pairs(&convert_to_timed(a));
    expected.extend(pairs(&convert_to_timed(b)));
    assert_eq!(pairs(&convert_to_timed(&joined)), expected);
}

#[test]
fn convertible_to_timed_spots_lines_that_cannot_be_read() {
    assert!(!convertible_to_timed("]starts with a bracket"));
    assert!(!convertible_to_timed("[00:01.00]ok\né[00:01.00]x"));
    assert!(!convertible_to_timed("[99999999999999999:00.00]too long ago"));
    assert!(convertible_to_timed("é without a closing bracket"));
    assert!(convertible_to_timed("[00:01.00]ok\n"));
}

#[test]
fn lyrics_from_cache_names_the_song() {
    let response = lyrics_from_cache("Song", "[00:01.00]a\n");
    assert_eq!(response.song, "Song");
    assert_eq!(pairs(&response.lyrics), vec![(1_000, "a".to_string())]);
}

#[test]
fn lyric_query_names_title_artist_album_and_duration() {
    let artists = vec!["Artist".to_string(), "Other".to_string()];
    let query = lyric_query("Title", &artists, "Album", 215);
    assert_eq!(
        query,
        vec![
            ("track_name".to_string(), "Title".to_string()),
            ("artist_name".to_string(), "Artist".to_string()),
            ("album".to_string(), "Album".to_string()),
            ("duration".to_string(), "215".to_string()),
        ]
    );
    let without_album = lyric_query("Title", &artists, "", 0);
    assert_eq!(without_album[2], ("album".to_string(), "Title".to_string()));
    assert_eq!(without_album[3], ("duration".to_string(), "0".to_string()));
}

#[test]
fn lyrics_from_body_reads_synced_lyrics_and_caches_them() {
    let artists = vec!["Artist".to_string()];
    let body = r#"{"id": 3, "syncedLyrics": "[00:01.00]Hi\n[00:02.00]There"}"#;
    let fetch = lyrics_from_body("Song", &artists, "Album", body).unwrap();
    assert_eq!(fetch.response.song, "Song");
    assert_eq!(
        pairs(&fetch.response.lyrics),
        vec![(1_000, "Hi".to_string()), (2_000, "There".to_string())]
    );
    let (key, contents) = fetch.cache_write.unwrap();
    assert_eq!(key, cache_key("Song", &artists, "Album"));
    assert_eq!(contents, "[00:01.00]Hi\n[00:02.00]There");
}

#[test]
fn cached_lyrics_read_back_as_fetched() {
    let artists = vec!["A".to_string(), "B".to_string()];
    let body = r#"{"syncedLyrics": "[00:00.50] One \r\n[01:00.25]Two\n"}"#;
    let fetch = lyrics_from_body("Song", &artists, "Some Album", body).unwrap();
    let (key, contents) = fetch.cache_write.clone().unwrap();
    assert_eq!(key, cache_key("Song", &artists, ""));
    let again = lyrics_from_cache("Song", &contents);
    assert_eq!(again.song, fetch.response.song);
    assert_eq!(pairs(&again.lyrics), pairs(&fetch.response.lyrics));
    assert_eq!(pairs(&again.lyrics), vec![(500, "One".to_string()), (60_250, "Two".to_string())]);
}

#[test]
fn lyrics_from_body_without_synced_lyrics_is_empty() {
    let artists = vec!["Artist".to_string()];
    for body in ["", "not json", r#"{"plainLyrics": "words"}"#, r#"{"syncedLyrics": null}"#, "[1, 2]"] {
        let fetch = lyrics_from_body("Song", &artists, "Album", body).unwrap();
        assert_eq!(fetch.response.song, "Song");
        assert!(fetch.response.lyrics.is_empty());
        assert!(fetch.cache_write.is_none());
    }
}

#[test]
fn lyrics_from_body_refuses_lyrics_that_cannot_be_read() {
    let artists = vec!["Artist".to_string()];
    let body = r#"{"syncedLyrics": "]broken"}"#;
    assert!(lyrics_from_body("Song", &artists, "Album", body).is_none());
}

#[test]
fn lyrics_from_synced_none_gives_nothing_to_cache() {
    let fetch = lyrics_from_synced("Song", &vec![], "", None);
    assert!(fetch.response.lyrics.is_empty());
    assert!(fetch.cache_write.is_none());
}
