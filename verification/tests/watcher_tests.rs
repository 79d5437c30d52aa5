use muse::watcher::{
    handle_active_player, handle_metadata, handle_no_player, matching_players, pick_player,
    sync_playback_drift, AppEvent, PlaybackAnchor, SongInfo, WatcherAction, WatcherState,
    DEFAULT_TICK_ESTIMATED_MS,
};

const MS: u128 = 1_000_000;

fn anchor_event(e: &Option<AppEvent>) -> Option<(u128, bool, u128)> {
    match e {
        Some(AppEvent::PlaybackAnchor { position_ms, is_playing, at }) => {
            Some((*position_ms, *is_playing, *at))
        }
        _ => None,
    }
}

fn song(title: &str, album: &str, art: Option<&str>) -> SongInfo {
    SongInfo {
        title: title.to_string(),
        album: album.to_string(),
        artists: vec!["Artist".to_string()],
        length: 200,
        art_url: art.map(|s| s.to_string()),
    }
}

#[test]
fn update_and_pause_anchor_the_position() {
    let mut a = PlaybackAnchor::default();
    a.update(1_000, 5 * MS, true, 900);
    assert_eq!(a.position, Some(1_000));
    assert_eq!(a.instant, Some(5 * MS));
    assert!(a.playing);
    assert_eq!(a.last_real_position, Some(900));
    assert_eq!(a.last_change_instant, Some(5 * MS));
    assert_eq!(a.predicted_position(5 * MS), 1_000);
    assert_eq!(a.predicted_position(7 * MS + 999_999), 1_002);
    assert_eq!(a.predicted_position(MS), 1_000);
    a.pause(2_000);
    assert_eq!(a.predicted_position(100 * MS), 2_000);
    assert!(!a.playing);
    assert_eq!(a.instant, None);
    assert_eq!(a.last_real_position, None);
}

#[test]
fn prediction_without_anchor_is_zero() {
    let a = PlaybackAnchor::default();
    assert_eq!(a.predicted_position(10 * MS), 0);
    assert!(a.report(0).is_none());
}

#[test]
fn sync_pauses_on_a_paused_player() {
    let mut a = PlaybackAnchor::default();
    a.update(1_000, 0, true, 1_000);
    let e = sync_playback_drift(&mut a, 300 * MS, Some(1_200), true);
    assert_eq!(anchor_event(&e), Some((1_200, false, 300 * MS)));
    assert!(!a.playing);
}

#[test]
fn sync_ignores_a_reading_seen_before() {
    let mut a = PlaybackAnchor::default();
    a.update(1_000, 0, true, 1_000);
    let e = sync_playback_drift(&mut a, 300 * MS, Some(1_000), false);
    assert!(e.is_none());
    assert_eq!(a.position, Some(1_000));
}

#[test]
fn sync_ignores_a_failed_reading() {
    let mut a = PlaybackAnchor::default();
    assert!(sync_playback_drift(&mut a, 0, None, false).is_none());
    assert!(a.position.is_none());
}

#[test]
fn sync_trusts_the_first_reading_of_a_session() {
    let mut a = PlaybackAnchor::default();
    let e = sync_playback_drift(&mut a, 10 * MS, Some(5_000), false);
    assert_eq!(anchor_event(&e), Some((5_000, true, 10 * MS)));
    assert_eq!(a.last_real_position, Some(5_000));
}

#[test]
fn sync_takes_a_seek_as_it_is() {
    let mut a = PlaybackAnchor::default();
    a.update(1_000, 0, true, 1_000);
    a.estimated_tick_rate = 500;
    let e = sync_playback_drift(&mut a, 500 * MS, Some(60_000), false);
    assert_eq!(anchor_event(&e), Some((60_000, true, 500 * MS)));
    assert_eq!(a.estimated_tick_rate, 500);
}

#[test]
fn sync_compensates_small_drift() {
    let mut a = PlaybackAnchor::default();
    a.update(1_000, 0, true, 1_000);
    a.estimated_tick_rate = 500;
    let e = sync_playback_drift(&mut a, 600 * MS, Some(1_500), false);
    assert_eq!(a.estimated_tick_rate, 550);
    assert_eq!(anchor_event(&e), Some((1_775, true, 600 * MS)));
    assert_eq!(a.last_real_position, Some(1_500));
}

#[test]
fn sync_never_moves_the_anchor_back_within_drift() {
    let mut a = PlaybackAnchor::default();
    a.update(1_000, 0, true, 1_000);
    a.estimated_tick_rate = 0;
    let e = sync_playback_drift(&mut a, 2_000 * MS, Some(2_300), false);
    assert_eq!(a.estimated_tick_rate, 1_000);
    assert_eq!(anchor_event(&e), Some((3_000, true, 2_000 * MS)));
}

#[test]
fn tick_rate_stays_within_five_seconds() {
    let mut a = PlaybackAnchor::default();
    a.update(0, 0, true, 0);
    a.estimated_tick_rate = 5_000;
    let _ = sync_playback_drift(&mut a, 60_000 * MS, Some(60_100), false);
    assert!(a.estimated_tick_rate <= 5_000);
}

#[test]
fn reset_session_forgets_the_song_and_resets_the_tick_rate() {
    let mut s = WatcherState::default();
    s.current_title = Some("a".to_string());
    s.current_bus = Some("b".to_string());
    s.current_album = Some("c".to_string());
    s.album_retry = 2;
    s.reset_session();
    assert!(s.current_title.is_none() && s.current_bus.is_none() && s.current_album.is_none());
    assert_eq!(s.album_retry, 2);
    assert_eq!(s.playback_anchor.estimated_tick_rate, DEFAULT_TICK_ESTIMATED_MS);
}

#[test]
fn resetting_twice_is_resetting_once() {
    let mut s = WatcherState::default();
    s.current_title = Some("a".to_string());
    s.current_bus = Some("b".to_string());
    s.album_retry = 1;
    s.playback_anchor.update(7, 9, true, 7);
    s.reset_session();
    let once = (
        s.current_title.clone(),
        s.current_bus.clone(),
        s.current_album.clone(),
        s.album_retry,
        s.playback_anchor.position,
        s.playback_anchor.estimated_tick_rate,
    );
    s.reset_session();
    let twice = (
        s.current_title.clone(),
        s.current_bus.clone(),
        s.current_album.clone(),
        s.album_retry,
        s.playback_anchor.position,
        s.playback_anchor.estimated_tick_rate,
    );
    assert_eq!(once, twice);
}

#[test]
fn no_player_detaches_holds_the_anchor_and_idles() {
    let mut s = WatcherState::default();
    s.current_bus = Some("bus".to_string());
    s.playback_anchor.update(1_000, 0, true, 1_000);
    let events = handle_no_player(&mut s, 2_000 * MS);
    assert_eq!(events.len(), 3);
    assert!(matches!(events[0], AppEvent::PlayerDetached));
    assert!(matches!(
        events[1],
        AppEvent::PlaybackAnchor { position_ms: 3_000, is_playing: false, at } if at == 2_000 * MS
    ));
    assert!(matches!(events[2], AppEvent::Idle));
    assert!(s.current_bus.is_none());
    assert!(!s.playback_anchor.playing);
    let again = handle_no_player(&mut s, 3_000 * MS);
    assert_eq!(again.len(), 1);
    assert!(matches!(again[0], AppEvent::Idle));
}

#[test]
fn a_new_song_is_announced_themed_and_fetched() {
    let mut s = WatcherState::default();
    let info = song("Title", "Album", Some("file:///a.png"));
    let actions = handle_metadata(&info, &mut s, true, false);
    assert_eq!(actions.len(), 3);
    assert!(matches!(&actions[0], WatcherAction::Send(AppEvent::SongChanged { title, .. }) if title == "Title"));
    assert!(matches!(&actions[1], WatcherAction::FetchTheme { art_url, .. } if art_url == "file:///a.png"));
    assert!(matches!(&actions[2], WatcherAction::FetchLyrics { album, length: 200, .. } if album == "Album"));
    assert_eq!(s.current_title.as_deref(), Some("Title"));
    assert_eq!(s.current_album.as_deref(), Some("Album"));
}

#[test]
fn a_new_song_without_art_fetches_nothing() {
    let mut s = WatcherState::default();
    let actions = handle_metadata(&song("Title", "Album", None), &mut s, true, false);
    assert_eq!(actions.len(), 1);
}

#[test]
fn themes_are_only_fetched_when_generated() {
    let mut s = WatcherState::default();
    let actions = handle_metadata(&song("Title", "Album", Some("u")), &mut s, false, false);
    assert_eq!(actions.len(), 2);
    assert!(matches!(&actions[1], WatcherAction::FetchLyrics { .. }));
}

#[test]
fn the_same_song_is_quiet_until_playback_resumes() {
    let mut s = WatcherState::default();
    let info = song("Title", "Album", Some("u"));
    let _ = handle_metadata(&info, &mut s, true, false);
    assert!(handle_metadata(&info, &mut s, true, false).is_empty());
    let resumed = handle_metadata(&info, &mut s, true, true);
    assert_eq!(resumed.len(), 1);
    assert!(matches!(&resumed[0], WatcherAction::FetchTheme { .. }));
}

#[test]
fn a_song_without_album_waits_three_polls() {
    let mut s = WatcherState::default();
    let info = song("Title", "", Some("u"));
    for retry in 1..=3u8 {
        assert!(handle_metadata(&info, &mut s, true, false).is_empty());
        assert_eq!(s.album_retry, retry);
    }
    let actions = handle_metadata(&info, &mut s, true, false);
    assert_eq!(actions.len(), 3);
    assert_eq!(s.album_retry, 0);
    assert_eq!(s.current_album.as_deref(), Some(""));
}

#[test]
fn a_new_player_starts_a_session() {
    let mut s = WatcherState::default();
    s.current_bus = Some("old".to_string());
    s.current_title = Some("Title".to_string());
    let actions = handle_active_player(
        &mut s,
        "new",
        0,
        Some(1_000),
        false,
        Ok(song("Title", "Album", None)),
        true,
    );
    assert!(matches!(&actions[0], WatcherAction::Send(AppEvent::PlayerDetached)));
    assert!(matches!(
        &actions[1],
        WatcherAction::Send(AppEvent::PlaybackAnchor { position_ms: 1_000, is_playing: true, at: 0 })
    ));
    assert!(matches!(&actions[2], WatcherAction::Send(AppEvent::SongChanged { .. })));
    assert_eq!(actions.len(), 3);
    assert_eq!(s.current_bus.as_deref(), Some("new"));
}

#[test]
fn unreadable_metadata_is_reported() {
    let mut s = WatcherState::default();
    s.current_bus = Some("bus".to_string());
    let actions = handle_active_player(&mut s, "bus", 0, None, false, Err("gone".to_string()), true);
    assert_eq!(actions.len(), 1);
    assert!(matches!(
        &actions[0],
        WatcherAction::Send(AppEvent::Error { error }) if error == "Failed to get metadata: gone"
    ));
}

#[test]
fn resuming_refetches_the_theme() {
    let mut s = WatcherState::default();
    s.current_bus = Some("bus".to_string());
    s.current_title = Some("Title".to_string());
    s.playback_anchor.pause(1_000);
    let actions = handle_active_player(
        &mut s,
        "bus",
        0,
        Some(1_100),
        false,
        Ok(song("Title", "Album", Some("art"))),
        true,
    );
    assert_eq!(actions.len(), 2);
    assert!(matches!(&actions[1], WatcherAction::FetchTheme { .. }));
}

#[test]
fn players_are_matched_by_bus_name() {
    let names = vec![
        "org.mpris.MediaPlayer2.spotify".to_string(),
        "org.mpris.MediaPlayer2.vlc".to_string(),
        "org.mpris.MediaPlayer2.spotifyd".to_string(),
    ];
    assert_eq!(matching_players(&names, "spotify"), vec![0, 2]);
    assert_eq!(matching_players(&names, ""), vec![0, 1, 2]);
    assert!(matching_players(&names, "mpv").is_empty());
}

#[test]
fn the_only_player_or_the_first_playing_is_followed() {
    assert_eq!(pick_player(0, &vec![]), None);
    assert_eq!(pick_player(1, &vec![]), Some(0));
    assert_eq!(pick_player(3, &vec![false, true, true]), Some(1));
    assert_eq!(pick_player(2, &vec![false, false]), None);
}

#[test]
fn song_info_reads_metadata_fields() {
    let info = SongInfo::from_fields(None, Some("  ".to_string()), None, Some(215_900_000), None);
    assert_eq!(info.title, "Unknown");
    assert_eq!(info.album, "");
    assert!(info.artists.is_empty());
    assert_eq!(info.length, 215);
    let unknown = SongInfo::from_fields(
        Some("T".to_string()),
        Some("Unknown".to_string()),
        Some(vec!["A".to_string()]),
        None,
        Some("u".to_string()),
    );
    assert_eq!(unknown.album, "");
    assert_eq!(unknown.length, 0);
    assert_eq!(unknown.art_url.as_deref(), Some("u"));
    let kept = SongInfo::from_fields(None, Some(" Album ".to_string()), None, Some(u64::MAX), None);
    assert_eq!(kept.album, " Album ");
    assert_eq!(kept.length, (u64::MAX / 1_000_000) as u32);
}
