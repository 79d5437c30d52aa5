use muse::config::Config;
use muse::lyric::{LyricLine, LyricResponse};
use muse::ui::events::{handle_event, Key};
use muse::ui::header::{header_text, replace};
use muse::ui::main_display::{format_millis, format_second, LineRole, LyricView};
use muse::ui::state::{App, Rect, Song, ThemeState};
use muse::colorgen::generator::Theme;
use muse::watcher::{AppEvent, PlayerCommand};

const MS: u128 = 1_000_000;

fn song(title: &str) -> Song {
    Song::new(title.to_string(), "Album".to_string(), vec!["Artist".to_string()], 180)
}

fn lyrics(title: &str, stamps: &[u64]) -> LyricResponse {
    LyricResponse {
        song: title.to_string(),
        lyrics: stamps
            .iter()
            .enumerate()
            .map(|(i, t)| LyricLine { timestamp: *t, line: format!("line {}", i) })
            .collect(),
    }
}

#[test]
fn format_second_pads_seconds() {
    assert_eq!(format_second(0), "0:00");
    assert_eq!(format_second(65), "1:05");
    assert_eq!(format_second(600), "10:00");
    assert_eq!(format_second(3_599), "59:59");
    assert_eq!(format_millis(61_999), "1:01");
    assert_eq!(format_millis(999), "0:00");
}

#[test]
fn progress_moves_only_while_playing() {
    let mut app = App::new(Config::default());
    app.set_progress(1_000, true, 10 * MS);
    assert_eq!(app.current_progress(10 * MS), 1_000);
    assert_eq!(app.current_progress(1_510 * MS), 2_500);
    app.set_progress(1_000, false, 10 * MS);
    assert_eq!(app.current_progress(99_999 * MS), 1_000);
}

#[test]
fn rect_contains_its_cells() {
    let r = Rect { x: 1, y: 2, width: 3, height: 4 };
    assert!(r.contains(1, 2));
    assert!(r.contains(3, 5));
    assert!(!r.contains(4, 2));
    assert!(!r.contains(1, 6));
    assert!(!r.contains(0, 2));
}

#[test]
fn header_fills_in_the_template() {
    let mut app = App::new(Config::default());
    assert_eq!(header_text(&app), "Cannot detect song!");
    app.active_song = Some(song("Title"));
    assert_eq!(header_text(&app), "Title Artist - Album");
    app.active_song.as_mut().unwrap().artists.clear();
    assert_eq!(header_text(&app), "Title  - Album");
    app.config.header.title = "{title}/{title}".to_string();
    assert_eq!(header_text(&app), "Title/Title");
    app.config.header.title = "plain".to_string();
    assert_eq!(header_text(&app), "plain");
}

#[test]
fn replace_matches_str_replace() {
    for (s, p, r) in [("aaa", "aa", "b"), ("abcabc", "bc", ""), ("x", "yz", "q"), ("", "a", "b")] {
        assert_eq!(replace(s, p, r), s.replace(p, r));
    }
}

#[test]
fn keys_quit_scroll_and_command() {
    let mut app = App::new(Config::default());
    assert_eq!(app.handle_key_press(Key::Char(' '), false), (false, Some(PlayerCommand::Pause)));
    assert_eq!(app.handle_key_press(Key::Right, false), (false, Some(PlayerCommand::Next)));
    assert_eq!(app.handle_key_press(Key::Left, false), (false, Some(PlayerCommand::Previous)));
    assert_eq!(app.handle_key_press(Key::Up, false), (false, None));
    assert_eq!(app.manual_scroll_offset, -1);
    assert_eq!(app.handle_key_press(Key::Char('j'), false), (false, None));
    assert_eq!(app.handle_key_press(Key::Down, false), (false, None));
    assert_eq!(app.manual_scroll_offset, 1);
    app.manual_scroll_offset = i16::MIN;
    app.handle_key_press(Key::Char('k'), false);
    assert_eq!(app.manual_scroll_offset, i16::MIN);
    assert!(!app.quit);
    assert_eq!(app.handle_key_press(Key::Char('c'), false), (false, None));
    assert!(!app.quit);
    assert_eq!(app.handle_key_press(Key::Char('c'), true), (true, None));
    assert!(app.quit);
    let mut other = App::new(Config::default());
    assert_eq!(other.handle_key_press(Key::Char('q'), false), (true, None));
    assert!(other.quit);
}

#[test]
fn lyric_view_explains_missing_lyrics() {
    let mut app = App::new(Config::default());
    assert!(matches!(app.render_lyrics(10, 0).view, LyricView::Nothing));
    app.active_song = Some(song("Title"));
    assert!(matches!(app.render_lyrics(10, 0).view, LyricView::Fetching));
    app.lyrics = Some(lyrics("Other", &[0]));
    assert!(matches!(app.render_lyrics(10, 0).view, LyricView::Fetching));
    app.lyrics = Some(lyrics("Title", &[]));
    assert!(matches!(app.render_lyrics(10, 0).view, LyricView::NoLyrics));
    app.debug_text = Some("debug".to_string());
    match app.render_lyrics(10, 0).view {
        LyricView::Debug(m) => assert_eq!(m, "debug"),
        other => panic!("unexpected {:?}", other),
    }
}

#[test]
fn lyric_view_marks_the_line_being_sung() {
    let mut app = App::new(Config::default());
    app.config.lyric_settings.active_prefix = "> ".to_string();
    app.active_song = Some(song("Title"));
    app.lyrics = Some(lyrics("Title", &[0, 1_000, 2_000, 3_000]));
    app.set_progress(1_500, false, 0);
    let screen = app.render_lyrics(3, 0);
    assert_eq!(screen.accent, [255, 255, 255]);
    match screen.view {
        LyricView::Lines(lines, scroll) => {
            let seen: Vec<(String, LineRole)> = lines.into_iter().map(|l| (l.text, l.role)).collect();
            assert_eq!(
                seen,
                vec![
                    ("line 0".to_string(), LineRole::Sung),
                    ("> line 1".to_string(), LineRole::Active),
                    ("line 2".to_string(), LineRole::Upcoming),
                    ("line 3".to_string(), LineRole::Upcoming),
                ]
            );
            assert_eq!(scroll, 0);
        }
        other => panic!("unexpected {:?}", other),
    }
}

#[test]
fn before_the_first_line_everything_is_upcoming() {
    let mut app = App::new(Config::default());
    app.active_song = Some(song("Title"));
    app.lyrics = Some(lyrics("Title", &[5_000, 6_000]));
    match app.render_lyrics(3, 0).view {
        LyricView::Lines(lines, _) => assert!(lines.iter().all(|l| l.role == LineRole::Upcoming)),
        other => panic!("unexpected {:?}", other),
    }
}

#[test]
fn scroll_follows_the_song_and_stays_in_view() {
    let mut app = App::new(Config::default());
    app.active_song = Some(song("Title"));
    app.lyrics = Some(lyrics("Title", &(0..20).map(|i| i * 1_000).collect::<Vec<u64>>()));
    app.set_progress(10_500, false, 0);
    assert_eq!(app.lyric_scroll_position(5, 0), 8);
    assert_eq!(app.lyric_final_scroll_pos(5, 20, 0), 8);
    app.manual_scroll_offset = -20;
    assert_eq!(app.lyric_final_scroll_pos(5, 20, 0), 0);
    assert_eq!(app.manual_scroll_offset, -8);
    app.manual_scroll_offset = 100;
    assert_eq!(app.lyric_final_scroll_pos(5, 20, 0), 15);
    assert_eq!(app.manual_scroll_offset, 7);
}

#[test]
fn a_click_on_a_line_skips_to_it() {
    let mut app = App::new(Config::default());
    app.active_song = Some(song("Title"));
    app.lyrics = Some(lyrics("Title", &[0, 1_000, 2_000, 3_000]));
    app.lyric_area = Some(Rect { x: 0, y: 3, width: 10, height: 10 });
    assert_eq!(app.lyric_at(2, 4, 0), Some(1));
    assert_eq!(app.lyric_at(2, 12, 0), None);
    assert_eq!(app.lyric_at(20, 4, 0), None);
    assert_eq!(app.handle_mouse_press(true, 2, 5, 0), Some(PlayerCommand::Skip(2_000)));
    assert_eq!(app.handle_mouse_press(false, 2, 5, 0), None);
}

#[test]
fn gauge_shows_progress_and_colours() {
    let mut app = App::new(Config::default());
    app.active_song = Some(song("Title"));
    app.set_progress(65_000, false, 0);
    let gauge = app.render_gauge(0);
    assert_eq!(gauge.label, "1:05");
    assert_eq!(gauge.progress, 65_000);
    assert_eq!(gauge.length_ms, 180_000);
    assert_eq!(gauge.filled, [175, 215, 95]);
    assert_eq!(gauge.unfilled, [58, 71, 31]);
    assert_eq!(gauge.end_label, " 3:00");
    app.theme.main = Some([30, 60, 90]);
    assert_eq!(app.render_gauge(0).unfilled, [10, 20, 30]);
}

#[test]
fn events_update_the_display() {
    let mut app = App::new(Config::default());
    app.theme.title = Some("Old".to_string());
    app.theme.main = Some([1, 2, 3]);
    app.manual_scroll_offset = 4;
    let r = handle_event(
        AppEvent::SongChanged {
            title: "New".to_string(),
            album: "A".to_string(),
            artists: vec![],
            length: 10,
        },
        &mut app,
    );
    assert_eq!(r, None);
    assert_eq!(app.active_song.as_ref().unwrap().title, "New");
    assert!(app.theme.main.is_none());
    assert_eq!(app.manual_scroll_offset, 0);
    handle_event(
        AppEvent::ThemeFetched {
            song_title: "New".to_string(),
            theme: Theme { main: [1, 1, 1], accent: [2, 2, 2], inactive: None, upcoming: Some([3, 3, 3]) },
        },
        &mut app,
    );
    assert_eq!(app.theme.accent, Some([2, 2, 2]));
    assert_eq!(app.theme.upcoming, Some([3, 3, 3]));
    handle_event(
        AppEvent::SongChanged { title: "New".to_string(), album: "A".to_string(), artists: vec![], length: 10 },
        &mut app,
    );
    assert_eq!(app.theme.main, Some([1, 1, 1]));
    handle_event(AppEvent::PlaybackAnchor { position_ms: 500, is_playing: true, at: 0 }, &mut app);
    assert_eq!(app.current_progress(1_000 * MS), 1_500);
    handle_event(AppEvent::LyricsFetched { lyrics: Some(lyrics("New", &[0])) }, &mut app);
    assert!(app.lyrics.is_some());
    assert_eq!(
        handle_event(AppEvent::PlayerCommand(PlayerCommand::Skip(7)), &mut app),
        Some(PlayerCommand::Skip(7))
    );
    assert_eq!(handle_event(AppEvent::Idle, &mut app), None);
}

#[test]
fn line_colours_fall_back_to_main_then_accent() {
    let mut theme = ThemeState::new();
    assert_eq!(theme.mix_colors([1, 2, 3]), ([1, 2, 3], [1, 2, 3]));
    theme.main = Some([10, 20, 30]);
    assert_eq!(theme.mix_colors([1, 2, 3]), ([10, 20, 30], [10, 20, 30]));
    theme.inactive = Some([4, 4, 4]);
    assert_eq!(theme.mix_colors([1, 2, 3]), ([4, 4, 4], [10, 20, 30]));
    theme.upcoming = Some([5, 5, 5]);
    assert_eq!(theme.mix_colors([1, 2, 3]), ([4, 4, 4], [5, 5, 5]));
}
