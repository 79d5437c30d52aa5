//! Answers to input and to the watcher's events.

use vstd::prelude::*;
use crate::ui::main_display::{click_fits, click_reaches_lyrics, clicked_index, with_offset, area_scroll};
use crate::ui::state::{App, Song, ThemeState};
use crate::watcher::{AppEvent, PlayerCommand};
use crate::text::opt_view;

verus! {

/// A key as the input handling tells keys apart.
#[derive(Debug, Clone, Copy, PartialEq, Eq, Structural)]
pub enum Key {
    Char(char),
    Up,
    Down,
    Left,
    Right,
    Other,
}

/// The manual scroll offset after a key: up (or `k`) scrolls one line back,
/// down (or `j`) one line on, each held at the ends of `i16`.
pub open spec fn scrolled(offset: i16, key: Key) -> i16 {
    if key == Key::Up || key == Key::Char('k') {
        if offset == i16::MIN {
            offset
        } else {
            (offset - 1) as i16
        }
    } else if key == Key::Down || key == Key::Char('j') {
        if offset == i16::MAX {
            offset
        } else {
            (offset + 1) as i16
        }
    } else {
        offset
    }
}

/// A key quits: `q`, or `c` with control.
pub open spec fn quits(key: Key, ctrl: bool) -> bool {
    key == Key::Char('q') || (key == Key::Char('c') && ctrl)
}

/// The command a key gives the player: space pauses or resumes, right skips
/// to the next song, left goes back.
pub open spec fn key_command(key: Key, ctrl: bool) -> Option<PlayerCommand> {
    if quits(key, ctrl) {
        None
    } else if key == Key::Char(' ') {
        Some(PlayerCommand::Pause)
    } else if key == Key::Right {
        Some(PlayerCommand::Next)
    } else if key == Key::Left {
        Some(PlayerCommand::Previous)
    } else {
        None
    }
}

impl App {
    /// Answers a key press: returns whether it quit, and the command for the
    /// player, if any.
    pub fn handle_key_press(&mut self, key: Key, ctrl: bool) -> (r: (bool, Option<PlayerCommand>))
        ensures
            r.0 == quits(key, ctrl),
            r.1 == key_command(key, ctrl),
            *final(self) == (App {
                quit: old(self).quit || quits(key, ctrl),
                manual_scroll_offset: if quits(key, ctrl) {
                    old(self).manual_scroll_offset
                } else {
                    scrolled(old(self).manual_scroll_offset, key)
                },
                ..*old(self)
            }),
    {
        if key == Key::Char('c') && ctrl {
            self.quit = true;
            return (true, None);
        }
        match key {
            Key::Char('q') => {
                self.quit = true;
                (true, None)
            },
            Key::Up | Key::Char('k') => {
                let offset = self.manual_scroll_offset;
                self.manual_scroll_offset = if offset == i16::MIN {
                    offset
                } else {
                    offset - 1
                };
                (false, None)
            },
            Key::Down | Key::Char('j') => {
                let offset = self.manual_scroll_offset;
                self.manual_scroll_offset = if offset == i16::MAX {
                    offset
                } else {
                    offset + 1
                };
                (false, None)
            },
            Key::Char(' ') => (false, Some(PlayerCommand::Pause)),
            Key::Right => (false, Some(PlayerCommand::Next)),
            Key::Left => (false, Some(PlayerCommand::Previous)),
            _ => (false, None),
        }
    }

    /// Answers a mouse press at `(x, y)` at `now`: a left click on a lyric
    /// line asks the player to jump to that line's time.
    pub fn handle_mouse_press(&mut self, left_down: bool, x: u16, y: u16, now: u128) -> (r: Option<
        PlayerCommand,
    >)
        requires
            left_down ==> click_fits(old(self), x, y, now),
        ensures
            !left_down || !click_reaches_lyrics(old(self), x, y) ==> r is None && *final(self)
                == *old(self),
            left_down && click_reaches_lyrics(old(self), x, y) ==> {
                let area = old(self).lyric_area->0;
                let lines = old(self).lyrics->0.lyrics@;
                let i = clicked_index(old(self), y, now);
                &&& *final(self) == with_offset(
                    old(self),
                    area_scroll(old(self), area, lines.len() as usize, now).1,
                )
                &&& r == if i < lines.len() {
                    Some(PlayerCommand::Skip(lines[i].timestamp))
                } else {
                    None
                }
            },
    {
        if !left_down {
            return None;
        }
        let at_idx = match self.lyric_at(x, y, now) {
            Some(i) => i,
            None => {
                return None;
            },
        };
        let timestamp = match &self.lyrics {
            Some(lyric) => lyric.lyrics[at_idx].timestamp,
            None => {
                return None;
            },
        };
        Some(PlayerCommand::Skip(timestamp))
    }
}

/// Answers an event from the watcher or the input handling, returning the
/// command to pass to the player, if any. An error event ends the program
/// before this is reached.
pub fn handle_event(event: AppEvent, app: &mut App) -> (r: Option<PlayerCommand>)
    requires
        !(event is Error),
    ensures
        match event {
            AppEvent::SongChanged { title, album, artists, length } => {
                &&& r is None
                &&& *final(app) == (App {
                    active_song: Some(
                        Song { title: title, album: album, artists: artists, length: length },
                    ),
                    lyrics: None,
                    manual_scroll_offset: 0,
                    theme: if old(app).config.color.generate && opt_view(old(app).theme.title)
                        != Some(title@) {
                        ThemeState {
                            title: None,
                            main: None,
                            accent: None,
                            inactive: None,
                            upcoming: None,
                        }
                    } else {
                        old(app).theme
                    },
                    ..*old(app)
                })
            },
            AppEvent::PlaybackAnchor { position_ms, is_playing, at } => {
                &&& r is None
                &&& *final(app) == (App {
                    anchor_position: position_ms,
                    anchor_instant: if is_playing {
                        Some(at)
                    } else {
                        None
                    },
                    is_playing,
                    ..*old(app)
                })
            },
            AppEvent::LyricsFetched { lyrics } => {
                &&& r is None
                &&& *final(app) == (App { lyrics: lyrics, ..*old(app) })
            },
            AppEvent::PlayerCommand(command) => r == Some(command) && *final(app) == *old(app),
            AppEvent::ThemeFetched { song_title, theme } => {
                &&& r is None
                &&& *final(app) == (App {
                    theme: ThemeState {
                        title: Some(song_title),
                        main: Some(theme.main),
                        accent: Some(theme.accent),
                        inactive: theme.inactive,
                        upcoming: theme.upcoming,
                    },
                    ..*old(app)
                })
            },
            _ => r is None && *final(app) == *old(app),
        },
{
    match event {
        AppEvent::SongChanged { title, album, artists, length } => {
            let song = Song::new(title, album, artists, length);
            if app.config.color.generate {
                let same = match &app.theme.title {
                    Some(t) => *t == song.title,
                    None => false,
                };
                if !same {
                    app.theme.reset();
                }
            }
            app.active_song = Some(song);
            app.lyrics = None;
            app.manual_scroll_offset = 0;
            None
        },
        AppEvent::PlaybackAnchor { position_ms, is_playing, at } => {
            app.set_progress(position_ms, is_playing, at);
            None
        },
        AppEvent::PlayerDetached => None,
        AppEvent::Error { error: _error } => None,
        AppEvent::LyricsFetched { lyrics } => {
            app.lyrics = lyrics;
            None
        },
        AppEvent::Idle => None,
        AppEvent::PlayerCommand(command) => Some(command),
        AppEvent::ThemeFetched { song_title, theme } => {
            app.theme.title = Some(song_title);
            app.theme.main = Some(theme.main);
            app.theme.accent = Some(theme.accent);
            app.theme.inactive = theme.inactive;
            app.theme.upcoming = theme.upcoming;
            None
        },
    }
}

/// Scrolling back and then on by a line returns to the same offset, away
/// from the lower end of `i16`.
pub proof fn law_scroll_up_down(offset: i16)
    requires
        offset > i16::MIN,
    ensures
        scrolled(scrolled(offset, Key::Up), Key::Down) == offset,
{
}

} // verus!
