//! The display's state.

use vstd::prelude::*;
use crate::config::Config;
use crate::lyric::LyricResponse;
use crate::text::{opt_view, strings_view};
use crate::watcher::elapsed_ms;

verus! {

/// The song being shown.
#[derive(Debug, Clone)]
pub struct Song {
    pub title: String,
    pub album: String,
    pub artists: Vec<String>,
    /// The length in seconds.
    pub length: u32,
}

impl Song {
    pub fn new(title: String, album: String, artists: Vec<String>, length: u32) -> (r: Self)
        ensures
            r.title == title,
            r.album == album,
            r.artists == artists,
            r.length == length,
    {
        Self { title, album, artists, length }
    }
}

/// A rectangle of terminal cells.
#[derive(Debug, Clone, Copy, PartialEq, Eq, Structural)]
pub struct Rect {
    pub x: u16,
    pub y: u16,
    pub width: u16,
    pub height: u16,
}

/// The column just right of a rectangle, held at the last column.
pub open spec fn rect_right(r: Rect) -> int {
    if r.x + r.width > u16::MAX {
        u16::MAX as int
    } else {
        r.x + r.width
    }
}

/// The row just below a rectangle, held at the last row.
pub open spec fn rect_bottom(r: Rect) -> int {
    if r.y + r.height > u16::MAX {
        u16::MAX as int
    } else {
        r.y + r.height
    }
}

/// The cell `(x, y)` lies in the rectangle.
pub open spec fn rect_holds(r: Rect, x: u16, y: u16) -> bool {
    r.x <= x < rect_right(r) && r.y <= y < rect_bottom(r)
}

impl Rect {
    /// Whether the cell `(x, y)` lies in the rectangle.
    pub fn contains(&self, x: u16, y: u16) -> (b: bool)
        ensures
            b == rect_holds(*self, x, y),
    {
        x >= self.x && x < self.x.saturating_add(self.width) && y >= self.y && y
            < self.y.saturating_add(self.height)
    }
}

/// The theme currently in use, and the song it was made for.
#[derive(Debug, Clone)]
pub struct ThemeState {
    pub title: Option<String>,
    pub main: Option<[u8; 3]>,
    pub accent: Option<[u8; 3]>,
    pub inactive: Option<[u8; 3]>,
    pub upcoming: Option<[u8; 3]>,
}

impl ThemeState {
    /// No theme.
    pub fn new() -> (r: Self)
        ensures
            r.title is None,
            r.main is None,
            r.accent is None,
            r.inactive is None,
            r.upcoming is None,
    {
        ThemeState { title: None, main: None, accent: None, inactive: None, upcoming: None }
    }

    /// The colours of sung and of upcoming lines: the theme's own where it
    /// has them, else its main colour, else `accent`.
    pub fn mix_colors(&self, accent: [u8; 3]) -> (r: ([u8; 3], [u8; 3]))
        ensures
            r.0 == match self.inactive {
                Some(c) => c,
                None => match self.main {
                    Some(m) => m,
                    None => accent,
                },
            },
            r.1 == match self.upcoming {
                Some(c) => c,
                None => match self.main {
                    Some(m) => m,
                    None => accent,
                },
            },
    {
        let main = match self.main {
            Some(m) => m,
            None => accent,
        };
        let inactive = match self.inactive {
            Some(c) => c,
            None => main,
        };
        let upcoming = match self.upcoming {
            Some(c) => c,
            None => main,
        };
        (inactive, upcoming)
    }

    /// Forgets the theme.
    pub fn reset(&mut self)
        ensures
            final(self).title is None,
            final(self).main is None,
            final(self).accent is None,
            final(self).inactive is None,
            final(self).upcoming is None,
    {
        self.title = None;
        self.main = None;
        self.accent = None;
        self.inactive = None;
        self.upcoming = None;
    }
}

/// The display's state.
#[derive(Debug)]
pub struct App {
    pub active_song: Option<Song>,
    pub lyrics: Option<LyricResponse>,
    /// The playback position at `anchor_instant`, in milliseconds.
    pub anchor_position: u128,
    /// When the position was anchored, while playing.
    pub anchor_instant: Option<u128>,
    pub is_playing: bool,
    pub quit: bool,
    /// How far the user scrolled the lyrics away from the line being sung.
    pub manual_scroll_offset: i16,
    pub theme: ThemeState,
    pub config: Config,
    pub debug_text: Option<String>,
    /// Where the lyrics were last drawn.
    pub lyric_area: Option<Rect>,
}

/// The playback position at `now`: the anchored position, plus the time
/// since the anchor while playing.
pub open spec fn progress_at(app: &App, now: u128) -> int {
    match app.anchor_instant {
        None => app.anchor_position as int,
        Some(i) => app.anchor_position + elapsed_ms(now, i),
    }
}

impl App {
    /// A display with nothing to show yet.
    pub fn new(config: Config) -> (r: Self)
        ensures
            r.active_song is None,
            r.lyrics is None,
            r.anchor_position == 0,
            r.anchor_instant is None,
            !r.is_playing,
            !r.quit,
            r.manual_scroll_offset == 0,
            r.theme.title is None,
            r.theme.main is None,
            r.theme.accent is None,
            r.theme.inactive is None,
            r.theme.upcoming is None,
            r.config == config,
            r.debug_text is None,
            r.lyric_area is None,
    {
        App {
            active_song: None,
            lyrics: None,
            anchor_position: 0,
            anchor_instant: None,
            is_playing: false,
            quit: false,
            manual_scroll_offset: 0,
            theme: ThemeState::new(),
            config,
            debug_text: None,
            lyric_area: None,
        }
    }

    /// Anchors playback at `position` at the instant `at`; the anchor moves
    /// with time only while playing.
    pub fn set_progress(&mut self, position: u128, is_playing: bool, at: u128)
        ensures
            *final(self) == (App {
                anchor_position: position,
                anchor_instant: if is_playing {
                    Some(at)
                } else {
                    None
                },
                is_playing,
                ..*old(self)
            }),
    {
        self.anchor_position = position;
        self.anchor_instant = if is_playing {
            Some(at)
        } else {
            None
        };
        self.is_playing = is_playing;
    }

    /// The playback position at `now`, in milliseconds.
    pub fn current_progress(&self, now: u128) -> (r: u128)
        requires
            progress_at(self, now) <= u128::MAX,
        ensures
            r == progress_at(self, now),
    {
        match self.anchor_instant {
            None => self.anchor_position,
            Some(instant) => self.anchor_position + crate::watcher::elapsed_millis(now, instant),
        }
    }
}

/// Read after write: right after anchoring, the position is the anchored
/// one; while paused it stays there at any later time.
pub proof fn law_progress_read_after_write(
    app: App,
    position: u128,
    is_playing: bool,
    at: u128,
    later: u128,
)
    ensures
        progress_at(
            &App {
                anchor_position: position,
                anchor_instant: if is_playing {
                    Some(at)
                } else {
                    None
                },
                is_playing,
                ..app
            },
            at,
        ) == position,
        !is_playing ==> progress_at(
            &App { anchor_position: position, anchor_instant: None, is_playing, ..app },
            later,
        ) == position,
{
}

} // verus!
