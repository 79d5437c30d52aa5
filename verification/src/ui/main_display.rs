//! The progress gauge and the lyrics: what they show, where the lyrics are
//! scrolled to, and which line a click lands on.

use vstd::prelude::*;
use crate::config::{hex_readable, hex_rgb_or};
use crate::lyric::{lines_view, LyricLine};
use crate::text::{decimal, digit_char, push_char, push_decimal, string_of, chars_of};
use crate::ui::state::{progress_at, rect_holds, App, Rect};

verus! {

/// A value below a hundred as `{:02}` formats it: with a leading zero below
/// ten.
pub open spec fn two_digits(v: nat) -> Seq<char> {
    if v < 10 {
        seq!['0', digit_char(v)]
    } else {
        decimal(v)
    }
}

/// `m:ss` for a number of seconds.
pub open spec fn spec_format_second(second: u32) -> Seq<char> {
    decimal(second as nat / 60) + seq![':'] + two_digits(second as nat % 60)
}

/// `m:ss` for a number of milliseconds, its whole seconds cut to 32 bits as
/// `as u32` cuts them.
pub open spec fn spec_format_millis(millis: u128) -> Seq<char> {
    spec_format_second((millis / 1000) as u32)
}

/// Formats seconds as `m:ss`.
pub fn format_second(second: u32) -> (s: String)
    ensures
        s@ == spec_format_second(second),
{
    let minute = second / 60;
    let rest = second % 60;
    let mut s = String::new();
    push_decimal(&mut s, minute as u64);
    push_char(&mut s, ':');
    if rest < 10 {
        push_char(&mut s, '0');
    }
    push_decimal(&mut s, rest as u64);
    proof {
        if rest < 10 {
            assert(decimal(rest as nat) == seq![digit_char(rest as nat)]);
        }
    }
    assert(s@ =~= spec_format_second(second));
    s
}

/// Formats milliseconds as `m:ss`.
pub fn format_millis(millis: u128) -> (s: String)
    ensures
        s@ == spec_format_millis(millis),
{
    let second = millis / 1000;
    format_second(second as u32)
}

/// `i` is the last line that has started by `t`.
pub open spec fn is_last_started(lines: Seq<(u64, Seq<char>)>, t: u64, i: int) -> bool {
    &&& 0 <= i < lines.len()
    &&& lines[i].0 <= t
    &&& forall|j: int| i < j < lines.len() ==> lines[j].0 > t
}

/// The last line that has started by `t`, as `rposition` finds it.
pub open spec fn last_started(lines: Seq<(u64, Seq<char>)>, t: u64) -> Option<int> {
    if exists|i: int| is_last_started(lines, t, i) {
        Some(choose|i: int| is_last_started(lines, t, i))
    } else {
        None
    }
}

/// The last line of `lyrics` that has started by `t`.
pub fn active_index(lyrics: &Vec<LyricLine>, t: u64) -> (r: Option<usize>)
    ensures
        match last_started(lines_view(lyrics@), t) {
            Some(i) => r matches Some(k) && k == i,
            None => r is None,
        },
{
    let ghost lines = lines_view(lyrics@);
    let mut k = lyrics.len();
    while k > 0
        invariant
            k <= lyrics.len(),
            lines == lines_view(lyrics@),
            forall|j: int| k <= j < lyrics.len() ==> lines[j].0 > t,
        decreases k,
    {
        assert(lines[k - 1].0 == lyrics@[k - 1].timestamp);
        if lyrics[k - 1].timestamp <= t {
            proof {
                assert(is_last_started(lines, t, k - 1));
                let c = choose|c: int| is_last_started(lines, t, c);
                if c < k - 1 {
                    assert(lines[k - 1].0 > t);
                } else if c > k - 1 {
                    assert(lines[c].0 > t);
                }
            }
            return Some(k - 1);
        }
        k -= 1;
    }
    None
}

/// The position at `now` as the lyrics read it: cut to 64 bits as
/// `as u64` cuts it.
pub open spec fn lyric_time(app: &App, now: u128) -> u64 {
    (progress_at(app, now) as u128) as u64
}

/// The line to scroll to: the one being sung (the first where none has
/// started) raised by half the visible height, cut to 16 bits as `as i16`
/// cuts it; zero without lyrics.
pub open spec fn scroll_position(app: &App, visible_height: u16, now: u128) -> i16 {
    match app.lyrics {
        None => 0,
        Some(l) => {
            let idx = match last_started(lines_view(l.lyrics@), lyric_time(app, now)) {
                Some(i) => i,
                None => 0,
            };
            let half = (if visible_height >= 1 {
                visible_height - 1
            } else {
                0
            }) / 2;
            (if idx >= half {
                idx - half
            } else {
                0
            }) as i16
        },
    }
}

/// The furthest the lyrics scroll: the lines that do not fit, cut to 16
/// bits as `as i16` cuts them.
pub open spec fn scroll_max(visible_height: u16, line_count: usize) -> i16 {
    (if line_count >= visible_height {
        line_count - visible_height
    } else {
        0
    }) as i16
}

/// A value fits in an `i16`.
pub open spec fn fits_i16(v: int) -> bool {
    i16::MIN <= v <= i16::MAX
}

/// The scroll position and the manual offset after clamping: the automatic
/// position plus the offset, held between zero and `max`, with the offset
/// moved by as much as the position was held.
pub open spec fn clamp_scroll(pos: i16, offset: i16, max: i16) -> (int, int) {
    let f0 = pos + offset;
    let (f1, o1) = if f0 < 0 {
        (0int, offset - f0)
    } else {
        (f0, offset as int)
    };
    if f1 > max {
        (max as int, o1 - (f1 - max))
    } else {
        (f1, o1)
    }
}

/// The clamping's arithmetic stays within `i16`.
pub open spec fn clamp_scroll_fits(pos: i16, offset: i16, max: i16) -> bool {
    let f0 = pos + offset;
    let (f1, o1) = if f0 < 0 {
        (0int, offset - f0)
    } else {
        (f0, offset as int)
    };
    &&& fits_i16(f0)
    &&& fits_i16(o1)
    &&& f1 > max ==> fits_i16(f1 - max) && fits_i16(o1 - (f1 - max))
}

/// The lyrics' position at `now` fits in a `u128`, where there are lyrics.
pub open spec fn progress_fits(app: &App, now: u128) -> bool {
    app.lyrics is Some ==> progress_at(app, now) <= u128::MAX
}

/// Clamping keeps the scroll in view and consistent: the position lies
/// between zero and `max` (where `max` is not negative), and it is the
/// automatic position plus the new offset.
pub proof fn law_clamp_scroll(pos: i16, offset: i16, max: i16)
    ensures
        max >= 0 ==> 0 <= clamp_scroll(pos, offset, max).0 <= max,
        clamp_scroll(pos, offset, max).0 == pos + clamp_scroll(pos, offset, max).1,
{
}

/// The app with another manual offset.
pub open spec fn with_offset(app: &App, offset: int) -> App {
    App { manual_scroll_offset: offset as i16, ..*app }
}

impl App {
    /// The line to scroll the lyrics to, for the visible height and `now`.
    pub fn lyric_scroll_position(&self, visible_height: u16, now: u128) -> (r: i16)
        requires
            progress_fits(self, now),
        ensures
            r == scroll_position(self, visible_height, now),
    {
        let lyrics = match &self.lyrics {
            Some(l) => l,
            None => {
                return 0;
            },
        };
        let current_ms = self.current_progress(now);
        let active_idx = match active_index(&lyrics.lyrics, current_ms as u64) {
            Some(i) => i,
            None => 0,
        };
        let half_height = visible_height.saturating_sub(1) / 2;
        let lifted = active_idx.saturating_sub(half_height as usize);
        lifted as i16
    }

    /// Where the lyrics are scrolled to: the automatic position plus the
    /// manual offset, held between zero and the furthest scroll; the offset
    /// is moved by as much as the position was held.
    pub fn lyric_final_scroll_pos(&mut self, visible_height: u16, line_count: usize, now: u128) -> (r:
        i16)
        requires
            progress_fits(old(self), now),
            clamp_scroll_fits(
                scroll_position(old(self), visible_height, now),
                old(self).manual_scroll_offset,
                scroll_max(visible_height, line_count),
            ),
        ensures
            ({
                let c = clamp_scroll(
                    scroll_position(old(self), visible_height, now),
                    old(self).manual_scroll_offset,
                    scroll_max(visible_height, line_count),
                );
                &&& r == c.0
                &&& *final(self) == with_offset(old(self), c.1)
            }),
    {
        let max_scroll = line_count.saturating_sub(visible_height as usize) as i16;
        let mut offset = self.manual_scroll_offset;
        let mut final_scroll = self.lyric_scroll_position(visible_height, now) + offset;
        if final_scroll < 0 {
            offset -= final_scroll;
            final_scroll = 0;
        }
        if final_scroll > max_scroll {
            offset -= final_scroll - max_scroll;
            final_scroll = max_scroll;
        }
        self.manual_scroll_offset = offset;
        final_scroll
    }
}

} // verus!

verus! {

/// The clamped scroll of the app's lyrics in `area`, and the offset after it.
pub open spec fn area_scroll(app: &App, area: Rect, line_count: usize, now: u128) -> (int, int) {
    clamp_scroll(
        scroll_position(app, area.height, now),
        app.manual_scroll_offset,
        scroll_max(area.height, line_count),
    )
}

/// A click at `(x, y)` reaches the lyrics: they were drawn, the click lies
/// where, and there are lines.
pub open spec fn click_reaches_lyrics(app: &App, x: u16, y: u16) -> bool {
    &&& app.lyric_area matches Some(area) && rect_holds(area, x, y)
    &&& app.lyrics matches Some(l) && l.lyrics.len() > 0
}

/// The line under row `y`: the scroll plus the row within the area, the
/// scroll read as a `usize` as `as usize` reads it.
pub open spec fn clicked_index(app: &App, y: u16, now: u128) -> int {
    let area = app.lyric_area->0;
    let n = app.lyrics->0.lyrics.len();
    let scroll = area_scroll(app, area, n, now).0;
    ((scroll as i16) as usize) + (if y >= area.y {
        y - area.y
    } else {
        0
    })
}

/// The arithmetic of a click stays in range.
pub open spec fn click_fits(app: &App, x: u16, y: u16, now: u128) -> bool {
    click_reaches_lyrics(app, x, y) ==> {
        let area = app.lyric_area->0;
        let n = app.lyrics->0.lyrics.len();
        &&& progress_fits(app, now)
        &&& clamp_scroll_fits(
            scroll_position(app, area.height, now),
            app.manual_scroll_offset,
            scroll_max(area.height, n),
        )
        &&& clicked_index(app, y, now) <= usize::MAX
    }
}

/// A click lands on the line drawn under it: where the click reaches the
/// lyrics and the lyrics are scrolled forward (as they are unless their
/// number of lines overflows an `i16`), the line it resolves to is the scroll
/// that `display_lyrics` draws with, for the area's height, plus the row of
/// the click within the area; and the offset it settles is the one drawing
/// settles.
pub proof fn law_click_hits_drawn_line(app: &App, x: u16, y: u16, now: u128)
    requires
        click_reaches_lyrics(app, x, y),
        lyrics_scroll(app, app.lyric_area->0.height, now).0 >= 0,
    ensures
        clicked_index(app, y, now) == lyrics_scroll(app, app.lyric_area->0.height, now).0 + (y
            - app.lyric_area->0.y),
        area_scroll(app, app.lyric_area->0, app.lyrics->0.lyrics.len(), now) == lyrics_scroll(
            app,
            app.lyric_area->0.height,
            now,
        ),
{
    let area = app.lyric_area->0;
    let n = app.lyrics->0.lyrics.len();
    let c = clamp_scroll(
        scroll_position(app, area.height, now),
        app.manual_scroll_offset,
        scroll_max(area.height, n),
    );
    assert(c.0 <= i16::MAX);
    assert((c.0 as i16) as usize == c.0);
}

impl App {
    /// The lyric line shown at the cell `(x, y)`, if any. Finding it
    /// settles the scroll as drawing does.
    pub fn lyric_at(&mut self, x: u16, y: u16, now: u128) -> (r: Option<usize>)
        requires
            click_fits(old(self), x, y, now),
        ensures
            click_reaches_lyrics(old(self), x, y) ==> {
                let area = old(self).lyric_area->0;
                let n = old(self).lyrics->0.lyrics.len();
                let i = clicked_index(old(self), y, now);
                &&& *final(self) == with_offset(old(self), area_scroll(old(self), area, n, now).1)
                &&& r == if i < n {
                    Some(i as usize)
                } else {
                    None
                }
            },
            !click_reaches_lyrics(old(self), x, y) ==> *final(self) == *old(self) && r is None,
    {
        let area = match self.lyric_area {
            Some(a) => a,
            None => {
                return None;
            },
        };
        if !area.contains(x, y) {
            return None;
        }
        let n = match &self.lyrics {
            Some(l) => l.lyrics.len(),
            None => {
                return None;
            },
        };
        if n == 0 {
            return None;
        }
        let final_scroll = self.lyric_final_scroll_pos(area.height, n, now);
        let relative_y = y.saturating_sub(area.y);
        let lyric_index = final_scroll as usize + relative_y as usize;
        if lyric_index < n {
            Some(lyric_index)
        } else {
            None
        }
    }
}

} // verus!

verus! {

/// How a lyric line is drawn: already sung, being sung, or still to come.
#[derive(Debug, Clone, Copy, PartialEq, Eq, Structural)]
pub enum LineRole {
    Sung,
    Active,
    Upcoming,
}

/// A lyric line as drawn.
#[derive(Debug)]
pub struct StyledLine {
    pub text: String,
    pub role: LineRole,
}

impl View for StyledLine {
    type V = (Seq<char>, LineRole);

    open spec fn view(&self) -> (Seq<char>, LineRole) {
        (self.text@, self.role)
    }
}

/// The views of styled lines.
pub open spec fn styled_view(v: Seq<StyledLine>) -> Seq<(Seq<char>, LineRole)> {
    v.map_values(|l: StyledLine| l@)
}

/// The role of line `i` when line `active` is being sung.
pub open spec fn line_role(i: int, active: Option<int>) -> LineRole {
    match active {
        Some(a) => if i < a {
            LineRole::Sung
        } else if i == a {
            LineRole::Active
        } else {
            LineRole::Upcoming
        },
        None => LineRole::Upcoming,
    }
}

/// The lines as drawn: each with its role, the one being sung led by the
/// active prefix.
pub open spec fn styled_lines(
    lines: Seq<(u64, Seq<char>)>,
    active: Option<int>,
    prefix: Seq<char>,
) -> Seq<(Seq<char>, LineRole)> {
    Seq::new(
        lines.len(),
        |i: int|
            (
                if active == Some(i) {
                    prefix + lines[i].1
                } else {
                    lines[i].1
                },
                line_role(i, active),
            ),
    )
}

/// The line being sung at `now`.
pub open spec fn active_line(app: &App, now: u128) -> Option<int> {
    last_started(lines_view(app.lyrics->0.lyrics@), lyric_time(app, now))
}

/// The scroll of the lyrics for the visible height, and the offset after it.
pub open spec fn lyrics_scroll(app: &App, visible_height: u16, now: u128) -> (int, int) {
    clamp_scroll(
        scroll_position(app, visible_height, now),
        app.manual_scroll_offset,
        scroll_max(visible_height, app.lyrics->0.lyrics.len()),
    )
}

/// Drawing the lyrics stays in range.
pub open spec fn lyrics_draw_fits(app: &App, visible_height: u16, now: u128) -> bool {
    &&& progress_fits(app, now)
    &&& clamp_scroll_fits(
        scroll_position(app, visible_height, now),
        app.manual_scroll_offset,
        scroll_max(visible_height, app.lyrics->0.lyrics.len()),
    )
}

impl App {
    /// The lyric lines as drawn at `now`, and where they are scrolled to.
    pub fn display_lyrics(&mut self, visible_height: u16, now: u128) -> (r: (Vec<StyledLine>, i16))
        requires
            old(self).lyrics is Some,
            lyrics_draw_fits(old(self), visible_height, now),
        ensures
            styled_view(r.0@) == styled_lines(
                lines_view(old(self).lyrics->0.lyrics@),
                active_line(old(self), now),
                old(self).config.lyric_settings.active_prefix@,
            ),
            r.1 == lyrics_scroll(old(self), visible_height, now).0,
            *final(self) == with_offset(old(self), lyrics_scroll(old(self), visible_height, now).1),
    {
        let ghost old_app = *self;
        let current_ms = self.current_progress(now);
        let mut lines: Vec<StyledLine> = Vec::new();
        let count;
        {
            let lyrics = &self.lyrics.as_ref().unwrap().lyrics;
            let active_idx = active_index(lyrics, current_ms as u64);
            let prefix = &self.config.lyric_settings.active_prefix;
            let ghost target = styled_lines(lines_view(lyrics@), active_line(&old_app, now), prefix@);
            let mut i: usize = 0;
            while i < lyrics.len()
                invariant
                    i <= lyrics.len(),
                    lines.len() == i,
                    target == styled_lines(lines_view(lyrics@), active_line(&old_app, now), prefix@),
                    match active_line(&old_app, now) {
                        Some(a) => active_idx matches Some(k) && k == a,
                        None => active_idx is None,
                    },
                    forall|j: int| 0 <= j < i ==> #[trigger] lines@[j]@ == target[j],
                decreases lyrics.len() - i,
            {
                let role = match active_idx {
                    Some(a) => if i < a {
                        LineRole::Sung
                    } else if i == a {
                        LineRole::Active
                    } else {
                        LineRole::Upcoming
                    },
                    None => LineRole::Upcoming,
                };
                let is_active = match active_idx {
                    Some(a) => a == i,
                    None => false,
                };
                let text = if is_active {
                    let mut t = prefix.clone();
                    t.append(lyrics[i].line.as_str());
                    t
                } else {
                    lyrics[i].line.clone()
                };
                lines.push(StyledLine { text, role });
                i += 1;
            }
            assert(styled_view(lines@) =~= target);
            count = lyrics.len();
        }
        let scroll = self.lyric_final_scroll_pos(visible_height, count, now);
        (lines, scroll)
    }
}

} // verus!

verus! {

/// What the lyrics area shows.
#[derive(Debug)]
pub enum LyricView {
    /// A debugging message, in place of everything else.
    Debug(String),
    /// Nothing: no song is playing.
    Nothing,
    /// The lyrics of the song are still being fetched.
    Fetching,
    /// The song has no synchronized lyrics.
    NoLyrics,
    /// The lines, and where they are scrolled to.
    Lines(Vec<StyledLine>, i16),
}

/// The lyrics area: its accent colour and what it shows.
#[derive(Debug)]
pub struct LyricScreen {
    pub accent: [u8; 3],
    pub view: LyricView,
}

/// The accent colour: the theme's, or the configured fallback.
pub open spec fn accent_of(app: &App) -> (u8, u8, u8) {
    match app.theme.accent {
        Some(a) => (a[0], a[1], a[2]),
        None => hex_rgb_or(app.config.color.fallback_accent@, (95, 95, 0)),
    }
}

/// The lyrics are those of the song being shown, with at least one line.
pub open spec fn shows_lines(app: &App) -> bool {
    &&& app.debug_text is None
    &&& app.active_song is Some
    &&& app.lyrics is Some
    &&& app.lyrics->0.song@ == app.active_song->0.title@
    &&& app.lyrics->0.lyrics.len() > 0
}

impl App {
    /// What the lyrics area shows at `now`, with `visible_height` rows.
    pub fn render_lyrics(&mut self, visible_height: u16, now: u128) -> (r: LyricScreen)
        requires
            hex_readable(old(self).config.color.fallback_accent@),
            shows_lines(old(self)) ==> lyrics_draw_fits(old(self), visible_height, now),
        ensures
            (r.accent[0], r.accent[1], r.accent[2]) == accent_of(old(self)),
            old(self).debug_text matches Some(t) ==> (r.view matches LyricView::Debug(m) && m@ == t@),
            old(self).debug_text is None && old(self).active_song is None ==> r.view is Nothing,
            old(self).debug_text is None && old(self).active_song is Some && (old(self).lyrics is None
                || old(self).lyrics->0.song@ != old(self).active_song->0.title@) ==> r.view is Fetching,
            old(self).debug_text is None && old(self).active_song is Some && old(self).lyrics is Some
                && old(self).lyrics->0.song@ == old(self).active_song->0.title@
                && old(self).lyrics->0.lyrics.len() == 0 ==> r.view is NoLyrics,
            shows_lines(old(self)) ==> (r.view matches LyricView::Lines(lines, scroll) && styled_view(
                lines@,
            ) == styled_lines(
                lines_view(old(self).lyrics->0.lyrics@),
                active_line(old(self), now),
                old(self).config.lyric_settings.active_prefix@,
            ) && scroll == lyrics_scroll(old(self), visible_height, now).0),
            shows_lines(old(self)) ==> *final(self) == with_offset(
                old(self),
                lyrics_scroll(old(self), visible_height, now).1,
            ),
            !shows_lines(old(self)) ==> *final(self) == *old(self),
    {
        let fallback = self.config.color.fallback_accent_rgb();
        let accent = match self.theme.accent {
            Some(a) => a,
            None => fallback,
        };
        if let Some(debug_msg) = &self.debug_text {
            return LyricScreen { accent, view: LyricView::Debug(debug_msg.clone()) };
        }
        let title = match &self.active_song {
            Some(song) => song.title.clone(),
            None => {
                return LyricScreen { accent, view: LyricView::Nothing };
            },
        };
        let (same_song, empty) = match &self.lyrics {
            Some(lyrics) => (lyrics.song == title, lyrics.lyrics.len() == 0),
            None => {
                return LyricScreen { accent, view: LyricView::Fetching };
            },
        };
        if !same_song {
            return LyricScreen { accent, view: LyricView::Fetching };
        }
        if empty {
            return LyricScreen { accent, view: LyricView::NoLyrics };
        }
        let (lines, scroll) = self.display_lyrics(visible_height, now);
        LyricScreen { accent, view: LyricView::Lines(lines, scroll) }
    }
}

/// The progress gauge: the elapsed time, the song's length, and the colours.
#[derive(Debug)]
pub struct GaugeView {
    /// The elapsed time as `m:ss`.
    pub label: String,
    /// The elapsed time in milliseconds.
    pub progress: u128,
    /// The song's length in milliseconds; zero where it is unknown.
    pub length_ms: u32,
    /// The colour of the elapsed part.
    pub filled: [u8; 3],
    /// The colour of the rest: the filled colour at a third of its strength.
    pub unfilled: [u8; 3],
    /// A space and the song's length as `m:ss`.
    pub end_label: String,
}

/// The main colour: the theme's, or the configured fallback.
pub open spec fn main_of(app: &App) -> (u8, u8, u8) {
    match app.theme.main {
        Some(a) => (a[0], a[1], a[2]),
        None => hex_rgb_or(app.config.color.fallback_main@, (175, 215, 95)),
    }
}

/// The song's length in seconds, zero without a song.
pub open spec fn song_seconds(app: &App) -> u32 {
    match app.active_song {
        Some(s) => s.length,
        None => 0,
    }
}

impl App {
    /// The progress gauge at `now`.
    pub fn render_gauge(&self, now: u128) -> (r: GaugeView)
        requires
            hex_readable(self.config.color.fallback_main@),
            progress_at(self, now) <= u128::MAX,
            song_seconds(self) * 1000 <= u32::MAX,
        ensures
            r.progress == progress_at(self, now),
            r.label@ == spec_format_millis(r.progress),
            r.length_ms == song_seconds(self) * 1000,
            (r.filled[0], r.filled[1], r.filled[2]) == main_of(self),
            r.unfilled[0] == r.filled[0] / 3,
            r.unfilled[1] == r.filled[1] / 3,
            r.unfilled[2] == r.filled[2] / 3,
            r.end_label@ == seq![' '] + spec_format_second(song_seconds(self)),
    {
        let progress = self.current_progress(now);
        let label = format_millis(progress);
        let song_length = match &self.active_song {
            Some(song) => song.length,
            None => 0,
        };
        let fallback = self.config.color.fallback_main_rgb();
        let filled = match self.theme.main {
            Some(m) => m,
            None => fallback,
        };
        let unfilled = [filled[0] / 3, filled[1] / 3, filled[2] / 3];
        let mut end_label = String::from_str(" ");
        proof {
            reveal_strlit(" ");
        }
        let tail = format_second(song_length);
        end_label.append(tail.as_str());
        GaugeView {
            label,
            progress,
            length_ms: song_length * 1000,
            filled,
            unfilled,
            end_label,
        }
    }
}

} // verus!

verus! {

/// Whether clamping stays within `i16`.
fn clamp_in_range(pos: i16, offset: i16, max: i16) -> (b: bool)
    ensures
        b == clamp_scroll_fits(pos, offset, max),
{
    let f0 = pos as i32 + offset as i32;
    if f0 < i16::MIN as i32 || f0 > i16::MAX as i32 {
        return false;
    }
    let (f1, o1) = if f0 < 0 {
        (0i32, offset as i32 - f0)
    } else {
        (f0, offset as i32)
    };
    if o1 < i16::MIN as i32 || o1 > i16::MAX as i32 {
        return false;
    }
    if f1 > max as i32 {
        let over = f1 - max as i32;
        over <= i16::MAX as i32 && o1 - over >= i16::MIN as i32 && o1 - over <= i16::MAX as i32
    } else {
        true
    }
}

impl App {
    /// Whether the position at `now` fits in a `u128`.
    pub fn progress_in_range(&self, now: u128) -> (b: bool)
        ensures
            b == (progress_at(self, now) <= u128::MAX),
    {
        match self.anchor_instant {
            None => true,
            Some(i) => self.anchor_position.checked_add(crate::watcher::elapsed_millis(now, i)).is_some(),
        }
    }

    /// Whether scrolling `line_count` lines in `visible_height` rows at `now`
    /// stays in range.
    pub fn scroll_in_range(&self, visible_height: u16, line_count: usize, now: u128) -> (b: bool)
        ensures
            b == (progress_fits(self, now) && clamp_scroll_fits(
                scroll_position(self, visible_height, now),
                self.manual_scroll_offset,
                scroll_max(visible_height, line_count),
            )),
    {
        if self.lyrics.is_some() && !self.progress_in_range(now) {
            return false;
        }
        let pos = self.lyric_scroll_position(visible_height, now);
        let max_scroll = line_count.saturating_sub(visible_height as usize) as i16;
        clamp_in_range(pos, self.manual_scroll_offset, max_scroll)
    }

    /// Whether drawing the lyrics in `visible_height` rows at `now` stays in
    /// range.
    pub fn lyrics_in_range(&self, visible_height: u16, now: u128) -> (b: bool)
        ensures
            self.lyrics is Some ==> b == lyrics_draw_fits(self, visible_height, now),
    {
        match &self.lyrics {
            Some(l) => self.scroll_in_range(visible_height, l.lyrics.len(), now),
            None => true,
        }
    }

    /// Whether a click at `(x, y)` at `now` stays in range.
    pub fn click_in_range(&self, x: u16, y: u16, now: u128) -> (b: bool)
        ensures
            b == click_fits(self, x, y, now),
    {
        let area = match self.lyric_area {
            Some(a) => a,
            None => {
                return true;
            },
        };
        if !area.contains(x, y) {
            return true;
        }
        let n = match &self.lyrics {
            Some(l) => l.lyrics.len(),
            None => {
                return true;
            },
        };
        if n == 0 {
            return true;
        }
        if !self.scroll_in_range(area.height, n, now) {
            return false;
        }
        let pos = self.lyric_scroll_position(area.height, now);
        let max_scroll = n.saturating_sub(area.height as usize) as i16;
        let f0 = pos as i32 + self.manual_scroll_offset as i32;
        let f1 = if f0 < 0 {
            0
        } else {
            f0
        };
        let scroll: i16 = if f1 > max_scroll as i32 {
            max_scroll
        } else {
            f1 as i16
        };
        let relative_y = y.saturating_sub(area.y);
        (scroll as usize).checked_add(relative_y as usize).is_some()
    }
}

} // verus!
