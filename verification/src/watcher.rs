//! The player watcher: which player to follow, how the playback position is
//! tracked between polls, and what a poll's readings lead to.
//!
//! Instants are nanoseconds on the monotonic clock, counted from an origin
//! that the caller fixes once.

use vstd::prelude::*;
use crate::colorgen::generator::Theme;
use crate::lyric::LyricResponse;
use crate::text::{
    chars_of, clone_opt, clone_strings, opt_view, str_contains, contains, strings_view, string_of,
    trim, trim_bounds,
};

verus! {

/// What the watcher and the input handling tell the display.
#[derive(Debug)]
pub enum AppEvent {
    PlayerDetached,
    Idle,
    SongChanged { title: String, album: String, artists: Vec<String>, length: u32 },
    PlaybackAnchor { position_ms: u128, is_playing: bool, at: u128 },
    LyricsFetched { lyrics: Option<LyricResponse> },
    Error { error: String },
    PlayerCommand(PlayerCommand),
    ThemeFetched { song_title: String, theme: Theme },
}

/// What the user asks of the player.
#[derive(Debug, Clone, Copy, PartialEq, Eq, Structural)]
pub enum PlayerCommand {
    Pause,
    Next,
    Previous,
    /// Jump to this many milliseconds into the song.
    Skip(u64),
}

/// How often the player is polled, in milliseconds.
pub const POLL_MS: u64 = 500;

/// How many polls may report a song without an album before it is taken
/// as it is.
pub const RETRY_COUNT: u8 = 3;

/// The largest gap, in milliseconds, between the predicted and the reported
/// position that still counts as drift rather than a seek.
pub const MAXIMUM_DRIFT_ALLOWED: u64 = 750;

/// The tick rate assumed at the start of a session, in milliseconds.
pub const DEFAULT_TICK_ESTIMATED_MS: u128 = 500;

/// Whole milliseconds from `at` to `now`, zero where `now` comes first, as
/// `Instant::saturating_duration_since` and `Duration::as_millis` give them.
pub open spec fn elapsed_ms(now: u128, at: u128) -> nat {
    if now >= at {
        ((now - at) / 1_000_000) as nat
    } else {
        0
    }
}

/// Whole milliseconds from `at` to `now`.
pub fn elapsed_millis(now: u128, at: u128) -> (r: u128)
    ensures
        r == elapsed_ms(now, at),
{
    if now >= at {
        (now - at) / 1_000_000
    } else {
        0
    }
}

/// Where playback was last seen, and how fast the player's position ticks.
#[derive(Debug, Clone, Copy)]
pub struct PlaybackAnchor {
    pub position: Option<u128>,
    pub instant: Option<u128>,
    pub playing: bool,
    pub last_real_position: Option<u128>,
    pub last_change_instant: Option<u128>,
    pub estimated_tick_rate: u128,
}

impl Default for PlaybackAnchor {
    fn default() -> (r: Self)
        ensures
            r.position is None,
            r.instant is None,
            !r.playing,
            r.last_real_position is None,
            r.last_change_instant is None,
            r.estimated_tick_rate == 0,
    {
        PlaybackAnchor {
            position: None,
            instant: None,
            playing: false,
            last_real_position: None,
            last_change_instant: None,
            estimated_tick_rate: 0,
        }
    }
}

impl PlaybackAnchor {
    /// The anchor after `update`.
    pub open spec fn updated(
        self,
        position: u128,
        now: u128,
        is_playing: bool,
        last_real_position: u128,
    ) -> Self {
        PlaybackAnchor {
            position: Some(position),
            instant: Some(now),
            playing: is_playing,
            last_real_position: Some(last_real_position),
            last_change_instant: Some(now),
            estimated_tick_rate: self.estimated_tick_rate,
        }
    }

    /// The anchor after `pause`.
    pub open spec fn paused(self, position: u128) -> Self {
        PlaybackAnchor {
            position: Some(position),
            instant: None,
            playing: false,
            last_real_position: None,
            last_change_instant: None,
            estimated_tick_rate: self.estimated_tick_rate,
        }
    }

    /// Where playback is at `now`: the anchored position, plus the time
    /// since the anchor while playing; zero with no anchored position.
    pub open spec fn predicted(self, now: u128) -> int {
        match self.position {
            None => 0,
            Some(p) => match (self.playing, self.instant) {
                (true, Some(at)) => p + elapsed_ms(now, at),
                _ => p as int,
            },
        }
    }

    /// The prediction at `now` fits in a `u128`.
    pub open spec fn predicted_fits(self, now: u128) -> bool {
        self.predicted(now) <= u128::MAX
    }

    /// Anchors playback at `position` at `now`.
    pub fn update(&mut self, position: u128, now: u128, is_playing: bool, last_real_position: u128)
        ensures
            *final(self) == old(self).updated(position, now, is_playing, last_real_position),
    {
        self.position = Some(position);
        self.instant = Some(now);
        self.playing = is_playing;
        self.last_change_instant = Some(now);
        self.last_real_position = Some(last_real_position);
    }

    /// Holds playback at `position`.
    pub fn pause(&mut self, position: u128)
        ensures
            *final(self) == old(self).paused(position),
    {
        self.position = Some(position);
        self.instant = None;
        self.playing = false;
        self.last_real_position = None;
        self.last_change_instant = None;
    }

    /// The event that tells the display where playback is, if a position is
    /// anchored.
    pub fn report(&self, now: u128) -> (r: Option<AppEvent>)
        ensures
            match self.position {
                Some(p) => r == Some(
                    AppEvent::PlaybackAnchor { position_ms: p, is_playing: self.playing, at: now },
                ),
                None => r is None,
            },
    {
        match self.position {
            Some(position) => Some(
                AppEvent::PlaybackAnchor { position_ms: position, is_playing: self.playing, at: now },
            ),
            None => None,
        }
    }

    /// Where playback is predicted to be at `now`.
    pub fn predicted_position(&self, now: u128) -> (r: u128)
        requires
            self.predicted_fits(now),
        ensures
            r == self.predicted(now),
    {
        let anchor_position = match self.position {
            Some(p) => p,
            None => {
                return 0;
            },
        };
        if self.playing {
            if let Some(anchor_at) = self.instant {
                return anchor_position + elapsed_millis(now, anchor_at);
            }
        }
        anchor_position
    }
}

/// Prediction never runs backwards: the later the instant, the further the
/// predicted position.
pub proof fn law_prediction_monotone(anchor: PlaybackAnchor, t1: u128, t2: u128)
    requires
        t1 <= t2,
    ensures
        anchor.predicted(t1) <= anchor.predicted(t2),
{
    if let Some(at) = anchor.instant {
        if t1 >= at {
            assert((t1 - at) / 1_000_000 <= (t2 - at) / 1_000_000) by (nonlinear_arith)
                requires
                    t1 - at <= t2 - at,
            ;
        }
    }
}

/// Read after write: right after anchoring at `position`, and at any time
/// after pausing at `position`, the prediction is `position`.
pub proof fn law_anchor_read_after_write(
    anchor: PlaybackAnchor,
    position: u128,
    now: u128,
    is_playing: bool,
    last_real: u128,
    later: u128,
)
    ensures
        anchor.updated(position, now, is_playing, last_real).predicted(now) == position,
        anchor.paused(position).predicted(later) == position,
{
}

} // verus!

verus! {

/// What an event carries, as plain values.
pub enum EventView {
    PlayerDetached,
    Idle,
    SongChanged(Seq<char>, Seq<char>, Seq<Seq<char>>, u32),
    PlaybackAnchor(u128, bool, u128),
    LyricsFetched(Option<(Seq<char>, Seq<(u64, Seq<char>)>)>),
    Error(Seq<char>),
    PlayerCommand(PlayerCommand),
    ThemeFetched(Seq<char>, Theme),
}

impl View for AppEvent {
    type V = EventView;

    open spec fn view(&self) -> EventView {
        match self {
            AppEvent::PlayerDetached => EventView::PlayerDetached,
            AppEvent::Idle => EventView::Idle,
            AppEvent::SongChanged { title, album, artists, length } => EventView::SongChanged(
                title@,
                album@,
                strings_view(artists@),
                *length,
            ),
            AppEvent::PlaybackAnchor { position_ms, is_playing, at } => EventView::PlaybackAnchor(
                *position_ms,
                *is_playing,
                *at,
            ),
            AppEvent::LyricsFetched { lyrics } => EventView::LyricsFetched(
                match lyrics {
                    Some(l) => Some(l@),
                    None => None,
                },
            ),
            AppEvent::Error { error } => EventView::Error(error@),
            AppEvent::PlayerCommand(c) => EventView::PlayerCommand(*c),
            AppEvent::ThemeFetched { song_title, theme } => EventView::ThemeFetched(
                song_title@,
                *theme,
            ),
        }
    }
}

/// The gap between position changes, held between one poll interval and
/// five seconds.
pub open spec fn clamp_gap(g: nat) -> nat {
    if g < 500 {
        500
    } else if g > 5000 {
        5000
    } else {
        g
    }
}

/// The new tick-rate estimate: the mean of the old one and the clamped gap.
pub open spec fn next_tick_rate(tick: u128, gap: nat) -> int {
    (tick * 5 + clamp_gap(gap) * 5) / 10
}

/// The distance between two numbers.
pub open spec fn distance(a: int, b: int) -> int {
    if a >= b {
        a - b
    } else {
        b - a
    }
}

/// The instant of the last position change, or `now` where there is none.
pub open spec fn last_change_or(a: PlaybackAnchor, now: u128) -> u128 {
    match a.last_change_instant {
        Some(t) => t,
        None => now,
    }
}

/// The anchor after reading the player at `now`: the position it reported
/// (`None` where it reported none) and whether it is paused. A paused player
/// holds the anchor; a position seen before changes nothing; the first
/// reading of a session, or one that jumps more than the allowed drift from
/// the prediction, is taken as it is; any other reading refines the
/// tick-rate estimate and anchors at the reading plus half a tick, or at the
/// prediction where that is further.
pub open spec fn synced_anchor(
    a: PlaybackAnchor,
    now: u128,
    reported: Option<u128>,
    paused: bool,
) -> PlaybackAnchor {
    match reported {
        None => a,
        Some(ms) => if paused {
            a.paused(ms)
        } else if a.last_real_position == Some(ms) {
            a
        } else if !a.playing {
            a.updated(ms, now, true, ms)
        } else if distance(a.predicted(now), ms as int) > MAXIMUM_DRIFT_ALLOWED {
            a.updated(ms, now, true, ms)
        } else {
            let tick = next_tick_rate(a.estimated_tick_rate, elapsed_ms(now, last_change_or(a, now)));
            let half_tick_ahead = ms + tick / 2;
            let position = if half_tick_ahead >= a.predicted(now) {
                half_tick_ahead
            } else {
                a.predicted(now)
            };
            PlaybackAnchor { estimated_tick_rate: tick as u128, ..a }.updated(
                position as u128,
                now,
                true,
                ms,
            )
        },
    }
}

/// Whether reading the player leads to a report of the anchor.
pub open spec fn sync_reports(a: PlaybackAnchor, reported: Option<u128>, paused: bool) -> bool {
    reported matches Some(ms) && (paused || a.last_real_position != Some(ms))
}

/// The arithmetic of a sync stays in range: the prediction and the reading
/// fit in an `i128`, and the tick-rate estimate and the position anchored
/// half a tick ahead fit in a `u128`.
pub open spec fn sync_fits(a: PlaybackAnchor, now: u128, reported: Option<u128>, paused: bool) -> bool {
    match reported {
        None => true,
        Some(ms) => !paused && a.last_real_position != Some(ms) && a.playing ==> {
            &&& 0 <= a.predicted(now) <= i128::MAX
            &&& ms <= i128::MAX
            &&& distance(a.predicted(now), ms as int) <= MAXIMUM_DRIFT_ALLOWED ==> {
                let gap = elapsed_ms(now, last_change_or(a, now));
                &&& a.estimated_tick_rate * 5 + clamp_gap(gap) * 5 <= u128::MAX
                &&& ms + next_tick_rate(a.estimated_tick_rate, gap) / 2 <= u128::MAX
            }
        },
    }
}

/// Clamps a gap between one poll interval and five seconds.
fn clamp_gap_exec(g: u128) -> (r: u128)
    ensures
        r == clamp_gap(g as nat),
{
    if g < POLL_MS as u128 {
        POLL_MS as u128
    } else if g > 5_000 {
        5_000
    } else {
        g
    }
}

/// Brings the anchor in line with a reading of the player at `now`: the
/// position it reported (`None` where the read failed) and whether it is
/// paused. Returns the report of the new anchor, where there is one.
pub fn sync_playback_drift(
    anchor: &mut PlaybackAnchor,
    now: u128,
    reported: Option<u128>,
    paused: bool,
) -> (r: Option<AppEvent>)
    requires
        sync_fits(*old(anchor), now, reported, paused),
    ensures
        *final(anchor) == synced_anchor(*old(anchor), now, reported, paused),
        sync_reports(*old(anchor), reported, paused) ==> (r matches Some(e) && e@
            == EventView::PlaybackAnchor(final(anchor).position->0, final(anchor).playing, now)),
        !sync_reports(*old(anchor), reported, paused) ==> r is None,
{
    let reported_ms = match reported {
        Some(ms) => ms,
        None => {
            return None;
        },
    };
    if paused {
        anchor.pause(reported_ms);
        return anchor.report(now);
    }
    let is_new_reading = match anchor.last_real_position {
        Some(p) => p != reported_ms,
        None => true,
    };
    if !is_new_reading {
        return None;
    }
    if !anchor.playing {
        anchor.update(reported_ms, now, true, reported_ms);
        return anchor.report(now);
    }
    let predicted = anchor.predicted_position(now);
    let delta = predicted as i128 - reported_ms as i128;
    let is_seek = if delta >= 0 {
        delta > MAXIMUM_DRIFT_ALLOWED as i128
    } else {
        -delta > MAXIMUM_DRIFT_ALLOWED as i128
    };
    if is_seek {
        anchor.update(reported_ms, now, true, reported_ms);
        return anchor.report(now);
    }
    let since = match anchor.last_change_instant {
        Some(t) => t,
        None => now,
    };
    let gap = elapsed_millis(now, since);
    let clamped_gap = clamp_gap_exec(gap);
    anchor.estimated_tick_rate = (anchor.estimated_tick_rate * 5 + clamped_gap * 5) / 10;
    let half_tick_ahead = reported_ms + anchor.estimated_tick_rate / 2;
    let compensation = if half_tick_ahead >= predicted {
        half_tick_ahead
    } else {
        predicted
    };
    anchor.update(compensation, now, true, reported_ms);
    anchor.report(now)
}

/// The tick-rate estimate stays within five seconds: syncing keeps any
/// estimate of at most 5000 ms at most 5000 ms.
pub proof fn law_tick_rate_bounded(a: PlaybackAnchor, now: u128, reported: Option<u128>, paused: bool)
    requires
        a.estimated_tick_rate <= 5000,
    ensures
        synced_anchor(a, now, reported, paused).estimated_tick_rate <= 5000,
{
}

/// A seek is taken as reported, backwards as well as forwards: while
/// playing, a new reading `ms` that lies more than the allowed drift before
/// or after the predicted position anchors playback at exactly `ms`, now.
pub proof fn law_seek_taken_as_reported(a: PlaybackAnchor, now: u128, ms: u128)
    requires
        a.playing,
        a.last_real_position != Some(ms),
        a.predicted(now) > ms + MAXIMUM_DRIFT_ALLOWED || ms > a.predicted(now)
            + MAXIMUM_DRIFT_ALLOWED,
    ensures
        synced_anchor(a, now, Some(ms), false).position == Some(ms),
        synced_anchor(a, now, Some(ms), false).instant == Some(now),
        synced_anchor(a, now, Some(ms), false).playing,
        synced_anchor(a, now, Some(ms), false).last_real_position == Some(ms),
        synced_anchor(a, now, Some(ms), false).predicted(now) == ms,
{
}

/// A paused player holds playback at what it reports, and the first reading
/// of a session is taken as it is: a reading `ms` while paused anchors a
/// stopped position at `ms`; a new reading `ms` while the anchor is not
/// playing starts playback from exactly `ms`, now. A failed reading changes
/// nothing.
pub proof fn law_pause_and_first_reading(a: PlaybackAnchor, now: u128, later: u128, ms: u128)
    ensures
        synced_anchor(a, now, Some(ms), true).predicted(later) == ms,
        !synced_anchor(a, now, Some(ms), true).playing,
        !a.playing && a.last_real_position != Some(ms) ==> synced_anchor(a, now, Some(ms), false)
            .predicted(now) == ms && synced_anchor(a, now, Some(ms), false).playing,
        synced_anchor(a, now, None, false) == a,
        synced_anchor(a, now, None, true) == a,
{
}

/// Drift compensation never runs behind: while playing, a new reading `ms`
/// within the allowed drift of the prediction anchors playback at or after
/// both the reading and the prediction, and remembers `ms` as the reading.
pub proof fn law_drift_never_runs_behind(a: PlaybackAnchor, now: u128, ms: u128)
    requires
        a.playing,
        a.last_real_position != Some(ms),
        a.predicted(now) <= ms + MAXIMUM_DRIFT_ALLOWED,
        ms <= a.predicted(now) + MAXIMUM_DRIFT_ALLOWED,
        sync_fits(a, now, Some(ms), false),
    ensures
        synced_anchor(a, now, Some(ms), false).position matches Some(p) && p >= ms && p
            >= a.predicted(now),
        synced_anchor(a, now, Some(ms), false).last_real_position == Some(ms),
        synced_anchor(a, now, Some(ms), false).playing,
{
}

} // verus!

verus! {

/// What the watcher remembers between polls.
#[derive(Debug)]
pub struct WatcherState {
    pub current_title: Option<String>,
    pub current_bus: Option<String>,
    pub current_album: Option<String>,
    pub album_retry: u8,
    pub playback_anchor: PlaybackAnchor,
}

/// What the watcher remembers, as plain values.
pub struct WatcherView {
    pub current_title: Option<Seq<char>>,
    pub current_bus: Option<Seq<char>>,
    pub current_album: Option<Seq<char>>,
    pub album_retry: u8,
    pub playback_anchor: PlaybackAnchor,
}

impl View for WatcherState {
    type V = WatcherView;

    open spec fn view(&self) -> WatcherView {
        WatcherView {
            current_title: opt_view(self.current_title),
            current_bus: opt_view(self.current_bus),
            current_album: opt_view(self.current_album),
            album_retry: self.album_retry,
            playback_anchor: self.playback_anchor,
        }
    }
}

impl WatcherView {
    /// The state after forgetting the session: no player, song or album,
    /// and the default tick-rate estimate.
    pub open spec fn reset(self) -> WatcherView {
        WatcherView {
            current_title: None,
            current_bus: None,
            current_album: None,
            album_retry: self.album_retry,
            playback_anchor: PlaybackAnchor {
                estimated_tick_rate: DEFAULT_TICK_ESTIMATED_MS,
                ..self.playback_anchor
            },
        }
    }

    /// The state with another anchor.
    pub open spec fn with_anchor(self, a: PlaybackAnchor) -> WatcherView {
        WatcherView { playback_anchor: a, ..self }
    }
}

impl Default for WatcherState {
    fn default() -> (r: Self)
        ensures
            r@.current_title is None,
            r@.current_bus is None,
            r@.current_album is None,
            r@.album_retry == 0,
            r@.playback_anchor == (PlaybackAnchor {
                position: None,
                instant: None,
                playing: false,
                last_real_position: None,
                last_change_instant: None,
                estimated_tick_rate: 0,
            }),
    {
        WatcherState {
            current_title: None,
            current_bus: None,
            current_album: None,
            album_retry: 0,
            playback_anchor: PlaybackAnchor::default(),
        }
    }
}

impl WatcherState {
    /// Forgets the session: the player, the song and the album, and resets
    /// the tick-rate estimate.
    pub fn reset_session(&mut self)
        ensures
            final(self)@ == old(self)@.reset(),
    {
        self.current_bus = None;
        self.current_title = None;
        self.current_album = None;
        self.playback_anchor.estimated_tick_rate = DEFAULT_TICK_ESTIMATED_MS;
    }
}

/// What is read of a song's metadata.
#[derive(Debug)]
pub struct SongInfo {
    pub title: String,
    pub album: String,
    pub artists: Vec<String>,
    pub length: u32,
    pub art_url: Option<String>,
}

/// A song's metadata as plain values.
pub struct SongInfoView {
    pub title: Seq<char>,
    pub album: Seq<char>,
    pub artists: Seq<Seq<char>>,
    pub length: u32,
    pub art_url: Option<Seq<char>>,
}

impl View for SongInfo {
    type V = SongInfoView;

    open spec fn view(&self) -> SongInfoView {
        SongInfoView {
            title: self.title@,
            album: self.album@,
            artists: strings_view(self.artists@),
            length: self.length,
            art_url: opt_view(self.art_url),
        }
    }
}

/// The title of a song: the one reported, or `Unknown`.
pub open spec fn info_title(title: Option<Seq<char>>) -> Seq<char> {
    match title {
        Some(t) => t,
        None => "Unknown"@,
    }
}

/// The album of a song: the one reported unless it is blank or `Unknown`,
/// else empty.
pub open spec fn info_album(album: Option<Seq<char>>) -> Seq<char> {
    match album {
        Some(a) => if trim(a).len() != 0 && a != "Unknown"@ {
            a
        } else {
            Seq::empty()
        },
        None => Seq::empty(),
    }
}

/// The length of a song in whole seconds, from microseconds, cut to 32 bits
/// as `as u32` cuts it; zero where none is reported.
pub open spec fn info_length(length_us: Option<u64>) -> u32 {
    match length_us {
        Some(us) => (us / 1_000_000) as u32,
        None => 0,
    }
}

impl SongInfo {
    /// The song described by the fields of its metadata.
    pub fn from_fields(
        title: Option<String>,
        album: Option<String>,
        artists: Option<Vec<String>>,
        length_us: Option<u64>,
        art_url: Option<String>,
    ) -> (r: SongInfo)
        ensures
            r@.title == info_title(opt_view(title)),
            r@.album == info_album(opt_view(album)),
            r@.artists == match artists {
                Some(a) => strings_view(a@),
                None => Seq::<Seq<char>>::empty(),
            },
            r@.length == info_length(length_us),
            r@.art_url == opt_view(art_url),
    {
        let title = match title {
            Some(t) => t,
            None => String::from_str("Unknown"),
        };
        let album = match album {
            Some(a) => {
                let v = chars_of(a.as_str());
                let (x, y) = trim_bounds(&v, 0, v.len());
                assert(v@.subrange(0, v@.len() as int) == v@);
                let unknown = String::from_str("Unknown");
                if x < y && !(a == unknown) {
                    a
                } else {
                    String::new()
                }
            },
            None => String::new(),
        };
        let artists = match artists {
            Some(a) => a,
            None => {
                let v: Vec<String> = Vec::new();
                assert(strings_view(v@) =~= Seq::<Seq<char>>::empty());
                v
            },
        };
        let length = match length_us {
            Some(us) => (us / 1_000_000) as u32,
            None => 0,
        };
        SongInfo { title, album, artists, length, art_url }
    }
}

} // verus!

verus! {

/// What a poll asks of the caller: an event to send to the display, or a
/// fetch to start in the background.
#[derive(Debug)]
pub enum WatcherAction {
    Send(AppEvent),
    FetchTheme { song_title: String, art_url: String },
    FetchLyrics { title: String, artists: Vec<String>, album: String, length: u32 },
}

/// An action as plain values.
pub enum ActionView {
    Send(EventView),
    FetchTheme(Seq<char>, Seq<char>),
    FetchLyrics(Seq<char>, Seq<Seq<char>>, Seq<char>, u32),
}

impl View for WatcherAction {
    type V = ActionView;

    open spec fn view(&self) -> ActionView {
        match self {
            WatcherAction::Send(e) => ActionView::Send(e@),
            WatcherAction::FetchTheme { song_title, art_url } => ActionView::FetchTheme(
                song_title@,
                art_url@,
            ),
            WatcherAction::FetchLyrics { title, artists, album, length } => ActionView::FetchLyrics(
                title@,
                strings_view(artists@),
                album@,
                *length,
            ),
        }
    }
}

/// The views of a sequence of actions.
pub open spec fn actions_view(v: Seq<WatcherAction>) -> Seq<ActionView> {
    v.map_values(|a: WatcherAction| a@)
}

/// The views of a sequence of events.
pub open spec fn events_view(v: Seq<AppEvent>) -> Seq<EventView> {
    v.map_values(|e: AppEvent| e@)
}

/// The song is the one already shown.
pub open spec fn same_song(s: WatcherView, song: SongInfoView) -> bool {
    s.current_title == Some(song.title)
}

/// The song has no album yet and may still get one on a later poll.
pub open spec fn awaiting_album(s: WatcherView, song: SongInfoView) -> bool {
    song.album.len() == 0 && s.album_retry < RETRY_COUNT
}

/// The state after a poll's metadata: the same song changes nothing; a new
/// song without an album counts one more retry; any other song becomes the
/// current one.
pub open spec fn metadata_state(s: WatcherView, song: SongInfoView) -> WatcherView {
    if same_song(s, song) {
        s
    } else if awaiting_album(s, song) {
        WatcherView { album_retry: (s.album_retry + 1) as u8, ..s }
    } else {
        WatcherView {
            current_title: Some(song.title),
            current_album: Some(song.album),
            album_retry: 0,
            ..s
        }
    }
}

/// What a poll's metadata asks for: for the same song, a new theme once
/// playback resumes (where themes are generated and there is art); for a
/// new song, the song change, then (where there is art) a theme where themes
/// are generated, and the lyrics.
pub open spec fn metadata_actions(
    s: WatcherView,
    song: SongInfoView,
    generate: bool,
    was_paused: bool,
) -> Seq<ActionView> {
    if same_song(s, song) {
        match song.art_url {
            Some(u) => if was_paused && generate {
                seq![ActionView::FetchTheme(song.title, u)]
            } else {
                seq![]
            },
            None => seq![],
        }
    } else if awaiting_album(s, song) {
        seq![]
    } else {
        seq![
            ActionView::Send(
                EventView::SongChanged(song.title, song.album, song.artists, song.length),
            ),
        ] + match song.art_url {
            Some(u) => (if generate {
                seq![ActionView::FetchTheme(song.title, u)]
            } else {
                seq![]
            }) + seq![ActionView::FetchLyrics(song.title, song.artists, song.album, song.length)],
            None => seq![],
        }
    }
}

/// Acts on the metadata of the song that the player reports.
pub fn handle_metadata(
    song_info: &SongInfo,
    state: &mut WatcherState,
    generate: bool,
    was_paused: bool,
) -> (r: Vec<WatcherAction>)
    ensures
        final(state)@ == metadata_state(old(state)@, song_info@),
        actions_view(r@) == metadata_actions(old(state)@, song_info@, generate, was_paused),
{
    let mut out: Vec<WatcherAction> = Vec::new();
    let same_title = match &state.current_title {
        Some(t) => *t == song_info.title,
        None => false,
    };
    if same_title {
        if was_paused && generate {
            if let Some(art_url) = &song_info.art_url {
                out.push(
                    WatcherAction::FetchTheme {
                        song_title: song_info.title.clone(),
                        art_url: art_url.clone(),
                    },
                );
            }
        }
        assert(actions_view(out@) =~= metadata_actions(
            old(state)@,
            song_info@,
            generate,
            was_paused,
        ));
        return out;
    }
    let valid_album = !song_info.album.as_str().is_empty();
    let passed_retry_threshold = state.album_retry >= RETRY_COUNT;
    if !valid_album && !passed_retry_threshold {
        state.album_retry += 1;
        assert(actions_view(out@) =~= Seq::<ActionView>::empty());
        return out;
    }
    state.current_title = Some(song_info.title.clone());
    state.current_album = Some(song_info.album.clone());
    state.album_retry = 0;
    out.push(
        WatcherAction::Send(
            AppEvent::SongChanged {
                title: song_info.title.clone(),
                album: song_info.album.clone(),
                artists: clone_strings(&song_info.artists),
                length: song_info.length,
            },
        ),
    );
    if let Some(art_url) = &song_info.art_url {
        if generate {
            out.push(
                WatcherAction::FetchTheme {
                    song_title: song_info.title.clone(),
                    art_url: art_url.clone(),
                },
            );
        }
        out.push(
            WatcherAction::FetchLyrics {
                title: song_info.title.clone(),
                artists: clone_strings(&song_info.artists),
                album: song_info.album.clone(),
                length: song_info.length,
            },
        );
    }
    assert(actions_view(out@) =~= metadata_actions(
        old(state)@,
        song_info@,
        generate,
        was_paused,
    ));
    out
}

} // verus!

verus! {

/// The state once the player on `bus` is followed: a different player
/// starts a new session.
pub open spec fn bus_state(s: WatcherView, bus: Seq<char>) -> WatcherView {
    if s.current_bus == Some(bus) {
        s
    } else {
        WatcherView { current_bus: Some(bus), ..s.reset() }
    }
}

/// Following the player on `bus` detaches from another one.
pub open spec fn bus_detaches(s: WatcherView, bus: Seq<char>) -> bool {
    s.current_bus is Some && s.current_bus != Some(bus)
}

/// The events of a poll of an active player before its metadata is read:
/// the detachment from a previous player, and the report of the anchor.
pub open spec fn active_prefix(
    s: WatcherView,
    bus: Seq<char>,
    now: u128,
    reported: Option<u128>,
    paused: bool,
) -> Seq<ActionView> {
    let s1 = bus_state(s, bus);
    let a2 = synced_anchor(s1.playback_anchor, now, reported, paused);
    (if bus_detaches(s, bus) {
        seq![ActionView::Send(EventView::PlayerDetached)]
    } else {
        seq![]
    }) + (if sync_reports(s1.playback_anchor, reported, paused) {
        seq![ActionView::Send(EventView::PlaybackAnchor(a2.position->0, a2.playing, now))]
    } else {
        seq![]
    })
}

/// The state after the player on `bus` was read and synced.
pub open spec fn synced_state(
    s: WatcherView,
    bus: Seq<char>,
    now: u128,
    reported: Option<u128>,
    paused: bool,
) -> WatcherView {
    let s1 = bus_state(s, bus);
    s1.with_anchor(synced_anchor(s1.playback_anchor, now, reported, paused))
}

/// Playback has just resumed: paused before the sync, playing after it.
pub open spec fn resumed(
    s: WatcherView,
    bus: Seq<char>,
    now: u128,
    reported: Option<u128>,
    paused: bool,
) -> bool {
    let s1 = bus_state(s, bus);
    synced_anchor(s1.playback_anchor, now, reported, paused).playing
        && !s1.playback_anchor.playing
}

/// One poll of the active player on `bus`: at `now` it reported the
/// position `reported` (`None` where that read failed), whether it is
/// paused, and its song's metadata (or why that could not be read).
pub fn handle_active_player(
    state: &mut WatcherState,
    bus: &str,
    now: u128,
    reported: Option<u128>,
    paused: bool,
    metadata: Result<SongInfo, String>,
    generate: bool,
) -> (r: Vec<WatcherAction>)
    requires
        sync_fits(bus_state(old(state)@, bus@).playback_anchor, now, reported, paused),
    ensures
        match metadata {
            Ok(song) => {
                &&& final(state)@ == metadata_state(
                    synced_state(old(state)@, bus@, now, reported, paused),
                    song@,
                )
                &&& actions_view(r@) == active_prefix(old(state)@, bus@, now, reported, paused)
                    + metadata_actions(
                    synced_state(old(state)@, bus@, now, reported, paused),
                    song@,
                    generate,
                    resumed(old(state)@, bus@, now, reported, paused),
                )
            },
            Err(e) => {
                &&& final(state)@ == synced_state(old(state)@, bus@, now, reported, paused)
                &&& actions_view(r@) == active_prefix(old(state)@, bus@, now, reported, paused)
                    + seq![ActionView::Send(EventView::Error("Failed to get metadata: "@ + e@))]
            },
        },
{
    let ghost s0 = state@;
    let mut out: Vec<WatcherAction> = Vec::new();
    let bus_name = String::from_str(bus);
    let same_bus = match &state.current_bus {
        Some(b) => *b == bus_name,
        None => false,
    };
    if !same_bus {
        if state.current_bus.is_some() {
            out.push(WatcherAction::Send(AppEvent::PlayerDetached));
        }
        state.reset_session();
        state.current_bus = Some(bus_name);
    }
    assert(state@ == bus_state(s0, bus@));
    let ghost mid = out@;
    let paused_before_sync = !state.playback_anchor.playing;
    let report = sync_playback_drift(&mut state.playback_anchor, now, reported, paused);
    if let Some(event) = report {
        out.push(WatcherAction::Send(event));
    }
    assert(actions_view(out@) =~= active_prefix(s0, bus@, now, reported, paused));
    let was_paused = state.playback_anchor.playing && paused_before_sync;
    match metadata {
        Err(e) => {
            let mut message = String::from_str("Failed to get metadata: ");
            message.append(e.as_str());
            let ghost before = out@;
            out.push(WatcherAction::Send(AppEvent::Error { error: message }));
            assert(actions_view(out@) =~= actions_view(before) + seq![
                ActionView::Send(EventView::Error("Failed to get metadata: "@ + e@)),
            ]);
        },
        Ok(song) => {
            let more = handle_metadata(&song, state, generate, was_paused);
            let ghost before = out@;
            let mut more = more;
            out.append(&mut more);
            assert(actions_view(out@) =~= actions_view(before) + metadata_actions(
                synced_state(s0, bus@, now, reported, paused),
                song@,
                generate,
                resumed(s0, bus@, now, reported, paused),
            ));
        },
    }
    out
}

/// The state after a poll that found no player.
pub open spec fn no_player_state(s: WatcherView, now: u128) -> WatcherView {
    let s1 = if s.current_bus is Some {
        s.reset()
    } else {
        s
    };
    let a = s1.playback_anchor;
    if a.instant is Some || a.playing {
        s1.with_anchor(a.paused(a.predicted(now) as u128))
    } else {
        s1
    }
}

/// The events of a poll that found no player: the detachment from the
/// previous one, the anchor held at its predicted position while it was
/// moving, and idleness.
pub open spec fn no_player_events(s: WatcherView, now: u128) -> Seq<EventView> {
    let a = s.playback_anchor;
    (if s.current_bus is Some {
        seq![EventView::PlayerDetached]
    } else {
        seq![]
    }) + (if a.instant is Some || a.playing {
        seq![EventView::PlaybackAnchor(a.predicted(now) as u128, false, now)]
    } else {
        seq![]
    }) + seq![EventView::Idle]
}

/// One poll that found no player, at `now`.
pub fn handle_no_player(state: &mut WatcherState, now: u128) -> (r: Vec<AppEvent>)
    requires
        old(state).playback_anchor.instant is Some || old(state).playback_anchor.playing
            ==> old(state).playback_anchor.predicted_fits(now),
    ensures
        final(state)@ == no_player_state(old(state)@, now),
        events_view(r@) == no_player_events(old(state)@, now),
{
    let ghost s0 = state@;
    let mut out: Vec<AppEvent> = Vec::new();
    if state.current_bus.is_some() {
        state.reset_session();
        out.push(AppEvent::PlayerDetached);
    }
    if state.playback_anchor.instant.is_some() || state.playback_anchor.playing {
        let estimated_position = state.playback_anchor.predicted_position(now);
        state.playback_anchor.pause(estimated_position);
        out.push(
            AppEvent::PlaybackAnchor { position_ms: estimated_position, at: now, is_playing: false },
        );
    }
    out.push(AppEvent::Idle);
    assert(events_view(out@) =~= no_player_events(s0, now));
    out
}

/// The indices of the names in `names` that hold `wanted`, in order.
pub open spec fn matching(names: Seq<Seq<char>>, wanted: Seq<char>) -> Seq<usize>
    decreases names.len(),
{
    if names.len() == 0 {
        seq![]
    } else if contains(names.last(), wanted) {
        matching(names.drop_last(), wanted).push((names.len() - 1) as usize)
    } else {
        matching(names.drop_last(), wanted)
    }
}

/// The players, among those on `bus_names`, whose bus name holds the
/// configured player name.
pub fn matching_players(bus_names: &Vec<String>, wanted: &str) -> (r: Vec<usize>)
    ensures
        r@ == matching(strings_view(bus_names@), wanted@),
{
    let mut r: Vec<usize> = Vec::new();
    let mut i: usize = 0;
    let ghost names = strings_view(bus_names@);
    assert(names.take(0) =~= Seq::<Seq<char>>::empty());
    while i < bus_names.len()
        invariant
            i <= bus_names.len(),
            names == strings_view(bus_names@),
            r@ == matching(names.take(i as int), wanted@),
        decreases bus_names.len() - i,
    {
        assert(names.take(i + 1).drop_last() =~= names.take(i as int));
        assert(names.take(i + 1).last() == bus_names@[i as int]@);
        if str_contains(bus_names[i].as_str(), wanted) {
            r.push(i);
        }
        i += 1;
    }
    assert(names.take(i as int) =~= names);
    r
}

/// `k` is the position of the first `true` of `flags`.
pub open spec fn is_first_true(flags: Seq<bool>, k: int) -> bool {
    0 <= k < flags.len() && flags[k] && forall|j: int| 0 <= j < k ==> !flags[j]
}

/// The first `true` of `flags`.
pub open spec fn first_true(flags: Seq<bool>) -> Option<int> {
    if exists|k: int| is_first_true(flags, k) {
        Some(choose|k: int| is_first_true(flags, k))
    } else {
        None
    }
}

/// Which of `matched` candidate players to follow: the only one, or where
/// there are several, the first that is playing.
pub open spec fn spec_pick(matched: nat, playing: Seq<bool>) -> Option<int> {
    if matched == 0 {
        None
    } else if matched == 1 {
        Some(0)
    } else {
        first_true(playing)
    }
}

/// Picks the player to follow among `matched` candidates; `playing` tells,
/// where there are several, whether each is playing.
pub fn pick_player(matched: usize, playing: &Vec<bool>) -> (r: Option<usize>)
    requires
        matched > 1 ==> playing.len() == matched,
    ensures
        match spec_pick(matched as nat, playing@) {
            Some(k) => r == Some(k as usize),
            None => r is None,
        },
{
    if matched == 0 {
        return None;
    }
    if matched == 1 {
        return Some(0);
    }
    let mut k: usize = 0;
    while k < playing.len()
        invariant
            matched > 1,
            k <= playing.len(),
            forall|j: int| 0 <= j < k ==> !playing@[j],
        decreases playing.len() - k,
    {
        if playing[k] {
            proof {
                assert(is_first_true(playing@, k as int));
                let c = choose|c: int| is_first_true(playing@, c);
                if c < k {
                    assert(!playing@[c]);
                } else if c > k {
                    assert(!playing@[k as int]);
                }
            }
            return Some(k);
        }
        k += 1;
    }
    None
}

} // verus!

verus! {

/// The album retry counter never passes its limit: from a state within it,
/// reading metadata leaves it within it.
pub proof fn law_album_retry_bounded(s: WatcherView, song: SongInfoView)
    requires
        s.album_retry <= RETRY_COUNT,
    ensures
        metadata_state(s, song).album_retry <= RETRY_COUNT,
{
}

/// Metadata of the song already shown changes nothing and announces no song
/// change.
pub proof fn law_same_song_is_quiet(
    s: WatcherView,
    song: SongInfoView,
    generate: bool,
    was_paused: bool,
)
    requires
        s.current_title == Some(song.title),
    ensures
        metadata_state(s, song) == s,
        forall|k: int|
            0 <= k < metadata_actions(s, song, generate, was_paused).len() ==> !(#[trigger] metadata_actions(
                s,
                song,
                generate,
                was_paused,
            )[k] is Send),
{
}

/// A new song is announced with what the player reported of it: where the
/// song is not the one shown and is not waiting for its album, the first
/// action sends a song change carrying the song's own title, album, artists
/// and length; and where it has art, the last action fetches the lyrics of
/// that same title, artists, album and length.
pub proof fn law_new_song_announced_as_reported(
    s: WatcherView,
    song: SongInfoView,
    generate: bool,
    was_paused: bool,
)
    requires
        s.current_title != Some(song.title),
        song.album.len() > 0 || s.album_retry >= RETRY_COUNT,
    ensures
        metadata_actions(s, song, generate, was_paused).len() >= 1,
        metadata_actions(s, song, generate, was_paused)[0] == ActionView::Send(
            EventView::SongChanged(song.title, song.album, song.artists, song.length),
        ),
        song.art_url is Some ==> metadata_actions(s, song, generate, was_paused).last()
            == ActionView::FetchLyrics(song.title, song.artists, song.album, song.length),
        metadata_state(s, song).current_title == Some(song.title),
        metadata_state(s, song).current_album == Some(song.album),
{
}

/// What the player reports of a song is kept: a reported title as it is
/// (`Unknown` only where none is reported); a reported album unless it is
/// blank or `Unknown`; and the length as the whole seconds within the
/// reported microseconds.
pub proof fn law_song_info_keeps_reports(t: Seq<char>, a: Seq<char>, us: u64)
    ensures
        info_title(Some(t)) == t,
        info_title(None) == "Unknown"@,
        trim(a).len() > 0 && a != "Unknown"@ ==> info_album(Some(a)) == a,
        info_album(None).len() == 0,
        us < 1_000_000 * 0x1_0000_0000 ==> info_length(Some(us)) * 1_000_000 <= us < (info_length(
            Some(us),
        ) + 1) * 1_000_000,
        info_length(None) == 0,
{
    if us < 1_000_000 * 0x1_0000_0000 {
        let q = us / 1_000_000;
        assert(q < 0x1_0000_0000);
        assert((q as u32) as u64 == q);
        assert(q * 1_000_000 <= us < (q + 1) * 1_000_000);
    }
}

/// Forgetting the session twice is forgetting it once.
pub proof fn law_reset_idempotent(s: WatcherView)
    ensures
        s.reset().reset() == s.reset(),
{
}

} // verus!

verus! {

impl PlaybackAnchor {
    /// Whether the prediction at `now` fits in a `u128`.
    pub fn prediction_in_range(&self, now: u128) -> (b: bool)
        ensures
            b == self.predicted_fits(now),
    {
        match (self.position, self.playing, self.instant) {
            (Some(p), true, Some(at)) => p.checked_add(elapsed_millis(now, at)).is_some(),
            _ => true,
        }
    }

    /// Whether a sync with this reading stays in range.
    pub fn sync_in_range(&self, now: u128, reported: Option<u128>, paused: bool) -> (b: bool)
        ensures
            b == sync_fits(*self, now, reported, paused),
    {
        let ms = match reported {
            Some(ms) => ms,
            None => {
                return true;
            },
        };
        let seen = match self.last_real_position {
            Some(p) => p == ms,
            None => false,
        };
        if paused || seen || !self.playing {
            return true;
        }
        if !self.prediction_in_range(now) {
            return false;
        }
        let predicted = self.predicted_position(now);
        if predicted > i128::MAX as u128 || ms > i128::MAX as u128 {
            return false;
        }
        let drift = if predicted >= ms {
            predicted - ms
        } else {
            ms - predicted
        };
        if drift > MAXIMUM_DRIFT_ALLOWED as u128 {
            return true;
        }
        let since = match self.last_change_instant {
            Some(t) => t,
            None => now,
        };
        let gap = clamp_gap_exec(elapsed_millis(now, since));
        if self.estimated_tick_rate > (u128::MAX - gap * 5) / 5 {
            return false;
        }
        let tick = (self.estimated_tick_rate * 5 + gap * 5) / 10;
        ms.checked_add(tick / 2).is_some()
    }
}

impl WatcherState {
    /// Whether a poll of the player on `bus` with this reading stays in
    /// range.
    pub fn poll_in_range(&self, bus: &str, now: u128, reported: Option<u128>, paused: bool) -> (b:
        bool)
        ensures
            b == sync_fits(bus_state(self@, bus@).playback_anchor, now, reported, paused),
    {
        let bus_name = String::from_str(bus);
        let same_bus = match &self.current_bus {
            Some(b) => *b == bus_name,
            None => false,
        };
        let mut anchor = self.playback_anchor;
        if !same_bus {
            anchor.estimated_tick_rate = DEFAULT_TICK_ESTIMATED_MS;
        }
        assert(anchor == bus_state(self@, bus@).playback_anchor);
        anchor.sync_in_range(now, reported, paused)
    }
}

} // verus!
