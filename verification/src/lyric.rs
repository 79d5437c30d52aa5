//! Synchronized lyrics: the LRC parser and the decisions around fetching
//! lyrics and caching them.

use vstd::prelude::*;
use crate::text::{
    decimal,
    chars_of, find_in, first_index, is_first_index, lemma_first_index_is, lemma_first_index_none,
    parse_u64_in, spec_parse_u64, string_of, trim, trim_bounds,
};

verus! {

/// One timed line of lyrics.
#[derive(Debug, Clone)]
pub struct LyricLine {
    /// When the line starts, in milliseconds from the start of the song.
    pub timestamp: u64,
    /// The words of the line.
    pub line: String,
}

impl View for LyricLine {
    type V = (u64, Seq<char>);

    open spec fn view(&self) -> (u64, Seq<char>) {
        (self.timestamp, self.line@)
    }
}

/// The lyrics found for one song.
#[derive(Debug, Clone)]
pub struct LyricResponse {
    /// The title of the song that the lyrics belong to.
    pub song: String,
    /// The timed lines, in the order of the source text.
    pub lyrics: Vec<LyricLine>,
}

/// The views of a vector of lyric lines.
pub open spec fn lines_view(v: Seq<LyricLine>) -> Seq<(u64, Seq<char>)> {
    v.map_values(|l: LyricLine| l@)
}

/// `line` without one trailing carriage return.
pub open spec fn strip_cr(line: Seq<char>) -> Seq<char> {
    if line.len() > 0 && line.last() == '\r' {
        line.drop_last()
    } else {
        line
    }
}

/// The lines of `s` as `str::lines` splits them: at every `'\n'`, dropping a
/// `'\r'` just before it; text after the last `'\n'` is a last line of its
/// own, kept whole, and an empty string has no lines.
pub open spec fn lines(s: Seq<char>) -> Seq<Seq<char>>
    decreases s.len(),
{
    if s.len() == 0 {
        seq![]
    } else {
        match first_index(s, '\n') {
            Some(i) => {
                if 0 <= i < s.len() {
                    seq![strip_cr(s.take(i))] + lines(s.skip(i + 1))
                } else {
                    seq![]
                }
            },
            None => seq![s],
        }
    }
}

/// Milliseconds spelled by the fraction of a timestamp: one digit counts
/// tenths, two count hundredths, three count thousandths; any other length
/// is no fraction.
pub open spec fn frac_millis(frac: Seq<char>) -> Option<int> {
    match spec_parse_u64(frac) {
        Some(v) => {
            if frac.len() == 1 {
                Some(v * 100)
            } else if frac.len() == 2 {
                Some(v * 10)
            } else if frac.len() == 3 {
                Some(v as int)
            } else {
                None
            }
        },
        None => None,
    }
}

/// The time in milliseconds that an LRC timestamp `min:sec.frac` spells,
/// split at the first `':'` and then at the first `'.'` after it, each part
/// read as `str::parse::<u64>` reads it.
pub open spec fn timestamp_value(ts: Seq<char>) -> Option<int> {
    match first_index(ts, ':') {
        None => None,
        Some(i) => {
            let min = ts.take(i);
            let rest = ts.skip(i + 1);
            match first_index(rest, '.') {
                None => None,
                Some(j) => {
                    let sec = rest.take(j);
                    let frac = rest.skip(j + 1);
                    match (spec_parse_u64(min), spec_parse_u64(sec), frac_millis(frac)) {
                        (Some(m), Some(s), Some(f)) => Some(m * 60_000 + s * 1_000 + f),
                        _ => None,
                    }
                },
            }
        },
    }
}

/// The timestamp's value fits in a `u64`; the sum overflows otherwise.
pub open spec fn timestamp_fits(ts: Seq<char>) -> bool {
    timestamp_value(ts) matches Some(v) ==> v <= u64::MAX
}

/// What `parse_timestamp` returns.
pub open spec fn spec_parse_timestamp(ts: Seq<char>) -> Option<u64> {
    match timestamp_value(ts) {
        Some(v) => Some(v as u64),
        None => None,
    }
}

/// What one line of LRC text gives: the timestamp between the first
/// character and the first `']'`, and the rest of the line after that `']'`,
/// trimmed. A line with no `']'`, or whose timestamp does not parse, gives
/// nothing.
pub open spec fn parse_line(line: Seq<char>) -> Option<(u64, Seq<char>)> {
    match first_index(line, ']') {
        None => None,
        Some(end) => match spec_parse_timestamp(line.subrange(1, end)) {
            Some(t) => Some((t, trim(line.skip(end + 1)))),
            None => None,
        },
    }
}

/// A line that can be read without fault: where it has a `']'`, that `']'`
/// is not its first character, its first character is ASCII (a one-byte
/// character, so that the tag can be cut after it), and its timestamp does
/// not overflow.
pub open spec fn line_ok(line: Seq<char>) -> bool {
    match first_index(line, ']') {
        None => true,
        Some(end) => end >= 1 && (line[0] as u32) < 0x80 && timestamp_fits(
            line.subrange(1, end),
        ),
    }
}

/// Every line of `text` can be read without fault.
pub open spec fn lrc_ok(text: Seq<char>) -> bool {
    forall|k: int| 0 <= k < lines(text).len() ==> line_ok(#[trigger] lines(text)[k])
}

/// The timed lines that a sequence of lines gives, in order.
pub open spec fn timed_entries(ls: Seq<Seq<char>>) -> Seq<(u64, Seq<char>)>
    decreases ls.len(),
{
    if ls.len() == 0 {
        seq![]
    } else {
        let prev = timed_entries(ls.drop_last());
        match parse_line(ls.last()) {
            Some(e) => prev.push(e),
            None => prev,
        }
    }
}

/// The timed lines of an LRC text.
pub open spec fn timed_lyrics(text: Seq<char>) -> Seq<(u64, Seq<char>)> {
    timed_entries(lines(text))
}

proof fn lemma_lines_step(s: Seq<char>, i: int)
    requires
        is_first_index(s, '\n', i),
    ensures
        lines(s) == seq![strip_cr(s.take(i))] + lines(s.skip(i + 1)),
{
    lemma_first_index_is(s, '\n', i);
}

proof fn lemma_lines_last(s: Seq<char>)
    requires
        s.len() > 0,
        forall|k: int| 0 <= k < s.len() ==> s[k] != '\n',
    ensures
        lines(s) == seq![s],
{
    lemma_first_index_none(s, '\n');
}

/// Reads `v[from..to]` as a timestamp.
fn timestamp_in(v: &Vec<char>, from: usize, to: usize) -> (r: Option<u64>)
    requires
        from <= to <= v.len(),
        timestamp_fits(v@.subrange(from as int, to as int)),
    ensures
        r == spec_parse_timestamp(v@.subrange(from as int, to as int)),
{
    let ghost ts = v@.subrange(from as int, to as int);
    let colon = match find_in(v, from, to, ':') {
        Some(c) => c,
        None => {
            return None;
        },
    };
    let ghost i = colon - from;
    let ghost rest = ts.skip(i + 1);
    assert(ts.take(i) == v@.subrange(from as int, colon as int));
    assert(rest == v@.subrange(colon + 1, to as int));
    let dot = match find_in(v, colon + 1, to, '.') {
        Some(d) => d,
        None => {
            return None;
        },
    };
    let ghost j = dot - (colon + 1);
    assert(rest.take(j) == v@.subrange(colon + 1, dot as int));
    assert(rest.skip(j + 1) == v@.subrange(dot + 1, to as int));
    let minutes = match parse_u64_in(v, from, colon) {
        Some(m) => m,
        None => {
            return None;
        },
    };
    let seconds = match parse_u64_in(v, colon + 1, dot) {
        Some(s) => s,
        None => {
            return None;
        },
    };
    let frac_len = to - (dot + 1);
    let frac = match parse_u64_in(v, dot + 1, to) {
        Some(f) => f,
        None => {
            return None;
        },
    };
    let millis = if frac_len == 1 {
        assert(minutes * 60_000 + seconds * 1_000 + frac * 100 <= u64::MAX);
        frac * 100
    } else if frac_len == 2 {
        assert(minutes * 60_000 + seconds * 1_000 + frac * 10 <= u64::MAX);
        frac * 10
    } else if frac_len == 3 {
        frac
    } else {
        return None;
    };
    Some(minutes * 60_000 + seconds * 1_000 + millis)
}

/// Parses an LRC timestamp `min:sec.frac` into milliseconds.
pub fn parse_timestamp(ts: &str) -> (r: Option<u64>)
    requires
        timestamp_fits(ts@),
    ensures
        r == spec_parse_timestamp(ts@),
{
    let v = chars_of(ts);
    assert(v@.subrange(0, v@.len() as int) == v@);
    timestamp_in(&v, 0, v.len())
}

} // verus!

verus! {

/// Reads the line `v[from..to]`.
fn line_entry(v: &Vec<char>, from: usize, to: usize) -> (r: Option<LyricLine>)
    requires
        from <= to <= v.len(),
        line_ok(v@.subrange(from as int, to as int)),
    ensures
        match parse_line(v@.subrange(from as int, to as int)) {
            Some(e) => r matches Some(l) && l@ == e,
            None => r is None,
        },
{
    let ghost line = v@.subrange(from as int, to as int);
    let end = match find_in(v, from, to, ']') {
        Some(e) => e,
        None => {
            return None;
        },
    };
    let ghost k = end - from;
    assert(line.subrange(1, k) == v@.subrange(from + 1, end as int));
    assert(line.skip(k + 1) == v@.subrange(end + 1, to as int));
    let timestamp = match timestamp_in(v, from + 1, end) {
        Some(t) => t,
        None => {
            return None;
        },
    };
    let (a, b) = trim_bounds(v, end + 1, to);
    let text = string_of(v, a, b);
    Some(LyricLine { timestamp, line: text })
}

/// Whether the line `v[from..to]` can be read without fault.
#[verifier::rlimit(60)]
fn line_ok_in(v: &Vec<char>, from: usize, to: usize) -> (b: bool)
    requires
        from <= to <= v.len(),
    ensures
        b == line_ok(v@.subrange(from as int, to as int)),
{
    let ghost line = v@.subrange(from as int, to as int);
    let end = match find_in(v, from, to, ']') {
        Some(e) => e,
        None => {
            return true;
        },
    };
    if end == from || v[from] as u32 >= 0x80 {
        return false;
    }
    assert(line[0] == v@[from as int]);
    let ghost ts = v@.subrange(from + 1, end as int);
    assert(line.subrange(1, end - from) == ts);
    let colon = match find_in(v, from + 1, end, ':') {
        Some(c) => c,
        None => {
            return true;
        },
    };
    let ghost i = colon - (from + 1);
    let ghost rest = ts.skip(i + 1);
    assert(ts.take(i) == v@.subrange(from + 1, colon as int));
    assert(rest == v@.subrange(colon + 1, end as int));
    let dot = match find_in(v, colon + 1, end, '.') {
        Some(d) => d,
        None => {
            return true;
        },
    };
    let ghost j = dot - (colon + 1);
    assert(rest.take(j) == v@.subrange(colon + 1, dot as int));
    assert(rest.skip(j + 1) == v@.subrange(dot + 1, end as int));
    let minutes = match parse_u64_in(v, from + 1, colon) {
        Some(m) => m,
        None => {
            return true;
        },
    };
    let seconds = match parse_u64_in(v, colon + 1, dot) {
        Some(s) => s,
        None => {
            return true;
        },
    };
    let frac = match parse_u64_in(v, dot + 1, end) {
        Some(f) => f,
        None => {
            return true;
        },
    };
    let frac_len = end - (dot + 1);
    let millis: u128 = if frac_len == 1 {
        frac as u128 * 100
    } else if frac_len == 2 {
        frac as u128 * 10
    } else if frac_len == 3 {
        frac as u128
    } else {
        return true;
    };
    minutes as u128 * 60_000 + seconds as u128 * 1_000 + millis <= u64::MAX as u128
}

/// Converts LRC text into timed lines: one for each line of the text that
/// holds a timestamp tag, in order, with the words after the tag trimmed.
#[verifier::rlimit(50)]
pub fn convert_to_timed(text: &str) -> (r: Vec<LyricLine>)
    requires
        lrc_ok(text@),
    ensures
        lines_view(r@) == timed_lyrics(text@),
{
    let v = chars_of(text);
    let n = v.len();
    let mut out: Vec<LyricLine> = Vec::new();
    let ghost mut done: Seq<Seq<char>> = seq![];
    let mut start: usize = 0;
    let mut i: usize = 0;
    assert(v@.skip(0) == v@);
    while i < n
        invariant
            n == v.len(),
            v@ == text@,
            start <= i <= n,
            lines(v@) == done + lines(v@.skip(start as int)),
            forall|k: int| start <= k < i ==> v@[k] != '\n',
            lines_view(out@) == timed_entries(done),
            lrc_ok(v@),
        decreases n - i,
    {
        if v[i] == '\n' {
            let ghost s = v@.skip(start as int);
            proof {
                assert(is_first_index(s, '\n', i - start));
                lemma_lines_step(s, i - start);
                assert(s.take(i - start) == v@.subrange(start as int, i as int));
                assert(s.skip(i - start + 1) == v@.skip(i + 1));
            }
            let e = if i > start && v[i - 1] == '\r' {
                i - 1
            } else {
                i
            };
            let ghost line = v@.subrange(start as int, e as int);
            assert(line == strip_cr(v@.subrange(start as int, i as int)));
            proof {
                assert(lines(v@) == done.push(line) + lines(v@.skip(i + 1)));
                assert(lines(v@)[done.len() as int] == line);
            }
            let entry = line_entry(&v, start, e);
            match entry {
                Some(l) => {
                    out.push(l);
                },
                None => {},
            }
            proof {
                assert(done.push(line).drop_last() == done);
                done = done.push(line);
            }
            start = i + 1;
        }
        i += 1;
    }
    if start < n {
        let ghost s = v@.skip(start as int);
        proof {
            lemma_lines_last(s);
            assert(s == v@.subrange(start as int, n as int));
            assert(lines(v@)[done.len() as int] == s);
        }
        let entry = line_entry(&v, start, n);
        match entry {
            Some(l) => {
                out.push(l);
            },
            None => {},
        }
        proof {
            assert(done.push(s).drop_last() == done);
            done = done.push(s);
        }
    } else {
        assert(v@.skip(start as int).len() == 0);
    }
    assert(lines(v@) == done);
    out
}

} // verus!

verus! {

/// Whether `convert_to_timed` can read `text`: no line has a `']'` as its
/// first character, or a non-ASCII first character before its `']'`, or a
/// timestamp too large for a `u64`. On any other text the conversion would
/// fault.
#[verifier::rlimit(50)]
pub fn convertible_to_timed(text: &str) -> (b: bool)
    ensures
        b == lrc_ok(text@),
{
    let v = chars_of(text);
    let n = v.len();
    let ghost mut done: Seq<Seq<char>> = seq![];
    let mut start: usize = 0;
    let mut i: usize = 0;
    assert(v@.skip(0) == v@);
    while i < n
        invariant
            n == v.len(),
            v@ == text@,
            start <= i <= n,
            lines(v@) == done + lines(v@.skip(start as int)),
            forall|k: int| start <= k < i ==> v@[k] != '\n',
            forall|k: int| 0 <= k < done.len() ==> line_ok(#[trigger] done[k]),
        decreases n - i,
    {
        if v[i] == '\n' {
            let ghost s = v@.skip(start as int);
            proof {
                assert(is_first_index(s, '\n', i - start));
                lemma_lines_step(s, i - start);
                assert(s.take(i - start) == v@.subrange(start as int, i as int));
                assert(s.skip(i - start + 1) == v@.skip(i + 1));
            }
            let e = if i > start && v[i - 1] == '\r' {
                i - 1
            } else {
                i
            };
            let ghost line = v@.subrange(start as int, e as int);
            assert(line == strip_cr(v@.subrange(start as int, i as int)));
            proof {
                assert(lines(v@) == done.push(line) + lines(v@.skip(i + 1)));
                assert(lines(v@)[done.len() as int] == line);
            }
            if !line_ok_in(&v, start, e) {
                return false;
            }
            proof {
                done = done.push(line);
            }
            start = i + 1;
        }
        i += 1;
    }
    if start < n {
        let ghost s = v@.skip(start as int);
        proof {
            lemma_lines_last(s);
            assert(s == v@.subrange(start as int, n as int));
            assert(lines(v@)[done.len() as int] == s);
        }
        if !line_ok_in(&v, start, n) {
            return false;
        }
        proof {
            done = done.push(s);
        }
    } else {
        assert(v@.skip(start as int).len() == 0);
    }
    assert(lines(v@) == done);
    true
}

} // verus!

verus! {

impl View for LyricResponse {
    type V = (Seq<char>, Seq<(u64, Seq<char>)>);

    open spec fn view(&self) -> (Seq<char>, Seq<(u64, Seq<char>)>) {
        (self.song@, lines_view(self.lyrics@))
    }
}

/// The lyrics of `title` read from cached LRC text.
pub fn lyrics_from_cache(title: &str, content: &str) -> (r: LyricResponse)
    requires
        lrc_ok(content@),
    ensures
        r@ == (title@, timed_lyrics(content@)),
{
    LyricResponse { song: String::from_str(title), lyrics: convert_to_timed(content) }
}

/// The views of query parameters.
pub open spec fn params_view(v: Seq<(String, String)>) -> Seq<(Seq<char>, Seq<char>)> {
    v.map_values(|p: (String, String)| (p.0@, p.1@))
}

/// The query that asks the lyrics service for a song: its title, its first
/// artist, its album (the title where the album is empty) and its length in
/// seconds.
pub open spec fn spec_lyric_query(
    title: Seq<char>,
    artist: Seq<char>,
    album: Seq<char>,
    length: u32,
) -> Seq<(Seq<char>, Seq<char>)> {
    seq![
        ("track_name"@, title),
        ("artist_name"@, artist),
        ("album"@, if album.len() == 0 { title } else { album }),
        ("duration"@, decimal(length as nat)),
    ]
}

/// The query parameters for the lyrics service. The song must have at least
/// one artist.
pub fn lyric_query(title: &str, artists: &Vec<String>, album: &str, length: u32) -> (r: Vec<
    (String, String),
>)
    requires
        artists.len() > 0,
    ensures
        params_view(r@) == spec_lyric_query(title@, artists@[0]@, album@, length),
{
    let mut r: Vec<(String, String)> = Vec::new();
    r.push((String::from_str("track_name"), String::from_str(title)));
    r.push((String::from_str("artist_name"), artists[0].clone()));
    let album_value = if album.is_empty() {
        String::from_str(title)
    } else {
        String::from_str(album)
    };
    r.push((String::from_str("album"), album_value));
    r.push((String::from_str("duration"), crate::text::decimal_string(length as u64)));
    assert(params_view(r@) =~= spec_lyric_query(title@, artists@[0]@, album@, length));
    r
}

/// The string stored under the key `syncedLyrics` of the JSON document
/// `body`: `body` read as a `serde_json::Value` (a document that does not
/// parse counts as `null`), and the value under that key of it when it is an
/// object that holds a string there.
pub uninterp spec fn json_synced_lyrics(body: Seq<char>) -> Option<Seq<char>>;

/// `serde_json::from_str::<serde_json::Value>`, then `Value::get` and
/// `Value::as_str`. Its result is named `json_synced_lyrics`; which string
/// JSON parsing finds is not stated here.
#[verifier::external_body]
fn synced_lyrics_field(body: &str) -> (r: Option<String>)
    ensures
        match r {
            Some(s) => json_synced_lyrics(body@) == Some(s@),
            None => json_synced_lyrics(body@) is None,
        },
{
    let value: serde_json::Value = serde_json::from_str(body).unwrap_or_default();
    value.get("syncedLyrics").and_then(|v| v.as_str()).map(|s| s.to_string())
}

/// What a lyric lookup gives: the lyrics, and the cache entry to write (the
/// file name and the LRC text), if any.
pub struct LyricFetch {
    pub response: LyricResponse,
    pub cache_write: Option<(String, String)>,
}

/// `f` gives no lyrics for `title` and writes nothing to the cache.
pub open spec fn fetch_empty(f: LyricFetch, title: Seq<char>) -> bool {
    &&& f.response@ == (title, Seq::<(u64, Seq<char>)>::empty())
    &&& f.cache_write is None
}

/// `f` gives the timed lyrics of the LRC text `s` for `title`, and caches `s`
/// under the song's cache key.
pub open spec fn fetch_found(
    f: LyricFetch,
    title: Seq<char>,
    artists: Seq<Seq<char>>,
    s: Seq<char>,
) -> bool {
    &&& f.response@ == (title, timed_lyrics(s))
    &&& f.cache_write matches Some(w) && w.0@ == crate::cache::spec_cache_key(title, artists)
        && w.1@ == s
}

/// The lookup's result for `title` when the service answered with the LRC
/// text `synced`, or with no synchronized lyrics (`None`). Found lyrics are
/// to be cached under the song's cache key.
pub fn lyrics_from_synced(
    title: &str,
    artists: &Vec<String>,
    album: &str,
    synced: Option<&str>,
) -> (r: LyricFetch)
    requires
        synced matches Some(s) ==> lrc_ok(s@),
    ensures
        match synced {
            Some(s) => fetch_found(r, title@, crate::text::strings_view(artists@), s@),
            None => fetch_empty(r, title@),
        },
{
    match synced {
        Some(s) => {
            let lyrics = convert_to_timed(s);
            let key = crate::cache::cache_key(title, artists, album);
            LyricFetch {
                response: LyricResponse { song: String::from_str(title), lyrics },
                cache_write: Some((key, String::from_str(s))),
            }
        },
        None => {
            let lyrics: Vec<LyricLine> = Vec::new();
            assert(lines_view(lyrics@) =~= Seq::<(u64, Seq<char>)>::empty());
            LyricFetch {
                response: LyricResponse { song: String::from_str(title), lyrics },
                cache_write: None,
            }
        },
    }
}

/// The lookup's result for `title` from the body of the service's answer
/// (empty where the request failed). An empty body, or one without
/// synchronized lyrics, gives no lyrics. `None` where the synchronized
/// lyrics hold a line that `convert_to_timed` cannot read.
pub fn lyrics_from_body(title: &str, artists: &Vec<String>, album: &str, body: &str) -> (r:
    Option<LyricFetch>)
    ensures
        body@.len() == 0 ==> (r matches Some(f) && fetch_empty(f, title@)),
        body@.len() > 0 ==> match json_synced_lyrics(body@) {
            Some(s) => if lrc_ok(s) {
                r matches Some(f) && fetch_found(
                    f,
                    title@,
                    crate::text::strings_view(artists@),
                    s,
                )
            } else {
                r is None
            },
            None => (r matches Some(f) && fetch_empty(f, title@)),
        },
{
    if body.is_empty() {
        return Some(lyrics_from_synced(title, artists, album, None));
    }
    match synced_lyrics_field(body) {
        Some(s) => {
            if convertible_to_timed(s.as_str()) {
                Some(lyrics_from_synced(title, artists, album, Some(s.as_str())))
            } else {
                None
            }
        },
        None => Some(lyrics_from_synced(title, artists, album, None)),
    }
}

} // verus!

verus! {

/// Splitting a text into lines works line by line: where `a` is empty or ends
/// with a line break, the lines of `a + b` are the lines of `a` followed by
/// the lines of `b`.
pub proof fn law_lines_concat(a: Seq<char>, b: Seq<char>)
    requires
        a.len() == 0 || a.last() == '\n',
    ensures
        lines(a + b) == lines(a) + lines(b),
    decreases a.len(),
{
    if a.len() == 0 {
        assert(a + b == b);
        assert(lines(a) == Seq::<Seq<char>>::empty());
        assert(lines(a) + lines(b) == lines(b));
    } else {
        assert(a[a.len() - 1] == '\n');
        assert(exists|k: int| 0 <= k < a.len() && a[k] == '\n');
        let i = choose_first_newline(a);
        let ab = a + b;
        assert(is_first_index(ab, '\n', i)) by {
            assert forall|j: int| 0 <= j < i implies ab[j] != '\n' by {
                assert(ab[j] == a[j]);
            }
        }
        lemma_lines_step(ab, i);
        lemma_lines_step(a, i);
        assert(ab.take(i) == a.take(i));
        let rest = a.skip(i + 1);
        assert(ab.skip(i + 1) == rest + b);
        if rest.len() > 0 {
            assert(rest.last() == a.last());
        }
        law_lines_concat(rest, b);
        assert(lines(ab) == seq![strip_cr(a.take(i))] + (lines(rest) + lines(b)));
    }
}

/// The first line break of a text that holds one.
proof fn choose_first_newline(a: Seq<char>) -> (i: int)
    requires
        exists|k: int| 0 <= k < a.len() && a[k] == '\n',
    ensures
        is_first_index(a, '\n', i),
    decreases a.len(),
{
    if a[0] == '\n' {
        0
    } else {
        let t = a.drop_first();
        let k = choose|k: int| 0 <= k < a.len() && a[k] == '\n';
        assert(t[k - 1] == '\n');
        let j = choose_first_newline(t);
        assert forall|m: int| 0 <= m < j + 1 implies a[m] != '\n' by {
            if m > 0 {
                assert(a[m] == t[m - 1]);
            }
        }
        j + 1
    }
}

/// The timed lines of a sequence of lines are gathered line by line.
pub proof fn lemma_timed_entries_concat(x: Seq<Seq<char>>, y: Seq<Seq<char>>)
    ensures
        timed_entries(x + y) == timed_entries(x) + timed_entries(y),
    decreases y.len(),
{
    if y.len() == 0 {
        assert(x + y == x);
        assert(timed_entries(y) == Seq::<(u64, Seq<char>)>::empty());
        assert(timed_entries(x) + timed_entries(y) == timed_entries(x));
    } else {
        assert((x + y).drop_last() == x + y.drop_last());
        assert((x + y).last() == y.last());
        lemma_timed_entries_concat(x, y.drop_last());
        match parse_line(y.last()) {
            Some(e) => {
                assert(timed_entries(x) + timed_entries(y.drop_last()).push(e) == (timed_entries(x)
                    + timed_entries(y.drop_last())).push(e));
            },
            None => {},
        }
    }
}

/// Converting LRC text works line by line: where `a` is empty or ends with a
/// line break, the timed lines of `a + b` are those of `a` followed by those
/// of `b`.
pub proof fn law_timed_lyrics_concat(a: Seq<char>, b: Seq<char>)
    requires
        a.len() == 0 || a.last() == '\n',
    ensures
        timed_lyrics(a + b) == timed_lyrics(a) + timed_lyrics(b),
{
    law_lines_concat(a, b);
    lemma_timed_entries_concat(lines(a), lines(b));
}

/// Read after write of the lyric cache: a lookup that found readable lyrics
/// writes them under the song's cache key, which does not depend on the
/// album; what it wrote can be read back without fault, and the lyrics read
/// back (`lyrics_from_cache`) are the lyrics the lookup gave.
pub proof fn law_cache_read_after_write(
    f: LyricFetch,
    title: Seq<char>,
    artists: Seq<Seq<char>>,
    s: Seq<char>,
)
    requires
        fetch_found(f, title, artists, s),
        lrc_ok(s),
    ensures
        f.cache_write matches Some(w) && w.0@ == crate::cache::spec_cache_key(title, artists)
            && lrc_ok(w.1@) && f.response@ == (title, timed_lyrics(w.1@)),
{
}

} // verus!
