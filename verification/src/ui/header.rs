//! The header line: the configured template filled in with the song.

use vstd::prelude::*;
use crate::text::{chars_of, contains, occurs_at, push_char};
use crate::ui::state::App;

verus! {

/// `s` with every occurrence of the non-empty `p` replaced by `r`, taken
/// from left to right without overlap, as `str::replace` does.
pub open spec fn replace_all(s: Seq<char>, p: Seq<char>, r: Seq<char>) -> Seq<char>
    decreases s.len(),
{
    if s.len() == 0 {
        seq![]
    } else if p.len() > 0 && p.len() <= s.len() && s.take(p.len() as int) == p {
        r + replace_all(s.skip(p.len() as int), p, r)
    } else {
        seq![s[0]] + replace_all(s.drop_first(), p, r)
    }
}

/// Whether `v[at..]` starts with `p`.
fn starts_at(v: &Vec<char>, p: &Vec<char>, at: usize) -> (b: bool)
    requires
        at <= v.len(),
    ensures
        b == (p.len() <= v.len() - at && v@.skip(at as int).take(p.len() as int) == p@),
{
    if p.len() > v.len() - at {
        return false;
    }
    let mut k: usize = 0;
    while k < p.len()
        invariant
            k <= p.len(),
            at + p.len() <= v.len(),
            forall|j: int| 0 <= j < k ==> v@[at + j] == p@[j],
        decreases p.len() - k,
    {
        if v[at + k] != p[k] {
            assert(v@.skip(at as int).take(p.len() as int)[k as int] != p@[k as int]);
            return false;
        }
        k += 1;
    }
    assert(v@.skip(at as int).take(p.len() as int) =~= p@);
    true
}

/// `str::replace` with a non-empty pattern.
pub fn replace(s: &str, from: &str, to: &str) -> (r: String)
    requires
        from@.len() > 0,
    ensures
        r@ == replace_all(s@, from@, to@),
{
    let v = chars_of(s);
    let p = chars_of(from);
    let mut out = String::new();
    let mut i: usize = 0;
    assert(v@.skip(0) == v@);
    while i < v.len()
        invariant
            i <= v.len(),
            v@ == s@,
            p@ == from@,
            p.len() > 0,
            out@ + replace_all(v@.skip(i as int), p@, to@) == replace_all(s@, from@, to@),
        decreases v.len() - i,
    {
        let ghost rest = v@.skip(i as int);
        if starts_at(&v, &p, i) {
            let ghost before = out@;
            out.append(to);
            assert(rest.skip(p.len() as int) == v@.skip(i + p.len()));
            assert(before + (to@ + replace_all(rest.skip(p.len() as int), p@, to@)) == out@
                + replace_all(v@.skip(i + p.len()), p@, to@));
            i += p.len();
        } else {
            let ghost before = out@;
            push_char(&mut out, v[i]);
            assert(rest.drop_first() == v@.skip(i + 1));
            assert(rest[0] == v@[i as int]);
            assert(before + (seq![rest[0]] + replace_all(rest.drop_first(), p@, to@)) == out@
                + replace_all(v@.skip(i + 1), p@, to@));
            i += 1;
        }
    }
    assert(v@.skip(i as int).len() == 0);
    assert(out@ + Seq::<char>::empty() == out@);
    out
}

/// The header: the configured template with `{title}`, `{artists}` and
/// `{album}` replaced, in that order, by the song's title, its first artist
/// (empty where it has none) and its album; without a song, a notice.
pub open spec fn header_of(app: &App) -> Seq<char> {
    match app.active_song {
        Some(song) => {
            let artist = if song.artists.len() == 0 {
                Seq::<char>::empty()
            } else {
                song.artists@[0]@
            };
            replace_all(
                replace_all(
                    replace_all(app.config.header.title@, "{title}"@, song.title@),
                    "{artists}"@,
                    artist,
                ),
                "{album}"@,
                song.album@,
            )
        },
        None => "Cannot detect song!"@,
    }
}

/// The header line's text.
pub fn header_text(app: &App) -> (r: String)
    ensures
        r@ == header_of(app),
{
    proof {
        reveal_strlit("{title}");
        reveal_strlit("{artists}");
        reveal_strlit("{album}");
    }
    match &app.active_song {
        Some(song) => {
            let artists = if song.artists.len() == 0 {
                ""
            } else {
                song.artists[0].as_str()
            };
            proof {
                reveal_strlit("");
                assert(""@ =~= Seq::<char>::empty());
            }
            assert(artists@ == (if song.artists.len() == 0 {
                Seq::<char>::empty()
            } else {
                song.artists@[0]@
            }));
            let a = replace(app.config.header.title.as_str(), "{title}", song.title.as_str());
            let b = replace(a.as_str(), "{artists}", artists);
            replace(b.as_str(), "{album}", song.album.as_str())
        },
        None => String::from_str("Cannot detect song!"),
    }
}

/// A template without placeholders is shown as it is: replacing a pattern
/// that does not occur changes nothing.
pub proof fn law_replace_absent(s: Seq<char>, p: Seq<char>, r: Seq<char>)
    requires
        p.len() > 0,
        !contains(s, p),
    ensures
        replace_all(s, p, r) == s,
    decreases s.len(),
{
    if s.len() > 0 {
        if p.len() <= s.len() {
            assert(s.take(p.len() as int) == s.subrange(0, p.len() as int));
            assert(!occurs_at(s, p, 0));
        }
        let t = s.drop_first();
        assert forall|i: int| !occurs_at(t, p, i) by {
            if 0 <= i && i + p.len() <= t.len() {
                assert(t.subrange(i, i + p.len()) == s.subrange(i + 1, i + 1 + p.len()));
                assert(!occurs_at(s, p, i + 1));
            }
        }
        law_replace_absent(t, p, r);
        assert(seq![s[0]] + t == s);
    }
}

/// The header names the song's first artist: whenever the song has at least
/// one artist, `{artists}` is filled in with the first of them, however many
/// there are; with none it is filled in with nothing. The title and album
/// are filled in before and after it, and without a song the header is a
/// notice.
pub proof fn law_header_names_first_artist(app: &App)
    ensures
        app.active_song is Some && app.active_song->0.artists.len() > 0 ==> header_of(app)
            == replace_all(
            replace_all(
                replace_all(app.config.header.title@, "{title}"@, app.active_song->0.title@),
                "{artists}"@,
                app.active_song->0.artists@[0]@,
            ),
            "{album}"@,
            app.active_song->0.album@,
        ),
        app.active_song is Some && app.active_song->0.artists.len() == 0 ==> header_of(app)
            == replace_all(
            replace_all(
                replace_all(app.config.header.title@, "{title}"@, app.active_song->0.title@),
                "{artists}"@,
                Seq::<char>::empty(),
            ),
            "{album}"@,
            app.active_song->0.album@,
        ),
        app.active_song is None ==> header_of(app) == "Cannot detect song!"@,
{
}

} // verus!
