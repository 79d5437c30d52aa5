//! Names of the files that cache fetched lyrics.

use vstd::prelude::*;
use crate::text::{chars_of, push_char, strings_view};

verus! {

/// The lowercase form of a string, as `str::to_lowercase` computes it from
/// Unicode's case mappings (a character may become several, and a capital
/// sigma at the end of a word becomes a final sigma).
pub uninterp spec fn lowercase(s: Seq<char>) -> Seq<char>;

/// The characters that `char::to_lowercase` yields for `c`.
pub uninterp spec fn char_lowercase(c: char) -> Seq<char>;

/// Whether `char::is_alphanumeric` holds of `c`: Unicode's `Alphabetic` or
/// `Numeric` property.
pub uninterp spec fn alphanumeric(c: char) -> bool;

/// An ASCII character.
pub open spec fn is_ascii_char(c: char) -> bool {
    (c as u32) < 0x80
}

/// Every character of `s` is ASCII.
pub open spec fn all_ascii(s: Seq<char>) -> bool {
    forall|i: int| 0 <= i < s.len() ==> is_ascii_char(#[trigger] s[i])
}

/// An ASCII capital letter becomes its small letter; every other character
/// stays as it is.
pub open spec fn ascii_lower(c: char) -> char {
    if 65 <= (c as u32) <= 90 {
        ((c as u32) + 32) as char
    } else {
        c
    }
}

/// `s` with small letters for ASCII capitals.
pub open spec fn ascii_lowered(s: Seq<char>) -> Seq<char> {
    s.map_values(|c: char| ascii_lower(c))
}

/// An ASCII letter or digit.
pub open spec fn ascii_alnum(c: char) -> bool {
    let n = c as u32;
    (48 <= n <= 57) || (65 <= n <= 90) || (97 <= n <= 122)
}

/// `str::to_lowercase`. Its result is named `lowercase`; which string that is
/// rests on Unicode's tables and is not stated here. Claimed beside it: on a
/// string of ASCII characters alone, each capital letter becomes its small
/// letter and nothing else changes.
#[verifier::external_body]
fn to_lowercase(s: &str) -> (r: String)
    ensures
        r@ == lowercase(s@),
        all_ascii(s@) ==> r@ == ascii_lowered(s@),
{
    s.to_lowercase()
}

/// `char::to_lowercase`, collected. Its result is named `char_lowercase`;
/// which characters those are rests on Unicode's tables and is not stated
/// here. Claimed beside it: an ASCII character gives the one character
/// `ascii_lower` gives.
#[verifier::external_body]
fn char_to_lowercase(c: char) -> (r: Vec<char>)
    ensures
        r@ == char_lowercase(c),
        is_ascii_char(c) ==> r@ == seq![ascii_lower(c)],
{
    c.to_lowercase().collect()
}

/// `char::is_alphanumeric`. Its result is named `alphanumeric`; for which
/// characters it holds rests on Unicode's tables and is not stated here.
/// Claimed beside it: of ASCII characters, it holds of letters and digits
/// alone.
#[verifier::external_body]
fn is_alphanumeric(c: char) -> (b: bool)
    ensures
        b == alphanumeric(c),
        is_ascii_char(c) ==> (b <==> ascii_alnum(c)),
{
    c.is_alphanumeric()
}

/// A character that may stand in a cache key.
pub open spec fn key_char(c: char) -> bool {
    alphanumeric(c) || c == '_'
}

/// The characters of `s` that may stand in a cache key, in order.
pub open spec fn keep_key_chars(s: Seq<char>) -> Seq<char>
    decreases s.len(),
{
    if s.len() == 0 {
        seq![]
    } else if key_char(s.last()) {
        keep_key_chars(s.drop_last()).push(s.last())
    } else {
        keep_key_chars(s.drop_last())
    }
}

/// A character that may stand in a cache key, among ASCII characters: a
/// letter, a digit or `_`.
pub open spec fn ascii_key_char(c: char) -> bool {
    ascii_alnum(c) || c == '_'
}

/// No ASCII character but a letter, a digit or `_`: in particular no `/`,
/// `.`, `-` or ASCII whitespace.
pub open spec fn key_safe(c: char) -> bool {
    !is_ascii_char(c) || ascii_key_char(c)
}

/// The characters of an ASCII string that may stand in a cache key, in
/// order.
pub open spec fn ascii_keep(s: Seq<char>) -> Seq<char>
    decreases s.len(),
{
    if s.len() == 0 {
        seq![]
    } else if ascii_key_char(s.last()) {
        ascii_keep(s.drop_last()).push(s.last())
    } else {
        ascii_keep(s.drop_last())
    }
}

/// The strings of `list` joined with `sep` between each two, as
/// `[String]::join` gives them.
pub open spec fn join(list: Seq<Seq<char>>, sep: Seq<char>) -> Seq<char>
    decreases list.len(),
{
    if list.len() == 0 {
        seq![]
    } else if list.len() == 1 {
        list[0]
    } else {
        join(list.drop_last(), sep) + sep + list.last()
    }
}

/// The cache key of a song: its title, a `-`, and its artists joined with
/// `-`, in lowercase, keeping only alphanumeric characters and `_`.
pub open spec fn spec_cache_key(title: Seq<char>, artists: Seq<Seq<char>>) -> Seq<char> {
    keep_key_chars(lowercase(title + seq!['-'] + join(artists, seq!['-'])))
}

/// The text a cache key is made from: the title, a `-`, and the artists
/// joined with `-`.
pub open spec fn key_source(title: Seq<char>, artists: Seq<Seq<char>>) -> Seq<char> {
    title + seq!['-'] + join(artists, seq!['-'])
}

/// The cache key of a song whose title and artists are ASCII: the key
/// source with small letters for capitals, keeping letters, digits and `_`.
pub open spec fn ascii_cache_key(title: Seq<char>, artists: Seq<Seq<char>>) -> Seq<char> {
    ascii_keep(ascii_lowered(key_source(title, artists)))
}

/// An ASCII string normalized: small letters for capitals, keeping letters,
/// digits and `_`.
pub open spec fn ascii_normalized(s: Seq<char>) -> Seq<char>
    decreases s.len(),
{
    if s.len() == 0 {
        seq![]
    } else {
        let c = ascii_lower(s.last());
        ascii_normalized(s.drop_last()) + if ascii_key_char(c) {
            seq![c]
        } else {
            seq![]
        }
    }
}

/// `s` in lowercase character by character, keeping only alphanumeric
/// characters and `_`.
pub open spec fn normalized(s: Seq<char>) -> Seq<char>
    decreases s.len(),
{
    if s.len() == 0 {
        seq![]
    } else {
        normalized(s.drop_last()) + keep_key_chars(char_lowercase(s.last()))
    }
}

/// Appends the characters of `v` that may stand in a cache key to `out`.
fn push_key_chars(out: &mut String, v: &Vec<char>)
    ensures
        final(out)@ == old(out)@ + keep_key_chars(v@),
        forall|j: int|
            old(out)@.len() <= j < final(out)@.len() ==> key_safe(#[trigger] final(out)@[j]),
        all_ascii(v@) ==> final(out)@ == old(out)@ + ascii_keep(v@),
{
    let mut i: usize = 0;
    let ghost base = out@;
    assert(v@.take(0) == Seq::<char>::empty());
    while i < v.len()
        invariant
            i <= v.len(),
            base == old(out)@,
            out@ == base + keep_key_chars(v@.take(i as int)),
            forall|j: int| base.len() <= j < out@.len() ==> key_safe(#[trigger] out@[j]),
            all_ascii(v@) ==> out@ == base + ascii_keep(v@.take(i as int)),
        decreases v.len() - i,
    {
        let c = v[i];
        assert(v@.take(i + 1).drop_last() == v@.take(i as int));
        assert(v@.take(i + 1).last() == c);
        proof {
            if all_ascii(v@) {
                assert(is_ascii_char(v@[i as int]));
            }
        }
        let alnum = is_alphanumeric(c);
        if alnum || c == '_' {
            let ghost before = out@;
            push_char(out, c);
            assert forall|j: int| base.len() <= j < out@.len() implies key_safe(
                #[trigger] out@[j],
            ) by {
                if j < before.len() {
                    assert(out@[j] == before[j]);
                }
            }
        }
        i += 1;
    }
    assert(v@.take(i as int) == v@);
}

/// The file name under which the lyrics of a song are cached: the title, a
/// `-` and the artists joined with `-`, lowercased, keeping only
/// alphanumeric characters and `_`. The album plays no part.
pub fn cache_key(title: &str, artists: &Vec<String>, _album: &str) -> (key: String)
    ensures
        key@ == spec_cache_key(title@, strings_view(artists@)),
        forall|i: int| 0 <= i < key@.len() ==> key_safe(#[trigger] key@[i]),
        all_ascii(key_source(title@, strings_view(artists@))) ==> key@ == ascii_cache_key(
            title@,
            strings_view(artists@),
        ),
{
    let mut raw = String::from_str(title);
    raw.append("-");
    proof {
        reveal_strlit("-");
    }
    let ghost sep = seq!['-'];
    let ghost joined_from = raw@;
    let mut i: usize = 0;
    while i < artists.len()
        invariant
            i <= artists.len(),
            sep == seq!['-'],
            joined_from == title@ + sep,
            raw@ == joined_from + join(strings_view(artists@).take(i as int), sep),
        decreases artists.len() - i,
    {
        let ghost before = strings_view(artists@).take(i as int);
        let ghost raw0 = raw@;
        proof {
            reveal_strlit("-");
        }
        if i > 0 {
            raw.append("-");
        }
        raw.append(artists[i].as_str());
        proof {
            let now = strings_view(artists@).take(i + 1);
            assert(now.drop_last() =~= before);
            assert(now.last() == artists@[i as int]@);
            assert("-"@ =~= sep);
            if i == 0 {
                assert(before =~= Seq::<Seq<char>>::empty());
                assert(join(now, sep) == now[0]);
                assert(raw@ =~= joined_from + join(now, sep));
            } else {
                assert(join(now, sep) == join(before, sep) + sep + now.last());
                assert(raw@ =~= joined_from + join(now, sep));
            }
        }
        i += 1;
    }
    assert(strings_view(artists@).take(i as int) == strings_view(artists@));
    assert(raw@ == key_source(title@, strings_view(artists@)));
    let lower = to_lowercase(raw.as_str());
    let v = chars_of(lower.as_str());
    proof {
        if all_ascii(raw@) {
            lemma_lower_ascii(raw@);
        }
    }
    let mut key = String::new();
    push_key_chars(&mut key, &v);
    assert(key@ == Seq::<char>::empty() + keep_key_chars(v@));
    key
}

/// Lowering the capitals of an ASCII string leaves it ASCII.
proof fn lemma_lower_ascii(s: Seq<char>)
    requires
        all_ascii(s),
    ensures
        all_ascii(ascii_lowered(s)),
{
    assert forall|i: int| 0 <= i < s.len() implies is_ascii_char(
        #[trigger] ascii_lowered(s)[i],
    ) by {
        assert(is_ascii_char(s[i]));
    }
}

/// `s` lowercased character by character, keeping only alphanumeric
/// characters and `_`.
pub fn normalize(s: &str) -> (r: String)
    ensures
        r@ == normalized(s@),
        forall|i: int| 0 <= i < r@.len() ==> key_safe(#[trigger] r@[i]),
        all_ascii(s@) ==> r@ == ascii_normalized(s@),
{
    let v = chars_of(s);
    let mut out = String::new();
    let mut i: usize = 0;
    assert(v@.take(0) == Seq::<char>::empty());
    while i < v.len()
        invariant
            i <= v.len(),
            v@ == s@,
            out@ == normalized(v@.take(i as int)),
            forall|j: int| 0 <= j < out@.len() ==> key_safe(#[trigger] out@[j]),
            all_ascii(v@) ==> out@ == ascii_normalized(v@.take(i as int)),
        decreases v.len() - i,
    {
        let c = v[i];
        let lower = char_to_lowercase(c);
        proof {
            if all_ascii(v@) {
                assert(is_ascii_char(v@[i as int]));
                let lc = ascii_lower(c);
                assert(is_ascii_char(lc));
                assert(all_ascii(lower@));
                assert(seq![lc].drop_last() == Seq::<char>::empty());
                assert(seq![lc].last() == lc);
                assert(ascii_keep(Seq::<char>::empty()) == Seq::<char>::empty());
                assert(Seq::<char>::empty().push(lc) == seq![lc]);
                assert(ascii_keep(seq![lc]) == if ascii_key_char(lc) {
                    seq![lc]
                } else {
                    Seq::<char>::empty()
                });
            }
        }
        let ghost before = out@;
        push_key_chars(&mut out, &lower);
        assert forall|j: int| 0 <= j < out@.len() implies key_safe(#[trigger] out@[j]) by {
            if j < before.len() {
                assert(out@[j] == before[j]);
            }
        }
        assert(v@.take(i + 1).drop_last() == v@.take(i as int));
        assert(v@.take(i + 1).last() == c);
        i += 1;
    }
    assert(v@.take(i as int) == v@);
    assert(v@ == s@);
    out
}

proof fn lemma_keep_key_chars_all(s: Seq<char>)
    ensures
        forall|i: int| 0 <= i < keep_key_chars(s).len() ==> key_char(#[trigger] keep_key_chars(s)[i]),
    decreases s.len(),
{
    if s.len() > 0 {
        lemma_keep_key_chars_all(s.drop_last());
        let prev = keep_key_chars(s.drop_last());
        assert forall|i: int| 0 <= i < keep_key_chars(s).len() implies key_char(
            #[trigger] keep_key_chars(s)[i],
        ) by {
            if key_char(s.last()) {
                if i < prev.len() {
                    assert(keep_key_chars(s)[i] == prev[i]);
                }
            }
        }
    }
}

/// Normalizing leaves only characters that may stand in a cache key:
/// alphanumeric characters and `_`.
pub proof fn law_normalize_keeps_key_chars(s: Seq<char>)
    ensures
        forall|i: int| 0 <= i < normalized(s).len() ==> key_char(#[trigger] normalized(s)[i]),
    decreases s.len(),
{
    if s.len() > 0 {
        law_normalize_keeps_key_chars(s.drop_last());
        let a = normalized(s.drop_last());
        let b = keep_key_chars(char_lowercase(s.last()));
        lemma_keep_key_chars_all(char_lowercase(s.last()));
        assert forall|i: int| 0 <= i < normalized(s).len() implies key_char(
            #[trigger] normalized(s)[i],
        ) by {
            if i < a.len() {
                assert(normalized(s)[i] == a[i]);
            } else {
                assert(normalized(s)[i] == b[i - a.len()]);
            }
        }
    }
}

/// Every character of `t` may stand in a cache key and has no capital form
/// to lower.
pub open spec fn settled(t: Seq<char>) -> bool {
    forall|i: int| 0 <= i < t.len() ==> ascii_key_char(#[trigger] t[i]) && ascii_lower(t[i]) == t[i]
}

proof fn lemma_lowered_key_char_settles(x: char)
    requires
        ascii_key_char(ascii_lower(x)),
    ensures
        ascii_lower(ascii_lower(x)) == ascii_lower(x),
        is_ascii_char(ascii_lower(x)),
{
    let n = x as u32;
    if 65 <= n <= 90 {
        assert(((n + 32) as char) as u32 == n + 32);
    }
}

proof fn lemma_ascii_normalized_settled(s: Seq<char>)
    ensures
        settled(ascii_normalized(s)),
    decreases s.len(),
{
    if s.len() > 0 {
        lemma_ascii_normalized_settled(s.drop_last());
        let prev = ascii_normalized(s.drop_last());
        let c = ascii_lower(s.last());
        if ascii_key_char(c) {
            lemma_lowered_key_char_settles(s.last());
            assert forall|i: int| 0 <= i < ascii_normalized(s).len() implies ascii_key_char(
                #[trigger] ascii_normalized(s)[i],
            ) && ascii_lower(ascii_normalized(s)[i]) == ascii_normalized(s)[i] by {
                if i < prev.len() {
                    assert(ascii_normalized(s)[i] == prev[i]);
                } else {
                    assert(ascii_normalized(s)[i] == c);
                }
            }
        } else {
            assert(ascii_normalized(s) == prev);
        }
    }
}

proof fn lemma_settled_fixed(t: Seq<char>)
    requires
        settled(t),
    ensures
        ascii_normalized(t) == t,
    decreases t.len(),
{
    if t.len() > 0 {
        let p = t.drop_last();
        assert(settled(p)) by {
            assert forall|i: int| 0 <= i < p.len() implies ascii_key_char(#[trigger] p[i])
                && ascii_lower(p[i]) == p[i] by {
                assert(p[i] == t[i]);
            }
        }
        lemma_settled_fixed(p);
        assert(ascii_key_char(t[t.len() - 1]));
        assert(ascii_normalized(t) == p + seq![t.last()]);
        assert(p + seq![t.last()] == t);
    }
}

/// Normalizing is idempotent on ASCII text: what it gives is ASCII and
/// normalizes to itself, so by `normalize`'s contract normalizing twice is
/// normalizing once.
pub proof fn law_normalize_idempotent_ascii(s: Seq<char>)
    requires
        all_ascii(s),
    ensures
        all_ascii(ascii_normalized(s)),
        ascii_normalized(ascii_normalized(s)) == ascii_normalized(s),
{
    lemma_ascii_normalized_settled(s);
    let t = ascii_normalized(s);
    assert forall|i: int| 0 <= i < t.len() implies is_ascii_char(#[trigger] t[i]) by {
        assert(ascii_key_char(t[i]));
    }
    lemma_settled_fixed(t);
}

/// A song whose title and artists are ASCII has an ASCII key source, so by
/// `cache_key`'s contract its cache key is `ascii_cache_key`.
pub proof fn law_ascii_song_key_source(title: Seq<char>, artists: Seq<Seq<char>>)
    requires
        all_ascii(title),
        forall|k: int| 0 <= k < artists.len() ==> all_ascii(#[trigger] artists[k]),
    ensures
        all_ascii(key_source(title, artists)),
{
    lemma_join_ascii(artists);
    let a = title + seq!['-'];
    let j = join(artists, seq!['-']);
    assert forall|i: int| 0 <= i < key_source(title, artists).len() implies is_ascii_char(
        #[trigger] key_source(title, artists)[i],
    ) by {
        if i < title.len() {
            assert(key_source(title, artists)[i] == title[i]);
        } else if i == title.len() {
            assert(key_source(title, artists)[i] == '-');
        } else {
            assert(key_source(title, artists)[i] == j[i - a.len()]);
        }
    }
}

proof fn lemma_join_ascii(list: Seq<Seq<char>>)
    requires
        forall|k: int| 0 <= k < list.len() ==> all_ascii(#[trigger] list[k]),
    ensures
        all_ascii(join(list, seq!['-'])),
    decreases list.len(),
{
    if list.len() == 1 {
        assert(all_ascii(list[0]));
    } else if list.len() > 1 {
        let p = list.drop_last();
        assert forall|k: int| 0 <= k < p.len() implies all_ascii(#[trigger] p[k]) by {
            assert(p[k] == list[k]);
        }
        lemma_join_ascii(p);
        let a = join(p, seq!['-']) + seq!['-'];
        let l = list.last();
        assert(all_ascii(list[list.len() - 1]));
        assert forall|i: int| 0 <= i < join(list, seq!['-']).len() implies is_ascii_char(
            #[trigger] join(list, seq!['-'])[i],
        ) by {
            if i < join(p, seq!['-']).len() {
                assert(join(list, seq!['-'])[i] == join(p, seq!['-'])[i]);
            } else if i == join(p, seq!['-']).len() {
                assert(join(list, seq!['-'])[i] == '-');
            } else {
                assert(join(list, seq!['-'])[i] == l[i - a.len()]);
            }
        }
    }
}

} // verus!
