//! The user's settings, and the colours named in them.

use vstd::prelude::*;
use crate::text::chars_of;

verus! {

/// All settings.
#[derive(Debug, Clone)]
pub struct Config {
    /// Only players whose bus name holds this text are followed.
    pub player: String,
    pub header: Header,
    pub color: Color,
    pub lyric_settings: LyricSettings,
}

/// How the header line looks.
#[derive(Debug, Clone)]
pub struct Header {
    /// A template in which `{title}`, `{artists}` and `{album}` stand for
    /// the song's.
    pub title: String,
    pub centered: bool,
}

/// How colours are chosen.
#[derive(Debug, Clone)]
pub struct Color {
    /// Whether a theme is generated from the album art.
    pub generate: bool,
    pub k_clusters: u8,
    pub max_color_gen_iterations: u8,
    /// The main colour as `#rrggbb`, used while no theme is known.
    pub fallback_main: String,
    /// The accent colour as `#rrggbb`, used while no theme is known.
    pub fallback_accent: String,
}

/// How lyrics are laid out.
#[derive(Debug, Clone)]
pub struct LyricSettings {
    /// Text put before the line being sung.
    pub active_prefix: String,
    pub center: bool,
}

impl Default for LyricSettings {
    fn default() -> (r: Self)
        ensures
            r.active_prefix@ == ""@,
            r.center,
    {
        LyricSettings { active_prefix: String::from_str(""), center: true }
    }
}

impl Default for Header {
    fn default() -> (r: Self)
        ensures
            r.title@ == "{title} {artists} - {album}"@,
            !r.centered,
    {
        Header { title: String::from_str("{title} {artists} - {album}"), centered: false }
    }
}

impl Default for Color {
    fn default() -> (r: Self)
        ensures
            r.generate,
            r.k_clusters == 14,
            r.max_color_gen_iterations == 30,
            r.fallback_main@ == "#afd75f"@,
            r.fallback_accent@ == "#ffffff"@,
    {
        Color {
            generate: true,
            k_clusters: 14,
            max_color_gen_iterations: 30,
            fallback_main: String::from_str("#afd75f"),
            fallback_accent: String::from_str("#ffffff"),
        }
    }
}

impl Default for Config {
    fn default() -> (r: Self)
        ensures
            r.player@ == ""@,
            r.header.title@ == "{title} {artists} - {album}"@,
            !r.header.centered,
            r.color.generate,
            r.color.k_clusters == 14,
            r.color.max_color_gen_iterations == 30,
            r.color.fallback_main@ == "#afd75f"@,
            r.color.fallback_accent@ == "#ffffff"@,
            r.lyric_settings.active_prefix@ == ""@,
            r.lyric_settings.center,
    {
        Config {
            player: String::from_str(""),
            header: Header::default(),
            color: Color::default(),
            lyric_settings: LyricSettings::default(),
        }
    }
}

} // verus!

verus! {

/// The number of bytes that UTF-8 takes for `c`, as `char::len_utf8` gives it.
pub open spec fn utf8_width(c: char) -> nat {
    let u = c as u32;
    if u < 0x80 {
        1
    } else if u < 0x800 {
        2
    } else if u < 0x10000 {
        3
    } else {
        4
    }
}

/// The number of bytes that UTF-8 takes for `s`, as `str::len` gives it.
pub open spec fn utf8_len(s: Seq<char>) -> nat
    decreases s.len(),
{
    if s.len() == 0 {
        0
    } else {
        utf8_len(s.drop_last()) + utf8_width(s.last())
    }
}

/// `s` without its leading `#`s, as `str::trim_start_matches('#')` gives it.
pub open spec fn trim_hashes(s: Seq<char>) -> Seq<char>
    decreases s.len(),
{
    if s.len() > 0 && s[0] == '#' {
        trim_hashes(s.drop_first())
    } else {
        s
    }
}

/// The value of a hexadecimal digit, either case.
pub open spec fn hex_digit(c: char) -> Option<nat> {
    if '0' <= c <= '9' {
        Some((c as u32 - '0' as u32) as nat)
    } else if 'a' <= c <= 'f' {
        Some((c as u32 - 'a' as u32 + 10) as nat)
    } else if 'A' <= c <= 'F' {
        Some((c as u32 - 'A' as u32 + 10) as nat)
    } else {
        None
    }
}

/// `u8::from_str_radix` in base 16 on a string of the two characters `a`
/// and `b`: an optional leading `+`, then only hexadecimal digits.
pub open spec fn hex_pair(a: char, b: char) -> Option<u8> {
    if a == '+' {
        match hex_digit(b) {
            Some(y) => Some(y as u8),
            None => None,
        }
    } else {
        match (hex_digit(a), hex_digit(b)) {
            (Some(x), Some(y)) => Some((x * 16 + y) as u8),
            _ => None,
        }
    }
}

/// One colour channel of a six-byte hex string: the value of its two bytes
/// starting at character `p`, `Invalid` where they are no hex number, or
/// `Fault` where the two bytes would cut a character in half.
pub enum HexPart {
    Byte(u8),
    Invalid,
    Fault,
}

/// The channel that the two bytes at character `p` of `t` give.
pub open spec fn hex_part(t: Seq<char>, p: int) -> HexPart {
    if p < 0 || p >= t.len() {
        HexPart::Fault
    } else if (t[p] as u32) >= 0x80 {
        if utf8_width(t[p]) == 2 {
            HexPart::Invalid
        } else {
            HexPart::Fault
        }
    } else if p + 1 >= t.len() || (t[p + 1] as u32) >= 0x80 {
        HexPart::Fault
    } else {
        match hex_pair(t[p], t[p + 1]) {
            Some(v) => HexPart::Byte(v),
            None => HexPart::Invalid,
        }
    }
}

/// Why a hex colour string was refused.
pub enum HexError {
    Length,
    Red,
    Green,
    Blue,
}

/// What reading a hex colour string gives: the three channels, the reason
/// for refusing it, or `Fault` where cutting it into byte pairs would cut a
/// character in half.
pub enum HexOutcome {
    Rgb(u8, u8, u8),
    Error(HexError),
    Fault,
}

/// How `hex` reads as a colour: after the leading `#`s it must be six bytes
/// long, each pair of bytes a hexadecimal number.
pub open spec fn hex_outcome(hex: Seq<char>) -> HexOutcome {
    let t = trim_hashes(hex);
    if utf8_len(t) != 6 {
        HexOutcome::Error(HexError::Length)
    } else {
        match hex_part(t, 0) {
            HexPart::Fault => HexOutcome::Fault,
            HexPart::Invalid => HexOutcome::Error(HexError::Red),
            HexPart::Byte(r) => match hex_part(t, 2) {
                HexPart::Fault => HexOutcome::Fault,
                HexPart::Invalid => HexOutcome::Error(HexError::Green),
                HexPart::Byte(g) => match hex_part(t, 4) {
                    HexPart::Fault => HexOutcome::Fault,
                    HexPart::Invalid => HexOutcome::Error(HexError::Blue),
                    HexPart::Byte(b) => HexOutcome::Rgb(r, g, b),
                },
            },
        }
    }
}

/// The message that each refusal carries.
pub open spec fn hex_error_message(e: HexError) -> Seq<char> {
    match e {
        HexError::Length => "Hex string must be exactly 6 characters long"@,
        HexError::Red => "Invalid hex character in Red component"@,
        HexError::Green => "Invalid hex character in Green component"@,
        HexError::Blue => "Invalid hex character in Blue component"@,
    }
}

/// `hex` can be read without cutting a character in half.
pub open spec fn hex_readable(hex: Seq<char>) -> bool {
    !(hex_outcome(hex) is Fault)
}

proof fn lemma_trim_hashes_at(s: Seq<char>, i: int)
    requires
        0 <= i <= s.len(),
        forall|k: int| 0 <= k < i ==> s[k] == '#',
        i == s.len() || s[i] != '#',
    ensures
        trim_hashes(s) == s.skip(i),
    decreases i,
{
    if i == 0 {
        assert(s.skip(0) == s);
    } else {
        let t = s.drop_first();
        assert forall|k: int| 0 <= k < i - 1 implies t[k] == '#' by {
            assert(t[k] == s[k + 1]);
        }
        lemma_trim_hashes_at(t, i - 1);
        assert(t.skip(i - 1) == s.skip(i));
    }
}

proof fn lemma_utf8_len_prefix_le(s: Seq<char>, k: int)
    requires
        0 <= k <= s.len(),
    ensures
        utf8_len(s.take(k)) <= utf8_len(s),
    decreases s.len() - k,
{
    if k < s.len() {
        lemma_utf8_len_prefix_le(s, k + 1);
        assert(s.take(k + 1).drop_last() == s.take(k));
    } else {
        assert(s.take(k) == s);
    }
}

fn char_width(c: char) -> (w: usize)
    ensures
        w == utf8_width(c),
{
    let u = c as u32;
    if u < 0x80 {
        1
    } else if u < 0x800 {
        2
    } else if u < 0x10000 {
        3
    } else {
        4
    }
}

fn hex_digit_exec(c: char) -> (r: Option<u8>)
    ensures
        match hex_digit(c) {
            Some(d) => r == Some(d as u8),
            None => r is None,
        },
{
    if '0' <= c && c <= '9' {
        Some((c as u32 - '0' as u32) as u8)
    } else if 'a' <= c && c <= 'f' {
        Some((c as u32 - 'a' as u32 + 10) as u8)
    } else if 'A' <= c && c <= 'F' {
        Some((c as u32 - 'A' as u32 + 10) as u8)
    } else {
        None
    }
}

fn hex_pair_exec(a: char, b: char) -> (r: Option<u8>)
    ensures
        r == hex_pair(a, b),
{
    if a == '+' {
        hex_digit_exec(b)
    } else {
        match (hex_digit_exec(a), hex_digit_exec(b)) {
            (Some(x), Some(y)) => Some(x * 16 + y),
            _ => None,
        }
    }
}

fn hex_part_exec(v: &Vec<char>, start: usize, p: usize) -> (r: HexPart)
    requires
        start <= v.len(),
    ensures
        r == hex_part(v@.skip(start as int), p as int),
{
    let ghost t = v@.skip(start as int);
    let n = v.len() - start;
    if p >= n {
        return HexPart::Fault;
    }
    let a = v[start + p];
    assert(t[p as int] == a);
    if a as u32 >= 0x80 {
        if char_width(a) == 2 {
            return HexPart::Invalid;
        } else {
            return HexPart::Fault;
        }
    }
    if p + 1 >= n {
        return HexPart::Fault;
    }
    let b = v[start + p + 1];
    assert(t[p + 1] == b);
    if b as u32 >= 0x80 {
        return HexPart::Fault;
    }
    match hex_pair_exec(a, b) {
        Some(x) => HexPart::Byte(x),
        None => HexPart::Invalid,
    }
}

/// Reads a hex colour string.
fn hex_outcome_exec(hex: &str) -> (r: HexOutcome)
    ensures
        r == hex_outcome(hex@),
{
    let v = chars_of(hex);
    let n = v.len();
    let mut start: usize = 0;
    while start < n && v[start] == '#'
        invariant
            start <= n == v.len(),
            forall|k: int| 0 <= k < start ==> v@[k] == '#',
        decreases n - start,
    {
        start += 1;
    }
    proof {
        lemma_trim_hashes_at(v@, start as int);
    }
    let ghost t = v@.skip(start as int);
    let mut total: usize = 0;
    let mut i = start;
    assert(t.take(0) == Seq::<char>::empty());
    while i < n && total <= 6
        invariant
            start <= i <= n == v.len(),
            t == v@.skip(start as int),
            total == utf8_len(t.take(i - start)),
        decreases n - i,
    {
        assert(t.take(i + 1 - start).drop_last() == t.take(i - start));
        assert(t[i - start] == v@[i as int]);
        total = total + char_width(v[i]);
        i += 1;
    }
    proof {
        lemma_utf8_len_prefix_le(t, i - start);
        if i == n {
            assert(t.take(i - start) == t);
        }
    }
    if total != 6 || i < n {
        return HexOutcome::Error(HexError::Length);
    }
    assert(t.take(i - start) == t);
    let r = match hex_part_exec(&v, start, 0) {
        HexPart::Fault => {
            return HexOutcome::Fault;
        },
        HexPart::Invalid => {
            return HexOutcome::Error(HexError::Red);
        },
        HexPart::Byte(x) => x,
    };
    let g = match hex_part_exec(&v, start, 2) {
        HexPart::Fault => {
            return HexOutcome::Fault;
        },
        HexPart::Invalid => {
            return HexOutcome::Error(HexError::Green);
        },
        HexPart::Byte(x) => x,
    };
    let b = match hex_part_exec(&v, start, 4) {
        HexPart::Fault => {
            return HexOutcome::Fault;
        },
        HexPart::Invalid => {
            return HexOutcome::Error(HexError::Blue);
        },
        HexPart::Byte(x) => x,
    };
    HexOutcome::Rgb(r, g, b)
}

/// The colour `hex` spells, or `default` where it spells none.
pub open spec fn hex_rgb_or(hex: Seq<char>, default: (u8, u8, u8)) -> (u8, u8, u8) {
    match hex_outcome(hex) {
        HexOutcome::Rgb(r, g, b) => (r, g, b),
        _ => default,
    }
}

impl Color {
    /// The main colour of the settings, or `[175, 215, 95]` where it is no
    /// valid `#rrggbb` string.
    pub fn fallback_main_rgb(&self) -> (r: [u8; 3])
        requires
            hex_readable(self.fallback_main@),
        ensures
            (r[0], r[1], r[2]) == hex_rgb_or(self.fallback_main@, (175, 215, 95)),
    {
        match Self::hex_to_rgb(self.fallback_main.as_str()) {
            Ok(rgb) => rgb,
            Err(_) => [175, 215, 95],
        }
    }

    /// The accent colour of the settings, or `[95, 95, 0]` where it is no
    /// valid `#rrggbb` string.
    pub fn fallback_accent_rgb(&self) -> (r: [u8; 3])
        requires
            hex_readable(self.fallback_accent@),
        ensures
            (r[0], r[1], r[2]) == hex_rgb_or(self.fallback_accent@, (95, 95, 0)),
    {
        match Self::hex_to_rgb(self.fallback_accent.as_str()) {
            Ok(rgb) => rgb,
            Err(_) => [95, 95, 0],
        }
    }

    /// Whether both fallback colours can be read without cutting a
    /// character in half.
    pub fn fallbacks_readable(&self) -> (b: bool)
        ensures
            b == (hex_readable(self.fallback_main@) && hex_readable(self.fallback_accent@)),
    {
        let main = hex_outcome_exec(self.fallback_main.as_str());
        let accent = hex_outcome_exec(self.fallback_accent.as_str());
        !(matches!(main, HexOutcome::Fault)) && !(matches!(accent, HexOutcome::Fault))
    }

    /// Reads `#rrggbb` (any number of leading `#`s) into its three channels.
    pub fn hex_to_rgb(hex: &str) -> (r: Result<[u8; 3], &'static str>)
        requires
            hex_readable(hex@),
        ensures
            match hex_outcome(hex@) {
                HexOutcome::Rgb(red, green, blue) => r matches Ok(a) && a[0] == red && a[1]
                    == green && a[2] == blue,
                HexOutcome::Error(e) => r matches Err(m) && m@ == hex_error_message(e),
                HexOutcome::Fault => false,
            },
    {
        match hex_outcome_exec(hex) {
            HexOutcome::Rgb(red, green, blue) => Ok([red, green, blue]),
            HexOutcome::Error(HexError::Length) => Err(
                "Hex string must be exactly 6 characters long",
            ),
            HexOutcome::Error(HexError::Red) => Err("Invalid hex character in Red component"),
            HexOutcome::Error(HexError::Green) => Err("Invalid hex character in Green component"),
            HexOutcome::Error(HexError::Blue) => Err("Invalid hex character in Blue component"),
            HexOutcome::Fault => Err("Hex string must be exactly 6 characters long"),
        }
    }
}

} // verus!

verus! {

/// The lowercase hexadecimal digit for a value below sixteen.
pub open spec fn hex_char(d: nat) -> char {
    if d < 10 {
        (d + '0' as u32) as char
    } else {
        (d - 10 + 'a' as u32) as char
    }
}

/// `#rrggbb` for a colour, in lowercase hexadecimal.
pub open spec fn hex_string(r: u8, g: u8, b: u8) -> Seq<char> {
    seq![
        '#',
        hex_char(r as nat / 16),
        hex_char(r as nat % 16),
        hex_char(g as nat / 16),
        hex_char(g as nat % 16),
        hex_char(b as nat / 16),
        hex_char(b as nat % 16),
    ]
}

proof fn lemma_hex_char(d: nat)
    requires
        d < 16,
    ensures
        hex_digit(hex_char(d)) == Some(d),
        hex_char(d) != '+',
        hex_char(d) != '#',
        (hex_char(d) as u32) < 0x80,
        utf8_width(hex_char(d)) == 1,
{
}

proof fn lemma_hex_byte(x: u8)
    ensures
        hex_pair(hex_char(x as nat / 16), hex_char(x as nat % 16)) == Some(x),
{
    lemma_hex_char(x as nat / 16);
    lemma_hex_char(x as nat % 16);
    assert((x as nat / 16) * 16 + x as nat % 16 == x);
}

/// A colour written as `#rrggbb` reads back as that colour.
pub proof fn law_hex_round_trip(r: u8, g: u8, b: u8)
    ensures
        hex_outcome(hex_string(r, g, b)) == HexOutcome::Rgb(r, g, b),
{
    let s = hex_string(r, g, b);
    lemma_hex_char(r as nat / 16);
    lemma_hex_char(r as nat % 16);
    lemma_hex_char(g as nat / 16);
    lemma_hex_char(g as nat % 16);
    lemma_hex_char(b as nat / 16);
    lemma_hex_char(b as nat % 16);
    lemma_trim_hashes_at(s, 1);
    let t = s.skip(1);
    assert(trim_hashes(s) == t);
    assert(t.len() == 6);
    assert(utf8_len(t.take(0)) == 0);
    assert forall|k: int| 0 <= k < 6 implies utf8_len(#[trigger] t.take(k + 1)) == utf8_len(
        t.take(k),
    ) + 1 by {
        assert(t.take(k + 1).drop_last() == t.take(k));
        assert(t.take(k + 1).last() == t[k]);
    }
    assert(utf8_len(t.take(6)) == 6);
    assert(t.take(6) == t);
    lemma_hex_byte(r);
    lemma_hex_byte(g);
    lemma_hex_byte(b);
}

} // verus!
