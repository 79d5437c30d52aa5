//! The library's readers agree with the same readings written directly with
//! std's string methods, on many generated inputs.

use muse::cache::{cache_key, normalize};
use muse::config::Color;
use muse::lyric::{convert_to_timed, convertible_to_timed, parse_timestamp};
use muse::ui::header::replace;
use muse::ui::main_display::format_second;

struct Lcg(u64);

impl Lcg {
    fn next(&mut self) -> u64 {
        self.0 = self.0.wrapping_mul(6364136223846793005).wrapping_add(1442695040888963407);
        self.0 >> 33
    }

    fn string(&mut self, alphabet: &[char], max_len: u64) -> String {
        let len = self.next() % (max_len + 1);
        (0..len).map(|_| alphabet[(self.next() % alphabet.len() as u64) as usize]).collect()
    }
}

fn std_timestamp(ts: &str) -> Option<u64> {
    let (min, rest) = ts.split_once(':')?;
    let (sec, frac) = rest.split_once('.')?;
    let minutes: u64 = min.parse().ok()?;
    let seconds: u64 = sec.parse().ok()?;
    let millis = match frac.len() {
        1 => frac.parse::<u64>().ok()? * 100,
        2 => frac.parse::<u64>().ok()? * 10,
        3 => frac.parse::<u64>().ok()?,
        _ => return None,
    };
    minutes.checked_mul(60_000)?.checked_add(seconds.checked_mul(1_000)?)?.checked_add(millis)
}

fn std_timed(text: &str) -> Option<Vec<(u64, String)>> {
    let mut out = Vec::new();
    for line in text.lines() {
        if let Some(end) = line.find(']') {
            if end == 0 || !line.is_char_boundary(1) {
                return None;
            }
            let time = &line[1..end];
            let words = line[end + 1..].trim().to_string();
            if let Some(t) = std_timestamp(time) {
                out.push((t, words));
            } else if time.split_once(':').and_then(|(m, r)| r.split_once('.').map(|(s, f)| (m, s, f))).map_or(false, |(m, s, f)| {
                m.parse::<u64>().is_ok() && s.parse::<u64>().is_ok() && (1..=3).contains(&f.len()) && f.parse::<u64>().is_ok()
            }) {
                return None;
            }
        }
    }
    Some(out)
}

#[test]
fn timestamps_agree_with_std_parsing() {
    let alphabet = ['0', '1', '5', '9', ':', '.', '+', '-', ' ', 'a', 'é'];
    let mut rng = Lcg(7);
    for _ in 0..5_000 {
        let ts = rng.string(&alphabet, 9);
        if std_timestamp(&ts).is_some() || ts.split_once(':').is_none() || true {
            let expected = std_timestamp(&ts);
            if expected.is_none() {
                // Either malformed, or too large: only compare well-formed stamps that fit.
                let too_large = ts
                    .split_once(':')
                    .and_then(|(m, r)| r.split_once('.').map(|(s, f)| (m, s, f)))
                    .map_or(false, |(m, s, f)| {
                        m.parse::<u64>().is_ok()
                            && s.parse::<u64>().is_ok()
                            && (1..=3).contains(&f.len())
                            && f.parse::<u64>().is_ok()
                    });
                if too_large {
                    continue;
                }
            }
            assert_eq!(parse_timestamp(&ts), expected, "{:?}", ts);
        }
    }
}

#[test]
fn lyrics_agree_with_std_line_splitting() {
    let alphabet = ['[', ']', '0', '1', ':', '.', '\n', '\r', ' ', 'x', 'é', '\u{3000}'];
    let mut rng = Lcg(11);
    for _ in 0..3_000 {
        let text = rng.string(&alphabet, 30);
        let expected = std_timed(&text);
        assert_eq!(convertible_to_timed(&text), expected.is_some(), "{:?}", text);
        if let Some(expected) = expected {
            let got: Vec<(u64, String)> =
                convert_to_timed(&text).into_iter().map(|l| (l.timestamp, l.line)).collect();
            assert_eq!(got, expected, "{:?}", text);
        }
    }
}

fn std_hex(hex: &str) -> Option<Result<[u8; 3], &'static str>> {
    let hex = hex.trim_start_matches('#');
    if hex.len() != 6 {
        return Some(Err("Hex string must be exactly 6 characters long"));
    }
    let part = |from: usize, name: &'static str| -> Option<Result<u8, &'static str>> {
        if !hex.is_char_boundary(from + 2) {
            return None;
        }
        Some(u8::from_str_radix(&hex[from..from + 2], 16).map_err(|_| name))
    };
    let r = match part(0, "Invalid hex character in Red component")? {
        Ok(v) => v,
        Err(e) => return Some(Err(e)),
    };
    let g = match part(2, "Invalid hex character in Green component")? {
        Ok(v) => v,
        Err(e) => return Some(Err(e)),
    };
    let b = match part(4, "Invalid hex character in Blue component")? {
        Ok(v) => v,
        Err(e) => return Some(Err(e)),
    };
    Some(Ok([r, g, b]))
}

#[test]
fn hex_colours_agree_with_from_str_radix() {
    let alphabet = ['#', '0', 'a', 'F', 'g', '+', '-', 'é', '€', '9'];
    let mut rng = Lcg(3);
    for _ in 0..5_000 {
        let hex = rng.string(&alphabet, 8);
        let mut color = Color::default();
        color.fallback_main = hex.clone();
        color.fallback_accent = String::new();
        match std_hex(&hex) {
            None => assert!(!color.fallbacks_readable(), "{:?}", hex),
            Some(expected) => {
                assert!(color.fallbacks_readable(), "{:?}", hex);
                assert_eq!(Color::hex_to_rgb(&hex), expected, "{:?}", hex);
            }
        }
    }
}

#[test]
fn cache_keys_agree_with_std_lowercasing() {
    let alphabet = ['A', 'b', ' ', '_', '-', 'Σ', 'İ', 'ß', '3', '!', 'É'];
    let mut rng = Lcg(5);
    for _ in 0..2_000 {
        let title = rng.string(&alphabet, 8);
        let artists: Vec<String> = (0..rng.next() % 3).map(|_| rng.string(&alphabet, 5)).collect();
        let key = format!("{}-{}", title, artists.join("-"));
        let expected: String =
            key.to_lowercase().chars().filter(|c| c.is_alphanumeric() || *c == '_').collect();
        assert_eq!(cache_key(&title, &artists, "album"), expected);
        let normalized: String = title
            .chars()
            .flat_map(char::to_lowercase)
            .filter(|c| c.is_alphanumeric() || *c == '_')
            .collect();
        assert_eq!(normalize(&title), normalized);
    }
}

#[test]
fn replacement_agrees_with_str_replace() {
    let alphabet = ['a', 'b', '{', '}', 't'];
    let mut rng = Lcg(9);
    for _ in 0..3_000 {
        let s = rng.string(&alphabet, 12);
        let mut p = rng.string(&alphabet, 3);
        if p.is_empty() {
            p.push('a');
        }
        let r = rng.string(&alphabet, 3);
        assert_eq!(replace(&s, &p, &r), s.replace(&p, &r));
    }
}

#[test]
fn second_formatting_agrees_with_format() {
    for s in (0..100_000u32).step_by(7).chain([u32::MAX, u32::MAX - 1]) {
        assert_eq!(format_second(s), format!("{}:{:02}", s / 60, s % 60));
    }
}
