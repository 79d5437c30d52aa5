use muse::config::{Color, Config, Header, LyricSettings};

#[test]
fn defaults_match_the_documented_settings() {
    let config = Config::default();
    assert_eq!(config.player, "");
    assert_eq!(config.header.title, "{title} {artists} - {album}");
    assert!(!config.header.centered);
    assert!(config.color.generate);
    assert_eq!(config.color.k_clusters, 14);
    assert_eq!(config.color.max_color_gen_iterations, 30);
    assert_eq!(config.color.fallback_main, "#afd75f");
    assert_eq!(config.color.fallback_accent, "#ffffff");
    assert_eq!(config.lyric_settings.active_prefix, "");
    assert!(config.lyric_settings.center);
    let header = Header::default();
    assert_eq!(header.title, config.header.title);
    let lyric = LyricSettings::default();
    assert!(lyric.center);
}

#[test]
fn hex_to_rgb_reads_six_hex_digits() {
    assert_eq!(Color::hex_to_rgb("#afd75f"), Ok([175, 215, 95]));
    assert_eq!(Color::hex_to_rgb("ffffff"), Ok([255, 255, 255]));
    assert_eq!(Color::hex_to_rgb("##000000"), Ok([0, 0, 0]));
    assert_eq!(Color::hex_to_rgb("#AbCdEf"), Ok([0xab, 0xcd, 0xef]));
    assert_eq!(Color::hex_to_rgb("+f+f+f"), Ok([15, 15, 15]));
}

#[test]
fn hex_to_rgb_names_what_is_wrong() {
    assert_eq!(Color::hex_to_rgb("#fff"), Err("Hex string must be exactly 6 characters long"));
    assert_eq!(Color::hex_to_rgb(""), Err("Hex string must be exactly 6 characters long"));
    assert_eq!(Color::hex_to_rgb("#gg0000"), Err("Invalid hex character in Red component"));
    assert_eq!(Color::hex_to_rgb("#00gg00"), Err("Invalid hex character in Green component"));
    assert_eq!(Color::hex_to_rgb("#0000gg"), Err("Invalid hex character in Blue component"));
    assert_eq!(Color::hex_to_rgb("#-10000"), Err("Invalid hex character in Red component"));
    assert_eq!(Color::hex_to_rgb("é0000"), Err("Invalid hex character in Red component"));
    assert_eq!(Color::hex_to_rgb("00é00"), Err("Invalid hex character in Green component"));
}

#[test]
fn colours_written_as_hex_read_back() {
    for (r, g, b) in [(0u8, 0u8, 0u8), (1, 2, 3), (255, 128, 7), (16, 160, 250)] {
        let hex = format!("#{:02x}{:02x}{:02x}", r, g, b);
        assert_eq!(Color::hex_to_rgb(&hex), Ok([r, g, b]));
    }
}

#[test]
fn fallbacks_use_the_configured_colours_when_valid() {
    let color = Color::default();
    assert!(color.fallbacks_readable());
    assert_eq!(color.fallback_main_rgb(), [175, 215, 95]);
    assert_eq!(color.fallback_accent_rgb(), [255, 255, 255]);
}

#[test]
fn fallbacks_use_fixed_colours_when_invalid() {
    let mut color = Color::default();
    color.fallback_main = "nope".to_string();
    color.fallback_accent = "#12345z".to_string();
    assert!(color.fallbacks_readable());
    assert_eq!(color.fallback_main_rgb(), [175, 215, 95]);
    assert_eq!(color.fallback_accent_rgb(), [95, 95, 0]);
}

#[test]
fn fallbacks_readable_spots_strings_that_cut_a_character() {
    let mut color = Color::default();
    color.fallback_main = "€000".to_string();
    assert!(!color.fallbacks_readable());
    color.fallback_main = "0€00".to_string();
    assert!(!color.fallbacks_readable());
}
