use graphite_cli::theme::{
    ThemeColor, fallback_theme, parse_color, reset_background_sequence,
    terminal_background_sequence,
};

#[test]
fn parses_hex_colors() {
    assert_eq!(parse_color("#FF8800"), ThemeColor::Rgb(255, 136, 0));
    assert_eq!(parse_color("00ff7f"), ThemeColor::Rgb(0, 255, 127));
    assert_eq!(parse_color("##0a0B0c"), ThemeColor::Rgb(10, 11, 12));
}

#[test]
fn accepts_a_plus_sign_in_a_pair() {
    assert_eq!(parse_color("#+f+f+f"), ThemeColor::Rgb(15, 15, 15));
}

#[test]
fn other_color_text_is_the_default_color() {
    assert_eq!(parse_color("#FFF"), ThemeColor::Reset);
    assert_eq!(parse_color("#GG0000"), ThemeColor::Reset);
    assert_eq!(parse_color(""), ThemeColor::Reset);
    assert_eq!(parse_color("#-10000"), ThemeColor::Reset);
    assert_eq!(parse_color("#1234567"), ThemeColor::Reset);
}

#[test]
fn looks_up_palette_entries() {
    let theme = fallback_theme();
    assert_eq!(theme.color("background_highlight"), ThemeColor::Rgb(0x44, 0x44, 0x44));
    assert_eq!(theme.color("orange"), ThemeColor::Rgb(0xFF, 0x88, 0));
    assert_eq!(theme.color("no such color"), ThemeColor::Reset);
}

#[test]
fn usages_pick_palette_entries() {
    let theme = fallback_theme();
    assert_eq!(theme.usage_color("logo"), ThemeColor::Rgb(255, 0, 0));
    assert_eq!(theme.usage_color("placeholder"), ThemeColor::Rgb(0x66, 0x66, 0x66));
    assert_eq!(theme.usage_color("selection_background"), ThemeColor::Rgb(0x44, 0x44, 0x44));
    assert_eq!(theme.usage_color("info"), ThemeColor::Rgb(0, 255, 255));
    assert_eq!(theme.usage_color("nothing"), ThemeColor::Reset);
}

#[test]
fn fallback_theme_parses() {
    let theme = fallback_theme();
    assert!(theme.usage_color_is_defined("background"));
    assert_eq!(theme.name, "fallback");
    assert_eq!(theme.usage.separator, "background_highlight");
}

#[test]
fn detects_color_text_that_cannot_be_sliced() {
    let mut theme = fallback_theme();
    theme.colors.red = "aé123".to_string();
    assert!(!theme.usage_color_is_defined("logo"));
    assert!(theme.usage_color_is_defined("input"));
    theme.colors.red = "aé1234".to_string();
    assert!(theme.usage_color_is_defined("logo"));
    assert_eq!(theme.usage_color("logo"), ThemeColor::Reset);
}

#[test]
fn background_escape_sequences() {
    assert_eq!(terminal_background_sequence(ThemeColor::Reset), None);
    assert_eq!(
        terminal_background_sequence(ThemeColor::Rgb(0x1a, 0, 0xff)),
        Some(b"\x1b]11;rgb:1a/00/ff\x07".to_vec())
    );
    assert_eq!(reset_background_sequence(), b"\x1b]111\x07".to_vec());
}
