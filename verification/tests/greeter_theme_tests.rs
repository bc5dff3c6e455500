use door::greeter_theme::{Color, Theme, ThemeFile};

#[test]
fn theme_parses_six_and_eight_digit_hex() {
    assert_eq!(Color::parse("#7aa2f7"), Some(Color::rgba(0x7a, 0xa2, 0xf7, 0xff)));
    assert_eq!(Color::parse("#24283bd0"), Some(Color::rgba(0x24, 0x28, 0x3b, 0xd0)));
    assert_eq!(Color::parse("#FFFFFF"), Some(Color::rgb(255, 255, 255)));
}

#[test]
fn theme_rejects_malformed_hex() {
    for bad in ["7aa2f7", "#abc", "#xyzxyz", "#1234567", "", "#+1+2+3"] {
        assert_eq!(Color::parse(bad), None, "should reject {bad:?}");
    }
}

#[test]
fn theme_empty_file_is_the_default() {
    let merged = Theme::default().merged(ThemeFile::default());
    assert_eq!(merged, Theme::default());
}

#[test]
fn theme_partial_file_overlays_only_named_fields() {
    let file = ThemeFile {
        accent: Some("#ff0000".to_string()),
        card_width: Some(420.0f32.to_bits()),
        show_clock: Some(false),
        wallpaper: Some("/usr/share/door/bg.png".to_string()),
        ..ThemeFile::default()
    };
    let merged = Theme::default().merged(file);
    assert_eq!(merged.accent, Color::rgb(0xff, 0, 0));
    assert_eq!(f32::from_bits(merged.card_width), 420.0);
    assert!(!merged.show_clock);
    assert_eq!(merged.wallpaper, Some("/usr/share/door/bg.png".to_string()));
    // Untouched fields keep the default.
    assert_eq!(merged.background, Theme::default().background);
    assert_eq!(merged.foreground, Theme::default().foreground);
}

#[test]
fn theme_a_bad_color_keeps_the_default_for_that_field() {
    let file = ThemeFile {
        accent: Some("not-a-color".to_string()),
        ..ThemeFile::default()
    };
    let merged = Theme::default().merged(file);
    assert_eq!(merged.accent, Theme::default().accent);
}

#[test]
fn greeter_default_geometry() {
    let t = Theme::default();
    assert_eq!(f32::from_bits(t.corner_radius), 14.0);
    assert_eq!(f32::from_bits(t.card_width), 380.0);
    assert_eq!(Theme::load(None), t);
}
