use door::modes::{CardPos, ClockStyle, FontWeight, GpuLevel, SpinnerStyle};
use door::color::Color;
use door::modes::SkyMode;
use door::theme::{day_window, DayFile, Theme, ThemeFile};
use door::window::{in_window, parse_hhmm};

#[test]
fn lib_parses_six_and_eight_digit_hex() {
    assert_eq!(
        Color::parse("#7aa2f7"),
        Some(Color::rgba(0x7a, 0xa2, 0xf7, 0xff))
    );
    assert_eq!(
        Color::parse("#24283bd0"),
        Some(Color::rgba(0x24, 0x28, 0x3b, 0xd0))
    );
    assert_eq!(Color::parse("#FFFFFF"), Some(Color::rgb(255, 255, 255)));
}

#[test]
fn hex_round_trips() {
    for s in ["#7aa2f7", "#24283bd0", "#16161e"] {
        assert_eq!(Color::parse(s).unwrap().to_hex(), s);
    }
}

#[test]
fn lib_rejects_malformed_hex() {
    for bad in ["7aa2f7", "#abc", "#xyzxyz", "#1234567", "", "#+1+2+3", "#+f+f+f+f"] {
        assert_eq!(Color::parse(bad), None, "should reject {bad:?}");
    }
}

#[test]
fn lib_empty_file_is_the_default() {
    let merged = Theme::default().merged(&ThemeFile::default());
    assert_eq!(merged, Theme::default());
}

#[test]
fn lib_partial_file_overlays_only_named_fields() {
    let file = ThemeFile {
        accent: Some("#ff0000".to_string()),
        card_width: Some(420.0f32.to_bits()),
        show_clock: Some(false),
        wallpaper: Some("/usr/share/door/bg.png".to_string()),
        ..ThemeFile::default()
    };
    let merged = Theme::default().merged(&file);
    assert_eq!(merged.accent, Color::rgb(0xff, 0, 0));
    assert_eq!(f32::from_bits(merged.card_width), 420.0);
    assert!(!merged.show_clock);
    assert_eq!(merged.wallpaper, Some("/usr/share/door/bg.png".to_string()));
    assert_eq!(merged.background, Theme::default().background);
    assert_eq!(merged.foreground, Theme::default().foreground);
}

#[test]
fn lib_a_bad_color_keeps_the_default_for_that_field() {
    let file = ThemeFile {
        accent: Some("not-a-color".to_string()),
        ..ThemeFile::default()
    };
    let merged = Theme::default().merged(&file);
    assert_eq!(merged.accent, Theme::default().accent);
}

#[test]
fn day_window_parsing_and_membership() {
    assert_eq!(parse_hhmm("07:00"), Some(420));
    assert_eq!(parse_hhmm("19:30"), Some(1170));
    assert_eq!(parse_hhmm("nope"), None);
    assert_eq!(parse_hhmm("24:00"), None);
    // default 07:00–19:00
    assert!(in_window(12 * 60, 420, 1140)); // noon = day
    assert!(!in_window(6 * 60, 420, 1140)); // 06:00 = night
    assert!(!in_window(20 * 60, 420, 1140)); // 20:00 = night
    // a window that wraps midnight
    assert!(in_window(23 * 60, 22 * 60, 5 * 60));
    assert!(in_window(2 * 60, 22 * 60, 5 * 60));
    assert!(!in_window(12 * 60, 22 * 60, 5 * 60));
}

#[test]
fn day_variant_is_light_and_flagged() {
    let day = Theme::day();
    assert!(day.is_day);
    assert!(!Theme::default().is_day);
    // Day background is light; night is dark.
    assert!(day.background.r > Theme::default().background.r);
}

#[test]
fn parse_hhmm_edge_forms() {
    assert_eq!(parse_hhmm("  06:30 "), Some(390));
    assert_eq!(parse_hhmm("+7:+05"), Some(425));
    assert_eq!(parse_hhmm("007:0"), Some(420));
    assert_eq!(parse_hhmm("07 :00"), None);
    assert_eq!(parse_hhmm("12:60"), None);
    assert_eq!(parse_hhmm(":30"), None);
    assert_eq!(parse_hhmm("99999999999999:00"), None);
}

#[test]
fn day_window_defaults_and_overrides() {
    assert_eq!(day_window(&ThemeFile::default()), (420, 1140));
    let file = ThemeFile {
        day_start: Some("06:30".to_string()),
        day_end: Some("bogus".to_string()),
        ..ThemeFile::default()
    };
    assert_eq!(day_window(&file), (390, 1140));
}

#[test]
fn explicit_scene_pins_night_and_auto_follows_window() {
    let storm = ThemeFile {
        sky_mode: Some(SkyMode::Storm),
        ..ThemeFile::default()
    };
    let noon = Theme::load_at(Some(storm), 12 * 60, 6);
    assert!(!noon.is_day);
    assert_eq!(noon.sky_mode, SkyMode::Storm);
    assert!(Theme::load_at(None, 12 * 60, 6).is_day);
    assert!(!Theme::load_at(None, 23 * 60, 6).is_day);
    let seasonal = ThemeFile {
        sky_mode: Some(SkyMode::Seasonal),
        ..ThemeFile::default()
    };
    let t = Theme::load_at(Some(seasonal.clone()), 12 * 60, 1);
    assert_eq!(t.sky_mode, SkyMode::Snow);
    assert!(t.is_day);
    let t = Theme::load_at(Some(seasonal.clone()), 12 * 60, 6);
    assert_eq!(t.sky_mode, SkyMode::Meteor);
    assert!(t.is_day);
    let t = Theme::load_at(Some(seasonal), 23 * 60, 6);
    assert_eq!(t.sky_mode, SkyMode::Meteor);
    assert!(!t.is_day);
}

#[test]
fn day_variant_takes_shared_keys_from_top_level_and_palette_from_day_table() {
    let file = ThemeFile {
        accent: Some("#112233".to_string()),
        card_width: Some(500.0f32.to_bits()),
        day: Some(DayFile {
            accent: Some("#445566".to_string()),
            ..DayFile::default()
        }),
        ..ThemeFile::default()
    };
    let (night, day, window) = Theme::load_pair(Some(file));
    assert_eq!(night.accent, Color::rgb(0x11, 0x22, 0x33));
    assert_eq!(day.accent, Color::rgb(0x44, 0x55, 0x66));
    assert_eq!(f32::from_bits(day.card_width), 500.0);
    assert_eq!(f32::from_bits(night.card_width), 500.0);
    assert_eq!(day.background, Theme::day().background);
    assert_eq!(window, (420, 1140));
}

#[test]
fn reduced_motion_stills_everything() {
    let file = ThemeFile {
        reduced_motion: Some(true),
        ..ThemeFile::default()
    };
    let t = Theme::load_at(Some(file), 23 * 60, 6);
    assert!(!t.animate);
    assert!(!t.comet_enabled);
    assert_eq!(t.spinner_speed, 0);
    assert_eq!(t.fade_ms, 0);
    let mut plain = Theme::default();
    plain.apply_reduced_motion();
    assert_eq!(plain, Theme::default());
}

#[test]
fn parse_pair_passes_errors_through() {
    assert_eq!(
        Theme::parse_pair(Err("bad".to_string())),
        Err("bad".to_string())
    );
    let (n, d, w) = Theme::parse_pair(Ok(ThemeFile::default())).unwrap();
    assert_eq!(n, Theme::default());
    assert_eq!(d, Theme::day());
    assert_eq!(w, (420, 1140));
}

#[test]
fn a_wrapped_window_is_the_complement_of_the_swapped_one() {
    for now in [0u32, 4 * 60, 5 * 60, 12 * 60, 22 * 60, 23 * 60 + 59] {
        assert_eq!(in_window(now, 22 * 60, 5 * 60), !in_window(now, 5 * 60, 22 * 60));
        assert!(!in_window(now, 7 * 60, 7 * 60));
    }
}

#[test]
fn unset_and_bad_keys_keep_their_value() {
    let base = Theme::day();
    let file = ThemeFile {
        accent: Some("#12".to_string()),
        card: Some("#010203".to_string()),
        ..ThemeFile::default()
    };
    let m = base.clone().merged(&file);
    assert_eq!(m.accent, base.accent);
    assert_eq!(m.card, Color::rgb(1, 2, 3));
    assert_eq!(m.background, base.background);
    assert!(m.is_day);
}

#[test]
fn mode_lists_and_defaults() {
    assert_eq!(SkyMode::all().len(), 13);
    assert_eq!(SkyMode::all()[1], SkyMode::Seasonal);
    assert_eq!(GpuLevel::all(), vec![GpuLevel::Lite, GpuLevel::Moderate, GpuLevel::High, GpuLevel::Bonkers]);
    assert_eq!(SpinnerStyle::all()[4].name(), "none");
    assert_eq!(GpuLevel::default(), GpuLevel::High);
    assert_eq!(SkyMode::default(), SkyMode::Auto);
    assert_eq!(CardPos::default(), CardPos::Center);
    assert_eq!(SpinnerStyle::default(), SpinnerStyle::Comet);
    assert_eq!(ClockStyle::default(), ClockStyle::Digital);
    assert_eq!(FontWeight::default(), FontWeight::Regular);
}
