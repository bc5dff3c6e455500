use door::color::Color;
use door::settings::{
    capitalize, expand_tilde, param_name, prettify, slug_from_lowercase, slugify, title_words,
    Draft, Palette, Param, SceneColors,
};
use door::theme::Theme;
use door::window::{minutes_to_hhmm, parse_hhmm};

#[test]
fn tilde_expands_to_home() {
    assert_eq!(
        expand_tilde("~/theme.toml", Some("/home/tester")),
        "/home/tester/theme.toml"
    );
    assert_eq!(
        expand_tilde("/abs/path.toml", Some("/home/tester")),
        "/abs/path.toml"
    );
}

#[test]
fn tilde_without_home_stays() {
    assert_eq!(expand_tilde("~/theme.toml", None), "~/theme.toml");
    assert_eq!(expand_tilde("~theme.toml", Some("/home/tester")), "~theme.toml");
    assert_eq!(expand_tilde("~//etc/x.toml", Some("/home/tester")), "/etc/x.toml");
}

#[test]
fn prettify_makes_display_names() {
    assert_eq!(prettify("tokyo-night"), "Tokyo Night");
    assert_eq!(prettify("gruvbox_dark--soft"), "Gruvbox Dark Soft");
    assert_eq!(prettify("--"), "");
    assert_eq!(prettify("éclair"), "Éclair");
    assert_eq!(prettify("straße"), "Straße");
}

#[test]
fn title_words_replaces_first_characters() {
    let words = vec![vec!['a', 'b'], vec!['x']];
    let heads = vec![vec!['A'], vec!['X', 'Y']];
    assert_eq!(title_words(&words, &heads), "Ab XY");
}

#[test]
fn slugify_makes_safe_stems() {
    assert_eq!(slugify("My Theme!"), "my-theme");
    assert_eq!(slugify("  Tokyo   Night  "), "tokyo-night");
    assert_eq!(slugify("ÉTÉ 2024"), "t-2024");
    assert_eq!(slugify(""), "");
    assert_eq!(slug_from_lowercase("a_b.c"), "a-b-c");
    assert_eq!(slug_from_lowercase("Keep-CASE"), "Keep-CASE");
}

#[test]
fn capitalize_upper_cases_the_first_ascii_letter() {
    assert_eq!(capitalize("aurora"), "Aurora");
    assert_eq!(capitalize("Storm"), "Storm");
    assert_eq!(capitalize(""), "");
    assert_eq!(capitalize("éclair"), "éclair");
}

#[test]
fn param_names() {
    assert_eq!(param_name(Param::SpinnerComet), "Spinner comet");
    assert_eq!(param_name(Param::GlowColor), "Glow");
    assert_eq!(param_name(Param::Font), "Color");
}

fn draft() -> Draft {
    Draft {
        night: Palette::from_theme(&Theme::default()),
        day: Palette::from_theme(&Theme::day()),
        font: String::new(),
        corner_radius: "16".to_string(),
        card_width: "420".to_string(),
        day_start: "07:00".to_string(),
        day_end: "19:00".to_string(),
        clock_format: String::new(),
        scene: SceneColors::from_theme(&Theme::default()),
        editing_day: false,
    }
}

#[test]
fn palette_from_theme_holds_hex_text() {
    let t = Theme {
        accent: Color::rgb(0xbb, 0x9a, 0xf7),
        wallpaper: Some("/usr/share/door/bg.png".to_string()),
        ..Theme::default()
    };
    let p = Palette::from_theme(&t);
    assert_eq!(p.accent, "#bb9af7");
    assert_eq!(p.wallpaper, "/usr/share/door/bg.png");
    assert_eq!(p.logo, "");
    assert_eq!(Color::parse(&p.card), Some(t.card));
}

#[test]
fn a_color_reads_back_what_was_set() {
    let mut d = draft();
    d.set(Param::Accent, "#ff0000".to_string());
    assert_eq!(d.color_hex(Param::Accent), "#ff0000");
    assert_eq!(d.day.accent, Theme::day().accent.to_hex());
    d.editing_day = true;
    d.set(Param::Accent, "#00ff00".to_string());
    assert_eq!(d.color_hex(Param::Accent), "#00ff00");
    assert_eq!(d.night.accent, "#ff0000");
    assert_eq!(d.color_hex(Param::Font), "");
}

#[test]
fn shared_fields_are_not_per_variant() {
    let mut d = draft();
    d.editing_day = true;
    d.set(Param::Font, "Inter".to_string());
    d.set(Param::DayStart, "06:30".to_string());
    d.set(Param::Wallpaper, "/usr/share/door/day.png".to_string());
    assert_eq!(d.font, "Inter");
    assert_eq!(d.day_start, "06:30");
    assert_eq!(d.day.wallpaper, "/usr/share/door/day.png");
    assert_eq!(d.night.wallpaper, "");
}

#[test]
fn minutes_render_as_hhmm() {
    assert_eq!(minutes_to_hhmm(420), "07:00");
    assert_eq!(minutes_to_hhmm(1170), "19:30");
    assert_eq!(minutes_to_hhmm(0), "00:00");
    assert_eq!(minutes_to_hhmm(6000), "100:00");
    for m in [0u32, 59, 61, 719, 1439] {
        assert_eq!(parse_hhmm(&minutes_to_hhmm(m)), Some(m));
    }
}

#[test]
fn the_active_palette_follows_the_variant() {
    let mut d = draft();
    assert_eq!(d.active().background, Theme::default().background.to_hex());
    d.editing_day = true;
    assert_eq!(d.active().background, Theme::day().background.to_hex());
}

#[test]
fn slugs_are_safe_and_stable() {
    for name in ["My Theme!", "--a--b--", "  Ünïcødé  ", "x", "", "Tokyo Night 2"] {
        let s = slugify(name);
        assert!(s.chars().all(|c| c.is_ascii_alphanumeric() || c == '-'));
        assert!(!s.starts_with('-') && !s.ends_with('-') && !s.contains("--"));
        assert_eq!(slug_from_lowercase(&s), s);
        assert_eq!(slugify(&s), s);
    }
    assert_eq!(slugify(&prettify("tokyo-night")), "tokyo-night");
}

#[test]
fn tilde_joins_like_a_path() {
    assert_eq!(expand_tilde("~/a.toml", Some("/home/t/")), "/home/t/a.toml");
    assert_eq!(expand_tilde("~/a.toml", Some("")), "a.toml");
    assert_eq!(expand_tilde("~/", Some("/home/t")), "/home/t/");
}
