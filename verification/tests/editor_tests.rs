use door::color::Color;
use door::config::{ConfigLine, ConfigValue};
use door::editor::{build_theme, editor_step, from_pair, EditorAction, EditorEvent, Knobs};
use door::settings::{Draft, Palette, SceneColors};
use door::theme::Theme;

fn draft_of(night: &Theme, day: &Theme) -> Draft {
    Draft {
        night: Palette::from_theme(night),
        day: Palette::from_theme(day),
        font: night.font.clone().unwrap_or_default(),
        corner_radius: "14".to_string(),
        card_width: "380".to_string(),
        day_start: "07:00".to_string(),
        day_end: "19:00".to_string(),
        clock_format: night.clock_format.clone().unwrap_or_default(),
        scene: SceneColors::from_theme(night),
        editing_day: false,
    }
}

fn numbers(t: &Theme) -> (Option<u32>, Option<u32>) {
    (Some(t.corner_radius), Some(t.card_width))
}

#[test]
fn the_shown_theme_builds_back() {
    let night = Theme {
        accent: Color::rgb(0xbb, 0x9a, 0xf7),
        font: Some("Inter".to_string()),
        ..Theme::default()
    };
    let day = Theme {
        font: Some("Inter".to_string()),
        ..Theme::day()
    };
    let d = draft_of(&night, &day);
    let k = Knobs::from_theme(&night);
    let (cr, cw) = numbers(&night);
    assert_eq!(build_theme(&d, &k, false, cr, cw), Ok(night.clone()));
    assert_eq!(build_theme(&d, &k, true, cr, cw), Ok(day));
}

#[test]
fn the_first_bad_field_is_named() {
    let mut d = draft_of(&Theme::default(), &Theme::day());
    let k = Knobs::from_theme(&Theme::default());
    let (cr, cw) = numbers(&Theme::default());
    d.night.card = " #12345 ".to_string();
    d.night.logo_box = "nope".to_string();
    assert_eq!(
        build_theme(&d, &k, false, cr, cw),
        Err("Card: ' #12345 ' is not #rrggbb[aa]".to_string())
    );
    assert_eq!(
        build_theme(&d, &k, false, None, cw),
        Err("Card: ' #12345 ' is not #rrggbb[aa]".to_string())
    );
    d.night.card = "  #010203  ".to_string();
    assert_eq!(
        build_theme(&d, &k, false, None, cw),
        Err("Corner radius: '14' is not a number".to_string())
    );
    assert_eq!(
        build_theme(&d, &k, false, cr, cw),
        Err("Logo box: 'nope' is not #rrggbb[aa]".to_string())
    );
    d.night.logo_box = "#00000000".to_string();
    let t = build_theme(&d, &k, false, cr, cw).unwrap();
    assert_eq!(t.card, Color::rgb(1, 2, 3));
    assert!(build_theme(&d, &k, true, cr, cw).is_ok());
}

#[test]
fn empty_texts_are_unset() {
    let mut d = draft_of(&Theme::default(), &Theme::day());
    d.font = "   ".to_string();
    d.night.wallpaper = " /usr/share/door/bg.png ".to_string();
    let k = Knobs::from_theme(&Theme::default());
    let (cr, cw) = numbers(&Theme::default());
    let t = build_theme(&d, &k, false, cr, cw).unwrap();
    assert_eq!(t.font, None);
    assert_eq!(t.wallpaper.as_deref(), Some("/usr/share/door/bg.png"));
}

#[test]
fn editor_presses() {
    let mut d = draft_of(&Theme::default(), &Theme::day());
    let k = Knobs::from_theme(&Theme::default());
    let (cr, cw) = numbers(&Theme::default());
    assert!(matches!(
        editor_step(&mut d, &k, cr, cw, EditorEvent::EditDay(true)),
        EditorAction::Nothing
    ));
    assert!(d.editing_day);
    match editor_step(&mut d, &k, cr, cw, EditorEvent::ImportPressed { path: "  ".to_string() }) {
        EditorAction::Status(m) => assert_eq!(m, "Enter a path to import from."),
        _ => panic!("expected a status"),
    }
    match editor_step(&mut d, &k, cr, cw, EditorEvent::ImportPressed { path: " ~/a.toml ".to_string() }) {
        EditorAction::Import { path } => assert_eq!(path, "~/a.toml"),
        _ => panic!("expected an import"),
    }
    match editor_step(&mut d, &k, cr, cw, EditorEvent::SavePresetPressed { name: "!!".to_string() }) {
        EditorAction::Status(m) => assert_eq!(m, "Name the preset before saving."),
        _ => panic!("expected a status"),
    }
    match editor_step(&mut d, &k, cr, cw, EditorEvent::SavePresetPressed { name: "My Theme".to_string() }) {
        EditorAction::SavePreset { slug, lines } => {
            assert_eq!(slug, "my-theme");
            assert_eq!(lines.len(), 131 + 23);
            assert_eq!(lines[131], ConfigLine::Entry {
                lead: "day_start  = ".to_string(),
                value: ConfigValue::Text("07:00".to_string()),
            });
        }
        _ => panic!("expected a save"),
    }
    d.day.accent = "blue".to_string();
    match editor_step(&mut d, &k, cr, cw, EditorEvent::ExportPressed { path: "/tmp/x.toml".to_string() }) {
        EditorAction::Status(m) => assert_eq!(m, "Fix before exporting: Accent: 'blue' is not #rrggbb[aa]"),
        _ => panic!("expected a status"),
    }
    match editor_step(&mut d, &k, cr, cw, EditorEvent::SavePressed) {
        EditorAction::Status(m) => assert_eq!(m, "Accent: 'blue' is not #rrggbb[aa]"),
        _ => panic!("expected a status"),
    }
    d.day.accent = "#123456".to_string();
    d.day_start = " 06:30 ".to_string();
    match editor_step(&mut d, &k, cr, cw, EditorEvent::SavePressed) {
        EditorAction::WriteDraft { lines } => assert_eq!(lines[131], ConfigLine::Entry {
            lead: "day_start  = ".to_string(),
            value: ConfigValue::Text("06:30".to_string()),
        }),
        _ => panic!("expected a draft"),
    }
}

#[test]
fn a_loaded_pair_fills_the_editor() {
    let night = Theme {
        font: Some("Inter".to_string()),
        ..Theme::default()
    };
    let day = Theme::day();
    let d = from_pair(&night, &day, (390, 1170), "14".to_string(), "380".to_string(), true);
    assert_eq!(d.day_start, "06:30");
    assert_eq!(d.day_end, "19:30");
    assert_eq!(d.font, "Inter");
    assert_eq!(d.clock_format, "");
    assert_eq!(d.day.background, day.background.to_hex());
    assert_eq!(d.night.accent, night.accent.to_hex());
    assert!(d.editing_day);
    let k = Knobs::from_theme(&night);
    let (cr, cw) = numbers(&night);
    assert_eq!(build_theme(&d, &k, false, cr, cw), Ok(night));
}
