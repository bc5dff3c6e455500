use door::color::Color;
use door::config::{ConfigLine, ConfigValue};
use door::modes::SkyMode;
use door::theme::{day_window, Theme};

#[test]
fn written_config_round_trips_through_parsing() {
    let t = Theme {
        accent: Color::rgb(0xbb, 0x9a, 0xf7),
        wallpaper: Some("/usr/share/door/wallpaper.png".to_string()),
        font: Some("MesloLGS Nerd Font".to_string()),
        show_clock: false,
        ..Default::default()
    };
    let file = t.to_config_file();
    assert_eq!(file.accent.as_deref(), Some("#bb9af7"));
    assert_eq!(file.show_clock, Some(false));
    assert!(file.day.is_none());
    assert_eq!(Theme::default().merged(&file), t);
}

#[test]
fn every_scene_round_trips() {
    for mode in [SkyMode::Auto, SkyMode::Storm, SkyMode::Water] {
        let t = Theme {
            sky_mode: mode,
            card_width: 512.5f32.to_bits(),
            background: Color::rgba(1, 2, 3, 4),
            ..Default::default()
        };
        assert_eq!(Theme::default().merged(&t.to_config_file()), t);
    }
}

#[test]
fn written_config_lines_follow_the_default_layout() {
    let t = Theme {
        accent: Color::rgb(0xbb, 0x9a, 0xf7),
        font: Some("MesloLGS Nerd Font".to_string()),
        ..Default::default()
    };
    let lines = t.to_config_lines();
    assert_eq!(lines.len(), 131);
    assert!(matches!(&lines[0], ConfigLine::Comment(c) if c.starts_with("# door greeter theme")));
    assert_eq!(lines[3], ConfigLine::Blank);
    assert_eq!(
        lines[4],
        ConfigLine::Comment("# wallpaper =   # (none — solid background)".to_string())
    );
    assert!(lines.contains(&ConfigLine::Entry {
        lead: "accent      = ".to_string(),
        value: ConfigValue::Text("#bb9af7".to_string()),
    }));
    assert!(lines.contains(&ConfigLine::Entry {
        lead: "font = ".to_string(),
        value: ConfigValue::Text("MesloLGS Nerd Font".to_string()),
    }));
    assert!(lines.contains(&ConfigLine::Entry {
        lead: "sky_mode      = ".to_string(),
        value: ConfigValue::Text("auto".to_string()),
    }));
    assert!(lines.contains(&ConfigLine::Entry {
        lead: "corner_radius = ".to_string(),
        value: ConfigValue::Number(Theme::default().corner_radius),
    }));
    assert!(lines.contains(&ConfigLine::Entry {
        lead: "show_clock    = ".to_string(),
        value: ConfigValue::Flag(true),
    }));
    assert_eq!(lines[130], ConfigLine::Entry {
        lead: "spinner_ring  = ".to_string(),
        value: ConfigValue::Number(Theme::default().spinner_ring),
    });
}

#[test]
fn render_pair_round_trips_both_palettes_and_window() {
    let night = Theme {
        accent: Color::rgb(0xbb, 0x9a, 0xf7),
        ..Default::default()
    };
    let day = Theme {
        accent: Color::rgb(0x12, 0x34, 0x56),
        background: Color::rgb(0xff, 0xff, 0xff),
        ..Theme::day()
    };
    let file = Theme::render_pair_file(&night, &day, "06:30", "18:45");
    let n2 = Theme::default().merged(&file);
    let d2 = Theme::day().merged_structural(&file).merged_day(&file.day);
    assert_eq!(n2.accent, night.accent);
    assert_eq!(d2.accent, day.accent);
    assert_eq!(d2.background, day.background);
    assert_eq!(day_window(&file), (6 * 60 + 30, 18 * 60 + 45));
    assert_eq!(n2, night);
    assert_eq!(d2, day);
}

fn render(lines: &[ConfigLine]) -> String {
    let mut out = String::new();
    for line in lines {
        match line {
            ConfigLine::Comment(text) => out.push_str(text),
            ConfigLine::Blank => {}
            ConfigLine::Entry { lead, value } => {
                out.push_str(lead);
                match value {
                    ConfigValue::Text(s) => out.push_str(&format!("{s:?}")),
                    ConfigValue::Number(bits) => out.push_str(&format!("{}", f32::from_bits(*bits))),
                    ConfigValue::Flag(b) => out.push_str(&format!("{b}")),
                }
            }
            ConfigLine::Table(name) => out.push_str(&format!("[{name}]")),
        }
        out.push('\n');
    }
    out
}

#[test]
fn exported_text_parses_with_both_palettes() {
    let night = Theme::default();
    let day = Theme {
        accent: Color::parse("#ffcc00").unwrap(),
        ..Theme::default()
    };
    let body = render(&Theme::render_pair_lines(&night, &day, "07:00", "19:00"));
    let table: toml::Table = toml::from_str(&body).expect("the written pair must parse");
    assert_eq!(table["accent"].as_str(), Some(night.accent.to_hex().as_str()));
    assert_eq!(table["day"]["accent"].as_str(), Some("#ffcc00"));
    assert_eq!(table["day_start"].as_str(), Some("07:00"));
    assert_eq!(table["day_end"].as_str(), Some("19:00"));
    assert_eq!(
        table["corner_radius"]
            .as_float()
            .or(table["corner_radius"].as_integer().map(|i| i as f64))
            .map(|f| f as f32),
        Some(f32::from_bits(night.corner_radius))
    );
    assert_eq!(table["sky_mode"].as_str(), Some("auto"));
    assert_eq!(table["show_clock"].as_bool(), Some(true));
}

#[test]
fn export_import_round_trips() {
    let night = Theme::default();
    let day = Theme {
        accent: Color::parse("#ffcc00").unwrap(),
        ..Theme::default()
    };
    let file = Theme::render_pair_file(&night, &day, "07:00", "19:00");
    let (n2, d2, (start, end)) = Theme::parse_pair(Ok(file)).unwrap();
    assert_eq!(n2.accent, night.accent);
    assert_eq!(d2.accent, day.accent);
    assert_eq!((start, end), (7 * 60, 19 * 60));
}

#[test]
fn render_pair_lines_end_with_the_day_table() {
    let night = Theme::default();
    let day = Theme::day();
    let lines = Theme::render_pair_lines(&night, &day, "07:00", "19:00");
    assert_eq!(lines.len(), 131 + 23);
    assert_eq!(lines[131], ConfigLine::Entry {
        lead: "day_start  = ".to_string(),
        value: ConfigValue::Text("07:00".to_string()),
    });
    assert_eq!(lines[136], ConfigLine::Table("day".to_string()));
    assert_eq!(lines[137], ConfigLine::Entry {
        lead: "background  = ".to_string(),
        value: ConfigValue::Text(day.background.to_hex()),
    });
    assert_eq!(lines[144], ConfigLine::Comment("# logo =".to_string()));
}
