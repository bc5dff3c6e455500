use door::color::Color;
use door::presets::{catalog, keep_first_of_each_name, sort_by_name, Preset, PresetSwatch};
use door::theme::Theme;

fn preset(name: &str, path: &str) -> Preset {
    Preset {
        name: name.to_string(),
        path: path.to_string(),
        swatch: None,
    }
}

#[test]
fn the_first_directory_wins_a_name_clash() {
    let found = vec![
        preset("Tokyo Night", "/home/me/.config/door/presets/tokyo-night.toml"),
        preset("Nord", "/usr/share/door/presets/nord.toml"),
        preset("Tokyo Night", "/usr/share/door/presets/tokyo_night.toml"),
    ];
    let kept = keep_first_of_each_name(&found);
    assert_eq!(kept.len(), 2);
    assert_eq!(kept[0].path, "/home/me/.config/door/presets/tokyo-night.toml");
    assert_eq!(kept[1].name, "Nord");
}

#[test]
fn presets_are_listed_by_name() {
    let v = vec![
        preset("Tokyo Night", "a"),
        preset("Dracula", "b"),
        preset("Nord", "c"),
        preset("Dracula Pro", "d"),
        preset("Ayu", "e"),
    ];
    let names: Vec<String> = sort_by_name(&v).into_iter().map(|p| p.name).collect();
    assert_eq!(names, ["Ayu", "Dracula", "Dracula Pro", "Nord", "Tokyo Night"]);
}

#[test]
fn equal_names_keep_their_order() {
    let v = vec![preset("B", "1"), preset("A", "2"), preset("B", "3")];
    let paths: Vec<String> = sort_by_name(&v).into_iter().map(|p| p.path).collect();
    assert_eq!(paths, ["2", "1", "3"]);
}

#[test]
fn catalog_is_deduplicated_and_sorted() {
    let found = vec![
        preset("Nord", "user"),
        preset("Ayu", "pkg"),
        preset("Nord", "pkg"),
    ];
    let c = catalog(&found);
    assert_eq!(c.len(), 2);
    assert_eq!(c[0].name, "Ayu");
    assert_eq!(c[1].path, "user");
}

#[test]
fn swatch_takes_the_night_colors() {
    let night = Theme {
        accent: Color::rgb(1, 2, 3),
        ..Theme::default()
    };
    let s = PresetSwatch::of(&night);
    assert_eq!(s.accent, Color::rgb(1, 2, 3));
    assert_eq!(s.background, Theme::default().background);
}
