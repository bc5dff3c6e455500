//! The greeter's own compact theme: the first, smaller schema the greeter shipped
//! with (colors, wallpaper/logo, card size and the clock toggle), loaded the same
//! way — merged over a built-in default, with a bad color keeping the default.
use vstd::prelude::*;

use crate::color::parse_color;
use crate::theme::{overlay, overlay_color, overlay_text};

pub use crate::color::Color;

verus! {

/// The resolved theme the UI renders against. Every field has a built-in default.
/// The card radius and width are binary32 values held as their bit patterns.
#[derive(Debug, Clone, PartialEq, Eq)]
pub struct Theme {
    /// Full-bleed background image; absent (or a missing file) → solid `background`.
    pub wallpaper: Option<String>,
    /// Solid fill shown behind/instead of the wallpaper.
    pub background: Color,
    /// The frosted login card fill — translucent (low alpha) over the wallpaper.
    pub card: Color,
    /// Primary accent (focus, the sign-in button).
    pub accent: Color,
    /// Main text/field color.
    pub foreground: Color,
    /// Secondary text (status line, clock).
    pub muted: Color,
    /// Optional logo image shown in the card.
    pub logo: Option<String>,
    /// Card corner radius (px).
    pub corner_radius: u32,
    /// Card width (px).
    pub card_width: u32,
    /// Whether to show the clock in the card.
    pub show_clock: bool,
}

/// The on-disk form: every field optional, merged over the default.
#[derive(Debug, Clone, PartialEq, Eq)]
pub struct ThemeFile {
    pub wallpaper: Option<String>,
    pub background: Option<String>,
    pub card: Option<String>,
    pub accent: Option<String>,
    pub foreground: Option<String>,
    pub muted: Option<String>,
    pub logo: Option<String>,
    pub corner_radius: Option<u32>,
    pub card_width: Option<u32>,
    pub show_clock: Option<bool>,
}

/// The built-in default: a dark, Tokyo-Night-ish palette with a translucent card
/// and a soft blue accent.
pub open spec fn default_theme() -> Theme {
    Theme {
        wallpaper: None,
        background: Color { r: 0x1a, g: 0x1b, b: 0x26, a: 0xff },
        card: Color { r: 0x24, g: 0x28, b: 0x3b, a: 0xd0 },
        accent: Color { r: 0x7a, g: 0xa2, b: 0xf7, a: 0xff },
        foreground: Color { r: 0xc0, g: 0xca, b: 0xf5, a: 0xff },
        muted: Color { r: 0x82, g: 0x8b, b: 0xb8, a: 0xff },
        logo: None,
        corner_radius: 0x41600000,
        card_width: 0x43be0000,
        show_clock: true,
    }
}

/// A file that sets nothing.
pub open spec fn empty_file() -> ThemeFile {
    ThemeFile {
        wallpaper: None,
        background: None,
        card: None,
        accent: None,
        foreground: None,
        muted: None,
        logo: None,
        corner_radius: None,
        card_width: None,
        show_clock: None,
    }
}

impl Theme {
    /// This theme with every key the file sets overlaid; a color that does not
    /// parse keeps the current value.
    pub open spec fn merged_spec(self, file: ThemeFile) -> Theme {
        Theme {
            wallpaper: overlay_text(file.wallpaper, self.wallpaper),
            background: overlay_color(file.background, self.background),
            card: overlay_color(file.card, self.card),
            accent: overlay_color(file.accent, self.accent),
            foreground: overlay_color(file.foreground, self.foreground),
            muted: overlay_color(file.muted, self.muted),
            logo: overlay_text(file.logo, self.logo),
            corner_radius: overlay(file.corner_radius, self.corner_radius),
            card_width: overlay(file.card_width, self.card_width),
            show_clock: overlay(file.show_clock, self.show_clock),
        }
    }

    /// Overlay a parsed file onto this theme. A color that fails to parse keeps the
    /// existing value rather than discarding the whole config.
    pub fn merged(self, file: ThemeFile) -> (t: Theme)
        ensures
            t == self.merged_spec(file),
    {
        Theme {
            wallpaper: match file.wallpaper {
                Some(w) => Some(w),
                None => self.wallpaper,
            },
            background: keep_or_parse(&file.background, self.background),
            card: keep_or_parse(&file.card, self.card),
            accent: keep_or_parse(&file.accent, self.accent),
            foreground: keep_or_parse(&file.foreground, self.foreground),
            muted: keep_or_parse(&file.muted, self.muted),
            logo: match file.logo {
                Some(l) => Some(l),
                None => self.logo,
            },
            corner_radius: match file.corner_radius {
                Some(r) => r,
                None => self.corner_radius,
            },
            card_width: match file.card_width {
                Some(w) => w,
                None => self.card_width,
            },
            show_clock: match file.show_clock {
                Some(c) => c,
                None => self.show_clock,
            },
        }
    }

    /// Resolve the theme from the config's parse result, merged over the default.
    /// `None` (no readable file, or a malformed one) leaves the default standing.
    pub fn load(file: Option<ThemeFile>) -> (t: Theme)
        ensures
            t == (match file {
                Some(f) => default_theme().merged_spec(f),
                None => default_theme(),
            }),
    {
        match file {
            Some(f) => Theme::default().merged(f),
            None => Theme::default(),
        }
    }
}

fn keep_or_parse(raw: &Option<String>, current: Color) -> (c: Color)
    ensures
        c == overlay_color(*raw, current),
{
    match raw {
        Some(s) => match Color::parse(s.as_str()) {
            Some(c) => c,
            None => current,
        },
        None => current,
    }
}

impl Default for Theme {
    /// The built-in beautiful default. Renders fully even with no assets.
    fn default() -> (t: Theme)
        ensures
            t == default_theme(),
    {
        Theme {
            wallpaper: None,
            background: Color::rgb(0x1a, 0x1b, 0x26),
            card: Color::rgba(0x24, 0x28, 0x3b, 0xd0),
            accent: Color::rgb(0x7a, 0xa2, 0xf7),
            foreground: Color::rgb(0xc0, 0xca, 0xf5),
            muted: Color::rgb(0x82, 0x8b, 0xb8),
            logo: None,
            corner_radius: 0x41600000,
            card_width: 0x43be0000,
            show_clock: true,
        }
    }
}

impl Default for ThemeFile {
    /// A file that sets nothing.
    fn default() -> (f: ThemeFile)
        ensures
            f == empty_file(),
    {
        ThemeFile {
            wallpaper: None,
            background: None,
            card: None,
            accent: None,
            foreground: None,
            muted: None,
            logo: None,
            corner_radius: None,
            card_width: None,
            show_clock: None,
        }
    }
}

/// A file that sets nothing leaves any theme as it is.
pub proof fn lemma_empty_file_keeps_theme(t: Theme)
    ensures
        t.merged_spec(empty_file()) == t,
{
}

/// A file sets exactly the keys it names: merged over any theme, every key the
/// file sets is taken (a color when its text is `#rrggbb[aa]`), and every key it
/// leaves unset, or a color whose text does not parse, keeps the theme's value.
pub proof fn lemma_file_keys_override(t: Theme, f: ThemeFile)
    ensures
        ({
            let m = t.merged_spec(f);
            &&& f.wallpaper matches Some(x) ==> m.wallpaper == Some(x)
            &&& f.background matches Some(s) ==> (parse_color(s@) is Some ==> parse_color(s@) == Some(m.background))
            &&& f.card matches Some(s) ==> (parse_color(s@) is Some ==> parse_color(s@) == Some(m.card))
            &&& f.accent matches Some(s) ==> (parse_color(s@) is Some ==> parse_color(s@) == Some(m.accent))
            &&& f.foreground matches Some(s) ==> (parse_color(s@) is Some ==> parse_color(s@) == Some(m.foreground))
            &&& f.muted matches Some(s) ==> (parse_color(s@) is Some ==> parse_color(s@) == Some(m.muted))
            &&& f.logo matches Some(x) ==> m.logo == Some(x)
            &&& f.corner_radius matches Some(x) ==> m.corner_radius == x
            &&& f.card_width matches Some(x) ==> m.card_width == x
            &&& f.show_clock matches Some(x) ==> m.show_clock == x
            &&& f.wallpaper is None ==> m.wallpaper == t.wallpaper
            &&& f.logo is None ==> m.logo == t.logo
            &&& f.corner_radius is None ==> m.corner_radius == t.corner_radius
            &&& f.card_width is None ==> m.card_width == t.card_width
            &&& f.show_clock is None ==> m.show_clock == t.show_clock
            &&& (f.background is None || parse_color(f.background->0@) is None) ==> m.background == t.background
            &&& (f.card is None || parse_color(f.card->0@) is None) ==> m.card == t.card
            &&& (f.accent is None || parse_color(f.accent->0@) is None) ==> m.accent == t.accent
            &&& (f.foreground is None || parse_color(f.foreground->0@) is None) ==> m.foreground == t.foreground
            &&& (f.muted is None || parse_color(f.muted->0@) is None) ==> m.muted == t.muted
        }),
{
}

} // verus!
