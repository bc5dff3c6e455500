//! The greeter's look: a config-driven theme with a built-in default, shared by
//! the greeter and lock surfaces (which render it) and the settings editor (which
//! edits it). A config file is merged *over* the built-in theme, so a partial
//! file (just an `accent`, say) works; a file that cannot be read or parsed leaves
//! the built-in theme standing.
//!
//! There are two variants. Night is the config's top level over the built-in
//! night palette. Day is the built-in day palette with the config's shared
//! (structural) keys and the `[day]` table's per-variant keys.
use vstd::prelude::*;

use crate::color::{parse_color, Color};
use crate::modes::{
    mode_prefers_day, resolved_mode, CardPos, ClockStyle, FontWeight, GpuLevel, SkyMode,
    SpinnerStyle,
};
use crate::window::{hhmm_minutes, in_window, parse_hhmm, within};

verus! {

/// The value a file key gives: the file's value when it sets one, else the current one.
pub open spec fn overlay<T>(v: Option<T>, cur: T) -> T {
    match v {
        Some(x) => x,
        None => cur,
    }
}

/// An optional text key (a path, a font name, a clock format): set when the file sets it.
pub open spec fn overlay_text(v: Option<String>, cur: Option<String>) -> Option<String> {
    match v {
        Some(s) => Some(s),
        None => cur,
    }
}

/// A color key: the file's color when it parses, else the current one.
pub open spec fn overlay_color(v: Option<String>, cur: Color) -> Color {
    match v {
        Some(s) => match parse_color(s@) {
            Some(c) => c,
            None => cur,
        },
        None => cur,
    }
}

fn pick<T: Copy>(v: Option<T>, cur: T) -> (r: T)
    ensures
        r == overlay(v, cur),
{
    match v {
        Some(x) => x,
        None => cur,
    }
}

fn pick_text(v: &Option<String>, cur: Option<String>) -> (r: Option<String>)
    ensures
        r == overlay_text(*v, cur),
{
    match v {
        Some(s) => Some(s.clone()),
        None => cur,
    }
}

fn pick_color(v: &Option<String>, cur: Color) -> (r: Color)
    ensures
        r == overlay_color(*v, cur),
{
    match v {
        Some(s) => match Color::parse(s.as_str()) {
            Some(c) => c,
            None => cur,
        },
        None => cur,
    }
}

/// The resolved theme the UI renders against. Every field has a built-in default.
///
/// Asset paths are kept as text. Sizes, speeds and strengths are binary32
/// values held as their IEEE-754 bit patterns: the theme logic only carries them
/// from the config to the renderer and never computes with them.
#[derive(Debug, Clone, PartialEq, Eq)]
pub struct Theme {
    /// Full-bleed background image; absent (or a missing file) → solid `background`.
    pub wallpaper: Option<String>,
    /// Solid fill shown behind/instead of the wallpaper.
    pub background: Color,
    /// The frosted login card fill — translucent (low alpha) over the wallpaper.
    pub card: Color,
    /// Primary accent (focus, the sign-in button).
    pub accent: Color,
    /// Main text/field color.
    pub foreground: Color,
    /// Secondary text (status line, date, placeholders).
    pub muted: Color,
    /// Input field fill (slightly lifted from the card).
    pub field: Color,
    /// Optional logo image shown in the card.
    pub logo: Option<String>,
    /// Optional font family name (must be installed system-wide); absent → stock.
    pub font: Option<String>,
    /// Card corner radius (px).
    pub corner_radius: u32,
    /// Card width (px).
    pub card_width: u32,
    /// Where the card sits on screen. Shared.
    pub card_pos: CardPos,
    /// Whether to show the clock + date in the card.
    pub show_clock: bool,
    /// Whether to run the animated sky (twinkling stars + drifting comet). Off → a
    /// still wallpaper, like the battery half of the Plasma comet wallpaper.
    pub animate: bool,
    /// True for the light (Tokyo Night Day) variant — the sky recolors for a light
    /// background. Set by which built-in this resolved from, not from the file.
    pub is_day: bool,
    /// Which sky scene to render. `Auto` = day/night by clock; others force a scene.
    /// Shared.
    pub sky_mode: SkyMode,
    /// Accessibility: when true, all motion is stilled at load (no sky animation,
    /// breathing, parallax, grain, fade, or spinner motion). Shared.
    pub reduced_motion: bool,
    /// Global GPU-budget level. Bundles render-cost levers (shader detail,
    /// fps cap, blur gating). Global, never per-scene/per-preset. Shared. `High` =
    /// current look unchanged.
    pub gpu_level: GpuLevel,
    /// Comet-spinner head-glow intensity (0–1). Per variant: bright glow blends on a
    /// dark card but bands on a light one, so day defaults low. 0 = crisp, no bloom.
    pub spinner_glow: u32,
    /// Comet-spinner rotation speed (rad/s). Shared across variants.
    pub spinner_speed: u32,
    /// The rotating comet's color (head + trail). Per variant.
    pub spinner_comet: Color,
    /// The static ring of dots the comet passes over. Per variant.
    pub spinner_track: Color,
    /// Trail length, 0.2–1.0 (shorter = crisper, fewer overlapping dots — helps on a
    /// light card; longer = a softer glowing ribbon, lovely on dark). Per variant.
    pub spinner_trail: u32,
    /// The drifting *background-sky* comet's color — distinct from `spinner_comet`
    /// (which is tuned for the card emblem; the sky comet sits on the sky). Per variant.
    pub comet_color: Color,
    /// The sky glow/haze tint — the night sky-glow color and the daytime sun/zenith
    /// tint. Per variant (indigo by night, sky-blue by day by default).
    pub glow_color: Color,
    /// Sky glow strength: the haze at night, the sun-halo by day (0–1+). Per variant.
    pub sky_glow: u32,
    /// Star field density, 0–1 (higher = more stars). Shared.
    pub star_density: u32,
    /// Star twinkle-speed multiplier (1 = default). Shared.
    pub star_twinkle: u32,
    /// Whether the drifting background comet runs. Shared.
    pub comet_enabled: bool,
    /// Seconds between background-comet sweeps (lower = more frequent). Shared.
    pub comet_interval: u32,
    /// Daytime cloud coverage multiplier (1 = default; 0 = clear sky). Shared.
    pub cloud_amount: u32,
    /// Daytime cloud drift-speed multiplier (1 = default). Shared.
    pub cloud_speed: u32,
    /// Daytime sun horizontal position, 0–1 (fraction of width; 0 = left edge).
    /// Shared (only the day sky draws a sun).
    pub sun_x: u32,
    /// Daytime sun vertical position, 0–1 (0 = top). Shared (day-only effect).
    pub sun_y: u32,
    /// Daytime sun halo radius (bigger = wider, softer glow). Shared (day-only).
    pub sun_size: u32,
    /// Daytime sun halo intensity, 0–1 (0 = no bloom). Shared (day-only effect).
    pub sun_intensity: u32,
    /// Daytime sun halo tint (warm by default). Shared (only the day sky has a sun).
    pub sun_color: Color,
    /// Night sky-glow center, 0–1 UV — x. Shared (only the night sky has this glow).
    pub glow_x: u32,
    /// Night sky-glow center, 0–1 UV — y. Shared.
    pub glow_y: u32,
    /// Daytime horizon-haze strength, 0–1. Shared (day-only effect).
    pub day_haze: u32,
    /// Number of night star layers (1–5; rounded). Shared.
    pub star_layers: u32,
    /// Star size multiplier (1 = default; bigger = larger stars). Shared.
    pub star_size: u32,
    /// Night nebula drift-speed multiplier (1 = default). Shared.
    pub nebula_speed: u32,
    /// Sky-comet path rotation in radians (0 = the default diagonal). Shared.
    pub comet_tilt: u32,
    /// Pause (seconds) after each sky-comet sweep. Shared.
    pub comet_pause: u32,
    /// Sky-comet width multiplier (1 = default). Shared.
    pub comet_width: u32,
    /// Daytime cloud sun-lit color. Shared (day-only effect).
    pub cloud_lit: Color,
    /// Daytime cloud shadowed-underside color. Shared (day-only effect).
    pub cloud_shadow: Color,
    /// Cursor-parallax strength for the starfield (0 = off; ~1 = subtle). Shared.
    pub cursor_parallax: u32,
    /// Night sky-glow breathing depth (0 = steady, the default; ~1 = a gentle pulse).
    /// Shared; cleared by reduced-motion.
    pub glow_pulse: u32,
    /// Synthwave grid scroll speed (toward the viewer).
    pub synthwave_grid_speed: u32,
    /// Synthwave grid line density (higher = more lines).
    pub synthwave_grid_density: u32,
    /// Synthwave grid perspective spread (higher = wider toward the front).
    pub synthwave_grid_perspective: u32,
    /// Synthwave grid glow intensity.
    pub synthwave_grid_glow: u32,
    /// Synthwave sun radius (fraction of height).
    pub synthwave_sun_size: u32,
    /// Synthwave sun horizontal-stripe frequency.
    pub synthwave_sun_stripes: u32,
    /// Synthwave sun bloom strength.
    pub synthwave_sun_bloom: u32,
    /// Synthwave horizon height (0 = top … 1 = bottom).
    pub synthwave_horizon: u32,
    /// Synthwave neon grid colour.
    pub synthwave_grid_color: Color,
    /// Synthwave upper-sky colour.
    pub synthwave_sky_top: Color,
    /// Synthwave lower-sky / sun-base colour.
    pub synthwave_sky_bottom: Color,
    /// Storm lightning rate (strike windows per second).
    pub storm_lightning_rate: u32,
    /// Storm per-window strike chance (0–1).
    pub storm_strike_chance: u32,
    /// Storm cloud-tint density multiplier.
    pub storm_cloud_density: u32,
    /// Storm lightning-bolt colour.
    pub storm_bolt_color: Color,
    /// Storm whole-sky flash colour.
    pub storm_flash_color: Color,
    /// Rain fall speed (base; layers add to it).
    pub rain_fall_speed: u32,
    /// Rain density (0 = none … ~0.3 = heavy).
    pub rain_density: u32,
    /// Rain diagonal slant.
    pub rain_slant: u32,
    /// Rain streak brightness.
    pub rain_intensity: u32,
    /// Rain streak colour.
    pub rain_color: Color,
    /// Snow fall speed (base; layers add to it).
    pub snow_fall_speed: u32,
    /// Snow density (0 = none … ~0.3 = heavy).
    pub snow_density: u32,
    /// Snow horizontal sway amount.
    pub snow_sway: u32,
    /// Snow flake size (higher = smaller flakes).
    pub snow_flake_size: u32,
    /// Snow flake colour.
    pub snow_color: Color,
    /// Fire rise speed (flames scroll upward).
    pub fire_rise_speed: u32,
    /// Fire flame height (lower = taller flames).
    pub fire_flame_height: u32,
    /// Fire base flame colour.
    pub fire_flame_color: Color,
    /// Fire hot-tip colour.
    pub fire_tip_color: Color,
    /// Aurora curtain drift speed.
    pub aurora_speed: u32,
    /// Aurora curtain drop-off (lower = taller curtains hanging down).
    pub aurora_drop: u32,
    /// Aurora vertical ray frequency (shimmer detail).
    pub aurora_ray_freq: u32,
    /// Aurora overall brightness.
    pub aurora_intensity: u32,
    /// Aurora green curtain colour.
    pub aurora_green: Color,
    /// Aurora magenta curtain colour.
    pub aurora_magenta: Color,
    /// Plasma flow speed.
    pub plasma_speed: u32,
    /// Plasma pattern scale (higher = finer cells).
    pub plasma_scale: u32,
    /// Plasma colour saturation (0 = grey, 0.5 = full rainbow).
    pub plasma_saturation: u32,
    /// Plasma tint multiplier (white = the raw rainbow).
    pub plasma_tint: Color,
    /// Water flow speed.
    pub water_speed: u32,
    /// Water ripple scale (higher = finer ripples).
    pub water_scale: u32,
    /// Water domain-warp strength (organic distortion).
    pub water_ripple: u32,
    /// Water caustic brightness.
    pub water_caustic: u32,
    /// Water caustic web colour.
    pub water_caustic_color: Color,
    /// Water deep (top) colour.
    pub water_deep: Color,
    /// Water shallow (bottom) colour.
    pub water_shallow: Color,
    /// Card vertical-gradient strength (0 = flat fill; ~1 = a lit top sheen). Shared.
    pub card_gradient: u32,
    /// Film-grain strength over the whole sky (0 = off). Shared.
    pub grain: u32,
    /// Vignette strength — screen-edge darkening (0 = off). Shared.
    pub vignette: u32,
    /// True backdrop blur behind the card (a frosted-glass sample of the sky). Most
    /// visible with a translucent card; costs a little GPU. Shared.
    pub card_blur: bool,
    /// Card spinner size in px. Shared.
    pub spinner_size: u32,
    /// Spinner head pulse/breathing speed (1 = default). Shared.
    pub spinner_pulse: u32,
    /// Spinner comet orbit radius (fraction of the emblem; default 0.30). Shared.
    pub spinner_orbit: u32,
    /// The card loading-emblem style (comet/ring/dots/pulse). Shared.
    pub spinner_style: SpinnerStyle,
    /// Card drop-shadow blur radius (px). Shared.
    pub card_shadow_blur: u32,
    /// Card drop-shadow opacity, 0–1. Shared.
    pub card_shadow_opacity: u32,
    /// Card accent-hairline breathing speed (1 = default). Shared.
    pub accent_breathing: u32,
    /// Input/button corner radius (px). Shared.
    pub field_radius: u32,
    /// Status-line color when a login fails (a warm red by default). Per variant.
    pub error_color: Color,
    /// Backdrop fill behind the logo / comet spinner — a rounded box. Transparent by
    /// default (invisible); set an alpha to show a tile behind the emblem. Per variant.
    pub logo_box: Color,
    /// Corner radius of the logo backdrop box (px). Shared.
    pub logo_box_radius: u32,
    /// 24-hour clock (`true`) vs 12-hour. Shared.
    pub clock_24h: bool,
    /// Show seconds on the clock (`HH:MM:SS`). Shared.
    pub clock_seconds: bool,
    /// Clock font size (px) — also the analog face scale. Shared.
    pub clock_size: u32,
    /// Digital readout vs a drawn analog clock face. Shared.
    pub clock_style: ClockStyle,
    /// Optional `strftime` format for the digital clock (e.g. `"%a %H:%M"`); absent
    /// uses the built-in `clock_24h`/`clock_seconds` formatting. Shared.
    pub clock_format: Option<String>,
    /// Text size multiplier for the whole card (1 = default; >1 = large-text). Shared.
    pub font_scale: u32,
    /// Card text weight (applied as the greeter's default font weight). Shared.
    pub font_weight: FontWeight,
    /// Launch fade-in duration (ms). Shared.
    pub fade_ms: u32,
    /// Night sky-glow falloff (higher = tighter halo). Shared.
    pub glow_falloff: u32,
    /// Night nebula cloud amount, 0–1. Shared.
    pub nebula_amount: u32,
    /// Background-comet tail fade rate (higher = shorter tail). Shared.
    pub comet_tail_decay: u32,
    /// Spinner orbit-ring intensity, 0–1. Shared.
    pub spinner_ring: u32,
}

/// The on-disk form: every field optional, merged over the built-in default.
/// Values are the file's raw text for colors and paths; numbers are bit patterns.
#[derive(Debug, Clone, PartialEq, Eq)]
pub struct ThemeFile {
    pub wallpaper: Option<String>,
    pub background: Option<String>,
    pub card: Option<String>,
    pub accent: Option<String>,
    pub foreground: Option<String>,
    pub muted: Option<String>,
    pub field: Option<String>,
    pub font: Option<String>,
    pub logo: Option<String>,
    pub corner_radius: Option<u32>,
    pub card_width: Option<u32>,
    pub card_pos: Option<CardPos>,
    pub show_clock: Option<bool>,
    pub animate: Option<bool>,
    pub sky_mode: Option<SkyMode>,
    pub reduced_motion: Option<bool>,
    pub gpu_level: Option<GpuLevel>,
    pub spinner_glow: Option<u32>,
    pub spinner_speed: Option<u32>,
    pub spinner_comet: Option<String>,
    pub spinner_track: Option<String>,
    pub spinner_trail: Option<u32>,
    pub comet_color: Option<String>,
    pub glow_color: Option<String>,
    pub sky_glow: Option<u32>,
    pub star_density: Option<u32>,
    pub star_twinkle: Option<u32>,
    pub comet_enabled: Option<bool>,
    pub comet_interval: Option<u32>,
    pub cloud_amount: Option<u32>,
    pub cloud_speed: Option<u32>,
    pub sun_x: Option<u32>,
    pub sun_y: Option<u32>,
    pub sun_size: Option<u32>,
    pub sun_intensity: Option<u32>,
    pub sun_color: Option<String>,
    pub glow_x: Option<u32>,
    pub glow_y: Option<u32>,
    pub day_haze: Option<u32>,
    pub star_layers: Option<u32>,
    pub star_size: Option<u32>,
    pub nebula_speed: Option<u32>,
    pub comet_tilt: Option<u32>,
    pub comet_pause: Option<u32>,
    pub comet_width: Option<u32>,
    pub cloud_lit: Option<String>,
    pub cloud_shadow: Option<String>,
    pub cursor_parallax: Option<u32>,
    pub glow_pulse: Option<u32>,
    pub synthwave_grid_speed: Option<u32>,
    pub synthwave_grid_density: Option<u32>,
    pub synthwave_grid_perspective: Option<u32>,
    pub synthwave_grid_glow: Option<u32>,
    pub synthwave_sun_size: Option<u32>,
    pub synthwave_sun_stripes: Option<u32>,
    pub synthwave_sun_bloom: Option<u32>,
    pub synthwave_horizon: Option<u32>,
    pub synthwave_grid_color: Option<String>,
    pub synthwave_sky_top: Option<String>,
    pub synthwave_sky_bottom: Option<String>,
    pub storm_lightning_rate: Option<u32>,
    pub storm_strike_chance: Option<u32>,
    pub storm_cloud_density: Option<u32>,
    pub storm_bolt_color: Option<String>,
    pub storm_flash_color: Option<String>,
    pub rain_fall_speed: Option<u32>,
    pub rain_density: Option<u32>,
    pub rain_slant: Option<u32>,
    pub rain_intensity: Option<u32>,
    pub rain_color: Option<String>,
    pub snow_fall_speed: Option<u32>,
    pub snow_density: Option<u32>,
    pub snow_sway: Option<u32>,
    pub snow_flake_size: Option<u32>,
    pub snow_color: Option<String>,
    pub fire_rise_speed: Option<u32>,
    pub fire_flame_height: Option<u32>,
    pub fire_flame_color: Option<String>,
    pub fire_tip_color: Option<String>,
    pub aurora_speed: Option<u32>,
    pub aurora_drop: Option<u32>,
    pub aurora_ray_freq: Option<u32>,
    pub aurora_intensity: Option<u32>,
    pub aurora_green: Option<String>,
    pub aurora_magenta: Option<String>,
    pub plasma_speed: Option<u32>,
    pub plasma_scale: Option<u32>,
    pub plasma_saturation: Option<u32>,
    pub plasma_tint: Option<String>,
    pub water_speed: Option<u32>,
    pub water_scale: Option<u32>,
    pub water_ripple: Option<u32>,
    pub water_caustic: Option<u32>,
    pub water_caustic_color: Option<String>,
    pub water_deep: Option<String>,
    pub water_shallow: Option<String>,
    pub card_gradient: Option<u32>,
    pub grain: Option<u32>,
    pub vignette: Option<u32>,
    pub card_blur: Option<bool>,
    pub spinner_orbit: Option<u32>,
    pub spinner_style: Option<SpinnerStyle>,
    pub spinner_size: Option<u32>,
    pub spinner_pulse: Option<u32>,
    pub card_shadow_blur: Option<u32>,
    pub card_shadow_opacity: Option<u32>,
    pub accent_breathing: Option<u32>,
    pub field_radius: Option<u32>,
    pub error_color: Option<String>,
    pub logo_box: Option<String>,
    pub logo_box_radius: Option<u32>,
    pub clock_24h: Option<bool>,
    pub clock_seconds: Option<bool>,
    pub clock_size: Option<u32>,
    pub clock_style: Option<ClockStyle>,
    pub clock_format: Option<String>,
    pub font_scale: Option<u32>,
    pub font_weight: Option<FontWeight>,
    pub fade_ms: Option<u32>,
    pub glow_falloff: Option<u32>,
    pub nebula_amount: Option<u32>,
    pub comet_tail_decay: Option<u32>,
    pub spinner_ring: Option<u32>,
    /// Local day window for the greeter's auto day/night, `"HH:MM"` (default
    /// 07:00–19:00). Inside the window the greeter uses the day palette.
    pub day_start: Option<String>,
    pub day_end: Option<String>,
    /// `[day]` table — overrides for the day variant's per-variant keys.
    pub day: Option<DayFile>,
}

/// The `[day]` override table: the visual (per-variant) keys only.
#[derive(Debug, Clone, PartialEq, Eq)]
pub struct DayFile {
    pub wallpaper: Option<String>,
    pub background: Option<String>,
    pub card: Option<String>,
    pub accent: Option<String>,
    pub foreground: Option<String>,
    pub muted: Option<String>,
    pub field: Option<String>,
    pub logo: Option<String>,
    pub spinner_glow: Option<u32>,
    pub spinner_comet: Option<String>,
    pub spinner_track: Option<String>,
    pub spinner_trail: Option<u32>,
    pub comet_color: Option<String>,
    pub glow_color: Option<String>,
    pub sky_glow: Option<u32>,
    pub error_color: Option<String>,
    pub logo_box: Option<String>,
}

/// The per-variant keys of a theme: what differs between the night and day palettes.
#[derive(Debug, Clone, PartialEq, Eq)]
pub struct VariantPalette {
    pub wallpaper: Option<String>,
    pub background: Color,
    pub card: Color,
    pub accent: Color,
    pub foreground: Color,
    pub muted: Color,
    pub field: Color,
    pub logo: Option<String>,
    pub spinner_glow: u32,
    pub spinner_comet: Color,
    pub spinner_track: Color,
    pub spinner_trail: u32,
    pub comet_color: Color,
    pub glow_color: Color,
    pub sky_glow: u32,
    pub error_color: Color,
    pub logo_box: Color,
}

/// The built-in night palette: a dark, Tokyo-Night look with a translucent card.
pub open spec fn night_theme() -> Theme {
    Theme {
        wallpaper: None,
        background: Color { r: 0x1a, g: 0x1b, b: 0x26, a: 0xff },
        card: Color { r: 0x16, g: 0x16, b: 0x1e, a: 0xd8 },
        accent: Color { r: 0x7a, g: 0xa2, b: 0xf7, a: 0xff },
        foreground: Color { r: 0xc0, g: 0xca, b: 0xf5, a: 0xff },
        muted: Color { r: 0x56, g: 0x5f, b: 0x89, a: 0xff },
        field: Color { r: 0x29, g: 0x2e, b: 0x42, a: 0xff },
        logo: None,
        font: None,
        corner_radius: 0x41800000,
        card_width: 0x43960000,
        card_pos: CardPos::Center,
        show_clock: true,
        animate: true,
        is_day: false,
        sky_mode: SkyMode::Auto,
        reduced_motion: false,
        gpu_level: GpuLevel::High,
        spinner_glow: 0x3f800000,
        spinner_speed: 0x40200000,
        spinner_comet: Color { r: 0x7d, g: 0xcf, b: 0xff, a: 0xff },
        spinner_track: Color { r: 0x7a, g: 0xa2, b: 0xf7, a: 0xff },
        spinner_trail: 0x3f800000,
        comet_color: Color { r: 0x7d, g: 0xcf, b: 0xff, a: 0xff },
        glow_color: Color { r: 0x3d, g: 0x59, b: 0xa1, a: 0xff },
        sky_glow: 0x3f000000,
        star_density: 0x3ef0a3d7,
        star_twinkle: 0x3f800000,
        comet_enabled: true,
        comet_interval: 0x41180000,
        cloud_amount: 0x3f800000,
        cloud_speed: 0x3f800000,
        sun_x: 0x3e75c28f,
        sun_y: 0x3e3851ec,
        sun_size: 0x3e800000,
        sun_intensity: 0x3ec28f5c,
        sun_color: Color { r: 0xff, g: 0xe8, b: 0xb0, a: 0xff },
        glow_x: 0x3f000000,
        glow_y: 0x3ee147ae,
        day_haze: 0x3e800000,
        star_layers: 0x40400000,
        star_size: 0x3f800000,
        nebula_speed: 0x3f800000,
        comet_tilt: 0x00000000,
        comet_pause: 0x40200000,
        comet_width: 0x3f800000,
        cloud_lit: Color { r: 0xff, g: 0xff, b: 0xff, a: 0xff },
        cloud_shadow: Color { r: 0xb4, g: 0xc2, b: 0xdb, a: 0xff },
        cursor_parallax: 0x3f800000,
        glow_pulse: 0x00000000,
        synthwave_grid_speed: 0x3f99999a,
        synthwave_grid_density: 0x3f0ccccd,
        synthwave_grid_perspective: 0x3f19999a,
        synthwave_grid_glow: 0x3f333333,
        synthwave_sun_size: 0x3e6147ae,
        synthwave_sun_stripes: 0x42f00000,
        synthwave_sun_bloom: 0x3e800000,
        synthwave_horizon: 0x3f0f5c29,
        synthwave_grid_color: Color { r: 0x00, g: 0xe6, b: 0xff, a: 0xff },
        synthwave_sky_top: Color { r: 0x29, g: 0x0d, b: 0x47, a: 0xff },
        synthwave_sky_bottom: Color { r: 0xf2, g: 0x45, b: 0x8c, a: 0xff },
        storm_lightning_rate: 0x3f4ccccd,
        storm_strike_chance: 0x3ea3d70a,
        storm_cloud_density: 0x3f800000,
        storm_bolt_color: Color { r: 0xd9, g: 0xe6, b: 0xff, a: 0xff },
        storm_flash_color: Color { r: 0x8c, g: 0x99, b: 0xcc, a: 0xff },
        rain_fall_speed: 0x40a00000,
        rain_density: 0x3d8f5c29,
        rain_slant: 0x40800000,
        rain_intensity: 0x3f000000,
        rain_color: Color { r: 0x8c, g: 0x9e, b: 0xb8, a: 0xff },
        snow_fall_speed: 0x3f666666,
        snow_density: 0x3e0f5c29,
        snow_sway: 0x3f19999a,
        snow_flake_size: 0x41900000,
        snow_color: Color { r: 0xff, g: 0xff, b: 0xff, a: 0xff },
        fire_rise_speed: 0x40000000,
        fire_flame_height: 0x3e6147ae,
        fire_flame_color: Color { r: 0xff, g: 0x4b, b: 0x0d, a: 0xff },
        fire_tip_color: Color { r: 0xff, g: 0xe6, b: 0x80, a: 0xff },
        aurora_speed: 0x3df5c28f,
        aurora_drop: 0x404ccccd,
        aurora_ray_freq: 0x42480000,
        aurora_intensity: 0x3f19999a,
        aurora_green: Color { r: 0x2e, g: 0xff, b: 0xa8, a: 0xff },
        aurora_magenta: Color { r: 0x9e, g: 0x4d, b: 0xff, a: 0xff },
        plasma_speed: 0x3f000000,
        plasma_scale: 0x41000000,
        plasma_saturation: 0x3f000000,
        plasma_tint: Color { r: 0xff, g: 0xff, b: 0xff, a: 0xff },
        water_speed: 0x3f19999a,
        water_scale: 0x40a00000,
        water_ripple: 0x3f19999a,
        water_caustic: 0x3f59999a,
        water_caustic_color: Color { r: 0x73, g: 0xf2, b: 0xff, a: 0xff },
        water_deep: Color { r: 0x00, g: 0x1f, b: 0x38, a: 0xff },
        water_shallow: Color { r: 0x00, g: 0x4d, b: 0x6b, a: 0xff },
        card_gradient: 0x3ee66666,
        grain: 0x00000000,
        vignette: 0x3e4ccccd,
        card_blur: true,
        spinner_size: 0x42500000,
        spinner_pulse: 0x3f800000,
        spinner_orbit: 0x3e99999a,
        spinner_style: SpinnerStyle::Comet,
        card_shadow_blur: 0x42080000,
        card_shadow_opacity: 0x3ee66666,
        accent_breathing: 0x3f800000,
        field_radius: 0x41200000,
        error_color: Color { r: 0xf7, g: 0x76, b: 0x8e, a: 0xff },
        logo_box: Color { r: 0x00, g: 0x00, b: 0x00, a: 0x00 },
        logo_box_radius: 0x41600000,
        clock_24h: true,
        clock_seconds: false,
        clock_size: 0x42600000,
        clock_style: ClockStyle::Digital,
        clock_format: None,
        font_scale: 0x3f800000,
        font_weight: FontWeight::Regular,
        fade_ms: 0x43c00000,
        glow_falloff: 0x404ccccd,
        nebula_amount: 0x3df5c28f,
        comet_tail_decay: 0x41100000,
        spinner_ring: 0x3dcccccd,
    }
}

/// The built-in day palette (Tokyo Night Day): the light twin of [`night_theme`].
pub open spec fn day_theme() -> Theme {
    Theme {
        wallpaper: None,
        background: Color { r: 0xe1, g: 0xe2, b: 0xe7, a: 0xff },
        card: Color { r: 0xf4, g: 0xf6, b: 0xfb, a: 0x26 },
        accent: Color { r: 0x2e, g: 0x7d, b: 0xe9, a: 0xff },
        foreground: Color { r: 0x34, g: 0x3b, b: 0x58, a: 0xff },
        muted: Color { r: 0x54, g: 0x5c, b: 0x7e, a: 0xff },
        field: Color { r: 0xff, g: 0xff, b: 0xff, a: 0x99 },
        logo: None,
        font: None,
        corner_radius: 0x41800000,
        card_width: 0x43960000,
        card_pos: CardPos::Center,
        show_clock: true,
        animate: true,
        is_day: true,
        sky_mode: SkyMode::Auto,
        reduced_motion: false,
        gpu_level: GpuLevel::High,
        spinner_glow: 0x00000000,
        spinner_speed: 0x40200000,
        spinner_comet: Color { r: 0x21, g: 0x46, b: 0x93, a: 0xff },
        spinner_track: Color { r: 0x2e, g: 0x7d, b: 0xe9, a: 0xff },
        spinner_trail: 0x3f0ccccd,
        comet_color: Color { r: 0x6f, g: 0x9f, b: 0xe0, a: 0xff },
        glow_color: Color { r: 0x8f, g: 0xb6, b: 0xff, a: 0xff },
        sky_glow: 0x3f0ccccd,
        star_density: 0x3ef0a3d7,
        star_twinkle: 0x3f800000,
        comet_enabled: true,
        comet_interval: 0x41180000,
        cloud_amount: 0x3f800000,
        cloud_speed: 0x3f800000,
        sun_x: 0x3e75c28f,
        sun_y: 0x3e3851ec,
        sun_size: 0x3e800000,
        sun_intensity: 0x3ec28f5c,
        sun_color: Color { r: 0xff, g: 0xe8, b: 0xb0, a: 0xff },
        glow_x: 0x3f000000,
        glow_y: 0x3ee147ae,
        day_haze: 0x3e800000,
        star_layers: 0x40400000,
        star_size: 0x3f800000,
        nebula_speed: 0x3f800000,
        comet_tilt: 0x00000000,
        comet_pause: 0x40200000,
        comet_width: 0x3f800000,
        cloud_lit: Color { r: 0xff, g: 0xff, b: 0xff, a: 0xff },
        cloud_shadow: Color { r: 0xb4, g: 0xc2, b: 0xdb, a: 0xff },
        cursor_parallax: 0x3f800000,
        glow_pulse: 0x00000000,
        synthwave_grid_speed: 0x3f99999a,
        synthwave_grid_density: 0x3f0ccccd,
        synthwave_grid_perspective: 0x3f19999a,
        synthwave_grid_glow: 0x3f333333,
        synthwave_sun_size: 0x3e6147ae,
        synthwave_sun_stripes: 0x42f00000,
        synthwave_sun_bloom: 0x3e800000,
        synthwave_horizon: 0x3f0f5c29,
        synthwave_grid_color: Color { r: 0x00, g: 0xe6, b: 0xff, a: 0xff },
        synthwave_sky_top: Color { r: 0x29, g: 0x0d, b: 0x47, a: 0xff },
        synthwave_sky_bottom: Color { r: 0xf2, g: 0x45, b: 0x8c, a: 0xff },
        storm_lightning_rate: 0x3f4ccccd,
        storm_strike_chance: 0x3ea3d70a,
        storm_cloud_density: 0x3f800000,
        storm_bolt_color: Color { r: 0xd9, g: 0xe6, b: 0xff, a: 0xff },
        storm_flash_color: Color { r: 0x8c, g: 0x99, b: 0xcc, a: 0xff },
        rain_fall_speed: 0x40a00000,
        rain_density: 0x3d8f5c29,
        rain_slant: 0x40800000,
        rain_intensity: 0x3f000000,
        rain_color: Color { r: 0x8c, g: 0x9e, b: 0xb8, a: 0xff },
        snow_fall_speed: 0x3f666666,
        snow_density: 0x3e0f5c29,
        snow_sway: 0x3f19999a,
        snow_flake_size: 0x41900000,
        snow_color: Color { r: 0xff, g: 0xff, b: 0xff, a: 0xff },
        fire_rise_speed: 0x40000000,
        fire_flame_height: 0x3e6147ae,
        fire_flame_color: Color { r: 0xff, g: 0x4b, b: 0x0d, a: 0xff },
        fire_tip_color: Color { r: 0xff, g: 0xe6, b: 0x80, a: 0xff },
        aurora_speed: 0x3df5c28f,
        aurora_drop: 0x404ccccd,
        aurora_ray_freq: 0x42480000,
        aurora_intensity: 0x3f19999a,
        aurora_green: Color { r: 0x2e, g: 0xff, b: 0xa8, a: 0xff },
        aurora_magenta: Color { r: 0x9e, g: 0x4d, b: 0xff, a: 0xff },
        plasma_speed: 0x3f000000,
        plasma_scale: 0x41000000,
        plasma_saturation: 0x3f000000,
        plasma_tint: Color { r: 0xff, g: 0xff, b: 0xff, a: 0xff },
        water_speed: 0x3f19999a,
        water_scale: 0x40a00000,
        water_ripple: 0x3f19999a,
        water_caustic: 0x3f59999a,
        water_caustic_color: Color { r: 0x73, g: 0xf2, b: 0xff, a: 0xff },
        water_deep: Color { r: 0x00, g: 0x1f, b: 0x38, a: 0xff },
        water_shallow: Color { r: 0x00, g: 0x4d, b: 0x6b, a: 0xff },
        card_gradient: 0x3ee66666,
        grain: 0x00000000,
        vignette: 0x3e4ccccd,
        card_blur: true,
        spinner_size: 0x42500000,
        spinner_pulse: 0x3f800000,
        spinner_orbit: 0x3e99999a,
        spinner_style: SpinnerStyle::Comet,
        card_shadow_blur: 0x42080000,
        card_shadow_opacity: 0x3ee66666,
        accent_breathing: 0x3f800000,
        field_radius: 0x41200000,
        error_color: Color { r: 0xc0, g: 0x33, b: 0x4d, a: 0xff },
        logo_box: Color { r: 0x00, g: 0x00, b: 0x00, a: 0x00 },
        logo_box_radius: 0x41600000,
        clock_24h: true,
        clock_seconds: false,
        clock_size: 0x42600000,
        clock_style: ClockStyle::Digital,
        clock_format: None,
        font_scale: 0x3f800000,
        font_weight: FontWeight::Regular,
        fade_ms: 0x43c00000,
        glow_falloff: 0x404ccccd,
        nebula_amount: 0x3df5c28f,
        comet_tail_decay: 0x41100000,
        spinner_ring: 0x3dcccccd,
    }
}

/// A file that sets nothing.
pub open spec fn empty_file() -> ThemeFile {
    ThemeFile {
        wallpaper: None,
        background: None,
        card: None,
        accent: None,
        foreground: None,
        muted: None,
        field: None,
        font: None,
        logo: None,
        corner_radius: None,
        card_width: None,
        card_pos: None,
        show_clock: None,
        animate: None,
        sky_mode: None,
        reduced_motion: None,
        gpu_level: None,
        spinner_glow: None,
        spinner_speed: None,
        spinner_comet: None,
        spinner_track: None,
        spinner_trail: None,
        comet_color: None,
        glow_color: None,
        sky_glow: None,
        star_density: None,
        star_twinkle: None,
        comet_enabled: None,
        comet_interval: None,
        cloud_amount: None,
        cloud_speed: None,
        sun_x: None,
        sun_y: None,
        sun_size: None,
        sun_intensity: None,
        sun_color: None,
        glow_x: None,
        glow_y: None,
        day_haze: None,
        star_layers: None,
        star_size: None,
        nebula_speed: None,
        comet_tilt: None,
        comet_pause: None,
        comet_width: None,
        cloud_lit: None,
        cloud_shadow: None,
        cursor_parallax: None,
        glow_pulse: None,
        synthwave_grid_speed: None,
        synthwave_grid_density: None,
        synthwave_grid_perspective: None,
        synthwave_grid_glow: None,
        synthwave_sun_size: None,
        synthwave_sun_stripes: None,
        synthwave_sun_bloom: None,
        synthwave_horizon: None,
        synthwave_grid_color: None,
        synthwave_sky_top: None,
        synthwave_sky_bottom: None,
        storm_lightning_rate: None,
        storm_strike_chance: None,
        storm_cloud_density: None,
        storm_bolt_color: None,
        storm_flash_color: None,
        rain_fall_speed: None,
        rain_density: None,
        rain_slant: None,
        rain_intensity: None,
        rain_color: None,
        snow_fall_speed: None,
        snow_density: None,
        snow_sway: None,
        snow_flake_size: None,
        snow_color: None,
        fire_rise_speed: None,
        fire_flame_height: None,
        fire_flame_color: None,
        fire_tip_color: None,
        aurora_speed: None,
        aurora_drop: None,
        aurora_ray_freq: None,
        aurora_intensity: None,
        aurora_green: None,
        aurora_magenta: None,
        plasma_speed: None,
        plasma_scale: None,
        plasma_saturation: None,
        plasma_tint: None,
        water_speed: None,
        water_scale: None,
        water_ripple: None,
        water_caustic: None,
        water_caustic_color: None,
        water_deep: None,
        water_shallow: None,
        card_gradient: None,
        grain: None,
        vignette: None,
        card_blur: None,
        spinner_orbit: None,
        spinner_style: None,
        spinner_size: None,
        spinner_pulse: None,
        card_shadow_blur: None,
        card_shadow_opacity: None,
        accent_breathing: None,
        field_radius: None,
        error_color: None,
        logo_box: None,
        logo_box_radius: None,
        clock_24h: None,
        clock_seconds: None,
        clock_size: None,
        clock_style: None,
        clock_format: None,
        font_scale: None,
        font_weight: None,
        fade_ms: None,
        glow_falloff: None,
        nebula_amount: None,
        comet_tail_decay: None,
        spinner_ring: None,
        day_start: None,
        day_end: None,
        day: None,
    }
}

/// A `[day]` table that sets nothing.
pub open spec fn empty_day_file() -> DayFile {
    DayFile {
        wallpaper: None,
        background: None,
        card: None,
        accent: None,
        foreground: None,
        muted: None,
        field: None,
        logo: None,
        spinner_glow: None,
        spinner_comet: None,
        spinner_track: None,
        spinner_trail: None,
        comet_color: None,
        glow_color: None,
        sky_glow: None,
        error_color: None,
        logo_box: None,
    }
}

impl Theme {
    /// This theme with every key the file sets overlaid; a color that does not
    /// parse keeps the current value. `is_day` is not a file key.
    pub open spec fn merged_spec(self, file: ThemeFile) -> Theme {
        Theme {
            wallpaper: overlay_text(file.wallpaper, self.wallpaper),
            background: overlay_color(file.background, self.background),
            card: overlay_color(file.card, self.card),
            accent: overlay_color(file.accent, self.accent),
            foreground: overlay_color(file.foreground, self.foreground),
            muted: overlay_color(file.muted, self.muted),
            field: overlay_color(file.field, self.field),
            logo: overlay_text(file.logo, self.logo),
            font: overlay_text(file.font, self.font),
            corner_radius: overlay(file.corner_radius, self.corner_radius),
            card_width: overlay(file.card_width, self.card_width),
            card_pos: overlay(file.card_pos, self.card_pos),
            show_clock: overlay(file.show_clock, self.show_clock),
            animate: overlay(file.animate, self.animate),
            is_day: self.is_day,
            sky_mode: overlay(file.sky_mode, self.sky_mode),
            reduced_motion: overlay(file.reduced_motion, self.reduced_motion),
            gpu_level: overlay(file.gpu_level, self.gpu_level),
            spinner_glow: overlay(file.spinner_glow, self.spinner_glow),
            spinner_speed: overlay(file.spinner_speed, self.spinner_speed),
            spinner_comet: overlay_color(file.spinner_comet, self.spinner_comet),
            spinner_track: overlay_color(file.spinner_track, self.spinner_track),
            spinner_trail: overlay(file.spinner_trail, self.spinner_trail),
            comet_color: overlay_color(file.comet_color, self.comet_color),
            glow_color: overlay_color(file.glow_color, self.glow_color),
            sky_glow: overlay(file.sky_glow, self.sky_glow),
            star_density: overlay(file.star_density, self.star_density),
            star_twinkle: overlay(file.star_twinkle, self.star_twinkle),
            comet_enabled: overlay(file.comet_enabled, self.comet_enabled),
            comet_interval: overlay(file.comet_interval, self.comet_interval),
            cloud_amount: overlay(file.cloud_amount, self.cloud_amount),
            cloud_speed: overlay(file.cloud_speed, self.cloud_speed),
            sun_x: overlay(file.sun_x, self.sun_x),
            sun_y: overlay(file.sun_y, self.sun_y),
            sun_size: overlay(file.sun_size, self.sun_size),
            sun_intensity: overlay(file.sun_intensity, self.sun_intensity),
            sun_color: overlay_color(file.sun_color, self.sun_color),
            glow_x: overlay(file.glow_x, self.glow_x),
            glow_y: overlay(file.glow_y, self.glow_y),
            day_haze: overlay(file.day_haze, self.day_haze),
            star_layers: overlay(file.star_layers, self.star_layers),
            star_size: overlay(file.star_size, self.star_size),
            nebula_speed: overlay(file.nebula_speed, self.nebula_speed),
            comet_tilt: overlay(file.comet_tilt, self.comet_tilt),
            comet_pause: overlay(file.comet_pause, self.comet_pause),
            comet_width: overlay(file.comet_width, self.comet_width),
            cloud_lit: overlay_color(file.cloud_lit, self.cloud_lit),
            cloud_shadow: overlay_color(file.cloud_shadow, self.cloud_shadow),
            cursor_parallax: overlay(file.cursor_parallax, self.cursor_parallax),
            glow_pulse: overlay(file.glow_pulse, self.glow_pulse),
            synthwave_grid_speed: overlay(file.synthwave_grid_speed, self.synthwave_grid_speed),
            synthwave_grid_density: overlay(file.synthwave_grid_density, self.synthwave_grid_density),
            synthwave_grid_perspective: overlay(file.synthwave_grid_perspective, self.synthwave_grid_perspective),
            synthwave_grid_glow: overlay(file.synthwave_grid_glow, self.synthwave_grid_glow),
            synthwave_sun_size: overlay(file.synthwave_sun_size, self.synthwave_sun_size),
            synthwave_sun_stripes: overlay(file.synthwave_sun_stripes, self.synthwave_sun_stripes),
            synthwave_sun_bloom: overlay(file.synthwave_sun_bloom, self.synthwave_sun_bloom),
            synthwave_horizon: overlay(file.synthwave_horizon, self.synthwave_horizon),
            synthwave_grid_color: overlay_color(file.synthwave_grid_color, self.synthwave_grid_color),
            synthwave_sky_top: overlay_color(file.synthwave_sky_top, self.synthwave_sky_top),
            synthwave_sky_bottom: overlay_color(file.synthwave_sky_bottom, self.synthwave_sky_bottom),
            storm_lightning_rate: overlay(file.storm_lightning_rate, self.storm_lightning_rate),
            storm_strike_chance: overlay(file.storm_strike_chance, self.storm_strike_chance),
            storm_cloud_density: overlay(file.storm_cloud_density, self.storm_cloud_density),
            storm_bolt_color: overlay_color(file.storm_bolt_color, self.storm_bolt_color),
            storm_flash_color: overlay_color(file.storm_flash_color, self.storm_flash_color),
            rain_fall_speed: overlay(file.rain_fall_speed, self.rain_fall_speed),
            rain_density: overlay(file.rain_density, self.rain_density),
            rain_slant: overlay(file.rain_slant, self.rain_slant),
            rain_intensity: overlay(file.rain_intensity, self.rain_intensity),
            rain_color: overlay_color(file.rain_color, self.rain_color),
            snow_fall_speed: overlay(file.snow_fall_speed, self.snow_fall_speed),
            snow_density: overlay(file.snow_density, self.snow_density),
            snow_sway: overlay(file.snow_sway, self.snow_sway),
            snow_flake_size: overlay(file.snow_flake_size, self.snow_flake_size),
            snow_color: overlay_color(file.snow_color, self.snow_color),
            fire_rise_speed: overlay(file.fire_rise_speed, self.fire_rise_speed),
            fire_flame_height: overlay(file.fire_flame_height, self.fire_flame_height),
            fire_flame_color: overlay_color(file.fire_flame_color, self.fire_flame_color),
            fire_tip_color: overlay_color(file.fire_tip_color, self.fire_tip_color),
            aurora_speed: overlay(file.aurora_speed, self.aurora_speed),
            aurora_drop: overlay(file.aurora_drop, self.aurora_drop),
            aurora_ray_freq: overlay(file.aurora_ray_freq, self.aurora_ray_freq),
            aurora_intensity: overlay(file.aurora_intensity, self.aurora_intensity),
            aurora_green: overlay_color(file.aurora_green, self.aurora_green),
            aurora_magenta: overlay_color(file.aurora_magenta, self.aurora_magenta),
            plasma_speed: overlay(file.plasma_speed, self.plasma_speed),
            plasma_scale: overlay(file.plasma_scale, self.plasma_scale),
            plasma_saturation: overlay(file.plasma_saturation, self.plasma_saturation),
            plasma_tint: overlay_color(file.plasma_tint, self.plasma_tint),
            water_speed: overlay(file.water_speed, self.water_speed),
            water_scale: overlay(file.water_scale, self.water_scale),
            water_ripple: overlay(file.water_ripple, self.water_ripple),
            water_caustic: overlay(file.water_caustic, self.water_caustic),
            water_caustic_color: overlay_color(file.water_caustic_color, self.water_caustic_color),
            water_deep: overlay_color(file.water_deep, self.water_deep),
            water_shallow: overlay_color(file.water_shallow, self.water_shallow),
            card_gradient: overlay(file.card_gradient, self.card_gradient),
            grain: overlay(file.grain, self.grain),
            vignette: overlay(file.vignette, self.vignette),
            card_blur: overlay(file.card_blur, self.card_blur),
            spinner_size: overlay(file.spinner_size, self.spinner_size),
            spinner_pulse: overlay(file.spinner_pulse, self.spinner_pulse),
            spinner_orbit: overlay(file.spinner_orbit, self.spinner_orbit),
            spinner_style: overlay(file.spinner_style, self.spinner_style),
            card_shadow_blur: overlay(file.card_shadow_blur, self.card_shadow_blur),
            card_shadow_opacity: overlay(file.card_shadow_opacity, self.card_shadow_opacity),
            accent_breathing: overlay(file.accent_breathing, self.accent_breathing),
            field_radius: overlay(file.field_radius, self.field_radius),
            error_color: overlay_color(file.error_color, self.error_color),
            logo_box: overlay_color(file.logo_box, self.logo_box),
            logo_box_radius: overlay(file.logo_box_radius, self.logo_box_radius),
            clock_24h: overlay(file.clock_24h, self.clock_24h),
            clock_seconds: overlay(file.clock_seconds, self.clock_seconds),
            clock_size: overlay(file.clock_size, self.clock_size),
            clock_style: overlay(file.clock_style, self.clock_style),
            clock_format: overlay_text(file.clock_format, self.clock_format),
            font_scale: overlay(file.font_scale, self.font_scale),
            font_weight: overlay(file.font_weight, self.font_weight),
            fade_ms: overlay(file.fade_ms, self.fade_ms),
            glow_falloff: overlay(file.glow_falloff, self.glow_falloff),
            nebula_amount: overlay(file.nebula_amount, self.nebula_amount),
            comet_tail_decay: overlay(file.comet_tail_decay, self.comet_tail_decay),
            spinner_ring: overlay(file.spinner_ring, self.spinner_ring),
        }
    }

    /// This theme with only the shared (structural) keys of the file overlaid;
    /// the per-variant palette and `is_day` are kept.
    pub open spec fn merged_structural_spec(self, file: ThemeFile) -> Theme {
        Theme {
            wallpaper: self.wallpaper,
            background: self.background,
            card: self.card,
            accent: self.accent,
            foreground: self.foreground,
            muted: self.muted,
            field: self.field,
            logo: self.logo,
            font: overlay_text(file.font, self.font),
            corner_radius: overlay(file.corner_radius, self.corner_radius),
            card_width: overlay(file.card_width, self.card_width),
            card_pos: overlay(file.card_pos, self.card_pos),
            show_clock: overlay(file.show_clock, self.show_clock),
            animate: overlay(file.animate, self.animate),
            is_day: self.is_day,
            sky_mode: overlay(file.sky_mode, self.sky_mode),
            reduced_motion: overlay(file.reduced_motion, self.reduced_motion),
            gpu_level: overlay(file.gpu_level, self.gpu_level),
            spinner_glow: self.spinner_glow,
            spinner_speed: overlay(file.spinner_speed, self.spinner_speed),
            spinner_comet: self.spinner_comet,
            spinner_track: self.spinner_track,
            spinner_trail: self.spinner_trail,
            comet_color: self.comet_color,
            glow_color: self.glow_color,
            sky_glow: self.sky_glow,
            star_density: overlay(file.star_density, self.star_density),
            star_twinkle: overlay(file.star_twinkle, self.star_twinkle),
            comet_enabled: overlay(file.comet_enabled, self.comet_enabled),
            comet_interval: overlay(file.comet_interval, self.comet_interval),
            cloud_amount: overlay(file.cloud_amount, self.cloud_amount),
            cloud_speed: overlay(file.cloud_speed, self.cloud_speed),
            sun_x: overlay(file.sun_x, self.sun_x),
            sun_y: overlay(file.sun_y, self.sun_y),
            sun_size: overlay(file.sun_size, self.sun_size),
            sun_intensity: overlay(file.sun_intensity, self.sun_intensity),
            sun_color: overlay_color(file.sun_color, self.sun_color),
            glow_x: overlay(file.glow_x, self.glow_x),
            glow_y: overlay(file.glow_y, self.glow_y),
            day_haze: overlay(file.day_haze, self.day_haze),
            star_layers: overlay(file.star_layers, self.star_layers),
            star_size: overlay(file.star_size, self.star_size),
            nebula_speed: overlay(file.nebula_speed, self.nebula_speed),
            comet_tilt: overlay(file.comet_tilt, self.comet_tilt),
            comet_pause: overlay(file.comet_pause, self.comet_pause),
            comet_width: overlay(file.comet_width, self.comet_width),
            cloud_lit: overlay_color(file.cloud_lit, self.cloud_lit),
            cloud_shadow: overlay_color(file.cloud_shadow, self.cloud_shadow),
            cursor_parallax: overlay(file.cursor_parallax, self.cursor_parallax),
            glow_pulse: overlay(file.glow_pulse, self.glow_pulse),
            synthwave_grid_speed: overlay(file.synthwave_grid_speed, self.synthwave_grid_speed),
            synthwave_grid_density: overlay(file.synthwave_grid_density, self.synthwave_grid_density),
            synthwave_grid_perspective: overlay(file.synthwave_grid_perspective, self.synthwave_grid_perspective),
            synthwave_grid_glow: overlay(file.synthwave_grid_glow, self.synthwave_grid_glow),
            synthwave_sun_size: overlay(file.synthwave_sun_size, self.synthwave_sun_size),
            synthwave_sun_stripes: overlay(file.synthwave_sun_stripes, self.synthwave_sun_stripes),
            synthwave_sun_bloom: overlay(file.synthwave_sun_bloom, self.synthwave_sun_bloom),
            synthwave_horizon: overlay(file.synthwave_horizon, self.synthwave_horizon),
            synthwave_grid_color: overlay_color(file.synthwave_grid_color, self.synthwave_grid_color),
            synthwave_sky_top: overlay_color(file.synthwave_sky_top, self.synthwave_sky_top),
            synthwave_sky_bottom: overlay_color(file.synthwave_sky_bottom, self.synthwave_sky_bottom),
            storm_lightning_rate: overlay(file.storm_lightning_rate, self.storm_lightning_rate),
            storm_strike_chance: overlay(file.storm_strike_chance, self.storm_strike_chance),
            storm_cloud_density: overlay(file.storm_cloud_density, self.storm_cloud_density),
            storm_bolt_color: overlay_color(file.storm_bolt_color, self.storm_bolt_color),
            storm_flash_color: overlay_color(file.storm_flash_color, self.storm_flash_color),
            rain_fall_speed: overlay(file.rain_fall_speed, self.rain_fall_speed),
            rain_density: overlay(file.rain_density, self.rain_density),
            rain_slant: overlay(file.rain_slant, self.rain_slant),
            rain_intensity: overlay(file.rain_intensity, self.rain_intensity),
            rain_color: overlay_color(file.rain_color, self.rain_color),
            snow_fall_speed: overlay(file.snow_fall_speed, self.snow_fall_speed),
            snow_density: overlay(file.snow_density, self.snow_density),
            snow_sway: overlay(file.snow_sway, self.snow_sway),
            snow_flake_size: overlay(file.snow_flake_size, self.snow_flake_size),
            snow_color: overlay_color(file.snow_color, self.snow_color),
            fire_rise_speed: overlay(file.fire_rise_speed, self.fire_rise_speed),
            fire_flame_height: overlay(file.fire_flame_height, self.fire_flame_height),
            fire_flame_color: overlay_color(file.fire_flame_color, self.fire_flame_color),
            fire_tip_color: overlay_color(file.fire_tip_color, self.fire_tip_color),
            aurora_speed: overlay(file.aurora_speed, self.aurora_speed),
            aurora_drop: overlay(file.aurora_drop, self.aurora_drop),
            aurora_ray_freq: overlay(file.aurora_ray_freq, self.aurora_ray_freq),
            aurora_intensity: overlay(file.aurora_intensity, self.aurora_intensity),
            aurora_green: overlay_color(file.aurora_green, self.aurora_green),
            aurora_magenta: overlay_color(file.aurora_magenta, self.aurora_magenta),
            plasma_speed: overlay(file.plasma_speed, self.plasma_speed),
            plasma_scale: overlay(file.plasma_scale, self.plasma_scale),
            plasma_saturation: overlay(file.plasma_saturation, self.plasma_saturation),
            plasma_tint: overlay_color(file.plasma_tint, self.plasma_tint),
            water_speed: overlay(file.water_speed, self.water_speed),
            water_scale: overlay(file.water_scale, self.water_scale),
            water_ripple: overlay(file.water_ripple, self.water_ripple),
            water_caustic: overlay(file.water_caustic, self.water_caustic),
            water_caustic_color: overlay_color(file.water_caustic_color, self.water_caustic_color),
            water_deep: overlay_color(file.water_deep, self.water_deep),
            water_shallow: overlay_color(file.water_shallow, self.water_shallow),
            card_gradient: overlay(file.card_gradient, self.card_gradient),
            grain: overlay(file.grain, self.grain),
            vignette: overlay(file.vignette, self.vignette),
            card_blur: overlay(file.card_blur, self.card_blur),
            spinner_size: overlay(file.spinner_size, self.spinner_size),
            spinner_pulse: overlay(file.spinner_pulse, self.spinner_pulse),
            spinner_orbit: overlay(file.spinner_orbit, self.spinner_orbit),
            spinner_style: overlay(file.spinner_style, self.spinner_style),
            card_shadow_blur: overlay(file.card_shadow_blur, self.card_shadow_blur),
            card_shadow_opacity: overlay(file.card_shadow_opacity, self.card_shadow_opacity),
            accent_breathing: overlay(file.accent_breathing, self.accent_breathing),
            field_radius: overlay(file.field_radius, self.field_radius),
            error_color: self.error_color,
            logo_box: self.logo_box,
            logo_box_radius: overlay(file.logo_box_radius, self.logo_box_radius),
            clock_24h: overlay(file.clock_24h, self.clock_24h),
            clock_seconds: overlay(file.clock_seconds, self.clock_seconds),
            clock_size: overlay(file.clock_size, self.clock_size),
            clock_style: overlay(file.clock_style, self.clock_style),
            clock_format: overlay_text(file.clock_format, self.clock_format),
            font_scale: overlay(file.font_scale, self.font_scale),
            font_weight: overlay(file.font_weight, self.font_weight),
            fade_ms: overlay(file.fade_ms, self.fade_ms),
            glow_falloff: overlay(file.glow_falloff, self.glow_falloff),
            nebula_amount: overlay(file.nebula_amount, self.nebula_amount),
            comet_tail_decay: overlay(file.comet_tail_decay, self.comet_tail_decay),
            spinner_ring: overlay(file.spinner_ring, self.spinner_ring),
        }
    }

    /// This theme with a `[day]` table's per-variant overrides applied.
    pub open spec fn merged_day_spec(self, day: Option<DayFile>) -> Theme {
        match day {
            Some(d) => self.with_palette(self.palette().overlaid(d)),
            None => self,
        }
    }

    /// The per-variant keys of this theme.
    pub open spec fn palette(self) -> VariantPalette {
        VariantPalette {
            wallpaper: self.wallpaper,
            background: self.background,
            card: self.card,
            accent: self.accent,
            foreground: self.foreground,
            muted: self.muted,
            field: self.field,
            logo: self.logo,
            spinner_glow: self.spinner_glow,
            spinner_comet: self.spinner_comet,
            spinner_track: self.spinner_track,
            spinner_trail: self.spinner_trail,
            comet_color: self.comet_color,
            glow_color: self.glow_color,
            sky_glow: self.sky_glow,
            error_color: self.error_color,
            logo_box: self.logo_box,
        }
    }

    /// This theme with its per-variant keys replaced by `p`.
    pub open spec fn with_palette(self, p: VariantPalette) -> Theme {
        Theme {
            wallpaper: p.wallpaper,
            background: p.background,
            card: p.card,
            accent: p.accent,
            foreground: p.foreground,
            muted: p.muted,
            field: p.field,
            logo: p.logo,
            font: self.font,
            corner_radius: self.corner_radius,
            card_width: self.card_width,
            card_pos: self.card_pos,
            show_clock: self.show_clock,
            animate: self.animate,
            is_day: self.is_day,
            sky_mode: self.sky_mode,
            reduced_motion: self.reduced_motion,
            gpu_level: self.gpu_level,
            spinner_glow: p.spinner_glow,
            spinner_speed: self.spinner_speed,
            spinner_comet: p.spinner_comet,
            spinner_track: p.spinner_track,
            spinner_trail: p.spinner_trail,
            comet_color: p.comet_color,
            glow_color: p.glow_color,
            sky_glow: p.sky_glow,
            star_density: self.star_density,
            star_twinkle: self.star_twinkle,
            comet_enabled: self.comet_enabled,
            comet_interval: self.comet_interval,
            cloud_amount: self.cloud_amount,
            cloud_speed: self.cloud_speed,
            sun_x: self.sun_x,
            sun_y: self.sun_y,
            sun_size: self.sun_size,
            sun_intensity: self.sun_intensity,
            sun_color: self.sun_color,
            glow_x: self.glow_x,
            glow_y: self.glow_y,
            day_haze: self.day_haze,
            star_layers: self.star_layers,
            star_size: self.star_size,
            nebula_speed: self.nebula_speed,
            comet_tilt: self.comet_tilt,
            comet_pause: self.comet_pause,
            comet_width: self.comet_width,
            cloud_lit: self.cloud_lit,
            cloud_shadow: self.cloud_shadow,
            cursor_parallax: self.cursor_parallax,
            glow_pulse: self.glow_pulse,
            synthwave_grid_speed: self.synthwave_grid_speed,
            synthwave_grid_density: self.synthwave_grid_density,
            synthwave_grid_perspective: self.synthwave_grid_perspective,
            synthwave_grid_glow: self.synthwave_grid_glow,
            synthwave_sun_size: self.synthwave_sun_size,
            synthwave_sun_stripes: self.synthwave_sun_stripes,
            synthwave_sun_bloom: self.synthwave_sun_bloom,
            synthwave_horizon: self.synthwave_horizon,
            synthwave_grid_color: self.synthwave_grid_color,
            synthwave_sky_top: self.synthwave_sky_top,
            synthwave_sky_bottom: self.synthwave_sky_bottom,
            storm_lightning_rate: self.storm_lightning_rate,
            storm_strike_chance: self.storm_strike_chance,
            storm_cloud_density: self.storm_cloud_density,
            storm_bolt_color: self.storm_bolt_color,
            storm_flash_color: self.storm_flash_color,
            rain_fall_speed: self.rain_fall_speed,
            rain_density: self.rain_density,
            rain_slant: self.rain_slant,
            rain_intensity: self.rain_intensity,
            rain_color: self.rain_color,
            snow_fall_speed: self.snow_fall_speed,
            snow_density: self.snow_density,
            snow_sway: self.snow_sway,
            snow_flake_size: self.snow_flake_size,
            snow_color: self.snow_color,
            fire_rise_speed: self.fire_rise_speed,
            fire_flame_height: self.fire_flame_height,
            fire_flame_color: self.fire_flame_color,
            fire_tip_color: self.fire_tip_color,
            aurora_speed: self.aurora_speed,
            aurora_drop: self.aurora_drop,
            aurora_ray_freq: self.aurora_ray_freq,
            aurora_intensity: self.aurora_intensity,
            aurora_green: self.aurora_green,
            aurora_magenta: self.aurora_magenta,
            plasma_speed: self.plasma_speed,
            plasma_scale: self.plasma_scale,
            plasma_saturation: self.plasma_saturation,
            plasma_tint: self.plasma_tint,
            water_speed: self.water_speed,
            water_scale: self.water_scale,
            water_ripple: self.water_ripple,
            water_caustic: self.water_caustic,
            water_caustic_color: self.water_caustic_color,
            water_deep: self.water_deep,
            water_shallow: self.water_shallow,
            card_gradient: self.card_gradient,
            grain: self.grain,
            vignette: self.vignette,
            card_blur: self.card_blur,
            spinner_size: self.spinner_size,
            spinner_pulse: self.spinner_pulse,
            spinner_orbit: self.spinner_orbit,
            spinner_style: self.spinner_style,
            card_shadow_blur: self.card_shadow_blur,
            card_shadow_opacity: self.card_shadow_opacity,
            accent_breathing: self.accent_breathing,
            field_radius: self.field_radius,
            error_color: p.error_color,
            logo_box: p.logo_box,
            logo_box_radius: self.logo_box_radius,
            clock_24h: self.clock_24h,
            clock_seconds: self.clock_seconds,
            clock_size: self.clock_size,
            clock_style: self.clock_style,
            clock_format: self.clock_format,
            font_scale: self.font_scale,
            font_weight: self.font_weight,
            fade_ms: self.fade_ms,
            glow_falloff: self.glow_falloff,
            nebula_amount: self.nebula_amount,
            comet_tail_decay: self.comet_tail_decay,
            spinner_ring: self.spinner_ring,
        }
    }
}

impl VariantPalette {
    /// The palette with every key a `[day]` table sets overlaid.
    pub open spec fn overlaid(self, d: DayFile) -> VariantPalette {
        VariantPalette {
            wallpaper: overlay_text(d.wallpaper, self.wallpaper),
            background: overlay_color(d.background, self.background),
            card: overlay_color(d.card, self.card),
            accent: overlay_color(d.accent, self.accent),
            foreground: overlay_color(d.foreground, self.foreground),
            muted: overlay_color(d.muted, self.muted),
            field: overlay_color(d.field, self.field),
            logo: overlay_text(d.logo, self.logo),
            spinner_glow: overlay(d.spinner_glow, self.spinner_glow),
            spinner_comet: overlay_color(d.spinner_comet, self.spinner_comet),
            spinner_track: overlay_color(d.spinner_track, self.spinner_track),
            spinner_trail: overlay(d.spinner_trail, self.spinner_trail),
            comet_color: overlay_color(d.comet_color, self.comet_color),
            glow_color: overlay_color(d.glow_color, self.glow_color),
            sky_glow: overlay(d.sky_glow, self.sky_glow),
            error_color: overlay_color(d.error_color, self.error_color),
            logo_box: overlay_color(d.logo_box, self.logo_box),
        }
    }
}

impl Theme {
    /// The built-in **day** (Tokyo Night Day, light) palette — the light twin of
    /// the default. Structural keys are taken from the config at load time;
    /// colors and `is_day` come from here.
    pub fn day() -> (t: Theme)
        ensures
            t == day_theme(),
    {
        Theme {
            wallpaper: None,
            background: Color { r: 0xe1, g: 0xe2, b: 0xe7, a: 0xff },
            card: Color { r: 0xf4, g: 0xf6, b: 0xfb, a: 0x26 },
            accent: Color { r: 0x2e, g: 0x7d, b: 0xe9, a: 0xff },
            foreground: Color { r: 0x34, g: 0x3b, b: 0x58, a: 0xff },
            muted: Color { r: 0x54, g: 0x5c, b: 0x7e, a: 0xff },
            field: Color { r: 0xff, g: 0xff, b: 0xff, a: 0x99 },
            logo: None,
            font: None,
            corner_radius: 0x41800000,
            card_width: 0x43960000,
            card_pos: CardPos::Center,
            show_clock: true,
            animate: true,
            is_day: true,
            sky_mode: SkyMode::Auto,
            reduced_motion: false,
            gpu_level: GpuLevel::High,
            spinner_glow: 0x00000000,
            spinner_speed: 0x40200000,
            spinner_comet: Color { r: 0x21, g: 0x46, b: 0x93, a: 0xff },
            spinner_track: Color { r: 0x2e, g: 0x7d, b: 0xe9, a: 0xff },
            spinner_trail: 0x3f0ccccd,
            comet_color: Color { r: 0x6f, g: 0x9f, b: 0xe0, a: 0xff },
            glow_color: Color { r: 0x8f, g: 0xb6, b: 0xff, a: 0xff },
            sky_glow: 0x3f0ccccd,
            star_density: 0x3ef0a3d7,
            star_twinkle: 0x3f800000,
            comet_enabled: true,
            comet_interval: 0x41180000,
            cloud_amount: 0x3f800000,
            cloud_speed: 0x3f800000,
            sun_x: 0x3e75c28f,
            sun_y: 0x3e3851ec,
            sun_size: 0x3e800000,
            sun_intensity: 0x3ec28f5c,
            sun_color: Color { r: 0xff, g: 0xe8, b: 0xb0, a: 0xff },
            glow_x: 0x3f000000,
            glow_y: 0x3ee147ae,
            day_haze: 0x3e800000,
            star_layers: 0x40400000,
            star_size: 0x3f800000,
            nebula_speed: 0x3f800000,
            comet_tilt: 0x00000000,
            comet_pause: 0x40200000,
            comet_width: 0x3f800000,
            cloud_lit: Color { r: 0xff, g: 0xff, b: 0xff, a: 0xff },
            cloud_shadow: Color { r: 0xb4, g: 0xc2, b: 0xdb, a: 0xff },
            cursor_parallax: 0x3f800000,
            glow_pulse: 0x00000000,
            synthwave_grid_speed: 0x3f99999a,
            synthwave_grid_density: 0x3f0ccccd,
            synthwave_grid_perspective: 0x3f19999a,
            synthwave_grid_glow: 0x3f333333,
            synthwave_sun_size: 0x3e6147ae,
            synthwave_sun_stripes: 0x42f00000,
            synthwave_sun_bloom: 0x3e800000,
            synthwave_horizon: 0x3f0f5c29,
            synthwave_grid_color: Color { r: 0x00, g: 0xe6, b: 0xff, a: 0xff },
            synthwave_sky_top: Color { r: 0x29, g: 0x0d, b: 0x47, a: 0xff },
            synthwave_sky_bottom: Color { r: 0xf2, g: 0x45, b: 0x8c, a: 0xff },
            storm_lightning_rate: 0x3f4ccccd,
            storm_strike_chance: 0x3ea3d70a,
            storm_cloud_density: 0x3f800000,
            storm_bolt_color: Color { r: 0xd9, g: 0xe6, b: 0xff, a: 0xff },
            storm_flash_color: Color { r: 0x8c, g: 0x99, b: 0xcc, a: 0xff },
            rain_fall_speed: 0x40a00000,
            rain_density: 0x3d8f5c29,
            rain_slant: 0x40800000,
            rain_intensity: 0x3f000000,
            rain_color: Color { r: 0x8c, g: 0x9e, b: 0xb8, a: 0xff },
            snow_fall_speed: 0x3f666666,
            snow_density: 0x3e0f5c29,
            snow_sway: 0x3f19999a,
            snow_flake_size: 0x41900000,
            snow_color: Color { r: 0xff, g: 0xff, b: 0xff, a: 0xff },
            fire_rise_speed: 0x40000000,
            fire_flame_height: 0x3e6147ae,
            fire_flame_color: Color { r: 0xff, g: 0x4b, b: 0x0d, a: 0xff },
            fire_tip_color: Color { r: 0xff, g: 0xe6, b: 0x80, a: 0xff },
            aurora_speed: 0x3df5c28f,
            aurora_drop: 0x404ccccd,
            aurora_ray_freq: 0x42480000,
            aurora_intensity: 0x3f19999a,
            aurora_green: Color { r: 0x2e, g: 0xff, b: 0xa8, a: 0xff },
            aurora_magenta: Color { r: 0x9e, g: 0x4d, b: 0xff, a: 0xff },
            plasma_speed: 0x3f000000,
            plasma_scale: 0x41000000,
            plasma_saturation: 0x3f000000,
            plasma_tint: Color { r: 0xff, g: 0xff, b: 0xff, a: 0xff },
            water_speed: 0x3f19999a,
            water_scale: 0x40a00000,
            water_ripple: 0x3f19999a,
            water_caustic: 0x3f59999a,
            water_caustic_color: Color { r: 0x73, g: 0xf2, b: 0xff, a: 0xff },
            water_deep: Color { r: 0x00, g: 0x1f, b: 0x38, a: 0xff },
            water_shallow: Color { r: 0x00, g: 0x4d, b: 0x6b, a: 0xff },
            card_gradient: 0x3ee66666,
            grain: 0x00000000,
            vignette: 0x3e4ccccd,
            card_blur: true,
            spinner_size: 0x42500000,
            spinner_pulse: 0x3f800000,
            spinner_orbit: 0x3e99999a,
            spinner_style: SpinnerStyle::Comet,
            card_shadow_blur: 0x42080000,
            card_shadow_opacity: 0x3ee66666,
            accent_breathing: 0x3f800000,
            field_radius: 0x41200000,
            error_color: Color { r: 0xc0, g: 0x33, b: 0x4d, a: 0xff },
            logo_box: Color { r: 0x00, g: 0x00, b: 0x00, a: 0x00 },
            logo_box_radius: 0x41600000,
            clock_24h: true,
            clock_seconds: false,
            clock_size: 0x42600000,
            clock_style: ClockStyle::Digital,
            clock_format: None,
            font_scale: 0x3f800000,
            font_weight: FontWeight::Regular,
            fade_ms: 0x43c00000,
            glow_falloff: 0x404ccccd,
            nebula_amount: 0x3df5c28f,
            comet_tail_decay: 0x41100000,
            spinner_ring: 0x3dcccccd,
        }
    }

    /// Overlay a parsed file onto this theme. A color that fails to parse keeps the
    /// existing value rather than discarding the whole config.
    pub fn merged(self, file: &ThemeFile) -> (t: Theme)
        ensures
            t == self.merged_spec(*file),
    {
        Theme {
            wallpaper: pick_text(&file.wallpaper, self.wallpaper),
            background: pick_color(&file.background, self.background),
            card: pick_color(&file.card, self.card),
            accent: pick_color(&file.accent, self.accent),
            foreground: pick_color(&file.foreground, self.foreground),
            muted: pick_color(&file.muted, self.muted),
            field: pick_color(&file.field, self.field),
            logo: pick_text(&file.logo, self.logo),
            font: pick_text(&file.font, self.font),
            corner_radius: pick(file.corner_radius, self.corner_radius),
            card_width: pick(file.card_width, self.card_width),
            card_pos: pick(file.card_pos, self.card_pos),
            show_clock: pick(file.show_clock, self.show_clock),
            animate: pick(file.animate, self.animate),
            is_day: self.is_day,
            sky_mode: pick(file.sky_mode, self.sky_mode),
            reduced_motion: pick(file.reduced_motion, self.reduced_motion),
            gpu_level: pick(file.gpu_level, self.gpu_level),
            spinner_glow: pick(file.spinner_glow, self.spinner_glow),
            spinner_speed: pick(file.spinner_speed, self.spinner_speed),
            spinner_comet: pick_color(&file.spinner_comet, self.spinner_comet),
            spinner_track: pick_color(&file.spinner_track, self.spinner_track),
            spinner_trail: pick(file.spinner_trail, self.spinner_trail),
            comet_color: pick_color(&file.comet_color, self.comet_color),
            glow_color: pick_color(&file.glow_color, self.glow_color),
            sky_glow: pick(file.sky_glow, self.sky_glow),
            star_density: pick(file.star_density, self.star_density),
            star_twinkle: pick(file.star_twinkle, self.star_twinkle),
            comet_enabled: pick(file.comet_enabled, self.comet_enabled),
            comet_interval: pick(file.comet_interval, self.comet_interval),
            cloud_amount: pick(file.cloud_amount, self.cloud_amount),
            cloud_speed: pick(file.cloud_speed, self.cloud_speed),
            sun_x: pick(file.sun_x, self.sun_x),
            sun_y: pick(file.sun_y, self.sun_y),
            sun_size: pick(file.sun_size, self.sun_size),
            sun_intensity: pick(file.sun_intensity, self.sun_intensity),
            sun_color: pick_color(&file.sun_color, self.sun_color),
            glow_x: pick(file.glow_x, self.glow_x),
            glow_y: pick(file.glow_y, self.glow_y),
            day_haze: pick(file.day_haze, self.day_haze),
            star_layers: pick(file.star_layers, self.star_layers),
            star_size: pick(file.star_size, self.star_size),
            nebula_speed: pick(file.nebula_speed, self.nebula_speed),
            comet_tilt: pick(file.comet_tilt, self.comet_tilt),
            comet_pause: pick(file.comet_pause, self.comet_pause),
            comet_width: pick(file.comet_width, self.comet_width),
            cloud_lit: pick_color(&file.cloud_lit, self.cloud_lit),
            cloud_shadow: pick_color(&file.cloud_shadow, self.cloud_shadow),
            cursor_parallax: pick(file.cursor_parallax, self.cursor_parallax),
            glow_pulse: pick(file.glow_pulse, self.glow_pulse),
            synthwave_grid_speed: pick(file.synthwave_grid_speed, self.synthwave_grid_speed),
            synthwave_grid_density: pick(file.synthwave_grid_density, self.synthwave_grid_density),
            synthwave_grid_perspective: pick(file.synthwave_grid_perspective, self.synthwave_grid_perspective),
            synthwave_grid_glow: pick(file.synthwave_grid_glow, self.synthwave_grid_glow),
            synthwave_sun_size: pick(file.synthwave_sun_size, self.synthwave_sun_size),
            synthwave_sun_stripes: pick(file.synthwave_sun_stripes, self.synthwave_sun_stripes),
            synthwave_sun_bloom: pick(file.synthwave_sun_bloom, self.synthwave_sun_bloom),
            synthwave_horizon: pick(file.synthwave_horizon, self.synthwave_horizon),
            synthwave_grid_color: pick_color(&file.synthwave_grid_color, self.synthwave_grid_color),
            synthwave_sky_top: pick_color(&file.synthwave_sky_top, self.synthwave_sky_top),
            synthwave_sky_bottom: pick_color(&file.synthwave_sky_bottom, self.synthwave_sky_bottom),
            storm_lightning_rate: pick(file.storm_lightning_rate, self.storm_lightning_rate),
            storm_strike_chance: pick(file.storm_strike_chance, self.storm_strike_chance),
            storm_cloud_density: pick(file.storm_cloud_density, self.storm_cloud_density),
            storm_bolt_color: pick_color(&file.storm_bolt_color, self.storm_bolt_color),
            storm_flash_color: pick_color(&file.storm_flash_color, self.storm_flash_color),
            rain_fall_speed: pick(file.rain_fall_speed, self.rain_fall_speed),
            rain_density: pick(file.rain_density, self.rain_density),
            rain_slant: pick(file.rain_slant, self.rain_slant),
            rain_intensity: pick(file.rain_intensity, self.rain_intensity),
            rain_color: pick_color(&file.rain_color, self.rain_color),
            snow_fall_speed: pick(file.snow_fall_speed, self.snow_fall_speed),
            snow_density: pick(file.snow_density, self.snow_density),
            snow_sway: pick(file.snow_sway, self.snow_sway),
            snow_flake_size: pick(file.snow_flake_size, self.snow_flake_size),
            snow_color: pick_color(&file.snow_color, self.snow_color),
            fire_rise_speed: pick(file.fire_rise_speed, self.fire_rise_speed),
            fire_flame_height: pick(file.fire_flame_height, self.fire_flame_height),
            fire_flame_color: pick_color(&file.fire_flame_color, self.fire_flame_color),
            fire_tip_color: pick_color(&file.fire_tip_color, self.fire_tip_color),
            aurora_speed: pick(file.aurora_speed, self.aurora_speed),
            aurora_drop: pick(file.aurora_drop, self.aurora_drop),
            aurora_ray_freq: pick(file.aurora_ray_freq, self.aurora_ray_freq),
            aurora_intensity: pick(file.aurora_intensity, self.aurora_intensity),
            aurora_green: pick_color(&file.aurora_green, self.aurora_green),
            aurora_magenta: pick_color(&file.aurora_magenta, self.aurora_magenta),
            plasma_speed: pick(file.plasma_speed, self.plasma_speed),
            plasma_scale: pick(file.plasma_scale, self.plasma_scale),
            plasma_saturation: pick(file.plasma_saturation, self.plasma_saturation),
            plasma_tint: pick_color(&file.plasma_tint, self.plasma_tint),
            water_speed: pick(file.water_speed, self.water_speed),
            water_scale: pick(file.water_scale, self.water_scale),
            water_ripple: pick(file.water_ripple, self.water_ripple),
            water_caustic: pick(file.water_caustic, self.water_caustic),
            water_caustic_color: pick_color(&file.water_caustic_color, self.water_caustic_color),
            water_deep: pick_color(&file.water_deep, self.water_deep),
            water_shallow: pick_color(&file.water_shallow, self.water_shallow),
            card_gradient: pick(file.card_gradient, self.card_gradient),
            grain: pick(file.grain, self.grain),
            vignette: pick(file.vignette, self.vignette),
            card_blur: pick(file.card_blur, self.card_blur),
            spinner_size: pick(file.spinner_size, self.spinner_size),
            spinner_pulse: pick(file.spinner_pulse, self.spinner_pulse),
            spinner_orbit: pick(file.spinner_orbit, self.spinner_orbit),
            spinner_style: pick(file.spinner_style, self.spinner_style),
            card_shadow_blur: pick(file.card_shadow_blur, self.card_shadow_blur),
            card_shadow_opacity: pick(file.card_shadow_opacity, self.card_shadow_opacity),
            accent_breathing: pick(file.accent_breathing, self.accent_breathing),
            field_radius: pick(file.field_radius, self.field_radius),
            error_color: pick_color(&file.error_color, self.error_color),
            logo_box: pick_color(&file.logo_box, self.logo_box),
            logo_box_radius: pick(file.logo_box_radius, self.logo_box_radius),
            clock_24h: pick(file.clock_24h, self.clock_24h),
            clock_seconds: pick(file.clock_seconds, self.clock_seconds),
            clock_size: pick(file.clock_size, self.clock_size),
            clock_style: pick(file.clock_style, self.clock_style),
            clock_format: pick_text(&file.clock_format, self.clock_format),
            font_scale: pick(file.font_scale, self.font_scale),
            font_weight: pick(file.font_weight, self.font_weight),
            fade_ms: pick(file.fade_ms, self.fade_ms),
            glow_falloff: pick(file.glow_falloff, self.glow_falloff),
            nebula_amount: pick(file.nebula_amount, self.nebula_amount),
            comet_tail_decay: pick(file.comet_tail_decay, self.comet_tail_decay),
            spinner_ring: pick(file.spinner_ring, self.spinner_ring),
        }
    }

    /// Apply only the *structural* keys (font, sizes, behavior) from a file —
    /// shared across day/night. Colors and wallpaper are left to the variant.
    pub fn merged_structural(self, file: &ThemeFile) -> (t: Theme)
        ensures
            t == self.merged_structural_spec(*file),
    {
        Theme {
            wallpaper: self.wallpaper,
            background: self.background,
            card: self.card,
            accent: self.accent,
            foreground: self.foreground,
            muted: self.muted,
            field: self.field,
            logo: self.logo,
            font: pick_text(&file.font, self.font),
            corner_radius: pick(file.corner_radius, self.corner_radius),
            card_width: pick(file.card_width, self.card_width),
            card_pos: pick(file.card_pos, self.card_pos),
            show_clock: pick(file.show_clock, self.show_clock),
            animate: pick(file.animate, self.animate),
            is_day: self.is_day,
            sky_mode: pick(file.sky_mode, self.sky_mode),
            reduced_motion: pick(file.reduced_motion, self.reduced_motion),
            gpu_level: pick(file.gpu_level, self.gpu_level),
            spinner_glow: self.spinner_glow,
            spinner_speed: pick(file.spinner_speed, self.spinner_speed),
            spinner_comet: self.spinner_comet,
            spinner_track: self.spinner_track,
            spinner_trail: self.spinner_trail,
            comet_color: self.comet_color,
            glow_color: self.glow_color,
            sky_glow: self.sky_glow,
            star_density: pick(file.star_density, self.star_density),
            star_twinkle: pick(file.star_twinkle, self.star_twinkle),
            comet_enabled: pick(file.comet_enabled, self.comet_enabled),
            comet_interval: pick(file.comet_interval, self.comet_interval),
            cloud_amount: pick(file.cloud_amount, self.cloud_amount),
            cloud_speed: pick(file.cloud_speed, self.cloud_speed),
            sun_x: pick(file.sun_x, self.sun_x),
            sun_y: pick(file.sun_y, self.sun_y),
            sun_size: pick(file.sun_size, self.sun_size),
            sun_intensity: pick(file.sun_intensity, self.sun_intensity),
            sun_color: pick_color(&file.sun_color, self.sun_color),
            glow_x: pick(file.glow_x, self.glow_x),
            glow_y: pick(file.glow_y, self.glow_y),
            day_haze: pick(file.day_haze, self.day_haze),
            star_layers: pick(file.star_layers, self.star_layers),
            star_size: pick(file.star_size, self.star_size),
            nebula_speed: pick(file.nebula_speed, self.nebula_speed),
            comet_tilt: pick(file.comet_tilt, self.comet_tilt),
            comet_pause: pick(file.comet_pause, self.comet_pause),
            comet_width: pick(file.comet_width, self.comet_width),
            cloud_lit: pick_color(&file.cloud_lit, self.cloud_lit),
            cloud_shadow: pick_color(&file.cloud_shadow, self.cloud_shadow),
            cursor_parallax: pick(file.cursor_parallax, self.cursor_parallax),
            glow_pulse: pick(file.glow_pulse, self.glow_pulse),
            synthwave_grid_speed: pick(file.synthwave_grid_speed, self.synthwave_grid_speed),
            synthwave_grid_density: pick(file.synthwave_grid_density, self.synthwave_grid_density),
            synthwave_grid_perspective: pick(file.synthwave_grid_perspective, self.synthwave_grid_perspective),
            synthwave_grid_glow: pick(file.synthwave_grid_glow, self.synthwave_grid_glow),
            synthwave_sun_size: pick(file.synthwave_sun_size, self.synthwave_sun_size),
            synthwave_sun_stripes: pick(file.synthwave_sun_stripes, self.synthwave_sun_stripes),
            synthwave_sun_bloom: pick(file.synthwave_sun_bloom, self.synthwave_sun_bloom),
            synthwave_horizon: pick(file.synthwave_horizon, self.synthwave_horizon),
            synthwave_grid_color: pick_color(&file.synthwave_grid_color, self.synthwave_grid_color),
            synthwave_sky_top: pick_color(&file.synthwave_sky_top, self.synthwave_sky_top),
            synthwave_sky_bottom: pick_color(&file.synthwave_sky_bottom, self.synthwave_sky_bottom),
            storm_lightning_rate: pick(file.storm_lightning_rate, self.storm_lightning_rate),
            storm_strike_chance: pick(file.storm_strike_chance, self.storm_strike_chance),
            storm_cloud_density: pick(file.storm_cloud_density, self.storm_cloud_density),
            storm_bolt_color: pick_color(&file.storm_bolt_color, self.storm_bolt_color),
            storm_flash_color: pick_color(&file.storm_flash_color, self.storm_flash_color),
            rain_fall_speed: pick(file.rain_fall_speed, self.rain_fall_speed),
            rain_density: pick(file.rain_density, self.rain_density),
            rain_slant: pick(file.rain_slant, self.rain_slant),
            rain_intensity: pick(file.rain_intensity, self.rain_intensity),
            rain_color: pick_color(&file.rain_color, self.rain_color),
            snow_fall_speed: pick(file.snow_fall_speed, self.snow_fall_speed),
            snow_density: pick(file.snow_density, self.snow_density),
            snow_sway: pick(file.snow_sway, self.snow_sway),
            snow_flake_size: pick(file.snow_flake_size, self.snow_flake_size),
            snow_color: pick_color(&file.snow_color, self.snow_color),
            fire_rise_speed: pick(file.fire_rise_speed, self.fire_rise_speed),
            fire_flame_height: pick(file.fire_flame_height, self.fire_flame_height),
            fire_flame_color: pick_color(&file.fire_flame_color, self.fire_flame_color),
            fire_tip_color: pick_color(&file.fire_tip_color, self.fire_tip_color),
            aurora_speed: pick(file.aurora_speed, self.aurora_speed),
            aurora_drop: pick(file.aurora_drop, self.aurora_drop),
            aurora_ray_freq: pick(file.aurora_ray_freq, self.aurora_ray_freq),
            aurora_intensity: pick(file.aurora_intensity, self.aurora_intensity),
            aurora_green: pick_color(&file.aurora_green, self.aurora_green),
            aurora_magenta: pick_color(&file.aurora_magenta, self.aurora_magenta),
            plasma_speed: pick(file.plasma_speed, self.plasma_speed),
            plasma_scale: pick(file.plasma_scale, self.plasma_scale),
            plasma_saturation: pick(file.plasma_saturation, self.plasma_saturation),
            plasma_tint: pick_color(&file.plasma_tint, self.plasma_tint),
            water_speed: pick(file.water_speed, self.water_speed),
            water_scale: pick(file.water_scale, self.water_scale),
            water_ripple: pick(file.water_ripple, self.water_ripple),
            water_caustic: pick(file.water_caustic, self.water_caustic),
            water_caustic_color: pick_color(&file.water_caustic_color, self.water_caustic_color),
            water_deep: pick_color(&file.water_deep, self.water_deep),
            water_shallow: pick_color(&file.water_shallow, self.water_shallow),
            card_gradient: pick(file.card_gradient, self.card_gradient),
            grain: pick(file.grain, self.grain),
            vignette: pick(file.vignette, self.vignette),
            card_blur: pick(file.card_blur, self.card_blur),
            spinner_size: pick(file.spinner_size, self.spinner_size),
            spinner_pulse: pick(file.spinner_pulse, self.spinner_pulse),
            spinner_orbit: pick(file.spinner_orbit, self.spinner_orbit),
            spinner_style: pick(file.spinner_style, self.spinner_style),
            card_shadow_blur: pick(file.card_shadow_blur, self.card_shadow_blur),
            card_shadow_opacity: pick(file.card_shadow_opacity, self.card_shadow_opacity),
            accent_breathing: pick(file.accent_breathing, self.accent_breathing),
            field_radius: pick(file.field_radius, self.field_radius),
            error_color: self.error_color,
            logo_box: self.logo_box,
            logo_box_radius: pick(file.logo_box_radius, self.logo_box_radius),
            clock_24h: pick(file.clock_24h, self.clock_24h),
            clock_seconds: pick(file.clock_seconds, self.clock_seconds),
            clock_size: pick(file.clock_size, self.clock_size),
            clock_style: pick(file.clock_style, self.clock_style),
            clock_format: pick_text(&file.clock_format, self.clock_format),
            font_scale: pick(file.font_scale, self.font_scale),
            font_weight: pick(file.font_weight, self.font_weight),
            fade_ms: pick(file.fade_ms, self.fade_ms),
            glow_falloff: pick(file.glow_falloff, self.glow_falloff),
            nebula_amount: pick(file.nebula_amount, self.nebula_amount),
            comet_tail_decay: pick(file.comet_tail_decay, self.comet_tail_decay),
            spinner_ring: pick(file.spinner_ring, self.spinner_ring),
        }
    }

    /// Apply the `[day]` color/wallpaper/logo overrides over the built-in day palette.
    pub fn merged_day(self, day: &Option<DayFile>) -> (t: Theme)
        ensures
            t == self.merged_day_spec(*day),
    {
        match day {
            None => self,
            Some(d) => Theme {
                wallpaper: pick_text(&d.wallpaper, self.wallpaper),
                background: pick_color(&d.background, self.background),
                card: pick_color(&d.card, self.card),
                accent: pick_color(&d.accent, self.accent),
                foreground: pick_color(&d.foreground, self.foreground),
                muted: pick_color(&d.muted, self.muted),
                field: pick_color(&d.field, self.field),
                logo: pick_text(&d.logo, self.logo),
                font: self.font,
                corner_radius: self.corner_radius,
                card_width: self.card_width,
                card_pos: self.card_pos,
                show_clock: self.show_clock,
                animate: self.animate,
                is_day: self.is_day,
                sky_mode: self.sky_mode,
                reduced_motion: self.reduced_motion,
                gpu_level: self.gpu_level,
                spinner_glow: pick(d.spinner_glow, self.spinner_glow),
                spinner_speed: self.spinner_speed,
                spinner_comet: pick_color(&d.spinner_comet, self.spinner_comet),
                spinner_track: pick_color(&d.spinner_track, self.spinner_track),
                spinner_trail: pick(d.spinner_trail, self.spinner_trail),
                comet_color: pick_color(&d.comet_color, self.comet_color),
                glow_color: pick_color(&d.glow_color, self.glow_color),
                sky_glow: pick(d.sky_glow, self.sky_glow),
                star_density: self.star_density,
                star_twinkle: self.star_twinkle,
                comet_enabled: self.comet_enabled,
                comet_interval: self.comet_interval,
                cloud_amount: self.cloud_amount,
                cloud_speed: self.cloud_speed,
                sun_x: self.sun_x,
                sun_y: self.sun_y,
                sun_size: self.sun_size,
                sun_intensity: self.sun_intensity,
                sun_color: self.sun_color,
                glow_x: self.glow_x,
                glow_y: self.glow_y,
                day_haze: self.day_haze,
                star_layers: self.star_layers,
                star_size: self.star_size,
                nebula_speed: self.nebula_speed,
                comet_tilt: self.comet_tilt,
                comet_pause: self.comet_pause,
                comet_width: self.comet_width,
                cloud_lit: self.cloud_lit,
                cloud_shadow: self.cloud_shadow,
                cursor_parallax: self.cursor_parallax,
                glow_pulse: self.glow_pulse,
                synthwave_grid_speed: self.synthwave_grid_speed,
                synthwave_grid_density: self.synthwave_grid_density,
                synthwave_grid_perspective: self.synthwave_grid_perspective,
                synthwave_grid_glow: self.synthwave_grid_glow,
                synthwave_sun_size: self.synthwave_sun_size,
                synthwave_sun_stripes: self.synthwave_sun_stripes,
                synthwave_sun_bloom: self.synthwave_sun_bloom,
                synthwave_horizon: self.synthwave_horizon,
                synthwave_grid_color: self.synthwave_grid_color,
                synthwave_sky_top: self.synthwave_sky_top,
                synthwave_sky_bottom: self.synthwave_sky_bottom,
                storm_lightning_rate: self.storm_lightning_rate,
                storm_strike_chance: self.storm_strike_chance,
                storm_cloud_density: self.storm_cloud_density,
                storm_bolt_color: self.storm_bolt_color,
                storm_flash_color: self.storm_flash_color,
                rain_fall_speed: self.rain_fall_speed,
                rain_density: self.rain_density,
                rain_slant: self.rain_slant,
                rain_intensity: self.rain_intensity,
                rain_color: self.rain_color,
                snow_fall_speed: self.snow_fall_speed,
                snow_density: self.snow_density,
                snow_sway: self.snow_sway,
                snow_flake_size: self.snow_flake_size,
                snow_color: self.snow_color,
                fire_rise_speed: self.fire_rise_speed,
                fire_flame_height: self.fire_flame_height,
                fire_flame_color: self.fire_flame_color,
                fire_tip_color: self.fire_tip_color,
                aurora_speed: self.aurora_speed,
                aurora_drop: self.aurora_drop,
                aurora_ray_freq: self.aurora_ray_freq,
                aurora_intensity: self.aurora_intensity,
                aurora_green: self.aurora_green,
                aurora_magenta: self.aurora_magenta,
                plasma_speed: self.plasma_speed,
                plasma_scale: self.plasma_scale,
                plasma_saturation: self.plasma_saturation,
                plasma_tint: self.plasma_tint,
                water_speed: self.water_speed,
                water_scale: self.water_scale,
                water_ripple: self.water_ripple,
                water_caustic: self.water_caustic,
                water_caustic_color: self.water_caustic_color,
                water_deep: self.water_deep,
                water_shallow: self.water_shallow,
                card_gradient: self.card_gradient,
                grain: self.grain,
                vignette: self.vignette,
                card_blur: self.card_blur,
                spinner_size: self.spinner_size,
                spinner_pulse: self.spinner_pulse,
                spinner_orbit: self.spinner_orbit,
                spinner_style: self.spinner_style,
                card_shadow_blur: self.card_shadow_blur,
                card_shadow_opacity: self.card_shadow_opacity,
                accent_breathing: self.accent_breathing,
                field_radius: self.field_radius,
                error_color: pick_color(&d.error_color, self.error_color),
                logo_box: pick_color(&d.logo_box, self.logo_box),
                logo_box_radius: self.logo_box_radius,
                clock_24h: self.clock_24h,
                clock_seconds: self.clock_seconds,
                clock_size: self.clock_size,
                clock_style: self.clock_style,
                clock_format: self.clock_format,
                font_scale: self.font_scale,
                font_weight: self.font_weight,
                fade_ms: self.fade_ms,
                glow_falloff: self.glow_falloff,
                nebula_amount: self.nebula_amount,
                comet_tail_decay: self.comet_tail_decay,
                spinner_ring: self.spinner_ring,
            },
        }
    }
}

impl Default for Theme {
    /// The built-in beautiful default: a dark, Tokyo-Night palette with a
    /// translucent card and a soft blue accent. Renders fully even with no assets.
    fn default() -> (t: Theme)
        ensures
            t == night_theme(),
    {
        Theme {
            wallpaper: None,
            background: Color { r: 0x1a, g: 0x1b, b: 0x26, a: 0xff },
            card: Color { r: 0x16, g: 0x16, b: 0x1e, a: 0xd8 },
            accent: Color { r: 0x7a, g: 0xa2, b: 0xf7, a: 0xff },
            foreground: Color { r: 0xc0, g: 0xca, b: 0xf5, a: 0xff },
            muted: Color { r: 0x56, g: 0x5f, b: 0x89, a: 0xff },
            field: Color { r: 0x29, g: 0x2e, b: 0x42, a: 0xff },
            logo: None,
            font: None,
            corner_radius: 0x41800000,
            card_width: 0x43960000,
            card_pos: CardPos::Center,
            show_clock: true,
            animate: true,
            is_day: false,
            sky_mode: SkyMode::Auto,
            reduced_motion: false,
            gpu_level: GpuLevel::High,
            spinner_glow: 0x3f800000,
            spinner_speed: 0x40200000,
            spinner_comet: Color { r: 0x7d, g: 0xcf, b: 0xff, a: 0xff },
            spinner_track: Color { r: 0x7a, g: 0xa2, b: 0xf7, a: 0xff },
            spinner_trail: 0x3f800000,
            comet_color: Color { r: 0x7d, g: 0xcf, b: 0xff, a: 0xff },
            glow_color: Color { r: 0x3d, g: 0x59, b: 0xa1, a: 0xff },
            sky_glow: 0x3f000000,
            star_density: 0x3ef0a3d7,
            star_twinkle: 0x3f800000,
            comet_enabled: true,
            comet_interval: 0x41180000,
            cloud_amount: 0x3f800000,
            cloud_speed: 0x3f800000,
            sun_x: 0x3e75c28f,
            sun_y: 0x3e3851ec,
            sun_size: 0x3e800000,
            sun_intensity: 0x3ec28f5c,
            sun_color: Color { r: 0xff, g: 0xe8, b: 0xb0, a: 0xff },
            glow_x: 0x3f000000,
            glow_y: 0x3ee147ae,
            day_haze: 0x3e800000,
            star_layers: 0x40400000,
            star_size: 0x3f800000,
            nebula_speed: 0x3f800000,
            comet_tilt: 0x00000000,
            comet_pause: 0x40200000,
            comet_width: 0x3f800000,
            cloud_lit: Color { r: 0xff, g: 0xff, b: 0xff, a: 0xff },
            cloud_shadow: Color { r: 0xb4, g: 0xc2, b: 0xdb, a: 0xff },
            cursor_parallax: 0x3f800000,
            glow_pulse: 0x00000000,
            synthwave_grid_speed: 0x3f99999a,
            synthwave_grid_density: 0x3f0ccccd,
            synthwave_grid_perspective: 0x3f19999a,
            synthwave_grid_glow: 0x3f333333,
            synthwave_sun_size: 0x3e6147ae,
            synthwave_sun_stripes: 0x42f00000,
            synthwave_sun_bloom: 0x3e800000,
            synthwave_horizon: 0x3f0f5c29,
            synthwave_grid_color: Color { r: 0x00, g: 0xe6, b: 0xff, a: 0xff },
            synthwave_sky_top: Color { r: 0x29, g: 0x0d, b: 0x47, a: 0xff },
            synthwave_sky_bottom: Color { r: 0xf2, g: 0x45, b: 0x8c, a: 0xff },
            storm_lightning_rate: 0x3f4ccccd,
            storm_strike_chance: 0x3ea3d70a,
            storm_cloud_density: 0x3f800000,
            storm_bolt_color: Color { r: 0xd9, g: 0xe6, b: 0xff, a: 0xff },
            storm_flash_color: Color { r: 0x8c, g: 0x99, b: 0xcc, a: 0xff },
            rain_fall_speed: 0x40a00000,
            rain_density: 0x3d8f5c29,
            rain_slant: 0x40800000,
            rain_intensity: 0x3f000000,
            rain_color: Color { r: 0x8c, g: 0x9e, b: 0xb8, a: 0xff },
            snow_fall_speed: 0x3f666666,
            snow_density: 0x3e0f5c29,
            snow_sway: 0x3f19999a,
            snow_flake_size: 0x41900000,
            snow_color: Color { r: 0xff, g: 0xff, b: 0xff, a: 0xff },
            fire_rise_speed: 0x40000000,
            fire_flame_height: 0x3e6147ae,
            fire_flame_color: Color { r: 0xff, g: 0x4b, b: 0x0d, a: 0xff },
            fire_tip_color: Color { r: 0xff, g: 0xe6, b: 0x80, a: 0xff },
            aurora_speed: 0x3df5c28f,
            aurora_drop: 0x404ccccd,
            aurora_ray_freq: 0x42480000,
            aurora_intensity: 0x3f19999a,
            aurora_green: Color { r: 0x2e, g: 0xff, b: 0xa8, a: 0xff },
            aurora_magenta: Color { r: 0x9e, g: 0x4d, b: 0xff, a: 0xff },
            plasma_speed: 0x3f000000,
            plasma_scale: 0x41000000,
            plasma_saturation: 0x3f000000,
            plasma_tint: Color { r: 0xff, g: 0xff, b: 0xff, a: 0xff },
            water_speed: 0x3f19999a,
            water_scale: 0x40a00000,
            water_ripple: 0x3f19999a,
            water_caustic: 0x3f59999a,
            water_caustic_color: Color { r: 0x73, g: 0xf2, b: 0xff, a: 0xff },
            water_deep: Color { r: 0x00, g: 0x1f, b: 0x38, a: 0xff },
            water_shallow: Color { r: 0x00, g: 0x4d, b: 0x6b, a: 0xff },
            card_gradient: 0x3ee66666,
            grain: 0x00000000,
            vignette: 0x3e4ccccd,
            card_blur: true,
            spinner_size: 0x42500000,
            spinner_pulse: 0x3f800000,
            spinner_orbit: 0x3e99999a,
            spinner_style: SpinnerStyle::Comet,
            card_shadow_blur: 0x42080000,
            card_shadow_opacity: 0x3ee66666,
            accent_breathing: 0x3f800000,
            field_radius: 0x41200000,
            error_color: Color { r: 0xf7, g: 0x76, b: 0x8e, a: 0xff },
            logo_box: Color { r: 0x00, g: 0x00, b: 0x00, a: 0x00 },
            logo_box_radius: 0x41600000,
            clock_24h: true,
            clock_seconds: false,
            clock_size: 0x42600000,
            clock_style: ClockStyle::Digital,
            clock_format: None,
            font_scale: 0x3f800000,
            font_weight: FontWeight::Regular,
            fade_ms: 0x43c00000,
            glow_falloff: 0x404ccccd,
            nebula_amount: 0x3df5c28f,
            comet_tail_decay: 0x41100000,
            spinner_ring: 0x3dcccccd,
        }
    }
}

impl Default for ThemeFile {
    /// A file that sets nothing.
    fn default() -> (f: ThemeFile)
        ensures
            f == empty_file(),
    {
        ThemeFile {
            wallpaper: None,
            background: None,
            card: None,
            accent: None,
            foreground: None,
            muted: None,
            field: None,
            font: None,
            logo: None,
            corner_radius: None,
            card_width: None,
            card_pos: None,
            show_clock: None,
            animate: None,
            sky_mode: None,
            reduced_motion: None,
            gpu_level: None,
            spinner_glow: None,
            spinner_speed: None,
            spinner_comet: None,
            spinner_track: None,
            spinner_trail: None,
            comet_color: None,
            glow_color: None,
            sky_glow: None,
            star_density: None,
            star_twinkle: None,
            comet_enabled: None,
            comet_interval: None,
            cloud_amount: None,
            cloud_speed: None,
            sun_x: None,
            sun_y: None,
            sun_size: None,
            sun_intensity: None,
            sun_color: None,
            glow_x: None,
            glow_y: None,
            day_haze: None,
            star_layers: None,
            star_size: None,
            nebula_speed: None,
            comet_tilt: None,
            comet_pause: None,
            comet_width: None,
            cloud_lit: None,
            cloud_shadow: None,
            cursor_parallax: None,
            glow_pulse: None,
            synthwave_grid_speed: None,
            synthwave_grid_density: None,
            synthwave_grid_perspective: None,
            synthwave_grid_glow: None,
            synthwave_sun_size: None,
            synthwave_sun_stripes: None,
            synthwave_sun_bloom: None,
            synthwave_horizon: None,
            synthwave_grid_color: None,
            synthwave_sky_top: None,
            synthwave_sky_bottom: None,
            storm_lightning_rate: None,
            storm_strike_chance: None,
            storm_cloud_density: None,
            storm_bolt_color: None,
            storm_flash_color: None,
            rain_fall_speed: None,
            rain_density: None,
            rain_slant: None,
            rain_intensity: None,
            rain_color: None,
            snow_fall_speed: None,
            snow_density: None,
            snow_sway: None,
            snow_flake_size: None,
            snow_color: None,
            fire_rise_speed: None,
            fire_flame_height: None,
            fire_flame_color: None,
            fire_tip_color: None,
            aurora_speed: None,
            aurora_drop: None,
            aurora_ray_freq: None,
            aurora_intensity: None,
            aurora_green: None,
            aurora_magenta: None,
            plasma_speed: None,
            plasma_scale: None,
            plasma_saturation: None,
            plasma_tint: None,
            water_speed: None,
            water_scale: None,
            water_ripple: None,
            water_caustic: None,
            water_caustic_color: None,
            water_deep: None,
            water_shallow: None,
            card_gradient: None,
            grain: None,
            vignette: None,
            card_blur: None,
            spinner_orbit: None,
            spinner_style: None,
            spinner_size: None,
            spinner_pulse: None,
            card_shadow_blur: None,
            card_shadow_opacity: None,
            accent_breathing: None,
            field_radius: None,
            error_color: None,
            logo_box: None,
            logo_box_radius: None,
            clock_24h: None,
            clock_seconds: None,
            clock_size: None,
            clock_style: None,
            clock_format: None,
            font_scale: None,
            font_weight: None,
            fade_ms: None,
            glow_falloff: None,
            nebula_amount: None,
            comet_tail_decay: None,
            spinner_ring: None,
            day_start: None,
            day_end: None,
            day: None,
        }
    }
}

impl Default for DayFile {
    /// A `[day]` table that sets nothing.
    fn default() -> (f: DayFile)
        ensures
            f == empty_day_file(),
    {
        DayFile {
            wallpaper: None,
            background: None,
            card: None,
            accent: None,
            foreground: None,
            muted: None,
            field: None,
            logo: None,
            spinner_glow: None,
            spinner_comet: None,
            spinner_track: None,
            spinner_trail: None,
            comet_color: None,
            glow_color: None,
            sky_glow: None,
            error_color: None,
            logo_box: None,
        }
    }
}

/// The configured day window in minutes (default 07:00–19:00).
pub open spec fn window_of(file: ThemeFile) -> (u32, u32) {
    let start = match file.day_start {
        Some(s) => match hhmm_minutes(s@) {
            Some(m) => m,
            None => 420u32,
        },
        None => 420u32,
    };
    let end = match file.day_end {
        Some(s) => match hhmm_minutes(s@) {
            Some(m) => m,
            None => 1140u32,
        },
        None => 1140u32,
    };
    (start, end)
}

/// The file a load falls back to when there is none (or it did not parse).
pub open spec fn file_or_empty(file: Option<ThemeFile>) -> ThemeFile {
    match file {
        Some(f) => f,
        None => empty_file(),
    }
}

/// The night variant a file describes: its top level over the built-in night palette.
pub open spec fn night_of(file: ThemeFile) -> Theme {
    night_theme().merged_spec(file)
}

/// The day variant a file describes: the built-in day palette, the file's shared
/// keys, then its `[day]` table.
pub open spec fn day_of(file: ThemeFile) -> Theme {
    day_theme().merged_structural_spec(file).merged_day_spec(file.day)
}

/// The theme the surfaces render at local time `now` (minutes since midnight) in
/// calendar month `month`: an explicit scene pins the night palette, while the
/// auto and seasonal selectors follow the day window; the selector is resolved by
/// month to the scene recorded, and reduced motion applied.
pub open spec fn theme_at(file: ThemeFile, now: u32, month: u32) -> Theme {
    let selected = overlay(file.sky_mode, SkyMode::Auto);
    let mode = resolved_mode(selected, month);
    let (start, end) = window_of(file);
    let use_day = match mode_prefers_day(selected) {
        Some(day) => day,
        None => within(now, start, end),
    };
    let base = if use_day {
        day_of(file)
    } else {
        night_of(file)
    };
    Theme { sky_mode: mode, ..base }.calmed()
}

impl Theme {
    /// The theme with all motion stilled when `reduced_motion` is set; unchanged otherwise.
    pub open spec fn calmed(self) -> Theme {
        if self.reduced_motion {
            Theme {
                animate: false,
                accent_breathing: 0,
                grain: 0,
                cursor_parallax: 0,
                glow_pulse: 0,
                fade_ms: 0,
                spinner_speed: 0,
                spinner_pulse: 0,
                star_twinkle: 0,
                comet_enabled: false,
                ..self
            }
        } else {
            self
        }
    }

    /// Accessibility: still all motion. A no-op unless `reduced_motion` is set; called
    /// after load so the config keeps its real values but the rendered theme is calm.
    pub fn apply_reduced_motion(&mut self)
        ensures
            *final(self) == old(self).calmed(),
    {
        if !self.reduced_motion {
            return;
        }
        self.animate = false;
        self.accent_breathing = 0;
        self.grain = 0;
        self.cursor_parallax = 0;
        self.glow_pulse = 0;
        self.fade_ms = 0;
        self.spinner_speed = 0;
        self.spinner_pulse = 0;
        self.star_twinkle = 0;
        self.comet_enabled = false;
    }

    /// Resolve the theme from a config file's parse result, merged over the
    /// default. `None` (no readable file, or one that failed to parse) leaves the
    /// default standing, because the greeter must always render.
    pub fn load(file: Option<ThemeFile>) -> (t: Theme)
        ensures
            t == night_of(file_or_empty(file)),
    {
        let base = Theme::default();
        match file {
            Some(f) => base.merged(&f),
            None => {
                proof {
                    lemma_empty_file_keeps_theme(night_theme());
                }
                base
            },
        }
    }

    /// Resolve the theme for a given local time (`now_minutes` = hour*60+min) and
    /// calendar month, auto-selecting the day or night variant by the configured
    /// window. Night = the config's top-level palette; day = the built-in light
    /// palette with the config's structural keys and its `[day]` table.
    pub fn load_at(file: Option<ThemeFile>, now_minutes: u32, month: u32) -> (t: Theme)
        ensures
            t == theme_at(file_or_empty(file), now_minutes, month),
    {
        let file = match file {
            Some(f) => f,
            None => ThemeFile::default(),
        };
        let selected = match file.sky_mode {
            Some(m) => m,
            None => SkyMode::Auto,
        };
        let mode = selected.resolved(month);
        let (start, end) = day_window(&file);
        let use_day = match selected.prefers_day() {
            Some(day) => day,
            None => in_window(now_minutes, start, end),
        };
        let mut theme = if use_day {
            Theme::day().merged_structural(&file).merged_day(&file.day)
        } else {
            Theme::default().merged(&file)
        };
        theme.sky_mode = mode;
        theme.apply_reduced_motion();
        theme
    }

    /// Both variants + the day window — for the settings editor, which edits both.
    /// `None` (no readable file, or one that failed to parse) gives the built-ins.
    pub fn load_pair(file: Option<ThemeFile>) -> (r: (Theme, Theme, (u32, u32)))
        ensures
            r.0 == night_of(file_or_empty(file)),
            r.1 == day_of(file_or_empty(file)),
            r.2 == window_of(file_or_empty(file)),
    {
        let file = match file {
            Some(f) => f,
            None => ThemeFile::default(),
        };
        Theme::pair_of(&file)
    }

    /// Both variants + the day window from a preset's parse result, the same way
    /// [`load_pair`](Self::load_pair) resolves the live config. A parse error is
    /// passed on so the caller can surface it.
    pub fn parse_pair(parsed: Result<ThemeFile, String>) -> (r: Result<
        (Theme, Theme, (u32, u32)),
        String,
    >)
        ensures
            match parsed {
                Ok(file) => r == Ok::<(Theme, Theme, (u32, u32)), String>(
                    (night_of(file), day_of(file), window_of(file)),
                ),
                Err(e) => r == Err::<(Theme, Theme, (u32, u32)), String>(e),
            },
    {
        match parsed {
            Ok(file) => Ok(Theme::pair_of(&file)),
            Err(e) => Err(e),
        }
    }

    fn pair_of(file: &ThemeFile) -> (r: (Theme, Theme, (u32, u32)))
        ensures
            r.0 == night_of(*file),
            r.1 == day_of(*file),
            r.2 == window_of(*file),
    {
        let window = day_window(file);
        let night = Theme::default().merged(file);
        let day = Theme::day().merged_structural(file).merged_day(&file.day);
        (night, day, window)
    }
}

fn window_end(raw: &Option<String>, fallback: u32) -> (m: u32)
    ensures
        m == (match *raw {
            Some(s) => match hhmm_minutes(s@) {
                Some(v) => v,
                None => fallback,
            },
            None => fallback,
        }),
{
    match raw {
        Some(s) => match parse_hhmm(s.as_str()) {
            Some(v) => v,
            None => fallback,
        },
        None => fallback,
    }
}

/// The configured day window in minutes (default 07:00–19:00).
pub fn day_window(file: &ThemeFile) -> (w: (u32, u32))
    ensures
        w == window_of(*file),
{
    (window_end(&file.day_start, 420), window_end(&file.day_end, 1140))
}

/// A file that sets nothing leaves any theme as it is.
pub proof fn lemma_empty_file_keeps_theme(t: Theme)
    ensures
        t.merged_spec(empty_file()) == t,
        t.merged_structural_spec(empty_file()) == t,
        t.merged_day_spec(None) == t,
        t.merged_day_spec(Some(empty_day_file())) == t,
{
}

/// Loading the day variant never touches its per-variant palette from the top
/// level: the shared keys come from the file, the palette only from `[day]`.
pub proof fn lemma_structural_keeps_palette(t: Theme, file: ThemeFile)
    ensures
        t.merged_structural_spec(file).palette() == t.palette(),
        t.merged_structural_spec(file).is_day == t.is_day,
        t.merged_day_spec(file.day).with_palette(t.palette()) == t,
{
}

/// The night and day variants a file describes agree on every shared key: they
/// differ only in the per-variant palette and the `is_day` flag.
#[verifier::spinoff_prover]
#[verifier::rlimit(60)]
pub proof fn lemma_variants_share_structure(file: ThemeFile)
    ensures
        day_of(file).with_palette(night_of(file).palette()) == (Theme {
            is_day: true,
            ..night_of(file)
        }),
        night_of(file).is_day == false,
        day_of(file).is_day == true,
{
}

/// Reduced motion is idempotent and, when set, leaves nothing animating.
pub proof fn lemma_calmed_is_still(t: Theme)
    ensures
        t.calmed().calmed() == t.calmed(),
        t.reduced_motion ==> !t.calmed().animate && !t.calmed().comet_enabled
            && t.calmed().spinner_speed == 0 && t.calmed().fade_ms == 0,
        !t.reduced_motion ==> t.calmed() == t,
{
}

/// The day/night choice at load: an explicit scene always renders the night
/// palette; auto and seasonal render the day palette exactly inside the window.
pub proof fn lemma_palette_choice(file: ThemeFile, now: u32, month: u32)
    ensures
        ({
            let selected = overlay(file.sky_mode, SkyMode::Auto);
            let mode = resolved_mode(selected, month);
            let (start, end) = window_of(file);
            &&& theme_at(file, now, month).sky_mode == mode
            &&& mode != SkyMode::Seasonal
            &&& mode_prefers_day(selected) is Some ==> !theme_at(file, now, month).is_day
            &&& (selected == SkyMode::Auto || selected == SkyMode::Seasonal)
                ==> theme_at(file, now, month).is_day == within(
                now,
                start,
                end,
            )
        }),
{
}

/// A config sets only the keys it names: merged over any theme, a key the file
/// leaves unset keeps the theme's value, and so does a color key whose text is not
/// `#rrggbb[aa]`; `is_day` is never taken from a file.
pub proof fn lemma_unset_and_bad_keys_keep_their_value(t: Theme, f: ThemeFile)
    ensures
        ({
            let m = t.merged_spec(f);
            &&& m.is_day == t.is_day
            &&& f.wallpaper is None ==> m.wallpaper == t.wallpaper
            &&& f.background is None ==> m.background == t.background
            &&& f.card is None ==> m.card == t.card
            &&& f.accent is None ==> m.accent == t.accent
            &&& f.foreground is None ==> m.foreground == t.foreground
            &&& f.muted is None ==> m.muted == t.muted
            &&& f.field is None ==> m.field == t.field
            &&& f.logo is None ==> m.logo == t.logo
            &&& f.font is None ==> m.font == t.font
            &&& f.corner_radius is None ==> m.corner_radius == t.corner_radius
            &&& f.card_width is None ==> m.card_width == t.card_width
            &&& f.card_pos is None ==> m.card_pos == t.card_pos
            &&& f.show_clock is None ==> m.show_clock == t.show_clock
            &&& f.animate is None ==> m.animate == t.animate
            &&& f.sky_mode is None ==> m.sky_mode == t.sky_mode
            &&& f.reduced_motion is None ==> m.reduced_motion == t.reduced_motion
            &&& f.gpu_level is None ==> m.gpu_level == t.gpu_level
            &&& f.spinner_glow is None ==> m.spinner_glow == t.spinner_glow
            &&& f.spinner_speed is None ==> m.spinner_speed == t.spinner_speed
            &&& f.spinner_comet is None ==> m.spinner_comet == t.spinner_comet
            &&& f.spinner_track is None ==> m.spinner_track == t.spinner_track
            &&& f.spinner_trail is None ==> m.spinner_trail == t.spinner_trail
            &&& f.comet_color is None ==> m.comet_color == t.comet_color
            &&& f.glow_color is None ==> m.glow_color == t.glow_color
            &&& f.sky_glow is None ==> m.sky_glow == t.sky_glow
            &&& f.star_density is None ==> m.star_density == t.star_density
            &&& f.star_twinkle is None ==> m.star_twinkle == t.star_twinkle
            &&& f.comet_enabled is None ==> m.comet_enabled == t.comet_enabled
            &&& f.comet_interval is None ==> m.comet_interval == t.comet_interval
            &&& f.cloud_amount is None ==> m.cloud_amount == t.cloud_amount
            &&& f.cloud_speed is None ==> m.cloud_speed == t.cloud_speed
            &&& f.sun_x is None ==> m.sun_x == t.sun_x
            &&& f.sun_y is None ==> m.sun_y == t.sun_y
            &&& f.sun_size is None ==> m.sun_size == t.sun_size
            &&& f.sun_intensity is None ==> m.sun_intensity == t.sun_intensity
            &&& f.sun_color is None ==> m.sun_color == t.sun_color
            &&& f.glow_x is None ==> m.glow_x == t.glow_x
            &&& f.glow_y is None ==> m.glow_y == t.glow_y
            &&& f.day_haze is None ==> m.day_haze == t.day_haze
            &&& f.star_layers is None ==> m.star_layers == t.star_layers
            &&& f.star_size is None ==> m.star_size == t.star_size
            &&& f.nebula_speed is None ==> m.nebula_speed == t.nebula_speed
            &&& f.comet_tilt is None ==> m.comet_tilt == t.comet_tilt
            &&& f.comet_pause is None ==> m.comet_pause == t.comet_pause
            &&& f.comet_width is None ==> m.comet_width == t.comet_width
            &&& f.cloud_lit is None ==> m.cloud_lit == t.cloud_lit
            &&& f.cloud_shadow is None ==> m.cloud_shadow == t.cloud_shadow
            &&& f.cursor_parallax is None ==> m.cursor_parallax == t.cursor_parallax
            &&& f.glow_pulse is None ==> m.glow_pulse == t.glow_pulse
            &&& f.synthwave_grid_speed is None ==> m.synthwave_grid_speed == t.synthwave_grid_speed
            &&& f.synthwave_grid_density is None ==> m.synthwave_grid_density == t.synthwave_grid_density
            &&& f.synthwave_grid_perspective is None ==> m.synthwave_grid_perspective == t.synthwave_grid_perspective
            &&& f.synthwave_grid_glow is None ==> m.synthwave_grid_glow == t.synthwave_grid_glow
            &&& f.synthwave_sun_size is None ==> m.synthwave_sun_size == t.synthwave_sun_size
            &&& f.synthwave_sun_stripes is None ==> m.synthwave_sun_stripes == t.synthwave_sun_stripes
            &&& f.synthwave_sun_bloom is None ==> m.synthwave_sun_bloom == t.synthwave_sun_bloom
            &&& f.synthwave_horizon is None ==> m.synthwave_horizon == t.synthwave_horizon
            &&& f.synthwave_grid_color is None ==> m.synthwave_grid_color == t.synthwave_grid_color
            &&& f.synthwave_sky_top is None ==> m.synthwave_sky_top == t.synthwave_sky_top
            &&& f.synthwave_sky_bottom is None ==> m.synthwave_sky_bottom == t.synthwave_sky_bottom
            &&& f.storm_lightning_rate is None ==> m.storm_lightning_rate == t.storm_lightning_rate
            &&& f.storm_strike_chance is None ==> m.storm_strike_chance == t.storm_strike_chance
            &&& f.storm_cloud_density is None ==> m.storm_cloud_density == t.storm_cloud_density
            &&& f.storm_bolt_color is None ==> m.storm_bolt_color == t.storm_bolt_color
            &&& f.storm_flash_color is None ==> m.storm_flash_color == t.storm_flash_color
            &&& f.rain_fall_speed is None ==> m.rain_fall_speed == t.rain_fall_speed
            &&& f.rain_density is None ==> m.rain_density == t.rain_density
            &&& f.rain_slant is None ==> m.rain_slant == t.rain_slant
            &&& f.rain_intensity is None ==> m.rain_intensity == t.rain_intensity
            &&& f.rain_color is None ==> m.rain_color == t.rain_color
            &&& f.snow_fall_speed is None ==> m.snow_fall_speed == t.snow_fall_speed
            &&& f.snow_density is None ==> m.snow_density == t.snow_density
            &&& f.snow_sway is None ==> m.snow_sway == t.snow_sway
            &&& f.snow_flake_size is None ==> m.snow_flake_size == t.snow_flake_size
            &&& f.snow_color is None ==> m.snow_color == t.snow_color
            &&& f.fire_rise_speed is None ==> m.fire_rise_speed == t.fire_rise_speed
            &&& f.fire_flame_height is None ==> m.fire_flame_height == t.fire_flame_height
            &&& f.fire_flame_color is None ==> m.fire_flame_color == t.fire_flame_color
            &&& f.fire_tip_color is None ==> m.fire_tip_color == t.fire_tip_color
            &&& f.aurora_speed is None ==> m.aurora_speed == t.aurora_speed
            &&& f.aurora_drop is None ==> m.aurora_drop == t.aurora_drop
            &&& f.aurora_ray_freq is None ==> m.aurora_ray_freq == t.aurora_ray_freq
            &&& f.aurora_intensity is None ==> m.aurora_intensity == t.aurora_intensity
            &&& f.aurora_green is None ==> m.aurora_green == t.aurora_green
            &&& f.aurora_magenta is None ==> m.aurora_magenta == t.aurora_magenta
            &&& f.plasma_speed is None ==> m.plasma_speed == t.plasma_speed
            &&& f.plasma_scale is None ==> m.plasma_scale == t.plasma_scale
            &&& f.plasma_saturation is None ==> m.plasma_saturation == t.plasma_saturation
            &&& f.plasma_tint is None ==> m.plasma_tint == t.plasma_tint
            &&& f.water_speed is None ==> m.water_speed == t.water_speed
            &&& f.water_scale is None ==> m.water_scale == t.water_scale
            &&& f.water_ripple is None ==> m.water_ripple == t.water_ripple
            &&& f.water_caustic is None ==> m.water_caustic == t.water_caustic
            &&& f.water_caustic_color is None ==> m.water_caustic_color == t.water_caustic_color
            &&& f.water_deep is None ==> m.water_deep == t.water_deep
            &&& f.water_shallow is None ==> m.water_shallow == t.water_shallow
            &&& f.card_gradient is None ==> m.card_gradient == t.card_gradient
            &&& f.grain is None ==> m.grain == t.grain
            &&& f.vignette is None ==> m.vignette == t.vignette
            &&& f.card_blur is None ==> m.card_blur == t.card_blur
            &&& f.spinner_size is None ==> m.spinner_size == t.spinner_size
            &&& f.spinner_pulse is None ==> m.spinner_pulse == t.spinner_pulse
            &&& f.spinner_orbit is None ==> m.spinner_orbit == t.spinner_orbit
            &&& f.spinner_style is None ==> m.spinner_style == t.spinner_style
            &&& f.card_shadow_blur is None ==> m.card_shadow_blur == t.card_shadow_blur
            &&& f.card_shadow_opacity is None ==> m.card_shadow_opacity == t.card_shadow_opacity
            &&& f.accent_breathing is None ==> m.accent_breathing == t.accent_breathing
            &&& f.field_radius is None ==> m.field_radius == t.field_radius
            &&& f.error_color is None ==> m.error_color == t.error_color
            &&& f.logo_box is None ==> m.logo_box == t.logo_box
            &&& f.logo_box_radius is None ==> m.logo_box_radius == t.logo_box_radius
            &&& f.clock_24h is None ==> m.clock_24h == t.clock_24h
            &&& f.clock_seconds is None ==> m.clock_seconds == t.clock_seconds
            &&& f.clock_size is None ==> m.clock_size == t.clock_size
            &&& f.clock_style is None ==> m.clock_style == t.clock_style
            &&& f.clock_format is None ==> m.clock_format == t.clock_format
            &&& f.font_scale is None ==> m.font_scale == t.font_scale
            &&& f.font_weight is None ==> m.font_weight == t.font_weight
            &&& f.fade_ms is None ==> m.fade_ms == t.fade_ms
            &&& f.glow_falloff is None ==> m.glow_falloff == t.glow_falloff
            &&& f.nebula_amount is None ==> m.nebula_amount == t.nebula_amount
            &&& f.comet_tail_decay is None ==> m.comet_tail_decay == t.comet_tail_decay
            &&& f.spinner_ring is None ==> m.spinner_ring == t.spinner_ring
            &&& (f.background matches Some(s) && parse_color(s@) is None) ==> m.background == t.background
            &&& (f.card matches Some(s) && parse_color(s@) is None) ==> m.card == t.card
            &&& (f.accent matches Some(s) && parse_color(s@) is None) ==> m.accent == t.accent
            &&& (f.foreground matches Some(s) && parse_color(s@) is None) ==> m.foreground == t.foreground
            &&& (f.muted matches Some(s) && parse_color(s@) is None) ==> m.muted == t.muted
            &&& (f.field matches Some(s) && parse_color(s@) is None) ==> m.field == t.field
            &&& (f.spinner_comet matches Some(s) && parse_color(s@) is None) ==> m.spinner_comet == t.spinner_comet
            &&& (f.spinner_track matches Some(s) && parse_color(s@) is None) ==> m.spinner_track == t.spinner_track
            &&& (f.comet_color matches Some(s) && parse_color(s@) is None) ==> m.comet_color == t.comet_color
            &&& (f.glow_color matches Some(s) && parse_color(s@) is None) ==> m.glow_color == t.glow_color
            &&& (f.sun_color matches Some(s) && parse_color(s@) is None) ==> m.sun_color == t.sun_color
            &&& (f.cloud_lit matches Some(s) && parse_color(s@) is None) ==> m.cloud_lit == t.cloud_lit
            &&& (f.cloud_shadow matches Some(s) && parse_color(s@) is None) ==> m.cloud_shadow == t.cloud_shadow
            &&& (f.synthwave_grid_color matches Some(s) && parse_color(s@) is None) ==> m.synthwave_grid_color == t.synthwave_grid_color
            &&& (f.synthwave_sky_top matches Some(s) && parse_color(s@) is None) ==> m.synthwave_sky_top == t.synthwave_sky_top
            &&& (f.synthwave_sky_bottom matches Some(s) && parse_color(s@) is None) ==> m.synthwave_sky_bottom == t.synthwave_sky_bottom
            &&& (f.storm_bolt_color matches Some(s) && parse_color(s@) is None) ==> m.storm_bolt_color == t.storm_bolt_color
            &&& (f.storm_flash_color matches Some(s) && parse_color(s@) is None) ==> m.storm_flash_color == t.storm_flash_color
            &&& (f.rain_color matches Some(s) && parse_color(s@) is None) ==> m.rain_color == t.rain_color
            &&& (f.snow_color matches Some(s) && parse_color(s@) is None) ==> m.snow_color == t.snow_color
            &&& (f.fire_flame_color matches Some(s) && parse_color(s@) is None) ==> m.fire_flame_color == t.fire_flame_color
            &&& (f.fire_tip_color matches Some(s) && parse_color(s@) is None) ==> m.fire_tip_color == t.fire_tip_color
            &&& (f.aurora_green matches Some(s) && parse_color(s@) is None) ==> m.aurora_green == t.aurora_green
            &&& (f.aurora_magenta matches Some(s) && parse_color(s@) is None) ==> m.aurora_magenta == t.aurora_magenta
            &&& (f.plasma_tint matches Some(s) && parse_color(s@) is None) ==> m.plasma_tint == t.plasma_tint
            &&& (f.water_caustic_color matches Some(s) && parse_color(s@) is None) ==> m.water_caustic_color == t.water_caustic_color
            &&& (f.water_deep matches Some(s) && parse_color(s@) is None) ==> m.water_deep == t.water_deep
            &&& (f.water_shallow matches Some(s) && parse_color(s@) is None) ==> m.water_shallow == t.water_shallow
            &&& (f.error_color matches Some(s) && parse_color(s@) is None) ==> m.error_color == t.error_color
            &&& (f.logo_box matches Some(s) && parse_color(s@) is None) ==> m.logo_box == t.logo_box
        }),
{
}

/// A config's keys win: merged over any theme, every key the file sets is taken,
/// a color key when its text is `#rrggbb[aa]`.
pub proof fn lemma_set_keys_are_taken(t: Theme, f: ThemeFile)
    ensures
        ({
            let m = t.merged_spec(f);
            &&& f.wallpaper matches Some(x) ==> m.wallpaper == Some(x)
            &&& f.background matches Some(s) ==> (parse_color(s@) is Some ==> parse_color(s@) == Some(m.background))
            &&& f.card matches Some(s) ==> (parse_color(s@) is Some ==> parse_color(s@) == Some(m.card))
            &&& f.accent matches Some(s) ==> (parse_color(s@) is Some ==> parse_color(s@) == Some(m.accent))
            &&& f.foreground matches Some(s) ==> (parse_color(s@) is Some ==> parse_color(s@) == Some(m.foreground))
            &&& f.muted matches Some(s) ==> (parse_color(s@) is Some ==> parse_color(s@) == Some(m.muted))
            &&& f.field matches Some(s) ==> (parse_color(s@) is Some ==> parse_color(s@) == Some(m.field))
            &&& f.logo matches Some(x) ==> m.logo == Some(x)
            &&& f.font matches Some(x) ==> m.font == Some(x)
            &&& f.corner_radius matches Some(x) ==> m.corner_radius == x
            &&& f.card_width matches Some(x) ==> m.card_width == x
            &&& f.card_pos matches Some(x) ==> m.card_pos == x
            &&& f.show_clock matches Some(x) ==> m.show_clock == x
            &&& f.animate matches Some(x) ==> m.animate == x
            &&& f.sky_mode matches Some(x) ==> m.sky_mode == x
            &&& f.reduced_motion matches Some(x) ==> m.reduced_motion == x
            &&& f.gpu_level matches Some(x) ==> m.gpu_level == x
            &&& f.spinner_glow matches Some(x) ==> m.spinner_glow == x
            &&& f.spinner_speed matches Some(x) ==> m.spinner_speed == x
            &&& f.spinner_comet matches Some(s) ==> (parse_color(s@) is Some ==> parse_color(s@) == Some(m.spinner_comet))
            &&& f.spinner_track matches Some(s) ==> (parse_color(s@) is Some ==> parse_color(s@) == Some(m.spinner_track))
            &&& f.spinner_trail matches Some(x) ==> m.spinner_trail == x
            &&& f.comet_color matches Some(s) ==> (parse_color(s@) is Some ==> parse_color(s@) == Some(m.comet_color))
            &&& f.glow_color matches Some(s) ==> (parse_color(s@) is Some ==> parse_color(s@) == Some(m.glow_color))
            &&& f.sky_glow matches Some(x) ==> m.sky_glow == x
            &&& f.star_density matches Some(x) ==> m.star_density == x
            &&& f.star_twinkle matches Some(x) ==> m.star_twinkle == x
            &&& f.comet_enabled matches Some(x) ==> m.comet_enabled == x
            &&& f.comet_interval matches Some(x) ==> m.comet_interval == x
            &&& f.cloud_amount matches Some(x) ==> m.cloud_amount == x
            &&& f.cloud_speed matches Some(x) ==> m.cloud_speed == x
            &&& f.sun_x matches Some(x) ==> m.sun_x == x
            &&& f.sun_y matches Some(x) ==> m.sun_y == x
            &&& f.sun_size matches Some(x) ==> m.sun_size == x
            &&& f.sun_intensity matches Some(x) ==> m.sun_intensity == x
            &&& f.sun_color matches Some(s) ==> (parse_color(s@) is Some ==> parse_color(s@) == Some(m.sun_color))
            &&& f.glow_x matches Some(x) ==> m.glow_x == x
            &&& f.glow_y matches Some(x) ==> m.glow_y == x
            &&& f.day_haze matches Some(x) ==> m.day_haze == x
            &&& f.star_layers matches Some(x) ==> m.star_layers == x
            &&& f.star_size matches Some(x) ==> m.star_size == x
            &&& f.nebula_speed matches Some(x) ==> m.nebula_speed == x
            &&& f.comet_tilt matches Some(x) ==> m.comet_tilt == x
            &&& f.comet_pause matches Some(x) ==> m.comet_pause == x
            &&& f.comet_width matches Some(x) ==> m.comet_width == x
            &&& f.cloud_lit matches Some(s) ==> (parse_color(s@) is Some ==> parse_color(s@) == Some(m.cloud_lit))
            &&& f.cloud_shadow matches Some(s) ==> (parse_color(s@) is Some ==> parse_color(s@) == Some(m.cloud_shadow))
            &&& f.cursor_parallax matches Some(x) ==> m.cursor_parallax == x
            &&& f.glow_pulse matches Some(x) ==> m.glow_pulse == x
            &&& f.synthwave_grid_speed matches Some(x) ==> m.synthwave_grid_speed == x
            &&& f.synthwave_grid_density matches Some(x) ==> m.synthwave_grid_density == x
            &&& f.synthwave_grid_perspective matches Some(x) ==> m.synthwave_grid_perspective == x
            &&& f.synthwave_grid_glow matches Some(x) ==> m.synthwave_grid_glow == x
            &&& f.synthwave_sun_size matches Some(x) ==> m.synthwave_sun_size == x
            &&& f.synthwave_sun_stripes matches Some(x) ==> m.synthwave_sun_stripes == x
            &&& f.synthwave_sun_bloom matches Some(x) ==> m.synthwave_sun_bloom == x
            &&& f.synthwave_horizon matches Some(x) ==> m.synthwave_horizon == x
            &&& f.synthwave_grid_color matches Some(s) ==> (parse_color(s@) is Some ==> parse_color(s@) == Some(m.synthwave_grid_color))
            &&& f.synthwave_sky_top matches Some(s) ==> (parse_color(s@) is Some ==> parse_color(s@) == Some(m.synthwave_sky_top))
            &&& f.synthwave_sky_bottom matches Some(s) ==> (parse_color(s@) is Some ==> parse_color(s@) == Some(m.synthwave_sky_bottom))
            &&& f.storm_lightning_rate matches Some(x) ==> m.storm_lightning_rate == x
            &&& f.storm_strike_chance matches Some(x) ==> m.storm_strike_chance == x
            &&& f.storm_cloud_density matches Some(x) ==> m.storm_cloud_density == x
            &&& f.storm_bolt_color matches Some(s) ==> (parse_color(s@) is Some ==> parse_color(s@) == Some(m.storm_bolt_color))
            &&& f.storm_flash_color matches Some(s) ==> (parse_color(s@) is Some ==> parse_color(s@) == Some(m.storm_flash_color))
            &&& f.rain_fall_speed matches Some(x) ==> m.rain_fall_speed == x
            &&& f.rain_density matches Some(x) ==> m.rain_density == x
            &&& f.rain_slant matches Some(x) ==> m.rain_slant == x
            &&& f.rain_intensity matches Some(x) ==> m.rain_intensity == x
            &&& f.rain_color matches Some(s) ==> (parse_color(s@) is Some ==> parse_color(s@) == Some(m.rain_color))
            &&& f.snow_fall_speed matches Some(x) ==> m.snow_fall_speed == x
            &&& f.snow_density matches Some(x) ==> m.snow_density == x
            &&& f.snow_sway matches Some(x) ==> m.snow_sway == x
            &&& f.snow_flake_size matches Some(x) ==> m.snow_flake_size == x
            &&& f.snow_color matches Some(s) ==> (parse_color(s@) is Some ==> parse_color(s@) == Some(m.snow_color))
            &&& f.fire_rise_speed matches Some(x) ==> m.fire_rise_speed == x
            &&& f.fire_flame_height matches Some(x) ==> m.fire_flame_height == x
            &&& f.fire_flame_color matches Some(s) ==> (parse_color(s@) is Some ==> parse_color(s@) == Some(m.fire_flame_color))
            &&& f.fire_tip_color matches Some(s) ==> (parse_color(s@) is Some ==> parse_color(s@) == Some(m.fire_tip_color))
            &&& f.aurora_speed matches Some(x) ==> m.aurora_speed == x
            &&& f.aurora_drop matches Some(x) ==> m.aurora_drop == x
            &&& f.aurora_ray_freq matches Some(x) ==> m.aurora_ray_freq == x
            &&& f.aurora_intensity matches Some(x) ==> m.aurora_intensity == x
            &&& f.aurora_green matches Some(s) ==> (parse_color(s@) is Some ==> parse_color(s@) == Some(m.aurora_green))
            &&& f.aurora_magenta matches Some(s) ==> (parse_color(s@) is Some ==> parse_color(s@) == Some(m.aurora_magenta))
            &&& f.plasma_speed matches Some(x) ==> m.plasma_speed == x
            &&& f.plasma_scale matches Some(x) ==> m.plasma_scale == x
            &&& f.plasma_saturation matches Some(x) ==> m.plasma_saturation == x
            &&& f.plasma_tint matches Some(s) ==> (parse_color(s@) is Some ==> parse_color(s@) == Some(m.plasma_tint))
            &&& f.water_speed matches Some(x) ==> m.water_speed == x
            &&& f.water_scale matches Some(x) ==> m.water_scale == x
            &&& f.water_ripple matches Some(x) ==> m.water_ripple == x
            &&& f.water_caustic matches Some(x) ==> m.water_caustic == x
            &&& f.water_caustic_color matches Some(s) ==> (parse_color(s@) is Some ==> parse_color(s@) == Some(m.water_caustic_color))
            &&& f.water_deep matches Some(s) ==> (parse_color(s@) is Some ==> parse_color(s@) == Some(m.water_deep))
            &&& f.water_shallow matches Some(s) ==> (parse_color(s@) is Some ==> parse_color(s@) == Some(m.water_shallow))
            &&& f.card_gradient matches Some(x) ==> m.card_gradient == x
            &&& f.grain matches Some(x) ==> m.grain == x
            &&& f.vignette matches Some(x) ==> m.vignette == x
            &&& f.card_blur matches Some(x) ==> m.card_blur == x
            &&& f.spinner_size matches Some(x) ==> m.spinner_size == x
            &&& f.spinner_pulse matches Some(x) ==> m.spinner_pulse == x
            &&& f.spinner_orbit matches Some(x) ==> m.spinner_orbit == x
            &&& f.spinner_style matches Some(x) ==> m.spinner_style == x
            &&& f.card_shadow_blur matches Some(x) ==> m.card_shadow_blur == x
            &&& f.card_shadow_opacity matches Some(x) ==> m.card_shadow_opacity == x
            &&& f.accent_breathing matches Some(x) ==> m.accent_breathing == x
            &&& f.field_radius matches Some(x) ==> m.field_radius == x
            &&& f.error_color matches Some(s) ==> (parse_color(s@) is Some ==> parse_color(s@) == Some(m.error_color))
            &&& f.logo_box matches Some(s) ==> (parse_color(s@) is Some ==> parse_color(s@) == Some(m.logo_box))
            &&& f.logo_box_radius matches Some(x) ==> m.logo_box_radius == x
            &&& f.clock_24h matches Some(x) ==> m.clock_24h == x
            &&& f.clock_seconds matches Some(x) ==> m.clock_seconds == x
            &&& f.clock_size matches Some(x) ==> m.clock_size == x
            &&& f.clock_style matches Some(x) ==> m.clock_style == x
            &&& f.clock_format matches Some(x) ==> m.clock_format == Some(x)
            &&& f.font_scale matches Some(x) ==> m.font_scale == x
            &&& f.font_weight matches Some(x) ==> m.font_weight == x
            &&& f.fade_ms matches Some(x) ==> m.fade_ms == x
            &&& f.glow_falloff matches Some(x) ==> m.glow_falloff == x
            &&& f.nebula_amount matches Some(x) ==> m.nebula_amount == x
            &&& f.comet_tail_decay matches Some(x) ==> m.comet_tail_decay == x
            &&& f.spinner_ring matches Some(x) ==> m.spinner_ring == x
        }),
{
}

} // verus!
