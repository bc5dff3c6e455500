//! The settings editor's draft turned into a theme, and the editor's actions that
//! save, export or import a pair of variants.
//!
//! A variant is built from the editor's text fields (each color's hex text, paths,
//! the font and clock format) and its other settings; the first field whose text
//! does not give a value, in the editor's order, is reported by name.
use vstd::prelude::*;

use crate::color::{color_hex, hex_char, lemma_hex_round_trip, parse_color, Color};
use crate::greeter::text_view;
use crate::modes::{CardPos, ClockStyle, FontWeight, GpuLevel, SkyMode, SpinnerStyle};
use crate::settings::{palette_of, scene_colors_of, Draft, DraftView, Palette, SceneColors};
use crate::window::{hhmm_text, minutes_to_hhmm};
use crate::config::{config_lines_of, line_views, pair_tail_of, ConfigLine};
use crate::settings::{slugified, slugify};
use crate::text::{chars_of, is_space, push_str, string_of, trim, trim_end, trim_start, trimmed};
use crate::theme::Theme;

verus! {

/// An optional text setting: unset when its trimmed text is empty.
pub open spec fn set_text(s: Seq<char>) -> Option<Seq<char>> {
    if s.len() == 0 {
        None
    } else {
        Some(s)
    }
}

/// "<label>: '<text>' is not #rrggbb[aa]"
pub open spec fn color_message(label: Seq<char>, text: Seq<char>) -> Seq<char> {
    label + ": '"@ + text + "' is not #rrggbb[aa]"@
}

/// "<label>: '<text>' is not a number"
pub open spec fn number_message(label: Seq<char>, text: Seq<char>) -> Seq<char> {
    label + ": '"@ + text + "' is not a number"@
}

/// "<label>: '<text>' <tail>"
fn field_message(label: &str, text: &String, tail: &str) -> (m: String)
    ensures
        m@ == label@ + ": '"@ + text@ + tail@,
{
    let mut v: Vec<char> = Vec::new();
    push_str(&mut v, label);
    push_str(&mut v, ": '");
    push_str(&mut v, text.as_str());
    push_str(&mut v, tail);
    string_of(&v)
}

/// A color field: its trimmed text parsed, or the message naming it.
fn color_field(label: &str, text: &String) -> (r: Result<Color, String>)
    ensures
        match parse_color(trim(text@)) {
            Some(c) => r == Ok::<Color, String>(c),
            None => r matches Err(e) && e@ == color_message(label@, text@),
        },
{
    let t = string_of(&trimmed(&chars_of(text.as_str())));
    match Color::parse(t.as_str()) {
        Some(c) => Ok(c),
        None => Err(field_message(label, text, "' is not #rrggbb[aa]")),
    }
}

/// A number field: the value the caller parsed, or the message naming it.
fn number_field(label: &str, text: &String, parsed: Option<u32>) -> (r: Result<u32, String>)
    ensures
        match parsed {
            Some(n) => r == Ok::<u32, String>(n),
            None => r matches Err(e) && e@ == number_message(label@, text@),
        },
{
    match parsed {
        Some(n) => Ok(n),
        None => Err(field_message(label, text, "' is not a number")),
    }
}

/// An optional text field: its trimmed text, unset when empty.
fn text_field(text: &String) -> (r: Option<String>)
    ensures
        text_view(r) == set_text(trim(text@)),
{
    let t = trimmed(&chars_of(text.as_str()));
    if t.len() == 0 {
        None
    } else {
        Some(string_of(&t))
    }
}

/// The editor's non-text settings as the theme holds them: strengths and sizes as
/// binary32 bit patterns, flags and choices.
#[derive(Debug, Clone, Copy, PartialEq, Eq, Structural)]
pub struct Knobs {
    pub card_pos: CardPos,
    pub show_clock: bool,
    pub animate: bool,
    pub sky_mode: SkyMode,
    pub reduced_motion: bool,
    pub gpu_level: GpuLevel,
    pub spinner_speed: u32,
    pub logo_box_radius: u32,
    pub star_density: u32,
    pub star_twinkle: u32,
    pub comet_enabled: bool,
    pub comet_interval: u32,
    pub cloud_amount: u32,
    pub cloud_speed: u32,
    pub sun_x: u32,
    pub sun_y: u32,
    pub sun_size: u32,
    pub sun_intensity: u32,
    pub glow_x: u32,
    pub glow_y: u32,
    pub day_haze: u32,
    pub star_layers: u32,
    pub star_size: u32,
    pub nebula_speed: u32,
    pub comet_tilt: u32,
    pub comet_pause: u32,
    pub comet_width: u32,
    pub cursor_parallax: u32,
    pub glow_pulse: u32,
    pub synthwave_grid_speed: u32,
    pub synthwave_grid_density: u32,
    pub synthwave_grid_perspective: u32,
    pub synthwave_grid_glow: u32,
    pub synthwave_sun_size: u32,
    pub synthwave_sun_stripes: u32,
    pub synthwave_sun_bloom: u32,
    pub synthwave_horizon: u32,
    pub storm_lightning_rate: u32,
    pub storm_strike_chance: u32,
    pub storm_cloud_density: u32,
    pub rain_fall_speed: u32,
    pub rain_density: u32,
    pub rain_slant: u32,
    pub rain_intensity: u32,
    pub snow_fall_speed: u32,
    pub snow_density: u32,
    pub snow_sway: u32,
    pub snow_flake_size: u32,
    pub fire_rise_speed: u32,
    pub fire_flame_height: u32,
    pub aurora_speed: u32,
    pub aurora_drop: u32,
    pub aurora_ray_freq: u32,
    pub aurora_intensity: u32,
    pub plasma_speed: u32,
    pub plasma_scale: u32,
    pub plasma_saturation: u32,
    pub water_speed: u32,
    pub water_scale: u32,
    pub water_ripple: u32,
    pub water_caustic: u32,
    pub spinner_style: SpinnerStyle,
    pub card_gradient: u32,
    pub grain: u32,
    pub vignette: u32,
    pub card_blur: bool,
    pub spinner_orbit: u32,
    pub spinner_size: u32,
    pub spinner_pulse: u32,
    pub card_shadow_blur: u32,
    pub card_shadow_opacity: u32,
    pub accent_breathing: u32,
    pub field_radius: u32,
    pub clock_24h: bool,
    pub clock_seconds: bool,
    pub clock_size: u32,
    pub clock_style: ClockStyle,
    pub font_weight: FontWeight,
    pub font_scale: u32,
    pub fade_ms: u32,
    pub glow_falloff: u32,
    pub nebula_amount: u32,
    pub comet_tail_decay: u32,
    pub spinner_ring: u32,
}

/// The settings the editor shows for a theme.
pub open spec fn knobs_of(t: Theme) -> Knobs {
    Knobs {
        card_pos: t.card_pos,
        show_clock: t.show_clock,
        animate: t.animate,
        sky_mode: t.sky_mode,
        reduced_motion: t.reduced_motion,
        gpu_level: t.gpu_level,
        spinner_speed: t.spinner_speed,
        logo_box_radius: t.logo_box_radius,
        star_density: t.star_density,
        star_twinkle: t.star_twinkle,
        comet_enabled: t.comet_enabled,
        comet_interval: t.comet_interval,
        cloud_amount: t.cloud_amount,
        cloud_speed: t.cloud_speed,
        sun_x: t.sun_x,
        sun_y: t.sun_y,
        sun_size: t.sun_size,
        sun_intensity: t.sun_intensity,
        glow_x: t.glow_x,
        glow_y: t.glow_y,
        day_haze: t.day_haze,
        star_layers: t.star_layers,
        star_size: t.star_size,
        nebula_speed: t.nebula_speed,
        comet_tilt: t.comet_tilt,
        comet_pause: t.comet_pause,
        comet_width: t.comet_width,
        cursor_parallax: t.cursor_parallax,
        glow_pulse: t.glow_pulse,
        synthwave_grid_speed: t.synthwave_grid_speed,
        synthwave_grid_density: t.synthwave_grid_density,
        synthwave_grid_perspective: t.synthwave_grid_perspective,
        synthwave_grid_glow: t.synthwave_grid_glow,
        synthwave_sun_size: t.synthwave_sun_size,
        synthwave_sun_stripes: t.synthwave_sun_stripes,
        synthwave_sun_bloom: t.synthwave_sun_bloom,
        synthwave_horizon: t.synthwave_horizon,
        storm_lightning_rate: t.storm_lightning_rate,
        storm_strike_chance: t.storm_strike_chance,
        storm_cloud_density: t.storm_cloud_density,
        rain_fall_speed: t.rain_fall_speed,
        rain_density: t.rain_density,
        rain_slant: t.rain_slant,
        rain_intensity: t.rain_intensity,
        snow_fall_speed: t.snow_fall_speed,
        snow_density: t.snow_density,
        snow_sway: t.snow_sway,
        snow_flake_size: t.snow_flake_size,
        fire_rise_speed: t.fire_rise_speed,
        fire_flame_height: t.fire_flame_height,
        aurora_speed: t.aurora_speed,
        aurora_drop: t.aurora_drop,
        aurora_ray_freq: t.aurora_ray_freq,
        aurora_intensity: t.aurora_intensity,
        plasma_speed: t.plasma_speed,
        plasma_scale: t.plasma_scale,
        plasma_saturation: t.plasma_saturation,
        water_speed: t.water_speed,
        water_scale: t.water_scale,
        water_ripple: t.water_ripple,
        water_caustic: t.water_caustic,
        spinner_style: t.spinner_style,
        card_gradient: t.card_gradient,
        grain: t.grain,
        vignette: t.vignette,
        card_blur: t.card_blur,
        spinner_orbit: t.spinner_orbit,
        spinner_size: t.spinner_size,
        spinner_pulse: t.spinner_pulse,
        card_shadow_blur: t.card_shadow_blur,
        card_shadow_opacity: t.card_shadow_opacity,
        accent_breathing: t.accent_breathing,
        field_radius: t.field_radius,
        clock_24h: t.clock_24h,
        clock_seconds: t.clock_seconds,
        clock_size: t.clock_size,
        clock_style: t.clock_style,
        font_weight: t.font_weight,
        font_scale: t.font_scale,
        fade_ms: t.fade_ms,
        glow_falloff: t.glow_falloff,
        nebula_amount: t.nebula_amount,
        comet_tail_decay: t.comet_tail_decay,
        spinner_ring: t.spinner_ring,
    }
}

impl Knobs {
    /// The settings the editor shows for a theme.
    pub fn from_theme(t: &Theme) -> (k: Knobs)
        ensures
            k == knobs_of(*t),
    {
        Knobs {
            card_pos: t.card_pos,
            show_clock: t.show_clock,
            animate: t.animate,
            sky_mode: t.sky_mode,
            reduced_motion: t.reduced_motion,
            gpu_level: t.gpu_level,
            spinner_speed: t.spinner_speed,
            logo_box_radius: t.logo_box_radius,
            star_density: t.star_density,
            star_twinkle: t.star_twinkle,
            comet_enabled: t.comet_enabled,
            comet_interval: t.comet_interval,
            cloud_amount: t.cloud_amount,
            cloud_speed: t.cloud_speed,
            sun_x: t.sun_x,
            sun_y: t.sun_y,
            sun_size: t.sun_size,
            sun_intensity: t.sun_intensity,
            glow_x: t.glow_x,
            glow_y: t.glow_y,
            day_haze: t.day_haze,
            star_layers: t.star_layers,
            star_size: t.star_size,
            nebula_speed: t.nebula_speed,
            comet_tilt: t.comet_tilt,
            comet_pause: t.comet_pause,
            comet_width: t.comet_width,
            cursor_parallax: t.cursor_parallax,
            glow_pulse: t.glow_pulse,
            synthwave_grid_speed: t.synthwave_grid_speed,
            synthwave_grid_density: t.synthwave_grid_density,
            synthwave_grid_perspective: t.synthwave_grid_perspective,
            synthwave_grid_glow: t.synthwave_grid_glow,
            synthwave_sun_size: t.synthwave_sun_size,
            synthwave_sun_stripes: t.synthwave_sun_stripes,
            synthwave_sun_bloom: t.synthwave_sun_bloom,
            synthwave_horizon: t.synthwave_horizon,
            storm_lightning_rate: t.storm_lightning_rate,
            storm_strike_chance: t.storm_strike_chance,
            storm_cloud_density: t.storm_cloud_density,
            rain_fall_speed: t.rain_fall_speed,
            rain_density: t.rain_density,
            rain_slant: t.rain_slant,
            rain_intensity: t.rain_intensity,
            snow_fall_speed: t.snow_fall_speed,
            snow_density: t.snow_density,
            snow_sway: t.snow_sway,
            snow_flake_size: t.snow_flake_size,
            fire_rise_speed: t.fire_rise_speed,
            fire_flame_height: t.fire_flame_height,
            aurora_speed: t.aurora_speed,
            aurora_drop: t.aurora_drop,
            aurora_ray_freq: t.aurora_ray_freq,
            aurora_intensity: t.aurora_intensity,
            plasma_speed: t.plasma_speed,
            plasma_scale: t.plasma_scale,
            plasma_saturation: t.plasma_saturation,
            water_speed: t.water_speed,
            water_scale: t.water_scale,
            water_ripple: t.water_ripple,
            water_caustic: t.water_caustic,
            spinner_style: t.spinner_style,
            card_gradient: t.card_gradient,
            grain: t.grain,
            vignette: t.vignette,
            card_blur: t.card_blur,
            spinner_orbit: t.spinner_orbit,
            spinner_size: t.spinner_size,
            spinner_pulse: t.spinner_pulse,
            card_shadow_blur: t.card_shadow_blur,
            card_shadow_opacity: t.card_shadow_opacity,
            accent_breathing: t.accent_breathing,
            field_radius: t.field_radius,
            clock_24h: t.clock_24h,
            clock_seconds: t.clock_seconds,
            clock_size: t.clock_size,
            clock_style: t.clock_style,
            font_weight: t.font_weight,
            font_scale: t.font_scale,
            fade_ms: t.fade_ms,
            glow_falloff: t.glow_falloff,
            nebula_amount: t.nebula_amount,
            comet_tail_decay: t.comet_tail_decay,
            spinner_ring: t.spinner_ring,
        }
    }
}

/// The first failing field among the editor's fields before the scene colors, in order.
pub open spec fn build_error_part1(d: DraftView, day: bool, corner_radius: Option<u32>, card_width: Option<u32>) -> Option<Seq<char>> {
    let p = if day { d.day } else { d.night };
    if parse_color(trim(p.background)) is None {
        Some(color_message("Background"@, p.background))
    } else if parse_color(trim(p.card)) is None {
        Some(color_message("Card"@, p.card))
    } else if parse_color(trim(p.field)) is None {
        Some(color_message("Field"@, p.field))
    } else if parse_color(trim(p.accent)) is None {
        Some(color_message("Accent"@, p.accent))
    } else if parse_color(trim(p.foreground)) is None {
        Some(color_message("Foreground"@, p.foreground))
    } else if parse_color(trim(p.muted)) is None {
        Some(color_message("Muted"@, p.muted))
    } else if corner_radius is None {
        Some(number_message("Corner radius"@, d.corner_radius))
    } else if card_width is None {
        Some(number_message("Card width"@, d.card_width))
    } else if parse_color(trim(p.comet)) is None {
        Some(color_message("Comet"@, p.comet))
    } else if parse_color(trim(p.track)) is None {
        Some(color_message("Track"@, p.track))
    } else if parse_color(trim(p.comet_color)) is None {
        Some(color_message("Sky comet"@, p.comet_color))
    } else if parse_color(trim(p.glow_color)) is None {
        Some(color_message("Glow color"@, p.glow_color))
    } else if parse_color(trim(p.error_color)) is None {
        Some(color_message("Error"@, p.error_color))
    } else if parse_color(trim(p.logo_box)) is None {
        Some(color_message("Logo box"@, p.logo_box))
    } else if parse_color(trim(d.scene.sun_color)) is None {
        Some(color_message("Sun color"@, d.scene.sun_color))
    } else if parse_color(trim(d.scene.cloud_lit)) is None {
        Some(color_message("Cloud lit"@, d.scene.cloud_lit))
    } else {
        None
    }
}

/// The first failing field among the editor's fields from the scene colors on, in order.
pub open spec fn build_error_part2(d: DraftView, day: bool, corner_radius: Option<u32>, card_width: Option<u32>) -> Option<Seq<char>> {
    let p = if day { d.day } else { d.night };
    if parse_color(trim(d.scene.cloud_shadow)) is None {
        Some(color_message("Cloud shadow"@, d.scene.cloud_shadow))
    } else if parse_color(trim(d.scene.synthwave_grid_color)) is None {
        Some(color_message("Synthwave grid"@, d.scene.synthwave_grid_color))
    } else if parse_color(trim(d.scene.synthwave_sky_top)) is None {
        Some(color_message("Synthwave sky top"@, d.scene.synthwave_sky_top))
    } else if parse_color(trim(d.scene.synthwave_sky_bottom)) is None {
        Some(color_message("Synthwave sky bottom"@, d.scene.synthwave_sky_bottom))
    } else if parse_color(trim(d.scene.storm_bolt_color)) is None {
        Some(color_message("Storm bolt"@, d.scene.storm_bolt_color))
    } else if parse_color(trim(d.scene.storm_flash_color)) is None {
        Some(color_message("Storm flash"@, d.scene.storm_flash_color))
    } else if parse_color(trim(d.scene.rain_color)) is None {
        Some(color_message("Rain colour"@, d.scene.rain_color))
    } else if parse_color(trim(d.scene.snow_color)) is None {
        Some(color_message("Snow colour"@, d.scene.snow_color))
    } else if parse_color(trim(d.scene.fire_flame_color)) is None {
        Some(color_message("Fire flame"@, d.scene.fire_flame_color))
    } else if parse_color(trim(d.scene.fire_tip_color)) is None {
        Some(color_message("Fire tip"@, d.scene.fire_tip_color))
    } else if parse_color(trim(d.scene.aurora_green)) is None {
        Some(color_message("Aurora green"@, d.scene.aurora_green))
    } else if parse_color(trim(d.scene.aurora_magenta)) is None {
        Some(color_message("Aurora magenta"@, d.scene.aurora_magenta))
    } else if parse_color(trim(d.scene.plasma_tint)) is None {
        Some(color_message("Plasma tint"@, d.scene.plasma_tint))
    } else if parse_color(trim(d.scene.water_caustic_color)) is None {
        Some(color_message("Water caustic"@, d.scene.water_caustic_color))
    } else if parse_color(trim(d.scene.water_deep)) is None {
        Some(color_message("Water deep"@, d.scene.water_deep))
    } else if parse_color(trim(d.scene.water_shallow)) is None {
        Some(color_message("Water shallow"@, d.scene.water_shallow))
    } else {
        None
    }
}

/// The first field, in the editor's order, whose text does not give a value: a
/// color that is not `#rrggbb[aa]` once trimmed, or a number that did not parse
/// (`corner_radius`, `card_width`: `None`); with the message that names it.
pub open spec fn build_error(d: DraftView, day: bool, corner_radius: Option<u32>, card_width: Option<u32>) -> Option<Seq<char>> {
    match build_error_part1(d, day, corner_radius, card_width) {
        Some(e) => Some(e),
        None => build_error_part2(d, day, corner_radius, card_width),
    }
}

/// The values of the fields that are parsed.
pub struct ParsedFields {
    pub background: Color,
    pub card: Color,
    pub field: Color,
    pub accent: Color,
    pub foreground: Color,
    pub muted: Color,
    pub corner_radius: u32,
    pub card_width: u32,
    pub spinner_comet: Color,
    pub spinner_track: Color,
    pub comet_color: Color,
    pub glow_color: Color,
    pub error_color: Color,
    pub logo_box: Color,
    pub sun_color: Color,
    pub cloud_lit: Color,
    pub cloud_shadow: Color,
    pub synthwave_grid_color: Color,
    pub synthwave_sky_top: Color,
    pub synthwave_sky_bottom: Color,
    pub storm_bolt_color: Color,
    pub storm_flash_color: Color,
    pub rain_color: Color,
    pub snow_color: Color,
    pub fire_flame_color: Color,
    pub fire_tip_color: Color,
    pub aurora_green: Color,
    pub aurora_magenta: Color,
    pub plasma_tint: Color,
    pub water_caustic_color: Color,
    pub water_deep: Color,
    pub water_shallow: Color,
}

/// The fields of part 1 parsed: each holds the value its text gives.
pub open spec fn parsed_part1(f: ParsedFields, d: DraftView, day: bool, corner_radius: Option<u32>, card_width: Option<u32>) -> bool {
    let p = if day { d.day } else { d.night };
    &&& parse_color(trim(p.background)) == Some(f.background)
    &&& parse_color(trim(p.card)) == Some(f.card)
    &&& parse_color(trim(p.field)) == Some(f.field)
    &&& parse_color(trim(p.accent)) == Some(f.accent)
    &&& parse_color(trim(p.foreground)) == Some(f.foreground)
    &&& parse_color(trim(p.muted)) == Some(f.muted)
    &&& corner_radius == Some(f.corner_radius)
    &&& card_width == Some(f.card_width)
    &&& parse_color(trim(p.comet)) == Some(f.spinner_comet)
    &&& parse_color(trim(p.track)) == Some(f.spinner_track)
    &&& parse_color(trim(p.comet_color)) == Some(f.comet_color)
    &&& parse_color(trim(p.glow_color)) == Some(f.glow_color)
    &&& parse_color(trim(p.error_color)) == Some(f.error_color)
    &&& parse_color(trim(p.logo_box)) == Some(f.logo_box)
    &&& parse_color(trim(d.scene.sun_color)) == Some(f.sun_color)
    &&& parse_color(trim(d.scene.cloud_lit)) == Some(f.cloud_lit)
}

/// The fields of part 2 parsed: each holds the value its text gives.
pub open spec fn parsed_part2(f: ParsedFields, d: DraftView, day: bool, corner_radius: Option<u32>, card_width: Option<u32>) -> bool {
    let p = if day { d.day } else { d.night };
    &&& parse_color(trim(d.scene.cloud_shadow)) == Some(f.cloud_shadow)
    &&& parse_color(trim(d.scene.synthwave_grid_color)) == Some(f.synthwave_grid_color)
    &&& parse_color(trim(d.scene.synthwave_sky_top)) == Some(f.synthwave_sky_top)
    &&& parse_color(trim(d.scene.synthwave_sky_bottom)) == Some(f.synthwave_sky_bottom)
    &&& parse_color(trim(d.scene.storm_bolt_color)) == Some(f.storm_bolt_color)
    &&& parse_color(trim(d.scene.storm_flash_color)) == Some(f.storm_flash_color)
    &&& parse_color(trim(d.scene.rain_color)) == Some(f.rain_color)
    &&& parse_color(trim(d.scene.snow_color)) == Some(f.snow_color)
    &&& parse_color(trim(d.scene.fire_flame_color)) == Some(f.fire_flame_color)
    &&& parse_color(trim(d.scene.fire_tip_color)) == Some(f.fire_tip_color)
    &&& parse_color(trim(d.scene.aurora_green)) == Some(f.aurora_green)
    &&& parse_color(trim(d.scene.aurora_magenta)) == Some(f.aurora_magenta)
    &&& parse_color(trim(d.scene.plasma_tint)) == Some(f.plasma_tint)
    &&& parse_color(trim(d.scene.water_caustic_color)) == Some(f.water_caustic_color)
    &&& parse_color(trim(d.scene.water_deep)) == Some(f.water_deep)
    &&& parse_color(trim(d.scene.water_shallow)) == Some(f.water_shallow)
}

#[verifier::rlimit(100)]
#[verifier::spinoff_prover]
fn parse_part1(d: &Draft, day: bool, corner_radius: Option<u32>, card_width: Option<u32>, f: &mut ParsedFields) -> (r: Result<(), String>)
    ensures
        match r {
            Ok(_) => build_error_part1(d@, day, corner_radius, card_width) is None && parsed_part1(*final(f), d@, day, corner_radius, card_width),
            Err(e) => build_error_part1(d@, day, corner_radius, card_width) == Some(e@),
        },
{
    let p = if day { &d.day } else { &d.night };
    match color_field("Background", &p.background) {
        Ok(c) => f.background = c,
        Err(e) => return Err(e),
    }
    match color_field("Card", &p.card) {
        Ok(c) => f.card = c,
        Err(e) => return Err(e),
    }
    match color_field("Field", &p.field) {
        Ok(c) => f.field = c,
        Err(e) => return Err(e),
    }
    match color_field("Accent", &p.accent) {
        Ok(c) => f.accent = c,
        Err(e) => return Err(e),
    }
    match color_field("Foreground", &p.foreground) {
        Ok(c) => f.foreground = c,
        Err(e) => return Err(e),
    }
    match color_field("Muted", &p.muted) {
        Ok(c) => f.muted = c,
        Err(e) => return Err(e),
    }
    match number_field("Corner radius", &d.corner_radius, corner_radius) {
        Ok(n) => f.corner_radius = n,
        Err(e) => return Err(e),
    }
    match number_field("Card width", &d.card_width, card_width) {
        Ok(n) => f.card_width = n,
        Err(e) => return Err(e),
    }
    match color_field("Comet", &p.comet) {
        Ok(c) => f.spinner_comet = c,
        Err(e) => return Err(e),
    }
    match color_field("Track", &p.track) {
        Ok(c) => f.spinner_track = c,
        Err(e) => return Err(e),
    }
    match color_field("Sky comet", &p.comet_color) {
        Ok(c) => f.comet_color = c,
        Err(e) => return Err(e),
    }
    match color_field("Glow color", &p.glow_color) {
        Ok(c) => f.glow_color = c,
        Err(e) => return Err(e),
    }
    match color_field("Error", &p.error_color) {
        Ok(c) => f.error_color = c,
        Err(e) => return Err(e),
    }
    match color_field("Logo box", &p.logo_box) {
        Ok(c) => f.logo_box = c,
        Err(e) => return Err(e),
    }
    match color_field("Sun color", &d.scene.sun_color) {
        Ok(c) => f.sun_color = c,
        Err(e) => return Err(e),
    }
    match color_field("Cloud lit", &d.scene.cloud_lit) {
        Ok(c) => f.cloud_lit = c,
        Err(e) => return Err(e),
    }
    Ok(())
}

#[verifier::rlimit(100)]
#[verifier::spinoff_prover]
fn parse_part2(d: &Draft, day: bool, corner_radius: Option<u32>, card_width: Option<u32>, f: &mut ParsedFields) -> (r: Result<(), String>)
    ensures
        match r {
            Ok(_) => build_error_part2(d@, day, corner_radius, card_width) is None && parsed_part2(*final(f), d@, day, corner_radius, card_width),
            Err(e) => build_error_part2(d@, day, corner_radius, card_width) == Some(e@),
        },
        parsed_part1(*old(f), d@, day, corner_radius, card_width) ==> parsed_part1(*final(f), d@, day, corner_radius, card_width),
{
    let p = if day { &d.day } else { &d.night };
    match color_field("Cloud shadow", &d.scene.cloud_shadow) {
        Ok(c) => f.cloud_shadow = c,
        Err(e) => return Err(e),
    }
    match color_field("Synthwave grid", &d.scene.synthwave_grid_color) {
        Ok(c) => f.synthwave_grid_color = c,
        Err(e) => return Err(e),
    }
    match color_field("Synthwave sky top", &d.scene.synthwave_sky_top) {
        Ok(c) => f.synthwave_sky_top = c,
        Err(e) => return Err(e),
    }
    match color_field("Synthwave sky bottom", &d.scene.synthwave_sky_bottom) {
        Ok(c) => f.synthwave_sky_bottom = c,
        Err(e) => return Err(e),
    }
    match color_field("Storm bolt", &d.scene.storm_bolt_color) {
        Ok(c) => f.storm_bolt_color = c,
        Err(e) => return Err(e),
    }
    match color_field("Storm flash", &d.scene.storm_flash_color) {
        Ok(c) => f.storm_flash_color = c,
        Err(e) => return Err(e),
    }
    match color_field("Rain colour", &d.scene.rain_color) {
        Ok(c) => f.rain_color = c,
        Err(e) => return Err(e),
    }
    match color_field("Snow colour", &d.scene.snow_color) {
        Ok(c) => f.snow_color = c,
        Err(e) => return Err(e),
    }
    match color_field("Fire flame", &d.scene.fire_flame_color) {
        Ok(c) => f.fire_flame_color = c,
        Err(e) => return Err(e),
    }
    match color_field("Fire tip", &d.scene.fire_tip_color) {
        Ok(c) => f.fire_tip_color = c,
        Err(e) => return Err(e),
    }
    match color_field("Aurora green", &d.scene.aurora_green) {
        Ok(c) => f.aurora_green = c,
        Err(e) => return Err(e),
    }
    match color_field("Aurora magenta", &d.scene.aurora_magenta) {
        Ok(c) => f.aurora_magenta = c,
        Err(e) => return Err(e),
    }
    match color_field("Plasma tint", &d.scene.plasma_tint) {
        Ok(c) => f.plasma_tint = c,
        Err(e) => return Err(e),
    }
    match color_field("Water caustic", &d.scene.water_caustic_color) {
        Ok(c) => f.water_caustic_color = c,
        Err(e) => return Err(e),
    }
    match color_field("Water deep", &d.scene.water_deep) {
        Ok(c) => f.water_deep = c,
        Err(e) => return Err(e),
    }
    match color_field("Water shallow", &d.scene.water_shallow) {
        Ok(c) => f.water_shallow = c,
        Err(e) => return Err(e),
    }
    Ok(())
}

/// `t` is the theme the editor's fields describe for the chosen variant: every
/// color parsed from its trimmed text, an empty path or text unset, the numbers
/// as given, the variant's strengths from its palette, the rest from `k`.
pub open spec fn built_matches(t: Theme, d: DraftView, k: Knobs, day: bool, corner_radius: Option<u32>, card_width: Option<u32>) -> bool {
    let p = if day { d.day } else { d.night };
    &&& text_view(t.wallpaper) == set_text(trim(p.wallpaper))
    &&& parse_color(trim(p.background)) == Some(t.background)
    &&& parse_color(trim(p.card)) == Some(t.card)
    &&& parse_color(trim(p.field)) == Some(t.field)
    &&& parse_color(trim(p.accent)) == Some(t.accent)
    &&& parse_color(trim(p.foreground)) == Some(t.foreground)
    &&& parse_color(trim(p.muted)) == Some(t.muted)
    &&& text_view(t.logo) == set_text(trim(p.logo))
    &&& text_view(t.font) == set_text(trim(d.font))
    &&& corner_radius == Some(t.corner_radius)
    &&& card_width == Some(t.card_width)
    &&& t.card_pos == k.card_pos
    &&& t.show_clock == k.show_clock
    &&& t.animate == k.animate
    &&& t.is_day == day
    &&& t.sky_mode == k.sky_mode
    &&& t.reduced_motion == k.reduced_motion
    &&& t.gpu_level == k.gpu_level
    &&& t.spinner_glow == p.glow
    &&& t.spinner_speed == k.spinner_speed
    &&& parse_color(trim(p.comet)) == Some(t.spinner_comet)
    &&& parse_color(trim(p.track)) == Some(t.spinner_track)
    &&& t.spinner_trail == p.trail
    &&& parse_color(trim(p.comet_color)) == Some(t.comet_color)
    &&& parse_color(trim(p.glow_color)) == Some(t.glow_color)
    &&& t.sky_glow == p.sky_glow
    &&& parse_color(trim(p.error_color)) == Some(t.error_color)
    &&& parse_color(trim(p.logo_box)) == Some(t.logo_box)
    &&& t.logo_box_radius == k.logo_box_radius
    &&& t.star_density == k.star_density
    &&& t.star_twinkle == k.star_twinkle
    &&& t.comet_enabled == k.comet_enabled
    &&& t.comet_interval == k.comet_interval
    &&& t.cloud_amount == k.cloud_amount
    &&& t.cloud_speed == k.cloud_speed
    &&& t.sun_x == k.sun_x
    &&& t.sun_y == k.sun_y
    &&& t.sun_size == k.sun_size
    &&& t.sun_intensity == k.sun_intensity
    &&& parse_color(trim(d.scene.sun_color)) == Some(t.sun_color)
    &&& t.glow_x == k.glow_x
    &&& t.glow_y == k.glow_y
    &&& t.day_haze == k.day_haze
    &&& t.star_layers == k.star_layers
    &&& t.star_size == k.star_size
    &&& t.nebula_speed == k.nebula_speed
    &&& t.comet_tilt == k.comet_tilt
    &&& t.comet_pause == k.comet_pause
    &&& t.comet_width == k.comet_width
    &&& parse_color(trim(d.scene.cloud_lit)) == Some(t.cloud_lit)
    &&& parse_color(trim(d.scene.cloud_shadow)) == Some(t.cloud_shadow)
    &&& t.cursor_parallax == k.cursor_parallax
    &&& t.glow_pulse == k.glow_pulse
    &&& t.synthwave_grid_speed == k.synthwave_grid_speed
    &&& t.synthwave_grid_density == k.synthwave_grid_density
    &&& t.synthwave_grid_perspective == k.synthwave_grid_perspective
    &&& t.synthwave_grid_glow == k.synthwave_grid_glow
    &&& t.synthwave_sun_size == k.synthwave_sun_size
    &&& t.synthwave_sun_stripes == k.synthwave_sun_stripes
    &&& t.synthwave_sun_bloom == k.synthwave_sun_bloom
    &&& t.synthwave_horizon == k.synthwave_horizon
    &&& parse_color(trim(d.scene.synthwave_grid_color)) == Some(t.synthwave_grid_color)
    &&& parse_color(trim(d.scene.synthwave_sky_top)) == Some(t.synthwave_sky_top)
    &&& parse_color(trim(d.scene.synthwave_sky_bottom)) == Some(t.synthwave_sky_bottom)
    &&& t.storm_lightning_rate == k.storm_lightning_rate
    &&& t.storm_strike_chance == k.storm_strike_chance
    &&& t.storm_cloud_density == k.storm_cloud_density
    &&& parse_color(trim(d.scene.storm_bolt_color)) == Some(t.storm_bolt_color)
    &&& parse_color(trim(d.scene.storm_flash_color)) == Some(t.storm_flash_color)
    &&& t.rain_fall_speed == k.rain_fall_speed
    &&& t.rain_density == k.rain_density
    &&& t.rain_slant == k.rain_slant
    &&& t.rain_intensity == k.rain_intensity
    &&& parse_color(trim(d.scene.rain_color)) == Some(t.rain_color)
    &&& t.snow_fall_speed == k.snow_fall_speed
    &&& t.snow_density == k.snow_density
    &&& t.snow_sway == k.snow_sway
    &&& t.snow_flake_size == k.snow_flake_size
    &&& parse_color(trim(d.scene.snow_color)) == Some(t.snow_color)
    &&& t.fire_rise_speed == k.fire_rise_speed
    &&& t.fire_flame_height == k.fire_flame_height
    &&& parse_color(trim(d.scene.fire_flame_color)) == Some(t.fire_flame_color)
    &&& parse_color(trim(d.scene.fire_tip_color)) == Some(t.fire_tip_color)
    &&& t.aurora_speed == k.aurora_speed
    &&& t.aurora_drop == k.aurora_drop
    &&& t.aurora_ray_freq == k.aurora_ray_freq
    &&& t.aurora_intensity == k.aurora_intensity
    &&& parse_color(trim(d.scene.aurora_green)) == Some(t.aurora_green)
    &&& parse_color(trim(d.scene.aurora_magenta)) == Some(t.aurora_magenta)
    &&& t.plasma_speed == k.plasma_speed
    &&& t.plasma_scale == k.plasma_scale
    &&& t.plasma_saturation == k.plasma_saturation
    &&& parse_color(trim(d.scene.plasma_tint)) == Some(t.plasma_tint)
    &&& t.water_speed == k.water_speed
    &&& t.water_scale == k.water_scale
    &&& t.water_ripple == k.water_ripple
    &&& t.water_caustic == k.water_caustic
    &&& parse_color(trim(d.scene.water_caustic_color)) == Some(t.water_caustic_color)
    &&& parse_color(trim(d.scene.water_deep)) == Some(t.water_deep)
    &&& parse_color(trim(d.scene.water_shallow)) == Some(t.water_shallow)
    &&& t.spinner_style == k.spinner_style
    &&& t.card_gradient == k.card_gradient
    &&& t.grain == k.grain
    &&& t.vignette == k.vignette
    &&& t.card_blur == k.card_blur
    &&& t.spinner_orbit == k.spinner_orbit
    &&& t.spinner_size == k.spinner_size
    &&& t.spinner_pulse == k.spinner_pulse
    &&& t.card_shadow_blur == k.card_shadow_blur
    &&& t.card_shadow_opacity == k.card_shadow_opacity
    &&& t.accent_breathing == k.accent_breathing
    &&& t.field_radius == k.field_radius
    &&& t.clock_24h == k.clock_24h
    &&& t.clock_seconds == k.clock_seconds
    &&& t.clock_size == k.clock_size
    &&& t.clock_style == k.clock_style
    &&& text_view(t.clock_format) == set_text(trim(d.clock_format))
    &&& t.font_weight == k.font_weight
    &&& t.font_scale == k.font_scale
    &&& t.fade_ms == k.fade_ms
    &&& t.glow_falloff == k.glow_falloff
    &&& t.nebula_amount == k.nebula_amount
    &&& t.comet_tail_decay == k.comet_tail_decay
    &&& t.spinner_ring == k.spinner_ring
}

/// Build one variant's theme from the editor's fields: its palette, the shared
/// keys and `knobs`, with the two numbers parsed by the caller (`None` when the
/// text is not a number). The first field that does not give a value, in the
/// editor's order, is the error.
#[verifier::rlimit(100)]
#[verifier::spinoff_prover]
pub fn build_theme(d: &Draft, knobs: &Knobs, day: bool, corner_radius: Option<u32>, card_width: Option<u32>) -> (r: Result<Theme, String>)
    ensures
        match r {
            Ok(t) => build_error(d@, day, corner_radius, card_width) is None && built_matches(t, d@, *knobs, day, corner_radius, card_width),
            Err(e) => build_error(d@, day, corner_radius, card_width) == Some(e@),
        },
{
    let black = Color { r: 0, g: 0, b: 0, a: 0 };
    let mut f = ParsedFields {
        background: black,
        card: black,
        field: black,
        accent: black,
        foreground: black,
        muted: black,
        corner_radius: 0,
        card_width: 0,
        spinner_comet: black,
        spinner_track: black,
        comet_color: black,
        glow_color: black,
        error_color: black,
        logo_box: black,
        sun_color: black,
        cloud_lit: black,
        cloud_shadow: black,
        synthwave_grid_color: black,
        synthwave_sky_top: black,
        synthwave_sky_bottom: black,
        storm_bolt_color: black,
        storm_flash_color: black,
        rain_color: black,
        snow_color: black,
        fire_flame_color: black,
        fire_tip_color: black,
        aurora_green: black,
        aurora_magenta: black,
        plasma_tint: black,
        water_caustic_color: black,
        water_deep: black,
        water_shallow: black,
    };
    match parse_part1(d, day, corner_radius, card_width, &mut f) {
        Ok(_) => {},
        Err(e) => return Err(e),
    }
    match parse_part2(d, day, corner_radius, card_width, &mut f) {
        Ok(_) => {},
        Err(e) => return Err(e),
    }
    let p = if day { &d.day } else { &d.night };
    Ok(Theme {
        wallpaper: text_field(&p.wallpaper),
        background: f.background,
        card: f.card,
        field: f.field,
        accent: f.accent,
        foreground: f.foreground,
        muted: f.muted,
        logo: text_field(&p.logo),
        font: text_field(&d.font),
        corner_radius: f.corner_radius,
        card_width: f.card_width,
        card_pos: knobs.card_pos,
        show_clock: knobs.show_clock,
        animate: knobs.animate,
        is_day: day,
        sky_mode: knobs.sky_mode,
        reduced_motion: knobs.reduced_motion,
        gpu_level: knobs.gpu_level,
        spinner_glow: p.glow,
        spinner_speed: knobs.spinner_speed,
        spinner_comet: f.spinner_comet,
        spinner_track: f.spinner_track,
        spinner_trail: p.trail,
        comet_color: f.comet_color,
        glow_color: f.glow_color,
        sky_glow: p.sky_glow,
        error_color: f.error_color,
        logo_box: f.logo_box,
        logo_box_radius: knobs.logo_box_radius,
        star_density: knobs.star_density,
        star_twinkle: knobs.star_twinkle,
        comet_enabled: knobs.comet_enabled,
        comet_interval: knobs.comet_interval,
        cloud_amount: knobs.cloud_amount,
        cloud_speed: knobs.cloud_speed,
        sun_x: knobs.sun_x,
        sun_y: knobs.sun_y,
        sun_size: knobs.sun_size,
        sun_intensity: knobs.sun_intensity,
        sun_color: f.sun_color,
        glow_x: knobs.glow_x,
        glow_y: knobs.glow_y,
        day_haze: knobs.day_haze,
        star_layers: knobs.star_layers,
        star_size: knobs.star_size,
        nebula_speed: knobs.nebula_speed,
        comet_tilt: knobs.comet_tilt,
        comet_pause: knobs.comet_pause,
        comet_width: knobs.comet_width,
        cloud_lit: f.cloud_lit,
        cloud_shadow: f.cloud_shadow,
        cursor_parallax: knobs.cursor_parallax,
        glow_pulse: knobs.glow_pulse,
        synthwave_grid_speed: knobs.synthwave_grid_speed,
        synthwave_grid_density: knobs.synthwave_grid_density,
        synthwave_grid_perspective: knobs.synthwave_grid_perspective,
        synthwave_grid_glow: knobs.synthwave_grid_glow,
        synthwave_sun_size: knobs.synthwave_sun_size,
        synthwave_sun_stripes: knobs.synthwave_sun_stripes,
        synthwave_sun_bloom: knobs.synthwave_sun_bloom,
        synthwave_horizon: knobs.synthwave_horizon,
        synthwave_grid_color: f.synthwave_grid_color,
        synthwave_sky_top: f.synthwave_sky_top,
        synthwave_sky_bottom: f.synthwave_sky_bottom,
        storm_lightning_rate: knobs.storm_lightning_rate,
        storm_strike_chance: knobs.storm_strike_chance,
        storm_cloud_density: knobs.storm_cloud_density,
        storm_bolt_color: f.storm_bolt_color,
        storm_flash_color: f.storm_flash_color,
        rain_fall_speed: knobs.rain_fall_speed,
        rain_density: knobs.rain_density,
        rain_slant: knobs.rain_slant,
        rain_intensity: knobs.rain_intensity,
        rain_color: f.rain_color,
        snow_fall_speed: knobs.snow_fall_speed,
        snow_density: knobs.snow_density,
        snow_sway: knobs.snow_sway,
        snow_flake_size: knobs.snow_flake_size,
        snow_color: f.snow_color,
        fire_rise_speed: knobs.fire_rise_speed,
        fire_flame_height: knobs.fire_flame_height,
        fire_flame_color: f.fire_flame_color,
        fire_tip_color: f.fire_tip_color,
        aurora_speed: knobs.aurora_speed,
        aurora_drop: knobs.aurora_drop,
        aurora_ray_freq: knobs.aurora_ray_freq,
        aurora_intensity: knobs.aurora_intensity,
        aurora_green: f.aurora_green,
        aurora_magenta: f.aurora_magenta,
        plasma_speed: knobs.plasma_speed,
        plasma_scale: knobs.plasma_scale,
        plasma_saturation: knobs.plasma_saturation,
        plasma_tint: f.plasma_tint,
        water_speed: knobs.water_speed,
        water_scale: knobs.water_scale,
        water_ripple: knobs.water_ripple,
        water_caustic: knobs.water_caustic,
        water_caustic_color: f.water_caustic_color,
        water_deep: f.water_deep,
        water_shallow: f.water_shallow,
        spinner_style: knobs.spinner_style,
        card_gradient: knobs.card_gradient,
        grain: knobs.grain,
        vignette: knobs.vignette,
        card_blur: knobs.card_blur,
        spinner_orbit: knobs.spinner_orbit,
        spinner_size: knobs.spinner_size,
        spinner_pulse: knobs.spinner_pulse,
        card_shadow_blur: knobs.card_shadow_blur,
        card_shadow_opacity: knobs.card_shadow_opacity,
        accent_breathing: knobs.accent_breathing,
        field_radius: knobs.field_radius,
        clock_24h: knobs.clock_24h,
        clock_seconds: knobs.clock_seconds,
        clock_size: knobs.clock_size,
        clock_style: knobs.clock_style,
        clock_format: text_field(&d.clock_format),
        font_weight: knobs.font_weight,
        font_scale: knobs.font_scale,
        fade_ms: knobs.fade_ms,
        glow_falloff: knobs.glow_falloff,
        nebula_amount: knobs.nebula_amount,
        comet_tail_decay: knobs.comet_tail_decay,
        spinner_ring: knobs.spinner_ring,
    })
}

/// A color's hex text has no surrounding whitespace.
proof fn lemma_hex_is_trimmed(c: Color)
    ensures
        trim(color_hex(c)) == color_hex(c),
{
    let s = color_hex(c);
    assert(s[0] == '#');
    assert(!is_space(s.last())) by {
        let d = if c.a == 0xff { c.b % 16 } else { c.a % 16 };
        assert(s.last() == hex_char(d));
    }
    assert(trim_start(s) == s);
    assert(trim_end(s) == s);
}

/// What the editor shows for an optional text: the text, or empty when unset.
pub open spec fn shown_text(t: Option<String>) -> Seq<char> {
    match t {
        Some(s) => s@,
        None => Seq::empty(),
    }
}

/// An optional text the editor can show and read back: unset, or non-empty with
/// no surrounding whitespace.
pub open spec fn plain_text(t: Option<String>) -> bool {
    t matches Some(s) ==> (s@.len() > 0 && trim(s@) == s@)
}

/// Building from the fields the editor shows for a theme gives that theme back:
/// no field is in error, and the theme is the one the fields describe. (Optional
/// texts must be as the editor would keep them: unset, or non-empty and trimmed.)
#[verifier::rlimit(100)]
#[verifier::spinoff_prover]
pub proof fn lemma_shown_theme_builds_back(t: Theme, d: DraftView, k: Knobs, day: bool)
    requires
        (if day { d.day } else { d.night }) == palette_of(t),
        d.scene == scene_colors_of(t),
        d.font == shown_text(t.font),
        d.clock_format == shown_text(t.clock_format),
        k == knobs_of(t),
        t.is_day == day,
        plain_text(t.wallpaper),
        plain_text(t.logo),
        plain_text(t.font),
        plain_text(t.clock_format),
    ensures
        build_error(d, day, Some(t.corner_radius), Some(t.card_width)) is None,
        built_matches(t, d, k, day, Some(t.corner_radius), Some(t.card_width)),
{
    let p = if day { d.day } else { d.night };
    assert(parse_color(trim(p.background)) == Some(t.background)) by {
        lemma_hex_round_trip(t.background);
        lemma_hex_is_trimmed(t.background);
    }
    assert(parse_color(trim(p.card)) == Some(t.card)) by {
        lemma_hex_round_trip(t.card);
        lemma_hex_is_trimmed(t.card);
    }
    assert(parse_color(trim(p.field)) == Some(t.field)) by {
        lemma_hex_round_trip(t.field);
        lemma_hex_is_trimmed(t.field);
    }
    assert(parse_color(trim(p.accent)) == Some(t.accent)) by {
        lemma_hex_round_trip(t.accent);
        lemma_hex_is_trimmed(t.accent);
    }
    assert(parse_color(trim(p.foreground)) == Some(t.foreground)) by {
        lemma_hex_round_trip(t.foreground);
        lemma_hex_is_trimmed(t.foreground);
    }
    assert(parse_color(trim(p.muted)) == Some(t.muted)) by {
        lemma_hex_round_trip(t.muted);
        lemma_hex_is_trimmed(t.muted);
    }
    assert(parse_color(trim(p.comet)) == Some(t.spinner_comet)) by {
        lemma_hex_round_trip(t.spinner_comet);
        lemma_hex_is_trimmed(t.spinner_comet);
    }
    assert(parse_color(trim(p.track)) == Some(t.spinner_track)) by {
        lemma_hex_round_trip(t.spinner_track);
        lemma_hex_is_trimmed(t.spinner_track);
    }
    assert(parse_color(trim(p.comet_color)) == Some(t.comet_color)) by {
        lemma_hex_round_trip(t.comet_color);
        lemma_hex_is_trimmed(t.comet_color);
    }
    assert(parse_color(trim(p.glow_color)) == Some(t.glow_color)) by {
        lemma_hex_round_trip(t.glow_color);
        lemma_hex_is_trimmed(t.glow_color);
    }
    assert(parse_color(trim(p.error_color)) == Some(t.error_color)) by {
        lemma_hex_round_trip(t.error_color);
        lemma_hex_is_trimmed(t.error_color);
    }
    assert(parse_color(trim(p.logo_box)) == Some(t.logo_box)) by {
        lemma_hex_round_trip(t.logo_box);
        lemma_hex_is_trimmed(t.logo_box);
    }
    assert(parse_color(trim(d.scene.sun_color)) == Some(t.sun_color)) by {
        lemma_hex_round_trip(t.sun_color);
        lemma_hex_is_trimmed(t.sun_color);
    }
    assert(parse_color(trim(d.scene.cloud_lit)) == Some(t.cloud_lit)) by {
        lemma_hex_round_trip(t.cloud_lit);
        lemma_hex_is_trimmed(t.cloud_lit);
    }
    assert(parse_color(trim(d.scene.cloud_shadow)) == Some(t.cloud_shadow)) by {
        lemma_hex_round_trip(t.cloud_shadow);
        lemma_hex_is_trimmed(t.cloud_shadow);
    }
    assert(parse_color(trim(d.scene.synthwave_grid_color)) == Some(t.synthwave_grid_color)) by {
        lemma_hex_round_trip(t.synthwave_grid_color);
        lemma_hex_is_trimmed(t.synthwave_grid_color);
    }
    assert(parse_color(trim(d.scene.synthwave_sky_top)) == Some(t.synthwave_sky_top)) by {
        lemma_hex_round_trip(t.synthwave_sky_top);
        lemma_hex_is_trimmed(t.synthwave_sky_top);
    }
    assert(parse_color(trim(d.scene.synthwave_sky_bottom)) == Some(t.synthwave_sky_bottom)) by {
        lemma_hex_round_trip(t.synthwave_sky_bottom);
        lemma_hex_is_trimmed(t.synthwave_sky_bottom);
    }
    assert(parse_color(trim(d.scene.storm_bolt_color)) == Some(t.storm_bolt_color)) by {
        lemma_hex_round_trip(t.storm_bolt_color);
        lemma_hex_is_trimmed(t.storm_bolt_color);
    }
    assert(parse_color(trim(d.scene.storm_flash_color)) == Some(t.storm_flash_color)) by {
        lemma_hex_round_trip(t.storm_flash_color);
        lemma_hex_is_trimmed(t.storm_flash_color);
    }
    assert(parse_color(trim(d.scene.rain_color)) == Some(t.rain_color)) by {
        lemma_hex_round_trip(t.rain_color);
        lemma_hex_is_trimmed(t.rain_color);
    }
    assert(parse_color(trim(d.scene.snow_color)) == Some(t.snow_color)) by {
        lemma_hex_round_trip(t.snow_color);
        lemma_hex_is_trimmed(t.snow_color);
    }
    assert(parse_color(trim(d.scene.fire_flame_color)) == Some(t.fire_flame_color)) by {
        lemma_hex_round_trip(t.fire_flame_color);
        lemma_hex_is_trimmed(t.fire_flame_color);
    }
    assert(parse_color(trim(d.scene.fire_tip_color)) == Some(t.fire_tip_color)) by {
        lemma_hex_round_trip(t.fire_tip_color);
        lemma_hex_is_trimmed(t.fire_tip_color);
    }
    assert(parse_color(trim(d.scene.aurora_green)) == Some(t.aurora_green)) by {
        lemma_hex_round_trip(t.aurora_green);
        lemma_hex_is_trimmed(t.aurora_green);
    }
    assert(parse_color(trim(d.scene.aurora_magenta)) == Some(t.aurora_magenta)) by {
        lemma_hex_round_trip(t.aurora_magenta);
        lemma_hex_is_trimmed(t.aurora_magenta);
    }
    assert(parse_color(trim(d.scene.plasma_tint)) == Some(t.plasma_tint)) by {
        lemma_hex_round_trip(t.plasma_tint);
        lemma_hex_is_trimmed(t.plasma_tint);
    }
    assert(parse_color(trim(d.scene.water_caustic_color)) == Some(t.water_caustic_color)) by {
        lemma_hex_round_trip(t.water_caustic_color);
        lemma_hex_is_trimmed(t.water_caustic_color);
    }
    assert(parse_color(trim(d.scene.water_deep)) == Some(t.water_deep)) by {
        lemma_hex_round_trip(t.water_deep);
        lemma_hex_is_trimmed(t.water_deep);
    }
    assert(parse_color(trim(d.scene.water_shallow)) == Some(t.water_shallow)) by {
        lemma_hex_round_trip(t.water_shallow);
        lemma_hex_is_trimmed(t.water_shallow);
    }
    assert(trim(Seq::<char>::empty()) == Seq::<char>::empty());
}

/// The first error building the night variant, else the day variant's.
pub open spec fn pair_error(d: DraftView, corner_radius: Option<u32>, card_width: Option<u32>) -> Option<
    Seq<char>,
> {
    match build_error(d, false, corner_radius, card_width) {
        Some(e) => Some(e),
        None => build_error(d, true, corner_radius, card_width),
    }
}

/// `lines` is the config holding both variants the editor's fields describe, with
/// the day window texts `start` and `end`.
pub open spec fn writes_pair(
    lines: Seq<ConfigLine>,
    d: DraftView,
    k: Knobs,
    corner_radius: Option<u32>,
    card_width: Option<u32>,
    start: Seq<char>,
    end: Seq<char>,
) -> bool {
    exists|n: Theme, y: Theme|
        #[trigger] built_matches(n, d, k, false, corner_radius, card_width) && #[trigger] built_matches(
            y,
            d,
            k,
            true,
            corner_radius,
            card_width,
        ) && line_views(lines) == config_lines_of(n) + pair_tail_of(y, start, end)
}

/// A press in the editor that does not move a slider.
pub enum EditorEvent {
    /// Edit the day (`true`) or the night variant.
    EditDay(bool),
    /// Import a pair from the path typed in the path field.
    ImportPressed { path: String },
    /// Export both variants to the path typed in the path field.
    ExportPressed { path: String },
    /// Save both variants as a preset under the name typed in the name field.
    SavePresetPressed { name: String },
    /// Save both variants as the greeter's config (or open them in a greeter).
    SavePressed,
}

/// What the editor does next: show a status line, or hand the caller a path to
/// read or a config to write.
pub enum EditorAction {
    Nothing,
    Status(String),
    /// Read and apply the pair at this (trimmed) path.
    Import { path: String },
    /// Write this config to this (trimmed) path.
    Export { path: String, lines: Vec<ConfigLine> },
    /// Write this config as the user's preset with this file stem.
    SavePreset { slug: String, lines: Vec<ConfigLine> },
    /// Write this config as the draft to save or preview.
    WriteDraft { lines: Vec<ConfigLine> },
}

/// `prefix` followed by `text`.
fn joined_message(prefix: &str, text: &String) -> (m: String)
    ensures
        m@ == prefix@ + text@,
{
    let mut v: Vec<char> = Vec::new();
    push_str(&mut v, prefix);
    push_str(&mut v, text.as_str());
    string_of(&v)
}

/// `s` trimmed, as a new string.
fn trimmed_text(s: &String) -> (r: String)
    ensures
        r@ == trim(s@),
{
    string_of(&trimmed(&chars_of(s.as_str())))
}

/// Both variants built and rendered as one config with the given window texts, or
/// the first build error.
fn build_pair(
    d: &Draft,
    knobs: &Knobs,
    corner_radius: Option<u32>,
    card_width: Option<u32>,
    start: &str,
    end: &str,
) -> (r: Result<Vec<ConfigLine>, String>)
    ensures
        match r {
            Ok(lines) => pair_error(d@, corner_radius, card_width) is None && writes_pair(
                lines@,
                d@,
                *knobs,
                corner_radius,
                card_width,
                start@,
                end@,
            ),
            Err(e) => pair_error(d@, corner_radius, card_width) == Some(e@),
        },
{
    let night = match build_theme(d, knobs, false, corner_radius, card_width) {
        Ok(t) => t,
        Err(e) => return Err(e),
    };
    let day = match build_theme(d, knobs, true, corner_radius, card_width) {
        Ok(t) => t,
        Err(e) => return Err(e),
    };
    let lines = Theme::render_pair_lines(&night, &day, start, end);
    proof {
        assert(built_matches(night, d@, *knobs, false, corner_radius, card_width));
        assert(built_matches(day, d@, *knobs, true, corner_radius, card_width));
    }
    Ok(lines)
}

/// The editor's answer to a press: the variant switch edits the draft; the rest
/// leave it as it is and say what to show or write. Writing needs both variants to
/// build; `knobs` and the two parsed numbers complete the draft.
pub fn editor_step(
    d: &mut Draft,
    knobs: &Knobs,
    corner_radius: Option<u32>,
    card_width: Option<u32>,
    event: EditorEvent,
) -> (a: EditorAction)
    ensures
        match event {
            EditorEvent::EditDay(on) => final(d)@ == (DraftView { editing_day: on, ..old(d)@ })
                && a is Nothing,
            EditorEvent::ImportPressed { path } => final(d)@ == old(d)@ && if trim(path@).len()
                == 0 {
                a matches EditorAction::Status(m) && m@ == "Enter a path to import from."@
            } else {
                a matches EditorAction::Import { path: p } && p@ == trim(path@)
            },
            EditorEvent::ExportPressed { path } => final(d)@ == old(d)@ && if trim(path@).len()
                == 0 {
                a matches EditorAction::Status(m) && m@ == "Enter a destination path to export to."@
            } else {
                match pair_error(old(d)@, corner_radius, card_width) {
                    Some(e) => a matches EditorAction::Status(m) && m@ == "Fix before exporting: "@
                        + e,
                    None => a matches EditorAction::Export { path: p, lines } && p@ == trim(path@)
                        && writes_pair(
                        lines@,
                        old(d)@,
                        *knobs,
                        corner_radius,
                        card_width,
                        old(d)@.day_start,
                        old(d)@.day_end,
                    ),
                }
            },
            EditorEvent::SavePresetPressed { name } => final(d)@ == old(d)@ && if slugified(
                name@,
            ).len() == 0 {
                a matches EditorAction::Status(m) && m@ == "Name the preset before saving."@
            } else {
                match pair_error(old(d)@, corner_radius, card_width) {
                    Some(e) => a matches EditorAction::Status(m) && m@ == "Fix before saving: "@
                        + e,
                    None => a matches EditorAction::SavePreset { slug, lines } && slug@
                        == slugified(name@) && writes_pair(
                        lines@,
                        old(d)@,
                        *knobs,
                        corner_radius,
                        card_width,
                        old(d)@.day_start,
                        old(d)@.day_end,
                    ),
                }
            },
            EditorEvent::SavePressed => final(d)@ == old(d)@ && match pair_error(
                old(d)@,
                corner_radius,
                card_width,
            ) {
                Some(e) => a matches EditorAction::Status(m) && m@ == e,
                None => a matches EditorAction::WriteDraft { lines } && writes_pair(
                    lines@,
                    old(d)@,
                    *knobs,
                    corner_radius,
                    card_width,
                    trim(old(d)@.day_start),
                    trim(old(d)@.day_end),
                ),
            },
        },
{
    match event {
        EditorEvent::EditDay(on) => {
            d.editing_day = on;
            EditorAction::Nothing
        },
        EditorEvent::ImportPressed { path } => {
            let p = trimmed_text(&path);
            if p.as_str().is_empty() {
                EditorAction::Status("Enter a path to import from.".to_owned())
            } else {
                EditorAction::Import { path: p }
            }
        },
        EditorEvent::ExportPressed { path } => {
            let p = trimmed_text(&path);
            if p.as_str().is_empty() {
                EditorAction::Status("Enter a destination path to export to.".to_owned())
            } else {
                match build_pair(
                    d,
                    knobs,
                    corner_radius,
                    card_width,
                    d.day_start.as_str(),
                    d.day_end.as_str(),
                ) {
                    Ok(lines) => EditorAction::Export { path: p, lines },
                    Err(e) => EditorAction::Status(joined_message("Fix before exporting: ", &e)),
                }
            }
        },
        EditorEvent::SavePresetPressed { name } => {
            let slug = slugify(name.as_str());
            if slug.as_str().is_empty() {
                EditorAction::Status("Name the preset before saving.".to_owned())
            } else {
                match build_pair(
                    d,
                    knobs,
                    corner_radius,
                    card_width,
                    d.day_start.as_str(),
                    d.day_end.as_str(),
                ) {
                    Ok(lines) => EditorAction::SavePreset { slug, lines },
                    Err(e) => EditorAction::Status(joined_message("Fix before saving: ", &e)),
                }
            }
        },
        EditorEvent::SavePressed => {
            let start = trimmed_text(&d.day_start);
            let end = trimmed_text(&d.day_end);
            match build_pair(d, knobs, corner_radius, card_width, start.as_str(), end.as_str()) {
                Ok(lines) => EditorAction::WriteDraft { lines },
                Err(e) => EditorAction::Status(e),
            }
        },
    }
}

/// What the editor shows for an optional text, as a new string.
fn shown_field(t: &Option<String>) -> (r: String)
    ensures
        r@ == shown_text(*t),
{
    match t {
        Some(s) => s.clone(),
        None => String::new(),
    }
}

/// The editor's fields for a loaded pair of variants and its day window: both
/// palettes, the night variant's font, clock format and scene colors, the two
/// number fields' texts as given (their decimal form is the caller's), and the
/// window ends as `HH:MM`. The other settings come from `Knobs::from_theme` of the
/// night variant.
pub fn from_pair(
    night: &Theme,
    day: &Theme,
    window: (u32, u32),
    corner_radius: String,
    card_width: String,
    editing_day: bool,
) -> (d: Draft)
    ensures
        d@.night == palette_of(*night),
        d@.day == palette_of(*day),
        d@.font == shown_text(night.font),
        d@.clock_format == shown_text(night.clock_format),
        d@.corner_radius == corner_radius@,
        d@.card_width == card_width@,
        d@.day_start == hhmm_text(window.0),
        d@.day_end == hhmm_text(window.1),
        d@.scene == scene_colors_of(*night),
        d@.editing_day == editing_day,
{
    Draft {
        night: Palette::from_theme(night),
        day: Palette::from_theme(day),
        font: shown_field(&night.font),
        corner_radius,
        card_width,
        day_start: minutes_to_hhmm(window.0),
        day_end: minutes_to_hhmm(window.1),
        clock_format: shown_field(&night.clock_format),
        scene: SceneColors::from_theme(night),
        editing_day,
    }
}

} // verus!
