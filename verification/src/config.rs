//! Writing a theme back out as a config: what the settings editor saves. A theme is
//! written as the `ThemeFile` it stands for (every key but `is_day`, colors as
//! hex text) and as the lines of the file, in the packaged default's layout. Read
//! back and merged over the built-in default, the written file gives the theme.
//!
//! Numbers are binary32 values held as their bit patterns; printing them in
//! decimal, and quoting text, is left to whoever turns the lines into text.
use vstd::prelude::*;

use crate::color::{color_hex, lemma_hex_round_trip, Color};
use crate::greeter::owned;
use crate::modes::{
    card_pos_name, clock_style_name, font_weight_name, gpu_level_name, sky_mode_name,
    spinner_style_name,
};
use crate::theme::{day_of, night_of, window_of, DayFile, Theme, ThemeFile};
use crate::window::hhmm_minutes;

verus! {

/// The value of a config key.
#[derive(Debug, PartialEq, Eq)]
pub enum ConfigValue {
    /// Text, written quoted: a color's hex form, a path, a name.
    Text(String),
    /// A binary32 number, by its bit pattern, written in decimal.
    Number(u32),
    /// A boolean, written `true` or `false`.
    Flag(bool),
}

/// One line of a written config.
#[derive(Debug, PartialEq, Eq)]
pub enum ConfigLine {
    /// A comment, written as it stands (it starts with `#`).
    Comment(String),
    /// An empty line.
    Blank,
    /// A key: `lead` is the key with its padding and `= `, then the value.
    Entry { lead: String, value: ConfigValue },
    /// A table header, written `[name]`.
    Table(String),
}

/// A value as plain values.
pub enum ValueView {
    Text(Seq<char>),
    Number(u32),
    Flag(bool),
}

/// A line as plain values.
pub enum LineView {
    Comment(Seq<char>),
    Blank,
    Entry(Seq<char>, ValueView),
    Table(Seq<char>),
}

impl View for ConfigValue {
    type V = ValueView;

    open spec fn view(&self) -> ValueView {
        match self {
            ConfigValue::Text(s) => ValueView::Text(s@),
            ConfigValue::Number(n) => ValueView::Number(*n),
            ConfigValue::Flag(b) => ValueView::Flag(*b),
        }
    }
}

impl View for ConfigLine {
    type V = LineView;

    open spec fn view(&self) -> LineView {
        match self {
            ConfigLine::Comment(s) => LineView::Comment(s@),
            ConfigLine::Blank => LineView::Blank,
            ConfigLine::Entry { lead, value } => LineView::Entry(lead@, value@),
            ConfigLine::Table(s) => LineView::Table(s@),
        }
    }
}

/// The lines as plain values.
pub open spec fn line_views(lines: Seq<ConfigLine>) -> Seq<LineView> {
    lines.map_values(|l: ConfigLine| l@)
}

/// A color key written as the color's hex text.
pub open spec fn writes_color(v: Option<String>, c: Color) -> bool {
    v matches Some(s) && s@ == color_hex(c)
}

/// `f` is what a config holding both variants sets: the night variant's keys at the
/// top level, the day window as given, and the day variant's `[day]` table.
pub open spec fn is_pair_config_of(
    f: ThemeFile,
    night: Theme,
    day: Theme,
    start: Seq<char>,
    end: Seq<char>,
) -> bool {
    &&& is_config_of(ThemeFile { day_start: None, day_end: None, day: None, ..f }, night)
    &&& f.day_start matches Some(s) && s@ == start
    &&& f.day_end matches Some(s) && s@ == end
    &&& f.day matches Some(d) && is_day_table_of(d, day)
}

/// A copy of an optional text.
fn copy_text(v: &Option<String>) -> (r: Option<String>)
    ensures
        r == *v,
{
    match v {
        Some(s) => Some(s.clone()),
        None => None,
    }
}

/// An optional text key: the key with its text when set, else `unset` (a
/// commented-out key).
fn text_line(v: &Option<String>, lead: &str, unset: &str) -> (l: ConfigLine)
    ensures
        l@ == (match *v {
            Some(s) => LineView::Entry(lead@, ValueView::Text(s@)),
            None => LineView::Comment(unset@),
        }),
{
    match v {
        Some(s) => ConfigLine::Entry { lead: owned(lead), value: ConfigValue::Text(s.clone()) },
        None => ConfigLine::Comment(owned(unset)),
    }
}

/// `f` is what the written config of `t` sets: every key but `is_day`, colors as
/// their hex text, the optional texts as they are, and no day window or `[day]` table.
pub open spec fn is_config_of(f: ThemeFile, t: Theme) -> bool {
    &&& f.wallpaper == t.wallpaper
    &&& writes_color(f.background, t.background)
    &&& writes_color(f.card, t.card)
    &&& writes_color(f.accent, t.accent)
    &&& writes_color(f.foreground, t.foreground)
    &&& writes_color(f.muted, t.muted)
    &&& writes_color(f.field, t.field)
    &&& f.logo == t.logo
    &&& f.font == t.font
    &&& f.corner_radius == Some(t.corner_radius)
    &&& f.card_width == Some(t.card_width)
    &&& f.card_pos == Some(t.card_pos)
    &&& f.show_clock == Some(t.show_clock)
    &&& f.animate == Some(t.animate)
    &&& f.sky_mode == Some(t.sky_mode)
    &&& f.reduced_motion == Some(t.reduced_motion)
    &&& f.gpu_level == Some(t.gpu_level)
    &&& f.spinner_glow == Some(t.spinner_glow)
    &&& f.spinner_speed == Some(t.spinner_speed)
    &&& writes_color(f.spinner_comet, t.spinner_comet)
    &&& writes_color(f.spinner_track, t.spinner_track)
    &&& f.spinner_trail == Some(t.spinner_trail)
    &&& writes_color(f.comet_color, t.comet_color)
    &&& writes_color(f.glow_color, t.glow_color)
    &&& f.sky_glow == Some(t.sky_glow)
    &&& f.star_density == Some(t.star_density)
    &&& f.star_twinkle == Some(t.star_twinkle)
    &&& f.comet_enabled == Some(t.comet_enabled)
    &&& f.comet_interval == Some(t.comet_interval)
    &&& f.cloud_amount == Some(t.cloud_amount)
    &&& f.cloud_speed == Some(t.cloud_speed)
    &&& f.sun_x == Some(t.sun_x)
    &&& f.sun_y == Some(t.sun_y)
    &&& f.sun_size == Some(t.sun_size)
    &&& f.sun_intensity == Some(t.sun_intensity)
    &&& writes_color(f.sun_color, t.sun_color)
    &&& f.glow_x == Some(t.glow_x)
    &&& f.glow_y == Some(t.glow_y)
    &&& f.day_haze == Some(t.day_haze)
    &&& f.star_layers == Some(t.star_layers)
    &&& f.star_size == Some(t.star_size)
    &&& f.nebula_speed == Some(t.nebula_speed)
    &&& f.comet_tilt == Some(t.comet_tilt)
    &&& f.comet_pause == Some(t.comet_pause)
    &&& f.comet_width == Some(t.comet_width)
    &&& writes_color(f.cloud_lit, t.cloud_lit)
    &&& writes_color(f.cloud_shadow, t.cloud_shadow)
    &&& f.cursor_parallax == Some(t.cursor_parallax)
    &&& f.glow_pulse == Some(t.glow_pulse)
    &&& f.synthwave_grid_speed == Some(t.synthwave_grid_speed)
    &&& f.synthwave_grid_density == Some(t.synthwave_grid_density)
    &&& f.synthwave_grid_perspective == Some(t.synthwave_grid_perspective)
    &&& f.synthwave_grid_glow == Some(t.synthwave_grid_glow)
    &&& f.synthwave_sun_size == Some(t.synthwave_sun_size)
    &&& f.synthwave_sun_stripes == Some(t.synthwave_sun_stripes)
    &&& f.synthwave_sun_bloom == Some(t.synthwave_sun_bloom)
    &&& f.synthwave_horizon == Some(t.synthwave_horizon)
    &&& writes_color(f.synthwave_grid_color, t.synthwave_grid_color)
    &&& writes_color(f.synthwave_sky_top, t.synthwave_sky_top)
    &&& writes_color(f.synthwave_sky_bottom, t.synthwave_sky_bottom)
    &&& f.storm_lightning_rate == Some(t.storm_lightning_rate)
    &&& f.storm_strike_chance == Some(t.storm_strike_chance)
    &&& f.storm_cloud_density == Some(t.storm_cloud_density)
    &&& writes_color(f.storm_bolt_color, t.storm_bolt_color)
    &&& writes_color(f.storm_flash_color, t.storm_flash_color)
    &&& f.rain_fall_speed == Some(t.rain_fall_speed)
    &&& f.rain_density == Some(t.rain_density)
    &&& f.rain_slant == Some(t.rain_slant)
    &&& f.rain_intensity == Some(t.rain_intensity)
    &&& writes_color(f.rain_color, t.rain_color)
    &&& f.snow_fall_speed == Some(t.snow_fall_speed)
    &&& f.snow_density == Some(t.snow_density)
    &&& f.snow_sway == Some(t.snow_sway)
    &&& f.snow_flake_size == Some(t.snow_flake_size)
    &&& writes_color(f.snow_color, t.snow_color)
    &&& f.fire_rise_speed == Some(t.fire_rise_speed)
    &&& f.fire_flame_height == Some(t.fire_flame_height)
    &&& writes_color(f.fire_flame_color, t.fire_flame_color)
    &&& writes_color(f.fire_tip_color, t.fire_tip_color)
    &&& f.aurora_speed == Some(t.aurora_speed)
    &&& f.aurora_drop == Some(t.aurora_drop)
    &&& f.aurora_ray_freq == Some(t.aurora_ray_freq)
    &&& f.aurora_intensity == Some(t.aurora_intensity)
    &&& writes_color(f.aurora_green, t.aurora_green)
    &&& writes_color(f.aurora_magenta, t.aurora_magenta)
    &&& f.plasma_speed == Some(t.plasma_speed)
    &&& f.plasma_scale == Some(t.plasma_scale)
    &&& f.plasma_saturation == Some(t.plasma_saturation)
    &&& writes_color(f.plasma_tint, t.plasma_tint)
    &&& f.water_speed == Some(t.water_speed)
    &&& f.water_scale == Some(t.water_scale)
    &&& f.water_ripple == Some(t.water_ripple)
    &&& f.water_caustic == Some(t.water_caustic)
    &&& writes_color(f.water_caustic_color, t.water_caustic_color)
    &&& writes_color(f.water_deep, t.water_deep)
    &&& writes_color(f.water_shallow, t.water_shallow)
    &&& f.card_gradient == Some(t.card_gradient)
    &&& f.grain == Some(t.grain)
    &&& f.vignette == Some(t.vignette)
    &&& f.card_blur == Some(t.card_blur)
    &&& f.spinner_size == Some(t.spinner_size)
    &&& f.spinner_pulse == Some(t.spinner_pulse)
    &&& f.spinner_orbit == Some(t.spinner_orbit)
    &&& f.spinner_style == Some(t.spinner_style)
    &&& f.card_shadow_blur == Some(t.card_shadow_blur)
    &&& f.card_shadow_opacity == Some(t.card_shadow_opacity)
    &&& f.accent_breathing == Some(t.accent_breathing)
    &&& f.field_radius == Some(t.field_radius)
    &&& writes_color(f.error_color, t.error_color)
    &&& writes_color(f.logo_box, t.logo_box)
    &&& f.logo_box_radius == Some(t.logo_box_radius)
    &&& f.clock_24h == Some(t.clock_24h)
    &&& f.clock_seconds == Some(t.clock_seconds)
    &&& f.clock_size == Some(t.clock_size)
    &&& f.clock_style == Some(t.clock_style)
    &&& f.clock_format == t.clock_format
    &&& f.font_scale == Some(t.font_scale)
    &&& f.font_weight == Some(t.font_weight)
    &&& f.fade_ms == Some(t.fade_ms)
    &&& f.glow_falloff == Some(t.glow_falloff)
    &&& f.nebula_amount == Some(t.nebula_amount)
    &&& f.comet_tail_decay == Some(t.comet_tail_decay)
    &&& f.spinner_ring == Some(t.spinner_ring)
    &&& f.day_start is None
    &&& f.day_end is None
    &&& f.day is None
}

/// `d` is the `[day]` table written for the day variant `t`: its per-variant keys.
pub open spec fn is_day_table_of(d: DayFile, t: Theme) -> bool {
    &&& d.wallpaper == t.wallpaper
    &&& writes_color(d.background, t.background)
    &&& writes_color(d.card, t.card)
    &&& writes_color(d.accent, t.accent)
    &&& writes_color(d.foreground, t.foreground)
    &&& writes_color(d.muted, t.muted)
    &&& writes_color(d.field, t.field)
    &&& d.logo == t.logo
    &&& d.spinner_glow == Some(t.spinner_glow)
    &&& writes_color(d.spinner_comet, t.spinner_comet)
    &&& writes_color(d.spinner_track, t.spinner_track)
    &&& d.spinner_trail == Some(t.spinner_trail)
    &&& writes_color(d.comet_color, t.comet_color)
    &&& writes_color(d.glow_color, t.glow_color)
    &&& d.sky_glow == Some(t.sky_glow)
    &&& writes_color(d.error_color, t.error_color)
    &&& writes_color(d.logo_box, t.logo_box)
}

/// Lines 1 to 26 of a written config.
pub open spec fn config_part1(t: Theme) -> Seq<LineView> {
    seq![
        LineView::Comment("# door greeter theme — written by door-settings. Edit here or in"@),
        LineView::Comment("# door-settings; keys are documented in the packaged default at"@),
        LineView::Comment("# /usr/share/door/greeter.toml. Colors are \"#rrggbb\" or \"#rrggbbaa\"."@),
        LineView::Blank,
        (match t.wallpaper { Some(v) => LineView::Entry("wallpaper = "@, ValueView::Text(v@)), None => LineView::Comment("# wallpaper =   # (none — solid background)"@) }),
        LineView::Entry("background  = "@, ValueView::Text(color_hex(t.background))),
        LineView::Entry("card        = "@, ValueView::Text(color_hex(t.card))),
        LineView::Entry("field       = "@, ValueView::Text(color_hex(t.field))),
        LineView::Entry("accent      = "@, ValueView::Text(color_hex(t.accent))),
        LineView::Entry("foreground  = "@, ValueView::Text(color_hex(t.foreground))),
        LineView::Entry("muted       = "@, ValueView::Text(color_hex(t.muted))),
        (match t.font { Some(v) => LineView::Entry("font = "@, ValueView::Text(v@)), None => LineView::Comment("# font =   # (stock)"@) }),
        (match t.logo { Some(v) => LineView::Entry("logo = "@, ValueView::Text(v@)), None => LineView::Comment("# logo ="@) }),
        LineView::Entry("corner_radius = "@, ValueView::Number(t.corner_radius)),
        LineView::Entry("card_width    = "@, ValueView::Number(t.card_width)),
        LineView::Entry("card_pos      = "@, ValueView::Text(card_pos_name(t.card_pos))),
        LineView::Entry("show_clock    = "@, ValueView::Flag(t.show_clock)),
        LineView::Entry("animate       = "@, ValueView::Flag(t.animate)),
        LineView::Entry("sky_mode      = "@, ValueView::Text(sky_mode_name(t.sky_mode))),
        LineView::Entry("reduced_motion = "@, ValueView::Flag(t.reduced_motion)),
        LineView::Entry("gpu_level     = "@, ValueView::Text(gpu_level_name(t.gpu_level))),
        LineView::Entry("spinner_glow  = "@, ValueView::Number(t.spinner_glow)),
        LineView::Entry("spinner_speed = "@, ValueView::Number(t.spinner_speed)),
        LineView::Entry("spinner_comet = "@, ValueView::Text(color_hex(t.spinner_comet))),
        LineView::Entry("spinner_track = "@, ValueView::Text(color_hex(t.spinner_track))),
        LineView::Entry("spinner_trail = "@, ValueView::Number(t.spinner_trail)),
    ]
}

/// Lines 27 to 52 of a written config.
pub open spec fn config_part2(t: Theme) -> Seq<LineView> {
    seq![
        LineView::Entry("comet_color   = "@, ValueView::Text(color_hex(t.comet_color))),
        LineView::Blank,
        LineView::Comment("# Sky"@),
        LineView::Entry("glow_color    = "@, ValueView::Text(color_hex(t.glow_color))),
        LineView::Entry("sky_glow      = "@, ValueView::Number(t.sky_glow)),
        LineView::Entry("star_density  = "@, ValueView::Number(t.star_density)),
        LineView::Entry("star_twinkle  = "@, ValueView::Number(t.star_twinkle)),
        LineView::Entry("comet_enabled = "@, ValueView::Flag(t.comet_enabled)),
        LineView::Entry("comet_interval = "@, ValueView::Number(t.comet_interval)),
        LineView::Entry("cloud_amount  = "@, ValueView::Number(t.cloud_amount)),
        LineView::Entry("cloud_speed   = "@, ValueView::Number(t.cloud_speed)),
        LineView::Entry("sun_x         = "@, ValueView::Number(t.sun_x)),
        LineView::Entry("sun_y         = "@, ValueView::Number(t.sun_y)),
        LineView::Entry("sun_size      = "@, ValueView::Number(t.sun_size)),
        LineView::Entry("sun_intensity = "@, ValueView::Number(t.sun_intensity)),
        LineView::Entry("sun_color     = "@, ValueView::Text(color_hex(t.sun_color))),
        LineView::Entry("glow_x        = "@, ValueView::Number(t.glow_x)),
        LineView::Entry("glow_y        = "@, ValueView::Number(t.glow_y)),
        LineView::Entry("day_haze      = "@, ValueView::Number(t.day_haze)),
        LineView::Entry("star_layers   = "@, ValueView::Number(t.star_layers)),
        LineView::Entry("star_size     = "@, ValueView::Number(t.star_size)),
        LineView::Entry("nebula_speed  = "@, ValueView::Number(t.nebula_speed)),
        LineView::Entry("comet_tilt    = "@, ValueView::Number(t.comet_tilt)),
        LineView::Entry("comet_pause   = "@, ValueView::Number(t.comet_pause)),
        LineView::Entry("comet_width   = "@, ValueView::Number(t.comet_width)),
        LineView::Entry("cloud_lit     = "@, ValueView::Text(color_hex(t.cloud_lit))),
    ]
}

/// Lines 53 to 78 of a written config.
pub open spec fn config_part3(t: Theme) -> Seq<LineView> {
    seq![
        LineView::Entry("cloud_shadow  = "@, ValueView::Text(color_hex(t.cloud_shadow))),
        LineView::Entry("cursor_parallax = "@, ValueView::Number(t.cursor_parallax)),
        LineView::Entry("glow_pulse    = "@, ValueView::Number(t.glow_pulse)),
        LineView::Entry("synthwave_grid_speed       = "@, ValueView::Number(t.synthwave_grid_speed)),
        LineView::Entry("synthwave_grid_density     = "@, ValueView::Number(t.synthwave_grid_density)),
        LineView::Entry("synthwave_grid_perspective = "@, ValueView::Number(t.synthwave_grid_perspective)),
        LineView::Entry("synthwave_grid_glow        = "@, ValueView::Number(t.synthwave_grid_glow)),
        LineView::Entry("synthwave_sun_size         = "@, ValueView::Number(t.synthwave_sun_size)),
        LineView::Entry("synthwave_sun_stripes      = "@, ValueView::Number(t.synthwave_sun_stripes)),
        LineView::Entry("synthwave_sun_bloom        = "@, ValueView::Number(t.synthwave_sun_bloom)),
        LineView::Entry("synthwave_horizon          = "@, ValueView::Number(t.synthwave_horizon)),
        LineView::Entry("synthwave_grid_color  = "@, ValueView::Text(color_hex(t.synthwave_grid_color))),
        LineView::Entry("synthwave_sky_top     = "@, ValueView::Text(color_hex(t.synthwave_sky_top))),
        LineView::Entry("synthwave_sky_bottom  = "@, ValueView::Text(color_hex(t.synthwave_sky_bottom))),
        LineView::Entry("storm_lightning_rate  = "@, ValueView::Number(t.storm_lightning_rate)),
        LineView::Entry("storm_strike_chance   = "@, ValueView::Number(t.storm_strike_chance)),
        LineView::Entry("storm_cloud_density   = "@, ValueView::Number(t.storm_cloud_density)),
        LineView::Entry("storm_bolt_color      = "@, ValueView::Text(color_hex(t.storm_bolt_color))),
        LineView::Entry("storm_flash_color     = "@, ValueView::Text(color_hex(t.storm_flash_color))),
        LineView::Entry("rain_fall_speed   = "@, ValueView::Number(t.rain_fall_speed)),
        LineView::Entry("rain_density      = "@, ValueView::Number(t.rain_density)),
        LineView::Entry("rain_slant        = "@, ValueView::Number(t.rain_slant)),
        LineView::Entry("rain_intensity    = "@, ValueView::Number(t.rain_intensity)),
        LineView::Entry("rain_color        = "@, ValueView::Text(color_hex(t.rain_color))),
        LineView::Entry("snow_fall_speed   = "@, ValueView::Number(t.snow_fall_speed)),
        LineView::Entry("snow_density      = "@, ValueView::Number(t.snow_density)),
    ]
}

/// Lines 79 to 104 of a written config.
pub open spec fn config_part4(t: Theme) -> Seq<LineView> {
    seq![
        LineView::Entry("snow_sway         = "@, ValueView::Number(t.snow_sway)),
        LineView::Entry("snow_flake_size   = "@, ValueView::Number(t.snow_flake_size)),
        LineView::Entry("snow_color        = "@, ValueView::Text(color_hex(t.snow_color))),
        LineView::Entry("fire_rise_speed   = "@, ValueView::Number(t.fire_rise_speed)),
        LineView::Entry("fire_flame_height = "@, ValueView::Number(t.fire_flame_height)),
        LineView::Entry("fire_flame_color  = "@, ValueView::Text(color_hex(t.fire_flame_color))),
        LineView::Entry("fire_tip_color    = "@, ValueView::Text(color_hex(t.fire_tip_color))),
        LineView::Entry("aurora_speed      = "@, ValueView::Number(t.aurora_speed)),
        LineView::Entry("aurora_drop       = "@, ValueView::Number(t.aurora_drop)),
        LineView::Entry("aurora_ray_freq   = "@, ValueView::Number(t.aurora_ray_freq)),
        LineView::Entry("aurora_intensity  = "@, ValueView::Number(t.aurora_intensity)),
        LineView::Entry("aurora_green      = "@, ValueView::Text(color_hex(t.aurora_green))),
        LineView::Entry("aurora_magenta    = "@, ValueView::Text(color_hex(t.aurora_magenta))),
        LineView::Entry("plasma_speed      = "@, ValueView::Number(t.plasma_speed)),
        LineView::Entry("plasma_scale      = "@, ValueView::Number(t.plasma_scale)),
        LineView::Entry("plasma_saturation = "@, ValueView::Number(t.plasma_saturation)),
        LineView::Entry("plasma_tint       = "@, ValueView::Text(color_hex(t.plasma_tint))),
        LineView::Entry("water_speed       = "@, ValueView::Number(t.water_speed)),
        LineView::Entry("water_scale       = "@, ValueView::Number(t.water_scale)),
        LineView::Entry("water_ripple      = "@, ValueView::Number(t.water_ripple)),
        LineView::Entry("water_caustic     = "@, ValueView::Number(t.water_caustic)),
        LineView::Entry("water_caustic_color = "@, ValueView::Text(color_hex(t.water_caustic_color))),
        LineView::Entry("water_deep        = "@, ValueView::Text(color_hex(t.water_deep))),
        LineView::Entry("water_shallow     = "@, ValueView::Text(color_hex(t.water_shallow))),
        LineView::Entry("card_gradient = "@, ValueView::Number(t.card_gradient)),
        LineView::Entry("grain         = "@, ValueView::Number(t.grain)),
    ]
}

/// Lines 105 to 130 of a written config.
pub open spec fn config_part5(t: Theme) -> Seq<LineView> {
    seq![
        LineView::Entry("vignette      = "@, ValueView::Number(t.vignette)),
        LineView::Entry("card_blur     = "@, ValueView::Flag(t.card_blur)),
        LineView::Comment("# Spinner / card / behavior"@),
        LineView::Entry("spinner_size  = "@, ValueView::Number(t.spinner_size)),
        LineView::Entry("spinner_pulse = "@, ValueView::Number(t.spinner_pulse)),
        LineView::Entry("spinner_orbit = "@, ValueView::Number(t.spinner_orbit)),
        LineView::Entry("spinner_style = "@, ValueView::Text(spinner_style_name(t.spinner_style))),
        LineView::Entry("card_shadow_blur    = "@, ValueView::Number(t.card_shadow_blur)),
        LineView::Entry("card_shadow_opacity = "@, ValueView::Number(t.card_shadow_opacity)),
        LineView::Entry("accent_breathing = "@, ValueView::Number(t.accent_breathing)),
        LineView::Entry("field_radius  = "@, ValueView::Number(t.field_radius)),
        LineView::Entry("error_color   = "@, ValueView::Text(color_hex(t.error_color))),
        LineView::Entry("logo_box      = "@, ValueView::Text(color_hex(t.logo_box))),
        LineView::Entry("logo_box_radius = "@, ValueView::Number(t.logo_box_radius)),
        LineView::Entry("clock_24h     = "@, ValueView::Flag(t.clock_24h)),
        LineView::Entry("clock_seconds = "@, ValueView::Flag(t.clock_seconds)),
        LineView::Entry("clock_size    = "@, ValueView::Number(t.clock_size)),
        LineView::Entry("clock_style   = "@, ValueView::Text(clock_style_name(t.clock_style))),
        (match t.clock_format { Some(v) => LineView::Entry("clock_format  = "@, ValueView::Text(v@)), None => LineView::Comment("# clock_format =   # (built-in HH:MM)"@) }),
        LineView::Entry("font_scale    = "@, ValueView::Number(t.font_scale)),
        LineView::Entry("font_weight   = "@, ValueView::Text(font_weight_name(t.font_weight))),
        LineView::Entry("fade_ms       = "@, ValueView::Number(t.fade_ms)),
        LineView::Comment("# Expert"@),
        LineView::Entry("glow_falloff  = "@, ValueView::Number(t.glow_falloff)),
        LineView::Entry("nebula_amount = "@, ValueView::Number(t.nebula_amount)),
        LineView::Entry("comet_tail_decay = "@, ValueView::Number(t.comet_tail_decay)),
    ]
}

/// Lines 131 to 131 of a written config.
pub open spec fn config_part6(t: Theme) -> Seq<LineView> {
    seq![
        LineView::Entry("spinner_ring  = "@, ValueView::Number(t.spinner_ring)),
    ]
}

/// The lines of the config written for `t`, in order.
pub open spec fn config_lines_of(t: Theme) -> Seq<LineView> {
    config_part1(t) + config_part2(t) + config_part3(t) + config_part4(t) + config_part5(t) + config_part6(t)
}

/// The lines a pair config adds after the night variant's: the day window and the
/// `[day]` table of the day variant's per-variant keys.
pub open spec fn pair_tail_of(day: Theme, start: Seq<char>, end: Seq<char>) -> Seq<LineView> {
    seq![
        LineView::Entry("day_start  = "@, ValueView::Text(start)),
        LineView::Entry("day_end    = "@, ValueView::Text(end)),
        LineView::Blank,
        LineView::Comment("# Day variant overrides (light). Structural keys (font, sizes,"@),
        LineView::Comment("# behaviour) are shared from above; only colors/assets differ."@),
        LineView::Table("day"@),
        LineView::Entry("background  = "@, ValueView::Text(color_hex(day.background))),
        LineView::Entry("card        = "@, ValueView::Text(color_hex(day.card))),
        LineView::Entry("field       = "@, ValueView::Text(color_hex(day.field))),
        LineView::Entry("accent      = "@, ValueView::Text(color_hex(day.accent))),
        LineView::Entry("foreground  = "@, ValueView::Text(color_hex(day.foreground))),
        LineView::Entry("muted       = "@, ValueView::Text(color_hex(day.muted))),
        (match day.wallpaper { Some(v) => LineView::Entry("wallpaper = "@, ValueView::Text(v@)), None => LineView::Comment("# wallpaper ="@) }),
        (match day.logo { Some(v) => LineView::Entry("logo = "@, ValueView::Text(v@)), None => LineView::Comment("# logo ="@) }),
        LineView::Entry("spinner_glow = "@, ValueView::Number(day.spinner_glow)),
        LineView::Entry("spinner_comet = "@, ValueView::Text(color_hex(day.spinner_comet))),
        LineView::Entry("spinner_track = "@, ValueView::Text(color_hex(day.spinner_track))),
        LineView::Entry("spinner_trail = "@, ValueView::Number(day.spinner_trail)),
        LineView::Entry("comet_color = "@, ValueView::Text(color_hex(day.comet_color))),
        LineView::Entry("glow_color = "@, ValueView::Text(color_hex(day.glow_color))),
        LineView::Entry("sky_glow = "@, ValueView::Number(day.sky_glow)),
        LineView::Entry("error_color = "@, ValueView::Text(color_hex(day.error_color))),
        LineView::Entry("logo_box = "@, ValueView::Text(color_hex(day.logo_box))),
    ]
}

/// The value an option holds (arbitrary when it holds none).
pub open spec fn held<T>(o: Option<T>) -> T {
    match o {
        Some(v) => v,
        None => arbitrary(),
    }
}

/// Lines 1 to 26 of the rendering of a config file.
pub open spec fn file_part1(f: ThemeFile) -> Seq<LineView> {
    seq![
        LineView::Comment("# door greeter theme — written by door-settings. Edit here or in"@),
        LineView::Comment("# door-settings; keys are documented in the packaged default at"@),
        LineView::Comment("# /usr/share/door/greeter.toml. Colors are \"#rrggbb\" or \"#rrggbbaa\"."@),
        LineView::Blank,
        (match f.wallpaper { Some(v) => LineView::Entry("wallpaper = "@, ValueView::Text(v@)), None => LineView::Comment("# wallpaper =   # (none — solid background)"@) }),
        LineView::Entry("background  = "@, ValueView::Text(held(f.background)@)),
        LineView::Entry("card        = "@, ValueView::Text(held(f.card)@)),
        LineView::Entry("field       = "@, ValueView::Text(held(f.field)@)),
        LineView::Entry("accent      = "@, ValueView::Text(held(f.accent)@)),
        LineView::Entry("foreground  = "@, ValueView::Text(held(f.foreground)@)),
        LineView::Entry("muted       = "@, ValueView::Text(held(f.muted)@)),
        (match f.font { Some(v) => LineView::Entry("font = "@, ValueView::Text(v@)), None => LineView::Comment("# font =   # (stock)"@) }),
        (match f.logo { Some(v) => LineView::Entry("logo = "@, ValueView::Text(v@)), None => LineView::Comment("# logo ="@) }),
        LineView::Entry("corner_radius = "@, ValueView::Number(held(f.corner_radius))),
        LineView::Entry("card_width    = "@, ValueView::Number(held(f.card_width))),
        LineView::Entry("card_pos      = "@, ValueView::Text(card_pos_name(held(f.card_pos)))),
        LineView::Entry("show_clock    = "@, ValueView::Flag(held(f.show_clock))),
        LineView::Entry("animate       = "@, ValueView::Flag(held(f.animate))),
        LineView::Entry("sky_mode      = "@, ValueView::Text(sky_mode_name(held(f.sky_mode)))),
        LineView::Entry("reduced_motion = "@, ValueView::Flag(held(f.reduced_motion))),
        LineView::Entry("gpu_level     = "@, ValueView::Text(gpu_level_name(held(f.gpu_level)))),
        LineView::Entry("spinner_glow  = "@, ValueView::Number(held(f.spinner_glow))),
        LineView::Entry("spinner_speed = "@, ValueView::Number(held(f.spinner_speed))),
        LineView::Entry("spinner_comet = "@, ValueView::Text(held(f.spinner_comet)@)),
        LineView::Entry("spinner_track = "@, ValueView::Text(held(f.spinner_track)@)),
        LineView::Entry("spinner_trail = "@, ValueView::Number(held(f.spinner_trail))),
    ]
}

/// Lines 27 to 52 of the rendering of a config file.
pub open spec fn file_part2(f: ThemeFile) -> Seq<LineView> {
    seq![
        LineView::Entry("comet_color   = "@, ValueView::Text(held(f.comet_color)@)),
        LineView::Blank,
        LineView::Comment("# Sky"@),
        LineView::Entry("glow_color    = "@, ValueView::Text(held(f.glow_color)@)),
        LineView::Entry("sky_glow      = "@, ValueView::Number(held(f.sky_glow))),
        LineView::Entry("star_density  = "@, ValueView::Number(held(f.star_density))),
        LineView::Entry("star_twinkle  = "@, ValueView::Number(held(f.star_twinkle))),
        LineView::Entry("comet_enabled = "@, ValueView::Flag(held(f.comet_enabled))),
        LineView::Entry("comet_interval = "@, ValueView::Number(held(f.comet_interval))),
        LineView::Entry("cloud_amount  = "@, ValueView::Number(held(f.cloud_amount))),
        LineView::Entry("cloud_speed   = "@, ValueView::Number(held(f.cloud_speed))),
        LineView::Entry("sun_x         = "@, ValueView::Number(held(f.sun_x))),
        LineView::Entry("sun_y         = "@, ValueView::Number(held(f.sun_y))),
        LineView::Entry("sun_size      = "@, ValueView::Number(held(f.sun_size))),
        LineView::Entry("sun_intensity = "@, ValueView::Number(held(f.sun_intensity))),
        LineView::Entry("sun_color     = "@, ValueView::Text(held(f.sun_color)@)),
        LineView::Entry("glow_x        = "@, ValueView::Number(held(f.glow_x))),
        LineView::Entry("glow_y        = "@, ValueView::Number(held(f.glow_y))),
        LineView::Entry("day_haze      = "@, ValueView::Number(held(f.day_haze))),
        LineView::Entry("star_layers   = "@, ValueView::Number(held(f.star_layers))),
        LineView::Entry("star_size     = "@, ValueView::Number(held(f.star_size))),
        LineView::Entry("nebula_speed  = "@, ValueView::Number(held(f.nebula_speed))),
        LineView::Entry("comet_tilt    = "@, ValueView::Number(held(f.comet_tilt))),
        LineView::Entry("comet_pause   = "@, ValueView::Number(held(f.comet_pause))),
        LineView::Entry("comet_width   = "@, ValueView::Number(held(f.comet_width))),
        LineView::Entry("cloud_lit     = "@, ValueView::Text(held(f.cloud_lit)@)),
    ]
}

/// Lines 53 to 78 of the rendering of a config file.
pub open spec fn file_part3(f: ThemeFile) -> Seq<LineView> {
    seq![
        LineView::Entry("cloud_shadow  = "@, ValueView::Text(held(f.cloud_shadow)@)),
        LineView::Entry("cursor_parallax = "@, ValueView::Number(held(f.cursor_parallax))),
        LineView::Entry("glow_pulse    = "@, ValueView::Number(held(f.glow_pulse))),
        LineView::Entry("synthwave_grid_speed       = "@, ValueView::Number(held(f.synthwave_grid_speed))),
        LineView::Entry("synthwave_grid_density     = "@, ValueView::Number(held(f.synthwave_grid_density))),
        LineView::Entry("synthwave_grid_perspective = "@, ValueView::Number(held(f.synthwave_grid_perspective))),
        LineView::Entry("synthwave_grid_glow        = "@, ValueView::Number(held(f.synthwave_grid_glow))),
        LineView::Entry("synthwave_sun_size         = "@, ValueView::Number(held(f.synthwave_sun_size))),
        LineView::Entry("synthwave_sun_stripes      = "@, ValueView::Number(held(f.synthwave_sun_stripes))),
        LineView::Entry("synthwave_sun_bloom        = "@, ValueView::Number(held(f.synthwave_sun_bloom))),
        LineView::Entry("synthwave_horizon          = "@, ValueView::Number(held(f.synthwave_horizon))),
        LineView::Entry("synthwave_grid_color  = "@, ValueView::Text(held(f.synthwave_grid_color)@)),
        LineView::Entry("synthwave_sky_top     = "@, ValueView::Text(held(f.synthwave_sky_top)@)),
        LineView::Entry("synthwave_sky_bottom  = "@, ValueView::Text(held(f.synthwave_sky_bottom)@)),
        LineView::Entry("storm_lightning_rate  = "@, ValueView::Number(held(f.storm_lightning_rate))),
        LineView::Entry("storm_strike_chance   = "@, ValueView::Number(held(f.storm_strike_chance))),
        LineView::Entry("storm_cloud_density   = "@, ValueView::Number(held(f.storm_cloud_density))),
        LineView::Entry("storm_bolt_color      = "@, ValueView::Text(held(f.storm_bolt_color)@)),
        LineView::Entry("storm_flash_color     = "@, ValueView::Text(held(f.storm_flash_color)@)),
        LineView::Entry("rain_fall_speed   = "@, ValueView::Number(held(f.rain_fall_speed))),
        LineView::Entry("rain_density      = "@, ValueView::Number(held(f.rain_density))),
        LineView::Entry("rain_slant        = "@, ValueView::Number(held(f.rain_slant))),
        LineView::Entry("rain_intensity    = "@, ValueView::Number(held(f.rain_intensity))),
        LineView::Entry("rain_color        = "@, ValueView::Text(held(f.rain_color)@)),
        LineView::Entry("snow_fall_speed   = "@, ValueView::Number(held(f.snow_fall_speed))),
        LineView::Entry("snow_density      = "@, ValueView::Number(held(f.snow_density))),
    ]
}

/// Lines 79 to 104 of the rendering of a config file.
pub open spec fn file_part4(f: ThemeFile) -> Seq<LineView> {
    seq![
        LineView::Entry("snow_sway         = "@, ValueView::Number(held(f.snow_sway))),
        LineView::Entry("snow_flake_size   = "@, ValueView::Number(held(f.snow_flake_size))),
        LineView::Entry("snow_color        = "@, ValueView::Text(held(f.snow_color)@)),
        LineView::Entry("fire_rise_speed   = "@, ValueView::Number(held(f.fire_rise_speed))),
        LineView::Entry("fire_flame_height = "@, ValueView::Number(held(f.fire_flame_height))),
        LineView::Entry("fire_flame_color  = "@, ValueView::Text(held(f.fire_flame_color)@)),
        LineView::Entry("fire_tip_color    = "@, ValueView::Text(held(f.fire_tip_color)@)),
        LineView::Entry("aurora_speed      = "@, ValueView::Number(held(f.aurora_speed))),
        LineView::Entry("aurora_drop       = "@, ValueView::Number(held(f.aurora_drop))),
        LineView::Entry("aurora_ray_freq   = "@, ValueView::Number(held(f.aurora_ray_freq))),
        LineView::Entry("aurora_intensity  = "@, ValueView::Number(held(f.aurora_intensity))),
        LineView::Entry("aurora_green      = "@, ValueView::Text(held(f.aurora_green)@)),
        LineView::Entry("aurora_magenta    = "@, ValueView::Text(held(f.aurora_magenta)@)),
        LineView::Entry("plasma_speed      = "@, ValueView::Number(held(f.plasma_speed))),
        LineView::Entry("plasma_scale      = "@, ValueView::Number(held(f.plasma_scale))),
        LineView::Entry("plasma_saturation = "@, ValueView::Number(held(f.plasma_saturation))),
        LineView::Entry("plasma_tint       = "@, ValueView::Text(held(f.plasma_tint)@)),
        LineView::Entry("water_speed       = "@, ValueView::Number(held(f.water_speed))),
        LineView::Entry("water_scale       = "@, ValueView::Number(held(f.water_scale))),
        LineView::Entry("water_ripple      = "@, ValueView::Number(held(f.water_ripple))),
        LineView::Entry("water_caustic     = "@, ValueView::Number(held(f.water_caustic))),
        LineView::Entry("water_caustic_color = "@, ValueView::Text(held(f.water_caustic_color)@)),
        LineView::Entry("water_deep        = "@, ValueView::Text(held(f.water_deep)@)),
        LineView::Entry("water_shallow     = "@, ValueView::Text(held(f.water_shallow)@)),
        LineView::Entry("card_gradient = "@, ValueView::Number(held(f.card_gradient))),
        LineView::Entry("grain         = "@, ValueView::Number(held(f.grain))),
    ]
}

/// Lines 105 to 130 of the rendering of a config file.
pub open spec fn file_part5(f: ThemeFile) -> Seq<LineView> {
    seq![
        LineView::Entry("vignette      = "@, ValueView::Number(held(f.vignette))),
        LineView::Entry("card_blur     = "@, ValueView::Flag(held(f.card_blur))),
        LineView::Comment("# Spinner / card / behavior"@),
        LineView::Entry("spinner_size  = "@, ValueView::Number(held(f.spinner_size))),
        LineView::Entry("spinner_pulse = "@, ValueView::Number(held(f.spinner_pulse))),
        LineView::Entry("spinner_orbit = "@, ValueView::Number(held(f.spinner_orbit))),
        LineView::Entry("spinner_style = "@, ValueView::Text(spinner_style_name(held(f.spinner_style)))),
        LineView::Entry("card_shadow_blur    = "@, ValueView::Number(held(f.card_shadow_blur))),
        LineView::Entry("card_shadow_opacity = "@, ValueView::Number(held(f.card_shadow_opacity))),
        LineView::Entry("accent_breathing = "@, ValueView::Number(held(f.accent_breathing))),
        LineView::Entry("field_radius  = "@, ValueView::Number(held(f.field_radius))),
        LineView::Entry("error_color   = "@, ValueView::Text(held(f.error_color)@)),
        LineView::Entry("logo_box      = "@, ValueView::Text(held(f.logo_box)@)),
        LineView::Entry("logo_box_radius = "@, ValueView::Number(held(f.logo_box_radius))),
        LineView::Entry("clock_24h     = "@, ValueView::Flag(held(f.clock_24h))),
        LineView::Entry("clock_seconds = "@, ValueView::Flag(held(f.clock_seconds))),
        LineView::Entry("clock_size    = "@, ValueView::Number(held(f.clock_size))),
        LineView::Entry("clock_style   = "@, ValueView::Text(clock_style_name(held(f.clock_style)))),
        (match f.clock_format { Some(v) => LineView::Entry("clock_format  = "@, ValueView::Text(v@)), None => LineView::Comment("# clock_format =   # (built-in HH:MM)"@) }),
        LineView::Entry("font_scale    = "@, ValueView::Number(held(f.font_scale))),
        LineView::Entry("font_weight   = "@, ValueView::Text(font_weight_name(held(f.font_weight)))),
        LineView::Entry("fade_ms       = "@, ValueView::Number(held(f.fade_ms))),
        LineView::Comment("# Expert"@),
        LineView::Entry("glow_falloff  = "@, ValueView::Number(held(f.glow_falloff))),
        LineView::Entry("nebula_amount = "@, ValueView::Number(held(f.nebula_amount))),
        LineView::Entry("comet_tail_decay = "@, ValueView::Number(held(f.comet_tail_decay))),
    ]
}

/// Lines 131 to 131 of the rendering of a config file.
pub open spec fn file_part6(f: ThemeFile) -> Seq<LineView> {
    seq![
        LineView::Entry("spinner_ring  = "@, ValueView::Number(held(f.spinner_ring))),
    ]
}

/// The lines that render a config file `f` in the packaged default's layout: each
/// key's line carries the value `f` holds for it; an unset optional text is a
/// commented-out key.
pub open spec fn lines_of_file(f: ThemeFile) -> Seq<LineView> {
    file_part1(f) + file_part2(f) + file_part3(f) + file_part4(f) + file_part5(f) + file_part6(f)
}

proof fn lemma_part1_renders_the_file(f: ThemeFile, t: Theme)
    requires
        is_config_of(f, t),
    ensures
        config_part1(t) == file_part1(f),
{
    assert(config_part1(t) =~= file_part1(f));
}

proof fn lemma_part2_renders_the_file(f: ThemeFile, t: Theme)
    requires
        is_config_of(f, t),
    ensures
        config_part2(t) == file_part2(f),
{
    assert(config_part2(t) =~= file_part2(f));
}

proof fn lemma_part3_renders_the_file(f: ThemeFile, t: Theme)
    requires
        is_config_of(f, t),
    ensures
        config_part3(t) == file_part3(f),
{
    assert(config_part3(t) =~= file_part3(f));
}

proof fn lemma_part4_renders_the_file(f: ThemeFile, t: Theme)
    requires
        is_config_of(f, t),
    ensures
        config_part4(t) == file_part4(f),
{
    assert(config_part4(t) =~= file_part4(f));
}

proof fn lemma_part5_renders_the_file(f: ThemeFile, t: Theme)
    requires
        is_config_of(f, t),
    ensures
        config_part5(t) == file_part5(f),
{
    assert(config_part5(t) =~= file_part5(f));
}

proof fn lemma_part6_renders_the_file(f: ThemeFile, t: Theme)
    requires
        is_config_of(f, t),
    ensures
        config_part6(t) == file_part6(f),
{
    assert(config_part6(t) =~= file_part6(f));
}

/// The lines that render the day window and `[day]` table of a pair config `f`.
pub open spec fn pair_tail_of_file(f: ThemeFile) -> Seq<LineView> {
    let d = held(f.day);
    seq![
        LineView::Entry("day_start  = "@, ValueView::Text(held(f.day_start)@)),
        LineView::Entry("day_end    = "@, ValueView::Text(held(f.day_end)@)),
        LineView::Blank,
        LineView::Comment("# Day variant overrides (light). Structural keys (font, sizes,"@),
        LineView::Comment("# behaviour) are shared from above; only colors/assets differ."@),
        LineView::Table("day"@),
        LineView::Entry("background  = "@, ValueView::Text(held(d.background)@)),
        LineView::Entry("card        = "@, ValueView::Text(held(d.card)@)),
        LineView::Entry("field       = "@, ValueView::Text(held(d.field)@)),
        LineView::Entry("accent      = "@, ValueView::Text(held(d.accent)@)),
        LineView::Entry("foreground  = "@, ValueView::Text(held(d.foreground)@)),
        LineView::Entry("muted       = "@, ValueView::Text(held(d.muted)@)),
        (match d.wallpaper { Some(v) => LineView::Entry("wallpaper = "@, ValueView::Text(v@)), None => LineView::Comment("# wallpaper ="@) }),
        (match d.logo { Some(v) => LineView::Entry("logo = "@, ValueView::Text(v@)), None => LineView::Comment("# logo ="@) }),
        LineView::Entry("spinner_glow = "@, ValueView::Number(held(d.spinner_glow))),
        LineView::Entry("spinner_comet = "@, ValueView::Text(held(d.spinner_comet)@)),
        LineView::Entry("spinner_track = "@, ValueView::Text(held(d.spinner_track)@)),
        LineView::Entry("spinner_trail = "@, ValueView::Number(held(d.spinner_trail))),
        LineView::Entry("comet_color = "@, ValueView::Text(held(d.comet_color)@)),
        LineView::Entry("glow_color = "@, ValueView::Text(held(d.glow_color)@)),
        LineView::Entry("sky_glow = "@, ValueView::Number(held(d.sky_glow))),
        LineView::Entry("error_color = "@, ValueView::Text(held(d.error_color)@)),
        LineView::Entry("logo_box = "@, ValueView::Text(held(d.logo_box)@)),
    ]
}

/// The written lines are the rendering of the written file: every key line carries
/// exactly the value the file holds for that key, so reading the text back gives
/// the file.
pub proof fn lemma_lines_render_the_file(f: ThemeFile, t: Theme)
    requires
        is_config_of(f, t),
    ensures
        config_lines_of(t) == lines_of_file(f),
{
    lemma_part1_renders_the_file(f, t);
    lemma_part2_renders_the_file(f, t);
    lemma_part3_renders_the_file(f, t);
    lemma_part4_renders_the_file(f, t);
    lemma_part5_renders_the_file(f, t);
    lemma_part6_renders_the_file(f, t);
}

/// The same for a config holding both variants: the night lines render its top
/// level, and the tail renders its day window and `[day]` table.
pub proof fn lemma_pair_lines_render_the_file(f: ThemeFile, night: Theme, day: Theme, start: Seq<char>, end: Seq<char>)
    requires
        is_pair_config_of(f, night, day, start, end),
    ensures
        config_lines_of(night) + pair_tail_of(day, start, end) == lines_of_file(f) + pair_tail_of_file(f),
{
    let top = ThemeFile { day_start: None, day_end: None, day: None, ..f };
    lemma_lines_render_the_file(top, night);
    assert(lines_of_file(top) =~= lines_of_file(f));
    assert(pair_tail_of(day, start, end) =~= pair_tail_of_file(f));
}

/// Append one line.
fn put(out: &mut Vec<ConfigLine>, line: ConfigLine)
    ensures
        line_views(final(out)@) == line_views(old(out)@).push(line@),
{
    let ghost before = out@;
    out.push(line);
    proof {
        assert(line_views(out@) =~= line_views(before).push(line@));
    }
}

fn push_config_part1(t: &Theme, out: &mut Vec<ConfigLine>)
    ensures
        line_views(final(out)@) == line_views(old(out)@) + config_part1(*t),
{
    let ghost start = line_views(out@);
    put(out, ConfigLine::Comment(owned("# door greeter theme — written by door-settings. Edit here or in")));
    put(out, ConfigLine::Comment(owned("# door-settings; keys are documented in the packaged default at")));
    put(out, ConfigLine::Comment(owned("# /usr/share/door/greeter.toml. Colors are \"#rrggbb\" or \"#rrggbbaa\".")));
    put(out, ConfigLine::Blank);
    put(out, text_line(&t.wallpaper, "wallpaper = ", "# wallpaper =   # (none — solid background)"));
    put(out, ConfigLine::Entry { lead: owned("background  = "), value: ConfigValue::Text(t.background.to_hex()) });
    put(out, ConfigLine::Entry { lead: owned("card        = "), value: ConfigValue::Text(t.card.to_hex()) });
    put(out, ConfigLine::Entry { lead: owned("field       = "), value: ConfigValue::Text(t.field.to_hex()) });
    put(out, ConfigLine::Entry { lead: owned("accent      = "), value: ConfigValue::Text(t.accent.to_hex()) });
    put(out, ConfigLine::Entry { lead: owned("foreground  = "), value: ConfigValue::Text(t.foreground.to_hex()) });
    put(out, ConfigLine::Entry { lead: owned("muted       = "), value: ConfigValue::Text(t.muted.to_hex()) });
    put(out, text_line(&t.font, "font = ", "# font =   # (stock)"));
    put(out, text_line(&t.logo, "logo = ", "# logo ="));
    put(out, ConfigLine::Entry { lead: owned("corner_radius = "), value: ConfigValue::Number(t.corner_radius) });
    put(out, ConfigLine::Entry { lead: owned("card_width    = "), value: ConfigValue::Number(t.card_width) });
    put(out, ConfigLine::Entry { lead: owned("card_pos      = "), value: ConfigValue::Text(owned(t.card_pos.name())) });
    put(out, ConfigLine::Entry { lead: owned("show_clock    = "), value: ConfigValue::Flag(t.show_clock) });
    put(out, ConfigLine::Entry { lead: owned("animate       = "), value: ConfigValue::Flag(t.animate) });
    put(out, ConfigLine::Entry { lead: owned("sky_mode      = "), value: ConfigValue::Text(owned(t.sky_mode.name())) });
    put(out, ConfigLine::Entry { lead: owned("reduced_motion = "), value: ConfigValue::Flag(t.reduced_motion) });
    put(out, ConfigLine::Entry { lead: owned("gpu_level     = "), value: ConfigValue::Text(owned(t.gpu_level.name())) });
    put(out, ConfigLine::Entry { lead: owned("spinner_glow  = "), value: ConfigValue::Number(t.spinner_glow) });
    put(out, ConfigLine::Entry { lead: owned("spinner_speed = "), value: ConfigValue::Number(t.spinner_speed) });
    put(out, ConfigLine::Entry { lead: owned("spinner_comet = "), value: ConfigValue::Text(t.spinner_comet.to_hex()) });
    put(out, ConfigLine::Entry { lead: owned("spinner_track = "), value: ConfigValue::Text(t.spinner_track.to_hex()) });
    put(out, ConfigLine::Entry { lead: owned("spinner_trail = "), value: ConfigValue::Number(t.spinner_trail) });
    proof {
        assert(line_views(out@) =~= start + config_part1(*t));
    }
}

fn push_config_part2(t: &Theme, out: &mut Vec<ConfigLine>)
    ensures
        line_views(final(out)@) == line_views(old(out)@) + config_part2(*t),
{
    let ghost start = line_views(out@);
    put(out, ConfigLine::Entry { lead: owned("comet_color   = "), value: ConfigValue::Text(t.comet_color.to_hex()) });
    put(out, ConfigLine::Blank);
    put(out, ConfigLine::Comment(owned("# Sky")));
    put(out, ConfigLine::Entry { lead: owned("glow_color    = "), value: ConfigValue::Text(t.glow_color.to_hex()) });
    put(out, ConfigLine::Entry { lead: owned("sky_glow      = "), value: ConfigValue::Number(t.sky_glow) });
    put(out, ConfigLine::Entry { lead: owned("star_density  = "), value: ConfigValue::Number(t.star_density) });
    put(out, ConfigLine::Entry { lead: owned("star_twinkle  = "), value: ConfigValue::Number(t.star_twinkle) });
    put(out, ConfigLine::Entry { lead: owned("comet_enabled = "), value: ConfigValue::Flag(t.comet_enabled) });
    put(out, ConfigLine::Entry { lead: owned("comet_interval = "), value: ConfigValue::Number(t.comet_interval) });
    put(out, ConfigLine::Entry { lead: owned("cloud_amount  = "), value: ConfigValue::Number(t.cloud_amount) });
    put(out, ConfigLine::Entry { lead: owned("cloud_speed   = "), value: ConfigValue::Number(t.cloud_speed) });
    put(out, ConfigLine::Entry { lead: owned("sun_x         = "), value: ConfigValue::Number(t.sun_x) });
    put(out, ConfigLine::Entry { lead: owned("sun_y         = "), value: ConfigValue::Number(t.sun_y) });
    put(out, ConfigLine::Entry { lead: owned("sun_size      = "), value: ConfigValue::Number(t.sun_size) });
    put(out, ConfigLine::Entry { lead: owned("sun_intensity = "), value: ConfigValue::Number(t.sun_intensity) });
    put(out, ConfigLine::Entry { lead: owned("sun_color     = "), value: ConfigValue::Text(t.sun_color.to_hex()) });
    put(out, ConfigLine::Entry { lead: owned("glow_x        = "), value: ConfigValue::Number(t.glow_x) });
    put(out, ConfigLine::Entry { lead: owned("glow_y        = "), value: ConfigValue::Number(t.glow_y) });
    put(out, ConfigLine::Entry { lead: owned("day_haze      = "), value: ConfigValue::Number(t.day_haze) });
    put(out, ConfigLine::Entry { lead: owned("star_layers   = "), value: ConfigValue::Number(t.star_layers) });
    put(out, ConfigLine::Entry { lead: owned("star_size     = "), value: ConfigValue::Number(t.star_size) });
    put(out, ConfigLine::Entry { lead: owned("nebula_speed  = "), value: ConfigValue::Number(t.nebula_speed) });
    put(out, ConfigLine::Entry { lead: owned("comet_tilt    = "), value: ConfigValue::Number(t.comet_tilt) });
    put(out, ConfigLine::Entry { lead: owned("comet_pause   = "), value: ConfigValue::Number(t.comet_pause) });
    put(out, ConfigLine::Entry { lead: owned("comet_width   = "), value: ConfigValue::Number(t.comet_width) });
    put(out, ConfigLine::Entry { lead: owned("cloud_lit     = "), value: ConfigValue::Text(t.cloud_lit.to_hex()) });
    proof {
        assert(line_views(out@) =~= start + config_part2(*t));
    }
}

fn push_config_part3(t: &Theme, out: &mut Vec<ConfigLine>)
    ensures
        line_views(final(out)@) == line_views(old(out)@) + config_part3(*t),
{
    let ghost start = line_views(out@);
    put(out, ConfigLine::Entry { lead: owned("cloud_shadow  = "), value: ConfigValue::Text(t.cloud_shadow.to_hex()) });
    put(out, ConfigLine::Entry { lead: owned("cursor_parallax = "), value: ConfigValue::Number(t.cursor_parallax) });
    put(out, ConfigLine::Entry { lead: owned("glow_pulse    = "), value: ConfigValue::Number(t.glow_pulse) });
    put(out, ConfigLine::Entry { lead: owned("synthwave_grid_speed       = "), value: ConfigValue::Number(t.synthwave_grid_speed) });
    put(out, ConfigLine::Entry { lead: owned("synthwave_grid_density     = "), value: ConfigValue::Number(t.synthwave_grid_density) });
    put(out, ConfigLine::Entry { lead: owned("synthwave_grid_perspective = "), value: ConfigValue::Number(t.synthwave_grid_perspective) });
    put(out, ConfigLine::Entry { lead: owned("synthwave_grid_glow        = "), value: ConfigValue::Number(t.synthwave_grid_glow) });
    put(out, ConfigLine::Entry { lead: owned("synthwave_sun_size         = "), value: ConfigValue::Number(t.synthwave_sun_size) });
    put(out, ConfigLine::Entry { lead: owned("synthwave_sun_stripes      = "), value: ConfigValue::Number(t.synthwave_sun_stripes) });
    put(out, ConfigLine::Entry { lead: owned("synthwave_sun_bloom        = "), value: ConfigValue::Number(t.synthwave_sun_bloom) });
    put(out, ConfigLine::Entry { lead: owned("synthwave_horizon          = "), value: ConfigValue::Number(t.synthwave_horizon) });
    put(out, ConfigLine::Entry { lead: owned("synthwave_grid_color  = "), value: ConfigValue::Text(t.synthwave_grid_color.to_hex()) });
    put(out, ConfigLine::Entry { lead: owned("synthwave_sky_top     = "), value: ConfigValue::Text(t.synthwave_sky_top.to_hex()) });
    put(out, ConfigLine::Entry { lead: owned("synthwave_sky_bottom  = "), value: ConfigValue::Text(t.synthwave_sky_bottom.to_hex()) });
    put(out, ConfigLine::Entry { lead: owned("storm_lightning_rate  = "), value: ConfigValue::Number(t.storm_lightning_rate) });
    put(out, ConfigLine::Entry { lead: owned("storm_strike_chance   = "), value: ConfigValue::Number(t.storm_strike_chance) });
    put(out, ConfigLine::Entry { lead: owned("storm_cloud_density   = "), value: ConfigValue::Number(t.storm_cloud_density) });
    put(out, ConfigLine::Entry { lead: owned("storm_bolt_color      = "), value: ConfigValue::Text(t.storm_bolt_color.to_hex()) });
    put(out, ConfigLine::Entry { lead: owned("storm_flash_color     = "), value: ConfigValue::Text(t.storm_flash_color.to_hex()) });
    put(out, ConfigLine::Entry { lead: owned("rain_fall_speed   = "), value: ConfigValue::Number(t.rain_fall_speed) });
    put(out, ConfigLine::Entry { lead: owned("rain_density      = "), value: ConfigValue::Number(t.rain_density) });
    put(out, ConfigLine::Entry { lead: owned("rain_slant        = "), value: ConfigValue::Number(t.rain_slant) });
    put(out, ConfigLine::Entry { lead: owned("rain_intensity    = "), value: ConfigValue::Number(t.rain_intensity) });
    put(out, ConfigLine::Entry { lead: owned("rain_color        = "), value: ConfigValue::Text(t.rain_color.to_hex()) });
    put(out, ConfigLine::Entry { lead: owned("snow_fall_speed   = "), value: ConfigValue::Number(t.snow_fall_speed) });
    put(out, ConfigLine::Entry { lead: owned("snow_density      = "), value: ConfigValue::Number(t.snow_density) });
    proof {
        assert(line_views(out@) =~= start + config_part3(*t));
    }
}

fn push_config_part4(t: &Theme, out: &mut Vec<ConfigLine>)
    ensures
        line_views(final(out)@) == line_views(old(out)@) + config_part4(*t),
{
    let ghost start = line_views(out@);
    put(out, ConfigLine::Entry { lead: owned("snow_sway         = "), value: ConfigValue::Number(t.snow_sway) });
    put(out, ConfigLine::Entry { lead: owned("snow_flake_size   = "), value: ConfigValue::Number(t.snow_flake_size) });
    put(out, ConfigLine::Entry { lead: owned("snow_color        = "), value: ConfigValue::Text(t.snow_color.to_hex()) });
    put(out, ConfigLine::Entry { lead: owned("fire_rise_speed   = "), value: ConfigValue::Number(t.fire_rise_speed) });
    put(out, ConfigLine::Entry { lead: owned("fire_flame_height = "), value: ConfigValue::Number(t.fire_flame_height) });
    put(out, ConfigLine::Entry { lead: owned("fire_flame_color  = "), value: ConfigValue::Text(t.fire_flame_color.to_hex()) });
    put(out, ConfigLine::Entry { lead: owned("fire_tip_color    = "), value: ConfigValue::Text(t.fire_tip_color.to_hex()) });
    put(out, ConfigLine::Entry { lead: owned("aurora_speed      = "), value: ConfigValue::Number(t.aurora_speed) });
    put(out, ConfigLine::Entry { lead: owned("aurora_drop       = "), value: ConfigValue::Number(t.aurora_drop) });
    put(out, ConfigLine::Entry { lead: owned("aurora_ray_freq   = "), value: ConfigValue::Number(t.aurora_ray_freq) });
    put(out, ConfigLine::Entry { lead: owned("aurora_intensity  = "), value: ConfigValue::Number(t.aurora_intensity) });
    put(out, ConfigLine::Entry { lead: owned("aurora_green      = "), value: ConfigValue::Text(t.aurora_green.to_hex()) });
    put(out, ConfigLine::Entry { lead: owned("aurora_magenta    = "), value: ConfigValue::Text(t.aurora_magenta.to_hex()) });
    put(out, ConfigLine::Entry { lead: owned("plasma_speed      = "), value: ConfigValue::Number(t.plasma_speed) });
    put(out, ConfigLine::Entry { lead: owned("plasma_scale      = "), value: ConfigValue::Number(t.plasma_scale) });
    put(out, ConfigLine::Entry { lead: owned("plasma_saturation = "), value: ConfigValue::Number(t.plasma_saturation) });
    put(out, ConfigLine::Entry { lead: owned("plasma_tint       = "), value: ConfigValue::Text(t.plasma_tint.to_hex()) });
    put(out, ConfigLine::Entry { lead: owned("water_speed       = "), value: ConfigValue::Number(t.water_speed) });
    put(out, ConfigLine::Entry { lead: owned("water_scale       = "), value: ConfigValue::Number(t.water_scale) });
    put(out, ConfigLine::Entry { lead: owned("water_ripple      = "), value: ConfigValue::Number(t.water_ripple) });
    put(out, ConfigLine::Entry { lead: owned("water_caustic     = "), value: ConfigValue::Number(t.water_caustic) });
    put(out, ConfigLine::Entry { lead: owned("water_caustic_color = "), value: ConfigValue::Text(t.water_caustic_color.to_hex()) });
    put(out, ConfigLine::Entry { lead: owned("water_deep        = "), value: ConfigValue::Text(t.water_deep.to_hex()) });
    put(out, ConfigLine::Entry { lead: owned("water_shallow     = "), value: ConfigValue::Text(t.water_shallow.to_hex()) });
    put(out, ConfigLine::Entry { lead: owned("card_gradient = "), value: ConfigValue::Number(t.card_gradient) });
    put(out, ConfigLine::Entry { lead: owned("grain         = "), value: ConfigValue::Number(t.grain) });
    proof {
        assert(line_views(out@) =~= start + config_part4(*t));
    }
}

fn push_config_part5(t: &Theme, out: &mut Vec<ConfigLine>)
    ensures
        line_views(final(out)@) == line_views(old(out)@) + config_part5(*t),
{
    let ghost start = line_views(out@);
    put(out, ConfigLine::Entry { lead: owned("vignette      = "), value: ConfigValue::Number(t.vignette) });
    put(out, ConfigLine::Entry { lead: owned("card_blur     = "), value: ConfigValue::Flag(t.card_blur) });
    put(out, ConfigLine::Comment(owned("# Spinner / card / behavior")));
    put(out, ConfigLine::Entry { lead: owned("spinner_size  = "), value: ConfigValue::Number(t.spinner_size) });
    put(out, ConfigLine::Entry { lead: owned("spinner_pulse = "), value: ConfigValue::Number(t.spinner_pulse) });
    put(out, ConfigLine::Entry { lead: owned("spinner_orbit = "), value: ConfigValue::Number(t.spinner_orbit) });
    put(out, ConfigLine::Entry { lead: owned("spinner_style = "), value: ConfigValue::Text(owned(t.spinner_style.name())) });
    put(out, ConfigLine::Entry { lead: owned("card_shadow_blur    = "), value: ConfigValue::Number(t.card_shadow_blur) });
    put(out, ConfigLine::Entry { lead: owned("card_shadow_opacity = "), value: ConfigValue::Number(t.card_shadow_opacity) });
    put(out, ConfigLine::Entry { lead: owned("accent_breathing = "), value: ConfigValue::Number(t.accent_breathing) });
    put(out, ConfigLine::Entry { lead: owned("field_radius  = "), value: ConfigValue::Number(t.field_radius) });
    put(out, ConfigLine::Entry { lead: owned("error_color   = "), value: ConfigValue::Text(t.error_color.to_hex()) });
    put(out, ConfigLine::Entry { lead: owned("logo_box      = "), value: ConfigValue::Text(t.logo_box.to_hex()) });
    put(out, ConfigLine::Entry { lead: owned("logo_box_radius = "), value: ConfigValue::Number(t.logo_box_radius) });
    put(out, ConfigLine::Entry { lead: owned("clock_24h     = "), value: ConfigValue::Flag(t.clock_24h) });
    put(out, ConfigLine::Entry { lead: owned("clock_seconds = "), value: ConfigValue::Flag(t.clock_seconds) });
    put(out, ConfigLine::Entry { lead: owned("clock_size    = "), value: ConfigValue::Number(t.clock_size) });
    put(out, ConfigLine::Entry { lead: owned("clock_style   = "), value: ConfigValue::Text(owned(t.clock_style.name())) });
    put(out, text_line(&t.clock_format, "clock_format  = ", "# clock_format =   # (built-in HH:MM)"));
    put(out, ConfigLine::Entry { lead: owned("font_scale    = "), value: ConfigValue::Number(t.font_scale) });
    put(out, ConfigLine::Entry { lead: owned("font_weight   = "), value: ConfigValue::Text(owned(t.font_weight.name())) });
    put(out, ConfigLine::Entry { lead: owned("fade_ms       = "), value: ConfigValue::Number(t.fade_ms) });
    put(out, ConfigLine::Comment(owned("# Expert")));
    put(out, ConfigLine::Entry { lead: owned("glow_falloff  = "), value: ConfigValue::Number(t.glow_falloff) });
    put(out, ConfigLine::Entry { lead: owned("nebula_amount = "), value: ConfigValue::Number(t.nebula_amount) });
    put(out, ConfigLine::Entry { lead: owned("comet_tail_decay = "), value: ConfigValue::Number(t.comet_tail_decay) });
    proof {
        assert(line_views(out@) =~= start + config_part5(*t));
    }
}

fn push_config_part6(t: &Theme, out: &mut Vec<ConfigLine>)
    ensures
        line_views(final(out)@) == line_views(old(out)@) + config_part6(*t),
{
    let ghost start = line_views(out@);
    put(out, ConfigLine::Entry { lead: owned("spinner_ring  = "), value: ConfigValue::Number(t.spinner_ring) });
    proof {
        assert(line_views(out@) =~= start + config_part6(*t));
    }
}

fn push_pair_tail(day: &Theme, start: &str, end: &str, out: &mut Vec<ConfigLine>)
    ensures
        line_views(final(out)@) == line_views(old(out)@) + pair_tail_of(*day, start@, end@),
{
    let ghost first = line_views(out@);
    put(out, ConfigLine::Entry { lead: owned("day_start  = "), value: ConfigValue::Text(owned(start)) });
    put(out, ConfigLine::Entry { lead: owned("day_end    = "), value: ConfigValue::Text(owned(end)) });
    put(out, ConfigLine::Blank);
    put(out, ConfigLine::Comment(owned("# Day variant overrides (light). Structural keys (font, sizes,")));
    put(out, ConfigLine::Comment(owned("# behaviour) are shared from above; only colors/assets differ.")));
    put(out, ConfigLine::Table(owned("day")));
    put(out, ConfigLine::Entry { lead: owned("background  = "), value: ConfigValue::Text(day.background.to_hex()) });
    put(out, ConfigLine::Entry { lead: owned("card        = "), value: ConfigValue::Text(day.card.to_hex()) });
    put(out, ConfigLine::Entry { lead: owned("field       = "), value: ConfigValue::Text(day.field.to_hex()) });
    put(out, ConfigLine::Entry { lead: owned("accent      = "), value: ConfigValue::Text(day.accent.to_hex()) });
    put(out, ConfigLine::Entry { lead: owned("foreground  = "), value: ConfigValue::Text(day.foreground.to_hex()) });
    put(out, ConfigLine::Entry { lead: owned("muted       = "), value: ConfigValue::Text(day.muted.to_hex()) });
    put(out, text_line(&day.wallpaper, "wallpaper = ", "# wallpaper ="));
    put(out, text_line(&day.logo, "logo = ", "# logo ="));
    put(out, ConfigLine::Entry { lead: owned("spinner_glow = "), value: ConfigValue::Number(day.spinner_glow) });
    put(out, ConfigLine::Entry { lead: owned("spinner_comet = "), value: ConfigValue::Text(day.spinner_comet.to_hex()) });
    put(out, ConfigLine::Entry { lead: owned("spinner_track = "), value: ConfigValue::Text(day.spinner_track.to_hex()) });
    put(out, ConfigLine::Entry { lead: owned("spinner_trail = "), value: ConfigValue::Number(day.spinner_trail) });
    put(out, ConfigLine::Entry { lead: owned("comet_color = "), value: ConfigValue::Text(day.comet_color.to_hex()) });
    put(out, ConfigLine::Entry { lead: owned("glow_color = "), value: ConfigValue::Text(day.glow_color.to_hex()) });
    put(out, ConfigLine::Entry { lead: owned("sky_glow = "), value: ConfigValue::Number(day.sky_glow) });
    put(out, ConfigLine::Entry { lead: owned("error_color = "), value: ConfigValue::Text(day.error_color.to_hex()) });
    put(out, ConfigLine::Entry { lead: owned("logo_box = "), value: ConfigValue::Text(day.logo_box.to_hex()) });
    proof {
        assert(line_views(out@) =~= first + pair_tail_of(*day, start@, end@));
    }
}

impl Theme {
    /// What the written config of this theme sets: every key but `is_day`.
    pub fn to_config_file(&self) -> (f: ThemeFile)
        ensures
            is_config_of(f, *self),
    {
        ThemeFile {
            wallpaper: copy_text(&self.wallpaper),
            background: Some(self.background.to_hex()),
            card: Some(self.card.to_hex()),
            accent: Some(self.accent.to_hex()),
            foreground: Some(self.foreground.to_hex()),
            muted: Some(self.muted.to_hex()),
            field: Some(self.field.to_hex()),
            font: copy_text(&self.font),
            logo: copy_text(&self.logo),
            corner_radius: Some(self.corner_radius),
            card_width: Some(self.card_width),
            card_pos: Some(self.card_pos),
            show_clock: Some(self.show_clock),
            animate: Some(self.animate),
            sky_mode: Some(self.sky_mode),
            reduced_motion: Some(self.reduced_motion),
            gpu_level: Some(self.gpu_level),
            spinner_glow: Some(self.spinner_glow),
            spinner_speed: Some(self.spinner_speed),
            spinner_comet: Some(self.spinner_comet.to_hex()),
            spinner_track: Some(self.spinner_track.to_hex()),
            spinner_trail: Some(self.spinner_trail),
            comet_color: Some(self.comet_color.to_hex()),
            glow_color: Some(self.glow_color.to_hex()),
            sky_glow: Some(self.sky_glow),
            star_density: Some(self.star_density),
            star_twinkle: Some(self.star_twinkle),
            comet_enabled: Some(self.comet_enabled),
            comet_interval: Some(self.comet_interval),
            cloud_amount: Some(self.cloud_amount),
            cloud_speed: Some(self.cloud_speed),
            sun_x: Some(self.sun_x),
            sun_y: Some(self.sun_y),
            sun_size: Some(self.sun_size),
            sun_intensity: Some(self.sun_intensity),
            sun_color: Some(self.sun_color.to_hex()),
            glow_x: Some(self.glow_x),
            glow_y: Some(self.glow_y),
            day_haze: Some(self.day_haze),
            star_layers: Some(self.star_layers),
            star_size: Some(self.star_size),
            nebula_speed: Some(self.nebula_speed),
            comet_tilt: Some(self.comet_tilt),
            comet_pause: Some(self.comet_pause),
            comet_width: Some(self.comet_width),
            cloud_lit: Some(self.cloud_lit.to_hex()),
            cloud_shadow: Some(self.cloud_shadow.to_hex()),
            cursor_parallax: Some(self.cursor_parallax),
            glow_pulse: Some(self.glow_pulse),
            synthwave_grid_speed: Some(self.synthwave_grid_speed),
            synthwave_grid_density: Some(self.synthwave_grid_density),
            synthwave_grid_perspective: Some(self.synthwave_grid_perspective),
            synthwave_grid_glow: Some(self.synthwave_grid_glow),
            synthwave_sun_size: Some(self.synthwave_sun_size),
            synthwave_sun_stripes: Some(self.synthwave_sun_stripes),
            synthwave_sun_bloom: Some(self.synthwave_sun_bloom),
            synthwave_horizon: Some(self.synthwave_horizon),
            synthwave_grid_color: Some(self.synthwave_grid_color.to_hex()),
            synthwave_sky_top: Some(self.synthwave_sky_top.to_hex()),
            synthwave_sky_bottom: Some(self.synthwave_sky_bottom.to_hex()),
            storm_lightning_rate: Some(self.storm_lightning_rate),
            storm_strike_chance: Some(self.storm_strike_chance),
            storm_cloud_density: Some(self.storm_cloud_density),
            storm_bolt_color: Some(self.storm_bolt_color.to_hex()),
            storm_flash_color: Some(self.storm_flash_color.to_hex()),
            rain_fall_speed: Some(self.rain_fall_speed),
            rain_density: Some(self.rain_density),
            rain_slant: Some(self.rain_slant),
            rain_intensity: Some(self.rain_intensity),
            rain_color: Some(self.rain_color.to_hex()),
            snow_fall_speed: Some(self.snow_fall_speed),
            snow_density: Some(self.snow_density),
            snow_sway: Some(self.snow_sway),
            snow_flake_size: Some(self.snow_flake_size),
            snow_color: Some(self.snow_color.to_hex()),
            fire_rise_speed: Some(self.fire_rise_speed),
            fire_flame_height: Some(self.fire_flame_height),
            fire_flame_color: Some(self.fire_flame_color.to_hex()),
            fire_tip_color: Some(self.fire_tip_color.to_hex()),
            aurora_speed: Some(self.aurora_speed),
            aurora_drop: Some(self.aurora_drop),
            aurora_ray_freq: Some(self.aurora_ray_freq),
            aurora_intensity: Some(self.aurora_intensity),
            aurora_green: Some(self.aurora_green.to_hex()),
            aurora_magenta: Some(self.aurora_magenta.to_hex()),
            plasma_speed: Some(self.plasma_speed),
            plasma_scale: Some(self.plasma_scale),
            plasma_saturation: Some(self.plasma_saturation),
            plasma_tint: Some(self.plasma_tint.to_hex()),
            water_speed: Some(self.water_speed),
            water_scale: Some(self.water_scale),
            water_ripple: Some(self.water_ripple),
            water_caustic: Some(self.water_caustic),
            water_caustic_color: Some(self.water_caustic_color.to_hex()),
            water_deep: Some(self.water_deep.to_hex()),
            water_shallow: Some(self.water_shallow.to_hex()),
            card_gradient: Some(self.card_gradient),
            grain: Some(self.grain),
            vignette: Some(self.vignette),
            card_blur: Some(self.card_blur),
            spinner_orbit: Some(self.spinner_orbit),
            spinner_style: Some(self.spinner_style),
            spinner_size: Some(self.spinner_size),
            spinner_pulse: Some(self.spinner_pulse),
            card_shadow_blur: Some(self.card_shadow_blur),
            card_shadow_opacity: Some(self.card_shadow_opacity),
            accent_breathing: Some(self.accent_breathing),
            field_radius: Some(self.field_radius),
            error_color: Some(self.error_color.to_hex()),
            logo_box: Some(self.logo_box.to_hex()),
            logo_box_radius: Some(self.logo_box_radius),
            clock_24h: Some(self.clock_24h),
            clock_seconds: Some(self.clock_seconds),
            clock_size: Some(self.clock_size),
            clock_style: Some(self.clock_style),
            clock_format: copy_text(&self.clock_format),
            font_scale: Some(self.font_scale),
            font_weight: Some(self.font_weight),
            fade_ms: Some(self.fade_ms),
            glow_falloff: Some(self.glow_falloff),
            nebula_amount: Some(self.nebula_amount),
            comet_tail_decay: Some(self.comet_tail_decay),
            spinner_ring: Some(self.spinner_ring),
            day_start: None,
            day_end: None,
            day: None,
        }
    }

    /// The config written for this theme, line by line: a header, then every key
    /// but `is_day` in the packaged default's order, with an unset optional text
    /// written as a commented-out key.
    pub fn to_config_lines(&self) -> (lines: Vec<ConfigLine>)
        ensures
            line_views(lines@) == config_lines_of(*self),
    {
        let mut out: Vec<ConfigLine> = Vec::new();
        proof {
            assert(line_views(out@) =~= Seq::<LineView>::empty());
        }
        push_config_part1(self, &mut out);
        push_config_part2(self, &mut out);
        push_config_part3(self, &mut out);
        push_config_part4(self, &mut out);
        push_config_part5(self, &mut out);
        push_config_part6(self, &mut out);
        proof {
            assert(line_views(out@) =~= config_lines_of(*self));
        }
        out
    }

    /// What a config holding both variants sets: the night variant's keys at the
    /// top level, the day window as given, and a `[day]` table with the day
    /// variant's per-variant keys.
    pub fn render_pair_file(night: &Theme, day: &Theme, day_start: &str, day_end: &str) -> (f: ThemeFile)
        ensures
            is_pair_config_of(f, *night, *day, day_start@, day_end@),
    {
        let top = night.to_config_file();
        let table = DayFile {
            wallpaper: copy_text(&day.wallpaper),
            background: Some(day.background.to_hex()),
            card: Some(day.card.to_hex()),
            accent: Some(day.accent.to_hex()),
            foreground: Some(day.foreground.to_hex()),
            muted: Some(day.muted.to_hex()),
            field: Some(day.field.to_hex()),
            logo: copy_text(&day.logo),
            spinner_glow: Some(day.spinner_glow),
            spinner_comet: Some(day.spinner_comet.to_hex()),
            spinner_track: Some(day.spinner_track.to_hex()),
            spinner_trail: Some(day.spinner_trail),
            comet_color: Some(day.comet_color.to_hex()),
            glow_color: Some(day.glow_color.to_hex()),
            sky_glow: Some(day.sky_glow),
            error_color: Some(day.error_color.to_hex()),
            logo_box: Some(day.logo_box.to_hex()),
        };
        ThemeFile { day_start: Some(owned(day_start)), day_end: Some(owned(day_end)), day: Some(table), ..top }
    }

    /// The config holding both variants, line by line: the night variant's
    /// config, the day window, then the `[day]` table.
    pub fn render_pair_lines(night: &Theme, day: &Theme, day_start: &str, day_end: &str) -> (lines: Vec<ConfigLine>)
        ensures
            line_views(lines@) == config_lines_of(*night) + pair_tail_of(*day, day_start@, day_end@),
    {
        let mut out = night.to_config_lines();
        push_pair_tail(day, day_start, day_end, &mut out);
        out
    }
}

/// Reading back what was written for a night theme gives that theme: the written
/// config, merged over the built-in default, is the theme itself.
#[verifier::rlimit(60)]
pub proof fn lemma_written_config_round_trips(f: ThemeFile, t: Theme)
    requires
        is_config_of(f, t),
        !t.is_day,
    ensures
        night_of(f) == t,
{
    lemma_hex_round_trip(t.background);
    lemma_hex_round_trip(t.card);
    lemma_hex_round_trip(t.accent);
    lemma_hex_round_trip(t.foreground);
    lemma_hex_round_trip(t.muted);
    lemma_hex_round_trip(t.field);
    lemma_hex_round_trip(t.spinner_comet);
    lemma_hex_round_trip(t.spinner_track);
    lemma_hex_round_trip(t.comet_color);
    lemma_hex_round_trip(t.glow_color);
    lemma_hex_round_trip(t.sun_color);
    lemma_hex_round_trip(t.cloud_lit);
    lemma_hex_round_trip(t.cloud_shadow);
    lemma_hex_round_trip(t.synthwave_grid_color);
    lemma_hex_round_trip(t.synthwave_sky_top);
    lemma_hex_round_trip(t.synthwave_sky_bottom);
    lemma_hex_round_trip(t.storm_bolt_color);
    lemma_hex_round_trip(t.storm_flash_color);
    lemma_hex_round_trip(t.rain_color);
    lemma_hex_round_trip(t.snow_color);
    lemma_hex_round_trip(t.fire_flame_color);
    lemma_hex_round_trip(t.fire_tip_color);
    lemma_hex_round_trip(t.aurora_green);
    lemma_hex_round_trip(t.aurora_magenta);
    lemma_hex_round_trip(t.plasma_tint);
    lemma_hex_round_trip(t.water_caustic_color);
    lemma_hex_round_trip(t.water_deep);
    lemma_hex_round_trip(t.water_shallow);
    lemma_hex_round_trip(t.error_color);
    lemma_hex_round_trip(t.logo_box);
}

/// Reading back a config holding both variants gives the night variant, the day
/// variant's per-variant keys over the night variant's shared keys, and the
/// written day window (each end falling back to its default when it is not a
/// valid `HH:MM`).
#[verifier::rlimit(60)]
pub proof fn lemma_written_pair_round_trips(f: ThemeFile, night: Theme, day: Theme, start: Seq<char>, end: Seq<char>)
    requires
        is_pair_config_of(f, night, day, start, end),
        !night.is_day,
    ensures
        night_of(f) == night,
        day_of(f) == (Theme { is_day: true, ..night.with_palette(day.palette()) }),
        window_of(f) == (
            match hhmm_minutes(start) { Some(m) => m, None => 420u32 },
            match hhmm_minutes(end) { Some(m) => m, None => 1140u32 },
        ),
{
    lemma_hex_round_trip(night.background);
    lemma_hex_round_trip(night.card);
    lemma_hex_round_trip(night.accent);
    lemma_hex_round_trip(night.foreground);
    lemma_hex_round_trip(night.muted);
    lemma_hex_round_trip(night.field);
    lemma_hex_round_trip(night.spinner_comet);
    lemma_hex_round_trip(night.spinner_track);
    lemma_hex_round_trip(night.comet_color);
    lemma_hex_round_trip(night.glow_color);
    lemma_hex_round_trip(night.sun_color);
    lemma_hex_round_trip(night.cloud_lit);
    lemma_hex_round_trip(night.cloud_shadow);
    lemma_hex_round_trip(night.synthwave_grid_color);
    lemma_hex_round_trip(night.synthwave_sky_top);
    lemma_hex_round_trip(night.synthwave_sky_bottom);
    lemma_hex_round_trip(night.storm_bolt_color);
    lemma_hex_round_trip(night.storm_flash_color);
    lemma_hex_round_trip(night.rain_color);
    lemma_hex_round_trip(night.snow_color);
    lemma_hex_round_trip(night.fire_flame_color);
    lemma_hex_round_trip(night.fire_tip_color);
    lemma_hex_round_trip(night.aurora_green);
    lemma_hex_round_trip(night.aurora_magenta);
    lemma_hex_round_trip(night.plasma_tint);
    lemma_hex_round_trip(night.water_caustic_color);
    lemma_hex_round_trip(night.water_deep);
    lemma_hex_round_trip(night.water_shallow);
    lemma_hex_round_trip(night.error_color);
    lemma_hex_round_trip(night.logo_box);
    lemma_hex_round_trip(day.background);
    lemma_hex_round_trip(day.card);
    lemma_hex_round_trip(day.accent);
    lemma_hex_round_trip(day.foreground);
    lemma_hex_round_trip(day.muted);
    lemma_hex_round_trip(day.field);
    lemma_hex_round_trip(day.spinner_comet);
    lemma_hex_round_trip(day.spinner_track);
    lemma_hex_round_trip(day.comet_color);
    lemma_hex_round_trip(day.glow_color);
    lemma_hex_round_trip(day.error_color);
    lemma_hex_round_trip(day.logo_box);
}

} // verus!
