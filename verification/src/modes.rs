//! The theme's enumerated settings: the sky scene, the GPU budget, the card
//! placement, the spinner and clock styles, and the text weight. Each has the
//! lowercase name the config file and the settings picker use.
use vstd::prelude::*;

verus! {

/// The sky scene the greeter renders. `Auto` keeps the day/night-by-clock behavior
/// (the default); the others force a specific animated scene regardless of time.
#[derive(Debug, Clone, Copy, PartialEq, Eq, Structural)]
pub enum SkyMode {
    /// Day or night by the local clock — the default behavior.
    Auto,
    /// Pick a scene by the calendar season; resolved by [`SkyMode::resolved`].
    Seasonal,
    Aurora,
    Storm,
    Rain,
    Snow,
    Meteor,
    Moon,
    Synthwave,
    Fog,
    Plasma,
    Fire,
    Water,
}

pub open spec fn sky_mode_name(m: SkyMode) -> Seq<char> {
    match m {
        SkyMode::Auto => "auto"@,
        SkyMode::Seasonal => "seasonal"@,
        SkyMode::Aurora => "aurora"@,
        SkyMode::Storm => "storm"@,
        SkyMode::Rain => "rain"@,
        SkyMode::Snow => "snow"@,
        SkyMode::Meteor => "meteor"@,
        SkyMode::Moon => "moon"@,
        SkyMode::Synthwave => "synthwave"@,
        SkyMode::Fog => "fog"@,
        SkyMode::Plasma => "plasma"@,
        SkyMode::Fire => "fire"@,
        SkyMode::Water => "water"@,
    }
}

/// The scene a selector stands for in calendar month `month`: `Seasonal` maps
/// spring (3–5) to rain, summer (6–8) to meteors, autumn (9–11) to fog and every
/// other month to snow; every other mode stands for itself.
pub open spec fn resolved_mode(m: SkyMode, month: u32) -> SkyMode {
    match m {
        SkyMode::Seasonal => if 3 <= month <= 5 {
            SkyMode::Rain
        } else if 6 <= month <= 8 {
            SkyMode::Meteor
        } else if 9 <= month <= 11 {
            SkyMode::Fog
        } else {
            SkyMode::Snow
        },
        other => other,
    }
}

/// The card palette a mode pins: `None` follows the clock (Auto/Seasonal), every
/// explicit scene pins the night palette.
pub open spec fn mode_prefers_day(m: SkyMode) -> Option<bool> {
    match m {
        SkyMode::Auto | SkyMode::Seasonal => None,
        _ => Some(false),
    }
}

impl SkyMode {
    /// The lowercase name used in the config and the picker.
    pub fn name(self) -> (s: &'static str)
        ensures
            s@ == sky_mode_name(self),
    {
        match self {
            SkyMode::Auto => "auto",
            SkyMode::Seasonal => "seasonal",
            SkyMode::Aurora => "aurora",
            SkyMode::Storm => "storm",
            SkyMode::Rain => "rain",
            SkyMode::Snow => "snow",
            SkyMode::Meteor => "meteor",
            SkyMode::Moon => "moon",
            SkyMode::Synthwave => "synthwave",
            SkyMode::Fog => "fog",
            SkyMode::Plasma => "plasma",
            SkyMode::Fire => "fire",
            SkyMode::Water => "water",
        }
    }

    /// Resolve a selector mode to a concrete scene. Only `Seasonal` changes — mapped
    /// to a scene by calendar month (1–12); every other mode passes through unchanged.
    pub fn resolved(self, month: u32) -> (m: SkyMode)
        ensures
            m == resolved_mode(self, month),
    {
        match self {
            SkyMode::Seasonal => {
                if 3 <= month && month <= 5 {
                    SkyMode::Rain
                } else if 6 <= month && month <= 8 {
                    SkyMode::Meteor
                } else if 9 <= month && month <= 11 {
                    SkyMode::Fog
                } else {
                    SkyMode::Snow
                }
            },
            other => other,
        }
    }

    /// Which card palette a mode pins, if any. `None` = follow the day/night clock
    /// (Auto/Seasonal); every explicit scene pins night (`Some(false)`).
    pub fn prefers_day(self) -> (p: Option<bool>)
        ensures
            p == mode_prefers_day(self),
    {
        match self {
            SkyMode::Auto | SkyMode::Seasonal => None,
            _ => Some(false),
        }
    }
}

/// A resolved mode is never `Seasonal`, and resolving twice changes nothing.
pub proof fn lemma_resolved_is_concrete(m: SkyMode, month: u32, later: u32)
    ensures
        resolved_mode(m, month) != SkyMode::Seasonal,
        resolved_mode(resolved_mode(m, month), later) == resolved_mode(m, month),
{
}

/// The seasonal scene follows the calendar: March to May rain, June to August
/// meteors, September to November fog, and every other month snow; any other
/// selector, `Auto` included, stands for itself whatever the month.
pub proof fn lemma_seasonal_scenes(m: SkyMode, month: u32)
    ensures
        m != SkyMode::Seasonal ==> resolved_mode(m, month) == m,
        (m == SkyMode::Seasonal && 3 <= month <= 5) ==> resolved_mode(m, month) == SkyMode::Rain,
        (m == SkyMode::Seasonal && 6 <= month <= 8) ==> resolved_mode(m, month) == SkyMode::Meteor,
        (m == SkyMode::Seasonal && 9 <= month <= 11) ==> resolved_mode(m, month) == SkyMode::Fog,
        (m == SkyMode::Seasonal && (month <= 2 || month >= 12)) ==> resolved_mode(m, month)
            == SkyMode::Snow,
{
}

/// A single global GPU-budget level bundling the render-cost levers: shader
/// detail, frame-rate cap and whether the card blur pass is allowed.
#[derive(Debug, Clone, Copy, PartialEq, Eq, Structural)]
pub enum GpuLevel {
    /// Bare minimum — half the shader detail, 30 fps, no blur.
    Lite,
    /// Trimmed detail, 60 fps, no blur.
    Moderate,
    /// Full detail, 60 fps, blur on. The default.
    High,
    /// Everything uncapped (full detail, no fps cap, blur on).
    Bonkers,
}

pub open spec fn gpu_level_name(g: GpuLevel) -> Seq<char> {
    match g {
        GpuLevel::Lite => "lite"@,
        GpuLevel::Moderate => "moderate"@,
        GpuLevel::High => "high"@,
        GpuLevel::Bonkers => "bonkers"@,
    }
}

impl GpuLevel {
    /// The lowercase name used in the config and the picker.
    pub fn name(self) -> (s: &'static str)
        ensures
            s@ == gpu_level_name(self),
    {
        match self {
            GpuLevel::Lite => "lite",
            GpuLevel::Moderate => "moderate",
            GpuLevel::High => "high",
            GpuLevel::Bonkers => "bonkers",
        }
    }

    /// Target frame-rate cap (the redraw loop honors it). `None` = uncapped (vsync).
    pub fn fps_cap(self) -> (cap: Option<u32>)
        ensures
            cap == (match self {
                GpuLevel::Lite => Some(30u32),
                GpuLevel::Moderate | GpuLevel::High => Some(60u32),
                GpuLevel::Bonkers => None,
            }),
    {
        match self {
            GpuLevel::Lite => Some(30),
            GpuLevel::Moderate | GpuLevel::High => Some(60),
            GpuLevel::Bonkers => None,
        }
    }

    /// Whether the second full-screen frosted-card blur pass is allowed at this tier.
    pub fn allows_blur(self) -> (b: bool)
        ensures
            b == (self == GpuLevel::High || self == GpuLevel::Bonkers),
    {
        match self {
            GpuLevel::High | GpuLevel::Bonkers => true,
            _ => false,
        }
    }
}

/// Where the login card sits on screen.
#[derive(Debug, Clone, Copy, PartialEq, Eq, Structural)]
pub enum CardPos {
    Center,
    Left,
    Right,
    Top,
    Bottom,
}

pub open spec fn card_pos_name(p: CardPos) -> Seq<char> {
    match p {
        CardPos::Center => "center"@,
        CardPos::Left => "left"@,
        CardPos::Right => "right"@,
        CardPos::Top => "top"@,
        CardPos::Bottom => "bottom"@,
    }
}

impl CardPos {
    /// The lowercase name used in the config and the picker.
    pub fn name(self) -> (s: &'static str)
        ensures
            s@ == card_pos_name(self),
    {
        match self {
            CardPos::Center => "center",
            CardPos::Left => "left",
            CardPos::Right => "right",
            CardPos::Top => "top",
            CardPos::Bottom => "bottom",
        }
    }
}

/// The card's loading-emblem style (when no logo image is set).
#[derive(Debug, Clone, Copy, PartialEq, Eq, Structural)]
pub enum SpinnerStyle {
    Comet,
    Ring,
    Dots,
    Pulse,
    /// No emblem at all — a clean card with no spinner.
    Hidden,
}

pub open spec fn spinner_style_name(s: SpinnerStyle) -> Seq<char> {
    match s {
        SpinnerStyle::Comet => "comet"@,
        SpinnerStyle::Ring => "ring"@,
        SpinnerStyle::Dots => "dots"@,
        SpinnerStyle::Pulse => "pulse"@,
        SpinnerStyle::Hidden => "none"@,
    }
}

impl SpinnerStyle {
    /// Whether this style draws no emblem (so the card shows none).
    pub fn is_hidden(self) -> (b: bool)
        ensures
            b == (self == SpinnerStyle::Hidden),
    {
        match self {
            SpinnerStyle::Hidden => true,
            _ => false,
        }
    }

    /// The lowercase name used in the config and the picker.
    pub fn name(self) -> (s: &'static str)
        ensures
            s@ == spinner_style_name(self),
    {
        match self {
            SpinnerStyle::Comet => "comet",
            SpinnerStyle::Ring => "ring",
            SpinnerStyle::Dots => "dots",
            SpinnerStyle::Pulse => "pulse",
            SpinnerStyle::Hidden => "none",
        }
    }
}

/// How the card renders the time: a digital readout or an analog face.
#[derive(Debug, Clone, Copy, PartialEq, Eq, Structural)]
pub enum ClockStyle {
    Digital,
    Analog,
}

pub open spec fn clock_style_name(s: ClockStyle) -> Seq<char> {
    match s {
        ClockStyle::Digital => "digital"@,
        ClockStyle::Analog => "analog"@,
    }
}

impl ClockStyle {
    /// The lowercase name used in the config and the picker.
    pub fn name(self) -> (s: &'static str)
        ensures
            s@ == clock_style_name(self),
    {
        match self {
            ClockStyle::Digital => "digital",
            ClockStyle::Analog => "analog",
        }
    }
}

/// The card text weight.
#[derive(Debug, Clone, Copy, PartialEq, Eq, Structural)]
pub enum FontWeight {
    Light,
    Regular,
    Medium,
    Semibold,
    Bold,
}

pub open spec fn font_weight_name(w: FontWeight) -> Seq<char> {
    match w {
        FontWeight::Light => "light"@,
        FontWeight::Regular => "regular"@,
        FontWeight::Medium => "medium"@,
        FontWeight::Semibold => "semibold"@,
        FontWeight::Bold => "bold"@,
    }
}

impl FontWeight {
    /// The lowercase name used in the config and the picker.
    pub fn name(self) -> (s: &'static str)
        ensures
            s@ == font_weight_name(self),
    {
        match self {
            FontWeight::Light => "light",
            FontWeight::Regular => "regular",
            FontWeight::Medium => "medium",
            FontWeight::Semibold => "semibold",
            FontWeight::Bold => "bold",
        }
    }
}

impl SkyMode {
    /// Every scene, in the order the settings picker lists them.
    pub fn all() -> (v: Vec<SkyMode>)
        ensures
            v@ == seq![SkyMode::Auto, SkyMode::Seasonal, SkyMode::Aurora, SkyMode::Storm, SkyMode::Rain, SkyMode::Snow, SkyMode::Meteor, SkyMode::Moon, SkyMode::Synthwave, SkyMode::Fog, SkyMode::Plasma, SkyMode::Fire, SkyMode::Water],
    {
        vec![SkyMode::Auto, SkyMode::Seasonal, SkyMode::Aurora, SkyMode::Storm, SkyMode::Rain, SkyMode::Snow, SkyMode::Meteor, SkyMode::Moon, SkyMode::Synthwave, SkyMode::Fog, SkyMode::Plasma, SkyMode::Fire, SkyMode::Water]
    }
}

impl Default for SkyMode {
    /// `Auto`.
    fn default() -> (m: SkyMode)
        ensures
            m == SkyMode::Auto,
    {
        SkyMode::Auto
    }
}

impl GpuLevel {
    /// Every GPU level, in the order the settings picker lists them.
    pub fn all() -> (v: Vec<GpuLevel>)
        ensures
            v@ == seq![GpuLevel::Lite, GpuLevel::Moderate, GpuLevel::High, GpuLevel::Bonkers],
    {
        vec![GpuLevel::Lite, GpuLevel::Moderate, GpuLevel::High, GpuLevel::Bonkers]
    }
}

impl Default for GpuLevel {
    /// `High`.
    fn default() -> (m: GpuLevel)
        ensures
            m == GpuLevel::High,
    {
        GpuLevel::High
    }
}

impl CardPos {
    /// Every card position, in the order the settings picker lists them.
    pub fn all() -> (v: Vec<CardPos>)
        ensures
            v@ == seq![CardPos::Center, CardPos::Left, CardPos::Right, CardPos::Top, CardPos::Bottom],
    {
        vec![CardPos::Center, CardPos::Left, CardPos::Right, CardPos::Top, CardPos::Bottom]
    }
}

impl Default for CardPos {
    /// `Center`.
    fn default() -> (m: CardPos)
        ensures
            m == CardPos::Center,
    {
        CardPos::Center
    }
}

impl SpinnerStyle {
    /// Every spinner style, in the order the settings picker lists them.
    pub fn all() -> (v: Vec<SpinnerStyle>)
        ensures
            v@ == seq![SpinnerStyle::Comet, SpinnerStyle::Ring, SpinnerStyle::Dots, SpinnerStyle::Pulse, SpinnerStyle::Hidden],
    {
        vec![SpinnerStyle::Comet, SpinnerStyle::Ring, SpinnerStyle::Dots, SpinnerStyle::Pulse, SpinnerStyle::Hidden]
    }
}

impl Default for SpinnerStyle {
    /// `Comet`.
    fn default() -> (m: SpinnerStyle)
        ensures
            m == SpinnerStyle::Comet,
    {
        SpinnerStyle::Comet
    }
}

impl ClockStyle {
    /// Every clock style, in the order the settings picker lists them.
    pub fn all() -> (v: Vec<ClockStyle>)
        ensures
            v@ == seq![ClockStyle::Digital, ClockStyle::Analog],
    {
        vec![ClockStyle::Digital, ClockStyle::Analog]
    }
}

impl Default for ClockStyle {
    /// `Digital`.
    fn default() -> (m: ClockStyle)
        ensures
            m == ClockStyle::Digital,
    {
        ClockStyle::Digital
    }
}

impl FontWeight {
    /// Every text weight, in the order the settings picker lists them.
    pub fn all() -> (v: Vec<FontWeight>)
        ensures
            v@ == seq![FontWeight::Light, FontWeight::Regular, FontWeight::Medium, FontWeight::Semibold, FontWeight::Bold],
    {
        vec![FontWeight::Light, FontWeight::Regular, FontWeight::Medium, FontWeight::Semibold, FontWeight::Bold]
    }
}

impl Default for FontWeight {
    /// `Regular`.
    fn default() -> (m: FontWeight)
        ensures
            m == FontWeight::Regular,
    {
        FontWeight::Regular
    }
}

/// Each setting has its own name: two values of one of these enums with the same
/// lowercase name are the same value, so a name the config holds picks one value.
pub proof fn lemma_names_are_distinct(
    m1: SkyMode,
    m2: SkyMode,
    g1: GpuLevel,
    g2: GpuLevel,
    p1: CardPos,
    p2: CardPos,
    s1: SpinnerStyle,
    s2: SpinnerStyle,
    c1: ClockStyle,
    c2: ClockStyle,
    w1: FontWeight,
    w2: FontWeight,
)
    ensures
        sky_mode_name(m1) == sky_mode_name(m2) ==> m1 == m2,
        gpu_level_name(g1) == gpu_level_name(g2) ==> g1 == g2,
        card_pos_name(p1) == card_pos_name(p2) ==> p1 == p2,
        spinner_style_name(s1) == spinner_style_name(s2) ==> s1 == s2,
        clock_style_name(c1) == clock_style_name(c2) ==> c1 == c2,
        font_weight_name(w1) == font_weight_name(w2) ==> w1 == w2,
{
    reveal_strlit("analog");
    reveal_strlit("aurora");
    reveal_strlit("auto");
    reveal_strlit("bold");
    reveal_strlit("bonkers");
    reveal_strlit("bottom");
    reveal_strlit("center");
    reveal_strlit("comet");
    reveal_strlit("digital");
    reveal_strlit("dots");
    reveal_strlit("fire");
    reveal_strlit("fog");
    reveal_strlit("high");
    reveal_strlit("left");
    reveal_strlit("light");
    reveal_strlit("lite");
    reveal_strlit("medium");
    reveal_strlit("meteor");
    reveal_strlit("moderate");
    reveal_strlit("moon");
    reveal_strlit("none");
    reveal_strlit("plasma");
    reveal_strlit("pulse");
    reveal_strlit("rain");
    reveal_strlit("regular");
    reveal_strlit("right");
    reveal_strlit("ring");
    reveal_strlit("seasonal");
    reveal_strlit("semibold");
    reveal_strlit("snow");
    reveal_strlit("storm");
    reveal_strlit("synthwave");
    reveal_strlit("top");
    reveal_strlit("water");
    let (a, b) = (sky_mode_name(m1), sky_mode_name(m2));
    if a == b {
        assert(a.len() == b.len() && a[0] == b[0] && a[1] == b[1] && a.last() == b.last());
    }
    let (a, b) = (gpu_level_name(g1), gpu_level_name(g2));
    if a == b {
        assert(a.len() == b.len() && a[0] == b[0] && a.last() == b.last());
    }
    let (a, b) = (card_pos_name(p1), card_pos_name(p2));
    if a == b {
        assert(a.len() == b.len() && a[0] == b[0]);
    }
    let (a, b) = (spinner_style_name(s1), spinner_style_name(s2));
    if a == b {
        assert(a.len() == b.len() && a[0] == b[0]);
    }
    let (a, b) = (clock_style_name(c1), clock_style_name(c2));
    if a == b {
        assert(a.len() == b.len() && a[0] == b[0]);
    }
    let (a, b) = (font_weight_name(w1), font_weight_name(w2));
    if a == b {
        assert(a.len() == b.len() && a[0] == b[0] && a.last() == b.last());
    }
}

} // verus!
