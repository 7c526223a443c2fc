//! User settings: the persisted configuration and the rules that sanitise it.
//!
//! Single-precision fields (opacities, volume, glow) are held as their IEEE-754
//! bit patterns, so that the clamping rules can be stated and proved exactly.
use vstd::prelude::*;

verus! {

/// Lowest accepted work period, in seconds (five minutes).
pub const MIN_WORK_SECS: u32 = 300;
/// Highest accepted work period, in seconds (four hours).
pub const MAX_WORK_SECS: u32 = 14400;
/// Lowest accepted break, in seconds.
pub const MIN_BREAK_SECS: u32 = 10;
/// Highest accepted break, in seconds (two hours).
pub const MAX_BREAK_SECS: u32 = 7200;

/// Bit pattern of the single-precision value `0.0`.
pub const F32_ZERO_BITS: u32 = 0x0000_0000;
/// Bit pattern of the single-precision value `1.0`.
pub const F32_ONE_BITS: u32 = 0x3f80_0000;

/// Whether a single-precision bit pattern encodes a NaN.
pub open spec fn f32_bits_is_nan(bits: u32) -> bool {
    bits % 0x8000_0000 > 0x7f80_0000
}

/// Whether the single-precision value with these bits compares `< 0.0`
/// (negative, not a zero, not NaN).
pub open spec fn f32_bits_below_zero(bits: u32) -> bool {
    bits > 0x8000_0000 && !f32_bits_is_nan(bits)
}

/// Whether the single-precision value with these bits compares `> 1.0`
/// (positive, above one, infinity included, not NaN).
pub open spec fn f32_bits_above_one(bits: u32) -> bool {
    F32_ONE_BITS < bits && bits <= 0x7f80_0000
}

/// Whether the work and break periods lie in their accepted ranges.
pub open spec fn durations_in_range(work_secs: u32, break_secs: u32) -> bool {
    &&& MIN_WORK_SECS <= work_secs <= MAX_WORK_SECS
    &&& MIN_BREAK_SECS <= break_secs <= MAX_BREAK_SECS
}

/// The value `v` brought into `[lo, hi]`: raised to `lo`, else lowered to `hi`.
pub open spec fn clamp_spec(v: u32, lo: u32, hi: u32) -> u32 {
    if v < lo { lo } else if v > hi { hi } else { v }
}

/// The opacity bits after the two comparisons of the sanitising rule:
/// a value below zero becomes `0.0`, a value above one becomes `1.0`,
/// anything else (NaN included) is kept.
pub open spec fn clamp_unit_bits(bits: u32) -> u32 {
    if f32_bits_below_zero(bits) {
        F32_ZERO_BITS
    } else if f32_bits_above_one(bits) {
        F32_ONE_BITS
    } else {
        bits
    }
}

/// How a break is enforced.
#[derive(PartialEq, Eq, Structural, Clone, Copy, Debug)]
pub enum BreakMode {
    /// The break overlay can be dismissed.
    Soft,
    /// The break overlay stays up for the whole break.
    Hard,
}

/// The persisted configuration.
#[derive(Debug)]
pub struct Settings {
    pub work_duration_secs: u32,
    pub break_duration_secs: u32,
    pub mode: BreakMode,
    pub autostart: bool,
    pub overlay_animation: String,
    pub whitelist: Vec<String>,
    pub break_messages: Vec<String>,
    pub randomize_messages: bool,
    pub show_work_duration_status: bool,
    /// Bit pattern of the bubble opacity (`f32`).
    pub bubble_opacity_bits: u32,
    pub bubble_size: u32,
    pub bubble_pos_x: i32,
    pub bubble_pos_y: i32,
    pub animation_style: String,
    pub break_style: String,
    pub custom_text: String,
    /// Bit pattern of the video volume (`f32`).
    pub video_volume_bits: u32,
    pub text_animation: String,
    pub text_rotation_x: i32,
    pub text_rotation_y: i32,
    pub text_rotation_z: i32,
    pub text_color: String,
    /// Bit pattern of the text opacity (`f32`).
    pub text_opacity_bits: u32,
    /// Bit pattern of the text glow radius (`f32`).
    pub text_glow_bits: u32,
    pub text_glow_enabled: bool,
    pub text_glow_color: String,
    pub text_depth: i32,
    pub adaptive_text_color: bool,
}


/// The text of each string in a list.
pub open spec fn texts(v: Seq<String>) -> Seq<Seq<char>> {
    v.map_values(|s: String| s@)
}

/// The mathematical model of [`Settings`]: strings as character sequences.
pub struct SettingsView {
    pub work_duration_secs: u32,
    pub break_duration_secs: u32,
    pub mode: BreakMode,
    pub autostart: bool,
    pub overlay_animation: Seq<char>,
    pub whitelist: Seq<Seq<char>>,
    pub break_messages: Seq<Seq<char>>,
    pub randomize_messages: bool,
    pub show_work_duration_status: bool,
    pub bubble_opacity_bits: u32,
    pub bubble_size: u32,
    pub bubble_pos_x: i32,
    pub bubble_pos_y: i32,
    pub animation_style: Seq<char>,
    pub break_style: Seq<char>,
    pub custom_text: Seq<char>,
    pub video_volume_bits: u32,
    pub text_animation: Seq<char>,
    pub text_rotation_x: i32,
    pub text_rotation_y: i32,
    pub text_rotation_z: i32,
    pub text_color: Seq<char>,
    pub text_opacity_bits: u32,
    pub text_glow_bits: u32,
    pub text_glow_enabled: bool,
    pub text_glow_color: Seq<char>,
    pub text_depth: i32,
    pub adaptive_text_color: bool,
}

impl View for Settings {
    type V = SettingsView;

    open spec fn view(&self) -> SettingsView {
        SettingsView {
            work_duration_secs: self.work_duration_secs,
            break_duration_secs: self.break_duration_secs,
            mode: self.mode,
            autostart: self.autostart,
            overlay_animation: self.overlay_animation@,
            whitelist: texts(self.whitelist@),
            break_messages: texts(self.break_messages@),
            randomize_messages: self.randomize_messages,
            show_work_duration_status: self.show_work_duration_status,
            bubble_opacity_bits: self.bubble_opacity_bits,
            bubble_size: self.bubble_size,
            bubble_pos_x: self.bubble_pos_x,
            bubble_pos_y: self.bubble_pos_y,
            animation_style: self.animation_style@,
            break_style: self.break_style@,
            custom_text: self.custom_text@,
            video_volume_bits: self.video_volume_bits,
            text_animation: self.text_animation@,
            text_rotation_x: self.text_rotation_x,
            text_rotation_y: self.text_rotation_y,
            text_rotation_z: self.text_rotation_z,
            text_color: self.text_color@,
            text_opacity_bits: self.text_opacity_bits,
            text_glow_bits: self.text_glow_bits,
            text_glow_enabled: self.text_glow_enabled,
            text_glow_color: self.text_glow_color@,
            text_depth: self.text_depth,
            adaptive_text_color: self.adaptive_text_color,
        }
    }
}

/// A copy of a list of strings with the same texts.
fn clone_strings(v: &Vec<String>) -> (r: Vec<String>)
    ensures
        texts(r@) == texts(v@),
{
    let r = v.clone();
    assert(texts(r@) =~= texts(v@));
    r
}

impl Clone for Settings {
    /// A field-by-field copy.
    fn clone(&self) -> (r: Settings)
        ensures
            r@ == self@,
    {
        let r = Settings {
            work_duration_secs: self.work_duration_secs,
            break_duration_secs: self.break_duration_secs,
            mode: self.mode,
            autostart: self.autostart,
            overlay_animation: self.overlay_animation.clone(),
            whitelist: clone_strings(&self.whitelist),
            break_messages: clone_strings(&self.break_messages),
            randomize_messages: self.randomize_messages,
            show_work_duration_status: self.show_work_duration_status,
            bubble_opacity_bits: self.bubble_opacity_bits,
            bubble_size: self.bubble_size,
            bubble_pos_x: self.bubble_pos_x,
            bubble_pos_y: self.bubble_pos_y,
            animation_style: self.animation_style.clone(),
            break_style: self.break_style.clone(),
            custom_text: self.custom_text.clone(),
            video_volume_bits: self.video_volume_bits,
            text_animation: self.text_animation.clone(),
            text_rotation_x: self.text_rotation_x,
            text_rotation_y: self.text_rotation_y,
            text_rotation_z: self.text_rotation_z,
            text_color: self.text_color.clone(),
            text_opacity_bits: self.text_opacity_bits,
            text_glow_bits: self.text_glow_bits,
            text_glow_enabled: self.text_glow_enabled,
            text_glow_color: self.text_glow_color.clone(),
            text_depth: self.text_depth,
            adaptive_text_color: self.adaptive_text_color,
        };
        r
    }
}


/// The settings after the sanitising rule: work and break periods clamped to
/// their ranges, bubble opacity clamped to `[0.0, 1.0]`, all else unchanged.
pub open spec fn validated(v: SettingsView) -> SettingsView {
    SettingsView {
        work_duration_secs: clamp_spec(v.work_duration_secs, MIN_WORK_SECS, MAX_WORK_SECS),
        break_duration_secs: clamp_spec(v.break_duration_secs, MIN_BREAK_SECS, MAX_BREAK_SECS),
        bubble_opacity_bits: clamp_unit_bits(v.bubble_opacity_bits),
        ..v
    }
}

/// Whether settings already satisfy the sanitising rule: periods in range and
/// bubble opacity neither below zero nor above one.
pub open spec fn is_sane(v: SettingsView) -> bool {
    &&& durations_in_range(v.work_duration_secs, v.break_duration_secs)
    &&& !f32_bits_below_zero(v.bubble_opacity_bits)
    &&& !f32_bits_above_one(v.bubble_opacity_bits)
}

/// Whether the single-precision value with these bits compares `< 0.0`.
fn bits_below_zero(bits: u32) -> (r: bool)
    ensures
        r == f32_bits_below_zero(bits),
{
    bits > 0x8000_0000 && bits - 0x8000_0000 <= 0x7f80_0000
}

/// Whether the single-precision value with these bits compares `> 1.0`.
fn bits_above_one(bits: u32) -> (r: bool)
    ensures
        r == f32_bits_above_one(bits),
{
    F32_ONE_BITS < bits && bits <= 0x7f80_0000
}

impl Settings {
    /// Sanitises the settings in place: the work period is clamped to
    /// `[300, 14400]` seconds, the break to `[10, 7200]` seconds and the bubble
    /// opacity to `[0.0, 1.0]`; every other field is left as it is.
    pub fn validate(&mut self)
        ensures
            final(self)@ == validated(old(self)@),
    {
        if self.work_duration_secs < MIN_WORK_SECS {
            self.work_duration_secs = MIN_WORK_SECS;
        }
        if self.work_duration_secs > MAX_WORK_SECS {
            self.work_duration_secs = MAX_WORK_SECS;
        }
        if self.break_duration_secs < MIN_BREAK_SECS {
            self.break_duration_secs = MIN_BREAK_SECS;
        }
        if self.break_duration_secs > MAX_BREAK_SECS {
            self.break_duration_secs = MAX_BREAK_SECS;
        }
        if bits_below_zero(self.bubble_opacity_bits) {
            self.bubble_opacity_bits = F32_ZERO_BITS;
        }
        if bits_above_one(self.bubble_opacity_bits) {
            self.bubble_opacity_bits = F32_ONE_BITS;
        }
    }

    /// The copy of these settings that is written to disk: a sanitised clone,
    /// the settings themselves being left as they are.
    pub fn prepared_for_save(&self) -> (r: Settings)
        ensures
            r@ == validated(self@),
    {
        let mut r = self.clone();
        r.validate();
        r
    }

    /// The settings to run with after a load attempt: the parsed file where
    /// there was one that parsed, else the defaults.
    pub fn from_loaded(parsed: Option<Settings>) -> (r: Settings)
        ensures
            parsed matches Some(p) ==> r@ == p@,
            parsed is None ==> r@ == default_settings(),
    {
        match parsed {
            Some(p) => p,
            None => Settings::default(),
        }
    }
}

/// The break messages shipped with the defaults.
pub open spec fn default_break_messages() -> Seq<Seq<char>> {
    seq![
        "Take a deep breath"@,
        "Stretch your body"@,
        "Rest your eyes for a moment"@,
        "Time for a quick water break"@,
    ]
}

/// The default configuration.
pub open spec fn default_settings() -> SettingsView {
    SettingsView {
        work_duration_secs: 3600,
        break_duration_secs: 300,
        mode: BreakMode::Soft,
        autostart: true,
        overlay_animation: "default.webm"@,
        whitelist: Seq::empty(),
        break_messages: default_break_messages(),
        randomize_messages: true,
        show_work_duration_status: true,
        bubble_opacity_bits: 0x3dcc_cccd,
        bubble_size: 580,
        bubble_pos_x: 5,
        bubble_pos_y: 5,
        animation_style: "float"@,
        break_style: "text"@,
        custom_text: "PAUSE"@,
        video_volume_bits: 0,
        text_animation: "float"@,
        text_rotation_x: 20,
        text_rotation_y: -20i32,
        text_rotation_z: 0,
        text_color: "#ffffff"@,
        text_opacity_bits: 0x3e19_999a,
        text_glow_bits: 0x4120_0000,
        text_glow_enabled: true,
        text_glow_color: "#ffffff"@,
        text_depth: 5,
        adaptive_text_color: true,
    }
}

/// An owned copy of a string slice.
fn owned(s: &str) -> (r: String)
    ensures
        r@ == s@,
{
    s.to_owned()
}

impl Default for Settings {
    /// One hour of work, five minutes of break, soft mode, autostart on, the
    /// bundled animation, four stock break messages, and the stock look
    /// (bubble opacity 0.1, size 580, text opacity 0.15, glow 10.0, ...).
    fn default() -> (r: Settings)
        ensures
            r@ == default_settings(),
    {
        let messages: Vec<String> = vec![
            owned("Take a deep breath"),
            owned("Stretch your body"),
            owned("Rest your eyes for a moment"),
            owned("Time for a quick water break"),
        ];
        let r = Settings {
            work_duration_secs: 3600,
            break_duration_secs: 300,
            mode: BreakMode::Soft,
            autostart: true,
            overlay_animation: owned("default.webm"),
            whitelist: Vec::new(),
            break_messages: messages,
            randomize_messages: true,
            show_work_duration_status: true,
            bubble_opacity_bits: 0x3dcc_cccd,
            bubble_size: 580,
            bubble_pos_x: 5,
            bubble_pos_y: 5,
            animation_style: owned("float"),
            break_style: owned("text"),
            custom_text: owned("PAUSE"),
            video_volume_bits: 0,
            text_animation: owned("float"),
            text_rotation_x: 20,
            text_rotation_y: -20,
            text_rotation_z: 0,
            text_color: owned("#ffffff"),
            text_opacity_bits: 0x3e19_999a,
            text_glow_bits: 0x4120_0000,
            text_glow_enabled: true,
            text_glow_color: owned("#ffffff"),
            text_depth: 5,
            adaptive_text_color: true,
        };
        assert(texts(r.whitelist@) =~= Seq::<Seq<char>>::empty());
        assert(texts(r.break_messages@) =~= default_break_messages());
        r
    }
}

/// Sanitising treats each period on its own: an in-range period is kept
/// whatever the other fields hold, one below its range is raised to the lowest
/// accepted value (300 s of work, 10 s of break) and one above it lowered to
/// the highest (14400 s, 7200 s).
pub proof fn lemma_validate_periods_on_their_own(v: SettingsView)
    ensures
        300 <= v.work_duration_secs <= 14400 ==> validated(v).work_duration_secs == v.work_duration_secs,
        v.work_duration_secs < 300 ==> validated(v).work_duration_secs == 300,
        v.work_duration_secs > 14400 ==> validated(v).work_duration_secs == 14400,
        10 <= v.break_duration_secs <= 7200 ==> validated(v).break_duration_secs == v.break_duration_secs,
        v.break_duration_secs < 10 ==> validated(v).break_duration_secs == 10,
        v.break_duration_secs > 7200 ==> validated(v).break_duration_secs == 7200,
{
}

/// The sanitised value of each period depends on that period alone: two
/// settings with the same work period (or break) get the same one back.
pub proof fn lemma_validate_period_depends_on_itself(v: SettingsView, u: SettingsView)
    ensures
        v.work_duration_secs == u.work_duration_secs ==> validated(v).work_duration_secs == validated(
            u,
        ).work_duration_secs,
        v.break_duration_secs == u.break_duration_secs ==> validated(v).break_duration_secs == validated(
            u,
        ).break_duration_secs,
{
}

/// Sanitising twice is sanitising once.
pub proof fn lemma_validate_idempotent(v: SettingsView)
    ensures
        validated(validated(v)) == validated(v),
{
}

/// Sanitised settings satisfy the rule: both periods lie in their ranges and
/// the bubble opacity is not below zero nor above one.
pub proof fn lemma_validated_is_sane(v: SettingsView)
    ensures
        is_sane(validated(v)),
{
}

/// Settings that already satisfy the rule are left unchanged by it.
pub proof fn lemma_validate_keeps_sane(v: SettingsView)
    requires
        is_sane(v),
    ensures
        validated(v) == v,
{
}

/// The defaults satisfy the sanitising rule.
pub proof fn lemma_default_is_sane()
    ensures
        is_sane(default_settings()),
{
}

} // verus!
