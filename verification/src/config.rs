//! Miscellaneous configuration sections: their defaults, the partial values
//! that a configuration file gives, and how a partial value is merged into a
//! full one (a field given by the part replaces the current one; a field the
//! part leaves out keeps its value).
//!
//! Floating-point settings are carried as their IEEE-754 bit patterns
//! (`F64Bits`): nothing here computes with them, merging only moves them.

use vstd::prelude::*;
use vstd::string::*;
use crate::color::ParticleColor;
use crate::trigger::ClickTriggerType;

verus! {

/// An `f64` setting, held as its IEEE-754 bit pattern (`f64::to_bits`).
#[derive(Debug, Clone, Copy, PartialEq, Eq)]
pub struct F64Bits(pub u64);

/// Bit pattern of the `f64` `5.0`.
pub const F64_5: u64 = 0x4014000000000000;
/// Bit pattern of the `f64` `2000.0`.
pub const F64_2000: u64 = 0x409f400000000000;
/// Bit pattern of the `f64` `0.01`.
pub const F64_0_01: u64 = 0x3f847ae147ae147b;
/// Bit pattern of the `f64` `1.5`.
pub const F64_1_5: u64 = 0x3ff8000000000000;
/// Bit pattern of the `f64` `1.0`.
pub const F64_1: u64 = 0x3ff0000000000000;
/// Bit pattern of the `f64` `2.0`.
pub const F64_2: u64 = 0x4000000000000000;
/// Bit pattern of the `f64` `16.0`.
pub const F64_16: u64 = 0x4030000000000000;
/// Bit pattern of the `f64` `80.0`.
pub const F64_80: u64 = 0x4054000000000000;
/// Bit pattern of the `f64` `0.08`.
pub const F64_0_08: u64 = 0x3fb47ae147ae147b;
/// Bit pattern of the `f64` `1.04`.
pub const F64_1_04: u64 = 0x3ff0a3d70a3d70a4;

/// A boolean setting written as a bare node (`true`) or with an argument.
#[derive(Debug, Clone, Copy, PartialEq, Eq)]
pub struct Flag(pub bool);

/// Merging a partial configuration value `T` into a full one.
pub trait MergeWith<T> {
    fn merge_with(&mut self, part: &T);
}

/// `part` if given, else `current`.
pub open spec fn given_or<T>(part: Option<T>, current: T) -> T {
    match part {
        Some(v) => v,
        None => current,
    }
}

/// The flag's value if given, else `current`.
pub open spec fn flag_or(part: Option<Flag>, current: bool) -> bool {
    match part {
        Some(f) => f.0,
        None => current,
    }
}

/// An `off` switch after a part with `off` / `on` children: `on` wins, then
/// `off` sets it, else it keeps its value.
pub open spec fn switch_off(current: bool, off: bool, on: bool) -> bool {
    if on {
        false
    } else {
        current || off
    }
}

fn pick<T: Copy>(part: &Option<T>, current: T) -> (r: T)
    ensures
        r == given_or(*part, current),
{
    match part {
        Some(v) => *v,
        None => current,
    }
}

fn pick_flag(part: &Option<Flag>, current: bool) -> (r: bool)
    ensures
        r == flag_or(*part, current),
{
    match part {
        Some(f) => f.0,
        None => current,
    }
}

fn merge_flag(current: &mut bool, part: &Option<Flag>)
    ensures
        *final(current) == flag_or(*part, *old(current)),
{
    if let Some(f) = part {
        *current = f.0;
    }
}

fn merge_bits(current: &mut F64Bits, part: &Option<F64Bits>)
    ensures
        *final(current) == given_or(*part, *old(current)),
{
    if let Some(v) = part {
        *current = *v;
    }
}

// ───────────────────────────── shake to enlarge ─────────────────────────────

#[derive(Debug, Clone, Copy, PartialEq, Eq)]
pub struct ShakeToEnlarge {
    pub off: bool,
    pub zoom_factor: F64Bits,
    pub hold_duration_ms: u32,
    pub threshold: F64Bits,
    pub grow: bool,
    pub grow_speed: F64Bits,
}

#[derive(Debug, Clone, Copy, PartialEq, Eq)]
pub struct ShakeToEnlargePart {
    pub off: bool,
    pub on: bool,
    pub zoom_factor: Option<F64Bits>,
    pub hold_duration_ms: Option<u32>,
    pub threshold: Option<F64Bits>,
    pub grow: Option<Flag>,
    pub grow_speed: Option<F64Bits>,
}

/// Shake-to-enlarge by default: on, zoom 5.0, held 1500 ms, threshold
/// 2000.0, not growing, grow speed 0.01.
pub open spec fn default_shake_to_enlarge() -> ShakeToEnlarge {
    ShakeToEnlarge {
        off: false,
        zoom_factor: F64Bits(F64_5),
        hold_duration_ms: 1500,
        threshold: F64Bits(F64_2000),
        grow: false,
        grow_speed: F64Bits(F64_0_01),
    }
}

impl Default for ShakeToEnlarge {
    fn default() -> (r: Self)
        ensures
            r == default_shake_to_enlarge(),
    {
        ShakeToEnlarge {
            off: false,
            zoom_factor: F64Bits(F64_5),
            hold_duration_ms: 1500,
            threshold: F64Bits(F64_2000),
            grow: false,
            grow_speed: F64Bits(F64_0_01),
        }
    }
}

impl ShakeToEnlarge {
    /// `self` with `part` merged in.
    pub open spec fn merged(self, part: ShakeToEnlargePart) -> ShakeToEnlarge {
        ShakeToEnlarge {
            off: switch_off(self.off, part.off, part.on),
            zoom_factor: given_or(part.zoom_factor, self.zoom_factor),
            hold_duration_ms: given_or(part.hold_duration_ms, self.hold_duration_ms),
            threshold: given_or(part.threshold, self.threshold),
            grow: flag_or(part.grow, self.grow),
            grow_speed: given_or(part.grow_speed, self.grow_speed),
        }
    }

    /// The defaults with `part` merged in.
    pub fn from_part(part: &ShakeToEnlargePart) -> (r: Self)
        ensures
            r == default_shake_to_enlarge().merged(*part),
    {
        let mut r = ShakeToEnlarge::default();
        r.merge_with(part);
        r
    }
}

impl MergeWith<ShakeToEnlargePart> for ShakeToEnlarge {
    fn merge_with(&mut self, part: &ShakeToEnlargePart)
        ensures
            *final(self) == old(self).merged(*part),
    {
        self.off = self.off || part.off;
        if part.on {
            self.off = false;
        }
        merge_bits(&mut self.zoom_factor, &part.zoom_factor);
        merge_bits(&mut self.threshold, &part.threshold);
        merge_bits(&mut self.grow_speed, &part.grow_speed);
        merge_flag(&mut self.grow, &part.grow);
        if let Some(x) = &part.hold_duration_ms {
            self.hold_duration_ms = *x;
        }
    }
}


// ───────────────────────────── cursor ─────────────────────────────

#[derive(Debug, PartialEq)]
pub struct Cursor {
    pub xcursor_theme: String,
    pub xcursor_size: u8,
    pub hide_when_typing: bool,
    pub hide_after_inactive_ms: Option<u32>,
    pub shake_to_enlarge: Option<ShakeToEnlarge>,
}

#[derive(Debug, PartialEq)]
pub struct CursorPart {
    pub xcursor_theme: Option<String>,
    pub xcursor_size: Option<u8>,
    pub hide_when_typing: Option<Flag>,
    pub hide_after_inactive_ms: Option<u32>,
    pub shake_to_enlarge: Option<ShakeToEnlargePart>,
}

impl Default for Cursor {
    /// Theme `default`, size 24, not hidden while typing nor after
    /// inactivity, shake-to-enlarge on with its defaults.
    fn default() -> (r: Self)
        ensures
            r.xcursor_theme@ == "default"@,
            r.xcursor_size == 24,
            !r.hide_when_typing,
            r.hide_after_inactive_ms is None,
            r.shake_to_enlarge == Some(default_shake_to_enlarge()),
    {
        Cursor {
            xcursor_theme: String::from_str("default"),
            xcursor_size: 24,
            hide_when_typing: false,
            hide_after_inactive_ms: None,
            shake_to_enlarge: Some(ShakeToEnlarge::default()),
        }
    }
}

impl Cursor {
    /// `self` with `part` merged in; a shake-to-enlarge part is merged into
    /// the current section, or into the defaults when there is none.
    pub open spec fn merged(self, part: CursorPart) -> Cursor {
        Cursor {
            xcursor_theme: given_or(part.xcursor_theme, self.xcursor_theme),
            xcursor_size: given_or(part.xcursor_size, self.xcursor_size),
            hide_when_typing: flag_or(part.hide_when_typing, self.hide_when_typing),
            hide_after_inactive_ms: if part.hide_after_inactive_ms is Some {
                part.hide_after_inactive_ms
            } else {
                self.hide_after_inactive_ms
            },
            shake_to_enlarge: match part.shake_to_enlarge {
                None => self.shake_to_enlarge,
                Some(x) => match self.shake_to_enlarge {
                    Some(s) => Some(s.merged(x)),
                    None => Some(default_shake_to_enlarge().merged(x)),
                },
            },
        }
    }
}

impl MergeWith<CursorPart> for Cursor {
    fn merge_with(&mut self, part: &CursorPart)
        ensures
            *final(self) == old(self).merged(*part),
    {
        if let Some(x) = &part.xcursor_theme {
            self.xcursor_theme = x.clone();
        }
        if let Some(x) = &part.xcursor_size {
            self.xcursor_size = *x;
        }
        merge_flag(&mut self.hide_when_typing, &part.hide_when_typing);
        if part.hide_after_inactive_ms.is_some() {
            self.hide_after_inactive_ms = part.hide_after_inactive_ms;
        }
        if let Some(x) = &part.shake_to_enlarge {
            let merged = match &self.shake_to_enlarge {
                Some(s) => {
                    let mut s = *s;
                    s.merge_with(x);
                    s
                },
                None => ShakeToEnlarge::from_part(x),
            };
            self.shake_to_enlarge = Some(merged);
        }
    }
}

// ───────────────────────────── cursor effect ─────────────────────────────

/// The `cursor-effect` section.
#[derive(Debug, Clone, Copy, PartialEq)]
pub struct CursorEffect {
    /// Master switch (default on).
    pub enabled: bool,
    /// Effect scale (default 1.5).
    pub scale: F64Bits,
    /// Overall opacity (default 1.0).
    pub opacity: F64Bits,
    /// Colour of left-button bursts (default `45,175,255`).
    pub color: ParticleColor,
    /// Whether trail and click speed both follow `effect_speed` (default on).
    pub use_linked_animation_speed: bool,
    /// Base animation speed (default 1.0).
    pub effect_speed: F64Bits,
    /// Trail speed, ignored while speeds are linked (default 1.0).
    pub trail_speed: F64Bits,
    /// Click speed, ignored while speeds are linked (default 1.0).
    pub click_speed: F64Bits,
    /// Trail sampling rate in Hz (default 40).
    pub trail_refresh_rate: u32,
    /// Trail also without a pressed button (default off).
    pub enable_always_trail: bool,
    /// Smooth the trail curve (default off).
    pub apply_curve_draw: bool,
    /// Middle button fires bursts too (default on).
    pub enable_middle_click_trigger: bool,
    /// Buttons that fire bursts (default left).
    pub click_trigger: ClickTriggerType,
    /// Hide in fullscreen (default on).
    pub hide_in_fullscreen: bool,
    /// Show over the desktop (default on).
    pub show_on_desktop: bool,
    /// Touchscreen mode (default off).
    pub touch_mode: bool,
}

#[derive(Debug, Clone, Copy, PartialEq)]
pub struct CursorEffectPart {
    pub enabled: Option<Flag>,
    pub color: Option<ParticleColor>,
    pub use_linked_animation_speed: Option<Flag>,
    pub enable_always_trail: Option<Flag>,
    pub apply_curve_draw: Option<Flag>,
    pub enable_middle_click_trigger: Option<Flag>,
    pub hide_in_fullscreen: Option<Flag>,
    pub show_on_desktop: Option<Flag>,
    pub touch_mode: Option<Flag>,
    pub scale: Option<F64Bits>,
    pub opacity: Option<F64Bits>,
    pub effect_speed: Option<F64Bits>,
    pub trail_speed: Option<F64Bits>,
    pub click_speed: Option<F64Bits>,
    pub trail_refresh_rate: Option<u32>,
    pub click_trigger: Option<ClickTriggerType>,
}

/// The default `cursor-effect` section, but for its colour.
pub open spec fn default_cursor_effect_but_color(c: CursorEffect) -> bool {
    &&& c.enabled
    &&& c.scale == F64Bits(F64_1_5)
    &&& c.opacity == F64Bits(F64_1)
    &&& c.use_linked_animation_speed
    &&& c.effect_speed == F64Bits(F64_1)
    &&& c.trail_speed == F64Bits(F64_1)
    &&& c.click_speed == F64Bits(F64_1)
    &&& c.trail_refresh_rate == 40
    &&& !c.enable_always_trail
    &&& !c.apply_curve_draw
    &&& c.enable_middle_click_trigger
    &&& c.click_trigger == ClickTriggerType::Left
    &&& c.hide_in_fullscreen
    &&& c.show_on_desktop
    &&& !c.touch_mode
}

impl Default for CursorEffect {
    fn default() -> (r: Self)
        ensures
            default_cursor_effect_but_color(r),
            r.color.0@ == seq![45u8, 175u8, 255u8],
    {
        CursorEffect {
            enabled: true,
            scale: F64Bits(F64_1_5),
            opacity: F64Bits(F64_1),
            color: ParticleColor::default(),
            use_linked_animation_speed: true,
            effect_speed: F64Bits(F64_1),
            trail_speed: F64Bits(F64_1),
            click_speed: F64Bits(F64_1),
            trail_refresh_rate: 40,
            enable_always_trail: false,
            apply_curve_draw: false,
            enable_middle_click_trigger: true,
            click_trigger: ClickTriggerType::Left,
            hide_in_fullscreen: true,
            show_on_desktop: true,
            touch_mode: false,
        }
    }
}

impl CursorEffect {
    /// `self` with `part` merged in.
    pub open spec fn merged(self, part: CursorEffectPart) -> CursorEffect {
        CursorEffect {
            enabled: flag_or(part.enabled, self.enabled),
            scale: given_or(part.scale, self.scale),
            opacity: given_or(part.opacity, self.opacity),
            color: given_or(part.color, self.color),
            use_linked_animation_speed: flag_or(
                part.use_linked_animation_speed,
                self.use_linked_animation_speed,
            ),
            effect_speed: given_or(part.effect_speed, self.effect_speed),
            trail_speed: given_or(part.trail_speed, self.trail_speed),
            click_speed: given_or(part.click_speed, self.click_speed),
            trail_refresh_rate: given_or(part.trail_refresh_rate, self.trail_refresh_rate),
            enable_always_trail: flag_or(part.enable_always_trail, self.enable_always_trail),
            apply_curve_draw: flag_or(part.apply_curve_draw, self.apply_curve_draw),
            enable_middle_click_trigger: flag_or(
                part.enable_middle_click_trigger,
                self.enable_middle_click_trigger,
            ),
            click_trigger: given_or(part.click_trigger, self.click_trigger),
            hide_in_fullscreen: flag_or(part.hide_in_fullscreen, self.hide_in_fullscreen),
            show_on_desktop: flag_or(part.show_on_desktop, self.show_on_desktop),
            touch_mode: flag_or(part.touch_mode, self.touch_mode),
        }
    }
}

impl MergeWith<CursorEffectPart> for CursorEffect {
    fn merge_with(&mut self, part: &CursorEffectPart)
        ensures
            *final(self) == old(self).merged(*part),
    {
        let cur = *self;
        *self = CursorEffect {
            enabled: pick_flag(&part.enabled, cur.enabled),
            scale: pick(&part.scale, cur.scale),
            opacity: pick(&part.opacity, cur.opacity),
            color: pick(&part.color, cur.color),
            use_linked_animation_speed: pick_flag(
                &part.use_linked_animation_speed,
                cur.use_linked_animation_speed,
            ),
            effect_speed: pick(&part.effect_speed, cur.effect_speed),
            trail_speed: pick(&part.trail_speed, cur.trail_speed),
            click_speed: pick(&part.click_speed, cur.click_speed),
            trail_refresh_rate: pick(&part.trail_refresh_rate, cur.trail_refresh_rate),
            enable_always_trail: pick_flag(&part.enable_always_trail, cur.enable_always_trail),
            apply_curve_draw: pick_flag(&part.apply_curve_draw, cur.apply_curve_draw),
            enable_middle_click_trigger: pick_flag(
                &part.enable_middle_click_trigger,
                cur.enable_middle_click_trigger,
            ),
            click_trigger: pick(&part.click_trigger, cur.click_trigger),
            hide_in_fullscreen: pick_flag(&part.hide_in_fullscreen, cur.hide_in_fullscreen),
            show_on_desktop: pick_flag(&part.show_on_desktop, cur.show_on_desktop),
            touch_mode: pick_flag(&part.touch_mode, cur.touch_mode),
        };
    }
}

// ───────────────────────────── startup commands, screenshots ─────────────────────────────

/// A command (program and arguments) run at startup.
#[derive(Debug, Clone, PartialEq, Eq)]
pub struct SpawnAtStartup {
    pub command: Vec<String>,
}

/// A shell command line run at startup.
#[derive(Debug, Clone, PartialEq, Eq)]
pub struct SpawnShAtStartup {
    pub command: String,
}

/// Where screenshots are saved (`None`: not saved to disk).
#[derive(Debug, Clone, PartialEq)]
pub struct ScreenshotPath(pub Option<String>);

impl Default for ScreenshotPath {
    fn default() -> (r: Self)
        ensures
            r.0 matches Some(p) && p@ == "~/Pictures/Screenshots/Screenshot from %Y-%m-%d %H-%M-%S.png"@,
    {
        ScreenshotPath(Some(String::from_str("~/Pictures/Screenshots/Screenshot from %Y-%m-%d %H-%M-%S.png")))
    }
}

// ───────────────────────────── hotkey overlay, notifications, clipboard ─────────────────────────────

#[derive(Debug, Clone, Copy, PartialEq, Eq)]
pub struct HotkeyOverlay {
    pub skip_at_startup: bool,
    pub hide_not_bound: bool,
}

#[derive(Debug, Clone, Copy, PartialEq, Eq)]
pub struct HotkeyOverlayPart {
    pub skip_at_startup: Option<Flag>,
    pub hide_not_bound: Option<Flag>,
}

impl Default for HotkeyOverlay {
    /// Neither skipped at startup nor hiding unbound actions.
    fn default() -> (r: Self)
        ensures
            !r.skip_at_startup && !r.hide_not_bound,
    {
        HotkeyOverlay { skip_at_startup: false, hide_not_bound: false }
    }
}

impl Default for HotkeyOverlayPart {
    /// A part that gives nothing.
    fn default() -> (r: Self)
        ensures
            r.skip_at_startup is None && r.hide_not_bound is None,
    {
        HotkeyOverlayPart { skip_at_startup: None, hide_not_bound: None }
    }
}

impl HotkeyOverlay {
    pub open spec fn merged(self, part: HotkeyOverlayPart) -> HotkeyOverlay {
        HotkeyOverlay {
            skip_at_startup: flag_or(part.skip_at_startup, self.skip_at_startup),
            hide_not_bound: flag_or(part.hide_not_bound, self.hide_not_bound),
        }
    }
}

impl MergeWith<HotkeyOverlayPart> for HotkeyOverlay {
    fn merge_with(&mut self, part: &HotkeyOverlayPart)
        ensures
            *final(self) == old(self).merged(*part),
    {
        merge_flag(&mut self.skip_at_startup, &part.skip_at_startup);
        merge_flag(&mut self.hide_not_bound, &part.hide_not_bound);
    }
}

#[derive(Debug, Clone, Copy, PartialEq, Eq)]
pub struct ConfigNotification {
    pub disable_failed: bool,
}

#[derive(Debug, Clone, Copy, PartialEq, Eq)]
pub struct ConfigNotificationPart {
    pub disable_failed: Option<Flag>,
}

impl Default for ConfigNotification {
    /// Failure notifications enabled.
    fn default() -> (r: Self)
        ensures
            !r.disable_failed,
    {
        ConfigNotification { disable_failed: false }
    }
}

impl Default for ConfigNotificationPart {
    /// A part that gives nothing.
    fn default() -> (r: Self)
        ensures
            r.disable_failed is None,
    {
        ConfigNotificationPart { disable_failed: None }
    }
}

impl ConfigNotification {
    pub open spec fn merged(self, part: ConfigNotificationPart) -> ConfigNotification {
        ConfigNotification { disable_failed: flag_or(part.disable_failed, self.disable_failed) }
    }
}

impl MergeWith<ConfigNotificationPart> for ConfigNotification {
    fn merge_with(&mut self, part: &ConfigNotificationPart)
        ensures
            *final(self) == old(self).merged(*part),
    {
        merge_flag(&mut self.disable_failed, &part.disable_failed);
    }
}

#[derive(Debug, Clone, Copy, PartialEq, Eq)]
pub struct Clipboard {
    pub disable_primary: bool,
}

#[derive(Debug, Clone, Copy, PartialEq, Eq)]
pub struct ClipboardPart {
    pub disable_primary: Option<Flag>,
}

impl Default for Clipboard {
    /// Primary selection enabled.
    fn default() -> (r: Self)
        ensures
            !r.disable_primary,
    {
        Clipboard { disable_primary: false }
    }
}

impl Default for ClipboardPart {
    /// A part that gives nothing.
    fn default() -> (r: Self)
        ensures
            r.disable_primary is None,
    {
        ClipboardPart { disable_primary: None }
    }
}

impl Clipboard {
    pub open spec fn merged(self, part: ClipboardPart) -> Clipboard {
        Clipboard { disable_primary: flag_or(part.disable_primary, self.disable_primary) }
    }
}

impl MergeWith<ClipboardPart> for Clipboard {
    fn merge_with(&mut self, part: &ClipboardPart)
        ensures
            *final(self) == old(self).merged(*part),
    {
        merge_flag(&mut self.disable_primary, &part.disable_primary);
    }
}

// ───────────────────────────── magnifier ─────────────────────────────

#[derive(Debug, Clone, Copy, PartialEq)]
pub struct Magnifier {
    pub off: bool,
    pub zoom_factor: F64Bits,
    pub track_cursor: bool,
    pub scale_cursor: bool,
}

#[derive(Debug, Clone, Copy, PartialEq)]
pub struct MagnifierPart {
    pub off: bool,
    pub on: bool,
    pub zoom_factor: Option<F64Bits>,
    pub track_cursor: Option<Flag>,
    pub scale_cursor: Option<Flag>,
}

/// The magnifier by default: on, zoom 2.0, tracking and scaling the cursor.
pub open spec fn default_magnifier() -> Magnifier {
    Magnifier { off: false, zoom_factor: F64Bits(F64_2), track_cursor: true, scale_cursor: true }
}

impl Default for Magnifier {
    fn default() -> (r: Self)
        ensures
            r == default_magnifier(),
    {
        Magnifier { off: false, zoom_factor: F64Bits(F64_2), track_cursor: true, scale_cursor: true }
    }
}

impl Magnifier {
    pub open spec fn merged(self, part: MagnifierPart) -> Magnifier {
        Magnifier {
            off: switch_off(self.off, part.off, part.on),
            zoom_factor: given_or(part.zoom_factor, self.zoom_factor),
            track_cursor: flag_or(part.track_cursor, self.track_cursor),
            scale_cursor: flag_or(part.scale_cursor, self.scale_cursor),
        }
    }
}

impl MergeWith<MagnifierPart> for Magnifier {
    fn merge_with(&mut self, part: &MagnifierPart)
        ensures
            *final(self) == old(self).merged(*part),
    {
        self.off = self.off || part.off;
        if part.on {
            self.off = false;
        }
        merge_bits(&mut self.zoom_factor, &part.zoom_factor);
        merge_flag(&mut self.track_cursor, &part.track_cursor);
        merge_flag(&mut self.scale_cursor, &part.scale_cursor);
    }
}

// ───────────────────────────── grid overview ─────────────────────────────

#[derive(Debug, Clone, Copy, PartialEq)]
pub struct GridOverview {
    pub gap: F64Bits,
    pub padding: GridOverviewPadding,
    pub min_scale: F64Bits,
    pub focused_column_scale: F64Bits,
    pub grid_all_monitors: bool,
}

#[derive(Debug, Clone, Copy, PartialEq)]
pub struct GridOverviewPadding {
    pub left: F64Bits,
    pub right: F64Bits,
    pub top: F64Bits,
    pub bottom: F64Bits,
}

/// The same padding on all four sides.
pub open spec fn uniform_padding(value: F64Bits) -> GridOverviewPadding {
    GridOverviewPadding { left: value, right: value, top: value, bottom: value }
}

impl GridOverviewPadding {
    /// `value` on all four sides.
    pub fn uniform(value: F64Bits) -> (r: Self)
        ensures
            r.left == value && r.right == value && r.top == value && r.bottom == value,
            r == uniform_padding(value),
    {
        GridOverviewPadding { left: value, right: value, top: value, bottom: value }
    }
}

impl Default for GridOverviewPadding {
    /// 80.0 on every side.
    fn default() -> (r: Self)
        ensures
            r.left == F64Bits(F64_80) && r.right == F64Bits(F64_80),
            r.top == F64Bits(F64_80) && r.bottom == F64Bits(F64_80),
            r == uniform_padding(F64Bits(F64_80)),
    {
        Self::uniform(F64Bits(F64_80))
    }
}

/// The grid overview by default: gap 16.0, padding 80.0 on every side,
/// minimum scale 0.08, focused column scale 1.04, on all monitors.
pub open spec fn default_grid_overview() -> GridOverview {
    GridOverview {
        gap: F64Bits(F64_16),
        padding: uniform_padding(F64Bits(F64_80)),
        min_scale: F64Bits(F64_0_08),
        focused_column_scale: F64Bits(F64_1_04),
        grid_all_monitors: true,
    }
}

impl Default for GridOverview {
    fn default() -> (r: Self)
        ensures
            r == default_grid_overview(),
    {
        GridOverview {
            gap: F64Bits(F64_16),
            padding: GridOverviewPadding::default(),
            min_scale: F64Bits(F64_0_08),
            focused_column_scale: F64Bits(F64_1_04),
            grid_all_monitors: true,
        }
    }
}

/// A padding given in the configuration: one value for every side, or some
/// of the four sides.
#[derive(Debug, Clone, Copy, PartialEq)]
pub enum GridOverviewPaddingPart {
    Uniform(F64Bits),
    Sides {
        left: Option<F64Bits>,
        right: Option<F64Bits>,
        top: Option<F64Bits>,
        bottom: Option<F64Bits>,
    },
}

/// `padding` with `part` merged in: a uniform part replaces all four sides,
/// a sides part replaces the sides it gives.
pub open spec fn padding_merged(padding: GridOverviewPadding, part: GridOverviewPaddingPart) -> GridOverviewPadding {
    match part {
        GridOverviewPaddingPart::Uniform(v) => uniform_padding(v),
        GridOverviewPaddingPart::Sides { left, right, top, bottom } => GridOverviewPadding {
            left: given_or(left, padding.left),
            right: given_or(right, padding.right),
            top: given_or(top, padding.top),
            bottom: given_or(bottom, padding.bottom),
        },
    }
}

/// A side of the grid overview padding.
#[derive(Debug, Clone, Copy, PartialEq, Eq)]
pub enum PaddingSide {
    Left,
    Right,
    Top,
    Bottom,
}

/// The side that a child node of `padding` names, if any.
pub open spec fn padding_side_named(name: Seq<char>) -> Option<PaddingSide> {
    if name == seq!['l', 'e', 'f', 't'] {
        Some(PaddingSide::Left)
    } else if name == seq!['r', 'i', 'g', 'h', 't'] {
        Some(PaddingSide::Right)
    } else if name == seq!['t', 'o', 'p'] {
        Some(PaddingSide::Top)
    } else if name == seq!['b', 'o', 't', 't', 'o', 'm'] {
        Some(PaddingSide::Bottom)
    } else {
        None
    }
}

/// The value of the last entry for `side` among `values`, if any.
pub open spec fn last_for_side(values: Seq<(PaddingSide, F64Bits)>, side: PaddingSide) -> Option<F64Bits>
    decreases values.len(),
{
    if values.len() == 0 {
        None
    } else if values.last().0 == side {
        Some(values.last().1)
    } else {
        last_for_side(values.drop_last(), side)
    }
}

/// The side named by a child node of `padding`: `left`, `right`, `top` or
/// `bottom`.
pub fn padding_side(name: &str) -> (r: Option<PaddingSide>)
    ensures
        r == padding_side_named(name@),
{
    let v = crate::text::chars_of(name);
    let n = v.len();
    let l: [char; 4] = ['l', 'e', 'f', 't'];
    let r: [char; 5] = ['r', 'i', 'g', 'h', 't'];
    let t: [char; 3] = ['t', 'o', 'p'];
    let b: [char; 6] = ['b', 'o', 't', 't', 'o', 'm'];
    assert(l@ =~= seq!['l', 'e', 'f', 't']);
    assert(r@ =~= seq!['r', 'i', 'g', 'h', 't']);
    assert(t@ =~= seq!['t', 'o', 'p']);
    assert(b@ =~= seq!['b', 'o', 't', 't', 'o', 'm']);
    assert(v@.subrange(0, n as int) =~= name@);
    if crate::text::range_eq(&v, 0, n, l.as_slice()) {
        Some(PaddingSide::Left)
    } else if crate::text::range_eq(&v, 0, n, r.as_slice()) {
        Some(PaddingSide::Right)
    } else if crate::text::range_eq(&v, 0, n, t.as_slice()) {
        Some(PaddingSide::Top)
    } else if crate::text::range_eq(&v, 0, n, b.as_slice()) {
        Some(PaddingSide::Bottom)
    } else {
        None
    }
}

impl GridOverviewPaddingPart {
    /// The sides part given by the child nodes of `padding`, in order: for
    /// each side, the last value given for it.
    pub fn from_sides(values: &Vec<(PaddingSide, F64Bits)>) -> (r: Self)
        ensures
            r == (GridOverviewPaddingPart::Sides {
                left: last_for_side(values@, PaddingSide::Left),
                right: last_for_side(values@, PaddingSide::Right),
                top: last_for_side(values@, PaddingSide::Top),
                bottom: last_for_side(values@, PaddingSide::Bottom),
            }),
    {
        let mut left: Option<F64Bits> = None;
        let mut right: Option<F64Bits> = None;
        let mut top: Option<F64Bits> = None;
        let mut bottom: Option<F64Bits> = None;
        let mut i: usize = 0;
        while i < values.len()
            invariant
                i <= values@.len(),
                left == last_for_side(values@.take(i as int), PaddingSide::Left),
                right == last_for_side(values@.take(i as int), PaddingSide::Right),
                top == last_for_side(values@.take(i as int), PaddingSide::Top),
                bottom == last_for_side(values@.take(i as int), PaddingSide::Bottom),
            decreases values@.len() - i,
        {
            let (side, value) = values[i];
            assert(values@.take(i + 1).drop_last() =~= values@.take(i as int));
            assert(values@.take(i + 1).last() == values@[i as int]);
            match side {
                PaddingSide::Left => left = Some(value),
                PaddingSide::Right => right = Some(value),
                PaddingSide::Top => top = Some(value),
                PaddingSide::Bottom => bottom = Some(value),
            }
            i += 1;
        }
        assert(values@.take(values@.len() as int) =~= values@);
        GridOverviewPaddingPart::Sides { left, right, top, bottom }
    }

    fn merge_into(&self, padding: &mut GridOverviewPadding)
        ensures
            *final(padding) == padding_merged(*old(padding), *self),
    {
        match *self {
            GridOverviewPaddingPart::Uniform(value) => *padding = GridOverviewPadding::uniform(value),
            GridOverviewPaddingPart::Sides { left, right, top, bottom } => {
                if let Some(left) = left {
                    padding.left = left;
                }
                if let Some(right) = right {
                    padding.right = right;
                }
                if let Some(top) = top {
                    padding.top = top;
                }
                if let Some(bottom) = bottom {
                    padding.bottom = bottom;
                }
            },
        }
    }
}

#[derive(Debug, Clone, Copy, PartialEq)]
pub struct GridOverviewPart {
    pub gap: Option<F64Bits>,
    pub padding: Option<GridOverviewPaddingPart>,
    pub min_scale: Option<F64Bits>,
    pub focused_column_scale: Option<F64Bits>,
    pub grid_all_monitors: Option<bool>,
}

impl GridOverview {
    pub open spec fn merged(self, part: GridOverviewPart) -> GridOverview {
        GridOverview {
            gap: given_or(part.gap, self.gap),
            padding: match part.padding {
                Some(p) => padding_merged(self.padding, p),
                None => self.padding,
            },
            min_scale: given_or(part.min_scale, self.min_scale),
            focused_column_scale: given_or(part.focused_column_scale, self.focused_column_scale),
            grid_all_monitors: given_or(part.grid_all_monitors, self.grid_all_monitors),
        }
    }
}

impl MergeWith<GridOverviewPart> for GridOverview {
    fn merge_with(&mut self, part: &GridOverviewPart)
        ensures
            *final(self) == old(self).merged(*part),
    {
        if let Some(gap) = &part.gap {
            self.gap = *gap;
        }
        if let Some(padding) = &part.padding {
            let mut p = self.padding;
            padding.merge_into(&mut p);
            self.padding = p;
        }
        if let Some(min_scale) = &part.min_scale {
            self.min_scale = *min_scale;
        }
        if let Some(focused_column_scale) = &part.focused_column_scale {
            self.focused_column_scale = *focused_column_scale;
        }
        if let Some(grid_all_monitors) = part.grid_all_monitors {
            self.grid_all_monitors = grid_all_monitors;
        }
    }
}

// ───────────────────────────── environment, xwayland ─────────────────────────────

/// Environment variables set for spawned processes.
#[derive(Debug, Clone, PartialEq, Eq)]
pub struct Environment(pub Vec<EnvironmentVariable>);

impl Default for Environment {
    /// No variables.
    fn default() -> (r: Self)
        ensures
            r.0@.len() == 0,
    {
        Environment(Vec::new())
    }
}

/// One environment variable; `None` unsets it.
#[derive(Debug, Clone, PartialEq, Eq)]
pub struct EnvironmentVariable {
    pub name: String,
    pub value: Option<String>,
}

#[derive(Debug, Clone, PartialEq, Eq)]
pub struct XwaylandSatellite {
    pub off: bool,
    pub path: String,
}

#[derive(Debug, Clone, PartialEq, Eq)]
pub struct XwaylandSatellitePart {
    pub off: bool,
    pub on: bool,
    pub path: Option<String>,
}

impl Default for XwaylandSatellite {
    /// On, started as `xwayland-satellite`.
    fn default() -> (r: Self)
        ensures
            !r.off,
            r.path@ == "xwayland-satellite"@,
    {
        XwaylandSatellite { off: false, path: String::from_str("xwayland-satellite") }
    }
}

impl XwaylandSatellite {
    pub open spec fn merged(self, part: XwaylandSatellitePart) -> XwaylandSatellite {
        XwaylandSatellite {
            off: switch_off(self.off, part.off, part.on),
            path: given_or(part.path, self.path),
        }
    }
}

impl MergeWith<XwaylandSatellitePart> for XwaylandSatellite {
    fn merge_with(&mut self, part: &XwaylandSatellitePart)
        ensures
            *final(self) == old(self).merged(*part),
    {
        self.off = self.off || part.off;
        if part.on {
            self.off = false;
        }
        if let Some(x) = &part.path {
            self.path = x.clone();
        }
    }
}

// ───────────────────────────── laws of merging ─────────────────────────────

impl ShakeToEnlargePart {
    /// The part gives nothing.
    pub open spec fn is_empty(self) -> bool {
        !self.off && !self.on && self.zoom_factor is None && self.hold_duration_ms is None
            && self.threshold is None && self.grow is None && self.grow_speed is None
    }
}

impl CursorPart {
    /// The part gives nothing.
    pub open spec fn is_empty(self) -> bool {
        self.xcursor_theme is None && self.xcursor_size is None && self.hide_when_typing is None
            && self.hide_after_inactive_ms is None && self.shake_to_enlarge is None
    }
}

impl CursorEffectPart {
    /// The part gives nothing.
    pub open spec fn is_empty(self) -> bool {
        &&& self.enabled is None
        &&& self.color is None
        &&& self.use_linked_animation_speed is None
        &&& self.enable_always_trail is None
        &&& self.apply_curve_draw is None
        &&& self.enable_middle_click_trigger is None
        &&& self.hide_in_fullscreen is None
        &&& self.show_on_desktop is None
        &&& self.touch_mode is None
        &&& self.scale is None
        &&& self.opacity is None
        &&& self.effect_speed is None
        &&& self.trail_speed is None
        &&& self.click_speed is None
        &&& self.trail_refresh_rate is None
        &&& self.click_trigger is None
    }
}

impl MagnifierPart {
    /// The part gives nothing.
    pub open spec fn is_empty(self) -> bool {
        !self.off && !self.on && self.zoom_factor is None && self.track_cursor is None
            && self.scale_cursor is None
    }
}

impl GridOverviewPart {
    /// The part gives nothing.
    pub open spec fn is_empty(self) -> bool {
        self.gap is None && self.padding is None && self.min_scale is None
            && self.focused_column_scale is None && self.grid_all_monitors is None
    }
}

impl XwaylandSatellitePart {
    /// The part gives nothing.
    pub open spec fn is_empty(self) -> bool {
        !self.off && !self.on && self.path is None
    }
}

/// Merging a part that gives nothing leaves every section unchanged.
pub proof fn merge_with_empty_part_changes_nothing(
    shake: ShakeToEnlarge,
    shake_part: ShakeToEnlargePart,
    cursor: Cursor,
    cursor_part: CursorPart,
    effect: CursorEffect,
    effect_part: CursorEffectPart,
    hotkey: HotkeyOverlay,
    hotkey_part: HotkeyOverlayPart,
    notification: ConfigNotification,
    notification_part: ConfigNotificationPart,
    clipboard: Clipboard,
    clipboard_part: ClipboardPart,
    magnifier: Magnifier,
    magnifier_part: MagnifierPart,
    grid: GridOverview,
    grid_part: GridOverviewPart,
    xwayland: XwaylandSatellite,
    xwayland_part: XwaylandSatellitePart,
)
    requires
        shake_part.is_empty(),
        cursor_part.is_empty(),
        effect_part.is_empty(),
        hotkey_part.skip_at_startup is None && hotkey_part.hide_not_bound is None,
        notification_part.disable_failed is None,
        clipboard_part.disable_primary is None,
        magnifier_part.is_empty(),
        grid_part.is_empty(),
        xwayland_part.is_empty(),
    ensures
        shake.merged(shake_part) == shake,
        cursor.merged(cursor_part) == cursor,
        effect.merged(effect_part) == effect,
        hotkey.merged(hotkey_part) == hotkey,
        notification.merged(notification_part) == notification,
        clipboard.merged(clipboard_part) == clipboard,
        magnifier.merged(magnifier_part) == magnifier,
        grid.merged(grid_part) == grid,
        xwayland.merged(xwayland_part) == xwayland,
{
}

/// Merging the same part twice gives what merging it once gives.
pub proof fn merge_with_is_idempotent(
    shake: ShakeToEnlarge,
    shake_part: ShakeToEnlargePart,
    cursor: Cursor,
    cursor_part: CursorPart,
    effect: CursorEffect,
    effect_part: CursorEffectPart,
    hotkey: HotkeyOverlay,
    hotkey_part: HotkeyOverlayPart,
    notification: ConfigNotification,
    notification_part: ConfigNotificationPart,
    clipboard: Clipboard,
    clipboard_part: ClipboardPart,
    magnifier: Magnifier,
    magnifier_part: MagnifierPart,
    grid: GridOverview,
    grid_part: GridOverviewPart,
    xwayland: XwaylandSatellite,
    xwayland_part: XwaylandSatellitePart,
)
    ensures
        shake.merged(shake_part).merged(shake_part) == shake.merged(shake_part),
        cursor.merged(cursor_part).merged(cursor_part) == cursor.merged(cursor_part),
        effect.merged(effect_part).merged(effect_part) == effect.merged(effect_part),
        hotkey.merged(hotkey_part).merged(hotkey_part) == hotkey.merged(hotkey_part),
        notification.merged(notification_part).merged(notification_part) == notification.merged(
            notification_part,
        ),
        clipboard.merged(clipboard_part).merged(clipboard_part) == clipboard.merged(clipboard_part),
        magnifier.merged(magnifier_part).merged(magnifier_part) == magnifier.merged(magnifier_part),
        grid.merged(grid_part).merged(grid_part) == grid.merged(grid_part),
        xwayland.merged(xwayland_part).merged(xwayland_part) == xwayland.merged(xwayland_part),
{
    match cursor_part.shake_to_enlarge {
        Some(x) => match cursor.shake_to_enlarge {
            Some(s) => {
                assert(s.merged(x).merged(x) == s.merged(x));
            },
            None => {
                assert(default_shake_to_enlarge().merged(x).merged(x) == default_shake_to_enlarge().merged(x));
            },
        },
        None => {},
    }
    match grid_part.padding {
        Some(p) => {
            assert(padding_merged(padding_merged(grid.padding, p), p) == padding_merged(grid.padding, p));
        },
        None => {},
    }
}

/// An `on` child switches the section on whatever it was; an `off` child
/// without `on` switches it off; with neither the switch keeps its state.
pub proof fn on_wins_over_off(
    shake: ShakeToEnlarge,
    shake_part: ShakeToEnlargePart,
    magnifier: Magnifier,
    magnifier_part: MagnifierPart,
    xwayland: XwaylandSatellite,
    xwayland_part: XwaylandSatellitePart,
)
    ensures
        shake_part.on ==> !shake.merged(shake_part).off,
        shake_part.off && !shake_part.on ==> shake.merged(shake_part).off,
        !shake_part.off && !shake_part.on ==> shake.merged(shake_part).off == shake.off,
        magnifier_part.on ==> !magnifier.merged(magnifier_part).off,
        magnifier_part.off && !magnifier_part.on ==> magnifier.merged(magnifier_part).off,
        !magnifier_part.off && !magnifier_part.on ==> magnifier.merged(magnifier_part).off
            == magnifier.off,
        xwayland_part.on ==> !xwayland.merged(xwayland_part).off,
        xwayland_part.off && !xwayland_part.on ==> xwayland.merged(xwayland_part).off,
        !xwayland_part.off && !xwayland_part.on ==> xwayland.merged(xwayland_part).off
            == xwayland.off,
{
}

/// A uniform padding replaces all four sides; a sides padding replaces
/// exactly the sides it gives.
pub proof fn padding_merge_replaces_given_sides(
    padding: GridOverviewPadding,
    part: GridOverviewPaddingPart,
)
    ensures
        part matches GridOverviewPaddingPart::Uniform(v) ==> {
            let m = padding_merged(padding, part);
            m.left == v && m.right == v && m.top == v && m.bottom == v
        },
        part matches GridOverviewPaddingPart::Sides { left, right, top, bottom } ==> {
            let m = padding_merged(padding, part);
            &&& (left matches Some(v) ==> m.left == v) && (left is None ==> m.left == padding.left)
            &&& (right matches Some(v) ==> m.right == v) && (right is None ==> m.right
                == padding.right)
            &&& (top matches Some(v) ==> m.top == v) && (top is None ==> m.top == padding.top)
            &&& (bottom matches Some(v) ==> m.bottom == v) && (bottom is None ==> m.bottom
                == padding.bottom)
        },
{
}

/// A shake-to-enlarge part given to a cursor section without one starts
/// from the defaults.
pub proof fn shake_part_starts_from_defaults(cursor: Cursor, part: CursorPart)
    requires
        cursor.shake_to_enlarge is None,
        part.shake_to_enlarge is Some,
    ensures
        cursor.merged(part).shake_to_enlarge == Some(
            default_shake_to_enlarge().merged(part.shake_to_enlarge->0),
        ),
{
}

/// Each field that a cursor-effect part gives replaces the section's value
/// of it, and each field the part leaves out keeps its value.
pub proof fn cursor_effect_merge_takes_given_fields(effect: CursorEffect, part: CursorEffectPart)
    ensures
        part.enabled matches Some(x) ==> effect.merged(part).enabled == x.0,
        part.enabled is None ==> effect.merged(part).enabled == effect.enabled,
        part.scale matches Some(x) ==> effect.merged(part).scale == x,
        part.scale is None ==> effect.merged(part).scale == effect.scale,
        part.opacity matches Some(x) ==> effect.merged(part).opacity == x,
        part.opacity is None ==> effect.merged(part).opacity == effect.opacity,
        part.color matches Some(x) ==> effect.merged(part).color == x,
        part.color is None ==> effect.merged(part).color == effect.color,
        part.use_linked_animation_speed matches Some(x) ==> effect.merged(part).use_linked_animation_speed == x.0,
        part.use_linked_animation_speed is None ==> effect.merged(part).use_linked_animation_speed == effect.use_linked_animation_speed,
        part.effect_speed matches Some(x) ==> effect.merged(part).effect_speed == x,
        part.effect_speed is None ==> effect.merged(part).effect_speed == effect.effect_speed,
        part.trail_speed matches Some(x) ==> effect.merged(part).trail_speed == x,
        part.trail_speed is None ==> effect.merged(part).trail_speed == effect.trail_speed,
        part.click_speed matches Some(x) ==> effect.merged(part).click_speed == x,
        part.click_speed is None ==> effect.merged(part).click_speed == effect.click_speed,
        part.trail_refresh_rate matches Some(x) ==> effect.merged(part).trail_refresh_rate == x,
        part.trail_refresh_rate is None ==> effect.merged(part).trail_refresh_rate == effect.trail_refresh_rate,
        part.enable_always_trail matches Some(x) ==> effect.merged(part).enable_always_trail == x.0,
        part.enable_always_trail is None ==> effect.merged(part).enable_always_trail == effect.enable_always_trail,
        part.apply_curve_draw matches Some(x) ==> effect.merged(part).apply_curve_draw == x.0,
        part.apply_curve_draw is None ==> effect.merged(part).apply_curve_draw == effect.apply_curve_draw,
        part.enable_middle_click_trigger matches Some(x) ==> effect.merged(part).enable_middle_click_trigger == x.0,
        part.enable_middle_click_trigger is None ==> effect.merged(part).enable_middle_click_trigger == effect.enable_middle_click_trigger,
        part.click_trigger matches Some(x) ==> effect.merged(part).click_trigger == x,
        part.click_trigger is None ==> effect.merged(part).click_trigger == effect.click_trigger,
        part.hide_in_fullscreen matches Some(x) ==> effect.merged(part).hide_in_fullscreen == x.0,
        part.hide_in_fullscreen is None ==> effect.merged(part).hide_in_fullscreen == effect.hide_in_fullscreen,
        part.show_on_desktop matches Some(x) ==> effect.merged(part).show_on_desktop == x.0,
        part.show_on_desktop is None ==> effect.merged(part).show_on_desktop == effect.show_on_desktop,
        part.touch_mode matches Some(x) ==> effect.merged(part).touch_mode == x.0,
        part.touch_mode is None ==> effect.merged(part).touch_mode == effect.touch_mode,
{
}

/// Each value that a shake-to-enlarge part gives replaces the current one,
/// each value it leaves out is kept, and `on` / `off` set the switch.
pub proof fn shake_merge_takes_given_fields(shake: ShakeToEnlarge, part: ShakeToEnlargePart)
    ensures
        part.zoom_factor matches Some(x) ==> shake.merged(part).zoom_factor == x,
        part.zoom_factor is None ==> shake.merged(part).zoom_factor == shake.zoom_factor,
        part.hold_duration_ms matches Some(x) ==> shake.merged(part).hold_duration_ms == x,
        part.hold_duration_ms is None ==> shake.merged(part).hold_duration_ms == shake.hold_duration_ms,
        part.threshold matches Some(x) ==> shake.merged(part).threshold == x,
        part.threshold is None ==> shake.merged(part).threshold == shake.threshold,
        part.grow matches Some(x) ==> shake.merged(part).grow == x.0,
        part.grow is None ==> shake.merged(part).grow == shake.grow,
        part.grow_speed matches Some(x) ==> shake.merged(part).grow_speed == x,
        part.grow_speed is None ==> shake.merged(part).grow_speed == shake.grow_speed,
        part.on ==> !shake.merged(part).off,
        part.off && !part.on ==> shake.merged(part).off,
        !part.off && !part.on ==> shake.merged(part).off == shake.off,
{
}

/// Each value that a cursor part gives replaces the current one and each
/// value it leaves out is kept; a shake-to-enlarge part is merged into the
/// current shake-to-enlarge section, or into the defaults where there is
/// none, and without one the section stays as it was.
pub proof fn cursor_merge_takes_given_fields(cursor: Cursor, part: CursorPart)
    ensures
        part.xcursor_theme matches Some(x) ==> cursor.merged(part).xcursor_theme == x,
        part.xcursor_theme is None ==> cursor.merged(part).xcursor_theme == cursor.xcursor_theme,
        part.xcursor_size matches Some(x) ==> cursor.merged(part).xcursor_size == x,
        part.xcursor_size is None ==> cursor.merged(part).xcursor_size == cursor.xcursor_size,
        part.hide_when_typing matches Some(x) ==> cursor.merged(part).hide_when_typing == x.0,
        part.hide_when_typing is None ==> cursor.merged(part).hide_when_typing == cursor.hide_when_typing,
        part.hide_after_inactive_ms matches Some(ms) ==> cursor.merged(part).hide_after_inactive_ms
            == Some(ms),
        part.hide_after_inactive_ms is None ==> cursor.merged(part).hide_after_inactive_ms
            == cursor.hide_after_inactive_ms,
        part.shake_to_enlarge is None ==> cursor.merged(part).shake_to_enlarge
            == cursor.shake_to_enlarge,
        part.shake_to_enlarge matches Some(x) ==> cursor.merged(part).shake_to_enlarge == Some(
            match cursor.shake_to_enlarge {
                Some(s) => s,
                None => default_shake_to_enlarge(),
            }.merged(x),
        ),
{
}

/// Each value that a magnifier part gives replaces the current one, each
/// value it leaves out is kept, and `on` / `off` set the switch.
pub proof fn magnifier_merge_takes_given_fields(magnifier: Magnifier, part: MagnifierPart)
    ensures
        part.zoom_factor matches Some(x) ==> magnifier.merged(part).zoom_factor == x,
        part.zoom_factor is None ==> magnifier.merged(part).zoom_factor == magnifier.zoom_factor,
        part.track_cursor matches Some(x) ==> magnifier.merged(part).track_cursor == x.0,
        part.track_cursor is None ==> magnifier.merged(part).track_cursor == magnifier.track_cursor,
        part.scale_cursor matches Some(x) ==> magnifier.merged(part).scale_cursor == x.0,
        part.scale_cursor is None ==> magnifier.merged(part).scale_cursor == magnifier.scale_cursor,
        part.on ==> !magnifier.merged(part).off,
        part.off && !part.on ==> magnifier.merged(part).off,
        !part.off && !part.on ==> magnifier.merged(part).off == magnifier.off,
{
}

/// Each value that a grid-overview part gives replaces the current one and
/// each value it leaves out is kept; a uniform padding puts its value on all
/// four sides, a sides padding replaces exactly the sides it gives.
pub proof fn grid_overview_merge_takes_given_fields(grid: GridOverview, part: GridOverviewPart)
    ensures
        part.gap matches Some(x) ==> grid.merged(part).gap == x,
        part.gap is None ==> grid.merged(part).gap == grid.gap,
        part.min_scale matches Some(x) ==> grid.merged(part).min_scale == x,
        part.min_scale is None ==> grid.merged(part).min_scale == grid.min_scale,
        part.focused_column_scale matches Some(x) ==> grid.merged(part).focused_column_scale == x,
        part.focused_column_scale is None ==> grid.merged(part).focused_column_scale == grid.focused_column_scale,
        part.grid_all_monitors matches Some(x) ==> grid.merged(part).grid_all_monitors == x,
        part.grid_all_monitors is None ==> grid.merged(part).grid_all_monitors == grid.grid_all_monitors,
        part.padding is None ==> grid.merged(part).padding == grid.padding,
        part.padding matches Some(GridOverviewPaddingPart::Uniform(v)) ==> {
            let p = grid.merged(part).padding;
            p.left == v && p.right == v && p.top == v && p.bottom == v
        },
        part.padding matches Some(GridOverviewPaddingPart::Sides { left, right, top, bottom }) ==> {
            let p = grid.merged(part).padding;
            &&& (left matches Some(v) ==> p.left == v) && (left is None ==> p.left == grid.padding.left)
            &&& (right matches Some(v) ==> p.right == v) && (right is None ==> p.right
                == grid.padding.right)
            &&& (top matches Some(v) ==> p.top == v) && (top is None ==> p.top == grid.padding.top)
            &&& (bottom matches Some(v) ==> p.bottom == v) && (bottom is None ==> p.bottom
                == grid.padding.bottom)
        },
{
}

/// Each switch that a hotkey-overlay, config-notification or clipboard part
/// gives replaces the current one; each it leaves out is kept.
pub proof fn switch_sections_merge_takes_given_fields(
    hotkey: HotkeyOverlay,
    hotkey_part: HotkeyOverlayPart,
    notification: ConfigNotification,
    notification_part: ConfigNotificationPart,
    clipboard: Clipboard,
    clipboard_part: ClipboardPart,
)
    ensures
        hotkey_part.skip_at_startup matches Some(x) ==> hotkey.merged(hotkey_part).skip_at_startup == x.0,
        hotkey_part.skip_at_startup is None ==> hotkey.merged(hotkey_part).skip_at_startup == hotkey.skip_at_startup,
        hotkey_part.hide_not_bound matches Some(x) ==> hotkey.merged(hotkey_part).hide_not_bound == x.0,
        hotkey_part.hide_not_bound is None ==> hotkey.merged(hotkey_part).hide_not_bound == hotkey.hide_not_bound,
        notification_part.disable_failed matches Some(x) ==> notification.merged(notification_part).disable_failed == x.0,
        notification_part.disable_failed is None ==> notification.merged(notification_part).disable_failed == notification.disable_failed,
        clipboard_part.disable_primary matches Some(x) ==> clipboard.merged(clipboard_part).disable_primary == x.0,
        clipboard_part.disable_primary is None ==> clipboard.merged(clipboard_part).disable_primary == clipboard.disable_primary,
{
}

/// A path that an xwayland-satellite part gives replaces the current one,
/// else the path is kept; `on` / `off` set the switch.
pub proof fn xwayland_merge_takes_given_fields(xwayland: XwaylandSatellite, part: XwaylandSatellitePart)
    ensures
        part.path matches Some(x) ==> xwayland.merged(part).path == x,
        part.path is None ==> xwayland.merged(part).path == xwayland.path,
        part.on ==> !xwayland.merged(part).off,
        part.off && !part.on ==> xwayland.merged(part).off,
        !part.off && !part.on ==> xwayland.merged(part).off == xwayland.off,
{
}

/// The uniform padding of `value` has `value` on each of its four sides.
pub proof fn uniform_padding_on_every_side(value: F64Bits)
    ensures
        uniform_padding(value).left == value,
        uniform_padding(value).right == value,
        uniform_padding(value).top == value,
        uniform_padding(value).bottom == value,
{
}

} // verus!
