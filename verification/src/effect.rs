//! The integer and configuration side of the cursor-effect state machine:
//! the runtime settings taken from the `cursor-effect` section, the stable
//! per-seed hash behind each particle's look, the life cycle of a scroll
//! ring once scrolling stops, the caps on the trail and on the number of
//! scroll rings, and whether any particle is alive.

use vstd::prelude::*;
use crate::config::{CursorEffect, F64Bits, F64_1, F64_1_5, default_cursor_effect_but_color};
use crate::trigger::{ClickTrigger, ClickTriggerType, trigger_of_config};

verus! {

/// Trail points kept at most (about 640 px of trail at ~2 px spacing).
pub const MAX_TRAIL: usize = 320;
/// Scroll rings alive at the same time, at most.
pub const MAX_RINGS: usize = 6;
/// Frames after the last scroll tick during which a ring keeps coasting.
pub const ROT_STOP_FRAMES: u16 = 12;
/// Frames after the last scroll tick during which a ring stays fully lit.
pub const GRACE_FRAMES: u16 = 14;
/// Frames of the fade-out window that follows.
pub const FADE_FRAME_COUNT: u16 = 52;

/// The runtime settings of the cursor effect that come from the
/// configuration (everything but the master switch, which is toggled at run
/// time).
#[derive(Debug, Clone, Copy, PartialEq)]
pub struct CursorEffectSettings {
    pub persistent_trail: bool,
    pub apply_curve_draw: bool,
    pub touch_mode: bool,
    pub middle_click_trigger: bool,
    pub hide_in_fullscreen: bool,
    pub show_on_desktop: bool,
    pub scale: F64Bits,
    pub opacity: F64Bits,
    pub max_trail: usize,
    pub trail_refresh_hz: u32,
    pub color: [u8; 3],
    pub click_trigger: ClickTrigger,
    pub trail_speed: F64Bits,
    pub click_speed: F64Bits,
}

/// The settings that a `cursor-effect` section gives: its switches and
/// colour as they are, the trail capped at `MAX_TRAIL` points, and trail and
/// click speed both `effect_speed` while speeds are linked.
pub open spec fn settings_of(cfg: CursorEffect) -> CursorEffectSettings {
    CursorEffectSettings {
        persistent_trail: cfg.enable_always_trail,
        apply_curve_draw: cfg.apply_curve_draw,
        touch_mode: cfg.touch_mode,
        middle_click_trigger: cfg.enable_middle_click_trigger,
        hide_in_fullscreen: cfg.hide_in_fullscreen,
        show_on_desktop: cfg.show_on_desktop,
        scale: cfg.scale,
        opacity: cfg.opacity,
        max_trail: MAX_TRAIL,
        trail_refresh_hz: cfg.trail_refresh_rate,
        color: cfg.color.0,
        click_trigger: trigger_of_config(cfg.click_trigger),
        trail_speed: if cfg.use_linked_animation_speed {
            cfg.effect_speed
        } else {
            cfg.trail_speed
        },
        click_speed: if cfg.use_linked_animation_speed {
            cfg.effect_speed
        } else {
            cfg.click_speed
        },
    }
}

/// The settings the cursor effect starts with, before any configuration is
/// loaded.
pub open spec fn initial_settings() -> CursorEffectSettings {
    CursorEffectSettings {
        persistent_trail: false,
        apply_curve_draw: false,
        touch_mode: false,
        middle_click_trigger: true,
        hide_in_fullscreen: true,
        show_on_desktop: true,
        scale: F64Bits(F64_1_5),
        opacity: F64Bits(F64_1),
        max_trail: MAX_TRAIL,
        trail_refresh_hz: 40,
        color: [45u8, 175u8, 255u8],
        click_trigger: ClickTrigger::Left,
        trail_speed: F64Bits(F64_1),
        click_speed: F64Bits(F64_1),
    }
}

impl Default for CursorEffectSettings {
    /// Blue (`45,175,255`) left-button bursts at scale 1.5, full opacity and
    /// unit speeds; a trail of at most `MAX_TRAIL` points sampled at 40 Hz,
    /// only while a button is held; the middle button fires bursts too;
    /// hidden in fullscreen, shown on the desktop; curve smoothing and touch
    /// mode off.
    fn default() -> (s: Self)
        ensures
            s == initial_settings(),
    {
        CursorEffectSettings {
            persistent_trail: false,
            apply_curve_draw: false,
            touch_mode: false,
            middle_click_trigger: true,
            hide_in_fullscreen: true,
            show_on_desktop: true,
            scale: F64Bits(F64_1_5),
            opacity: F64Bits(F64_1),
            max_trail: MAX_TRAIL,
            trail_refresh_hz: 40,
            color: [45, 175, 255],
            click_trigger: ClickTrigger::Left,
            trail_speed: F64Bits(F64_1),
            click_speed: F64Bits(F64_1),
        }
    }
}

/// Loading the default `cursor-effect` section gives the settings the effect
/// starts with.
pub proof fn default_config_gives_initial_settings(cfg: CursorEffect)
    requires
        default_cursor_effect_but_color(cfg),
        cfg.color.0@ == seq![45u8, 175u8, 255u8],
    ensures
        settings_of(cfg) == initial_settings(),
{
    assert(cfg.color.0@ =~= [45u8, 175u8, 255u8]@);
    assert(cfg.color.0 == [45u8, 175u8, 255u8]);
}

impl CursorEffectSettings {
    /// Loads the settings from a `cursor-effect` section (on start-up and on
    /// every configuration reload).
    pub fn apply_cursor_effect_config(&mut self, cfg: &CursorEffect)
        ensures
            *final(self) == settings_of(*cfg),
    {
        let (trail_speed, click_speed) = if cfg.use_linked_animation_speed {
            (cfg.effect_speed, cfg.effect_speed)
        } else {
            (cfg.trail_speed, cfg.click_speed)
        };
        *self = CursorEffectSettings {
            persistent_trail: cfg.enable_always_trail,
            apply_curve_draw: cfg.apply_curve_draw,
            touch_mode: cfg.touch_mode,
            middle_click_trigger: cfg.enable_middle_click_trigger,
            hide_in_fullscreen: cfg.hide_in_fullscreen,
            show_on_desktop: cfg.show_on_desktop,
            scale: cfg.scale,
            opacity: cfg.opacity,
            max_trail: MAX_TRAIL,
            trail_refresh_hz: cfg.trail_refresh_rate,
            color: cfg.color.0,
            click_trigger: ClickTrigger::from_config(cfg.click_trigger),
            trail_speed,
            click_speed,
        };
    }
}

// ───────────────────────────── per-seed hash ─────────────────────────────

/// The 64-bit mix applied to a seed: three xor-shift / multiply rounds.
pub open spec fn seed_mix(seed: u64) -> u64 {
    let h0 = vstd::wrapping::u64_specs::wrapping_mul(seed, 0x9E3779B97F4A7C15);
    let h1 = h0 ^ (h0 >> 30u64);
    let h2 = vstd::wrapping::u64_specs::wrapping_mul(h1, 0xBF58476D1CE4E5B9);
    let h3 = h2 ^ (h2 >> 27u64);
    let h4 = vstd::wrapping::u64_specs::wrapping_mul(h3, 0x94D049BB133111EB);
    h4 ^ (h4 >> 31u64)
}

/// The low 24 bits of the mixed seed; divided by 2^24 they give the stable
/// pseudo-random value in [0, 1) of that seed.
pub open spec fn seed_bits24(seed: u64) -> u64 {
    seed_mix(seed) & 0xFF_FFFF
}

/// The 24 hash bits of `seed`: the same seed always gives the same bits, and
/// they are below 2^24.
pub fn hash_bits24(seed: usize) -> (r: u32)
    ensures
        r as u64 == seed_bits24(seed as u64),
        r < 0x100_0000,
{
    let mut h = (seed as u64).wrapping_mul(0x9E3779B97F4A7C15);
    h ^= h >> 30;
    h = h.wrapping_mul(0xBF58476D1CE4E5B9);
    h ^= h >> 27;
    h = h.wrapping_mul(0x94D049BB133111EB);
    h ^= h >> 31;
    let m = h & 0xFF_FFFF;
    assert(m <= 0xFF_FFFF) by (bit_vector)
        requires
            m == h & 0xFF_FFFF,
    ;
    m as u32
}

// ───────────────────────────── scroll ring life cycle ─────────────────────────────

/// The idle counter of a scroll ring after one more frame without a scroll
/// tick (saturating).
pub open spec fn idle_after_frame(idle: u16) -> u16 {
    if idle == u16::MAX {
        u16::MAX
    } else {
        (idle + 1) as u16
    }
}

/// One frame of a scroll ring's idle clock: the new idle count, whether the
/// ring still coasts this frame, and whether it is recycled.
#[derive(Debug, Clone, Copy, PartialEq, Eq)]
pub struct IdleStep {
    pub idle: u16,
    pub coasting: bool,
    pub recycle: bool,
}

/// Advances a scroll ring's idle clock by one frame: it coasts for
/// `ROT_STOP_FRAMES` frames and is recycled once it has been idle for more
/// than `GRACE_FRAMES + FADE_FRAME_COUNT` frames.
pub fn scroll_idle_step(idle: u16) -> (s: IdleStep)
    ensures
        s.idle == idle_after_frame(idle),
        s.coasting == (s.idle <= ROT_STOP_FRAMES),
        s.recycle == (s.idle > GRACE_FRAMES + FADE_FRAME_COUNT),
{
    let n = idle.saturating_add(1);
    IdleStep { idle: n, coasting: n <= ROT_STOP_FRAMES, recycle: n > GRACE_FRAMES + FADE_FRAME_COUNT }
}

/// The idle count after `k` frames without scrolling, from `idle`.
pub open spec fn idle_after_frames(idle: u16, k: nat) -> u16
    decreases k,
{
    if k == 0 {
        idle
    } else {
        idle_after_frame(idle_after_frames(idle, (k - 1) as nat))
    }
}

/// A ring refreshed by a scroll tick (idle 0) and then left alone coasts for
/// exactly the first `ROT_STOP_FRAMES` frames, stays alive through frame
/// `GRACE_FRAMES + FADE_FRAME_COUNT`, and is recycled on the frame after.
pub proof fn scroll_ring_lifetime(k: nat)
    requires
        k <= u16::MAX,
    ensures
        idle_after_frames(0, k) == k,
        idle_after_frames(0, k) <= ROT_STOP_FRAMES <==> k <= 12,
        idle_after_frames(0, k) > GRACE_FRAMES + FADE_FRAME_COUNT <==> k >= 67,
    decreases k,
{
    if k > 0 {
        scroll_ring_lifetime((k - 1) as nat);
    }
}

// ───────────────────────────── bounded histories ─────────────────────────────

/// The newest `max` items of `s` (all of them when there are no more).
pub open spec fn newest<T>(s: Seq<T>, max: nat) -> Seq<T> {
    if s.len() > max {
        s.skip(s.len() - max)
    } else {
        s
    }
}

/// Drops the oldest trail points until at most `max` remain.
pub fn cap_trail<T>(trail: &mut std::collections::VecDeque<T>, max: usize)
    ensures
        final(trail)@ == newest(old(trail)@, max as nat),
{
    let ghost start = trail@;
    while trail.len() > max
        invariant
            newest(trail@, max as nat) == newest(start, max as nat),
        decreases trail@.len(),
    {
        let ghost before = trail@;
        trail.pop_front();
        assert(newest(trail@, max as nat) =~= newest(before, max as nat));
    }
}

/// Drops the oldest scroll rings until at most `max` remain.
pub fn cap_rings<T>(rings: &mut Vec<T>, max: usize)
    ensures
        final(rings)@ == newest(old(rings)@, max as nat),
{
    let ghost start = rings@;
    while rings.len() > max
        invariant
            newest(rings@, max as nat) == newest(start, max as nat),
        decreases rings@.len(),
    {
        let ghost before = rings@;
        rings.remove(0);
        assert(newest(rings@, max as nat) =~= newest(before, max as nat));
    }
}

/// Each switch of the loaded settings is the section's own switch, scale,
/// opacity, refresh rate and colour are the section's, the trail is capped at
/// `MAX_TRAIL` points, the trigger is the configured one, and trail and click
/// speed are `effect_speed` while speeds are linked and their own otherwise.
pub proof fn settings_follow_config(cfg: CursorEffect)
    ensures
        settings_of(cfg).persistent_trail == cfg.enable_always_trail,
        settings_of(cfg).apply_curve_draw == cfg.apply_curve_draw,
        settings_of(cfg).touch_mode == cfg.touch_mode,
        settings_of(cfg).middle_click_trigger == cfg.enable_middle_click_trigger,
        settings_of(cfg).hide_in_fullscreen == cfg.hide_in_fullscreen,
        settings_of(cfg).show_on_desktop == cfg.show_on_desktop,
        settings_of(cfg).scale == cfg.scale,
        settings_of(cfg).opacity == cfg.opacity,
        settings_of(cfg).max_trail == 320,
        settings_of(cfg).trail_refresh_hz == cfg.trail_refresh_rate,
        settings_of(cfg).color == cfg.color.0,
        cfg.click_trigger == ClickTriggerType::Left <==> settings_of(cfg).click_trigger
            == ClickTrigger::Left,
        cfg.click_trigger == ClickTriggerType::Right <==> settings_of(cfg).click_trigger
            == ClickTrigger::Right,
        cfg.click_trigger == ClickTriggerType::Both <==> settings_of(cfg).click_trigger
            == ClickTrigger::Both,
        cfg.use_linked_animation_speed ==> settings_of(cfg).trail_speed == cfg.effect_speed
            && settings_of(cfg).click_speed == cfg.effect_speed,
        !cfg.use_linked_animation_speed ==> settings_of(cfg).trail_speed == cfg.trail_speed
            && settings_of(cfg).click_speed == cfg.click_speed,
{
}

/// A capped history holds at most `max` items, and they are the latest ones
/// in their order.
pub proof fn newest_keeps_the_latest<T>(s: Seq<T>, max: nat)
    ensures
        newest(s, max).len() <= max,
        newest(s, max).len() == if s.len() > max { max } else { s.len() },
        forall|i: int|
            0 <= i < newest(s, max).len() ==> #[trigger] newest(s, max)[i] == s[s.len()
                - newest(s, max).len() + i],
{
}

// ───────────────────────────── particle collections ─────────────────────────────

/// Whether any particle is alive: a burst wave, a spark, a trail point or a
/// scroll ring.
pub fn has_work<W, S, T, R>(
    waves: &Vec<W>,
    sparks: &Vec<S>,
    trail: &std::collections::VecDeque<T>,
    scroll_rings: &Vec<R>,
) -> (b: bool)
    ensures
        b == (waves@.len() > 0 || sparks@.len() > 0 || trail@.len() > 0 || scroll_rings@.len() > 0),
{
    waves.len() > 0 || sparks.len() > 0 || trail.len() > 0 || scroll_rings.len() > 0
}

/// Removes every particle.
pub fn clear_particles<W, S, T, R>(
    waves: &mut Vec<W>,
    sparks: &mut Vec<S>,
    trail: &mut std::collections::VecDeque<T>,
    scroll_rings: &mut Vec<R>,
)
    ensures
        final(waves)@.len() == 0,
        final(sparks)@.len() == 0,
        final(trail)@.len() == 0,
        final(scroll_rings)@.len() == 0,
{
    waves.clear();
    sparks.clear();
    trail.clear();
    scroll_rings.clear();
}

} // verus!
