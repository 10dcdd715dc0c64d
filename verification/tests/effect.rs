use std::collections::VecDeque;

use niri_cursor::color::ParticleColor;
use niri_cursor::config::{CursorEffect, F64Bits};
use niri_cursor::effect::{
    cap_rings, cap_trail, clear_particles, has_work, hash_bits24, scroll_idle_step, CursorEffectSettings, IdleStep,
    MAX_TRAIL,
};
use niri_cursor::glyphs::{glyph_index, CHAR_COUNT};
use niri_cursor::trigger::{ClickTrigger, ClickTriggerType};

fn bits(v: f64) -> F64Bits {
    F64Bits(v.to_bits())
}

#[test]
fn default_config_gives_initial_settings() {
    let mut s = CursorEffectSettings::default();
    let initial = s;
    s.apply_cursor_effect_config(&CursorEffect::default());
    assert_eq!(s, initial);
    assert_eq!(s.max_trail, 320);
    assert_eq!(s.color, [45, 175, 255]);
    assert_eq!(s.click_trigger, ClickTrigger::Left);
    assert!(s.middle_click_trigger);
}

#[test]
fn linked_speeds_follow_effect_speed() {
    let mut cfg = CursorEffect::default();
    cfg.effect_speed = bits(2.0);
    cfg.trail_speed = bits(3.0);
    cfg.click_speed = bits(4.0);
    let mut s = CursorEffectSettings::default();
    s.apply_cursor_effect_config(&cfg);
    assert_eq!(s.trail_speed, bits(2.0));
    assert_eq!(s.click_speed, bits(2.0));

    cfg.use_linked_animation_speed = false;
    s.apply_cursor_effect_config(&cfg);
    assert_eq!(s.trail_speed, bits(3.0));
    assert_eq!(s.click_speed, bits(4.0));
}

#[test]
fn config_switches_and_colour_are_taken() {
    let mut cfg = CursorEffect::default();
    cfg.enable_always_trail = true;
    cfg.apply_curve_draw = true;
    cfg.touch_mode = true;
    cfg.enable_middle_click_trigger = true;
    cfg.hide_in_fullscreen = false;
    cfg.show_on_desktop = false;
    cfg.trail_refresh_rate = 90;
    cfg.color = ParticleColor([9, 8, 7]);
    cfg.click_trigger = ClickTriggerType::Right;
    cfg.scale = bits(3.0);
    cfg.opacity = bits(0.5);
    let mut s = CursorEffectSettings::default();
    s.apply_cursor_effect_config(&cfg);
    assert!(s.persistent_trail && s.apply_curve_draw && s.touch_mode && s.middle_click_trigger);
    assert!(!s.hide_in_fullscreen && !s.show_on_desktop);
    assert_eq!(s.trail_refresh_hz, 90);
    assert_eq!(s.color, [9, 8, 7]);
    assert_eq!(s.click_trigger, ClickTrigger::Right);
    assert_eq!(s.scale, bits(3.0));
    assert_eq!(s.opacity, bits(0.5));
    assert_eq!(s.max_trail, MAX_TRAIL);
}

#[test]
fn hash_bits_are_stable_and_24_bit() {
    for seed in [0usize, 1, 2, 7919, 0xDEF0, usize::MAX] {
        let h = hash_bits24(seed);
        assert!(h < 1 << 24);
        assert_eq!(h, hash_bits24(seed));
    }
    // splitmix64 finaliser of 0 is 0.
    assert_eq!(hash_bits24(0), 0);
    assert_ne!(hash_bits24(1), hash_bits24(2));
}

#[test]
fn glyph_index_is_in_atlas() {
    for bucket in [0u64, 1, 12345, u64::MAX] {
        for seed in [0usize, 5000, 70001, usize::MAX] {
            assert!(glyph_index(bucket, seed) < CHAR_COUNT);
        }
    }
    assert_eq!(glyph_index(0, 0), 0);
}

#[test]
fn scroll_ring_recycles_after_grace_and_fade() {
    let mut idle = 0u16;
    let mut frames = 0u32;
    loop {
        let step = scroll_idle_step(idle);
        frames += 1;
        idle = step.idle;
        assert_eq!(step.coasting, frames <= 12);
        if step.recycle {
            break;
        }
        assert!(frames < 400);
    }
    assert_eq!(frames, 67);
    assert_eq!(
        scroll_idle_step(u16::MAX),
        IdleStep { idle: u16::MAX, coasting: false, recycle: true }
    );
}

#[test]
fn trail_cap_keeps_newest_points() {
    let mut trail: VecDeque<u32> = (0..10).collect();
    cap_trail(&mut trail, 3);
    assert_eq!(trail, VecDeque::from(vec![7, 8, 9]));
    cap_trail(&mut trail, 5);
    assert_eq!(trail.len(), 3);

    let mut rings: Vec<u32> = (0..8).collect();
    cap_rings(&mut rings, 6);
    assert_eq!(rings, vec![2, 3, 4, 5, 6, 7]);
}

#[test]
fn has_work_until_cleared() {
    let mut waves: Vec<u8> = Vec::new();
    let mut sparks: Vec<u8> = Vec::new();
    let mut trail: VecDeque<u8> = VecDeque::new();
    let mut rings: Vec<u8> = Vec::new();
    assert!(!has_work(&waves, &sparks, &trail, &rings));
    trail.push_back(1);
    assert!(has_work(&waves, &sparks, &trail, &rings));
    waves.push(1);
    sparks.push(2);
    rings.push(3);
    clear_particles(&mut waves, &mut sparks, &mut trail, &mut rings);
    assert!(waves.is_empty() && sparks.is_empty() && trail.is_empty() && rings.is_empty());
    assert!(!has_work(&waves, &sparks, &trail, &rings));
}
