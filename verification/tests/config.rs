use niri_cursor::color::ParticleColor;
use niri_cursor::config::{
    Clipboard, ClipboardPart, ConfigNotification, ConfigNotificationPart, Cursor, CursorEffect,
    CursorEffectPart, Environment, F64Bits, Flag, GridOverview, GridOverviewPadding,
    GridOverviewPaddingPart, GridOverviewPart, HotkeyOverlay, HotkeyOverlayPart, Magnifier,
    MagnifierPart, MergeWith, PaddingSide, ScreenshotPath, ShakeToEnlarge, ShakeToEnlargePart,
    CursorPart, XwaylandSatellite, XwaylandSatellitePart, padding_side,
};
use niri_cursor::trigger::ClickTriggerType;

fn bits(v: f64) -> F64Bits {
    F64Bits(v.to_bits())
}

fn empty_shake_part() -> ShakeToEnlargePart {
    ShakeToEnlargePart {
        off: false,
        on: false,
        zoom_factor: None,
        hold_duration_ms: None,
        threshold: None,
        grow: None,
        grow_speed: None,
    }
}

fn empty_effect_part() -> CursorEffectPart {
    CursorEffectPart {
        enabled: None,
        color: None,
        use_linked_animation_speed: None,
        enable_always_trail: None,
        apply_curve_draw: None,
        enable_middle_click_trigger: None,
        hide_in_fullscreen: None,
        show_on_desktop: None,
        touch_mode: None,
        scale: None,
        opacity: None,
        effect_speed: None,
        trail_speed: None,
        click_speed: None,
        trail_refresh_rate: None,
        click_trigger: None,
    }
}

#[test]
fn defaults_match_documented_values() {
    let s = ShakeToEnlarge::default();
    assert!(!s.off);
    assert_eq!(s.zoom_factor, bits(5.0));
    assert_eq!(s.hold_duration_ms, 1500);
    assert_eq!(s.threshold, bits(2000.0));
    assert!(!s.grow);
    assert_eq!(s.grow_speed, bits(0.01));

    let c = Cursor::default();
    assert_eq!(c.xcursor_theme, "default");
    assert_eq!(c.xcursor_size, 24);
    assert!(!c.hide_when_typing);
    assert_eq!(c.hide_after_inactive_ms, None);
    assert_eq!(c.shake_to_enlarge, Some(ShakeToEnlarge::default()));

    let e = CursorEffect::default();
    assert!(e.enabled);
    assert_eq!(e.scale, bits(1.5));
    assert_eq!(e.opacity, bits(1.0));
    assert_eq!(e.color, ParticleColor([45, 175, 255]));
    assert!(e.use_linked_animation_speed);
    assert_eq!(e.effect_speed, bits(1.0));
    assert_eq!(e.trail_speed, bits(1.0));
    assert_eq!(e.click_speed, bits(1.0));
    assert_eq!(e.trail_refresh_rate, 40);
    assert!(!e.enable_always_trail);
    assert!(!e.apply_curve_draw);
    assert!(e.enable_middle_click_trigger);
    assert_eq!(e.click_trigger, ClickTriggerType::Left);
    assert!(e.hide_in_fullscreen);
    assert!(e.show_on_desktop);
    assert!(!e.touch_mode);

    let m = Magnifier::default();
    assert!(!m.off && m.track_cursor && m.scale_cursor);
    assert_eq!(m.zoom_factor, bits(2.0));

    let g = GridOverview::default();
    assert_eq!(g.gap, bits(16.0));
    assert_eq!(g.padding, GridOverviewPadding::uniform(bits(80.0)));
    assert_eq!(g.min_scale, bits(0.08));
    assert_eq!(g.focused_column_scale, bits(1.04));
    assert!(g.grid_all_monitors);

    let x = XwaylandSatellite::default();
    assert!(!x.off);
    assert_eq!(x.path, "xwayland-satellite");

    assert_eq!(
        ScreenshotPath::default(),
        ScreenshotPath(Some(String::from(
            "~/Pictures/Screenshots/Screenshot from %Y-%m-%d %H-%M-%S.png"
        )))
    );
    assert_eq!(HotkeyOverlay::default(), HotkeyOverlay { skip_at_startup: false, hide_not_bound: false });
    assert_eq!(ConfigNotification::default(), ConfigNotification { disable_failed: false });
    assert_eq!(Clipboard::default(), Clipboard { disable_primary: false });
    assert!(Environment::default().0.is_empty());
}

#[test]
fn shake_merge_replaces_given_fields_and_on_wins() {
    let mut s = ShakeToEnlarge::default();
    let mut part = empty_shake_part();
    part.off = true;
    part.zoom_factor = Some(bits(3.0));
    part.grow = Some(Flag(true));
    s.merge_with(&part);
    assert!(s.off);
    assert_eq!(s.zoom_factor, bits(3.0));
    assert!(s.grow);
    assert_eq!(s.hold_duration_ms, 1500);
    assert_eq!(s.threshold, bits(2000.0));

    let mut on = empty_shake_part();
    on.on = true;
    on.off = true;
    on.hold_duration_ms = Some(10);
    s.merge_with(&on);
    assert!(!s.off);
    assert_eq!(s.hold_duration_ms, 10);

    let before = s;
    s.merge_with(&empty_shake_part());
    assert_eq!(s, before);
}

#[test]
fn cursor_merge_creates_shake_section_from_defaults() {
    let mut c = Cursor::default();
    c.shake_to_enlarge = None;
    let mut shake = empty_shake_part();
    shake.threshold = Some(bits(10.0));
    let part = CursorPart {
        xcursor_theme: Some(String::from("Adwaita")),
        xcursor_size: Some(32),
        hide_when_typing: Some(Flag(true)),
        hide_after_inactive_ms: Some(500),
        shake_to_enlarge: Some(shake),
    };
    c.merge_with(&part);
    assert_eq!(c.xcursor_theme, "Adwaita");
    assert_eq!(c.xcursor_size, 32);
    assert!(c.hide_when_typing);
    assert_eq!(c.hide_after_inactive_ms, Some(500));
    let mut expected = ShakeToEnlarge::default();
    expected.threshold = bits(10.0);
    assert_eq!(c.shake_to_enlarge, Some(expected));
    assert_eq!(ShakeToEnlarge::from_part(&shake), expected);

    // Merging again into the existing section changes nothing more.
    c.merge_with(&part);
    assert_eq!(c.shake_to_enlarge, Some(expected));
    assert_eq!(c.hide_after_inactive_ms, Some(500));
}

#[test]
fn cursor_effect_merge_replaces_given_fields() {
    let mut e = CursorEffect::default();
    let mut part = empty_effect_part();
    part.enabled = Some(Flag(false));
    part.color = Some(ParticleColor([1, 2, 3]));
    part.use_linked_animation_speed = Some(Flag(false));
    part.trail_speed = Some(bits(2.5));
    part.trail_refresh_rate = Some(60);
    part.click_trigger = Some(ClickTriggerType::Both);
    part.touch_mode = Some(Flag(true));
    e.merge_with(&part);
    assert!(!e.enabled);
    assert_eq!(e.color, ParticleColor([1, 2, 3]));
    assert!(!e.use_linked_animation_speed);
    assert_eq!(e.trail_speed, bits(2.5));
    assert_eq!(e.click_speed, bits(1.0));
    assert_eq!(e.trail_refresh_rate, 60);
    assert_eq!(e.click_trigger, ClickTriggerType::Both);
    assert!(e.touch_mode);
    assert!(e.hide_in_fullscreen);

    let before = e;
    e.merge_with(&empty_effect_part());
    assert_eq!(e, before);
}

#[test]
fn small_sections_merge_flags() {
    let mut h = HotkeyOverlay::default();
    h.merge_with(&HotkeyOverlayPart { skip_at_startup: Some(Flag(true)), hide_not_bound: None });
    assert_eq!(h, HotkeyOverlay { skip_at_startup: true, hide_not_bound: false });
    h.merge_with(&HotkeyOverlayPart::default());
    assert_eq!(h, HotkeyOverlay { skip_at_startup: true, hide_not_bound: false });

    let mut n = ConfigNotification::default();
    n.merge_with(&ConfigNotificationPart { disable_failed: Some(Flag(true)) });
    assert!(n.disable_failed);
    n.merge_with(&ConfigNotificationPart::default());
    assert!(n.disable_failed);

    let mut c = Clipboard::default();
    c.merge_with(&ClipboardPart { disable_primary: Some(Flag(true)) });
    assert!(c.disable_primary);
    c.merge_with(&ClipboardPart { disable_primary: Some(Flag(false)) });
    assert!(!c.disable_primary);
}

#[test]
fn magnifier_and_xwayland_on_off() {
    let mut m = Magnifier::default();
    m.merge_with(&MagnifierPart {
        off: true,
        on: false,
        zoom_factor: Some(bits(4.0)),
        track_cursor: Some(Flag(false)),
        scale_cursor: None,
    });
    assert!(m.off);
    assert_eq!(m.zoom_factor, bits(4.0));
    assert!(!m.track_cursor);
    assert!(m.scale_cursor);
    m.merge_with(&MagnifierPart { off: false, on: true, zoom_factor: None, track_cursor: None, scale_cursor: None });
    assert!(!m.off);

    let mut x = XwaylandSatellite::default();
    x.merge_with(&XwaylandSatellitePart { off: true, on: false, path: Some(String::from("/usr/bin/xs")) });
    assert!(x.off);
    assert_eq!(x.path, "/usr/bin/xs");
    x.merge_with(&XwaylandSatellitePart { off: true, on: true, path: None });
    assert!(!x.off);
    assert_eq!(x.path, "/usr/bin/xs");
}

#[test]
fn grid_overview_padding_merges() {
    let mut g = GridOverview::default();
    g.merge_with(&GridOverviewPart {
        gap: Some(bits(8.0)),
        padding: Some(GridOverviewPaddingPart::Sides {
            left: Some(bits(1.0)),
            right: None,
            top: Some(bits(2.0)),
            bottom: None,
        }),
        min_scale: None,
        focused_column_scale: Some(bits(1.5)),
        grid_all_monitors: Some(false),
    });
    assert_eq!(g.gap, bits(8.0));
    assert_eq!(
        g.padding,
        GridOverviewPadding { left: bits(1.0), right: bits(80.0), top: bits(2.0), bottom: bits(80.0) }
    );
    assert_eq!(g.min_scale, bits(0.08));
    assert_eq!(g.focused_column_scale, bits(1.5));
    assert!(!g.grid_all_monitors);

    g.merge_with(&GridOverviewPart {
        gap: None,
        padding: Some(GridOverviewPaddingPart::Uniform(bits(5.0))),
        min_scale: None,
        focused_column_scale: None,
        grid_all_monitors: None,
    });
    assert_eq!(g.padding, GridOverviewPadding::uniform(bits(5.0)));
}

#[test]
fn padding_sides_from_child_nodes() {
    assert_eq!(padding_side("left"), Some(PaddingSide::Left));
    assert_eq!(padding_side("right"), Some(PaddingSide::Right));
    assert_eq!(padding_side("top"), Some(PaddingSide::Top));
    assert_eq!(padding_side("bottom"), Some(PaddingSide::Bottom));
    assert_eq!(padding_side("Left"), None);
    assert_eq!(padding_side("middle"), None);

    let part = GridOverviewPaddingPart::from_sides(&vec![
        (PaddingSide::Left, bits(1.0)),
        (PaddingSide::Top, bits(2.0)),
        (PaddingSide::Left, bits(3.0)),
    ]);
    assert_eq!(
        part,
        GridOverviewPaddingPart::Sides { left: Some(bits(3.0)), right: None, top: Some(bits(2.0)), bottom: None }
    );
}
