use std::str::FromStr;

use niri_cursor::color::ParticleColor;

#[test]
fn particle_color_parses_comma_separated_channels() {
    assert_eq!(ParticleColor::from_str("45,175,255"), Ok(ParticleColor([45, 175, 255])));
    assert_eq!(ParticleColor::from_str("  1 , 2 ,3  "), Ok(ParticleColor([1, 2, 3])));
    assert_eq!(ParticleColor::from_str("+7,007,255"), Ok(ParticleColor([7, 7, 255])));
    assert_eq!("0,0,0".parse::<ParticleColor>(), Ok(ParticleColor([0, 0, 0])));
}

#[test]
fn particle_color_parses_rgb_forms() {
    assert_eq!(ParticleColor::from_str("rgb(45, 175, 255)"), Ok(ParticleColor([45, 175, 255])));
    assert_eq!(ParticleColor::from_str("rgba(10,20,30)"), Ok(ParticleColor([10, 20, 30])));
    assert_eq!(ParticleColor::from_str("rgb(rgb(1,2,3)))"), Ok(ParticleColor([1, 2, 3])));
}

#[test]
fn particle_color_component_errors() {
    assert_eq!(
        ParticleColor::from_str("45,175,256"),
        Err(String::from("invalid color component `256`"))
    );
    assert_eq!(
        ParticleColor::from_str("a, b ,c"),
        Err(String::from("invalid color component `a`"))
    );
    assert_eq!(ParticleColor::from_str("1,-2,3"), Err(String::from("invalid color component `-2`")));
    assert_eq!(ParticleColor::from_str("1,,3"), Err(String::from("invalid color component ``")));
    assert_eq!(ParticleColor::from_str("1,2,+"), Err(String::from("invalid color component `+`")));
}

#[test]
fn particle_color_falls_back_to_css() {
    assert_eq!(ParticleColor::from_str("#2dafff"), Ok(ParticleColor([45, 175, 255])));
    assert_eq!(ParticleColor::from_str(" red "), Ok(ParticleColor([255, 0, 0])));
    // Four comma-separated numbers are not three channels: the CSS parser reads them.
    assert_eq!(ParticleColor::from_str("rgba(1,2,3,4)"), Ok(ParticleColor([1, 2, 3])));
}

#[test]
fn particle_color_css_errors_name_trimmed_text() {
    let e = ParticleColor::from_str("  not a color ").unwrap_err();
    assert!(e.starts_with("invalid color `not a color`: "), "{e}");
    assert!(e.len() > "invalid color `not a color`: ".len());
}

#[test]
fn particle_color_from_css_result() {
    assert_eq!(
        ParticleColor::from_css("x", Ok([1, 2, 3, 4])),
        Ok(ParticleColor([1, 2, 3]))
    );
    assert_eq!(
        ParticleColor::from_css("x", Err(String::from("boom"))),
        Err(String::from("invalid color `x`: boom"))
    );
}

#[test]
fn particle_color_default() {
    assert_eq!(ParticleColor::default(), ParticleColor([45, 175, 255]));
}

#[test]
fn particle_color_refuses_angle_calls_with_non_ascii_arguments() {
    assert_eq!(
        ParticleColor::from_str("hsl(\u{e9}\u{e9} 0 0)"),
        Err(String::from(
            "invalid color `hsl(\u{e9}\u{e9} 0 0)`: non-ASCII arguments to an angle function"
        ))
    );
    assert_eq!(
        ParticleColor::from_str(" OkLch(0 0 \u{e9}\u{e9}) "),
        Err(String::from(
            "invalid color `OkLch(0 0 \u{e9}\u{e9})`: non-ASCII arguments to an angle function"
        ))
    );
}

#[test]
fn particle_color_hands_other_non_ascii_text_to_css() {
    assert_eq!(
        ParticleColor::from_str("\u{e9}"),
        Err(String::from("invalid color `\u{e9}`: invalid unknown format"))
    );
    assert_eq!(
        ParticleColor::from_str("rgb(\u{e9} 0 0)"),
        Err(String::from("invalid color `rgb(\u{e9} 0 0)`: invalid rgb format"))
    );
    assert_eq!(
        ParticleColor::from_str("#\u{e9}\u{e9}\u{e9}"),
        Err(String::from("invalid color `#\u{e9}\u{e9}\u{e9}`: invalid hex format"))
    );
    // Non-ASCII inside three comma-separated channels is a channel error.
    assert_eq!(
        ParticleColor::from_str("1,\u{e9},3"),
        Err(String::from("invalid color component `\u{e9}`"))
    );
}
