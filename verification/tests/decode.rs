use niri_cursor::color::ParticleColor;
use niri_cursor::config::{F64Bits, GridOverviewPaddingPart, PaddingSide};
use niri_cursor::decode::{
    decode_click_trigger, decode_padding_sides, decode_particle_color, decode_uniform_padding,
    ArgumentShape, DecodeIssue, NodeShape,
};
use niri_cursor::trigger::ClickTriggerType;

fn string_arg(s: &str) -> ArgumentShape {
    ArgumentShape { has_type_name: false, string: Some(String::from(s)) }
}

fn node(arguments: Vec<ArgumentShape>) -> NodeShape {
    NodeShape { has_type_name: false, arguments, children: 0, properties: 0 }
}

#[test]
fn plain_color_node_decodes_without_issues() {
    let d = decode_particle_color(&node(vec![string_arg("45,175,255")]));
    assert!(d.emitted.is_empty());
    assert_eq!(d.result, Ok(ParticleColor([45, 175, 255])));
}

#[test]
fn color_node_without_argument_is_missing() {
    let mut n = node(vec![]);
    n.has_type_name = true;
    n.children = 2;
    let d = decode_particle_color(&n);
    assert_eq!(d.emitted, vec![DecodeIssue::NodeTypeName]);
    assert_eq!(d.result, Err(DecodeIssue::MissingArgument));
}

#[test]
fn color_node_with_non_string_argument() {
    let d = decode_particle_color(&node(vec![ArgumentShape { has_type_name: true, string: None }]));
    assert_eq!(d.emitted, vec![DecodeIssue::ArgumentTypeName]);
    assert_eq!(d.result, Err(DecodeIssue::NotAString));
}

#[test]
fn color_node_with_bad_text_stops_at_conversion() {
    let mut n = node(vec![string_arg("1,2,300"), string_arg("x")]);
    n.properties = 1;
    let d = decode_particle_color(&n);
    assert!(d.emitted.is_empty());
    assert_eq!(
        d.result,
        Err(DecodeIssue::Conversion(String::from("invalid color component `300`")))
    );
}

#[test]
fn color_node_extra_parts_are_reported_in_order() {
    let mut n = node(vec![string_arg("#000000"), string_arg("a"), string_arg("b")]);
    n.has_type_name = true;
    n.children = 2;
    n.properties = 1;
    let d = decode_particle_color(&n);
    assert_eq!(
        d.emitted,
        vec![
            DecodeIssue::NodeTypeName,
            DecodeIssue::ExtraArgument,
            DecodeIssue::Child(0),
            DecodeIssue::Child(1),
            DecodeIssue::Property(0),
        ]
    );
    assert_eq!(d.result, Ok(ParticleColor([0, 0, 0])));
}

#[test]
fn click_trigger_node_decodes() {
    let d = decode_click_trigger(&node(vec![string_arg("both")]));
    assert!(d.emitted.is_empty());
    assert_eq!(d.result, Ok(ClickTriggerType::Both));

    let mut n = node(vec![string_arg("2")]);
    n.children = 1;
    let d = decode_click_trigger(&n);
    assert_eq!(d.emitted, vec![DecodeIssue::Child(0)]);
    assert_eq!(d.result, Ok(ClickTriggerType::Both));

    let d = decode_click_trigger(&node(vec![string_arg("up")]));
    assert_eq!(
        d.result,
        Err(DecodeIssue::Conversion(String::from(
            "invalid click-trigger `up`: expected left/right/both or 0/1/2"
        )))
    );
    let d = decode_click_trigger(&node(vec![]));
    assert_eq!(d.result, Err(DecodeIssue::MissingArgument));
}

#[test]
fn uniform_padding_reports_extras_in_order() {
    let v = F64Bits(12.0f64.to_bits());
    let plain = NodeShape {
        has_type_name: false,
        arguments: vec![ArgumentShape { has_type_name: false, string: None }],
        children: 0,
        properties: 0,
    };
    let d = decode_uniform_padding(&plain, v);
    assert!(d.emitted.is_empty());
    assert_eq!(d.result, Ok(GridOverviewPaddingPart::Uniform(v)));

    let busy = NodeShape {
        has_type_name: false,
        arguments: vec![
            ArgumentShape { has_type_name: false, string: None },
            ArgumentShape { has_type_name: false, string: None },
            ArgumentShape { has_type_name: false, string: None },
        ],
        children: 1,
        properties: 2,
    };
    let d = decode_uniform_padding(&busy, v);
    assert_eq!(
        d.emitted,
        vec![
            DecodeIssue::ExtraArgument,
            DecodeIssue::Child(0),
            DecodeIssue::Property(0),
            DecodeIssue::Property(1),
        ]
    );
}

#[test]
fn padding_sides_keep_last_value_and_report_properties() {
    let a = F64Bits(1.0f64.to_bits());
    let b = F64Bits(2.0f64.to_bits());
    let n = NodeShape { has_type_name: false, arguments: vec![], children: 3, properties: 1 };
    let d = decode_padding_sides(&n, &vec![(PaddingSide::Top, a), (PaddingSide::Top, b)]);
    assert_eq!(d.emitted, vec![DecodeIssue::Property(0)]);
    assert_eq!(
        d.result,
        Ok(GridOverviewPaddingPart::Sides { left: None, right: None, top: Some(b), bottom: None })
    );
}
