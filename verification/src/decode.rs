//! Decoding of configuration nodes that take exactly one string argument
//! (`color "45,175,255"`, `click-trigger "both"`): which problems are reported
//! for a node, in which order, and what value it yields.
//!
//! A node is described by what the checks read of it (`NodeShape`); the
//! reported problems refer to arguments, children and properties by position.

use vstd::prelude::*;
use crate::color::{ParticleColor, parse_particle_color};
use crate::trigger::{ClickTriggerType, parse_click_trigger};
use crate::config::{F64Bits, GridOverviewPaddingPart, PaddingSide, last_for_side};

verus! {

/// What decoding reads of one argument of a node.
#[derive(Debug, Clone, PartialEq, Eq)]
pub struct ArgumentShape {
    /// The argument carries a type annotation such as `(u8)"..."`.
    pub has_type_name: bool,
    /// The text of a string literal; `None` for any other literal.
    pub string: Option<String>,
}

/// What decoding reads of a node.
#[derive(Debug, Clone, PartialEq, Eq)]
pub struct NodeShape {
    /// The node carries a type annotation.
    pub has_type_name: bool,
    /// Its arguments, in order.
    pub arguments: Vec<ArgumentShape>,
    /// How many child nodes it has.
    pub children: usize,
    /// How many properties it has.
    pub properties: usize,
}

/// A problem found while decoding a node.
#[derive(Debug, Clone, PartialEq, Eq)]
pub enum DecodeIssue {
    /// The node has a type name.
    NodeTypeName,
    /// The node has no argument.
    MissingArgument,
    /// The first argument has a type name.
    ArgumentTypeName,
    /// The first argument is not a string.
    NotAString,
    /// The first argument's text was refused, with this message.
    Conversion(String),
    /// The node has a second argument.
    ExtraArgument,
    /// The node has the child node at this position.
    Child(usize),
    /// The node has the property at this position.
    Property(usize),
}

/// The outcome of decoding a node: the problems reported along the way, and
/// the value or the problem that stopped decoding.
#[derive(Debug)]
pub struct Decoded<T> {
    pub emitted: Vec<DecodeIssue>,
    pub result: Result<T, DecodeIssue>,
}

/// Problems reported before the argument's text is read: a type name on the
/// node, then a type name on the first argument.
pub open spec fn head_issues(node: NodeShape) -> Seq<DecodeIssue> {
    (if node.has_type_name {
        seq![DecodeIssue::NodeTypeName]
    } else {
        Seq::empty()
    }) + (if node.arguments@.len() > 0 && node.arguments@[0].has_type_name {
        seq![DecodeIssue::ArgumentTypeName]
    } else {
        Seq::empty()
    })
}

/// Problems reported after the value was read: a second argument (only the
/// first extra one), then every child, then every property.
pub open spec fn tail_issues(node: NodeShape) -> Seq<DecodeIssue> {
    (if node.arguments@.len() > 1 {
        seq![DecodeIssue::ExtraArgument]
    } else {
        Seq::empty()
    }) + Seq::new(node.children as nat, |i: int| DecodeIssue::Child(i as usize)) + Seq::new(
        node.properties as nat,
        |i: int| DecodeIssue::Property(i as usize),
    )
}

/// A node with no type names, exactly one string argument, no children and
/// no properties.
pub open spec fn is_plain_string_node(node: NodeShape) -> bool {
    &&& !node.has_type_name
    &&& node.arguments@.len() == 1
    &&& !node.arguments@[0].has_type_name
    &&& node.arguments@[0].string is Some
    &&& node.children == 0
    &&& node.properties == 0
}

fn head_issues_of(node: &NodeShape) -> (v: Vec<DecodeIssue>)
    ensures
        v@ == head_issues(*node),
{
    let mut v: Vec<DecodeIssue> = Vec::new();
    if node.has_type_name {
        v.push(DecodeIssue::NodeTypeName);
    }
    if node.arguments.len() > 0 && node.arguments[0].has_type_name {
        v.push(DecodeIssue::ArgumentTypeName);
    }
    assert(v@ =~= head_issues(*node));
    v
}

fn push_tail_issues(node: &NodeShape, v: &mut Vec<DecodeIssue>)
    ensures
        final(v)@ == old(v)@ + tail_issues(*node),
{
    let ghost start = v@;
    if node.arguments.len() > 1 {
        v.push(DecodeIssue::ExtraArgument);
    }
    let ghost extra = v@;
    let mut i: usize = 0;
    while i < node.children
        invariant
            i <= node.children,
            v@ == extra + Seq::new(i as nat, |k: int| DecodeIssue::Child(k as usize)),
        decreases node.children - i,
    {
        v.push(DecodeIssue::Child(i));
        i += 1;
        assert(v@ =~= extra + Seq::new(i as nat, |k: int| DecodeIssue::Child(k as usize)));
    }
    let ghost with_children = v@;
    let mut j: usize = 0;
    while j < node.properties
        invariant
            j <= node.properties,
            v@ == with_children + Seq::new(j as nat, |k: int| DecodeIssue::Property(k as usize)),
        decreases node.properties - j,
    {
        v.push(DecodeIssue::Property(j));
        j += 1;
        assert(v@ =~= with_children + Seq::new(
            j as nat,
            |k: int| DecodeIssue::Property(k as usize),
        ));
    }
    assert(v@ =~= start + tail_issues(*node));
}

/// Decodes a `color` node: its one string argument parsed as a particle
/// colour.
pub fn decode_particle_color(node: &NodeShape) -> (d: Decoded<ParticleColor>)
    ensures
        node.arguments@.len() == 0 ==> d.emitted@ == head_issues(*node) && d.result == Err::<
            ParticleColor,
            DecodeIssue,
        >(DecodeIssue::MissingArgument),
        node.arguments@.len() > 0 ==> match node.arguments@[0].string {
            None => d.emitted@ == head_issues(*node) && d.result == Err::<
                ParticleColor,
                DecodeIssue,
            >(DecodeIssue::NotAString),
            Some(t) => match parse_particle_color(t@) {
                Err(e) => d.emitted@ == head_issues(*node) && (d.result matches Err(
                    DecodeIssue::Conversion(m),
                ) && m@ == e),
                Ok(c) => d.emitted@ == head_issues(*node) + tail_issues(*node) && (d.result matches Ok(
                    p,
                ) && p.0@ == c),
            },
        },
{
    let mut emitted = head_issues_of(node);
    if node.arguments.len() == 0 {
        return Decoded { emitted, result: Err(DecodeIssue::MissingArgument) };
    }
    match &node.arguments[0].string {
        None => Decoded { emitted, result: Err(DecodeIssue::NotAString) },
        Some(t) => match <ParticleColor as std::str::FromStr>::from_str(t.as_str()) {
            Err(e) => Decoded { emitted, result: Err(DecodeIssue::Conversion(e)) },
            Ok(c) => {
                push_tail_issues(node, &mut emitted);
                Decoded { emitted, result: Ok(c) }
            },
        },
    }
}

/// Decodes a `click-trigger` node: its one string argument parsed as a
/// click trigger.
pub fn decode_click_trigger(node: &NodeShape) -> (d: Decoded<ClickTriggerType>)
    ensures
        node.arguments@.len() == 0 ==> d.emitted@ == head_issues(*node) && d.result == Err::<
            ClickTriggerType,
            DecodeIssue,
        >(DecodeIssue::MissingArgument),
        node.arguments@.len() > 0 ==> match node.arguments@[0].string {
            None => d.emitted@ == head_issues(*node) && d.result == Err::<
                ClickTriggerType,
                DecodeIssue,
            >(DecodeIssue::NotAString),
            Some(t) => match parse_click_trigger(t@) {
                Err(e) => d.emitted@ == head_issues(*node) && (d.result matches Err(
                    DecodeIssue::Conversion(m),
                ) && m@ == e),
                Ok(c) => d.emitted@ == head_issues(*node) + tail_issues(*node) && d.result == Ok::<
                    ClickTriggerType,
                    DecodeIssue,
                >(c),
            },
        },
{
    let mut emitted = head_issues_of(node);
    if node.arguments.len() == 0 {
        return Decoded { emitted, result: Err(DecodeIssue::MissingArgument) };
    }
    match &node.arguments[0].string {
        None => Decoded { emitted, result: Err(DecodeIssue::NotAString) },
        Some(t) => match <ClickTriggerType as std::str::FromStr>::from_str(t.as_str()) {
            Err(e) => Decoded { emitted, result: Err(DecodeIssue::Conversion(e)) },
            Ok(c) => {
                push_tail_issues(node, &mut emitted);
                Decoded { emitted, result: Ok(c) }
            },
        },
    }
}

/// A node with no type names, one string argument, no children and no
/// properties reports no problem: decoding it yields exactly what parsing
/// its argument yields.
pub proof fn plain_string_node_reports_nothing(node: NodeShape)
    requires
        is_plain_string_node(node),
    ensures
        head_issues(node) == Seq::<DecodeIssue>::empty(),
        tail_issues(node) == Seq::<DecodeIssue>::empty(),
{
    assert(head_issues(node) =~= Seq::<DecodeIssue>::empty());
    assert(tail_issues(node) =~= Seq::<DecodeIssue>::empty());
}

/// Problems about properties: one for every property, in order.
pub open spec fn property_issues(node: NodeShape) -> Seq<DecodeIssue> {
    Seq::new(node.properties as nat, |i: int| DecodeIssue::Property(i as usize))
}

/// Decodes a `padding` node written with a value (its first argument,
/// already read as `value`): one value for every side, with a problem for a
/// second argument, then for every child, then for every property.
pub fn decode_uniform_padding(node: &NodeShape, value: F64Bits) -> (d: Decoded<GridOverviewPaddingPart>)
    requires
        node.arguments@.len() > 0,
    ensures
        d.emitted@ == tail_issues(*node),
        d.result == Ok::<GridOverviewPaddingPart, DecodeIssue>(GridOverviewPaddingPart::Uniform(value)),
{
    let mut emitted: Vec<DecodeIssue> = Vec::new();
    push_tail_issues(node, &mut emitted);
    assert(emitted@ =~= tail_issues(*node));
    Decoded { emitted, result: Ok(GridOverviewPaddingPart::Uniform(value)) }
}

/// Decodes a `padding` node written with side children, given the sides
/// they named and their values in order (unknown children were reported
/// while walking them): the last value given for each side, and a problem
/// for every property.
pub fn decode_padding_sides(node: &NodeShape, sides: &Vec<(PaddingSide, F64Bits)>) -> (d: Decoded<
    GridOverviewPaddingPart,
>)
    ensures
        d.emitted@ == property_issues(*node),
        d.result == Ok::<GridOverviewPaddingPart, DecodeIssue>(
            GridOverviewPaddingPart::Sides {
                left: last_for_side(sides@, PaddingSide::Left),
                right: last_for_side(sides@, PaddingSide::Right),
                top: last_for_side(sides@, PaddingSide::Top),
                bottom: last_for_side(sides@, PaddingSide::Bottom),
            },
        ),
{
    let mut emitted: Vec<DecodeIssue> = Vec::new();
    let mut j: usize = 0;
    while j < node.properties
        invariant
            j <= node.properties,
            emitted@ == Seq::new(j as nat, |k: int| DecodeIssue::Property(k as usize)),
        decreases node.properties - j,
    {
        emitted.push(DecodeIssue::Property(j));
        j += 1;
        assert(emitted@ =~= Seq::new(j as nat, |k: int| DecodeIssue::Property(k as usize)));
    }
    Decoded { emitted, result: Ok(GridOverviewPaddingPart::from_sides(sides)) }
}

} // verus!
