//! Which mouse buttons fire the click burst: the configuration value
//! (`click-trigger "left" | "right" | "both"`, or `"0" | "1" | "2"`) and the
//! runtime routing of button presses.

use vstd::prelude::*;
use vstd::string::*;
use crate::text::{
    all_whitespace, chars_of, lemma_trim_ignores_surrounding_whitespace, range_eq, trim, trim_range,
};

verus! {

/// The `click-trigger` configuration value.
#[derive(Debug, Clone, Copy, PartialEq, Eq)]
pub enum ClickTriggerType {
    Left,
    Right,
    Both,
}

impl Default for ClickTriggerType {
    /// `Left`.
    fn default() -> (t: Self)
        ensures
            t == ClickTriggerType::Left,
    {
        ClickTriggerType::Left
    }
}

/// The buttons that fire a click burst at run time.
#[derive(Debug, Clone, Copy, PartialEq, Eq)]
pub enum ClickTrigger {
    Left,
    Right,
    Both,
}

/// Whether `t` accepts a press of the left (`is_left`) or right (`is_right`)
/// button.
pub open spec fn trigger_accepts(t: ClickTrigger, is_left: bool, is_right: bool) -> bool {
    match t {
        ClickTrigger::Left => is_left,
        ClickTrigger::Right => is_right,
        ClickTrigger::Both => is_left || is_right,
    }
}

impl ClickTrigger {
    /// Whether this trigger accepts the button event; `is_left` and
    /// `is_right` say which button was pressed.
    pub fn accepts(&self, is_left: bool, is_right: bool) -> (b: bool)
        ensures
            b == trigger_accepts(*self, is_left, is_right),
    {
        match self {
            ClickTrigger::Left => is_left,
            ClickTrigger::Right => is_right,
            ClickTrigger::Both => is_left || is_right,
        }
    }

    /// The runtime trigger for a configured `click-trigger`: the same variant.
    pub fn from_config(t: ClickTriggerType) -> (r: ClickTrigger)
        ensures
            r == trigger_of_config(t),
    {
        match t {
            ClickTriggerType::Left => ClickTrigger::Left,
            ClickTriggerType::Right => ClickTrigger::Right,
            ClickTriggerType::Both => ClickTrigger::Both,
        }
    }
}

/// The runtime trigger of the same name as the configured one.
pub open spec fn trigger_of_config(t: ClickTriggerType) -> ClickTrigger {
    match t {
        ClickTriggerType::Left => ClickTrigger::Left,
        ClickTriggerType::Right => ClickTrigger::Right,
        ClickTriggerType::Both => ClickTrigger::Both,
    }
}

/// The texts (after trimming) that name `Left`.
pub open spec fn names_left(t: Seq<char>) -> bool {
    t == seq!['l', 'e', 'f', 't'] || t == seq!['L', 'e', 'f', 't'] || t == seq!['L', 'E', 'F', 'T']
        || t == seq!['0']
}

/// The texts (after trimming) that name `Right`.
pub open spec fn names_right(t: Seq<char>) -> bool {
    t == seq!['r', 'i', 'g', 'h', 't'] || t == seq!['R', 'i', 'g', 'h', 't'] || t == seq![
        'R',
        'I',
        'G',
        'H',
        'T',
    ] || t == seq!['1']
}

/// The texts (after trimming) that name `Both`.
pub open spec fn names_both(t: Seq<char>) -> bool {
    t == seq!['b', 'o', 't', 'h'] || t == seq!['B', 'o', 't', 'h'] || t == seq!['B', 'O', 'T', 'H']
        || t == seq!['2']
}

/// The error for a trimmed text `t` that names no trigger.
pub open spec fn click_trigger_error(t: Seq<char>) -> Seq<char> {
    "invalid click-trigger `"@ + t + "`: expected left/right/both or 0/1/2"@
}

/// What parsing a `click-trigger` text gives.
pub open spec fn parse_click_trigger(s: Seq<char>) -> Result<ClickTriggerType, Seq<char>> {
    let t = trim(s);
    if names_left(t) {
        Ok(ClickTriggerType::Left)
    } else if names_right(t) {
        Ok(ClickTriggerType::Right)
    } else if names_both(t) {
        Ok(ClickTriggerType::Both)
    } else {
        Err(click_trigger_error(t))
    }
}

fn range_is_one_of(
    v: &Vec<char>,
    lo: usize,
    hi: usize,
    p1: &[char],
    p2: &[char],
    p3: &[char],
    p4: &[char],
) -> (b: bool)
    requires
        lo <= hi <= v@.len(),
    ensures
        b == {
            let t = v@.subrange(lo as int, hi as int);
            t == p1@ || t == p2@ || t == p3@ || t == p4@
        },
{
    range_eq(v, lo, hi, p1) || range_eq(v, lo, hi, p2) || range_eq(v, lo, hi, p3) || range_eq(
        v,
        lo,
        hi,
        p4,
    )
}

impl std::str::FromStr for ClickTriggerType {
    type Err = String;

    /// Parses `left`, `Left`, `LEFT` or `0` (and likewise for `right` / `1`
    /// and `both` / `2`), ignoring surrounding whitespace.
    fn from_str(s: &str) -> (r: Result<Self, Self::Err>)
        ensures
            match r {
                Ok(t) => parse_click_trigger(s@) == Ok::<ClickTriggerType, Seq<char>>(t),
                Err(e) => parse_click_trigger(s@) == Err::<ClickTriggerType, Seq<char>>(e@),
            },
    {
        let v = chars_of(s);
        let (a, b) = trim_range(&v, 0, v.len());
        assert(v@.subrange(0, v@.len() as int) =~= s@);
        let l1: [char; 4] = ['l', 'e', 'f', 't'];
        let l2: [char; 4] = ['L', 'e', 'f', 't'];
        let l3: [char; 4] = ['L', 'E', 'F', 'T'];
        let l4: [char; 1] = ['0'];
        let r1: [char; 5] = ['r', 'i', 'g', 'h', 't'];
        let r2: [char; 5] = ['R', 'i', 'g', 'h', 't'];
        let r3: [char; 5] = ['R', 'I', 'G', 'H', 'T'];
        let r4: [char; 1] = ['1'];
        let b1: [char; 4] = ['b', 'o', 't', 'h'];
        let b2: [char; 4] = ['B', 'o', 't', 'h'];
        let b3: [char; 4] = ['B', 'O', 'T', 'H'];
        let b4: [char; 1] = ['2'];
        assert(l1@ =~= seq!['l', 'e', 'f', 't']);
        assert(l2@ =~= seq!['L', 'e', 'f', 't']);
        assert(l3@ =~= seq!['L', 'E', 'F', 'T']);
        assert(l4@ =~= seq!['0']);
        assert(r1@ =~= seq!['r', 'i', 'g', 'h', 't']);
        assert(r2@ =~= seq!['R', 'i', 'g', 'h', 't']);
        assert(r3@ =~= seq!['R', 'I', 'G', 'H', 'T']);
        assert(r4@ =~= seq!['1']);
        assert(b1@ =~= seq!['b', 'o', 't', 'h']);
        assert(b2@ =~= seq!['B', 'o', 't', 'h']);
        assert(b3@ =~= seq!['B', 'O', 'T', 'H']);
        assert(b4@ =~= seq!['2']);
        if range_is_one_of(&v, a, b, l1.as_slice(), l2.as_slice(), l3.as_slice(), l4.as_slice()) {
            Ok(ClickTriggerType::Left)
        } else if range_is_one_of(
            &v,
            a,
            b,
            r1.as_slice(),
            r2.as_slice(),
            r3.as_slice(),
            r4.as_slice(),
        ) {
            Ok(ClickTriggerType::Right)
        } else if range_is_one_of(
            &v,
            a,
            b,
            b1.as_slice(),
            b2.as_slice(),
            b3.as_slice(),
            b4.as_slice(),
        ) {
            Ok(ClickTriggerType::Both)
        } else {
            let mut m = String::new();
            m.append("invalid click-trigger `");
            m.append(s.substring_char(a, b));
            m.append("`: expected left/right/both or 0/1/2");
            Err(m)
        }
    }
}

/// Surrounding whitespace does not change what a `click-trigger` text parses
/// to.
pub proof fn click_trigger_ignores_surrounding_whitespace(w1: Seq<char>, s: Seq<char>, w2: Seq<char>)
    requires
        all_whitespace(w1),
        all_whitespace(w2),
    ensures
        parse_click_trigger(w1 + s + w2) == parse_click_trigger(s),
{
    lemma_trim_ignores_surrounding_whitespace(w1, s, w2);
}

/// `Left` accepts exactly the presses of the left button, `Right` exactly
/// those of the right button, and `Both` a press exactly when `Left` or
/// `Right` accepts it.
pub proof fn both_accepts_what_left_or_right_accepts(is_left: bool, is_right: bool)
    ensures
        trigger_accepts(ClickTrigger::Both, is_left, is_right) == (trigger_accepts(
            ClickTrigger::Left,
            is_left,
            is_right,
        ) || trigger_accepts(ClickTrigger::Right, is_left, is_right)),
        !trigger_accepts(ClickTrigger::Left, false, is_right),
        !trigger_accepts(ClickTrigger::Right, is_left, false),
        trigger_accepts(ClickTrigger::Left, true, is_right),
        trigger_accepts(ClickTrigger::Right, is_left, true),
{
}

} // verus!
