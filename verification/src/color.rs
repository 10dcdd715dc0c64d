//! The particle colour of the cursor effect: `"R,G,B"` (optionally wrapped in
//! `rgb(...)` / `rgba(...)`), or any CSS colour, which `csscolorparser` reads.

use vstd::prelude::*;
use vstd::string::*;
use crate::text::{
    all_whitespace, chars_of, decimal, find_char, lemma_decimal, lemma_parse_decimal,
    lemma_split_on_first, lemma_split_on_none, lemma_split_on_nonempty,
    lemma_trim_ignores_surrounding_whitespace, parse_u8, parse_u8_range, split_on,
    strip_prefix_all, strip_prefix_all_range, strip_suffix_all, strip_suffix_range, trim,
    trim_end, trim_end_range, trim_range, trim_start, first_index, lemma_first_index,
    range_is_ascii, lemma_trim_idempotent, lemma_first_index_bounds,
};

verus! {

/// A particle colour as 8-bit red, green and blue channels.
#[derive(Debug, Clone, Copy, PartialEq, Eq)]
pub struct ParticleColor(pub [u8; 3]);

impl Default for ParticleColor {
    /// The default particle colour, `45,175,255`.
    fn default() -> (c: Self)
        ensures
            c.0@ == seq![45u8, 175u8, 255u8],
    {
        let c = ParticleColor([45, 175, 255]);
        assert(c.0@ =~= seq![45u8, 175u8, 255u8]);
        c
    }
}

/// `rgb(`
pub open spec fn rgb_open() -> Seq<char> {
    seq!['r', 'g', 'b', '(']
}

/// `rgba(`
pub open spec fn rgba_open() -> Seq<char> {
    seq!['r', 'g', 'b', 'a', '(']
}

/// The comma-separated body of a trimmed colour text: every leading `rgb(`,
/// then every leading `rgba(`, then every trailing `)` removed.
pub open spec fn color_body(t: Seq<char>) -> Seq<char> {
    strip_suffix_all(strip_prefix_all(strip_prefix_all(t, rgb_open()), rgba_open()), ')')
}

/// The error for a channel text `x` that is not a `u8`.
pub open spec fn component_error(x: Seq<char>) -> Seq<char> {
    "invalid color component `"@ + x + "`"@
}

/// The error for a trimmed text `t` that the CSS parser refused with message `e`.
pub open spec fn css_error(t: Seq<char>, e: Seq<char>) -> Seq<char> {
    "invalid color `"@ + t + "`: "@ + e
}

/// What `csscolorparser::parse` followed by `Color::to_rgba8` gives for a text:
/// the four 8-bit channels, or the text of the parse error.
pub uninterp spec fn css_color_rgba8(s: Seq<char>) -> Result<Seq<u8>, Seq<char>>;

/// `x` is the lower-case ASCII letter `lower`, or its upper-case form.
pub open spec fn same_letter(x: char, lower: char) -> bool {
    x == lower || x as int + 32 == lower as int
}

/// `name` spells `lower` (lower-case ASCII letters) ignoring ASCII case.
pub open spec fn spells_ignoring_case(name: Seq<char>, lower: Seq<char>) -> bool {
    name.len() == lower.len() && forall|i: int| 0 <= i < name.len() ==> same_letter(#[trigger] name[i], lower[i])
}

/// `name` is one of the CSS functions whose first or third argument is an
/// angle and which the parser reads: `hsl`, `hsla`, `hwb`, `hwba`, `hsv`,
/// `hsva` or `oklch`, in any ASCII case.
pub open spec fn is_angle_function(name: Seq<char>) -> bool {
    ||| spells_ignoring_case(name, seq!['h', 's', 'l'])
    ||| spells_ignoring_case(name, seq!['h', 's', 'l', 'a'])
    ||| spells_ignoring_case(name, seq!['h', 'w', 'b'])
    ||| spells_ignoring_case(name, seq!['h', 'w', 'b', 'a'])
    ||| spells_ignoring_case(name, seq!['h', 's', 'v'])
    ||| spells_ignoring_case(name, seq!['h', 's', 'v', 'a'])
    ||| spells_ignoring_case(name, seq!['o', 'k', 'l', 'c', 'h'])
}

/// A trimmed text that the CSS parser may not be given: a call
/// `name(...)` of an angle function whose arguments hold a non-ASCII
/// character. The parser cuts angle units off such arguments at byte
/// offsets that can fall inside a character, and then panics.
pub open spec fn angle_call_with_non_ascii_arguments(t: Seq<char>) -> bool {
    let open = first_index(t, '(');
    &&& open < t.len()
    &&& t.last() == ')'
    &&& is_angle_function(trim_end(t.take(open)))
    &&& !vstd::utf8::is_ascii_chars(t.subrange(open + 1, t.len() - 1))
}

/// The message for a text that is refused before the CSS parser.
pub open spec fn refused_message() -> Seq<char> {
    "non-ASCII arguments to an angle function"@
}

/// The colour (or error) of a trimmed text `t` given what the CSS parser
/// gave for it.
pub open spec fn color_from_css(t: Seq<char>, css: Result<Seq<u8>, Seq<char>>) -> Result<
    Seq<u8>,
    Seq<char>,
> {
    match css {
        Ok(c) => Ok(c.take(3)),
        Err(e) => Err(css_error(t, e)),
    }
}

/// What parsing a particle colour text gives: the three channels, or the
/// error message.
///
/// The trimmed text is reduced to its comma-separated body; with exactly three
/// pieces each trimmed piece must be a `u8` (the first that is not gives the
/// error); with any other number of pieces the trimmed text goes to the CSS
/// parser if it is ASCII, and is refused otherwise.
pub open spec fn parse_particle_color(s: Seq<char>) -> Result<Seq<u8>, Seq<char>> {
    let t = trim(s);
    let parts = split_on(color_body(t), ',');
    if parts.len() == 3 {
        let p0 = trim(parts[0]);
        let p1 = trim(parts[1]);
        let p2 = trim(parts[2]);
        if parse_u8(p0) is None {
            Err(component_error(p0))
        } else if parse_u8(p1) is None {
            Err(component_error(p1))
        } else if parse_u8(p2) is None {
            Err(component_error(p2))
        } else {
            Ok(seq![parse_u8(p0)->0, parse_u8(p1)->0, parse_u8(p2)->0])
        }
    } else {
        css_fallback_result(t)
    }
}

/// Calls `csscolorparser::parse` on `s` and reads the parsed colour with
/// `Color::to_rgba8`, which maps each channel `x` to `(x * 255 + 0.5) as u8`
/// (channels outside [0, 1] saturate to 0 or 255). Claimed: the result is
/// `css_color_rgba8(s)`, a function of the text alone; an error is carried
/// as its `Display` text. Nothing is claimed about which texts are colours.
/// The parser trims the text first; the trimmed text must not be an
/// angle-function call with non-ASCII arguments:
/// on some of those the parser slices a string off a character boundary and
/// panics. On every other text it returns.
#[verifier::external_body]
fn css_parse_rgba8(s: &str) -> (r: Result<[u8; 4], String>)
    requires
        !angle_call_with_non_ascii_arguments(trim(s@)),
    ensures
        match r {
            Ok(c) => css_color_rgba8(s@) == Ok::<Seq<u8>, Seq<char>>(c@),
            Err(e) => css_color_rgba8(s@) == Err::<Seq<u8>, Seq<char>>(e@),
        },
{
    match csscolorparser::parse(s) {
        Ok(c) => Ok(c.to_rgba8()),
        Err(e) => Err(e.to_string()),
    }
}

/// The colour (or error) of a trimmed text that is not three
/// comma-separated channels: the CSS parser's reading of it, unless it is
/// an angle-function call with non-ASCII arguments, which is refused.
pub open spec fn css_fallback_result(t: Seq<char>) -> Result<Seq<u8>, Seq<char>> {
    if angle_call_with_non_ascii_arguments(t) {
        Err(css_error(t, refused_message()))
    } else {
        color_from_css(t, css_color_rgba8(t))
    }
}

/// Whether `v[lo..hi]` spells the lower-case letters `lower`, ignoring ASCII case.
fn range_spells(v: &Vec<char>, lo: usize, hi: usize, lower: &[char]) -> (b: bool)
    requires
        lo <= hi <= v@.len(),
        forall|i: int| 0 <= i < lower@.len() ==> 'a' <= #[trigger] lower@[i] <= 'z',
    ensures
        b == spells_ignoring_case(v@.subrange(lo as int, hi as int), lower@),
{
    if hi - lo != lower.len() {
        return false;
    }
    let mut i: usize = 0;
    while i < lower.len()
        invariant
            lo <= hi <= v@.len(),
            hi - lo == lower@.len(),
            i <= lower@.len(),
            forall|k: int| 0 <= k < lower@.len() ==> 'a' <= #[trigger] lower@[k] <= 'z',
            forall|j: int| 0 <= j < i ==> same_letter(#[trigger] v@[lo + j], lower@[j]),
        decreases lower@.len() - i,
    {
        let c = v[lo + i];
        let l = lower[i];
        let same = c == l || (('A' <= c && c <= 'Z') && (c as u32) + 32 == (l as u32));
        proof {
            vstd::utf8::char_is_scalar(c);
        }
        if !same {
            assert(v@.subrange(lo as int, hi as int)[i as int] == c);
            assert(!same_letter(c, l));
            return false;
        }
        assert(same_letter(c, l));
        i += 1;
    }
    assert forall|j: int| 0 <= j < lower@.len() implies same_letter(
        #[trigger] v@.subrange(lo as int, hi as int)[j],
        lower@[j],
    ) by {
        assert(v@.subrange(lo as int, hi as int)[j] == v@[lo + j]);
    }
    true
}

/// Whether `v[lo..hi]` names an angle function.
fn range_is_angle_function(v: &Vec<char>, lo: usize, hi: usize) -> (b: bool)
    requires
        lo <= hi <= v@.len(),
    ensures
        b == is_angle_function(v@.subrange(lo as int, hi as int)),
{
    let hsl: [char; 3] = ['h', 's', 'l'];
    let hsla: [char; 4] = ['h', 's', 'l', 'a'];
    let hwb: [char; 3] = ['h', 'w', 'b'];
    let hwba: [char; 4] = ['h', 'w', 'b', 'a'];
    let hsv: [char; 3] = ['h', 's', 'v'];
    let hsva: [char; 4] = ['h', 's', 'v', 'a'];
    let oklch: [char; 5] = ['o', 'k', 'l', 'c', 'h'];
    assert(hsl@ =~= seq!['h', 's', 'l']);
    assert(hsla@ =~= seq!['h', 's', 'l', 'a']);
    assert(hwb@ =~= seq!['h', 'w', 'b']);
    assert(hwba@ =~= seq!['h', 'w', 'b', 'a']);
    assert(hsv@ =~= seq!['h', 's', 'v']);
    assert(hsva@ =~= seq!['h', 's', 'v', 'a']);
    assert(oklch@ =~= seq!['o', 'k', 'l', 'c', 'h']);
    range_spells(v, lo, hi, hsl.as_slice()) || range_spells(v, lo, hi, hsla.as_slice())
        || range_spells(v, lo, hi, hwb.as_slice()) || range_spells(v, lo, hi, hwba.as_slice())
        || range_spells(v, lo, hi, hsv.as_slice()) || range_spells(v, lo, hi, hsva.as_slice())
        || range_spells(v, lo, hi, oklch.as_slice())
}

/// Whether the trimmed text is an angle-function call with non-ASCII
/// arguments.
fn is_angle_call_with_non_ascii_arguments(text: &str) -> (b: bool)
    ensures
        b == angle_call_with_non_ascii_arguments(text@),
{
    let v = chars_of(text);
    let n = v.len();
    match find_char(&v, 0, n, '(') {
        None => {
            proof {
                assert(v@.subrange(0, n as int) =~= v@);
                lemma_first_index(v@, '(', n as int);
            }
            false
        },
        Some(open) => {
            proof {
                lemma_first_index(v@, '(', open as int);
            }
            if v[n - 1] != ')' {
                return false;
            }
            let name_end = trim_end_range(&v, 0, open);
            assert(v@.subrange(0, open as int) =~= v@.take(open as int));
            range_is_angle_function(&v, 0, name_end) && !range_is_ascii(&v, open + 1, n - 1)
        },
    }
}

fn css_fallback(text: &str) -> (r: Result<ParticleColor, String>)
    requires
        trim(text@) == text@,
    ensures
        match r {
            Ok(c) => css_fallback_result(text@) == Ok::<Seq<u8>, Seq<char>>(c.0@),
            Err(e) => css_fallback_result(text@) == Err::<Seq<u8>, Seq<char>>(e@),
        },
{
    if is_angle_call_with_non_ascii_arguments(text) {
        let mut m = String::from_str("invalid color `");
        m.append(text);
        m.append("`: ");
        m.append("non-ASCII arguments to an angle function");
        Err(m)
    } else {
        let css = css_parse_rgba8(text);
        let r = ParticleColor::from_css(text, css);
        match r {
            Ok(c) => {
                assert(css_fallback_result(text@) == Ok::<Seq<u8>, Seq<char>>(c.0@));
                Ok(c)
            },
            Err(e) => {
                assert(css_fallback_result(text@) == Err::<Seq<u8>, Seq<char>>(e@));
                Err(e)
            },
        }
    }
}

fn component_error_message(x: &str) -> (m: String)
    ensures
        m@ == component_error(x@),
{
    let mut m = String::from_str("invalid color component `");
    m.append(x);
    m.append("`");
    m
}

impl ParticleColor {
    /// The colour (or error) of the trimmed text `text` given what the CSS
    /// parser returned for it: its red, green and blue channels, or the error
    /// `invalid color `text`: <message>`.
    pub fn from_css(text: &str, css: Result<[u8; 4], String>) -> (r: Result<ParticleColor, String>)
        ensures
            match css {
                Ok(c) => r matches Ok(p) && p.0@ == c@.take(3),
                Err(e) => r matches Err(m) && m@ == css_error(text@, e@),
            },
    {
        match css {
            Ok(c) => {
                let p = ParticleColor([c[0], c[1], c[2]]);
                assert(p.0@ =~= c@.take(3));
                Ok(p)
            },
            Err(e) => {
                let mut m = String::from_str("invalid color `");
                m.append(text);
                m.append("`: ");
                m.append(e.as_str());
                Err(m)
            },
        }
    }
}

impl std::str::FromStr for ParticleColor {
    type Err = String;

    /// Parses a particle colour: `"45,175,255"`, `"rgb(45, 175, 255)"`, or any
    /// CSS colour such as `"#2dafff"`.
    fn from_str(s: &str) -> (r: Result<Self, Self::Err>)
        ensures
            match r {
                Ok(c) => parse_particle_color(s@) == Ok::<Seq<u8>, Seq<char>>(c.0@),
                Err(e) => parse_particle_color(s@) == Err::<Seq<u8>, Seq<char>>(e@),
            },
    {
        let v = chars_of(s);
        let (t0, t1) = trim_range(&v, 0, v.len());
        let rgb: [char; 4] = ['r', 'g', 'b', '('];
        let rgba: [char; 5] = ['r', 'g', 'b', 'a', '('];
        assert(rgb@ =~= rgb_open());
        assert(rgba@ =~= rgba_open());
        let a1 = strip_prefix_all_range(&v, t0, t1, rgb.as_slice());
        let a = strip_prefix_all_range(&v, a1, t1, rgba.as_slice());
        let b = strip_suffix_range(&v, a, t1, ')');
        let ghost t = v@.subrange(t0 as int, t1 as int);
        let ghost body = v@.subrange(a as int, b as int);
        assert(t == trim(s@)) by {
            assert(v@.subrange(0, v@.len() as int) =~= s@);
        }
        assert(body == color_body(t));
        let three = match find_char(&v, a, b, ',') {
            None => {
                proof {
                    lemma_split_on_none(body, ',');
                }
                None
            },
            Some(c1) => {
                proof {
                    lemma_split_on_first(body, ',', c1 - a);
                    assert(body.take(c1 - a) =~= v@.subrange(a as int, c1 as int));
                    assert(body.skip(c1 - a + 1) =~= v@.subrange(c1 + 1, b as int));
                }
                let ghost rest1 = v@.subrange(c1 + 1, b as int);
                match find_char(&v, c1 + 1, b, ',') {
                    None => {
                        proof {
                            lemma_split_on_none(rest1, ',');
                        }
                        None
                    },
                    Some(c2) => {
                        proof {
                            lemma_split_on_first(rest1, ',', c2 - c1 - 1);
                            assert(rest1.take(c2 - c1 - 1) =~= v@.subrange(c1 + 1, c2 as int));
                            assert(rest1.skip(c2 - c1) =~= v@.subrange(c2 + 1, b as int));
                        }
                        let ghost rest2 = v@.subrange(c2 + 1, b as int);
                        match find_char(&v, c2 + 1, b, ',') {
                            None => {
                                proof {
                                    lemma_split_on_none(rest2, ',');
                                    assert(split_on(body, ',') =~= seq![
                                        v@.subrange(a as int, c1 as int),
                                        v@.subrange(c1 + 1, c2 as int),
                                        rest2,
                                    ]);
                                }
                                Some((c1, c2))
                            },
                            Some(c3) => {
                                proof {
                                    lemma_split_on_first(rest2, ',', c3 - c2 - 1);
                                    lemma_split_on_nonempty(rest2.skip(c3 - c2), ',');
                                }
                                None
                            },
                        }
                    },
                }
            },
        };
        match three {
            Some((c1, c2)) => {
                let ghost parts = split_on(body, ',');
                let (p0a, p0b) = trim_range(&v, a, c1);
                let (p1a, p1b) = trim_range(&v, c1 + 1, c2);
                let (p2a, p2b) = trim_range(&v, c2 + 1, b);
                let r = parse_u8_range(&v, p0a, p0b);
                if r.is_none() {
                    return Err(component_error_message(s.substring_char(p0a, p0b)));
                }
                let g = parse_u8_range(&v, p1a, p1b);
                if g.is_none() {
                    return Err(component_error_message(s.substring_char(p1a, p1b)));
                }
                let bl = parse_u8_range(&v, p2a, p2b);
                if bl.is_none() {
                    return Err(component_error_message(s.substring_char(p2a, p2b)));
                }
                let c = ParticleColor([r.unwrap(), g.unwrap(), bl.unwrap()]);
                assert(c.0@ =~= seq![r->0, g->0, bl->0]);
                Ok(c)
            },
            None => {
                let text = s.substring_char(t0, t1);
                proof {
                    lemma_trim_idempotent(s@);
                }
                css_fallback(text)
            },
        }
    }
}

/// `a`, a comma, then `b`.
pub open spec fn comma_then(a: Seq<char>, b: Seq<char>) -> Seq<char> {
    a + seq![','] + b
}

/// Splitting `x , rest` where `x` holds no comma.
proof fn lemma_split_first_piece(x: Seq<char>, rest: Seq<char>)
    requires
        forall|i: int| 0 <= i < x.len() ==> x[i] != ',',
    ensures
        split_on(comma_then(x, rest), ',') == seq![x] + split_on(rest, ','),
{
    let s = comma_then(x, rest);
    let i = x.len() as int;
    assert(s[i] == ',');
    assert forall|j: int| 0 <= j < i implies s[j] != ',' by {
        assert(s[j] == x[j]);
    }
    lemma_split_on_first(s, ',', i);
    assert(s.take(i) =~= x);
    assert(s.skip(i + 1) =~= rest);
}

/// Three channels written in decimal and separated by commas, `"R,G,B"`,
/// parse back to those channels.
pub proof fn decimal_channels_parse_back(r: u8, g: u8, b: u8)
    ensures
        parse_particle_color(
            comma_then(comma_then(decimal(r as nat), decimal(g as nat)), decimal(b as nat)),
        ) == Ok::<Seq<u8>, Seq<char>>(seq![r, g, b]),
{
    let dr = decimal(r as nat);
    let dg = decimal(g as nat);
    let db = decimal(b as nat);
    lemma_decimal(r as nat);
    lemma_decimal(g as nat);
    lemma_decimal(b as nat);
    lemma_parse_decimal(r);
    lemma_parse_decimal(g);
    lemma_parse_decimal(b);
    let s = comma_then(comma_then(dr, dg), db);
    assert(s =~= comma_then(dr, comma_then(dg, db)));
    assert(s[0] == dr[0]);
    assert(s.last() == db.last());
    assert(trim_start(s) == s);
    assert(trim_end(s) == s);
    if s.len() >= 4 {
        assert(s.take(4)[0] != rgb_open()[0]);
    }
    if s.len() >= 5 {
        assert(s.take(5)[0] != rgba_open()[0]);
    }
    assert(color_body(s) == s);
    lemma_split_first_piece(dr, comma_then(dg, db));
    lemma_split_first_piece(dg, db);
    lemma_split_on_none(db, ',');
    assert(split_on(s, ',') =~= seq![dr, dg, db]);
}

/// Surrounding whitespace does not change what a particle colour text parses
/// to.
pub proof fn color_ignores_surrounding_whitespace(w1: Seq<char>, s: Seq<char>, w2: Seq<char>)
    requires
        all_whitespace(w1),
        all_whitespace(w2),
    ensures
        parse_particle_color(w1 + s + w2) == parse_particle_color(s),
{
    lemma_trim_ignores_surrounding_whitespace(w1, s, w2);
}

/// `"R,G,B"` in decimal, with whitespace around it, parses back to its
/// channels.
pub proof fn padded_decimal_channels_parse_back(r: u8, g: u8, b: u8, w1: Seq<char>, w2: Seq<char>)
    requires
        all_whitespace(w1),
        all_whitespace(w2),
    ensures
        parse_particle_color(
            w1 + comma_then(comma_then(decimal(r as nat), decimal(g as nat)), decimal(b as nat))
                + w2,
        ) == Ok::<Seq<u8>, Seq<char>>(seq![r, g, b]),
{
    decimal_channels_parse_back(r, g, b);
    color_ignores_surrounding_whitespace(
        w1,
        comma_then(comma_then(decimal(r as nat), decimal(g as nat)), decimal(b as nat)),
        w2,
    );
}

proof fn lemma_no_comma_in_whitespace(w: Seq<char>, d: Seq<char>)
    requires
        all_whitespace(w),
        forall|i: int| 0 <= i < d.len() ==> d[i] != ',',
    ensures
        forall|i: int| 0 <= i < (w + d).len() ==> (w + d)[i] != ',',
{
    assert forall|i: int| 0 <= i < (w + d).len() implies (w + d)[i] != ',' by {
        if i < w.len() {
            assert(crate::text::is_whitespace(w[i]));
        } else {
            assert((w + d)[i] == d[i - w.len()]);
        }
    }
}

/// The `rgb(...)` form, with whitespace allowed after each comma, parses back
/// to the channels it writes: `"rgb(R, G, B)"`.
pub proof fn rgb_form_parses_back(r: u8, g: u8, b: u8, w1: Seq<char>, w2: Seq<char>)
    requires
        all_whitespace(w1),
        all_whitespace(w2),
    ensures
        parse_particle_color(
            rgb_open() + comma_then(
                comma_then(decimal(r as nat), w1 + decimal(g as nat)),
                w2 + decimal(b as nat),
            ) + seq![')'],
        ) == Ok::<Seq<u8>, Seq<char>>(seq![r, g, b]),
{
    let dr = decimal(r as nat);
    let dg = decimal(g as nat);
    let db = decimal(b as nat);
    lemma_decimal(r as nat);
    lemma_decimal(g as nat);
    lemma_decimal(b as nat);
    lemma_parse_decimal(r);
    lemma_parse_decimal(g);
    lemma_parse_decimal(b);
    let body = comma_then(comma_then(dr, w1 + dg), w2 + db);
    let inner = body + seq![')'];
    let s = rgb_open() + inner;
    assert(rgb_open() + body + seq![')'] =~= s);
    assert(s[0] == 'r');
    assert(!crate::text::is_whitespace('r'));
    assert(s.last() == ')');
    assert(!crate::text::is_whitespace(')'));
    assert(trim_start(s) == s);
    assert(trim_end(s) == s);
    assert(s.take(4) =~= rgb_open());
    assert(s.skip(4) =~= inner);
    assert(inner[0] == dr[0]);
    if inner.len() >= 4 {
        assert(inner.take(4)[0] != rgb_open()[0]);
    }
    assert(strip_prefix_all(inner, rgb_open()) == inner);
    assert(strip_prefix_all(s, rgb_open()) == inner);
    if inner.len() >= 5 {
        assert(inner.take(5)[0] != rgba_open()[0]);
    }
    assert(strip_prefix_all(inner, rgba_open()) == inner);
    assert(inner.drop_last() =~= body);
    assert(body.last() == db.last());
    assert(strip_suffix_all(body, ')') == body);
    assert(color_body(s) == body);
    lemma_no_comma_in_whitespace(w1, dg);
    lemma_no_comma_in_whitespace(w2, db);
    assert(comma_then(comma_then(dr, w1 + dg), w2 + db) =~= comma_then(dr, comma_then(w1 + dg, w2 + db)));
    lemma_split_first_piece(dr, comma_then(w1 + dg, w2 + db));
    lemma_split_first_piece(w1 + dg, w2 + db);
    lemma_split_on_none(w2 + db, ',');
    assert(split_on(body, ',') =~= seq![dr, w1 + dg, w2 + db]);
    lemma_trim_ignores_surrounding_whitespace(w1, dg, Seq::<char>::empty());
    lemma_trim_ignores_surrounding_whitespace(w2, db, Seq::<char>::empty());
    assert(w1 + dg + Seq::<char>::empty() =~= w1 + dg);
    assert(w2 + db + Seq::<char>::empty() =~= w2 + db);
    assert(crate::text::all_whitespace(Seq::<char>::empty()));
}

/// Only non-ASCII text is ever refused before the CSS parser: a text whose
/// trimmed form is ASCII and is not three comma-separated channels gets
/// exactly the parser's reading of that trimmed form.
pub proof fn ascii_text_reaches_css_parser(s: Seq<char>)
    requires
        vstd::utf8::is_ascii_chars(trim(s)),
        split_on(color_body(trim(s)), ',').len() != 3,
    ensures
        parse_particle_color(s) == color_from_css(trim(s), css_color_rgba8(trim(s))),
{
    let t = trim(s);
    let open = first_index(t, '(');
    lemma_first_index_bounds(t, '(');
    if open < t.len() && t.len() > 0 && t.last() == ')' {
        let args = t.subrange(open + 1, t.len() - 1);
        assert forall|k: int| 0 <= k < args.len() implies '\0' <= #[trigger] args[k] <= '\u{7f}' by {
            assert(args[k] == t[open + 1 + k]);
        }
    }
    assert(!angle_call_with_non_ascii_arguments(t));
}

/// What is refused before the CSS parser holds a non-ASCII character
/// between its first `(` and its final `)`.
pub proof fn refused_text_has_non_ascii_arguments(t: Seq<char>)
    requires
        angle_call_with_non_ascii_arguments(t),
    ensures
        exists|k: int|
            first_index(t, '(') < k < t.len() - 1 && !('\0' <= #[trigger] t[k] <= '\u{7f}'),
{
    let open = first_index(t, '(');
    lemma_first_index_bounds(t, '(');
    let args = t.subrange(open + 1, t.len() - 1);
    let k = choose|k: int| 0 <= k < args.len() && !('\0' <= #[trigger] args[k] <= '\u{7f}');
    assert(args[k] == t[open + 1 + k]);
}

} // verus!
