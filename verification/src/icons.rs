//! Icon payloads: a bundled Fluent UI System Icon looked up by name, or
//! raw SVG markup.

use crate::text::white_space;
use vstd::prelude::*;
use vstd::string::StrSliceExecFns;
use vstd::string::StringSliceAdditionalSpecFns;

verus! {

/// The Fluent icon `iconflow` finds under a name (filled style,
/// regular size): its code point and font family, or none.
pub uninterp spec fn fluent_filled_icon(name: Seq<char>) -> Option<(u32, Seq<char>)>;

/// Calls `iconflow::try_icon` for the Fluent UI pack, filled style,
/// regular size. The contract claims only that the result is the
/// pack's entry for that name, as code point and family name; which
/// names the pack holds is not stated.
#[verifier::external_body]
fn lookup_fluent_filled(name: &str) -> (r: Option<(u32, String)>)
    ensures
        match r {
            Some((cp, family)) => fluent_filled_icon(name@) == Some((cp, family@)),
            None => fluent_filled_icon(name@) is None,
        },
{
    iconflow::try_icon(iconflow::Pack::FluentUi, name, iconflow::Style::Filled, iconflow::Size::Regular)
        .ok()
        .map(|icon| (icon.codepoint, icon.family.to_string()))
}

/// A Unicode scalar value: a code point that is not a surrogate.
pub open spec fn scalar_value(u: u32) -> bool {
    u <= 0x10ffff && !(0xd800 <= u && u <= 0xdfff)
}

/// Calls `char::from_u32`, which by its documentation returns the
/// character for every Unicode scalar value and `None` otherwise.
#[verifier::external_body]
fn char_from_u32(u: u32) -> (r: Option<char>)
    ensures
        r is Some <==> scalar_value(u),
        r matches Some(c) ==> c as u32 == u,
{
    char::from_u32(u)
}

/// The glyph [`icon_glyph`] gives for a name: the looked-up code point,
/// when it is a scalar value, and the family.
pub open spec fn glyph_for(name: Seq<char>) -> Option<(u32, Seq<char>)> {
    match fluent_filled_icon(name) {
        Some((cp, family)) => if scalar_value(cp) {
            Some((cp, family))
        } else {
            None
        },
        None => None,
    }
}

/// Look up a filled Fluent UI System Icon as backend-neutral paint
/// data: glyph character plus the named icon font family.
pub fn icon_glyph(name: &str) -> (r: Option<(char, String)>)
    ensures
        match r {
            Some((c, family)) => glyph_for(name@) == Some((c as u32, family@)),
            None => glyph_for(name@) is None,
        },
{
    let (codepoint, family) = match lookup_fluent_filled(name) {
        Some(found) => found,
        None => {
            return None;
        },
    };
    match char_from_u32(codepoint) {
        Some(glyph) => Some((glyph, family)),
        None => None,
    }
}

/// Number of leading white-space characters of `s`.
pub open spec fn leading_space(s: Seq<char>) -> int
    decreases s.len(),
{
    if s.len() > 0 && white_space(s[0]) {
        1 + leading_space(s.drop_first())
    } else {
        0
    }
}

/// `s` with leading white space trimmed (what `str::trim_start` gives).
pub open spec fn trimmed_start(s: Seq<char>) -> Seq<char> {
    s.skip(leading_space(s))
}

/// `s` starts with `prefix`.
pub open spec fn has_prefix(s: Seq<char>, prefix: Seq<char>) -> bool {
    prefix.len() <= s.len() && s.take(prefix.len() as int) == prefix
}

/// `s` reads as SVG markup: after leading white space it opens with
/// `<svg` or `<?xml`.
pub open spec fn svg_markup(s: Seq<char>) -> bool {
    has_prefix(trimmed_start(s), seq!['<', 's', 'v', 'g']) || has_prefix(
        trimmed_start(s),
        seq!['<', '?', 'x', 'm', 'l'],
    )
}

proof fn lemma_leading_space(s: Seq<char>, i: int)
    requires
        0 <= i <= s.len(),
        forall|j: int| 0 <= j < i ==> white_space(#[trigger] s[j]),
        i == s.len() || !white_space(s[i]),
    ensures
        leading_space(s) == i,
    decreases i,
{
    if i > 0 {
        let t = s.drop_first();
        assert forall|j: int| 0 <= j < i - 1 implies white_space(#[trigger] t[j]) by {
            assert(t[j] == s[j + 1]);
        }
        if i - 1 < t.len() {
            assert(t[i - 1] == s[i]);
        }
        lemma_leading_space(t, i - 1);
    }
}

fn prefix_at(s: &str, start: usize, n: usize, prefix: &[char]) -> (r: bool)
    requires
        n == s@.len(),
        start <= n,
    ensures
        r == has_prefix(s@.skip(start as int), prefix@),
{
    let plen = prefix.len();
    if plen > n - start {
        return false;
    }
    let mut k: usize = 0;
    while k < plen
        invariant
            n == s@.len(),
            plen == prefix@.len(),
            start + plen <= n,
            k <= plen,
            forall|j: int| 0 <= j < k ==> s@[start + j] == prefix@[j],
        decreases plen - k,
    {
        if s.get_char(start + k) != prefix[k] {
            proof {
                assert(s@.skip(start as int).take(plen as int)[k as int] == s@[start + k]);
            }
            return false;
        }
        k = k + 1;
    }
    assert(s@.skip(start as int).take(plen as int) =~= prefix@);
    true
}

/// Whether `s` reads as SVG markup.
pub fn is_svg_markup(s: &str) -> (r: bool)
    ensures
        r == svg_markup(s@),
{
    let n = s.unicode_len();
    let mut i: usize = 0;
    while i < n && crate::text::is_white_space(s.get_char(i))
        invariant
            n == s@.len(),
            i <= n,
            forall|j: int| 0 <= j < i ==> white_space(#[trigger] s@[j]),
        decreases n - i,
    {
        i = i + 1;
    }
    proof {
        lemma_leading_space(s@, i as int);
    }
    let svg: [char; 4] = ['<', 's', 'v', 'g'];
    let xml: [char; 5] = ['<', '?', 'x', 'm', 'l'];
    let r = prefix_at(s, i, n, &svg) || prefix_at(s, i, n, &xml);
    proof {
        assert(svg@ =~= seq!['<', 's', 'v', 'g']);
        assert(xml@ =~= seq!['<', '?', 'x', 'm', 'l']);
    }
    r
}

/// Source for a section / widget icon — a bundled Fluent glyph looked
/// up by name, or raw SVG markup.
#[derive(Clone, Copy, Debug)]
pub enum Icon<'a> {
    /// Look up `&str` in the bundled Fluent UI System Icons set.
    Name(&'a str),
    /// Raw SVG markup.
    Svg(&'a str),
}

impl<'a> Icon<'a> {
    /// Any string that looks like SVG markup is an SVG payload;
    /// everything else is a Fluent icon name.
    pub fn from_payload(s: &'a str) -> (icon: Icon<'a>)
        ensures
            icon == (if svg_markup(s@) {
                Icon::Svg(s)
            } else {
                Icon::Name(s)
            }),
    {
        if is_svg_markup(s) {
            Icon::Svg(s)
        } else {
            Icon::Name(s)
        }
    }
}

impl<'a> From<&'a str> for Icon<'a> {
    /// The same reading as [`Icon::from_payload`].
    fn from(s: &'a str) -> (icon: Icon<'a>) {
        Icon::from_payload(s)
    }
}

impl<'a> vstd::std_specs::convert::FromSpecImpl<&'a str> for Icon<'a> {
    open spec fn obeys_from_spec() -> bool {
        true
    }

    open spec fn from_spec(s: &'a str) -> Icon<'a> {
        if svg_markup(s@) {
            Icon::Svg(s)
        } else {
            Icon::Name(s)
        }
    }
}

/// `payload` renders as a Mara icon: SVG markup or a bundled name.
pub open spec fn icon_payload(payload: Seq<char>) -> bool {
    svg_markup(payload) || glyph_for(payload) is Some
}

/// `true` when `payload` can render as a Mara icon: either raw SVG
/// markup or a bundled Fluent UI System Icon name.
pub fn is_icon_payload(payload: &str) -> (r: bool)
    ensures
        r == icon_payload(payload@),
{
    is_svg_markup(payload) || icon_glyph(payload).is_some()
}


/// One step of the djb2 hash: `h * 33 + byte`, wrapping at 64 bits.
pub open spec fn djb2_step(h: u64, byte: u8) -> u64 {
    ((h as int * 33 + byte as int) % 0x1_0000_0000_0000_0000) as u64
}

/// The djb2 hash of `bytes`, starting from 5381.
pub open spec fn djb2(bytes: Seq<u8>) -> u64
    decreases bytes.len(),
{
    if bytes.len() == 0 {
        5381
    } else {
        djb2_step(djb2(bytes.drop_last()), bytes.last())
    }
}

/// A stable hash of SVG markup (djb2 over its UTF-8 bytes), so the same
/// markup always names the same rasterised texture, in every process.
pub fn svg_stable_hash(svg: &str) -> (h: u64)
    ensures
        h == djb2(svg.spec_bytes()),
{
    let bytes = svg.as_bytes_vec();
    let mut h: u64 = 5381;
    let mut i: usize = 0;
    while i < bytes.len()
        invariant
            i <= bytes@.len(),
            bytes@ == svg.spec_bytes(),
            h == djb2(bytes@.take(i as int)),
        decreases bytes@.len() - i,
    {
        proof {
            assert(bytes@.take(i + 1).drop_last() =~= bytes@.take(i as int));
        }
        let next = h.wrapping_mul(33).wrapping_add(bytes[i] as u64);
        proof {
            assert(next == djb2_step(h, bytes@[i as int])) by (nonlinear_arith)
                requires
                    next == ((h as int * 33) % 0x1_0000_0000_0000_0000 + bytes@[i as int] as int)
                        % 0x1_0000_0000_0000_0000,
            {
            }
        }
        h = next;
        i = i + 1;
    }
    proof {
        assert(bytes@.take(bytes@.len() as int) =~= bytes@);
    }
    h
}

} // verus!
