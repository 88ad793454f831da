use crate::text::code_point;
use font8x8::UnicodeFonts;
use vstd::prelude::*;

verus! {

/// The rows of the 8×8 glyph that font8x8's basic table holds for `c`.
pub uninterp spec fn basic_glyph(c: char) -> Seq<u8>;

/// Relies on font8x8's `BASIC_FONTS.get`: its table holds a glyph of eight
/// rows for each of the 128 characters U+0000 to U+007F and for no other.
#[verifier::external_body]
fn lookup_glyph(c: char) -> (r: Option<[u8; 8]>)
    ensures
        r is Some <==> code_point(c) < 128,
        r is Some ==> r->0@ == basic_glyph(c),
{
    font8x8::BASIC_FONTS.get(c)
}

/// The all-zero 8×8 bitmap.
pub open spec fn blank_icon() -> Seq<u8> {
    Seq::new(8, |i: int| 0u8)
}

/// The bitmap that a glyph lookup result stands for: the glyph itself, or
/// the blank bitmap on a miss.
pub open spec fn icon_of_glyph(glyph: Option<Seq<u8>>) -> Seq<u8> {
    match glyph {
        Some(rows) => rows,
        None => blank_icon(),
    }
}

/// What the glyph rasterizer gives for `c`.
pub open spec fn glyph_of(c: char) -> Option<Seq<u8>> {
    if code_point(c) < 128 {
        Some(basic_glyph(c))
    } else {
        None
    }
}

/// The icon of a session named `name`: the glyph of its first character, or
/// the blank bitmap when the name is empty or that character has no glyph.
pub open spec fn icon_of(name: Seq<char>) -> Seq<u8> {
    if name.len() == 0 {
        blank_icon()
    } else {
        icon_of_glyph(glyph_of(name[0]))
    }
}

/// Turns a glyph lookup result into the icon bitmap.
pub fn icon_from_glyph(glyph: Option<[u8; 8]>) -> (r: [u8; 8])
    ensures
        r@ == icon_of_glyph(
            match glyph {
                Some(rows) => Some(rows@),
                None => None,
            },
        ),
{
    match glyph {
        Some(rows) => rows,
        None => {
            let blank: [u8; 8] = [0, 0, 0, 0, 0, 0, 0, 0];
            assert(blank@ =~= blank_icon());
            blank
        },
    }
}

/// Derives the tray icon from the first character of `name`.
pub fn provision(name: &str) -> (r: [u8; 8])
    ensures
        r@ == icon_of(name@),
{
    let mut chars = name.chars();
    match chars.next() {
        Some(c) => icon_from_glyph(lookup_glyph(c)),
        None => icon_from_glyph(None),
    }
}

} // verus!
