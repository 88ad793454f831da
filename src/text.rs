use vstd::prelude::*;
use vstd::std_specs::iter::IteratorSpec;

verus! {

/// Code point of a character.
pub open spec fn code_point(c: char) -> int {
    c as u32 as int
}

/// The UTF-16 code units of one character: one unit below U+10000,
/// a surrogate pair above.
pub open spec fn utf16_of_char(c: char) -> Seq<u16> {
    let v = code_point(c);
    if v < 0x10000 {
        seq![v as u16]
    } else {
        let w = v - 0x10000;
        seq![(0xD800 + w / 0x400) as u16, (0xDC00 + w % 0x400) as u16]
    }
}

/// The UTF-16 code units of a text, character after character.
pub open spec fn utf16_of(s: Seq<char>) -> Seq<u16>
    decreases s.len(),
{
    if s.len() == 0 {
        Seq::empty()
    } else {
        utf16_of(s.drop_last()) + utf16_of_char(s.last())
    }
}

/// The platform's native text: UTF-16 units followed by a terminating zero.
pub open spec fn win_string(s: Seq<char>) -> Seq<u16> {
    utf16_of(s).push(0)
}

fn push_utf16(out: &mut Vec<u16>, c: char)
    ensures
        final(out)@ == old(out)@ + utf16_of_char(c),
{
    let v: u32 = c as u32;
    if v < 0x10000 {
        out.push(v as u16);
    } else {
        assert(v <= 0x10FFFF);
        let w: u32 = v - 0x10000;
        out.push((0xD800 + w / 0x400) as u16);
        out.push((0xDC00 + w % 0x400) as u16);
    }
}

/// Encodes `s` in the platform's native text format.
pub fn to_win_string(s: &str) -> (r: Vec<u16>)
    ensures
        r@ == win_string(s@),
{
    let mut out: Vec<u16> = Vec::new();
    let ghost mut done: Seq<char> = Seq::empty();
    for c in it: s.chars()
        invariant
            it.seq() == s@,
            done == it.seq().take(it.index() as int),
            out@ == utf16_of(done),
    {
        proof {
            assert(done.push(c).drop_last() == done);
        }
        push_utf16(&mut out, c);
        proof {
            done = done.push(c);
        }
    }
    assert(done =~= s@);
    out.push(0);
    out
}

} // verus!
