//! Text as the system takes it: units of 16 bits with a zero at the end.

use crate::text::chars_of;
use vstd::prelude::*;

verus! {

/// The units of 16 bits that write one character in UTF-16: the character
/// itself where it fits one unit, and else the two surrogates that share the
/// twenty bits of its code point less 0x1_0000.
pub open spec fn units_of(c: char) -> Seq<u16> {
    let n: int = c as int;
    if n < 0x1_0000 {
        seq![n as u16]
    } else {
        seq![(0xD800 + (n - 0x1_0000) / 0x400) as u16, (0xDC00 + (n - 0x1_0000) % 0x400) as u16]
    }
}

/// The units of 16 bits that write a text in UTF-16.
pub open spec fn utf16_of(s: Seq<char>) -> Seq<u16>
    decreases s.len(),
{
    if s.len() == 0 {
        Seq::empty()
    } else {
        utf16_of(s.drop_last()) + units_of(s.last())
    }
}

/// Writes one character in UTF-16 at the end of `wide`.
pub fn push_units(wide: &mut Vec<u16>, c: char)
    ensures
        final(wide)@ == old(wide)@ + units_of(c),
{
    let n: u32 = c as u32;
    if n < 0x1_0000 {
        wide.push(n as u16);
    } else {
        let rest: u32 = n - 0x1_0000;
        wide.push((0xD800 + rest / 0x400) as u16);
        wide.push((0xDC00 + rest % 0x400) as u16);
    }
    assert(wide@ =~= old(wide)@ + units_of(c));
}

/// A text as the system takes it: in UTF-16, with a zero at its end.
pub fn to_wide(s: &str) -> (wide: Vec<u16>)
    ensures
        wide@ == utf16_of(s@).push(0),
{
    let chars = chars_of(s);
    let mut wide: Vec<u16> = Vec::new();
    let mut i: usize = 0;
    assert(chars@.take(0) =~= Seq::<char>::empty());
    while i < chars.len()
        invariant
            i <= chars.len(),
            wide@ == utf16_of(chars@.take(i as int)),
        decreases chars.len() - i,
    {
        proof {
            assert(chars@.take(i + 1).drop_last() =~= chars@.take(i as int));
            assert(chars@.take(i + 1).last() == chars@[i as int]);
        }
        push_units(&mut wide, chars[i]);
        i += 1;
    }
    assert(chars@.take(i as int) =~= chars@);
    wide.push(0);
    wide
}

} // verus!
