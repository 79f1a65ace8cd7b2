//! Text carried across the operating-system boundary: the kernel takes
//! names and URLs as NUL-terminated UTF-16.

use vstd::prelude::*;
use vstd::utf8::char_is_scalar;

verus! {

broadcast use vstd::string::axiom_spec_iter;

/// The UTF-16 code units of one character: one unit for a scalar in the
/// basic plane, a surrogate pair above it.
pub open spec fn utf16_units(c: char) -> Seq<u16> {
    let u = c as u32;
    if u < 0x10000 {
        seq![u as u16]
    } else {
        seq![
            (0xD800 + (u - 0x10000) / 0x400) as u16,
            (0xDC00 + (u - 0x10000) % 0x400) as u16,
        ]
    }
}

/// The UTF-16 code units of a character sequence.
pub open spec fn utf16_of(text: Seq<char>) -> Seq<u16>
    decreases text.len(),
{
    if text.len() == 0 {
        Seq::empty()
    } else {
        utf16_of(text.drop_last()) + utf16_units(text.last())
    }
}

/// Encodes a string as the kernel expects it: its UTF-16 code units
/// followed by one NUL terminator.
pub fn wide(data: &str) -> (r: Vec<u16>)
    ensures
        r@ == utf16_of(data@).push(0u16),
{
    let mut r: Vec<u16> = Vec::new();
    for c in it: data.chars()
        invariant
            it.seq() == data@,
            r@ == utf16_of(it.seq().take(it.index() as int)),
    {
        let ghost done = it.seq().take(it.index() as int);
        let ghost upto = it.seq().take(it.index() + 1);
        proof {
            char_is_scalar(c);
            assert(upto.drop_last() =~= done);
            assert(upto.last() == c);
            assert(r@ == utf16_of(done));
        }
        let u = c as u32;
        if u < 0x10000 {
            r.push(u as u16);
            proof {
                assert(r@ =~= utf16_of(done) + utf16_units(c));
            }
        } else {
            let v: u32 = u - 0x10000;
            proof {
                assert(v < 0x100000);
                assert(v / 0x400 < 0x400) by (nonlinear_arith)
                    requires
                        v < 0x100000,
                ;
            }
            let hi: u32 = 0xD800 + v / 0x400;
            let lo: u32 = 0xDC00 + v % 0x400;
            r.push(hi as u16);
            r.push(lo as u16);
            proof {
                assert(r@ =~= utf16_of(done) + utf16_units(c));
            }
        }
        proof {
            assert(utf16_of(upto) == utf16_of(done) + utf16_units(c));
        }
    }
    proof {
        assert(data@.take(data@.len() as int) =~= data@);
    }
    r.push(0);
    r
}

} // verus!
