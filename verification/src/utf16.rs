//! Encoding and decoding between Unicode scalar values and 16-bit wide code
//! units, with surrogate pairs for scalars above the basic plane.

use vstd::prelude::*;
use vstd::slice::slice_index_get;

verus! {

/// `u` is a leading (high) surrogate unit.
pub open spec fn is_high_surrogate(u: u16) -> bool {
    0xD800 <= u && u <= 0xDBFF
}

/// `u` is a trailing (low) surrogate unit.
pub open spec fn is_low_surrogate(u: u16) -> bool {
    0xDC00 <= u && u <= 0xDFFF
}

/// `u` is a surrogate unit of either kind.
pub open spec fn is_surrogate(u: u16) -> bool {
    is_high_surrogate(u) || is_low_surrogate(u)
}

/// The scalar value that a surrogate pair stands for.
pub open spec fn combined_scalar(hi: u16, lo: u16) -> int {
    0x10000 + (hi - 0xD800) * 0x400 + (lo - 0xDC00)
}

/// The wide units that encode one character: one unit below the basic
/// plane's end, a surrogate pair above it.
pub open spec fn encode_wide_char(c: char) -> Seq<u16> {
    if (c as u32) < 0x10000 {
        seq![(c as u32) as u16]
    } else {
        seq![
            (0xD800 + (((c as u32) - 0x10000) / 0x400)) as u16,
            (0xDC00 + (((c as u32) - 0x10000) % 0x400)) as u16,
        ]
    }
}

/// The wide units that encode a character sequence, in order.
pub open spec fn encode_wide(s: Seq<char>) -> Seq<u16>
    decreases s.len(),
{
    if s.len() == 0 {
        Seq::empty()
    } else {
        encode_wide_char(s[0]) + encode_wide(s.subrange(1, s.len() as int))
    }
}

/// Encoding a sequence extended by one character appends that character's
/// units.
pub proof fn lemma_encode_wide_push(s: Seq<char>, c: char)
    ensures
        encode_wide(s.push(c)) == encode_wide(s) + encode_wide_char(c),
    decreases s.len(),
{
    if s.len() == 0 {
        assert(s.push(c).subrange(1, s.push(c).len() as int) =~= Seq::<char>::empty());
        assert(encode_wide(Seq::<char>::empty()) == Seq::<u16>::empty());
        assert(encode_wide(s) == Seq::<u16>::empty());
        assert(encode_wide(s.push(c)) =~= encode_wide(s) + encode_wide_char(c));
    } else {
        let t = s.subrange(1, s.len() as int);
        lemma_encode_wide_push(t, c);
        assert(s.push(c).subrange(1, s.push(c).len() as int) =~= t.push(c));
        assert(encode_wide(s.push(c)) =~= encode_wide(s) + encode_wide_char(c));
    }
}

/// Encode a text slice into wide units, surrogate pairs included.
pub fn encode_utf16(s: &str) -> (r: Vec<u16>)
    ensures
        r@ == encode_wide(s@),
{
    let n = s.unicode_len();
    let mut out: Vec<u16> = Vec::new();
    let mut i: usize = 0;
    while i < n
        invariant
            i <= n,
            n == s@.len(),
            out@ == encode_wide(s@.take(i as int)),
        decreases n - i,
    {
        let c = s.get_char(i);
        let v = c as u32;
        if v < 0x10000 {
            out.push(v as u16);
        } else {
            let off = v - 0x10000;
            out.push((0xD800 + off / 0x400) as u16);
            out.push((0xDC00 + off % 0x400) as u16);
        }
        proof {
            lemma_encode_wide_push(s@.take(i as int), s@[i as int]);
            assert(s@.take(i + 1 as int) =~= s@.take(i as int).push(s@[i as int]));
        }
        i = i + 1;
    }
    proof {
        assert(s@.take(n as int) =~= s@);
    }
    out
}

/// An error of wide-unit decoding: a surrogate unit without its partner.
#[derive(Clone, Copy, PartialEq, Eq, Structural, Debug)]
pub struct DecodeUtf16Error {
    code: u16,
}

impl DecodeUtf16Error {
    /// The unit that had no partner.
    pub closed spec fn spec_unpaired_surrogate(&self) -> u16 {
        self.code
    }

    /// The unit that had no partner.
    pub fn unpaired_surrogate(&self) -> (u: u16)
        ensures
            u == self.spec_unpaired_surrogate(),
    {
        self.code
    }
}

/// What one decode step at position `i` of `s` yields: the scalar value of
/// the decoded character, or the unpaired surrogate unit.
pub open spec fn decoded_at(s: Seq<u16>, i: int) -> Result<int, u16> {
    let u = s[i];
    if !is_surrogate(u) {
        Ok(u as int)
    } else if is_high_surrogate(u) && i + 1 < s.len() && is_low_surrogate(s[i + 1]) {
        Ok(combined_scalar(u, s[i + 1]))
    } else {
        Err(u)
    }
}

/// How many units one decode step at position `i` of `s` consumes.
pub open spec fn decode_width(s: Seq<u16>, i: int) -> int {
    if is_high_surrogate(s[i]) && i + 1 < s.len() && is_low_surrogate(s[i + 1]) {
        2
    } else {
        1
    }
}

/// Relies on `char::from_u32` of core: it returns `Some` exactly for the
/// valid Unicode scalar values (below the surrogate block, or between its
/// end and the last code point), and the returned character has the given
/// value.
pub assume_specification[ char::from_u32 ](v: u32) -> (r: Option<char>)
    ensures
        (v < 0xD800 || (0xE000 <= v && v <= 0x10FFFF)) <==> (r matches Some(_)),
        r matches Some(c) ==> c as u32 == v,
;

/// A lazy, restartable decoder over borrowed wide units: one decode result
/// per logical character.  A decode failure is reported per element and is
/// not fatal to the whole sequence.
#[derive(Clone, Copy)]
pub struct WideChars<'a> {
    units: &'a [u16],
    pos: usize,
}

impl<'a> WideChars<'a> {
    /// The units being decoded.
    pub closed spec fn spec_units(&self) -> Seq<u16> {
        self.units@
    }

    /// The position of the next unit to decode.
    pub closed spec fn spec_pos(&self) -> int {
        self.pos as int
    }

    /// The decoder never stands past the end of its units.
    pub open spec fn wf(&self) -> bool {
        0 <= self.spec_pos() <= self.spec_units().len()
    }

    /// Start a decoder at the first unit.
    pub fn new(units: &'a [u16]) -> (it: WideChars<'a>)
        ensures
            it.wf(),
            it.spec_units() == units@,
            it.spec_pos() == 0,
    {
        WideChars { units, pos: 0 }
    }

    /// Decode the next character, or report its unpaired surrogate unit;
    /// `None` once all units are consumed.
    pub fn next(&mut self) -> (r: Option<Result<char, DecodeUtf16Error>>)
        requires
            old(self).wf(),
        ensures
            final(self).wf(),
            final(self).spec_units() == old(self).spec_units(),
            ({
                let s = old(self).spec_units();
                let i = old(self).spec_pos();
                match r {
                    None => i == s.len() && final(self).spec_pos() == i,
                    Some(res) => {
                        &&& i < s.len()
                        &&& final(self).spec_pos() == i + decode_width(s, i)
                        &&& match (res, decoded_at(s, i)) {
                            (Ok(c), Ok(v)) => c as u32 == v,
                            (Err(e), Err(u)) => e.spec_unpaired_surrogate() == u,
                            _ => false,
                        }
                    },
                }
            }),
    {
        if self.pos >= self.units.len() {
            return None;
        }
        let u = *slice_index_get(self.units, self.pos);
        if u < 0xD800 || u >= 0xE000 {
            self.pos = self.pos + 1;
            let c = char::from_u32(u as u32);
            match c {
                Some(c) => Some(Ok(c)),
                None => {
                    proof {
                        assert(false);
                    }
                    None
                },
            }
        } else if u < 0xDC00 {
            // A high surrogate: pairs with a following low surrogate.
            if self.pos + 1 < self.units.len() {
                let lo = *slice_index_get(self.units, self.pos + 1);
                if 0xDC00 <= lo && lo < 0xE000 {
                    self.pos = self.pos + 2;
                    let v: u32 = 0x10000 + ((u as u32) - 0xD800) * 0x400 + ((lo as u32) - 0xDC00);
                    let c = char::from_u32(v);
                    match c {
                        Some(c) => Some(Ok(c)),
                        None => {
                            proof {
                                assert(false);
                            }
                            None
                        },
                    }
                } else {
                    self.pos = self.pos + 1;
                    Some(Err(DecodeUtf16Error { code: u }))
                }
            } else {
                self.pos = self.pos + 1;
                Some(Err(DecodeUtf16Error { code: u }))
            }
        } else {
            // A low surrogate with no leading high surrogate.
            self.pos = self.pos + 1;
            Some(Err(DecodeUtf16Error { code: u }))
        }
    }

    /// Restart the decoder at the first unit.
    pub fn restart(&mut self)
        ensures
            final(self).wf(),
            final(self).spec_units() == old(self).spec_units(),
            final(self).spec_pos() == 0,
    {
        self.pos = 0;
    }
}

} // verus!
