//! Text encoding: converting ordinary Unicode strings into the printer's
//! single-byte character set, and back.
//!
//! Encoding is total over the characters the set covers and fails on the
//! first character outside it, reporting that character and its byte offset
//! within the original text.  A [`PrinterString`] is only ever built from
//! characters that passed this translation.
use vstd::prelude::*;

use crate::codepage::char_from_code;
use crate::codepage::char_of_code;
use crate::codepage::code_from_char;
use crate::codepage::code_of_char;
use crate::error::TextError;
use vstd::string::StrSliceExecFns;
use vstd::utf8::encode_scalar;
use vstd::utf8::encode_utf8;

verus! {

/// True when every character of `s` has a code in the printer's set.
pub open spec fn encodable(s: Seq<char>) -> bool {
    forall|i: int| 0 <= i < s.len() ==> code_of_char(s[i]) is Some
}

/// The single-byte encoding of a fully representable character sequence.
pub open spec fn encoded_codes(s: Seq<char>) -> Seq<u8>
    recommends
        encodable(s),
{
    Seq::new(s.len(), |i: int| code_of_char(s[i])->Some_0)
}

/// The characters a sequence of codes stands for.
pub open spec fn decoded_chars(codes: Seq<u8>) -> Seq<char> {
    codes.map_values(|b: u8| char_of_code(b))
}

/// Character index of the first character of `s` without a code; the length
/// when every character has one.
pub open spec fn first_unmappable(s: Seq<char>) -> int
    decreases s.len(),
{
    if s.len() == 0 {
        0
    } else if code_of_char(s[0]) is None {
        0
    } else {
        1 + first_unmappable(s.drop_first())
    }
}

/// Byte offset at which character index `i` starts within the UTF-8 form of
/// `s`.
pub open spec fn byte_offset_of(s: Seq<char>, i: int) -> int {
    encode_utf8(s.subrange(0, i)).len() as int
}

/// An encoding failure reports the first character without a code, and the
/// byte offset at which it sits in the original text.
pub open spec fn reports_first_unmappable(s: Seq<char>, e: TextError) -> bool {
    &&& e matches TextError::Cp437 { character, position }
    &&& character == s[first_unmappable(s)]
    &&& position == byte_offset_of(s, first_unmappable(s))
}

/// `first_unmappable` names exactly the index whose character has no code
/// while every earlier character has one.
proof fn lemma_first_unmappable_is(s: Seq<char>, i: int)
    requires
        0 <= i < s.len(),
        code_of_char(s[i]) is None,
        forall|j: int| 0 <= j < i ==> code_of_char(s[j]) is Some,
    ensures
        first_unmappable(s) == i,
    decreases i,
{
    if i > 0 {
        lemma_first_unmappable_is(s.drop_first(), i - 1);
    }
}

/// UTF-8 encoding distributes over concatenation of character sequences.
proof fn lemma_encode_utf8_concat(a: Seq<char>, b: Seq<char>)
    ensures
        encode_utf8(a + b) == encode_utf8(a) + encode_utf8(b),
    decreases a.len(),
{
    if a.len() == 0 {
        assert(a + b =~= b);
        assert(encode_utf8(a) + encode_utf8(b) =~= encode_utf8(b));
    } else {
        assert((a + b).drop_first() =~= a.drop_first() + b);
        lemma_encode_utf8_concat(a.drop_first(), b);
        assert((encode_scalar(a[0] as u32) + encode_utf8(a.drop_first())) + encode_utf8(b) =~= (
        encode_scalar(a[0] as u32) + (encode_utf8(a.drop_first()) + encode_utf8(b))));
    }
}

/// Stepping one character forward advances the byte offset by that
/// character's encoded width.
proof fn lemma_byte_offset_step(s: Seq<char>, i: int)
    requires
        0 <= i < s.len(),
    ensures
        byte_offset_of(s, i + 1) == byte_offset_of(s, i) + encode_scalar(s[i] as u32).len(),
{
    assert(s.subrange(0, i + 1) =~= s.subrange(0, i) + seq![s[i]]);
    lemma_encode_utf8_concat(s.subrange(0, i), seq![s[i]]);
    assert(seq![s[i]].drop_first() =~= Seq::<char>::empty());
    assert(encode_scalar(s[i] as u32) + encode_utf8(Seq::<char>::empty()) =~= encode_scalar(
        s[i] as u32,
    ));
}

/// No prefix boundary sits past the end of the encoded text.
proof fn lemma_byte_offset_bound(s: Seq<char>, i: int)
    requires
        0 <= i <= s.len(),
    ensures
        byte_offset_of(s, i) <= encode_utf8(s).len(),
{
    assert(s =~= s.subrange(0, i) + s.subrange(i, s.len() as int));
    lemma_encode_utf8_concat(s.subrange(0, i), s.subrange(i, s.len() as int));
}

/// Number of bytes the UTF-8 form of `c` occupies.
fn char_utf8_width(c: char) -> (w: usize)
    ensures
        w == encode_scalar(c as u32).len(),
{
    let u = c as u32;
    if u < 0x80 {
        1
    } else if u < 0x800 {
        2
    } else if u < 0x10000 {
        3
    } else {
        4
    }
}

/// Relies on `String::push` of std: appends the given character to the end
/// of the string.
pub assume_specification [ String::push ](s: &mut String, ch: char)
    ensures
        final(s)@ == old(s)@.push(ch),
;

/// A single character of printer text, held as its code in the character
/// set.
#[derive(Clone, Copy, Debug)]
pub struct PrinterChar(u8);

impl View for PrinterChar {
    type V = u8;

    closed spec fn view(&self) -> u8 {
        self.0
    }
}

impl PrinterChar {
    /// The character this code stands for.
    pub fn to_char(&self) -> (c: char)
        ensures
            c == char_of_code(self@),
    {
        char_from_code(self.0)
    }

    /// The printer character for `c`, `None` when `c` is outside the set.
    pub fn from_char(c: char) -> (r: Option<PrinterChar>)
        ensures
            r is Some <==> code_of_char(c) is Some,
            r matches Some(pc) ==> Some(pc@) == code_of_char(c),
    {
        match code_from_char(c) {
            Some(code) => Some(PrinterChar(code)),
            None => None,
        }
    }
}

/// Validated printer text: a sequence of codes, each one backed by the
/// character set, produced only by encoding.
#[derive(Debug)]
pub struct PrinterString(Vec<PrinterChar>);

impl View for PrinterString {
    type V = Seq<u8>;

    closed spec fn view(&self) -> Seq<u8> {
        self.0@.map_values(|pc: PrinterChar| pc@)
    }
}

/// Converts ordinary strings into printer text.
pub struct TextEncoder;

impl TextEncoder {
    /// Encode `text` into printer codes; fails at the first character with
    /// no code, reporting that character and its byte offset in `text`.
    pub fn encode(text: &str) -> (r: Result<PrinterString, TextError>)
        ensures
            r is Ok <==> encodable(text@),
            r matches Ok(p) ==> p@ == encoded_codes(text@),
            r matches Err(e) ==> reports_first_unmappable(text@, e),
    {
        let text_bytes = text.as_bytes();
        let total_bytes = text_bytes.len();
        let n = text.unicode_len();
        let mut codes: Vec<PrinterChar> = Vec::new();
        let mut byte_pos: usize = 0;
        let mut k: usize = 0;
        while k < n
            invariant
                n == text@.len(),
                total_bytes == encode_utf8(text@).len(),
                k <= n,
                codes@.len() == k,
                forall|i: int| 0 <= i < k ==> code_of_char(text@[i]) is Some,
                forall|i: int| 0 <= i < k ==> codes@[i]@ == code_of_char(text@[i])->Some_0,
                byte_pos == byte_offset_of(text@, k as int),
            decreases n - k,
        {
            let c = text.get_char(k);
            match code_from_char(c) {
                Some(code) => {
                    codes.push(PrinterChar(code));
                },
                None => {
                    proof {
                        lemma_first_unmappable_is(text@, k as int);
                    }
                    return Err(TextError::Cp437 { character: c, position: byte_pos });
                },
            }
            let w = char_utf8_width(c);
            proof {
                lemma_byte_offset_step(text@, k as int);
                lemma_byte_offset_bound(text@, k as int + 1);
            }
            byte_pos = byte_pos + w;
            k = k + 1;
        }
        proof {
            assert(codes@.map_values(|pc: PrinterChar| pc@) =~= encoded_codes(text@));
        }
        Ok(PrinterString(codes))
    }
}

impl PrinterString {
    /// Encode `s`, `None` when some character of `s` is outside the set.
    pub fn from_str(s: &str) -> (r: Option<PrinterString>)
        ensures
            r is Some <==> encodable(s@),
            r matches Some(p) ==> p@ == encoded_codes(s@),
    {
        match TextEncoder::encode(s) {
            Ok(p) => Some(p),
            Err(_) => None,
        }
    }

    /// Decode back to an ordinary string.
    pub fn to_string(&self) -> (s: String)
        ensures
            s@ == decoded_chars(self@),
    {
        let mut s = String::new();
        let mut k: usize = 0;
        while k < self.0.len()
            invariant
                k <= self.0.len(),
                s@.len() == k,
                forall|i: int| 0 <= i < k ==> s@[i] == char_of_code(self@[i]),
            decreases self.0.len() - k,
        {
            let c = self.0[k].to_char();
            s.push(c);
            k = k + 1;
        }
        proof {
            assert(s@ =~= decoded_chars(self@));
        }
        s
    }

    /// The raw code bytes, in order.
    pub fn bytes(&self) -> (v: Vec<u8>)
        ensures
            v@ == self@,
    {
        let mut v: Vec<u8> = Vec::new();
        let mut k: usize = 0;
        while k < self.0.len()
            invariant
                k <= self.0.len(),
                v@.len() == k,
                forall|i: int| 0 <= i < k ==> v@[i] == self@[i],
            decreases self.0.len() - k,
        {
            v.push(self.0[k].0);
            k = k + 1;
        }
        proof {
            assert(v@ =~= self@);
        }
        v
    }
}

} // verus!
