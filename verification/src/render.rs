//! Text renderings of a code.
//!
//! A code whose bytes are valid UTF-8 renders as the text they encode. Any
//! other code renders through an escaping that is defined on every byte, so
//! rendering has no failure path.

use crate::code::FourCC;
use vstd::prelude::*;
use vstd::utf8::decode_utf8;
use vstd::utf8::decode_utf8_encode_utf8;
use vstd::utf8::encode_utf8;
use vstd::utf8::encode_utf8_decode_utf8;
use vstd::utf8::encode_utf8_valid_utf8;
use vstd::utf8::valid_utf8;

verus! {

/// `core::str::Utf8Error`, the error of `core::str::from_utf8`. Nothing is
/// read from it: a failed decoding only selects the escaped rendering.
#[verifier::external_type_specification]
#[verifier::external_body]
pub struct ExUtf8Error(core::str::Utf8Error);

/// `core::str::from_utf8` succeeds exactly on byte sequences that are valid
/// UTF-8, and the text it then returns is the one those bytes encode.
pub assume_specification[ core::str::from_utf8 ](v: &[u8]) -> (res: Result<
    &str,
    core::str::Utf8Error,
>)
    ensures
        res is Ok <==> valid_utf8(v@),
        res is Ok ==> encode_utf8(res->Ok_0@) == v@,
;

/// `core::fmt::Formatter`, the sink that formatting writes into.
#[verifier::external_type_specification]
#[verifier::external_body]
pub struct ExFormatter<'a>(core::fmt::Formatter<'a>);

/// `core::fmt::Error`, the error that a sink reports.
#[verifier::external_type_specification]
#[verifier::external_body]
pub struct ExFmtError(core::fmt::Error);

/// `Formatter::write_str` hands the text to the sink. Nothing is claimed of
/// what the sink then holds, nor of whether it accepts.
pub assume_specification<'a>[ core::fmt::Formatter::<'a>::write_str ](
    f: &mut core::fmt::Formatter<'a>,
    data: &str,
) -> (res: Result<(), core::fmt::Error>)
;

/// `String::push` appends the given character to the end of the string.
pub assume_specification[ String::push ](s: &mut String, ch: char)
    ensures
        final(s)@ == old(s)@.push(ch),
;

/// The lowercase hexadecimal digit for a value below sixteen.
pub open spec fn hex_digit(n: u8) -> char
    recommends
        n < 16,
{
    if n < 10 {
        (0x30 + n) as char
    } else {
        (0x61 + (n - 10)) as char
    }
}

/// The escaped form of one byte. Tab, carriage return, line feed, the two
/// quotes and the backslash become a backslash and one character; the other
/// printable ASCII bytes stand for themselves; every other byte becomes
/// `\x` and two lowercase hexadecimal digits.
pub open spec fn escape_byte(b: u8) -> Seq<char> {
    if b == 0x09 {
        seq!['\\', 't']
    } else if b == 0x0d {
        seq!['\\', 'r']
    } else if b == 0x0a {
        seq!['\\', 'n']
    } else if b == 0x27 {
        seq!['\\', '\'']
    } else if b == 0x22 {
        seq!['\\', '"']
    } else if b == 0x5c {
        seq!['\\', '\\']
    } else if 0x20 <= b <= 0x7e {
        seq![b as char]
    } else {
        seq!['\\', 'x', hex_digit(b / 16), hex_digit(b % 16)]
    }
}

/// The escaped forms of the bytes, one after another.
pub open spec fn escape_bytes(bytes: Seq<u8>) -> Seq<char>
    decreases bytes.len(),
{
    if bytes.len() == 0 {
        Seq::empty()
    } else {
        escape_bytes(bytes.drop_last()) + escape_byte(bytes.last())
    }
}

/// The text that bytes render as: the text they encode where they are valid
/// UTF-8, their escaped form where they are not.
pub open spec fn display_text(bytes: Seq<u8>) -> Seq<char> {
    if valid_utf8(bytes) {
        decode_utf8(bytes)
    } else {
        escape_bytes(bytes)
    }
}

/// The diagnostic rendering: the type's name, then the display text in braces.
pub open spec fn debug_text(bytes: Seq<u8>) -> Seq<char> {
    seq!['F', 'o', 'u', 'r', 'C', 'C', '{'] + display_text(bytes) + seq!['}']
}

/// The character for one hexadecimal digit.
fn hex_digit_char(n: u8) -> (c: char)
    requires
        n < 16,
    ensures
        c == hex_digit(n),
{
    if n < 10 {
        (0x30 + n) as char
    } else {
        (0x61 + (n - 10)) as char
    }
}

/// Appends the escaped form of `b` to `out`.
fn push_escaped(out: &mut String, b: u8)
    ensures
        final(out)@ == old(out)@ + escape_byte(b),
{
    if b == 0x09 {
        out.push('\\');
        out.push('t');
    } else if b == 0x0d {
        out.push('\\');
        out.push('r');
    } else if b == 0x0a {
        out.push('\\');
        out.push('n');
    } else if b == 0x27 {
        out.push('\\');
        out.push('\'');
    } else if b == 0x22 {
        out.push('\\');
        out.push('"');
    } else if b == 0x5c {
        out.push('\\');
        out.push('\\');
    } else if 0x20 <= b && b <= 0x7e {
        out.push(b as char);
    } else {
        out.push('\\');
        out.push('x');
        out.push(hex_digit_char(b / 16));
        out.push(hex_digit_char(b % 16));
    }
    assert(out@ =~= old(out)@ + escape_byte(b));
}

impl FourCC {
    /// The escaped rendering of the four bytes, whatever they are.
    fn escaped(&self) -> (ret: String)
        ensures
            ret@ == escape_bytes(self@),
    {
        let mut out = String::new();
        let mut i: usize = 0;
        while i < 4
            invariant
                i <= 4,
                out@ == escape_bytes(self@.subrange(0, i as int)),
            decreases 4 - i,
        {
            push_escaped(&mut out, self.0[i]);
            proof {
                let next = self@.subrange(0, i + 1);
                assert(next.drop_last() =~= self@.subrange(0, i as int));
                assert(next.last() == self@[i as int]);
            }
            i += 1;
        }
        assert(self@.subrange(0, 4) =~= self@);
        out
    }

    /// Renders the code for display: as the text its bytes encode, or, where
    /// they are not valid UTF-8, in escaped form. Every code has a rendering.
    pub fn to_string(&self) -> (ret: String)
        ensures
            ret@ == display_text(self@),
    {
        match core::str::from_utf8(self.0.as_slice()) {
            Ok(text) => {
                proof {
                    encode_utf8_decode_utf8(text@);
                }
                text.to_owned()
            },
            Err(_) => self.escaped(),
        }
    }

    /// Renders the code for diagnostics: `FourCC{`, the display rendering,
    /// and `}`.
    pub fn to_debug_string(&self) -> (ret: String)
        ensures
            ret@ == debug_text(self@),
    {
        let mut out = String::from_str("FourCC{");
        let body = self.to_string();
        out.append(body.as_str());
        out.append("}");
        proof {
            reveal_strlit("FourCC{");
            reveal_strlit("}");
            assert(out@ =~= debug_text(self@));
        }
        out
    }
}

impl core::fmt::Display for FourCC {
    /// Writes the display rendering.
    fn fmt(&self, f: &mut core::fmt::Formatter<'_>) -> (res: Result<(), core::fmt::Error>) {
        let text = self.to_string();
        f.write_str(text.as_str())
    }
}

impl core::fmt::Debug for FourCC {
    /// Writes the diagnostic rendering.
    fn fmt(&self, f: &mut core::fmt::Formatter<'_>) -> (res: Result<(), core::fmt::Error>) {
        let text = self.to_debug_string();
        f.write_str(text.as_str())
    }
}

/// True of the characters from the space to the tilde.
pub open spec fn is_printable_ascii(c: char) -> bool {
    0x20 <= c as u32 <= 0x7e
}

/// The escaped form of any bytes is made of printable ASCII characters only,
/// between one and four of them for each byte.
pub proof fn lemma_escaped_is_printable(bytes: Seq<u8>)
    ensures
        forall|k: int|
            0 <= k < escape_bytes(bytes).len() ==> is_printable_ascii(
                #[trigger] escape_bytes(bytes)[k],
            ),
        bytes.len() <= escape_bytes(bytes).len() <= 4 * bytes.len(),
    decreases bytes.len(),
{
    if bytes.len() > 0 {
        lemma_escaped_is_printable(bytes.drop_last());
        let b = bytes.last();
        assert(b / 16 < 16 && b % 16 < 16) by (bit_vector);
        assert(forall|k: int|
            0 <= k < escape_byte(b).len() ==> is_printable_ascii(#[trigger] escape_byte(b)[k]));
    }
}

/// A code that is not valid UTF-8 still has a rendering, and it is plain
/// printable ASCII.
pub proof fn lemma_fallback_is_printable(code: FourCC)
    requires
        !valid_utf8(code@),
    ensures
        4 <= display_text(code@).len() <= 16,
        forall|k: int|
            0 <= k < display_text(code@).len() ==> is_printable_ascii(
                #[trigger] display_text(code@)[k],
            ),
{
    lemma_escaped_is_printable(code@);
}

/// A code whose bytes are valid UTF-8 renders without loss: the text it
/// shows encodes to the bytes of the code.
pub proof fn lemma_display_then_parse(code: FourCC)
    requires
        valid_utf8(code@),
    ensures
        encode_utf8(display_text(code@)) == code@,
        encode_utf8(display_text(code@)).len() == 4,
{
    decode_utf8_encode_utf8(code@);
}

/// Reading a text of four bytes as a code and rendering the code gives the
/// text back.
pub proof fn lemma_parse_then_display(text: Seq<char>)
    requires
        encode_utf8(text).len() == 4,
    ensures
        display_text(encode_utf8(text)) == text,
{
    encode_utf8_valid_utf8(text);
    encode_utf8_decode_utf8(text);
}

} // verus!
