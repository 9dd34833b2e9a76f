//! The code itself, its constructors and its conversions to and from `u32`.

use vstd::prelude::*;
use vstd::std_specs::cmp::PartialEqSpec;
use vstd::std_specs::cmp::PartialEqSpecImpl;
use vstd::std_specs::convert::FromSpecImpl;
use vstd::utf8::encode_utf8;

verus! {

/// A _four-character-code_ value: four raw bytes, in the order given.
#[derive(Clone, Copy, Eq, Hash)]
pub struct FourCC(pub [u8; 4]);

/// The reason a byte sequence or a text was not taken as a code: it holds
/// `len` bytes where exactly four (or, for a byte sequence, at least four)
/// were needed.
#[derive(Clone, Copy, Debug, PartialEq, Eq, Structural)]
pub struct LengthError {
    pub len: usize,
}

impl View for FourCC {
    type V = Seq<u8>;

    open spec fn view(&self) -> Seq<u8> {
        self.0@
    }
}

/// The big-endian integer that four bytes spell: the first byte weighs most.
pub open spec fn be_value(bytes: Seq<u8>) -> int
    recommends
        bytes.len() == 4,
{
    bytes[0] * 0x100_0000 + bytes[1] * 0x1_0000 + bytes[2] * 0x100 + bytes[3]
}

/// The `k`-th byte, counted from the most significant, of a 32-bit integer.
pub open spec fn be_byte(val: u32, k: int) -> u8
    recommends
        0 <= k < 4,
{
    if k == 0 {
        (val / 0x100_0000) as u8
    } else if k == 1 {
        (val / 0x1_0000 % 0x100) as u8
    } else if k == 2 {
        (val / 0x100 % 0x100) as u8
    } else {
        (val % 0x100) as u8
    }
}

impl FourCC {
    /// The code whose bytes are the big-endian bytes of `val`.
    pub open spec fn spec_from_u32(val: u32) -> FourCC {
        FourCC([be_byte(val, 0), be_byte(val, 1), be_byte(val, 2), be_byte(val, 3)])
    }

    /// The 32-bit integer whose big-endian bytes are those of the code.
    pub open spec fn spec_to_u32(self) -> u32 {
        be_value(self@) as u32
    }
}

impl PartialEq for FourCC {
    /// Two codes are equal when all four bytes match, in order.
    fn eq(&self, other: &FourCC) -> (r: bool)
        ensures
            r <==> self@ == other@,
    {
        let same: bool = self.0[0] == other.0[0] && self.0[1] == other.0[1] && self.0[2]
            == other.0[2] && self.0[3] == other.0[3];
        proof {
            if same {
                assert(self@ =~= other@);
            }
        }
        same
    }
}

impl PartialEqSpecImpl for FourCC {
    open spec fn obeys_eq_spec() -> bool {
        true
    }

    open spec fn eq_spec(&self, other: &FourCC) -> bool {
        self@ == other@
    }
}

impl<'a> From<&'a [u8; 4]> for FourCC {
    /// Copies the four bytes as they stand.
    fn from(buf: &'a [u8; 4]) -> (ret: FourCC)
        ensures
            ret@ == buf@,
    {
        FourCC(*buf)
    }
}

impl<'a> FromSpecImpl<&'a [u8; 4]> for FourCC {
    open spec fn obeys_from_spec() -> bool {
        true
    }

    open spec fn from_spec(buf: &'a [u8; 4]) -> FourCC {
        FourCC(*buf)
    }
}

impl From<u32> for FourCC {
    /// Splits `val` into its big-endian bytes: bits 31 to 24 come first.
    fn from(val: u32) -> (ret: FourCC)
        ensures
            ret == FourCC::spec_from_u32(val),
            forall|k: int| 0 <= k < 4 ==> ret@[k] == be_byte(val, k),
    {
        proof {
            lemma_shift_is_be_byte(val);
        }
        FourCC(
            [
                ((val >> 24) & 0xff) as u8,
                ((val >> 16) & 0xff) as u8,
                ((val >> 8) & 0xff) as u8,
                (val & 0xff) as u8,
            ],
        )
    }
}

impl FromSpecImpl<u32> for FourCC {
    open spec fn obeys_from_spec() -> bool {
        true
    }

    open spec fn from_spec(val: u32) -> FourCC {
        FourCC::spec_from_u32(val)
    }
}

impl From<FourCC> for u32 {
    /// Joins the four bytes into one integer: byte 0 becomes bits 31 to 24.
    fn from(val: FourCC) -> (ret: u32)
        ensures
            ret == val.spec_to_u32(),
            ret == be_value(val@),
    {
        let b0: u8 = val.0[0];
        let b1: u8 = val.0[1];
        let b2: u8 = val.0[2];
        let b3: u8 = val.0[3];
        proof {
            lemma_join_is_be_value(b0, b1, b2, b3);
        }
        (((b0 as u32) << 24) & 0xff000000) | (((b1 as u32) << 16) & 0x00ff0000) | (((b2 as u32)
            << 8) & 0x0000ff00) | ((b3 as u32) & 0x000000ff)
    }
}

impl FromSpecImpl<FourCC> for u32 {
    open spec fn obeys_from_spec() -> bool {
        true
    }

    open spec fn from_spec(val: FourCC) -> u32 {
        val.spec_to_u32()
    }
}

impl FourCC {
    /// Takes the first four bytes of `buf`, in order. A shorter `buf` holds no
    /// code, so it is not accepted here: see [`FourCC::try_from_slice`].
    pub fn from_slice(buf: &[u8]) -> (ret: FourCC)
        requires
            buf@.len() >= 4,
        ensures
            ret@ == buf@.subrange(0, 4),
    {
        let ret = FourCC([buf[0], buf[1], buf[2], buf[3]]);
        assert(ret@ =~= buf@.subrange(0, 4));
        ret
    }

    /// Takes the first four bytes of `buf`, or reports its length when it has
    /// fewer than four. Nothing is padded.
    pub fn try_from_slice(buf: &[u8]) -> (ret: Result<FourCC, LengthError>)
        ensures
            buf@.len() >= 4 ==> ret is Ok && ret->Ok_0@ == buf@.subrange(0, 4),
            buf@.len() < 4 ==> ret == Err::<FourCC, LengthError>(LengthError { len: buf.len() }),
    {
        if buf.len() >= 4 {
            Ok(FourCC::from_slice(buf))
        } else {
            Err(LengthError { len: buf.len() })
        }
    }

    /// Reads a text of exactly four bytes as the code with those bytes. A text
    /// of any other length is rejected, with its length in bytes.
    pub fn from_str(s: &str) -> (ret: Result<FourCC, LengthError>)
        ensures
            encode_utf8(s@).len() == 4 ==> ret is Ok && ret->Ok_0@ == encode_utf8(s@),
            encode_utf8(s@).len() != 4 ==> ret == Err::<FourCC, LengthError>(
                LengthError { len: encode_utf8(s@).len() as usize },
            ),
    {
        let bytes = s.as_bytes();
        if bytes.len() == 4 {
            let ret = FourCC::from_slice(bytes);
            assert(bytes@.subrange(0, 4) =~= bytes@);
            Ok(ret)
        } else {
            Err(LengthError { len: bytes.len() })
        }
    }
}

/// Masking a shifted integer picks the same byte as dividing it.
proof fn lemma_shift_is_be_byte(val: u32)
    ensures
        (val >> 24) & 0xff == val / 0x100_0000,
        (val >> 16) & 0xff == val / 0x1_0000 % 0x100,
        (val >> 8) & 0xff == val / 0x100 % 0x100,
        val & 0xff == val % 0x100,
        (val >> 24) & 0xff < 0x100,
        (val >> 16) & 0xff < 0x100,
        (val >> 8) & 0xff < 0x100,
        val & 0xff < 0x100,
{
    assert((val >> 24) & 0xff == val / 0x100_0000) by (bit_vector);
    assert((val >> 16) & 0xff == val / 0x1_0000 % 0x100) by (bit_vector);
    assert((val >> 8) & 0xff == val / 0x100 % 0x100) by (bit_vector);
    assert(val & 0xff == val % 0x100) by (bit_vector);
    assert((val >> 24) & 0xff < 0x100) by (bit_vector);
    assert((val >> 16) & 0xff < 0x100) by (bit_vector);
    assert((val >> 8) & 0xff < 0x100) by (bit_vector);
    assert(val & 0xff < 0x100) by (bit_vector);
}

/// Shifting four bytes into place and joining them with `|` adds them up by
/// their weights.
proof fn lemma_join_is_be_value(b0: u8, b1: u8, b2: u8, b3: u8)
    ensures
        (((b0 as u32) << 24) & 0xff000000) | (((b1 as u32) << 16) & 0x00ff0000) | (((b2 as u32)
            << 8) & 0x0000ff00) | ((b3 as u32) & 0x000000ff) == b0 * 0x100_0000 + b1 * 0x1_0000
            + b2 * 0x100 + b3,
        b0 * 0x100_0000 + b1 * 0x1_0000 + b2 * 0x100 + b3 <= u32::MAX,
{
    assert((((b0 as u32) << 24) & 0xff000000) | (((b1 as u32) << 16) & 0x00ff0000) | (((b2 as u32)
        << 8) & 0x0000ff00) | ((b3 as u32) & 0x000000ff) == b0 * 0x100_0000 + b1 * 0x1_0000 + b2
        * 0x100 + b3) by (bit_vector);
}

/// A code is its four bytes and nothing more: two codes with the same bytes
/// are the same value, so no function of a code can tell them apart.
pub proof fn lemma_equal_iff_same_bytes(a: FourCC, b: FourCC)
    ensures
        a@.len() == 4,
        PartialEqSpec::eq_spec(&a, &b) <==> a == b,
        a == b <==> a@ == b@,
        a == b <==> (forall|k: int| 0 <= k < 4 ==> a@[k] == b@[k]),
{
    if forall|k: int| 0 <= k < 4 ==> a@[k] == b@[k] {
        assert(a@ =~= b@);
    }
    if a@ == b@ {
        assert(a.0 =~= b.0);
    }
}

/// Splitting an integer into a code and joining the code again gives the
/// integer back.
pub proof fn lemma_u32_round_trip(val: u32)
    ensures
        FourCC::spec_from_u32(val).spec_to_u32() == val,
{
    let c = FourCC::spec_from_u32(val);
    assert(c@[0] == be_byte(val, 0) && c@[1] == be_byte(val, 1) && c@[2] == be_byte(val, 2)
        && c@[3] == be_byte(val, 3));
    assert((val / 0x100_0000) * 0x100_0000 + (val / 0x1_0000 % 0x100) * 0x1_0000 + (val / 0x100
        % 0x100) * 0x100 + val % 0x100 == val) by (bit_vector);
    assert(val / 0x100_0000 < 0x100) by (bit_vector);
}

/// Joining a code into an integer and splitting the integer again gives the
/// code back, byte for byte.
pub proof fn lemma_bytes_round_trip(code: FourCC)
    ensures
        FourCC::spec_from_u32(code.spec_to_u32()) == code,
{
    let b0: u8 = code@[0];
    let b1: u8 = code@[1];
    let b2: u8 = code@[2];
    let b3: u8 = code@[3];
    lemma_join_is_be_value(b0, b1, b2, b3);
    let v: u32 = code.spec_to_u32();
    assert(v == b0 * 0x100_0000 + b1 * 0x1_0000 + b2 * 0x100 + b3);
    assert(v / 0x100_0000 == b0 && v / 0x1_0000 % 0x100 == b1 && v / 0x100 % 0x100 == b2 && v
        % 0x100 == b3) by (bit_vector)
        requires
            v == b0 * 0x100_0000 + b1 * 0x1_0000 + b2 * 0x100 + b3,
    ;
    let back = FourCC::spec_from_u32(v);
    assert(back@ =~= code@);
    lemma_equal_iff_same_bytes(back, code);
}

} // verus!
