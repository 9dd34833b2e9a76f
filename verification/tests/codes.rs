use four_cc::FourCC;
use four_cc::FromStrVisitor;
use four_cc::LengthError;
use std::collections::hash_map::DefaultHasher;
use std::collections::HashSet;
use std::hash::Hash;
use std::hash::Hasher;

fn hash_of(code: &FourCC) -> u64 {
    let mut hasher = DefaultHasher::new();
    code.hash(&mut hasher);
    hasher.finish()
}

#[test]
fn eq() {
    assert_eq!(FourCC(*b"uuid"), b"uuid".into());
    assert_ne!(FourCC(*b"uuid"), b"diuu".into());
}

#[test]
fn int_conversions() {
    assert_eq!(0x41424344u32, FourCC(*b"ABCD").into());
    assert_eq!(FourCC(*b"ABCD"), 0x41424344u32.into());
}

#[test]
fn eq_compares_every_byte() {
    let base = FourCC([1, 2, 3, 4]);
    assert!(base == FourCC([1, 2, 3, 4]));
    assert!(base != FourCC([9, 2, 3, 4]));
    assert!(base != FourCC([1, 9, 3, 4]));
    assert!(base != FourCC([1, 2, 9, 4]));
    assert!(base != FourCC([1, 2, 3, 9]));
    assert!(FourCC([0x75, 0x75, 0x69, 0x64]) == FourCC(*b"uuid"));
}

#[test]
fn copy_is_an_equal_value() {
    let a = FourCC(*b"moov");
    let b = a;
    let c = a.clone();
    assert!(a == b);
    assert!(a == c);
    assert_eq!(a.0, *b"moov");
}

#[test]
fn from_u32_is_big_endian() {
    let code = FourCC::from(0x12345678u32);
    assert_eq!(code.0, [0x12, 0x34, 0x56, 0x78]);
    assert_eq!(FourCC::from(0u32).0, [0, 0, 0, 0]);
    assert_eq!(FourCC::from(u32::MAX).0, [0xff, 0xff, 0xff, 0xff]);
    assert_eq!(FourCC::from(0x0000_00ffu32).0, [0, 0, 0, 0xff]);
    assert_eq!(FourCC::from(0xff00_0000u32).0, [0xff, 0, 0, 0]);
}

#[test]
fn to_u32_is_big_endian() {
    assert_eq!(u32::from(FourCC([0x12, 0x34, 0x56, 0x78])), 0x12345678);
    assert_eq!(u32::from(FourCC([0, 0, 0, 0])), 0);
    assert_eq!(u32::from(FourCC([0xff, 0xff, 0xff, 0xff])), u32::MAX);
    assert_eq!(u32::from(FourCC([0x80, 0, 0, 1])), 0x8000_0001);
    assert_eq!(u32::from(FourCC(*b"moov")), 0x6d6f_6f76);
}

#[test]
fn bytes_round_trip_through_u32() {
    let bytes = [0x41u8, 0x42, 0x43, 0x44];
    let val = u32::from(FourCC::from(&bytes));
    assert_eq!(val, 0x41424344);
    assert_eq!(FourCC::from(val).0, bytes);
    for bytes in [[0u8, 0, 0, 0], [0xff, 0, 0xff, 0], [1, 2, 3, 4], [0x80, 0x7f, 0xfe, 0x01]] {
        let code = FourCC(bytes);
        assert!(FourCC::from(u32::from(code)) == code);
    }
}

#[test]
fn u32_round_trips_through_bytes() {
    for val in [0u32, 1, 0xff, 0x100, 0xdead_beef, 0x8000_0000, u32::MAX] {
        assert_eq!(u32::from(FourCC::from(val)), val);
    }
}

#[test]
fn equal_values_hash_equally() {
    let a = FourCC(*b"uuid");
    let b = FourCC::from(&[0x75u8, 0x75, 0x69, 0x64]);
    let c = FourCC::from(0x7575_6964u32);
    assert!(a == b && b == c);
    assert_eq!(hash_of(&a), hash_of(&b));
    assert_eq!(hash_of(&b), hash_of(&c));
    let mut seen = HashSet::new();
    assert!(seen.insert(a));
    assert!(!seen.insert(b));
    assert!(seen.insert(FourCC(*b"diuu")));
    assert_eq!(seen.len(), 2);
}

#[test]
fn display_of_printable_ascii() {
    assert_eq!(FourCC([0x75, 0x75, 0x69, 0x64]).to_string(), "uuid");
    assert_eq!(FourCC(*b"moov").to_string(), "moov");
    assert_eq!(FourCC(*b"a b ").to_string(), "a b ");
}

#[test]
fn debug_wraps_display() {
    assert_eq!(FourCC([0x75, 0x75, 0x69, 0x64]).to_debug_string(), "FourCC{uuid}");
    let code = FourCC(*b"ftyp");
    assert_eq!(code.to_debug_string(), format!("FourCC{{{}}}", code.to_string()));
}

#[test]
fn fallback_escapes_bytes_that_are_not_text() {
    let code = FourCC([0x75, 0xff, 0x69, 0x00]);
    assert_eq!(code.to_string(), "u\\xffi\\x00");
    assert_eq!(code.to_debug_string(), "FourCC{u\\xffi\\x00}");
}

#[test]
fn fallback_uses_short_escapes() {
    assert_eq!(FourCC([0xff, b'\t', b'\n', b'\r']).to_string(), "\\xff\\t\\n\\r");
    assert_eq!(FourCC([0xff, b'\\', b'\'', b'"']).to_string(), "\\xff\\\\\\'\\\"");
}

#[test]
fn fallback_hex_is_lowercase_and_two_digits() {
    assert_eq!(FourCC([0x80, 0x7f, 0x1f, 0x20]).to_string(), "\\x80\\x7f\\x1f ");
    assert_eq!(FourCC([0xab, 0xcd, 0xef, 0x0a]).to_string(), "\\xab\\xcd\\xef\\n");
    assert_eq!(FourCC([0xfe, 0x7e, 0x01, 0x9a]).to_string(), "\\xfe~\\x01\\x9a");
    assert_eq!(FourCC([0xff, 0xff, 0xff, 0xff]).to_string(), "\\xff\\xff\\xff\\xff");
}

#[test]
fn fallback_is_printable_for_every_lead_byte() {
    for b in 0u8..=255 {
        let text = FourCC([0xff, b, 0xff, b]).to_string();
        assert!(text.len() >= 4 && text.len() <= 16);
        assert!(text.bytes().all(|c| (0x20..=0x7e).contains(&c)));
    }
}

#[test]
fn valid_utf8_is_shown_as_it_is() {
    assert_eq!(FourCC([0xc3, 0xa9, 0x41, 0x42]).to_string(), "\u{e9}AB");
    assert_eq!(FourCC([0, 0, 0, 0]).to_string(), "\0\0\0\0");
    assert_eq!(FourCC([b'a', b'\n', b'\\', b'"']).to_string(), "a\n\\\"");
    assert_eq!(FourCC([0xf0, 0x9f, 0x98, 0x80]).to_string(), "\u{1f600}");
    assert_eq!(FourCC([0xf0, 0x9f, 0x98, 0x80]).to_debug_string(), "FourCC{\u{1f600}}");
}

#[test]
fn broken_utf8_falls_back() {
    assert_eq!(FourCC([0xc3, 0x41, 0x42, 0x43]).to_string(), "\\xc3ABC");
    assert_eq!(FourCC([0x41, 0x42, 0x43, 0xc3]).to_string(), "ABC\\xc3");
    assert_eq!(FourCC([0xed, 0xa0, 0x80, 0x41]).to_string(), "\\xed\\xa0\\x80A");
    assert_eq!(FourCC([0xc0, 0x80, 0x41, 0x42]).to_string(), "\\xc0\\x80AB");
}

#[test]
fn from_slice_takes_the_first_four_bytes() {
    let data = b"moofftyp";
    assert!(FourCC::from_slice(&data[..]) == FourCC(*b"moof"));
    assert!(FourCC::from_slice(&data[0..4]) == FourCC(*b"moof"));
    assert!(FourCC::from_slice(&data[4..]) == FourCC(*b"ftyp"));
}

#[test]
fn try_from_slice_takes_the_first_four_bytes() {
    let data = b"moofftyp";
    assert!(FourCC::try_from_slice(&data[..]) == Ok(FourCC(*b"moof")));
    assert!(FourCC::try_from_slice(&data[..4]) == Ok(FourCC(*b"moof")));
}

#[test]
fn try_from_slice_rejects_short_input() {
    assert!(FourCC::try_from_slice(b"abc") == Err(LengthError { len: 3 }));
    assert!(FourCC::try_from_slice(b"") == Err(LengthError { len: 0 }));
    assert!(FourCC::try_from_slice(&[0u8]) == Err(LengthError { len: 1 }));
}

#[test]
fn from_str_reads_four_bytes() {
    assert!(FourCC::from_str("uuid") == Ok(FourCC(*b"uuid")));
    assert!(FourCC::from_str("\u{e9}AB") == Ok(FourCC([0xc3, 0xa9, 0x41, 0x42])));
    assert!(FourCC::from_str("\0\0\0\0") == Ok(FourCC([0, 0, 0, 0])));
}

#[test]
fn from_str_rejects_other_lengths() {
    assert!(FourCC::from_str("abc") == Err(LengthError { len: 3 }));
    assert!(FourCC::from_str("") == Err(LengthError { len: 0 }));
    assert!(FourCC::from_str("moofftyp") == Err(LengthError { len: 8 }));
    assert!(FourCC::from_str("abcde") == Err(LengthError { len: 5 }));
    assert!(FourCC::from_str("\u{e9}\u{e9}\u{e9}\u{e9}") == Err(LengthError { len: 8 }));
    assert_eq!(FourCC::from_str("abc").err(), Some(LengthError { len: 3 }));
}

#[test]
fn text_round_trips() {
    for text in ["uuid", "moov", "a\tb\n", "\u{e9}\u{e9}", "\u{1f600}", "\u{20ac}1", "\\\"'x"] {
        let code = FourCC::from_str(text).unwrap_or(FourCC([0xff; 4]));
        assert_eq!(code.to_string(), text);
        assert_eq!(code.0, text.as_bytes());
    }
}

#[test]
fn visitor_keeps_its_words() {
    let visitor: FromStrVisitor<FourCC> = FromStrVisitor::new("FourCC");
    assert_eq!(visitor.expecting(), "FourCC");
    let other: FromStrVisitor<u32> = FromStrVisitor::new("");
    assert_eq!(other.expecting(), "");
}

#[test]
fn a_code_is_four_bytes_without_padding() {
    assert_eq!(std::mem::size_of::<FourCC>(), 4);
    assert_eq!(std::mem::align_of::<FourCC>(), 1);
}

#[test]
fn debug_formatting_is_the_debug_rendering() {
    assert_eq!(format!("{:?}", FourCC(*b"uuid")), "FourCC{uuid}");
    assert_eq!(format!("{:?}", FourCC(*b"u\xFFi\0")), "FourCC{u\\xffi\\x00}");
    assert_eq!(format!("it's {:?}", &FourCC(*b"moov")), "it's FourCC{moov}");
}

#[test]
fn display_formatting_is_the_display_rendering() {
    assert_eq!(format!("{}", FourCC(*b"uuid")), "uuid");
    assert_eq!(format!("{}", FourCC(*b"u\xFFi\0")), "u\\xffi\\x00");
    assert_eq!(format!("[{}]", FourCC([0xc3, 0xa9, 0x41, 0x42])), "[\u{e9}AB]");
}

#[test]
fn fallback_agrees_with_the_standard_escaping() {
    for b in 0u8..=255 {
        let bytes = [0xff, b, b, 0x80];
        let mut expected = String::new();
        for x in bytes {
            for e in std::ascii::escape_default(x) {
                expected.push(char::from(e));
            }
        }
        assert_eq!(FourCC(bytes).to_string(), expected);
    }
}
