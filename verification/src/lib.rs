//! A compact value type for _four-character codes_: the four-byte tags that
//! binary container and media formats use to name the type of a record.
//!
//! A [`FourCC`] is exactly four raw bytes. Byte 0 is the most significant
//! byte when the code is read as a big-endian 32-bit integer. The bytes are
//! unconstrained: they need not be printable, nor valid UTF-8, and a zero
//! byte is as good as any other.
//!
//! A code is made from a four-byte array, from the first four bytes of a
//! slice, from a `u32`, or from a text of four bytes. It converts back to a
//! `u32`, compares byte by byte, and renders as text: as the text its bytes
//! encode where they are valid UTF-8, and otherwise in an escaped form that
//! exists for every byte pattern, so that formatting a code cannot fail.
//!
//! Every executable function carries a contract over the mathematical view of
//! a code, a `Seq<u8>` of length four. The modules also state, as proof
//! functions, the laws that tie the operations together: the conversions to
//! and from `u32` undo each other, equal codes are the same value, and a text
//! that was read as a code renders as that text again.

pub mod code;
pub mod render;
pub mod visitor;

pub use code::FourCC;
pub use code::LengthError;
pub use visitor::FromStrVisitor;
