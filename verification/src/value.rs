//! Typed values out of the tagged-union container that the query subsystem
//! fills.
//!
//! The caller copies the tag and the payloads out of the container; the
//! functions here check the tag and fall back to a sentinel on a mismatch.
//! A sentinel means "value absent", never a real name or code.

use vstd::prelude::*;

verus! {

/// Tag of a container that holds a 32-bit signed integer.
pub const VT_I4: u16 = 3;

/// Tag of a container that holds a string.
pub const VT_BSTR: u16 = 8;

/// What an integer read yields when the container holds something else.
pub const ABSENT_INTEGER: i32 = -1;

/// A property value as the subsystem returned it: the type tag, and the two
/// payloads this library reads. A payload means something only under its tag.
#[derive(Debug)]
pub struct PropertyValue {
    pub tag: u16,
    pub long: i32,
    pub text: String,
}

/// The string a container stands for: its text under the string tag,
/// `"Unknown"` under any other.
pub open spec fn string_of(value: PropertyValue) -> Seq<char> {
    if value.tag == VT_BSTR {
        value.text@
    } else {
        "Unknown"@
    }
}

/// The integer a container stands for: its payload under the integer tag,
/// [`ABSENT_INTEGER`] under any other.
pub open spec fn integer_of(value: PropertyValue) -> i32 {
    if value.tag == VT_I4 {
        value.long
    } else {
        ABSENT_INTEGER
    }
}

/// Reads a container as a string.
pub fn string_property(value: &PropertyValue) -> (text: String)
    ensures
        text@ == string_of(*value),
{
    if value.tag == VT_BSTR {
        value.text.clone()
    } else {
        "Unknown".to_string()
    }
}

/// Reads a container as a 32-bit signed integer.
pub fn integer_property(value: &PropertyValue) -> (number: i32)
    ensures
        number == integer_of(*value),
{
    if value.tag == VT_I4 {
        value.long
    } else {
        ABSENT_INTEGER
    }
}

/// The number that a packed decimal with a zero scale stands for: the high
/// 32 bits above the low 64.
pub open spec fn decimal_value(hi32: u32, lo64: u64) -> int {
    hi32 * 0x1_0000_0000_0000_0000 + lo64
}

/// Joins the two halves of a 96-bit packed decimal into one integer.
pub fn decimal_to_u128(hi32: u32, lo64: u64) -> (value: u128)
    ensures
        value == decimal_value(hi32, lo64),
{
    let high: u128 = hi32 as u128;
    let low: u128 = lo64 as u128;
    assert(((high << 64) | low) == high * 0x1_0000_0000_0000_0000 + low) by (bit_vector)
        requires
            high < 0x1_0000_0000,
            low < 0x1_0000_0000_0000_0000,
    ;
    (high << 64) | low
}

/// Joins the two halves of a 96-bit packed decimal into one integer. The
/// result does not fit 64 bits in general, whatever the name suggests; the
/// function is [`decimal_to_u128`] under the name it has for callers that
/// read sizes of at most 64 bits.
pub fn decimal_to_u64(hi32: u32, lo64: u64) -> (value: u128)
    ensures
        value == decimal_value(hi32, lo64),
        hi32 == 0 ==> value == lo64,
{
    decimal_to_u128(hi32, lo64)
}

/// Bytes in one megabyte.
pub const MEGABYTE: u128 = 1048576;

/// Whole megabytes in a byte count, and the bytes left over.
pub fn megabytes(bytes: u128) -> (parts: (u128, u128))
    ensures
        parts.0 == bytes / MEGABYTE,
        parts.1 == bytes % MEGABYTE,
        parts.0 * MEGABYTE + parts.1 == bytes,
        parts.1 < MEGABYTE,
{
    let kilobytes: u128 = bytes / 1024;
    let whole: u128 = kilobytes / 1024;
    assert(bytes / 1024 / 1024 == bytes / 1048576) by (bit_vector);
    (whole, bytes % MEGABYTE)
}

} // verus!
