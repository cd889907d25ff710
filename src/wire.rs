//! Protocol-buffer field encoding of the configuration record.
use vstd::prelude::*;
use vstd::utf8::encode_utf8;

verus! {

/// The largest field number that the wire format allows.
pub const MAX_TAG: u32 = 0x1fff_ffff;

/// Wire type of a varint-encoded field.
pub const WIRE_VARINT: u32 = 0;

/// Wire type of a length-delimited field.
pub const WIRE_LEN: u32 = 2;

/// LEB128 encoding of `v`: seven bits per byte, low bits first, the high bit
/// set on every byte but the last.
pub open spec fn varint_bytes(v: nat) -> Seq<u8>
    decreases v,
{
    if v < 128 {
        seq![v as u8]
    } else {
        seq![((v % 128) + 128) as u8] + varint_bytes(v / 128)
    }
}

/// The key of a field: its number and wire type packed into one varint.
pub open spec fn key_bytes(tag: nat, wire_type: nat) -> Seq<u8> {
    varint_bytes(tag * 8 + wire_type)
}

/// A signed 32-bit value as it is written on the wire: sign-extended to 64 bits.
pub open spec fn int32_wire_value(v: int) -> nat {
    if v >= 0 {
        v as nat
    } else {
        (v + 0x1_0000_0000_0000_0000) as nat
    }
}

/// An `int32` (or enumeration) field.
pub open spec fn int32_field(tag: nat, v: int) -> Seq<u8> {
    key_bytes(tag, WIRE_VARINT as nat) + varint_bytes(int32_wire_value(v))
}

/// A `bool` field.
pub open spec fn bool_field(tag: nat, b: bool) -> Seq<u8> {
    key_bytes(tag, WIRE_VARINT as nat) + varint_bytes(if b { 1 } else { 0 })
}

/// A `string` field: key, byte length, then the UTF-8 bytes.
pub open spec fn string_field(tag: nat, s: Seq<char>) -> Seq<u8> {
    key_bytes(tag, WIRE_LEN as nat) + varint_bytes(encode_utf8(s).len()) + encode_utf8(s)
}

/// Relies on prost::encoding::int32::encode: it appends the field key and the
/// value, sign-extended to 64 bits, as varints.
#[verifier::external_body]
pub(crate) fn put_int32_field(tag: u32, value: i32, buf: &mut Vec<u8>)
    requires
        1 <= tag <= MAX_TAG,
    ensures
        final(buf)@ == old(buf)@ + int32_field(tag as nat, value as int),
{
    prost::encoding::int32::encode(tag, &value, buf)
}

/// Relies on prost::encoding::bool::encode: it appends the field key and the
/// value as a varint 0 or 1.
#[verifier::external_body]
pub(crate) fn put_bool_field(tag: u32, value: bool, buf: &mut Vec<u8>)
    requires
        1 <= tag <= MAX_TAG,
    ensures
        final(buf)@ == old(buf)@ + bool_field(tag as nat, value),
{
    prost::encoding::bool::encode(tag, &value, buf)
}

/// Relies on prost::encoding::string::encode: it appends the field key, the
/// byte length as a varint, and the string's UTF-8 bytes.
#[verifier::external_body]
pub(crate) fn put_string_field(tag: u32, value: &String, buf: &mut Vec<u8>)
    requires
        1 <= tag <= MAX_TAG,
    ensures
        final(buf)@ == old(buf)@ + string_field(tag as nat, value@),
{
    prost::encoding::string::encode(tag, value, buf)
}

} // verus!
