//! Primitives of the protocol-buffers wire format, restricted to the field
//! kinds the ledger messages use: unsigned and signed varints, byte strings
//! and embedded messages.

use vstd::prelude::*;

verus! {

/// Wire type of a varint-encoded scalar.
pub const WIRE_VARINT: u8 = 0;

/// Wire type of a length-delimited value.
pub const WIRE_LENGTH_DELIMITED: u8 = 2;

/// Base-128 varint of `value`: seven bits per byte, least significant group
/// first, the high bit set on every byte but the last.
pub open spec fn varint(value: nat) -> Seq<u8>
    decreases value,
{
    if value < 128 {
        seq![value as u8]
    } else {
        seq![(128 + value % 128) as u8] + varint(value / 128)
    }
}

/// The key that introduces a field: its number and wire type in one varint.
pub open spec fn field_key(field: nat, wire_type: nat) -> Seq<u8> {
    varint(field * 8 + wire_type)
}

/// A `uint64` field; the default value zero is left out.
pub open spec fn uint64_field(field: nat, value: nat) -> Seq<u8> {
    if value == 0 {
        Seq::empty()
    } else {
        field_key(field, WIRE_VARINT as nat) + varint(value)
    }
}

/// The 64-bit two's complement of a 32-bit signed value.
pub open spec fn sign_extended(value: int) -> nat {
    if value >= 0 {
        value as nat
    } else {
        (value + 0x1_0000_0000_0000_0000) as nat
    }
}

/// An `int32` or enumeration field: the sign-extended value as a varint.
pub open spec fn int32_field(field: nat, value: int) -> Seq<u8> {
    uint64_field(field, sign_extended(value))
}

/// A `bytes` field; the empty string is left out.
pub open spec fn bytes_field(field: nat, bytes: Seq<u8>) -> Seq<u8> {
    if bytes.len() == 0 {
        Seq::empty()
    } else {
        field_key(field, WIRE_LENGTH_DELIMITED as nat) + varint(bytes.len()) + bytes
    }
}

/// An embedded message that is present: always written, even when empty.
pub open spec fn message_field(field: nat, body: Seq<u8>) -> Seq<u8> {
    field_key(field, WIRE_LENGTH_DELIMITED as nat) + varint(body.len()) + body
}

/// Appends the varint of `value` to `out`.
pub fn put_varint(out: &mut Vec<u8>, value: u64)
    ensures
        final(out)@ == old(out)@ + varint(value as nat),
{
    let mut rest: u64 = value;
    while rest >= 128
        invariant
            old(out)@ + varint(value as nat) == out@ + varint(rest as nat),
        decreases rest,
    {
        let group: u8 = (128 + rest % 128) as u8;
        proof {
            assert(out@.push(group) + varint((rest / 128) as nat) == out@ + varint(rest as nat));
        }
        out.push(group);
        rest = rest / 128;
    }
    out.push(rest as u8);
}

/// Appends `bytes` to `out`.
pub fn put_raw(out: &mut Vec<u8>, bytes: &[u8])
    ensures
        final(out)@ == old(out)@ + bytes@,
{
    let mut i: usize = 0;
    while i < bytes.len()
        invariant
            i <= bytes@.len(),
            out@ == old(out)@ + bytes@.subrange(0, i as int),
        decreases bytes@.len() - i,
    {
        out.push(bytes[i]);
        i = i + 1;
    }
    assert(bytes@.subrange(0, i as int) == bytes@);
}

/// Appends the key of field `field` with wire type `wire_type`.
pub fn put_key(out: &mut Vec<u8>, field: u32, wire_type: u8)
    ensures
        final(out)@ == old(out)@ + field_key(field as nat, wire_type as nat),
{
    put_varint(out, field as u64 * 8 + wire_type as u64);
}

/// Appends a `uint64` field.
pub fn put_uint64(out: &mut Vec<u8>, field: u32, value: u64)
    ensures
        final(out)@ == old(out)@ + uint64_field(field as nat, value as nat),
{
    if value != 0 {
        put_key(out, field, WIRE_VARINT);
        put_varint(out, value);
    }
}

/// Appends an `int32` field.
pub fn put_int32(out: &mut Vec<u8>, field: u32, value: i32)
    ensures
        final(out)@ == old(out)@ + int32_field(field as nat, value as int),
{
    let extended: u64 = if value >= 0 {
        value as u64
    } else {
        u64::MAX - ((-(value as i64 + 1)) as u64)
    };
    put_uint64(out, field, extended);
}

/// Appends a `bytes` field.
pub fn put_bytes(out: &mut Vec<u8>, field: u32, bytes: &[u8])
    ensures
        final(out)@ == old(out)@ + bytes_field(field as nat, bytes@),
{
    if bytes.len() != 0 {
        put_key(out, field, WIRE_LENGTH_DELIMITED);
        put_varint(out, bytes.len() as u64);
        put_raw(out, bytes);
    }
}

/// Appends an embedded message whose encoded body is `body`.
pub fn put_message(out: &mut Vec<u8>, field: u32, body: &[u8])
    ensures
        final(out)@ == old(out)@ + message_field(field as nat, body@),
{
    put_key(out, field, WIRE_LENGTH_DELIMITED);
    put_varint(out, body.len() as u64);
    put_raw(out, body);
}

} // verus!
