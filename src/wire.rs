//! The protobuf wire format, as far as the ticket messages use it.

use vstd::prelude::*;

verus! {

/// The base-128 varint form of `v`, least significant group first.
pub open spec fn varint(v: nat) -> Seq<u8>
    decreases v,
{
    if v < 128 {
        seq![v as u8]
    } else {
        seq![((v % 128) + 128) as u8] + varint(v / 128)
    }
}

/// The key that opens a field: its number and its wire type.
pub open spec fn field_key(field: nat, wire_type: nat) -> Seq<u8> {
    varint(field * 8 + wire_type)
}

/// A length-delimited field, written whatever its contents.
pub open spec fn len_delimited(field: nat, data: Seq<u8>) -> Seq<u8> {
    field_key(field, 2) + varint(data.len()) + data
}

/// A `bytes` or `string` field: left out when empty.
pub open spec fn bytes_field(field: nat, data: Seq<u8>) -> Seq<u8> {
    if data.len() == 0 {
        Seq::empty()
    } else {
        len_delimited(field, data)
    }
}

/// An integer field given as its 64-bit varint value: left out when zero.
pub open spec fn varint_field(field: nat, v: nat) -> Seq<u8> {
    if v == 0 {
        Seq::empty()
    } else {
        field_key(field, 0) + varint(v)
    }
}

/// An embedded message field: written when present, even if empty.
pub open spec fn message_field(field: nat, m: Option<Seq<u8>>) -> Seq<u8> {
    match m {
        Some(data) => len_delimited(field, data),
        None => Seq::empty(),
    }
}

/// The 64-bit two's complement value of a signed integer, as `int64`
/// and `int32` fields carry it.
pub open spec fn twos_complement(v: int) -> nat {
    if v >= 0 {
        v as nat
    } else {
        (v + 0x1_0000_0000_0000_0000) as nat
    }
}

/// The largest field number the format allows.
pub const MAX_FIELD: u64 = 0x1FFF_FFFF;

/// Relies on prost::encoding::encode_varint: it appends the varint form of
/// `value` to the buffer.
#[verifier::external_body]
fn put_varint(buf: &mut Vec<u8>, value: u64)
    ensures
        final(buf)@ == old(buf)@ + varint(value as nat),
{
    prost::encoding::encode_varint(value, buf)
}

/// Appends `data` to `buf`.
pub fn put_bytes(buf: &mut Vec<u8>, data: &[u8])
    ensures
        final(buf)@ == old(buf)@ + data@,
{
    let ghost start = buf@;
    let mut i: usize = 0;
    while i < data.len()
        invariant
            i <= data@.len(),
            buf@ == start + data@.subrange(0, i as int),
        decreases data@.len() - i,
    {
        buf.push(data[i]);
        i = i + 1;
        assert(buf@ =~= start + data@.subrange(0, i as int));
    }
    assert(data@.subrange(0, data@.len() as int) =~= data@);
}

fn put_key(buf: &mut Vec<u8>, field: u64, wire_type: u64)
    requires
        1 <= field <= MAX_FIELD,
        wire_type <= 5,
    ensures
        final(buf)@ == old(buf)@ + field_key(field as nat, wire_type as nat),
{
    put_varint(buf, field * 8 + wire_type);
}

/// Appends a length-delimited field holding `data`.
pub fn put_len_delimited(buf: &mut Vec<u8>, field: u64, data: &[u8])
    requires
        1 <= field <= MAX_FIELD,
    ensures
        final(buf)@ == old(buf)@ + len_delimited(field as nat, data@),
{
    let ghost start = buf@;
    put_key(buf, field, 2);
    put_varint(buf, data.len() as u64);
    put_bytes(buf, data);
    assert(buf@ =~= start + len_delimited(field as nat, data@));
}

/// Appends a `bytes` or `string` field, unless `data` is empty.
pub fn put_bytes_field(buf: &mut Vec<u8>, field: u64, data: &[u8])
    requires
        1 <= field <= MAX_FIELD,
    ensures
        final(buf)@ == old(buf)@ + bytes_field(field as nat, data@),
{
    if data.len() == 0 {
        assert(buf@ =~= buf@ + bytes_field(field as nat, data@));
    } else {
        put_len_delimited(buf, field, data);
    }
}

/// Appends an integer field, unless its value is zero.
pub fn put_varint_field(buf: &mut Vec<u8>, field: u64, v: u64)
    requires
        1 <= field <= MAX_FIELD,
    ensures
        final(buf)@ == old(buf)@ + varint_field(field as nat, v as nat),
{
    let ghost start = buf@;
    if v == 0 {
        assert(buf@ =~= start + varint_field(field as nat, v as nat));
    } else {
        put_key(buf, field, 0);
        put_varint(buf, v);
        assert(buf@ =~= start + varint_field(field as nat, v as nat));
    }
}

/// The 64-bit two's complement value of `v`.
pub fn int64_value(v: i64) -> (r: u64)
    ensures
        r as nat == twos_complement(v as int),
{
    if v >= 0 {
        v as u64
    } else {
        let k: u64 = (-(v + 1)) as u64;
        u64::MAX - k
    }
}

} // verus!
