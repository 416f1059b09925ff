//! What the helper functions of the generated code compute.
//!
//! Every value of a running program is a box of three fields: four bytes of
//! payload, a one-byte tag that says how to read them, and a pointer that
//! only strings use. The generated code goes between plain values and boxes
//! through five small helpers. This module states, on plain values, what
//! each of them returns.

use vstd::prelude::*;

verus! {

/// The tag of a boxed integer.
pub const TAG_INT: i8 = 0;

/// The tag of a boxed float.
pub const TAG_FLOAT: i8 = 1;

/// The address that stands for no string.
pub const NULL: usize = 0;

/// A boxed value: the payload, the tag that says how to read it, and the
/// address of the string it carries, `NULL` for a scalar.
#[derive(Clone, Copy, Debug, PartialEq, Eq)]
pub struct Obj {
    pub bytes: [u8; 4],
    pub tag: i8,
    pub text: usize,
}

/// A plain scalar. A float is kept as the bit pattern of its IEEE-754
/// single-precision value.
#[derive(Clone, Copy, Debug, PartialEq, Eq)]
pub enum Scalar {
    Int(i32),
    Float(u32),
}

/// The number that four bytes spell, the first byte counting least.
pub open spec fn assembled(bytes: Seq<u8>) -> int {
    bytes[0] + 256 * bytes[1] + 65536 * bytes[2] + 16777216 * bytes[3]
}

/// The signed number with the 32-bit pattern `bits`.
pub open spec fn signed(bits: int) -> int {
    if bits >= 0x8000_0000 {
        bits - 0x1_0000_0000
    } else {
        bits
    }
}

/// The 32-bit pattern of the signed number `n`.
pub open spec fn pattern(n: int) -> int {
    if n < 0 {
        n + 0x1_0000_0000
    } else {
        n
    }
}

/// The bytes of the 32-bit pattern `bits`, the least byte first.
pub open spec fn le_bytes(bits: int) -> Seq<u8> {
    seq![
        (bits % 256) as u8,
        (bits / 256 % 256) as u8,
        (bits / 65536 % 256) as u8,
        (bits / 16777216 % 256) as u8,
    ]
}

/// The byte that the boxing helpers store at place `i`: the pattern is
/// shifted `8 * i` bits to the left within its 32 bits, and the low byte
/// of that is kept.
pub open spec fn stored_byte(bits: u32, i: u32) -> u8 {
    ((bits << (8 * i) as u32) & 0xff) as u8
}

/// The four bytes that the boxing helpers store for the pattern `bits`.
pub open spec fn stored_bytes(bits: u32) -> Seq<u8> {
    seq![stored_byte(bits, 0), stored_byte(bits, 1), stored_byte(bits, 2), stored_byte(bits, 3)]
}

/// Only the low byte of a pattern is stored: a shift to the left leaves
/// nothing of the pattern in the low byte.
pub proof fn lemma_stored_bytes(bits: u32)
    ensures
        stored_bytes(bits) == seq![(bits % 256) as u8, 0u8, 0u8, 0u8],
{
    assert(((bits << 0u32) & 0xff) as u8 == (bits % 256) as u8) by (bit_vector);
    assert(((bits << 8u32) & 0xff) as u8 == 0u8) by (bit_vector);
    assert(((bits << 16u32) & 0xff) as u8 == 0u8) by (bit_vector);
    assert(((bits << 24u32) & 0xff) as u8 == 0u8) by (bit_vector);
    assert(stored_bytes(bits) =~= seq![(bits % 256) as u8, 0u8, 0u8, 0u8]);
}

/// The box of the three fields given.
pub fn new_obj(bytes: [u8; 4], tag: i8, text: usize) -> (obj: Obj)
    ensures
        obj == (Obj { bytes, tag, text }),
{
    Obj { bytes, tag, text }
}

/// The 32-bit pattern that four bytes spell, the first byte counting least.
pub fn assemble(bytes: &[u8; 4]) -> (bits: u32)
    ensures
        bits == assembled(bytes@),
{
    let b0 = bytes[0] as u32;
    let b1 = bytes[1] as u32;
    let b2 = bytes[2] as u32;
    let b3 = bytes[3] as u32;
    assert((b0 | (b1 << 8u32) | (b2 << 16u32) | (b3 << 24u32)) == b0 + 256 * b1 + 65536 * b2
        + 16777216 * b3) by (bit_vector)
        requires
            b0 < 256,
            b1 < 256,
            b2 < 256,
            b3 < 256,
    ;
    b0 | (b1 << 8u32) | (b2 << 16u32) | (b3 << 24u32)
}

/// The integer in a payload.
pub fn mk_int(bytes: &[u8; 4]) -> (n: i32)
    ensures
        n == signed(assembled(bytes@)),
{
    let bits = assemble(bytes);
    assert(bits as i32 == signed(bits as int)) by (bit_vector);
    bits as i32
}

/// The float in a payload, as its bit pattern.
pub fn mk_float(bytes: &[u8; 4]) -> (bits: u32)
    ensures
        bits == assembled(bytes@),
{
    assemble(bytes)
}

/// The payload that the boxing helpers store for the pattern `bits`.
pub fn store(bits: u32) -> (bytes: [u8; 4])
    ensures
        bytes@ == stored_bytes(bits),
{
    let b0 = ((bits << 0u32) & 0xff) as u8;
    let b1 = ((bits << 8u32) & 0xff) as u8;
    let b2 = ((bits << 16u32) & 0xff) as u8;
    let b3 = ((bits << 24u32) & 0xff) as u8;
    let bytes = [b0, b1, b2, b3];
    assert(bytes@ =~= stored_bytes(bits));
    bytes
}

/// The box that holds the integer `n`.
pub fn use_int(n: i32) -> (obj: Obj)
    ensures
        obj.bytes@ == stored_bytes(pattern(n as int) as u32),
        obj.tag == TAG_INT,
        obj.text == NULL,
{
    assert(n as u32 == pattern(n as int)) by (bit_vector);
    new_obj(store(n as u32), TAG_INT, NULL)
}

/// The box that holds the float with the bit pattern `bits`.
pub fn use_float(bits: u32) -> (obj: Obj)
    ensures
        obj.bytes@ == stored_bytes(bits),
        obj.tag == TAG_FLOAT,
        obj.text == NULL,
{
    new_obj(store(bits), TAG_FLOAT, NULL)
}

/// The box that holds a scalar.
pub fn mk_basic_obj(v: Scalar) -> (obj: Obj)
    ensures
        obj.bytes@ == stored_bytes(
            match v {
                Scalar::Int(n) => pattern(n as int) as u32,
                Scalar::Float(bits) => bits,
            },
        ),
        obj.tag == (match v {
            Scalar::Int(_) => TAG_INT,
            Scalar::Float(_) => TAG_FLOAT,
        }),
        obj.text == NULL,
{
    match v {
        Scalar::Int(n) => use_int(n),
        Scalar::Float(bits) => use_float(bits),
    }
}

/// The scalar that a box holds, as its tag says to read it.
pub open spec fn unboxed(obj: Obj) -> Option<Scalar> {
    if obj.tag == TAG_INT {
        Some(Scalar::Int(signed(assembled(obj.bytes@)) as i32))
    } else if obj.tag == TAG_FLOAT {
        Some(Scalar::Float(assembled(obj.bytes@) as u32))
    } else {
        None
    }
}

/// The scalar that a box holds; none where the tag is neither that of an
/// integer nor that of a float.
pub fn mk_val(obj: &Obj) -> (v: Option<Scalar>)
    ensures
        v == unboxed(*obj),
{
    if obj.tag == TAG_INT {
        Some(Scalar::Int(mk_int(&obj.bytes)))
    } else if obj.tag == TAG_FLOAT {
        Some(Scalar::Float(mk_float(&obj.bytes)))
    } else {
        None
    }
}

/// What comes back of an integer that is boxed and unboxed: its low byte.
pub proof fn lemma_int_through_box(n: i32, obj: Obj)
    requires
        obj.bytes@ == stored_bytes(pattern(n as int) as u32),
        obj.tag == TAG_INT,
    ensures
        unboxed(obj) == Some(Scalar::Int((pattern(n as int) % 256) as i32)),
{
    lemma_stored_bytes(pattern(n as int) as u32);
}

/// An integer from 0 to 255 comes back unchanged when it is boxed and
/// unboxed. No other integer does: the boxing helpers keep the low byte
/// alone.
pub proof fn lemma_int_round_trip(n: i32, obj: Obj)
    requires
        obj.bytes@ == stored_bytes(pattern(n as int) as u32),
        obj.tag == TAG_INT,
    ensures
        unboxed(obj) == Some(Scalar::Int(n)) <==> 0 <= n <= 255,
{
    lemma_int_through_box(n, obj);
}

/// A float whose bit pattern is from 0 to 255 comes back unchanged when it
/// is boxed and unboxed. No other float does.
pub proof fn lemma_float_round_trip(bits: u32, obj: Obj)
    requires
        obj.bytes@ == stored_bytes(bits),
        obj.tag == TAG_FLOAT,
    ensures
        unboxed(obj) == Some(Scalar::Float(bits)) <==> bits <= 255,
{
    lemma_stored_bytes(bits);
}

/// The bytes of a pattern, the least byte first, spell the pattern again.
pub proof fn lemma_le_bytes_assemble(bits: u32)
    ensures
        assembled(le_bytes(bits as int)) == bits,
{
}

/// An integer whose pattern is laid out the least byte first comes back
/// unchanged when the payload is read: what is boxed while compiling is
/// read as it was written, whatever the integer.
pub proof fn lemma_constant_round_trip(n: i32, obj: Obj)
    requires
        obj.bytes@ == le_bytes(pattern(n as int)),
        obj.tag == TAG_INT,
    ensures
        unboxed(obj) == Some(Scalar::Int(n)),
{
    lemma_le_bytes_assemble(pattern(n as int) as u32);
}

} // verus!
