//! The register protocol on the wire: how a register access is framed
//! into bytes, how a reply is read back, and how a masked update combines
//! old and new bits.

use vstd::prelude::*;
use crate::register::Register;

verus! {

/// The two bytes that carry a register value, most significant first.
pub open spec fn value_bytes(value: u16) -> Seq<u8> {
    seq![((value >> 8) & 0xff) as u8, (value & 0xff) as u8]
}

/// The value carried by two bytes, the first being the most significant.
pub open spec fn assemble(byte0: u8, byte1: u8) -> u16 {
    ((byte0 as u16) << 8) | (byte1 as u16)
}

/// The bytes of a full register write: the address, then the value.
pub open spec fn frame_bytes(register: Register, value: u16) -> Seq<u8> {
    seq![register.address()] + value_bytes(value)
}

/// The bytes that ask for a register's contents: its address alone.
pub open spec fn request_bytes(register: Register) -> Seq<u8> {
    seq![register.address()]
}

/// The number of bytes in which the device answers a read.
pub open spec fn reply_len() -> nat {
    2
}

/// The contents of a register after a masked update: positions selected
/// by `mask` are taken from `value`, all others from `current`.
pub open spec fn merge(current: u16, mask: u16, value: u16) -> u16 {
    (current & !mask) | (value & mask)
}

/// Frames a write of `value` to `register`.
pub fn write_frame(register: Register, value: u16) -> (frame: [u8; 3])
    ensures
        frame@ == frame_bytes(register, value),
{
    let frame: [u8; 3] = [register.address(), ((value >> 8) & 0xff) as u8, (value & 0xff) as u8];
    assert(frame@ =~= frame_bytes(register, value));
    frame
}

/// Frames the request that precedes a read of `register`.
pub fn read_request(register: Register) -> (request: [u8; 1])
    ensures
        request@ == request_bytes(register),
{
    let request: [u8; 1] = [register.address()];
    assert(request@ =~= request_bytes(register));
    request
}

/// Reassembles the register value from the two bytes of a reply.
pub fn decode_value(reply: [u8; 2]) -> (value: u16)
    ensures
        value == assemble(reply[0], reply[1]),
        value_bytes(value) == reply@,
{
    let byte0: u8 = reply[0];
    let byte1: u8 = reply[1];
    let value: u16 = ((byte0 as u16) << 8) | (byte1 as u16);
    proof {
        lemma_bytes_survive_assembly(byte0, byte1);
        assert(value_bytes(value) =~= reply@);
    }
    value
}

/// Computes the contents to write back in a masked update.
pub fn merge_bits(current: u16, mask: u16, value: u16) -> (merged: u16)
    ensures
        merged == merge(current, mask, value),
{
    (current & !mask) | (value & mask)
}

/// A write goes out as exactly three bytes: the register's address, the
/// high byte of the value, the low byte of the value. A read is asked for
/// with the register's address alone.
pub proof fn lemma_frame_shape(register: Register, value: u16)
    ensures
        frame_bytes(register, value) == seq![
            register.address(),
            (value >> 8) as u8,
            (value & 0xff) as u8,
        ],
        request_bytes(register) == seq![register.address()],
{
    assert((value >> 8) & 0xff == value >> 8) by (bit_vector);
    assert(frame_bytes(register, value) =~= seq![
        register.address(),
        (value >> 8) as u8,
        (value & 0xff) as u8,
    ]);
}

/// A value survives being split into bytes and assembled again.
pub proof fn lemma_value_survives_framing(value: u16)
    ensures
        value_bytes(value).len() == reply_len(),
        assemble(value_bytes(value)[0], value_bytes(value)[1]) == value,
{
    assert(((((value >> 8) & 0xff) as u8) as u16) << 8 | (((value & 0xff) as u8) as u16) == value)
        by (bit_vector);
}

/// Two bytes survive being assembled into a value and split again.
pub proof fn lemma_bytes_survive_assembly(byte0: u8, byte1: u8)
    ensures
        value_bytes(assemble(byte0, byte1)) == seq![byte0, byte1],
{
    let value = assemble(byte0, byte1);
    assert(((value >> 8) & 0xff) as u8 == byte0 && (value & 0xff) as u8 == byte1) by (bit_vector)
        requires
            value == ((byte0 as u16) << 8) | (byte1 as u16),
    ;
    assert(value_bytes(value) =~= seq![byte0, byte1]);
}

/// A masked update leaves every position outside the mask as it was,
/// takes every position inside the mask from the new value, and ignores
/// what the new value holds outside the mask.
pub proof fn lemma_merge_keeps_unmasked_bits(current: u16, mask: u16, value: u16)
    ensures
        merge(current, mask, value) & !mask == current & !mask,
        merge(current, mask, value) & mask == value & mask,
        merge(current, mask, value) == merge(current, mask, value & mask),
        value & !mask == 0 ==> merge(current, mask, value) == (current & !mask) | value,
{
    assert(((current & !mask) | (value & mask)) & !mask == current & !mask) by (bit_vector);
    assert(((current & !mask) | (value & mask)) & mask == value & mask) by (bit_vector);
    assert((current & !mask) | (value & mask) == (current & !mask) | ((value & mask) & mask))
        by (bit_vector);
    assert(value & !mask == 0 ==> (current & !mask) | (value & mask) == (current & !mask) | value)
        by (bit_vector);
}

} // verus!
