//! The 16-bit frames exchanged with the sensor.
//!
//! Every frame carries a parity bit in bit 15. A command holds the read flag
//! in bit 14 and a register address in bits 13 to 0. A response holds the
//! error flag in bit 14 and the register contents in bits 13 to 0. Frames
//! travel most significant byte first.
use vstd::prelude::*;
use crate::error::Error;
use crate::parity::{has_even_parity, sealed, sealing_gives_even_parity, verify_parity, with_parity};
use crate::register::Register;

verus! {

/// Bit 14 of a command: set for a read, clear for a write.
pub const READ_BIT: u16 = 0x4000;

/// Bit 14 of a response: set when the sensor rejected an earlier command.
pub const ERROR_FLAG: u16 = 0x4000;

/// The payload bits of a frame.
pub const DATA_MASK: u16 = 0x3FFF;

/// The frame that asks for nothing and clocks out the pending response.
pub const NOP_COMMAND: u16 = 0x0000;

/// The command word that asks for the contents of `register`.
pub open spec fn read_command_word(register: Register) -> u16 {
    sealed(READ_BIT | register.spec_address())
}

/// The command word that announces a write to `register`.
pub open spec fn write_command_word(register: Register) -> u16 {
    sealed(register.spec_address())
}

/// The frame that carries the low 14 bits of `data` to the sensor.
pub open spec fn data_word(data: u16) -> u16 {
    sealed(data & DATA_MASK)
}

/// What a response frame means: a parity fault, a sensor fault, or its payload.
pub open spec fn decoded<E>(frame: u16) -> Result<u16, Error<E>> {
    if !has_even_parity(frame) {
        Err(Error::ParityError)
    } else if frame & ERROR_FLAG != 0 {
        Err(Error::SensorError)
    } else {
        Ok(frame & DATA_MASK)
    }
}

/// The two bytes of `word` in the order they are sent.
pub open spec fn wire_bytes(word: u16) -> Seq<u8> {
    seq![(word / 256) as u8, (word % 256) as u8]
}

/// The word that two received bytes stand for.
pub open spec fn wire_word(bytes: Seq<u8>) -> u16
    recommends
        bytes.len() == 2,
{
    (bytes[0] * 256 + bytes[1]) as u16
}

/// Builds the command word for reading `register`.
pub fn read_command(register: Register) -> (word: u16)
    ensures
        word == read_command_word(register),
        has_even_parity(word),
        word & READ_BIT != 0,
        word & DATA_MASK == register.spec_address(),
{
    let address: u16 = register.address();
    let plain: u16 = READ_BIT | address;
    let word: u16 = with_parity(plain);
    assert(word & 0x4000 != 0 && word & 0x3FFF == address) by (bit_vector)
        requires
            word & 0x7FFF == plain & 0x7FFF,
            plain == 0x4000u16 | address,
            address <= 0x3FFF,
    ;
    word
}

/// Builds the command word for writing `register`.
pub fn write_command(register: Register) -> (word: u16)
    ensures
        word == write_command_word(register),
        has_even_parity(word),
        word & READ_BIT == 0,
        word & DATA_MASK == register.spec_address(),
{
    let address: u16 = register.address();
    let word: u16 = with_parity(address);
    assert(word & 0x4000 == 0 && word & 0x3FFF == address) by (bit_vector)
        requires
            word & 0x7FFF == address & 0x7FFF,
            address <= 0x3FFF,
    ;
    word
}

/// Builds the frame that carries `data` in the data phase of a write. Bits
/// above the 14-bit payload are dropped.
pub fn data_frame(data: u16) -> (word: u16)
    ensures
        word == data_word(data),
        has_even_parity(word),
        word & ERROR_FLAG == 0,
        word & DATA_MASK == data & DATA_MASK,
{
    let payload: u16 = data & DATA_MASK;
    let word: u16 = with_parity(payload);
    assert(word & 0x4000 == 0 && word & 0x3FFF == data & 0x3FFF) by (bit_vector)
        requires
            word & 0x7FFF == payload & 0x7FFF,
            payload == data & 0x3FFF,
    ;
    word
}

/// Validates a response frame and extracts its 14-bit payload.
///
/// A frame with odd parity is a parity error whatever else it holds; a frame
/// with even parity and the error flag set is a sensor error.
pub fn decode_response<E>(frame: u16) -> (outcome: Result<u16, Error<E>>)
    ensures
        outcome == decoded::<E>(frame),
        outcome matches Ok(payload) ==> payload <= DATA_MASK,
{
    if !verify_parity(frame) {
        return Err(Error::ParityError);
    }
    if frame & ERROR_FLAG != 0 {
        return Err(Error::SensorError);
    }
    let payload: u16 = frame & DATA_MASK;
    assert(payload <= 0x3FFF) by (bit_vector)
        requires
            payload == frame & 0x3FFF,
    ;
    Ok(payload)
}

/// Splits a frame into the bytes to transmit, most significant byte first.
pub fn to_wire(word: u16) -> (bytes: [u8; 2])
    ensures
        bytes@ == wire_bytes(word),
        wire_word(bytes@) == word,
{
    let high: u16 = word >> 8;
    let low: u16 = word & 0xFF;
    assert(high == word / 256 && low == word % 256 && high < 256 && low < 256) by (bit_vector)
        requires
            high == word >> 8,
            low == word & 0xFF,
    ;
    let bytes: [u8; 2] = [high as u8, low as u8];
    assert(bytes@ =~= wire_bytes(word));
    bytes
}

/// Joins two received bytes into a frame, most significant byte first.
pub fn from_wire(bytes: [u8; 2]) -> (word: u16)
    ensures
        word == wire_word(bytes@),
        wire_bytes(word) == bytes@,
{
    let high: u16 = bytes[0] as u16;
    let low: u16 = bytes[1] as u16;
    let word: u16 = high * 256 + low;
    assert(wire_bytes(word) =~= bytes@);
    word
}

/// A frame built from a 14-bit payload decodes to that payload, and the same
/// frame with the error flag raised decodes to a sensor error.
pub proof fn payload_round_trip<E>(payload: u16)
    requires
        payload <= DATA_MASK,
    ensures
        decoded::<E>(data_word(payload)) == Ok::<u16, Error<E>>(payload),
        decoded::<E>(sealed(ERROR_FLAG | payload)) == Err::<u16, Error<E>>(Error::SensorError),
{
    let plain = payload & DATA_MASK;
    let frame = sealed(plain);
    sealing_gives_even_parity(plain);
    assert(frame & 0x4000 == 0 && frame & 0x3FFF == payload) by (bit_vector)
        requires
            frame & 0x7FFF == plain & 0x7FFF,
            plain == payload & 0x3FFF,
            payload <= 0x3FFF,
    ;
    let raised = ERROR_FLAG | payload;
    let flagged = sealed(raised);
    sealing_gives_even_parity(raised);
    assert(flagged & 0x4000 != 0) by (bit_vector)
        requires
            flagged & 0x7FFF == raised & 0x7FFF,
            raised == 0x4000u16 | payload,
    ;
}

/// Splitting a frame into bytes and joining them again loses nothing, in
/// either direction.
pub proof fn wire_round_trip(word: u16, bytes: Seq<u8>)
    requires
        bytes.len() == 2,
    ensures
        wire_word(wire_bytes(word)) == word,
        wire_bytes(wire_word(bytes)) == bytes,
{
    assert(wire_bytes(wire_word(bytes)) =~= bytes);
}

} // verus!
