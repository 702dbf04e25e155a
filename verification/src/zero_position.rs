//! The zero position: the 14-bit angle that the sensor reports as zero.
//!
//! The value is kept in two registers. The high register holds its upper
//! eight bits in bits 7 to 0. The low register holds its lower six bits in
//! bits 5 to 0; the other bits of that register have meanings of their own and
//! are left alone when the zero position is set.
use vstd::prelude::*;
use crate::bitfield::{extract, field_replaced, insert};
use crate::error::Error;
use crate::exchange::{ModifyExchange, ReadExchange, Step, WriteExchange};
use crate::frame::{decoded, wire_bytes, wire_word};
use crate::register::Register;

verus! {

/// Width of the part of the zero position kept in the high register.
pub const HIGH_WIDTH: u16 = 8;

/// Width of the part of the zero position kept in the low register.
pub const LOW_WIDTH: u16 = 6;

/// The zero position that the contents of the two registers stand for.
pub open spec fn composed(high: u16, low: u16) -> u16 {
    ((high % 256) * 64 + low % 64) as u16
}

/// The contents of the high register that hold the upper bits of `value`.
pub open spec fn high_contents(current: u16, value: u16) -> u16 {
    field_replaced(current, 0, HIGH_WIDTH, value >> LOW_WIDTH)
}

/// The contents of the low register that hold the lower bits of `value`.
pub open spec fn low_contents(current: u16, value: u16) -> u16 {
    field_replaced(current, 0, LOW_WIDTH, value)
}

/// Joins the contents of the high and the low register into the position.
pub fn compose(high: u16, low: u16) -> (value: u16)
    ensures
        value == composed(high, low),
        value <= 0x3FFF,
{
    let upper: u16 = extract(high, 0, HIGH_WIDTH);
    let lower: u16 = extract(low, 0, LOW_WIDTH);
    assert(upper == high % 256 && lower == low % 64 && ((upper << 6) | lower) == (high % 256) * 64
        + low % 64 && ((upper << 6) | lower) <= 0x3FFF) by (bit_vector)
        requires
            upper == (high >> 0u16) & (((1u16 << 8u16) - 1) as u16),
            lower == (low >> 0u16) & (((1u16 << 6u16) - 1) as u16),
    ;
    (upper << 6) | lower
}

/// Puts the upper eight bits of `value` into the contents of the high register.
pub fn with_high_part(current: u16, value: u16) -> (updated: u16)
    ensures
        updated == high_contents(current, value),
{
    insert(current, 0, HIGH_WIDTH, value >> LOW_WIDTH)
}
/// Puts the lower six bits of `value` into the contents of the low register.
pub fn with_low_part(current: u16, value: u16) -> (updated: u16)
    ensures
        updated == low_contents(current, value),
{
    insert(current, 0, LOW_WIDTH, value)
}

/// Setting a 14-bit zero position and reading it back gives the same value,
/// whatever the two registers held before. The sensor keeps the low 14 bits
/// of what is written. Bits 6 and up of the low register are not changed.
pub proof fn set_then_read(high_before: u16, low_before: u16, value: u16)
    requires
        value <= 0x3FFF,
    ensures
        composed(high_contents(high_before, value), low_contents(low_before, value)) == value,
        composed(
            high_contents(high_before, value) & 0x3FFF,
            low_contents(low_before, value) & 0x3FFF,
        ) == value,
        low_contents(low_before, value) & 0xFFC0 == low_before & 0xFFC0,
        high_contents(high_before, value) & 0xFF00 == high_before & 0xFF00,
{
    let high = high_contents(high_before, value);
    let low = low_contents(low_before, value);
    assert(high == (high_before & !(((((1u16 << 8u16) - 1) as u16)) << 0u16)) | (((value >> 6u16)
        & (((1u16 << 8u16) - 1) as u16)) << 0u16));
    assert(low == (low_before & !(((((1u16 << 6u16) - 1) as u16)) << 0u16)) | ((value & (((1u16
        << 6u16) - 1) as u16)) << 0u16));
    assert((high % 256) * 64 + low % 64 == value && ((high & 0x3FFF) % 256) * 64 + (low & 0x3FFF)
        % 64 == value && low & 0xFFC0 == low_before & 0xFFC0 && high & 0xFF00 == high_before
        & 0xFF00) by (bit_vector)
        requires
            value <= 0x3FFF,
            high == (high_before & !(((((1u16 << 8u16) - 1) as u16)) << 0u16)) | (((value >> 6u16)
                & (((1u16 << 8u16) - 1) as u16)) << 0u16),
            low == (low_before & !(((((1u16 << 6u16) - 1) as u16)) << 0u16)) | ((value & (((1u16
                << 6u16) - 1) as u16)) << 0u16),
    ;
}

/// The state of reading the zero position: the high register is read first,
/// then the low register.
#[derive(Debug, Clone, Copy, PartialEq, Eq, Structural)]
pub enum ZeroPositionRead {
    /// The high register is being read.
    High(ReadExchange),
    /// The low register is being read; the contents of the high register
    /// are kept.
    Low(u16, ReadExchange),
}

impl ZeroPositionRead {
    /// The number of transfers that the operation still takes in this state
    /// when none of them fails: four in all, two for each register.
    pub open spec fn remaining(self) -> nat {
        match self {
            ZeroPositionRead::High(read) => read.remaining() + 2,
            ZeroPositionRead::Low(_, read) => read.remaining(),
        }
    }

    /// The frame that the next transfer sends.
    pub open spec fn frame(self) -> u16 {
        match self {
            ZeroPositionRead::High(read) => read.frame(),
            ZeroPositionRead::Low(_, read) => read.frame(),
        }
    }

    /// The state after a transfer that ended with `received`.
    pub open spec fn next<E>(self, received: Result<[u8; 2], E>) -> Step<
        ZeroPositionRead,
        u16,
        E,
    > {
        match self {
            ZeroPositionRead::High(read) => match read.next(received) {
                Step::Continue(read) => Step::Continue(ZeroPositionRead::High(read)),
                Step::Finished(Ok(high)) => Step::Continue(
                    ZeroPositionRead::Low(high, ReadExchange::Command(Register::ZeroPositionLow)),
                ),
                Step::Finished(Err(error)) => Step::Finished(Err(error)),
            },
            ZeroPositionRead::Low(high, read) => match read.next(received) {
                Step::Continue(read) => Step::Continue(ZeroPositionRead::Low(high, read)),
                Step::Finished(Ok(low)) => Step::Finished(Ok(composed(high, low))),
                Step::Finished(Err(error)) => Step::Finished(Err(error)),
            },
        }
    }

    /// Reading the zero position reads the high register and then the low
    /// register, two transfers each. When both replies to the NOPs decode
    /// to values, the result is the position joined from them; an error in
    /// the first ends the operation before the low register is asked for.
    pub proof fn read_sequence<E>(first: [u8; 2], high: [u8; 2], third: [u8; 2], low: [u8; 2])
        ensures
            ({
                let ask_high = ReadExchange::Command(Register::ZeroPositionHi);
                let get_high = ReadExchange::Response(Register::ZeroPositionHi);
                let ask_low = ReadExchange::Command(Register::ZeroPositionLow);
                let get_low = ReadExchange::Response(Register::ZeroPositionLow);
                &&& ZeroPositionRead::High(ask_high).next::<E>(Ok(first)) == Step::<
                    ZeroPositionRead,
                    u16,
                    E,
                >::Continue(ZeroPositionRead::High(get_high))
                &&& match decoded::<E>(wire_word(high@)) {
                    Ok(upper) => {
                        &&& ZeroPositionRead::High(get_high).next::<E>(Ok(high)) == Step::<
                            ZeroPositionRead,
                            u16,
                            E,
                        >::Continue(ZeroPositionRead::Low(upper, ask_low))
                        &&& ZeroPositionRead::Low(upper, ask_low).next::<E>(Ok(third)) == Step::<
                            ZeroPositionRead,
                            u16,
                            E,
                        >::Continue(ZeroPositionRead::Low(upper, get_low))
                        &&& ZeroPositionRead::Low(upper, get_low).next::<E>(Ok(low)) == Step::<
                            ZeroPositionRead,
                            u16,
                            E,
                        >::Finished(
                            match decoded::<E>(wire_word(low@)) {
                                Ok(lower) => Ok(composed(upper, lower)),
                                Err(error) => Err(error),
                            },
                        )
                    },
                    Err(error) => ZeroPositionRead::High(get_high).next::<E>(Ok(high)) == Step::<
                        ZeroPositionRead,
                        u16,
                        E,
                    >::Finished(Err(error)),
                }
            }),
    {
    }

    /// When the two registers hold what setting the position to `value` has
    /// written to them, reading the position yields `value`.
    pub proof fn read_after_set<E>(
        value: u16,
        high_before: u16,
        low_before: u16,
        high: [u8; 2],
        low: [u8; 2],
    )
        requires
            value <= 0x3FFF,
            decoded::<E>(wire_word(high@)) == Ok::<u16, Error<E>>(
                high_contents(high_before, value) & 0x3FFF,
            ),
            decoded::<E>(wire_word(low@)) == Ok::<u16, Error<E>>(
                low_contents(low_before, value) & 0x3FFF,
            ),
        ensures
            ({
                let upper = high_contents(high_before, value) & 0x3FFF;
                let get_high = ReadExchange::Response(Register::ZeroPositionHi);
                let ask_low = ReadExchange::Command(Register::ZeroPositionLow);
                let get_low = ReadExchange::Response(Register::ZeroPositionLow);
                &&& ZeroPositionRead::High(get_high).next::<E>(Ok(high)) == Step::<
                    ZeroPositionRead,
                    u16,
                    E,
                >::Continue(ZeroPositionRead::Low(upper, ask_low))
                &&& ZeroPositionRead::Low(upper, get_low).next::<E>(Ok(low)) == Step::<
                    ZeroPositionRead,
                    u16,
                    E,
                >::Finished(Ok(value))
            }),
    {
        set_then_read(high_before, low_before, value);
    }

    /// Starts reading the zero position.
    pub fn new() -> (state: Self)
        ensures
            state == ZeroPositionRead::High(ReadExchange::Command(Register::ZeroPositionHi)),
    {
        ZeroPositionRead::High(ReadExchange::new(Register::ZeroPositionHi))
    }

    /// The bytes to transmit in the next transfer.
    pub fn outgoing(&self) -> (bytes: [u8; 2])
        ensures
            bytes@ == wire_bytes(self.frame()),
    {
        match self {
            ZeroPositionRead::High(read) => read.outgoing(),
            ZeroPositionRead::Low(_, read) => read.outgoing(),
        }
    }

    /// Takes the outcome of the transfer and says how the operation goes on.
    pub fn advance<E>(self, received: Result<[u8; 2], E>) -> (step: Step<ZeroPositionRead, u16, E>)
        ensures
            step == self.next(received),
            step matches Step::Finished(Ok(value)) ==> value <= 0x3FFF && self.remaining() == 1,
            step matches Step::Continue(state) ==> state.remaining() + 1 == self.remaining(),
    {
        match self {
            ZeroPositionRead::High(read) => match read.advance(received) {
                Step::Continue(read) => Step::Continue(ZeroPositionRead::High(read)),
                Step::Finished(Ok(high)) => Step::Continue(
                    ZeroPositionRead::Low(high, ReadExchange::new(Register::ZeroPositionLow)),
                ),
                Step::Finished(Err(error)) => Step::Finished(Err(error)),
            },
            ZeroPositionRead::Low(high, read) => match read.advance(received) {
                Step::Continue(read) => Step::Continue(ZeroPositionRead::Low(high, read)),
                Step::Finished(Ok(low)) => Step::Finished(Ok(compose(high, low))),
                Step::Finished(Err(error)) => Step::Finished(Err(error)),
            },
        }
    }
}

/// The state of setting the zero position: a read-modify-write of the high
/// register, then one of the low register. Both states keep the position
/// that is being set.
#[derive(Debug, Clone, Copy, PartialEq, Eq, Structural)]
pub enum ZeroPositionWrite {
    /// The high register is being updated.
    High(u16, ModifyExchange),
    /// The low register is being updated.
    Low(u16, ModifyExchange),
}

impl ZeroPositionWrite {
    /// The number of transfers that the operation still takes in this state
    /// when none of them fails: ten in all, five for each register.
    pub open spec fn remaining(self) -> nat {
        match self {
            ZeroPositionWrite::High(_, modify) => modify.remaining() + 5,
            ZeroPositionWrite::Low(_, modify) => modify.remaining(),
        }
    }

    /// The frame that the next transfer sends.
    pub open spec fn frame(self) -> u16 {
        match self {
            ZeroPositionWrite::High(_, modify) => modify.frame(),
            ZeroPositionWrite::Low(_, modify) => modify.frame(),
        }
    }

    /// The state after a transfer that ended with `received`.
    pub open spec fn next<E>(self, received: Result<[u8; 2], E>) -> Step<
        ZeroPositionWrite,
        (),
        E,
    > {
        match self {
            ZeroPositionWrite::High(value, modify) => {
                let updated = match modify.value_read(received) {
                    Some(current) => high_contents(current, value),
                    None => 0,
                };
                match modify.next(received, updated) {
                    Step::Continue(modify) => Step::Continue(
                        ZeroPositionWrite::High(value, modify),
                    ),
                    Step::Finished(Ok(_)) => Step::Continue(
                        ZeroPositionWrite::Low(
                            value,
                            ModifyExchange::Reading(
                                ReadExchange::Command(Register::ZeroPositionLow),
                            ),
                        ),
                    ),
                    Step::Finished(Err(error)) => Step::Finished(Err(error)),
                }
            },
            ZeroPositionWrite::Low(value, modify) => {
                let updated = match modify.value_read(received) {
                    Some(current) => low_contents(current, value),
                    None => 0,
                };
                match modify.next(received, updated) {
                    Step::Continue(modify) => Step::Continue(
                        ZeroPositionWrite::Low(value, modify),
                    ),
                    Step::Finished(verdict) => Step::Finished(verdict),
                }
            },
        }
    }

    /// Setting the zero position writes to the high register what
    /// `high_contents` makes of the register's contents and the position, and
    /// then to the low register what `low_contents` makes of its contents. The
    /// low register is touched only after the write to the high register was
    /// accepted.
    pub proof fn write_sequence<E>(value: u16, reply: [u8; 2])
        ensures
            ({
                let get_high = ModifyExchange::Reading(
                    ReadExchange::Response(Register::ZeroPositionHi),
                );
                let get_low = ModifyExchange::Reading(
                    ReadExchange::Response(Register::ZeroPositionLow),
                );
                let verify_high = ModifyExchange::Writing(
                    WriteExchange::Verify(Register::ZeroPositionHi),
                );
                let verify_low = ModifyExchange::Writing(
                    WriteExchange::Verify(Register::ZeroPositionLow),
                );
                match decoded::<E>(wire_word(reply@)) {
                    Ok(current) => {
                        &&& ZeroPositionWrite::High(value, get_high).next::<E>(Ok(reply)) == Step::<
                            ZeroPositionWrite,
                            (),
                            E,
                        >::Continue(
                            ZeroPositionWrite::High(
                                value,
                                ModifyExchange::Writing(
                                    WriteExchange::Command(
                                        Register::ZeroPositionHi,
                                        high_contents(current, value),
                                    ),
                                ),
                            ),
                        )
                        &&& ZeroPositionWrite::Low(value, get_low).next::<E>(Ok(reply)) == Step::<
                            ZeroPositionWrite,
                            (),
                            E,
                        >::Continue(
                            ZeroPositionWrite::Low(
                                value,
                                ModifyExchange::Writing(
                                    WriteExchange::Command(
                                        Register::ZeroPositionLow,
                                        low_contents(current, value),
                                    ),
                                ),
                            ),
                        )
                        &&& ZeroPositionWrite::High(value, verify_high).next::<E>(Ok(reply))
                            == Step::<ZeroPositionWrite, (), E>::Continue(
                            ZeroPositionWrite::Low(
                                value,
                                ModifyExchange::Reading(
                                    ReadExchange::Command(Register::ZeroPositionLow),
                                ),
                            ),
                        )
                        &&& ZeroPositionWrite::Low(value, verify_low).next::<E>(Ok(reply))
                            == Step::<ZeroPositionWrite, (), E>::Finished(Ok(()))
                    },
                    Err(error) => {
                        &&& ZeroPositionWrite::High(value, get_high).next::<E>(Ok(reply)) == Step::<
                            ZeroPositionWrite,
                            (),
                            E,
                        >::Finished(Err(error))
                        &&& ZeroPositionWrite::High(value, verify_high).next::<E>(Ok(reply))
                            == Step::<ZeroPositionWrite, (), E>::Finished(Err(error))
                        &&& ZeroPositionWrite::Low(value, get_low).next::<E>(Ok(reply)) == Step::<
                            ZeroPositionWrite,
                            (),
                            E,
                        >::Finished(Err(error))
                        &&& ZeroPositionWrite::Low(value, verify_low).next::<E>(Ok(reply))
                            == Step::<ZeroPositionWrite, (), E>::Finished(Err(error))
                    },
                }
            }),
    {
    }

    /// Starts setting the zero position to `value`.
    pub fn new(value: u16) -> (state: Self)
        ensures
            state == ZeroPositionWrite::High(
                value,
                ModifyExchange::Reading(ReadExchange::Command(Register::ZeroPositionHi)),
            ),
    {
        ZeroPositionWrite::High(value, ModifyExchange::new(Register::ZeroPositionHi))
    }

    /// The bytes to transmit in the next transfer.
    pub fn outgoing(&self) -> (bytes: [u8; 2])
        ensures
            bytes@ == wire_bytes(self.frame()),
    {
        match self {
            ZeroPositionWrite::High(_, modify) => modify.outgoing(),
            ZeroPositionWrite::Low(_, modify) => modify.outgoing(),
        }
    }

    /// Takes the outcome of the transfer and says how the operation goes on.
    pub fn advance<E>(self, received: Result<[u8; 2], E>) -> (step: Step<ZeroPositionWrite, (), E>)
        ensures
            step == self.next(received),
            step matches Step::Finished(Ok(_)) ==> self.remaining() == 1,
            step matches Step::Continue(state) ==> state.remaining() + 1 == self.remaining(),
    {
        match self {
            ZeroPositionWrite::High(value, modify) => {
                let update = |current: u16| -> (updated: u16)
                    ensures
                        updated == high_contents(current, value),
                    { with_high_part(current, value) };
                match modify.advance(received, update) {
                    Step::Continue(modify) => Step::Continue(
                        ZeroPositionWrite::High(value, modify),
                    ),
                    Step::Finished(Ok(_)) => Step::Continue(
                        ZeroPositionWrite::Low(
                            value,
                            ModifyExchange::new(Register::ZeroPositionLow),
                        ),
                    ),
                    Step::Finished(Err(error)) => Step::Finished(Err(error)),
                }
            },
            ZeroPositionWrite::Low(value, modify) => {
                let update = |current: u16| -> (updated: u16)
                    ensures
                        updated == low_contents(current, value),
                    { with_low_part(current, value) };
                match modify.advance(received, update) {
                    Step::Continue(modify) => Step::Continue(
                        ZeroPositionWrite::Low(value, modify),
                    ),
                    Step::Finished(verdict) => Step::Finished(verdict),
                }
            },
        }
    }
}

} // verus!
