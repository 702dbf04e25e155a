//! The sensor handle and the operations it offers.
use vstd::prelude::*;
use crate::diagnostics::Diagnostics;
use crate::exchange::{ModifyExchange, ReadExchange, Step, WriteExchange};
use crate::frame::{data_word, decoded, payload_round_trip, wire_bytes, wire_word, wire_round_trip};
use crate::register::Register;
use crate::zero_position::{ZeroPositionRead, ZeroPositionWrite};

verus! {

/// Maximum angle value (14-bit: 0-16383, representing 0-360°)
pub const ANGLE_MAX: u16 = 0x3FFF;

/// The whole degrees that `angle` stands for: `angle * 360 / ANGLE_MAX`,
/// rounded down.
pub open spec fn degrees_of(angle: u16) -> int {
    (angle * 360) / (ANGLE_MAX as int)
}

/// Converts a raw angle to whole degrees, rounding down.
pub fn degrees_from_angle(angle: u16) -> (degrees: u16)
    ensures
        degrees == degrees_of(angle),
        angle < ANGLE_MAX ==> degrees <= 359,
        angle <= ANGLE_MAX ==> degrees <= 360,
        angle == 0 ==> degrees == 0,
{
    let scaled: u32 = (angle as u32) * 360;
    let degrees: u32 = scaled / (ANGLE_MAX as u32);
    degrees as u16
}

/// A quantity that the sensor reports as a number, read from one register.
#[derive(Debug, Clone, Copy, PartialEq, Eq, Structural)]
pub enum Measurement {
    /// The 14-bit corrected angular position.
    Angle,
    /// The angular position in whole degrees.
    AngleDegrees,
    /// The 14-bit magnitude value from CORDIC.
    Magnitude,
}

impl Measurement {
    /// The register that holds the quantity.
    pub open spec fn spec_register(self) -> Register {
        match self {
            Measurement::Angle => Register::Angle,
            Measurement::AngleDegrees => Register::Angle,
            Measurement::Magnitude => Register::Magnitude,
        }
    }

    /// The quantity that the register contents `value` stand for: the
    /// contents themselves, or the degrees they amount to.
    pub open spec fn spec_interpret(self, value: u16) -> u16 {
        match self {
            Measurement::Angle => value,
            Measurement::AngleDegrees => degrees_of(value) as u16,
            Measurement::Magnitude => value,
        }
    }

    /// The largest number that the quantity takes for 14-bit register
    /// contents: 16383 for a raw value, 360 for degrees.
    pub open spec fn limit(self) -> u16 {
        match self {
            Measurement::Angle => 0x3FFF,
            Measurement::AngleDegrees => 360,
            Measurement::Magnitude => 0x3FFF,
        }
    }

    /// The register that holds the quantity.
    #[verifier::when_used_as_spec(spec_register)]
    pub fn register(self) -> (register: Register)
        ensures
            register == self.spec_register(),
    {
        match self {
            Measurement::Angle => Register::Angle,
            Measurement::AngleDegrees => Register::Angle,
            Measurement::Magnitude => Register::Magnitude,
        }
    }

    /// Turns the contents of the register into the quantity.
    #[verifier::when_used_as_spec(spec_interpret)]
    pub fn interpret(self, value: u16) -> (quantity: u16)
        ensures
            quantity == self.spec_interpret(value),
            value <= 0x3FFF ==> quantity <= self.limit(),
    {
        match self {
            Measurement::Angle => value,
            Measurement::AngleDegrees => degrees_from_angle(value),
            Measurement::Magnitude => value,
        }
    }
}

/// A measurement in progress: the quantity asked for and the state of the
/// read that serves it.
#[derive(Debug, Clone, Copy, PartialEq, Eq, Structural)]
pub struct Pending {
    /// The quantity that is being measured.
    pub measurement: Measurement,
    /// The state of the register read.
    pub exchange: ReadExchange,
}

impl Pending {
    /// The state of `measurement` before its first transfer.
    pub open spec fn started(measurement: Measurement) -> Pending {
        Pending { measurement, exchange: ReadExchange::Command(measurement.spec_register()) }
    }

    /// The state of `measurement` between its first and its second transfer.
    pub open spec fn awaiting(measurement: Measurement) -> Pending {
        Pending { measurement, exchange: ReadExchange::Response(measurement.spec_register()) }
    }

    /// The frame that the next transfer sends.
    pub open spec fn frame(self) -> u16 {
        self.exchange.frame()
    }

    /// The number of transfers that are still to come when none of them fails.
    pub open spec fn remaining(self) -> nat {
        self.exchange.remaining()
    }

    /// The state after a transfer that ended with `received`: the state of
    /// the read, and at its end the quantity made of what was read.
    pub open spec fn next<E>(self, received: Result<[u8; 2], E>) -> Step<Pending, u16, E> {
        match self.exchange.next(received) {
            Step::Continue(exchange) => Step::Continue(
                Pending { measurement: self.measurement, exchange },
            ),
            Step::Finished(Ok(value)) => Step::Finished(
                Ok(self.measurement.spec_interpret(value)),
            ),
            Step::Finished(Err(error)) => Step::Finished(Err(error)),
        }
    }

    /// Starts measuring `measurement`.
    pub fn start(measurement: Measurement) -> (pending: Self)
        ensures
            pending == Pending::started(measurement),
    {
        Pending { measurement, exchange: ReadExchange::new(measurement.register()) }
    }

    /// The bytes to transmit in the next transfer.
    pub fn outgoing(&self) -> (bytes: [u8; 2])
        ensures
            bytes@ == wire_bytes(self.frame()),
    {
        self.exchange.outgoing()
    }

    /// Takes the outcome of the transfer and says how the measurement goes on.
    pub fn advance<E>(self, received: Result<[u8; 2], E>) -> (step: Step<Pending, u16, E>)
        ensures
            step == self.next(received),
            step matches Step::Finished(Ok(quantity)) ==> quantity <= self.measurement.limit()
                && self.remaining() == 1,
            step matches Step::Continue(state) ==> state.remaining() + 1 == self.remaining(),
    {
        match self.exchange.advance(received) {
            Step::Continue(exchange) => Step::Continue(
                Pending { measurement: self.measurement, exchange },
            ),
            Step::Finished(Ok(value)) => Step::Finished(Ok(self.measurement.interpret(value))),
            Step::Finished(Err(error)) => Step::Finished(Err(error)),
        }
    }
}

/// A read of the diagnostics register in progress.
#[derive(Debug, Clone, Copy, PartialEq, Eq, Structural)]
pub struct PendingDiagnostics {
    /// The state of the register read.
    pub exchange: ReadExchange,
}

impl PendingDiagnostics {
    /// The state before the first transfer.
    pub open spec fn started() -> PendingDiagnostics {
        PendingDiagnostics { exchange: ReadExchange::Command(Register::DiagAgc) }
    }

    /// The state between the first and the second transfer.
    pub open spec fn awaiting() -> PendingDiagnostics {
        PendingDiagnostics { exchange: ReadExchange::Response(Register::DiagAgc) }
    }

    /// The frame that the next transfer sends.
    pub open spec fn frame(self) -> u16 {
        self.exchange.frame()
    }

    /// The number of transfers that are still to come when none of them fails.
    pub open spec fn remaining(self) -> nat {
        self.exchange.remaining()
    }

    /// The state after a transfer that ended with `received`: the state of
    /// the read, and at its end the diagnostics that wrap what was read.
    pub open spec fn next<E>(self, received: Result<[u8; 2], E>) -> Step<
        PendingDiagnostics,
        Diagnostics,
        E,
    > {
        match self.exchange.next(received) {
            Step::Continue(exchange) => Step::Continue(PendingDiagnostics { exchange }),
            Step::Finished(Ok(value)) => Step::Finished(Ok(Diagnostics::from_raw(value))),
            Step::Finished(Err(error)) => Step::Finished(Err(error)),
        }
    }

    /// Starts reading the diagnostics register.
    pub fn start() -> (pending: Self)
        ensures
            pending == PendingDiagnostics::started(),
    {
        PendingDiagnostics { exchange: ReadExchange::new(Register::DiagAgc) }
    }

    /// The bytes to transmit in the next transfer.
    pub fn outgoing(&self) -> (bytes: [u8; 2])
        ensures
            bytes@ == wire_bytes(self.frame()),
    {
        self.exchange.outgoing()
    }

    /// Takes the outcome of the transfer and says how the read goes on.
    pub fn advance<E>(self, received: Result<[u8; 2], E>) -> (step: Step<
        PendingDiagnostics,
        Diagnostics,
        E,
    >)
        ensures
            step == self.next(received),
            step matches Step::Finished(Ok(diagnostics)) ==> diagnostics@ <= 0x3FFF
                && self.remaining() == 1,
            step matches Step::Continue(state) ==> state.remaining() + 1 == self.remaining(),
    {
        match self.exchange.advance(received) {
            Step::Continue(exchange) => Step::Continue(PendingDiagnostics { exchange }),
            Step::Finished(Ok(value)) => Step::Finished(Ok(Diagnostics::new(value))),
            Step::Finished(Err(error)) => Step::Finished(Err(error)),
        }
    }
}

/// A reset of the sensor's error latch in progress. The latch is reset by
/// reading the error register; the flags that are read are dropped.
#[derive(Debug, Clone, Copy, PartialEq, Eq, Structural)]
pub struct PendingClear {
    /// The state of the register read.
    pub exchange: ReadExchange,
}

impl PendingClear {
    /// The state before the first transfer.
    pub open spec fn started() -> PendingClear {
        PendingClear { exchange: ReadExchange::Command(Register::ClearErrorFlag) }
    }

    /// The state between the first and the second transfer.
    pub open spec fn awaiting() -> PendingClear {
        PendingClear { exchange: ReadExchange::Response(Register::ClearErrorFlag) }
    }

    /// The frame that the next transfer sends.
    pub open spec fn frame(self) -> u16 {
        self.exchange.frame()
    }

    /// The number of transfers that are still to come when none of them fails.
    pub open spec fn remaining(self) -> nat {
        self.exchange.remaining()
    }

    /// The state after a transfer that ended with `received`: the state of
    /// the read, and at its end success or the error of the read.
    pub open spec fn next<E>(self, received: Result<[u8; 2], E>) -> Step<PendingClear, (), E> {
        match self.exchange.next(received) {
            Step::Continue(exchange) => Step::Continue(PendingClear { exchange }),
            Step::Finished(Ok(_)) => Step::Finished(Ok(())),
            Step::Finished(Err(error)) => Step::Finished(Err(error)),
        }
    }

    /// Starts the reset of the error latch.
    pub fn start() -> (pending: Self)
        ensures
            pending == PendingClear::started(),
    {
        PendingClear { exchange: ReadExchange::new(Register::ClearErrorFlag) }
    }

    /// The bytes to transmit in the next transfer.
    pub fn outgoing(&self) -> (bytes: [u8; 2])
        ensures
            bytes@ == wire_bytes(self.frame()),
    {
        self.exchange.outgoing()
    }

    /// Takes the outcome of the transfer and says how the reset goes on.
    pub fn advance<E>(self, received: Result<[u8; 2], E>) -> (step: Step<PendingClear, (), E>)
        ensures
            step == self.next(received),
            step matches Step::Finished(Ok(_)) ==> self.remaining() == 1,
            step matches Step::Continue(state) ==> state.remaining() + 1 == self.remaining(),
    {
        match self.exchange.advance(received) {
            Step::Continue(exchange) => Step::Continue(PendingClear { exchange }),
            Step::Finished(Ok(_)) => Step::Finished(Ok(())),
            Step::Finished(Err(error)) => Step::Finished(Err(error)),
        }
    }
}

/// A measurement whose two transfers succeed ends with the quantity made of
/// what the second reply decodes to, or with the error found in that reply.
/// The same holds of the diagnostics and of the reset of the error latch.
pub proof fn outcome_of_two_transfers<E>(
    measurement: Measurement,
    first: [u8; 2],
    second: [u8; 2],
)
    ensures
        Pending::started(measurement).next::<E>(Ok(first)) == Step::<Pending, u16, E>::Continue(
            Pending::awaiting(measurement),
        ),
        Pending::awaiting(measurement).next::<E>(Ok(second)) == Step::<Pending, u16, E>::Finished(
            match decoded::<E>(wire_word(second@)) {
                Ok(value) => Ok(measurement.spec_interpret(value)),
                Err(error) => Err(error),
            },
        ),
        PendingDiagnostics::started().next::<E>(Ok(first)) == Step::<
            PendingDiagnostics,
            Diagnostics,
            E,
        >::Continue(PendingDiagnostics::awaiting()),
        PendingDiagnostics::awaiting().next::<E>(Ok(second)) == Step::<
            PendingDiagnostics,
            Diagnostics,
            E,
        >::Finished(
            match decoded::<E>(wire_word(second@)) {
                Ok(value) => Ok(Diagnostics::from_raw(value)),
                Err(error) => Err(error),
            },
        ),
        PendingClear::started().next::<E>(Ok(first)) == Step::<PendingClear, (), E>::Continue(
            PendingClear::awaiting(),
        ),
        PendingClear::awaiting().next::<E>(Ok(second)) == Step::<PendingClear, (), E>::Finished(
            match decoded::<E>(wire_word(second@)) {
                Ok(_) => Ok(()),
                Err(error) => Err(error),
            },
        ),
{
}

/// When the sensor answers with the frame for a 14-bit `value`, an angle
/// measurement yields that value and a magnitude measurement likewise.
pub proof fn value_is_delivered<E>(value: u16, second: [u8; 2])
    requires
        value <= 0x3FFF,
        second@ == wire_bytes(data_word(value)),
    ensures
        Pending::awaiting(Measurement::Angle).next::<E>(Ok(second)) == Step::<
            Pending,
            u16,
            E,
        >::Finished(Ok(value)),
        Pending::awaiting(Measurement::Magnitude).next::<E>(Ok(second)) == Step::<
            Pending,
            u16,
            E,
        >::Finished(Ok(value)),
{
    payload_round_trip::<E>(value);
    wire_round_trip(data_word(value), second@);
}

/// AS5048A driver instance
///
/// The handle owns the bus for as long as it lives. Its operations hand out
/// the sequence of transfers to perform on that bus.
#[derive(Debug)]
pub struct As5048a<SPI> {
    spi: SPI,
}

impl<SPI> As5048a<SPI> {
    /// The bus that the handle owns.
    pub closed spec fn bus(self) -> SPI {
        self.spi
    }

    /// Create a new AS5048A driver instance
    pub fn new(spi: SPI) -> (sensor: Self)
        ensures
            sensor.bus() == spi,
    {
        Self { spi }
    }

    /// Release the SPI bus, consuming the driver
    pub fn release(self) -> (spi: SPI)
        ensures
            spi == self.bus(),
    {
        self.spi
    }

    /// The bus, for the transfers of an operation in progress.
    pub fn transport(&mut self) -> (spi: &mut SPI)
        ensures
            *spi == old(self).bus(),
            final(self).bus() == *final(spi),
    {
        &mut self.spi
    }

    /// Read a register from the AS5048A
    ///
    /// This follows the command-response protocol:
    /// - Transaction 1: Send read command, ignore response
    /// - Transaction 2: Send NOP, receive actual data
    pub fn read_register(&self, register: Register) -> (exchange: ReadExchange)
        ensures
            exchange == ReadExchange::Command(register),
    {
        ReadExchange::new(register)
    }

    /// Write a register to the AS5048A
    ///
    /// This follows the write protocol:
    /// - Transaction 1: Send write command
    /// - Transaction 2: Send data frame
    /// - Transaction 3: Send NOP to verify write
    pub fn write_register(&self, register: Register, data: u16) -> (exchange: WriteExchange)
        ensures
            exchange == WriteExchange::Command(register, data),
    {
        WriteExchange::new(register, data)
    }

    /// Read a register, transform its value and write the result back
    pub fn modify_register(&self, register: Register) -> (exchange: ModifyExchange)
        ensures
            exchange == ModifyExchange::Reading(ReadExchange::Command(register)),
    {
        ModifyExchange::new(register)
    }

    /// Get the 14-bit corrected angular position
    ///
    /// Value ranges from 0 to 16383, where 16383 is the full turn
    /// Use [`ANGLE_MAX`] constant for conversion calculations
    ///
    /// For integer degree conversion, use [`Self::angle_degrees`]
    pub fn angle(&self) -> (pending: Pending)
        ensures
            pending == Pending::started(Measurement::Angle),
            pending.exchange == ReadExchange::Command(Register::Angle),
    {
        Pending::start(Measurement::Angle)
    }

    /// Get the angular position in degrees (0 to 360, with 360 only at full scale)
    ///
    /// The raw 14-bit angle value is converted to degrees using integer
    /// arithmetic. The result is rounded down
    pub fn angle_degrees(&self) -> (pending: Pending)
        ensures
            pending == Pending::started(Measurement::AngleDegrees),
            pending.exchange == ReadExchange::Command(Register::Angle),
    {
        Pending::start(Measurement::AngleDegrees)
    }

    /// Get the 14-bit magnitude value from CORDIC
    ///
    /// Useful for checking magnet presence and strength
    pub fn magnitude(&self) -> (pending: Pending)
        ensures
            pending == Pending::started(Measurement::Magnitude),
            pending.exchange == ReadExchange::Command(Register::Magnitude),
    {
        Pending::start(Measurement::Magnitude)
    }

    /// Get the diagnostics and AGC register
    ///
    /// The answer is a `Diagnostics` struct with helper methods to check:
    /// - Magnetic field strength (`COMP_HIGH`, `COMP_LOW`)
    /// - CORDIC overflow
    /// - Offset compensation status
    /// - AGC value
    pub fn diagnostics(&self) -> (pending: PendingDiagnostics)
        ensures
            pending == PendingDiagnostics::started(),
            pending.exchange == ReadExchange::Command(Register::DiagAgc),
    {
        PendingDiagnostics::start()
    }

    /// Get the zero position, joined from its two registers
    pub fn zero_position(&self) -> (state: ZeroPositionRead)
        ensures
            state == ZeroPositionRead::High(ReadExchange::Command(Register::ZeroPositionHi)),
    {
        ZeroPositionRead::new()
    }

    /// Set the zero position to `value`, split over its two registers
    pub fn set_zero_position(&self, value: u16) -> (state: ZeroPositionWrite)
        ensures
            state == ZeroPositionWrite::High(
                value,
                ModifyExchange::Reading(ReadExchange::Command(Register::ZeroPositionHi)),
            ),
    {
        ZeroPositionWrite::new(value)
    }

    /// Clear the error flag by reading the clear error flag register
    pub fn clear_error_flag(&self) -> (pending: PendingClear)
        ensures
            pending == PendingClear::started(),
            pending.exchange == ReadExchange::Command(Register::ClearErrorFlag),
    {
        PendingClear::start()
    }
}

} // verus!
