//! The transaction sequences that read and write a register.
//!
//! The sensor answers a command in the transfer that follows it. A read
//! therefore takes two transfers: the read command, then a NOP whose reply
//! carries the register contents. A write takes three: the write command, the
//! data frame, then a NOP whose reply confirms that the write was accepted.
//!
//! The sequences are state machines. The caller transmits the frame that the
//! current state asks for, and hands the bytes it received, or the failure of
//! the bus, to `advance`. A failure ends the sequence at once; nothing is
//! retried and nothing is rolled back.
use vstd::prelude::*;
use crate::error::Error;
use crate::frame::{
    data_frame, data_word, decode_response, decoded, read_command, read_command_word, to_wire,
    wire_bytes, wire_word, write_command, write_command_word, from_wire, NOP_COMMAND,
};
use crate::parity::has_even_parity;
use crate::register::Register;

verus! {

/// What a sequence asks of its caller after a transfer.
#[derive(Debug, PartialEq, Eq)]
pub enum Step<S, T, E> {
    /// Another transfer is needed; the state says which frame to send.
    Continue(S),
    /// The sequence is over, with its value or the error that ended it.
    Finished(Result<T, Error<E>>),
}

/// The state of a register read: the transfer that comes next.
#[derive(Debug, Clone, Copy, PartialEq, Eq, Structural)]
pub enum ReadExchange {
    /// The read command for the register is sent next.
    Command(Register),
    /// The NOP that fetches the contents of the register is sent next.
    Response(Register),
}

/// The state of a register write: the transfer that comes next.
#[derive(Debug, Clone, Copy, PartialEq, Eq, Structural)]
pub enum WriteExchange {
    /// The write command for the register is sent next; the data follows.
    Command(Register, u16),
    /// The data frame for the register is sent next.
    Data(Register, u16),
    /// The NOP that fetches the sensor's verdict on the write is sent next.
    Verify(Register),
}

impl ReadExchange {
    /// The frame that the next transfer sends.
    pub open spec fn frame(self) -> u16 {
        match self {
            ReadExchange::Command(register) => read_command_word(register),
            ReadExchange::Response(_) => NOP_COMMAND,
        }
    }

    /// The state after a transfer that ended with `received`.
    ///
    /// The bytes that come back with the command are ignored. The bytes that
    /// come back with the NOP are the response frame.
    pub open spec fn next<E>(self, received: Result<[u8; 2], E>) -> Step<ReadExchange, u16, E> {
        match received {
            Err(fault) => Step::Finished(Err(Error::Communication(fault))),
            Ok(bytes) => match self {
                ReadExchange::Command(register) => Step::Continue(
                    ReadExchange::Response(register),
                ),
                ReadExchange::Response(_) => Step::Finished(decoded(wire_word(bytes@))),
            },
        }
    }

    /// The number of transfers that a read in this state still takes when
    /// none of them fails.
    pub open spec fn remaining(self) -> nat {
        match self {
            ReadExchange::Command(_) => 2,
            ReadExchange::Response(_) => 1,
        }
    }

    /// The register that is being read.
    pub open spec fn spec_register(self) -> Register {
        match self {
            ReadExchange::Command(register) => register,
            ReadExchange::Response(register) => register,
        }
    }

    /// Starts a read of `register`.
    pub fn new(register: Register) -> (exchange: Self)
        ensures
            exchange == ReadExchange::Command(register),
    {
        ReadExchange::Command(register)
    }

    /// The register that is being read.
    #[verifier::when_used_as_spec(spec_register)]
    pub fn register(self) -> (register: Register)
        ensures
            register == self.spec_register(),
    {
        match self {
            ReadExchange::Command(register) => register,
            ReadExchange::Response(register) => register,
        }
    }

    /// The bytes to transmit in the next transfer.
    pub fn outgoing(&self) -> (bytes: [u8; 2])
        ensures
            bytes@ == wire_bytes(self.frame()),
    {
        match self {
            ReadExchange::Command(register) => to_wire(read_command(*register)),
            ReadExchange::Response(_) => to_wire(NOP_COMMAND),
        }
    }

    /// Takes the outcome of the transfer and says how the read goes on.
    pub fn advance<E>(self, received: Result<[u8; 2], E>) -> (step: Step<ReadExchange, u16, E>)
        ensures
            step == self.next(received),
            step matches Step::Finished(Ok(value)) ==> value <= 0x3FFF && self.remaining() == 1,
            step matches Step::Continue(state) ==> state.remaining() + 1 == self.remaining(),
    {
        match received {
            Err(fault) => Step::Finished(Err(Error::Communication(fault))),
            Ok(bytes) => match self {
                ReadExchange::Command(register) => Step::Continue(
                    ReadExchange::Response(register),
                ),
                ReadExchange::Response(_) => Step::Finished(decode_response(from_wire(bytes))),
            },
        }
    }

    /// A read whose two transfers succeed sends the read command and then a
    /// NOP, and ends with what the second reply decodes to. The first reply
    /// has no influence.
    pub proof fn read_sequence<E>(register: Register, first: [u8; 2], second: [u8; 2])
        ensures
            ReadExchange::Command(register).frame() == read_command_word(register),
            ReadExchange::Command(register).next::<E>(Ok(first)) == Step::<
                ReadExchange,
                u16,
                E,
            >::Continue(ReadExchange::Response(register)),
            ReadExchange::Response(register).frame() == 0,
            ReadExchange::Response(register).next::<E>(Ok(second)) == Step::<
                ReadExchange,
                u16,
                E,
            >::Finished(decoded(wire_word(second@))),
    {
    }

    /// A read is answered by the reply to the NOP alone: a reply with an odd
    /// number of ones is a parity error, one with an even number and the
    /// error flag is a sensor error, and any other yields its low 14 bits.
    pub proof fn read_outcome<E>(register: Register, reply: [u8; 2])
        ensures
            ({
                let frame = wire_word(reply@);
                let step = ReadExchange::Response(register).next::<E>(Ok(reply));
                &&& !has_even_parity(frame) ==> step == Step::<ReadExchange, u16, E>::Finished(
                    Err(Error::ParityError),
                )
                &&& has_even_parity(frame) && frame & 0x4000 != 0 ==> step == Step::<
                    ReadExchange,
                    u16,
                    E,
                >::Finished(Err(Error::SensorError))
                &&& has_even_parity(frame) && frame & 0x4000 == 0 ==> step == Step::<
                    ReadExchange,
                    u16,
                    E,
                >::Finished(Ok(frame & 0x3FFF))
            }),
    {
    }

    /// A failure of the bus ends a read in any state with that failure.
    pub proof fn read_stops_on_failure<E>(self, fault: E)
        ensures
            self.next(Err::<[u8; 2], E>(fault)) == Step::<ReadExchange, u16, E>::Finished(
                Err(Error::Communication(fault)),
            ),
    {
    }
}

impl WriteExchange {
    /// The frame that the next transfer sends.
    pub open spec fn frame(self) -> u16 {
        match self {
            WriteExchange::Command(register, _) => write_command_word(register),
            WriteExchange::Data(_, data) => data_word(data),
            WriteExchange::Verify(_) => NOP_COMMAND,
        }
    }

    /// The number of transfers that a write in this state still takes when
    /// none of them fails.
    pub open spec fn remaining(self) -> nat {
        match self {
            WriteExchange::Command(_, _) => 3,
            WriteExchange::Data(_, _) => 2,
            WriteExchange::Verify(_) => 1,
        }
    }

    /// The state after a transfer that ended with `received`.
    ///
    /// The bytes that come back with the command and with the data are
    /// ignored. The bytes that come back with the NOP are checked like a
    /// response to a read, and their payload is dropped.
    pub open spec fn next<E>(self, received: Result<[u8; 2], E>) -> Step<WriteExchange, (), E> {
        match received {
            Err(fault) => Step::Finished(Err(Error::Communication(fault))),
            Ok(bytes) => match self {
                WriteExchange::Command(register, data) => Step::Continue(
                    WriteExchange::Data(register, data),
                ),
                WriteExchange::Data(register, _) => Step::Continue(
                    WriteExchange::Verify(register),
                ),
                WriteExchange::Verify(_) => Step::Finished(
                    match decoded::<E>(wire_word(bytes@)) {
                        Ok(_) => Ok(()),
                        Err(error) => Err(error),
                    },
                ),
            },
        }
    }

    /// Starts a write of `data` to `register`.
    pub fn new(register: Register, data: u16) -> (exchange: Self)
        ensures
            exchange == WriteExchange::Command(register, data),
    {
        WriteExchange::Command(register, data)
    }

    /// The bytes to transmit in the next transfer.
    pub fn outgoing(&self) -> (bytes: [u8; 2])
        ensures
            bytes@ == wire_bytes(self.frame()),
    {
        match self {
            WriteExchange::Command(register, _) => to_wire(write_command(*register)),
            WriteExchange::Data(_, data) => to_wire(data_frame(*data)),
            WriteExchange::Verify(_) => to_wire(NOP_COMMAND),
        }
    }

    /// Takes the outcome of the transfer and says how the write goes on.
    pub fn advance<E>(self, received: Result<[u8; 2], E>) -> (step: Step<WriteExchange, (), E>)
        ensures
            step == self.next(received),
            step matches Step::Finished(Ok(_)) ==> self.remaining() == 1,
            step matches Step::Continue(state) ==> state.remaining() + 1 == self.remaining(),
    {
        match received {
            Err(fault) => Step::Finished(Err(Error::Communication(fault))),
            Ok(bytes) => match self {
                WriteExchange::Command(register, data) => Step::Continue(
                    WriteExchange::Data(register, data),
                ),
                WriteExchange::Data(register, _) => Step::Continue(
                    WriteExchange::Verify(register),
                ),
                WriteExchange::Verify(_) => {
                    let verdict: Result<u16, Error<E>> = decode_response(from_wire(bytes));
                    match verdict {
                        Ok(_) => Step::Finished(Ok(())),
                        Err(error) => Step::Finished(Err(error)),
                    }
                },
            },
        }
    }

    /// A write whose three transfers succeed sends the write command, the
    /// data frame and a NOP, and is accepted exactly when the third reply
    /// decodes without error. The first two replies have no influence.
    pub proof fn write_sequence<E>(
        register: Register,
        data: u16,
        first: [u8; 2],
        second: [u8; 2],
        third: [u8; 2],
    )
        ensures
            WriteExchange::Command(register, data).frame() == write_command_word(register),
            WriteExchange::Command(register, data).next::<E>(Ok(first)) == Step::<
                WriteExchange,
                (),
                E,
            >::Continue(WriteExchange::Data(register, data)),
            WriteExchange::Data(register, data).frame() == data_word(data),
            WriteExchange::Data(register, data).next::<E>(Ok(second)) == Step::<
                WriteExchange,
                (),
                E,
            >::Continue(WriteExchange::Verify(register)),
            WriteExchange::Verify(register).frame() == 0,
            WriteExchange::Verify(register).next::<E>(Ok(third)) matches Step::Finished(verdict)
                && (verdict is Ok <==> decoded::<E>(wire_word(third@)) is Ok),
    {
    }

    /// A failure of the bus ends a write in any state with that failure.
    pub proof fn write_stops_on_failure<E>(self, fault: E)
        ensures
            self.next(Err::<[u8; 2], E>(fault)) == Step::<WriteExchange, (), E>::Finished(
                Err(Error::Communication(fault)),
            ),
    {
    }
}

/// The state of a read-modify-write: a read of the register, then a write of
/// the value that the caller's transformation makes of what was read.
///
/// The two halves are separate accesses to the sensor. An error in either
/// ends the whole operation.
#[derive(Debug, Clone, Copy, PartialEq, Eq, Structural)]
pub enum ModifyExchange {
    /// The register is being read.
    Reading(ReadExchange),
    /// The transformed value is being written.
    Writing(WriteExchange),
}

impl ModifyExchange {
    /// The frame that the next transfer sends.
    pub open spec fn frame(self) -> u16 {
        match self {
            ModifyExchange::Reading(read) => read.frame(),
            ModifyExchange::Writing(write) => write.frame(),
        }
    }

    /// The number of transfers that the operation still takes in this state
    /// when none of them fails: those of the read and the three of the write,
    /// or what is left of the write.
    pub open spec fn remaining(self) -> nat {
        match self {
            ModifyExchange::Reading(read) => read.remaining() + 3,
            ModifyExchange::Writing(write) => write.remaining(),
        }
    }

    /// The register contents that the transfer brings in, when it is the one
    /// that completes the read.
    pub open spec fn value_read<E>(self, received: Result<[u8; 2], E>) -> Option<u16> {
        match self {
            ModifyExchange::Reading(read) => match read.next(received) {
                Step::Finished(Ok(value)) => Some(value),
                _ => None,
            },
            ModifyExchange::Writing(_) => None,
        }
    }

    /// The state after a transfer that ended with `received`, where `updated`
    /// is what the transformation makes of the value read. `updated` counts
    /// only for the transfer that completes the read.
    pub open spec fn next<E>(self, received: Result<[u8; 2], E>, updated: u16) -> Step<
        ModifyExchange,
        (),
        E,
    > {
        match self {
            ModifyExchange::Reading(read) => match read.next(received) {
                Step::Continue(read) => Step::Continue(ModifyExchange::Reading(read)),
                Step::Finished(Ok(_)) => Step::Continue(
                    ModifyExchange::Writing(
                        WriteExchange::Command(read.spec_register(), updated),
                    ),
                ),
                Step::Finished(Err(error)) => Step::Finished(Err(error)),
            },
            ModifyExchange::Writing(write) => match write.next(received) {
                Step::Continue(write) => Step::Continue(ModifyExchange::Writing(write)),
                Step::Finished(verdict) => Step::Finished(verdict),
            },
        }
    }

    /// A read-modify-write sends the read command and a NOP. When the reply
    /// to the NOP decodes to a value, the write of `updated` to the same
    /// register follows, and its verdict is the verdict of the whole; when
    /// the reply decodes to an error, the operation ends there and nothing
    /// is written.
    pub proof fn modify_sequence<E>(
        register: Register,
        first: [u8; 2],
        second: [u8; 2],
        updated: u16,
    )
        ensures
            ({
                let start = ModifyExchange::Reading(ReadExchange::Command(register));
                let fetch = ModifyExchange::Reading(ReadExchange::Response(register));
                let write = WriteExchange::Command(register, updated);
                &&& start.frame() == read_command_word(register)
                &&& start.value_read::<E>(Ok(first)) == None::<u16>
                &&& start.next::<E>(Ok(first), updated) == Step::<
                    ModifyExchange,
                    (),
                    E,
                >::Continue(fetch)
                &&& fetch.frame() == 0
                &&& match decoded::<E>(wire_word(second@)) {
                    Ok(value) => fetch.value_read::<E>(Ok(second)) == Some(value) && fetch.next::<
                        E,
                    >(Ok(second), updated) == Step::<ModifyExchange, (), E>::Continue(
                        ModifyExchange::Writing(write),
                    ),
                    Err(error) => fetch.next::<E>(Ok(second), updated) == Step::<
                        ModifyExchange,
                        (),
                        E,
                    >::Finished(Err(error)),
                }
                &&& ModifyExchange::Writing(write).frame() == write_command_word(register)
            }),
    {
    }

    /// Starts a read-modify-write of `register`.
    pub fn new(register: Register) -> (exchange: Self)
        ensures
            exchange == ModifyExchange::Reading(ReadExchange::Command(register)),
    {
        ModifyExchange::Reading(ReadExchange::Command(register))
    }

    /// The bytes to transmit in the next transfer.
    pub fn outgoing(&self) -> (bytes: [u8; 2])
        ensures
            bytes@ == wire_bytes(self.frame()),
    {
        match self {
            ModifyExchange::Reading(read) => read.outgoing(),
            ModifyExchange::Writing(write) => write.outgoing(),
        }
    }

    /// Takes the outcome of the transfer and says how the operation goes on.
    ///
    /// `transform` is applied once, to the value that the read brings in, and
    /// must accept every 14-bit value.
    pub fn advance<E, F: Fn(u16) -> u16>(self, received: Result<[u8; 2], E>, transform: F) -> (step:
        Step<ModifyExchange, (), E>)
        requires
            forall|value: u16| value <= 0x3FFF ==> transform.requires((value,)),
        ensures
            match self.value_read(received) {
                Some(value) => exists|updated: u16|
                    transform.ensures((value,), updated) && step == self.next(received, updated),
                None => step == self.next(received, 0),
            },
            step matches Step::Finished(Ok(_)) ==> self.remaining() == 1,
            step matches Step::Continue(state) ==> state.remaining() + 1 == self.remaining(),
    {
        match self {
            ModifyExchange::Reading(read) => {
                let register: Register = read.register();
                match read.advance(received) {
                    Step::Continue(read) => Step::Continue(ModifyExchange::Reading(read)),
                    Step::Finished(Ok(value)) => {
                        let updated: u16 = transform(value);
                        let step = Step::Continue(
                            ModifyExchange::Writing(WriteExchange::new(register, updated)),
                        );
                        assert(transform.ensures((value,), updated) && step == self.next(
                            received,
                            updated,
                        ));
                        step
                    },
                    Step::Finished(Err(error)) => Step::Finished(Err(error)),
                }
            },
            ModifyExchange::Writing(write) => match write.advance(received) {
                Step::Continue(write) => Step::Continue(ModifyExchange::Writing(write)),
                Step::Finished(verdict) => Step::Finished(verdict),
            },
        }
    }
}

} // verus!
