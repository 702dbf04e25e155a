//! Tests of the transaction sequences against a simulated sensor.

use as5048a_async::driver::{Measurement, Pending, PendingClear, PendingDiagnostics};
use as5048a_async::exchange::{ModifyExchange, ReadExchange, Step, WriteExchange};
use as5048a_async::zero_position::{ZeroPositionRead, ZeroPositionWrite};
use as5048a_async::{As5048a, Diagnostics, Error, Register};

/// A sensor that keeps 14-bit registers and answers each frame in the
/// transfer after it, as the device does.
#[derive(Debug)]
struct Sensor {
    registers: Vec<(u16, u16)>,
    pending: u16,
    write_to: Option<u16>,
    sent: Vec<u16>,
    fail_at: Option<usize>,
    raise_error: bool,
}

fn seal(value: u16) -> u16 {
    if (value & 0x7FFF).count_ones() % 2 == 1 {
        0x8000 | value
    } else {
        value & 0x7FFF
    }
}

impl Sensor {
    fn new(registers: &[(u16, u16)]) -> Self {
        Sensor {
            registers: registers.to_vec(),
            pending: 0,
            write_to: None,
            sent: Vec::new(),
            fail_at: None,
            raise_error: false,
        }
    }

    fn load(&self, address: u16) -> u16 {
        self.registers.iter().find(|(a, _)| *a == address).map_or(0, |(_, v)| *v)
    }

    fn store(&mut self, address: u16, value: u16) {
        match self.registers.iter_mut().find(|(a, _)| *a == address) {
            Some(slot) => slot.1 = value,
            None => self.registers.push((address, value)),
        }
    }

    fn transfer(&mut self, bytes: [u8; 2]) -> Result<[u8; 2], usize> {
        let index = self.sent.len();
        let frame = u16::from_be_bytes(bytes);
        self.sent.push(frame);
        if self.fail_at == Some(index) {
            return Err(index);
        }
        assert_eq!(frame.count_ones() % 2, 0, "frame {frame:#06x} has odd parity");
        let reply = self.pending;
        if let Some(address) = self.write_to.take() {
            let old = self.load(address);
            self.store(address, frame & 0x3FFF);
            self.pending = old;
        } else if frame & 0x4000 != 0 {
            self.pending = self.load(frame & 0x3FFF);
        } else if frame & 0x3FFF != 0 {
            self.write_to = Some(frame & 0x3FFF);
            self.pending = 0;
        } else {
            self.pending = 0;
        }
        let flag = if self.raise_error { 0x4000 } else { 0 };
        Ok(seal(flag | reply).to_be_bytes())
    }
}

fn run_read(sensor: &mut Sensor, register: Register) -> Result<u16, Error<usize>> {
    let mut state = ReadExchange::new(register);
    loop {
        let received = sensor.transfer(state.outgoing());
        match state.advance(received) {
            Step::Continue(next) => state = next,
            Step::Finished(outcome) => return outcome,
        }
    }
}

fn run_write(sensor: &mut Sensor, register: Register, data: u16) -> Result<(), Error<usize>> {
    let mut state = WriteExchange::new(register, data);
    loop {
        let received = sensor.transfer(state.outgoing());
        match state.advance(received) {
            Step::Continue(next) => state = next,
            Step::Finished(outcome) => return outcome,
        }
    }
}

fn run_modify(
    sensor: &mut Sensor,
    register: Register,
    transform: fn(u16) -> u16,
) -> Result<(), Error<usize>> {
    let mut state = ModifyExchange::new(register);
    loop {
        let received = sensor.transfer(state.outgoing());
        match state.advance(received, transform) {
            Step::Continue(next) => state = next,
            Step::Finished(outcome) => return outcome,
        }
    }
}

fn run_query(sensor: &mut Sensor, pending: Pending) -> Result<u16, Error<usize>> {
    let mut state = pending;
    loop {
        let received = sensor.transfer(state.outgoing());
        match state.advance(received) {
            Step::Continue(next) => state = next,
            Step::Finished(outcome) => return outcome,
        }
    }
}

fn run_diagnostics(
    sensor: &mut Sensor,
    pending: PendingDiagnostics,
) -> Result<Diagnostics, Error<usize>> {
    let mut state = pending;
    loop {
        let received = sensor.transfer(state.outgoing());
        match state.advance(received) {
            Step::Continue(next) => state = next,
            Step::Finished(outcome) => return outcome,
        }
    }
}

fn run_clear(sensor: &mut Sensor, pending: PendingClear) -> Result<(), Error<usize>> {
    let mut state = pending;
    loop {
        let received = sensor.transfer(state.outgoing());
        match state.advance(received) {
            Step::Continue(next) => state = next,
            Step::Finished(outcome) => return outcome,
        }
    }
}

fn run_zero_read(sensor: &mut Sensor, start: ZeroPositionRead) -> Result<u16, Error<usize>> {
    let mut state = start;
    loop {
        let received = sensor.transfer(state.outgoing());
        match state.advance(received) {
            Step::Continue(next) => state = next,
            Step::Finished(outcome) => return outcome,
        }
    }
}

fn run_zero_write(sensor: &mut Sensor, start: ZeroPositionWrite) -> Result<(), Error<usize>> {
    let mut state = start;
    loop {
        let received = sensor.transfer(state.outgoing());
        match state.advance(received) {
            Step::Continue(next) => state = next,
            Step::Finished(outcome) => return outcome,
        }
    }
}

#[test]
fn read_takes_two_transfers() {
    let mut sensor = Sensor::new(&[(0x3FFF, 0x1234)]);
    assert_eq!(run_read(&mut sensor, Register::Angle), Ok(0x1234));
    assert_eq!(sensor.sent, vec![0xFFFF, 0x0000]);
}

#[test]
fn read_states_and_frames() {
    let start = ReadExchange::new(Register::Magnitude);
    assert_eq!(start, ReadExchange::Command(Register::Magnitude));
    assert_eq!(start.register(), Register::Magnitude);
    assert_eq!(start.outgoing(), [0x7F, 0xFE]);
    let step: Step<ReadExchange, u16, ()> = start.advance(Ok([0xAB, 0xCD]));
    assert_eq!(step, Step::Continue(ReadExchange::Response(Register::Magnitude)));
    let second = ReadExchange::Response(Register::Magnitude);
    assert_eq!(second.outgoing(), [0x00, 0x00]);
    assert_eq!(second.advance::<()>(Ok([0x8A, 0xBC])), Step::Finished(Ok(0x0ABC)));
    assert_eq!(second.advance::<()>(Ok([0xC0, 0x01])), Step::Finished(Err(Error::ParityError)));
    assert_eq!(second.advance::<()>(Ok([0xC0, 0x00])), Step::Finished(Err(Error::SensorError)));
}

#[test]
fn read_reports_bus_failure_at_either_transfer() {
    for index in 0..2usize {
        let mut sensor = Sensor::new(&[(0x3FFF, 0x1234)]);
        sensor.fail_at = Some(index);
        assert_eq!(run_read(&mut sensor, Register::Angle), Err(Error::Communication(index)));
        assert_eq!(sensor.sent.len(), index + 1);
    }
}

#[test]
fn write_takes_three_transfers() {
    let mut sensor = Sensor::new(&[(0x0016, 0x0011)]);
    assert_eq!(run_write(&mut sensor, Register::ZeroPositionHi, 0x0048), Ok(()));
    assert_eq!(sensor.sent, vec![0x8016, 0x0048, 0x0000]);
    assert_eq!(sensor.load(0x0016), 0x0048);
}

#[test]
fn write_masks_data_to_14_bits() {
    let mut sensor = Sensor::new(&[]);
    assert_eq!(run_write(&mut sensor, Register::ZeroPositionLow, 0xFFFF), Ok(()));
    assert_eq!(sensor.sent, vec![0x0017, 0x3FFF, 0x0000]);
    assert_eq!(sensor.load(0x0017), 0x3FFF);
}

#[test]
fn write_states_and_frames() {
    let start = WriteExchange::new(Register::ZeroPositionHi, 0x0001);
    assert_eq!(start, WriteExchange::Command(Register::ZeroPositionHi, 0x0001));
    assert_eq!(start.outgoing(), [0x80, 0x16]);
    let data = WriteExchange::Data(Register::ZeroPositionHi, 0x0001);
    assert_eq!(start.advance::<()>(Ok([0xFF, 0xFF])), Step::Continue(data));
    assert_eq!(data.outgoing(), [0x80, 0x01]);
    let verify = WriteExchange::Verify(Register::ZeroPositionHi);
    // The reply to the data frame is not validated.
    assert_eq!(data.advance::<()>(Ok([0xC0, 0x01])), Step::Continue(verify));
    assert_eq!(verify.outgoing(), [0x00, 0x00]);
    assert_eq!(verify.advance::<()>(Ok([0x80, 0x01])), Step::Finished(Ok(())));
    assert_eq!(verify.advance::<()>(Ok([0x00, 0x01])), Step::Finished(Err(Error::ParityError)));
    assert_eq!(verify.advance::<()>(Ok([0xC0, 0x00])), Step::Finished(Err(Error::SensorError)));
    assert_eq!(verify.advance(Err(9u8)), Step::Finished(Err(Error::Communication(9u8))));
}

#[test]
fn write_reports_bus_failure_at_any_transfer() {
    for index in 0..3usize {
        let mut sensor = Sensor::new(&[]);
        sensor.fail_at = Some(index);
        assert_eq!(
            run_write(&mut sensor, Register::ZeroPositionHi, 1),
            Err(Error::Communication(index))
        );
        assert_eq!(sensor.sent.len(), index + 1);
    }
}

#[test]
fn write_reports_sensor_error() {
    let mut sensor = Sensor::new(&[]);
    sensor.raise_error = true;
    assert_eq!(run_write(&mut sensor, Register::ZeroPositionHi, 1), Err(Error::SensorError));
    assert_eq!(sensor.sent.len(), 3);
}

fn set_low_bit(value: u16) -> u16 {
    value | 0x0001
}

#[test]
fn modify_reads_then_writes_the_transformed_value() {
    let mut sensor = Sensor::new(&[(0x0017, 0x00C0)]);
    assert_eq!(run_modify(&mut sensor, Register::ZeroPositionLow, set_low_bit), Ok(()));
    assert_eq!(sensor.sent, vec![0xC017, 0x0000, 0x0017, 0x80C1, 0x0000]);
    assert_eq!(sensor.load(0x0017), 0x00C1);
}

#[test]
fn modify_stops_at_the_first_failure() {
    for index in 0..5usize {
        let mut sensor = Sensor::new(&[(0x0017, 0x00C0)]);
        sensor.fail_at = Some(index);
        assert_eq!(
            run_modify(&mut sensor, Register::ZeroPositionLow, set_low_bit),
            Err(Error::Communication(index))
        );
        assert_eq!(sensor.sent.len(), index + 1);
    }
    let mut sensor = Sensor::new(&[(0x0017, 0x00C0)]);
    sensor.raise_error = true;
    assert_eq!(
        run_modify(&mut sensor, Register::ZeroPositionLow, set_low_bit),
        Err(Error::SensorError)
    );
    assert_eq!(sensor.sent.len(), 2);
    assert_eq!(sensor.load(0x0017), 0x00C0);
}

#[test]
fn queries_read_their_registers() {
    let registers = [(0x3FFF, 0x2000), (0x3FFE, 0x0ABC), (0x3FFD, 0x0480), (0x0001, 0x0002)];
    let handle = As5048a::new(());

    let mut sensor = Sensor::new(&registers);
    assert_eq!(run_query(&mut sensor, handle.angle()), Ok(0x2000));
    assert_eq!(sensor.sent, vec![0xFFFF, 0x0000]);

    let mut sensor = Sensor::new(&registers);
    assert_eq!(run_query(&mut sensor, handle.angle_degrees()), Ok(180));
    assert_eq!(sensor.sent, vec![0xFFFF, 0x0000]);

    let mut sensor = Sensor::new(&registers);
    assert_eq!(run_query(&mut sensor, handle.magnitude()), Ok(0x0ABC));
    assert_eq!(sensor.sent, vec![0x7FFE, 0x0000]);

    let mut sensor = Sensor::new(&registers);
    assert_eq!(run_diagnostics(&mut sensor, handle.diagnostics()), Ok(Diagnostics::new(0x0480)));
    assert_eq!(sensor.sent, vec![0x7FFD, 0x0000]);

    let mut sensor = Sensor::new(&registers);
    assert_eq!(run_clear(&mut sensor, handle.clear_error_flag()), Ok(()));
    assert_eq!(sensor.sent, vec![0x4001, 0x0000]);

    handle.release();
}

#[test]
fn query_start_and_interpretation() {
    assert_eq!(Measurement::Angle.register(), Register::Angle);
    assert_eq!(Measurement::AngleDegrees.register(), Register::Angle);
    assert_eq!(Measurement::Magnitude.register(), Register::Magnitude);
    assert_eq!(Measurement::Angle.interpret(0x3FFE), 0x3FFE);
    assert_eq!(Measurement::AngleDegrees.interpret(0x3FFE), 359);
    assert_eq!(Measurement::AngleDegrees.interpret(0x3FFF), 360);
    assert_eq!(Measurement::AngleDegrees.interpret(0), 0);
    assert_eq!(Measurement::Magnitude.interpret(7), 7);
    assert_eq!(
        PendingDiagnostics::start().exchange,
        ReadExchange::Command(Register::DiagAgc)
    );
    assert_eq!(
        PendingClear::start().exchange,
        ReadExchange::Command(Register::ClearErrorFlag)
    );
    let pending = Pending::start(Measurement::Magnitude);
    assert_eq!(pending.measurement, Measurement::Magnitude);
    assert_eq!(pending.exchange, ReadExchange::Command(Register::Magnitude));
}

#[test]
fn query_reports_errors() {
    let handle = As5048a::new(());
    let mut sensor = Sensor::new(&[(0x3FFF, 0x1234)]);
    sensor.raise_error = true;
    assert_eq!(run_query(&mut sensor, handle.angle_degrees()), Err(Error::SensorError));
    let mut sensor = Sensor::new(&[(0x3FFF, 0x1234)]);
    sensor.fail_at = Some(1);
    assert_eq!(run_query(&mut sensor, handle.angle()), Err(Error::Communication(1)));
    let awaiting =
        Pending { measurement: Measurement::Angle, exchange: ReadExchange::Response(Register::Angle) };
    assert_eq!(awaiting.advance::<()>(Ok([0xC0, 0x01])), Step::Finished(Err(Error::ParityError)));

    let mut sensor = Sensor::new(&[(0x3FFD, 0x0480)]);
    sensor.raise_error = true;
    assert_eq!(run_diagnostics(&mut sensor, handle.diagnostics()), Err(Error::SensorError));
    let mut sensor = Sensor::new(&[(0x3FFD, 0x0480)]);
    sensor.fail_at = Some(0);
    assert_eq!(run_diagnostics(&mut sensor, handle.diagnostics()), Err(Error::Communication(0)));
    assert_eq!(sensor.sent.len(), 1);
    let mut sensor = Sensor::new(&[(0x0001, 0x0002)]);
    sensor.fail_at = Some(1);
    assert_eq!(run_clear(&mut sensor, handle.clear_error_flag()), Err(Error::Communication(1)));
    let mut sensor = Sensor::new(&[(0x0001, 0x0002)]);
    sensor.raise_error = true;
    assert_eq!(run_clear(&mut sensor, handle.clear_error_flag()), Err(Error::SensorError));
}

#[test]
fn handle_gives_the_bus_back() {
    let mut handle = As5048a::new(41u32);
    *handle.transport() += 1;
    assert_eq!(handle.release(), 42);
}

#[test]
fn zero_position_is_read_from_both_registers() {
    let handle = As5048a::new(());
    let mut sensor = Sensor::new(&[(0x0016, 0x0048), (0x0017, 0x00F4)]);
    assert_eq!(run_zero_read(&mut sensor, handle.zero_position()), Ok(0x1234));
    assert_eq!(sensor.sent, vec![0x4016, 0x0000, 0xC017, 0x0000]);
}

#[test]
fn zero_position_set_takes_ten_transfers() {
    let handle = As5048a::new(());
    let mut sensor = Sensor::new(&[(0x0016, 0x0000), (0x0017, 0x00C0)]);
    assert_eq!(run_zero_write(&mut sensor, handle.set_zero_position(0x1234)), Ok(()));
    assert_eq!(
        sensor.sent,
        vec![0x4016, 0x0000, 0x8016, 0x0048, 0x0000, 0xC017, 0x0000, 0x0017, 0x80F4, 0x0000]
    );
    assert_eq!(sensor.load(0x0016), 0x0048);
    assert_eq!(sensor.load(0x0017), 0x00F4);
}

#[test]
fn zero_position_round_trip() {
    let handle = As5048a::new(());
    for value in (0..=0x3FFFu16).step_by(7).chain([0x3FFF, 0x003F, 0x0040]) {
        let mut sensor = Sensor::new(&[(0x0016, 0x00AA), (0x0017, 0x0095)]);
        assert_eq!(run_zero_write(&mut sensor, handle.set_zero_position(value)), Ok(()));
        assert_eq!(run_zero_read(&mut sensor, handle.zero_position()), Ok(value));
        assert_eq!(sensor.load(0x0017) & 0x00C0, 0x0080);
    }
}

#[test]
fn zero_position_stops_at_the_first_failure() {
    let handle = As5048a::new(());
    for index in 0..10usize {
        let mut sensor = Sensor::new(&[]);
        sensor.fail_at = Some(index);
        assert_eq!(
            run_zero_write(&mut sensor, handle.set_zero_position(0x0FFF)),
            Err(Error::Communication(index))
        );
        assert_eq!(sensor.sent.len(), index + 1);
    }
    for index in 0..4usize {
        let mut sensor = Sensor::new(&[]);
        sensor.fail_at = Some(index);
        assert_eq!(
            run_zero_read(&mut sensor, handle.zero_position()),
            Err(Error::Communication(index))
        );
        assert_eq!(sensor.sent.len(), index + 1);
    }
}

#[test]
fn handle_starts_register_accesses() {
    let handle = As5048a::new(());
    assert_eq!(
        handle.read_register(Register::DiagAgc),
        ReadExchange::Command(Register::DiagAgc)
    );
    assert_eq!(
        handle.write_register(Register::ZeroPositionHi, 0x00FF),
        WriteExchange::Command(Register::ZeroPositionHi, 0x00FF)
    );
    assert_eq!(
        handle.modify_register(Register::ZeroPositionLow),
        ModifyExchange::Reading(ReadExchange::Command(Register::ZeroPositionLow))
    );
    assert_eq!(
        handle.zero_position(),
        ZeroPositionRead::High(ReadExchange::Command(Register::ZeroPositionHi))
    );
    assert_eq!(
        handle.set_zero_position(5),
        ZeroPositionWrite::High(
            5,
            ModifyExchange::Reading(ReadExchange::Command(Register::ZeroPositionHi))
        )
    );
    let mut sensor = Sensor::new(&[(0x3FFD, 0x0480)]);
    let mut state = handle.read_register(Register::DiagAgc);
    let outcome = loop {
        let received = sensor.transfer(state.outgoing());
        match state.advance(received) {
            Step::Continue(next) => state = next,
            Step::Finished(outcome) => break outcome,
        }
    };
    assert_eq!(outcome, Ok(0x0480));
}
