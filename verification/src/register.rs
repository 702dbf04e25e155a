//! Register addresses for AS5048A sensor.
use vstd::prelude::*;
use vstd::std_specs::convert::FromSpecImpl;

verus! {

/// Register addresses for AS5048A
#[derive(Debug, Clone, Copy, PartialEq, Eq, Structural)]
#[non_exhaustive]
pub enum Register {
    /// NOP command (no operation)
    Nop,
    /// Clear error flag.
    ClearErrorFlag,
    /// Zero position, upper eight bits
    ZeroPositionHi,
    /// Zero position, lower six bits
    ZeroPositionLow,
    /// Diagnostics and AGC register
    DiagAgc,
    /// Magnitude register (14-bit)
    Magnitude,
    /// Angle register (14-bit corrected position)
    Angle,
}

impl Register {
    /// The address of the register on the device.
    pub open spec fn spec_address(self) -> u16 {
        match self {
            Register::Nop => 0x0000,
            Register::ClearErrorFlag => 0x0001,
            Register::ZeroPositionHi => 0x0016,
            Register::ZeroPositionLow => 0x0017,
            Register::DiagAgc => 0x3FFD,
            Register::Magnitude => 0x3FFE,
            Register::Angle => 0x3FFF,
        }
    }

    /// The 14-bit address of the register on the device.
    #[verifier::when_used_as_spec(spec_address)]
    pub fn address(self) -> (address: u16)
        ensures
            address == self.spec_address(),
            address <= 0x3FFF,
    {
        match self {
            Register::Nop => 0x0000,
            Register::ClearErrorFlag => 0x0001,
            Register::ZeroPositionHi => 0x0016,
            Register::ZeroPositionLow => 0x0017,
            Register::DiagAgc => 0x3FFD,
            Register::Magnitude => 0x3FFE,
            Register::Angle => 0x3FFF,
        }
    }

    /// No two registers share an address, and every address fits in 14 bits.
    pub proof fn address_is_injective(a: Register, b: Register)
        ensures
            a.spec_address() == b.spec_address() ==> a == b,
            a.spec_address() <= 0x3FFF,
    {
    }
}

impl From<Register> for u16 {
    fn from(reg: Register) -> (address: u16) {
        reg.address()
    }
}

impl FromSpecImpl<Register> for u16 {
    open spec fn obeys_from_spec() -> bool {
        true
    }

    open spec fn from_spec(reg: Register) -> u16 {
        reg.spec_address()
    }
}

} // verus!
