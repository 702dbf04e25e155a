//! Diagnostics registers for AS5048A
//!
//! The register holds four flags in bits 11 to 8 and the automatic gain
//! control value in bits 7 to 0: CORDIC overflow in bit 11, offset
//! compensation finished in bit 10, field too strong in bit 9 and field too
//! weak in bit 8. Bits above bit 11 carry nothing.
use vstd::prelude::*;
use vstd::std_specs::convert::FromSpecImpl;

verus! {

/// Mask of the `COMP_HIGH` flag.
pub const COMP_HIGH_MASK: u16 = 0x0200;

/// Mask of the `COMP_LOW` flag.
pub const COMP_LOW_MASK: u16 = 0x0100;

/// Mask of the CORDIC overflow flag.
pub const CORDIC_OVERFLOW_MASK: u16 = 0x0800;

/// Mask of the offset-compensation-finished flag.
pub const OFFSET_COMP_FINISHED_MASK: u16 = 0x0400;

/// Mask of the four flags together.
pub const FLAGS_MASK: u16 = 0x0F00;

/// Mask of the automatic gain control value.
pub const AGC_MASK: u16 = 0x00FF;

/// Diagnostics flags from the `DIAG_AGC` register (0x3FFD)
#[derive(Debug, Clone, Copy, PartialEq, Eq, Structural)]
pub struct Diagnostics {
    raw: u16,
}

impl View for Diagnostics {
    type V = u16;

    /// The raw register value that the flags are read from.
    closed spec fn view(&self) -> u16 {
        self.raw
    }
}

impl Diagnostics {
    /// Whether the bits selected by `mask` are not all zero in the raw value.
    pub open spec fn flag(self, mask: u16) -> bool {
        self@ & mask != 0
    }

    /// The diagnostics that wrap `raw`.
    pub closed spec fn from_raw(raw: u16) -> Self {
        Diagnostics { raw }
    }

    /// Wrapping a raw value and viewing it again gives the value back, so two
    /// diagnostics with the same view are the same.
    pub proof fn view_determines(self)
        ensures
            Self::from_raw(self@) == self,
            forall|raw: u16| Self::from_raw(raw)@ == raw,
    {
    }

    /// Each of the four flags lies in bits 11 to 8: it reads the same from a
    /// raw value and from that value cut to those bits, so neither the bits
    /// above bit 11 nor the gain value have any part in it.
    pub proof fn flags_lie_in_bits_8_to_11(raw: u16)
        ensures
            Self::from_raw(raw).flag(COMP_HIGH_MASK) == Self::from_raw(raw & FLAGS_MASK).flag(
                COMP_HIGH_MASK,
            ),
            Self::from_raw(raw).flag(COMP_LOW_MASK) == Self::from_raw(raw & FLAGS_MASK).flag(
                COMP_LOW_MASK,
            ),
            Self::from_raw(raw).flag(CORDIC_OVERFLOW_MASK) == Self::from_raw(
                raw & FLAGS_MASK,
            ).flag(CORDIC_OVERFLOW_MASK),
            Self::from_raw(raw).flag(OFFSET_COMP_FINISHED_MASK) == Self::from_raw(
                raw & FLAGS_MASK,
            ).flag(OFFSET_COMP_FINISHED_MASK),
            (Self::from_raw(raw)@ & 0x0B00 == 0) == (Self::from_raw(raw & FLAGS_MASK)@ & 0x0B00
                == 0),
    {
        assert((raw & 0x0F00u16) & 0x0200u16 == raw & 0x0200u16) by (bit_vector);
        assert((raw & 0x0F00u16) & 0x0100u16 == raw & 0x0100u16) by (bit_vector);
        assert((raw & 0x0F00u16) & 0x0800u16 == raw & 0x0800u16) by (bit_vector);
        assert((raw & 0x0F00u16) & 0x0400u16 == raw & 0x0400u16) by (bit_vector);
        assert((raw & 0x0F00u16) & 0x0B00u16 == raw & 0x0B00u16) by (bit_vector);
    }

    /// Create diagnostics from raw register value
    #[must_use]
    pub fn new(raw: u16) -> (diagnostics: Self)
        ensures
            diagnostics@ == raw,
            diagnostics == Self::from_raw(raw),
    {
        Self { raw }
    }

    /// Get the raw register value
    #[must_use]
    pub fn raw(&self) -> (raw: u16)
        ensures
            raw == self@,
    {
        self.raw
    }

    /// `COMP_HIGH`: Magnetic field too strong
    ///
    /// Set when the magnetic field is above the recommended range
    /// The sensor may still work but accuracy could be affected
    #[must_use]
    pub fn comp_high(&self) -> (set: bool)
        ensures
            set == self.flag(COMP_HIGH_MASK),
    {
        self.raw & COMP_HIGH_MASK != 0
    }

    /// `COMP_LOW`: Magnetic field too weak
    ///
    /// Set when the magnetic field is below the recommended range
    /// The sensor may still work but accuracy could be affected
    #[must_use]
    pub fn comp_low(&self) -> (set: bool)
        ensures
            set == self.flag(COMP_LOW_MASK),
    {
        self.raw & COMP_LOW_MASK != 0
    }

    /// COF: CORDIC overflow
    ///
    /// Set when an overflow occurred in the CORDIC calculation
    /// When this bit is set, angle and magnitude data is invalid
    #[must_use]
    pub fn cordic_overflow(&self) -> (set: bool)
        ensures
            set == self.flag(CORDIC_OVERFLOW_MASK),
    {
        self.raw & CORDIC_OVERFLOW_MASK != 0
    }

    /// OCF: Offset compensation finished
    ///
    /// This flag is set to 1 after power-up when the offset compensation
    /// algorithm has finished. After power-up, the flag remains at 1
    #[must_use]
    pub fn offset_comp_finished(&self) -> (set: bool)
        ensures
            set == self.flag(OFFSET_COMP_FINISHED_MASK),
    {
        self.raw & OFFSET_COMP_FINISHED_MASK != 0
    }

    /// Get the Automatic Gain Control (AGC) value
    ///
    /// Returns an 8-bit value where:
    /// - 0 = high magnetic field (close to sensor)
    /// - 255 = low magnetic field (far from sensor)
    ///
    /// Typical values are between 60-200. Values outside this range
    /// may indicate the magnet is too close or too far
    #[must_use]
    pub fn agc_value(&self) -> (agc: u8)
        ensures
            agc == self@ & AGC_MASK,
            agc == self@ % 256,
    {
        let raw: u16 = self.raw;
        let low: u16 = raw & AGC_MASK;
        assert(low == raw % 256 && low < 256) by (bit_vector)
            requires
                low == raw & 0x00FFu16,
        ;
        low as u8
    }

    /// Check if the magnetic field strength is within acceptable range
    ///
    /// Returns `true` if neither `COMP_HIGH` nor `COMP_LOW` is set
    #[must_use]
    pub fn magnetic_field_ok(&self) -> (ok: bool)
        ensures
            ok == (!self.flag(COMP_HIGH_MASK) && !self.flag(COMP_LOW_MASK)),
            ok == (self@ & 0x0300 == 0),
    {
        proof {
            let raw = self.raw;
            assert((raw & 0x0300u16 == 0) == (raw & 0x0200u16 == 0 && raw & 0x0100u16 == 0))
                by (bit_vector);
        }
        !self.comp_high() && !self.comp_low()
    }

    /// Check if data is valid
    ///
    /// Returns `true` if there's no CORDIC overflow and the magnetic
    /// field is within acceptable range
    #[must_use]
    pub fn is_valid(&self) -> (valid: bool)
        ensures
            valid == (!self.flag(CORDIC_OVERFLOW_MASK) && !self.flag(COMP_HIGH_MASK)
                && !self.flag(COMP_LOW_MASK)),
            valid == (self@ & 0x0B00 == 0),
    {
        proof {
            let raw = self.raw;
            assert((raw & 0x0B00u16 == 0) == (raw & 0x0800u16 == 0 && raw & 0x0200u16 == 0 && raw
                & 0x0100u16 == 0)) by (bit_vector);
            assert((raw & 0x0300u16 == 0) == (raw & 0x0200u16 == 0 && raw & 0x0100u16 == 0))
                by (bit_vector);
        }
        !self.cordic_overflow() && self.magnetic_field_ok()
    }
}

impl From<u16> for Diagnostics {
    fn from(raw: u16) -> (diagnostics: Self) {
        Self::new(raw)
    }
}

impl FromSpecImpl<u16> for Diagnostics {
    open spec fn obeys_from_spec() -> bool {
        true
    }

    open spec fn from_spec(raw: u16) -> Self {
        Diagnostics::from_raw(raw)
    }
}

} // verus!
