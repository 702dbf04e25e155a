//! Bit ranges within a 16-bit register value.
//!
//! A field is a run of `width` bits that starts at bit `offset`. Reading a
//! field shifts it down and masks it; writing a field clears its bits and
//! puts the new value, cut to the field's width, in their place.
use vstd::prelude::*;

verus! {

/// The value with the low `width` bits set.
pub open spec fn low_mask(width: u16) -> u16 {
    if width >= 16 {
        0xFFFFu16
    } else {
        ((1u16 << width) - 1) as u16
    }
}

/// The bits of a register that the field occupies.
pub open spec fn field_mask(offset: u16, width: u16) -> u16 {
    low_mask(width) << offset
}

/// The value of the field within `raw`.
pub open spec fn field_value(raw: u16, offset: u16, width: u16) -> u16 {
    (raw >> offset) & low_mask(width)
}

/// `raw` with the field replaced by the low `width` bits of `value`.
pub open spec fn field_replaced(raw: u16, offset: u16, width: u16, value: u16) -> u16 {
    (raw & !field_mask(offset, width)) | ((value & low_mask(width)) << offset)
}

/// Computes the value with the low `width` bits set.
fn mask_of(width: u16) -> (mask: u16)
    requires
        width <= 16,
    ensures
        mask == low_mask(width),
{
    if width >= 16 {
        0xFFFF
    } else {
        let bit: u16 = 1u16 << width;
        assert(bit >= 1) by (bit_vector)
            requires
                bit == 1u16 << width,
                width < 16,
        ;
        bit - 1
    }
}

/// Reads the field of `width` bits at `offset` out of `raw`.
pub fn extract(raw: u16, offset: u16, width: u16) -> (value: u16)
    requires
        offset + width <= 16,
    ensures
        value == field_value(raw, offset, width),
        value <= low_mask(width),
{
    let mask: u16 = mask_of(width);
    if offset >= 16 {
        assert(mask == 0 && (raw >> offset) & mask == 0) by (bit_vector)
            requires
                mask == ((1u16 << width) - 1) as u16,
                width == 0,
        ;
        0
    } else {
        let value: u16 = (raw >> offset) & mask;
        assert(value <= mask) by (bit_vector)
            requires
                value == (raw >> offset) & mask,
        ;
        value
    }
}

/// Writes `value` into the field of `width` bits at `offset` of `raw`.
///
/// Bits of `value` above the field's width are dropped, and the bits of `raw`
/// outside the field stay as they are.
pub fn insert(raw: u16, offset: u16, width: u16, value: u16) -> (updated: u16)
    requires
        offset + width <= 16,
    ensures
        updated == field_replaced(raw, offset, width, value),
        field_value(updated, offset, width) == value & low_mask(width),
        updated & !field_mask(offset, width) == raw & !field_mask(offset, width),
{
    proof {
        field_round_trip(raw, offset, width, value);
    }
    let mask: u16 = mask_of(width);
    if offset >= 16 {
        assert((raw & !(mask << offset)) | ((value & mask) << offset) == raw) by (bit_vector)
            requires
                mask == ((1u16 << width) - 1) as u16,
                width == 0,
        ;
        raw
    } else {
        (raw & !(mask << offset)) | ((value & mask) << offset)
    }
}

/// Reading a field that was just written gives back what was written, cut to
/// the field's width; the write leaves every other bit alone; and writing
/// back what a field holds changes nothing.
pub proof fn field_round_trip(raw: u16, offset: u16, width: u16, value: u16)
    requires
        offset + width <= 16,
    ensures
        field_value(field_replaced(raw, offset, width, value), offset, width) == value & low_mask(
            width,
        ),
        value <= low_mask(width) ==> field_value(
            field_replaced(raw, offset, width, value),
            offset,
            width,
        ) == value,
        field_replaced(raw, offset, width, value) & !field_mask(offset, width) == raw
            & !field_mask(offset, width),
        field_replaced(raw, offset, width, field_value(raw, offset, width)) == raw,
{
    let mask = low_mask(width);
    assert(width < 16 ==> mask == ((1u16 << width) - 1) as u16);
    assert(offset + width <= 16 && (mask == 0xFFFFu16 && width == 16 || width < 16 && mask == ((
    1u16 << width) - 1) as u16) ==> {
        &&& ((((raw & !(mask << offset)) | ((value & mask) << offset)) >> offset) & mask) == value
            & mask
        &&& (value <= mask ==> value & mask == value)
        &&& ((raw & !(mask << offset)) | ((value & mask) << offset)) & !(mask << offset) == raw & !(
        mask << offset)
        &&& ((raw & !(mask << offset)) | ((((raw >> offset) & mask) & mask) << offset)) == raw
    }) by (bit_vector);
}

/// A field of 14 bits at offset 0, the payload of a register, gives back
/// every 14-bit value that is written to it.
pub proof fn payload_round_trip(raw: u16, value: u16)
    requires
        value <= 0x3FFF,
    ensures
        field_value(field_replaced(raw, 0, 14, value), 0, 14) == value,
{
    field_round_trip(raw, 0, 14, value);
    assert(((1u16 << 14u16) - 1) as u16 == 0x3FFFu16) by (bit_vector);
}

} // verus!
