//! Bit-field arithmetic on register values, through `tock_registers`.
use vstd::prelude::*;
use tock_registers::fields::{Field, FieldValue};

verus! {

/// The value that a field of `mask` (unshifted) at bit `shift` contributes
/// to a 64-bit register when it is set to `value`.
pub open spec fn field_bits_u64(mask: u64, shift: u64, value: u64) -> u64 {
    (value & mask) << shift
}

/// The value that a field of `mask` (unshifted) at bit `shift` contributes
/// to a 32-bit register when it is set to `value`.
pub open spec fn field_bits_u32(mask: u32, shift: u32, value: u32) -> u32 {
    (value & mask) << shift
}

/// The contents of the field of `mask` (unshifted) at bit `shift` in `reg`.
pub open spec fn field_of_u32(mask: u32, shift: u32, reg: u32) -> u32 {
    (reg & (mask << shift)) >> shift
}

/// Relies on `tock_registers::fields::FieldValue::<u64, _>::new`, whose
/// `value` is `(value & mask) << shift`.
#[verifier::external_body]
pub(crate) fn field_value_u64(mask: u64, shift: usize, value: u64) -> (r: u64)
    requires
        shift < 64,
    ensures
        r == field_bits_u64(mask, shift as u64, value),
{
    FieldValue::<u64, ()>::new(mask, shift, value).value
}

/// Relies on `tock_registers::fields::FieldValue::<u32, _>::new`, whose
/// `value` is `(value & mask) << shift`.
#[verifier::external_body]
pub(crate) fn field_value_u32(mask: u32, shift: usize, value: u32) -> (r: u32)
    requires
        shift < 32,
    ensures
        r == field_bits_u32(mask, shift as u32, value),
{
    FieldValue::<u32, ()>::new(mask, shift, value).value
}

/// Relies on `tock_registers::fields::Field::<u32, _>::read`, which returns
/// `(reg & (mask << shift)) >> shift`.
#[verifier::external_body]
pub(crate) fn field_read_u32(mask: u32, shift: usize, reg: u32) -> (r: u32)
    requires
        shift < 32,
    ensures
        r == field_of_u32(mask, shift as u32, reg),
{
    Field::<u32, ()>::new(mask, shift).read(reg)
}

} // verus!
