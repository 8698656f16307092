//! The register values that move the boot core from EL2 to EL1: the
//! writes come out as a list for the boot code to perform before `eret`.
use vstd::prelude::*;
use crate::registers::{field_bits_u64, field_value_u64};

verus! {

/// One EL2 system register write.
#[derive(Clone, Copy, PartialEq, Eq, Structural, Debug)]
pub enum El2Write {
    /// Counter-timer hypervisor control.
    Cnthctl(u64),
    /// Virtual counter offset.
    Cntvoff(u64),
    /// Hypervisor configuration.
    Hcr(u64),
    /// Saved program status for the return to EL1.
    Spsr(u64),
    /// Return address: the kernel's entry at EL1.
    Elr(u64),
    /// EL1 stack pointer.
    SpEl1(u64),
}

/// The writes that prepare the return to EL1 at `kernel_entry` with its
/// stack ending at `phys_boot_stack_end_exclusive`: EL1 may use the
/// physical counter and timer without offset, EL1 runs AArch64, and the
/// return lands in EL1h with debug, SError, IRQ and FIQ masked.
pub open spec fn el2_to_el1_writes(kernel_entry: u64, phys_boot_stack_end_exclusive: u64) -> Seq<El2Write> {
    seq![
        El2Write::Cnthctl(field_bits_u64(1, 1, 1) | field_bits_u64(1, 0, 1)),
        El2Write::Cntvoff(0),
        El2Write::Hcr(field_bits_u64(1, 31, 1)),
        El2Write::Spsr(
            field_bits_u64(1, 9, 1) | field_bits_u64(1, 8, 1) | field_bits_u64(1, 7, 1) | field_bits_u64(1, 6, 1)
                | field_bits_u64(0xF, 0, 0b0101),
        ),
        El2Write::Elr(kernel_entry),
        El2Write::SpEl1(phys_boot_stack_end_exclusive),
    ]
}

/// The register writes that prepare the return to EL1.
pub fn prepare_el2_to_el1_transiton(kernel_entry: u64, phys_boot_stack_end_exclusive: u64) -> (r: Vec<El2Write>)
    ensures
        r@ == el2_to_el1_writes(kernel_entry, phys_boot_stack_end_exclusive),
{
    let mut r: Vec<El2Write> = Vec::new();
    r.push(El2Write::Cnthctl(field_value_u64(1, 1, 1) | field_value_u64(1, 0, 1)));
    r.push(El2Write::Cntvoff(0));
    r.push(El2Write::Hcr(field_value_u64(1, 31, 1)));
    r.push(
        El2Write::Spsr(
            field_value_u64(1, 9, 1) | field_value_u64(1, 8, 1) | field_value_u64(1, 7, 1) | field_value_u64(1, 6, 1)
                | field_value_u64(0xF, 0, 0b0101),
        ),
    );
    r.push(El2Write::Elr(kernel_entry));
    r.push(El2Write::SpEl1(phys_boot_stack_end_exclusive));
    assert(r@ =~= el2_to_el1_writes(kernel_entry, phys_boot_stack_end_exclusive));
    r
}

} // verus!
