//! The GICv2 CPU interface: priority mask, enable, acknowledge and
//! end-of-interrupt registers.
use vstd::prelude::*;
use crate::exception::IRQContext;
use crate::registers::{field_bits_u32, field_of_u32, field_read_u32, field_value_u32};

verus! {

/// Mask of the 10-bit interrupt ID field of the acknowledge and
/// end-of-interrupt registers.
pub const INTERRUPT_ID_MASK: u32 = 0x3FF;

/// The CPU interface's register block.
#[derive(Clone, Copy, PartialEq, Eq, Structural, Debug)]
pub struct GICCRegisters {
    /// Control register (offset 0x000).
    pub ctlr: u32,
    /// Priority mask register (offset 0x004).
    pub pmr: u32,
    /// Interrupt acknowledge register (offset 0x00C).
    pub iar: u32,
    /// End-of-interrupt register (offset 0x010).
    pub eoir: u32,
}

/// The GIC CPU interface.
pub struct GICC {
    registers: GICCRegisters,
}

impl GICC {
    pub closed spec fn regs(&self) -> GICCRegisters {
        self.registers
    }

    /// The IRQ number that the acknowledge register presents.
    pub open spec fn pending_spec(&self) -> usize {
        field_of_u32(INTERRUPT_ID_MASK, 0, self.regs().iar) as usize
    }

    /// The interface over the register block `registers`.
    pub fn new(registers: GICCRegisters) -> (r: Self)
        ensures
            r.regs() == registers,
    {
        GICC { registers }
    }

    /// The register block.
    pub fn registers(&self) -> (r: GICCRegisters)
        ensures
            r == self.regs(),
    {
        self.registers
    }

    /// Takes the acknowledge register's current contents.
    pub fn set_iar(&mut self, iar: u32)
        ensures
            final(self).regs() == (GICCRegisters { iar, ..old(self).regs() }),
    {
        self.registers.iar = iar;
    }

    /// Accepts interrupts of every priority.
    pub fn priority_accept_all(&mut self)
        ensures
            final(self).regs() == (GICCRegisters { pmr: field_bits_u32(0xFF, 0, 255), ..old(self).regs() }),
    {
        self.registers.pmr = field_value_u32(0xFF, 0, 255);
    }

    /// Enables the interface.
    pub fn enable(&mut self)
        ensures
            final(self).regs() == (GICCRegisters { ctlr: field_bits_u32(1, 0, 1), ..old(self).regs() }),
    {
        self.registers.ctlr = field_value_u32(1, 0, 1);
    }

    /// The number of the pending interrupt.
    pub fn pending_irq_number(&self, _ic: &IRQContext) -> (r: usize)
        ensures
            r == self.pending_spec(),
            r <= INTERRUPT_ID_MASK,
    {
        let id = field_read_u32(INTERRUPT_ID_MASK, 0, self.registers.iar);
        proof {
            let iar = self.registers.iar;
            assert((iar & (0x3FFu32 << 0u32)) >> 0u32 <= 0x3FFu32) by (bit_vector);
        }
        id as usize
    }

    /// Signals the end of handling interrupt `irq_number`.
    pub fn mark_completed(&mut self, irq_number: u32, _ic: &IRQContext)
        ensures
            final(self).regs() == (GICCRegisters {
                eoir: field_bits_u32(INTERRUPT_ID_MASK, 0, irq_number),
                ..old(self).regs()
            }),
    {
        self.registers.eoir = field_value_u32(INTERRUPT_ID_MASK, 0, irq_number);
    }
}

} // verus!
