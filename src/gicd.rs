//! The GICv2 distributor: shared registers, reached under the IRQ-masking
//! lock, and this core's banked registers, reached directly.
use vstd::prelude::*;
use crate::exception::{CpuIrqState, IRQNumber};
use crate::registers::{field_bits_u32, field_of_u32, field_read_u32, field_value_u32};
use crate::state::{KernelPhase, StateManager};
use crate::synchronization::{IRQSafeNullLock, Mutex};

verus! {

/// The largest IRQ number of the GICv2 backend.
pub const MAX_IRQ_NUMBER: usize = 300;

/// An IRQ number of the GICv2 backend.
pub type GICIRQNumber = IRQNumber<MAX_IRQ_NUMBER>;

/// Number of shared set-enable registers.
pub const NUM_SHARED_ISENABLER: usize = 31;

/// Number of shared target registers.
pub const NUM_SHARED_ITARGETSR: usize = 248;

/// Number of banked target registers.
pub const NUM_BANKED_ITARGETSR: usize = 8;

/// The distributor's registers that all cores share.
#[derive(Clone, Debug)]
pub struct SharedRegisters {
    /// Distributor control register (offset 0x000).
    pub ctlr: u32,
    /// Interrupt controller type register (offset 0x004).
    pub typer: u32,
    /// Set-enable registers of IRQs 32 and up (offset 0x104).
    pub isenabler: Vec<u32>,
    /// Target registers of IRQs 32 and up (offset 0x820).
    pub itargetsr: Vec<u32>,
}

/// The distributor's registers that each core has a copy of.
#[derive(Clone, Debug)]
pub struct BankedRegisters {
    /// Set-enable register of IRQs 0 to 31 (offset 0x100).
    pub isenabler: u32,
    /// Target registers of IRQs 0 to 31 (offset 0x800).
    pub itargetsr: Vec<u32>,
}

/// A 32-bit value holding `mask` in each of its four byte lanes.
pub open spec fn target_lanes(mask: u32) -> u32 {
    field_bits_u32(0xFF, 24, mask) | field_bits_u32(0xFF, 16, mask) | field_bits_u32(0xFF, 8, mask)
        | field_bits_u32(0xFF, 0, mask)
}

/// The bit of IRQ `n` within its 32-bit enable register.
pub open spec fn enable_bit(n: usize) -> u32 {
    1u32 << ((n % 32) as u32)
}

/// The index, among the shared set-enable registers, of the register that
/// holds IRQ `irq`: the banked register covers IRQs 0 to 31.
pub open spec fn shared_enable_index_spec(irq: usize) -> int {
    irq / 32 - 1
}

/// The index among the shared set-enable registers of IRQ `irq`, which must
/// be a shared IRQ (32 or greater).
pub fn shared_enable_reg_index(irq: usize) -> (r: usize)
    requires
        32 <= irq,
    ensures
        r == shared_enable_index_spec(irq),
{
    assert(irq >> 5usize == irq / 32usize) by (bit_vector);
    (irq >> 5usize) - 1
}

impl SharedRegisters {
    pub open spec fn wf(&self) -> bool {
        &&& self.isenabler@.len() == NUM_SHARED_ISENABLER
        &&& self.itargetsr@.len() == NUM_SHARED_ITARGETSR
    }

    /// The number of IRQs that the hardware implements.
    pub open spec fn num_irqs_spec(&self) -> int {
        (field_of_u32(0x1F, 0, self.typer) + 1) * 32
    }

    /// The number of implemented shared target registers: four IRQs each,
    /// after the 32 private IRQs.
    pub open spec fn implemented_targets_spec(&self) -> int {
        (self.num_irqs_spec() - 32) / 4
    }

    /// The number of IRQs that the hardware implements.
    pub fn num_irqs(&self) -> (r: usize)
        ensures
            r == self.num_irqs_spec(),
            32 <= r <= 1024,
    {
        let lines = field_read_u32(0x1F, 0, self.typer);
        let typer = self.typer;
        assert((typer & (0x1Fu32 << 0u32)) >> 0u32 <= 31u32) by (bit_vector);
        ((lines as usize) + 1) * 32
    }

    /// The number of implemented shared target registers.
    pub fn implemented_itargets_count(&self) -> (r: usize)
        ensures
            r == self.implemented_targets_spec(),
            r <= NUM_SHARED_ITARGETSR,
    {
        (self.num_irqs() - 32) / 4
    }

    /// Routes every implemented shared IRQ to the cores of `mask`, and
    /// enables the distributor.
    pub fn route_to_and_enable(&mut self, mask: u32)
        requires
            old(self).wf(),
        ensures
            final(self).wf(),
            final(self).typer == old(self).typer,
            final(self).isenabler@ == old(self).isenabler@,
            final(self).ctlr == field_bits_u32(1, 0, 1),
            forall|i: int|
                0 <= i < NUM_SHARED_ITARGETSR ==> #[trigger] final(self).itargetsr@[i] == if i
                    < old(self).implemented_targets_spec() {
                    target_lanes(mask)
                } else {
                    old(self).itargetsr@[i]
                },
    {
        let count = self.implemented_itargets_count();
        let value = field_value_u32(0xFF, 24, mask) | field_value_u32(0xFF, 16, mask) | field_value_u32(
            0xFF,
            8,
            mask,
        ) | field_value_u32(0xFF, 0, mask);
        let mut i: usize = 0;
        while i < count
            invariant
                self.wf(),
                count == old(self).implemented_targets_spec(),
                count <= NUM_SHARED_ITARGETSR,
                value == target_lanes(mask),
                i <= count,
                self.typer == old(self).typer,
                self.ctlr == old(self).ctlr,
                self.isenabler@ == old(self).isenabler@,
                forall|j: int|
                    0 <= j < NUM_SHARED_ITARGETSR ==> #[trigger] self.itargetsr@[j] == if j < i {
                        target_lanes(mask)
                    } else {
                        old(self).itargetsr@[j]
                    },
            decreases count - i,
        {
            self.itargetsr[i] = value;
            i = i + 1;
        }
        self.ctlr = field_value_u32(1, 0, 1);
    }

    /// Sets the bit of IRQ `irq` in its shared set-enable register.
    pub fn set_enable_bit(&mut self, irq: usize)
        requires
            old(self).wf(),
            32 <= irq <= MAX_IRQ_NUMBER,
        ensures
            final(self).wf(),
            final(self).ctlr == old(self).ctlr,
            final(self).typer == old(self).typer,
            final(self).itargetsr@ == old(self).itargetsr@,
            final(self).isenabler@ == old(self).isenabler@.update(
                shared_enable_index_spec(irq),
                old(self).isenabler@[shared_enable_index_spec(irq)] | enable_bit(irq),
            ),
    {
        let index = shared_enable_reg_index(irq);
        let bit: u32 = 1u32 << ((irq % 32) as u32);
        let current = self.isenabler[index];
        self.isenabler[index] = current | bit;
    }
}

impl BankedRegisters {
    pub open spec fn wf(&self) -> bool {
        self.itargetsr@.len() == NUM_BANKED_ITARGETSR
    }
}

/// The GIC distributor.
pub struct GICD {
    shared_registers: IRQSafeNullLock<SharedRegisters>,
    banked_registers: BankedRegisters,
}

impl GICD {
    pub closed spec fn shared(&self) -> SharedRegisters {
        self.shared_registers.data()
    }

    pub closed spec fn banked(&self) -> BankedRegisters {
        self.banked_registers
    }

    pub open spec fn wf(&self) -> bool {
        self.shared().wf() && self.banked().wf()
    }

    /// This core's target mask: the first byte lane of its first banked
    /// target register.
    pub open spec fn local_mask_spec(&self) -> u32 {
        field_of_u32(0xFF, 0, self.banked().itargetsr@[0])
    }

    /// `self` is `before` with IRQ `irq` enabled: a private IRQ (0 to 31)
    /// in the banked set-enable register, a shared one in its shared
    /// set-enable register.
    pub open spec fn enabled_from(&self, before: &GICD, irq: usize) -> bool {
        if irq < 32 {
            &&& self.shared() == before.shared()
            &&& self.banked().isenabler == before.banked().isenabler | enable_bit(irq)
            &&& self.banked().itargetsr == before.banked().itargetsr
        } else {
            &&& self.banked() == before.banked()
            &&& self.shared().ctlr == before.shared().ctlr
            &&& self.shared().typer == before.shared().typer
            &&& self.shared().itargetsr@ == before.shared().itargetsr@
            &&& self.shared().isenabler@ == before.shared().isenabler@.update(
                shared_enable_index_spec(irq),
                before.shared().isenabler@[shared_enable_index_spec(irq)] | enable_bit(irq),
            )
        }
    }

    /// `self` is `before` with every implemented shared IRQ routed to this
    /// core's target mask and the distributor enabled.
    pub open spec fn boot_initialized_from(&self, before: &GICD) -> bool {
        &&& self.banked() == before.banked()
        &&& self.shared().typer == before.shared().typer
        &&& self.shared().isenabler@ == before.shared().isenabler@
        &&& self.shared().ctlr == field_bits_u32(1, 0, 1)
        &&& forall|i: int|
            0 <= i < NUM_SHARED_ITARGETSR ==> #[trigger] self.shared().itargetsr@[i] == if i
                < before.shared().implemented_targets_spec() {
                target_lanes(before.local_mask_spec())
            } else {
                before.shared().itargetsr@[i]
            }
    }

    /// The distributor over the given register blocks.
    pub fn new(shared: SharedRegisters, banked: BankedRegisters) -> (r: Self)
        ensures
            r.shared() == shared,
            r.banked() == banked,
    {
        GICD { shared_registers: IRQSafeNullLock::new(shared), banked_registers: banked }
    }

    /// The banked register block.
    pub fn banked_registers(&self) -> (r: &BankedRegisters)
        ensures
            *r == self.banked(),
    {
        &self.banked_registers
    }

    /// The shared distributor control register.
    pub fn shared_ctlr(&mut self, cpu: &mut CpuIrqState) -> (r: u32)
        ensures
            r == old(self).shared().ctlr,
            final(self).shared() == old(self).shared(),
            final(self).banked() == old(self).banked(),
            *final(cpu) == *old(cpu),
    {
        self.shared_registers.lock(cpu, |regs: &mut SharedRegisters| -> (r: u32)
            ensures
                r == old(regs).ctlr,
                *final(regs) == *old(regs),
            { regs.ctlr })
    }

    /// Shared set-enable register `i`.
    pub fn shared_isenabler(&mut self, cpu: &mut CpuIrqState, i: usize) -> (r: u32)
        requires
            old(self).wf(),
            i < NUM_SHARED_ISENABLER,
        ensures
            r == old(self).shared().isenabler@[i as int],
            final(self).shared() == old(self).shared(),
            final(self).banked() == old(self).banked(),
            *final(cpu) == *old(cpu),
    {
        self.shared_registers.lock(cpu, |regs: &mut SharedRegisters| -> (r: u32)
            requires
                regs.wf(),
            ensures
                r == old(regs).isenabler@[i as int],
                *final(regs) == *old(regs),
            { regs.isenabler[i] })
    }

    /// Shared target register `i`.
    pub fn shared_itargetsr(&mut self, cpu: &mut CpuIrqState, i: usize) -> (r: u32)
        requires
            old(self).wf(),
            i < NUM_SHARED_ITARGETSR,
        ensures
            r == old(self).shared().itargetsr@[i as int],
            final(self).shared() == old(self).shared(),
            final(self).banked() == old(self).banked(),
            *final(cpu) == *old(cpu),
    {
        self.shared_registers.lock(cpu, |regs: &mut SharedRegisters| -> (r: u32)
            requires
                regs.wf(),
            ensures
                r == old(regs).itargetsr@[i as int],
                *final(regs) == *old(regs),
            { regs.itargetsr[i] })
    }

    /// This core's target mask.
    pub fn local_gic_target_mask(&self) -> (r: u32)
        requires
            self.wf(),
        ensures
            r == self.local_mask_spec(),
    {
        field_read_u32(0xFF, 0, self.banked_registers.itargetsr[0])
    }

    /// Routes every implemented shared IRQ to this core and enables the
    /// distributor. Only during the `Init` phase, on the boot core.
    pub fn boot_core_init(&mut self, state: &StateManager, cpu: &mut CpuIrqState)
        requires
            old(self).wf(),
            state.phase_spec() == KernelPhase::Init,
        ensures
            final(self).wf(),
            *final(cpu) == *old(cpu),
            final(self).boot_initialized_from(old(self)),
    {
        let mask = self.local_gic_target_mask();
        self.shared_registers.lock(cpu, |regs: &mut SharedRegisters| -> (r: ())
            requires
                regs.wf(),
            ensures
                final(regs).wf(),
                final(regs).typer == old(regs).typer,
                final(regs).isenabler@ == old(regs).isenabler@,
                final(regs).ctlr == field_bits_u32(1, 0, 1),
                forall|i: int|
                    0 <= i < NUM_SHARED_ITARGETSR ==> #[trigger] final(regs).itargetsr@[i] == if i
                        < old(regs).implemented_targets_spec() {
                        target_lanes(mask)
                    } else {
                        old(regs).itargetsr@[i]
                    },
            { regs.route_to_and_enable(mask) });
    }

    /// Enables IRQ `irq_num`: a private IRQ (0 to 31) in the banked
    /// set-enable register, a shared one in its shared register.
    pub fn enable(&mut self, cpu: &mut CpuIrqState, irq_num: GICIRQNumber)
        requires
            old(self).wf(),
            irq_num.wf(),
        ensures
            final(self).wf(),
            *final(cpu) == *old(cpu),
            final(self).enabled_from(old(self), irq_num@),
    {
        let irq = irq_num.get();
        if irq <= 31 {
            let bit: u32 = 1u32 << ((irq % 32) as u32);
            self.banked_registers.isenabler = self.banked_registers.isenabler | bit;
        } else {
            self.shared_registers.lock(cpu, |regs: &mut SharedRegisters| -> (r: ())
                requires
                    regs.wf(),
                ensures
                    final(regs).wf(),
                    final(regs).ctlr == old(regs).ctlr,
                    final(regs).typer == old(regs).typer,
                    final(regs).itargetsr@ == old(regs).itargetsr@,
                    final(regs).isenabler@ == old(regs).isenabler@.update(
                        shared_enable_index_spec(irq),
                        old(regs).isenabler@[shared_enable_index_spec(irq)] | enable_bit(irq),
                    ),
                { regs.set_enable_bit(irq) });
        }
    }
}

} // verus!
