//! The GICv2 interrupt controller: distributor, CPU interface, and the
//! handler table of IRQs 0 to 300.
use vstd::prelude::*;
use crate::exception::{
    handler_listing, lemma_irq_number_view_injective, list_handlers, register_in_table, CpuIrqState,
    IRQContext, IRQDescriptor, IRQManager,
};
use crate::gicc::{GICCRegisters, GICC, INTERRUPT_ID_MASK};
use crate::gicd::{GICIRQNumber, GICD, MAX_IRQ_NUMBER};
use crate::registers::field_bits_u32;
use crate::state::{KernelPhase, StateManager};
use crate::synchronization::{InitStateLock, ReadWriteEx};

verus! {

/// Number of slots of the handler table.
pub const NUM_IRQS: usize = 301;

/// The core that brings the system up.
pub const BOOT_CORE_ID: usize = 0;

/// The driver's compatibility string.
pub const GICV2_COMPATIBLE: &'static str = "GICv2 (ARM Generic Interrupt Controller v2)";

/// The first IRQ number that the handler listing shows: the shared IRQs.
pub const FIRST_SHARED_IRQ: usize = 32;

/// The GICv2 interrupt controller.
pub struct GICv2 {
    gicd: GICD,
    gicc: GICC,
    handler_table: InitStateLock<Vec<Option<IRQDescriptor>>>,
}

impl GICv2 {
    pub closed spec fn table(&self) -> Seq<Option<IRQDescriptor>> {
        self.handler_table.data()@
    }

    pub closed spec fn distributor(&self) -> GICD {
        self.gicd
    }

    pub closed spec fn cpu_interface(&self) -> GICC {
        self.gicc
    }

    /// The controller over `gicd` and `gicc`, with no handler registered.
    pub fn new(gicd: GICD, gicc: GICC) -> (r: Self)
        requires
            gicd.wf(),
        ensures
            r.wf(),
            r.distributor() == gicd,
            r.cpu_interface() == gicc,
            forall|i: int| 0 <= i < NUM_IRQS ==> #[trigger] r.table()[i] is None,
    {
        let mut table: Vec<Option<IRQDescriptor>> = Vec::new();
        while table.len() < NUM_IRQS
            invariant
                table@.len() <= NUM_IRQS,
                forall|i: int| 0 <= i < table@.len() ==> #[trigger] table@[i] is None,
            decreases NUM_IRQS - table@.len(),
        {
            table.push(None);
        }
        GICv2 { gicd, gicc, handler_table: InitStateLock::new(table) }
    }

    /// The driver's compatibility string.
    pub fn compatible(&self) -> (r: &'static str)
        ensures
            r == GICV2_COMPATIBLE,
    {
        GICV2_COMPATIBLE
    }

    /// The distributor.
    pub fn gicd(&self) -> (r: &GICD)
        ensures
            *r == self.distributor(),
    {
        &self.gicd
    }

    /// Mutable access to the distributor.
    pub fn gicd_mut(&mut self) -> (r: &mut GICD)
        ensures
            *r == old(self).distributor(),
            final(self).distributor() == *final(r),
            final(self).cpu_interface() == old(self).cpu_interface(),
            final(self).table() == old(self).table(),
    {
        &mut self.gicd
    }

    /// Takes the acknowledge register's current contents: the interrupt
    /// that the next `handle_pending_irqs` serves.
    pub fn set_acknowledged(&mut self, iar: u32)
        ensures
            final(self).cpu_interface().regs() == (GICCRegisters { iar, ..old(self).cpu_interface().regs() }),
            final(self).distributor() == old(self).distributor(),
            final(self).table() == old(self).table(),
    {
        self.gicc.set_iar(iar);
    }

    /// The handler registered for IRQ `n`, if any.
    pub fn registered(&self, n: usize) -> (r: Option<IRQDescriptor>)
        requires
            self.table().len() == NUM_IRQS,
        ensures
            n < NUM_IRQS ==> r == self.table()[n as int],
            n >= NUM_IRQS ==> r is None,
    {
        if n >= NUM_IRQS {
            return None;
        }
        self.handler_table.read()[n]
    }

    /// The CPU interface's registers.
    pub fn gicc_registers(&self) -> (r: GICCRegisters)
        ensures
            r == self.cpu_interface().regs(),
    {
        self.gicc.registers()
    }

    /// Brings the controller up on core `core_id`: the boot core routes all
    /// shared IRQs to itself and enables the distributor; every core
    /// accepts all priorities and enables its CPU interface.
    pub fn init(&mut self, core_id: usize, state: &StateManager, cpu: &mut CpuIrqState) -> (r: Result<(), &'static str>)
        requires
            old(self).wf(),
            core_id == BOOT_CORE_ID ==> state.phase_spec() == KernelPhase::Init,
        ensures
            r is Ok,
            final(self).wf(),
            *final(cpu) == *old(cpu),
            final(self).table() == old(self).table(),
            core_id != BOOT_CORE_ID ==> final(self).distributor() == old(self).distributor(),
            core_id == BOOT_CORE_ID ==> final(self).distributor().boot_initialized_from(&old(self).distributor()),
            final(self).cpu_interface().regs() == (GICCRegisters {
                pmr: field_bits_u32(0xFF, 0, 255),
                ctlr: field_bits_u32(1, 0, 1),
                ..old(self).cpu_interface().regs()
            }),
    {
        if core_id == BOOT_CORE_ID {
            self.gicd.boot_core_init(state, cpu);
        }
        self.gicc.priority_accept_all();
        self.gicc.enable();
        Ok(())
    }
}

impl IRQManager for GICv2 {
    type IRQNumberType = GICIRQNumber;

    open spec fn wf(&self) -> bool {
        self.distributor().wf() && self.table().len() == NUM_IRQS
    }

    open spec fn implements(&self, irq: GICIRQNumber) -> bool {
        irq.wf()
    }

    open spec fn handler_for(&self, irq: GICIRQNumber) -> Option<IRQDescriptor> {
        if irq@ < self.table().len() {
            self.table()[irq@ as int]
        } else {
            None
        }
    }

    open spec fn armed_from(&self, before: &Self, irq: GICIRQNumber) -> bool {
        &&& self.distributor().enabled_from(&before.distributor(), irq@)
        &&& self.cpu_interface() == before.cpu_interface()
        &&& self.table() == before.table()
    }

    open spec fn dispatchable(&self) -> bool {
        let n = self.cpu_interface().pending_spec();
        n > MAX_IRQ_NUMBER || self.table()[n as int] is Some
    }

    open spec fn pending_handlers(&self) -> Seq<IRQDescriptor> {
        let n = self.cpu_interface().pending_spec();
        if n > MAX_IRQ_NUMBER {
            Seq::empty()
        } else {
            seq![self.table()[n as int]->Some_0]
        }
    }

    open spec fn completed_from(&self, before: &Self) -> bool {
        let n = before.cpu_interface().pending_spec();
        &&& self.distributor() == before.distributor()
        &&& self.table() == before.table()
        &&& if n > MAX_IRQ_NUMBER {
            self.cpu_interface().regs() == before.cpu_interface().regs()
        } else {
            self.cpu_interface().regs() == (GICCRegisters {
                eoir: field_bits_u32(INTERRUPT_ID_MASK, 0, n as u32),
                ..before.cpu_interface().regs()
            })
        }
    }

    open spec fn listing(&self) -> Seq<(usize, &'static str)> {
        handler_listing(self.table(), FIRST_SHARED_IRQ as int, NUM_IRQS as int)
    }

    fn register_handler(
        &mut self,
        state: &StateManager,
        cpu: &CpuIrqState,
        irq_number: GICIRQNumber,
        descriptor: IRQDescriptor,
    ) -> (r: Result<(), &'static str>) {
        let n = irq_number.get();
        let table = self.handler_table.write(state, cpu);
        let r = register_in_table(table, n, descriptor);
        proof {
            assert forall|m: GICIRQNumber| m != irq_number implies self.handler_for(m) == old(self).handler_for(m) by {
                if m@ == irq_number@ {
                    lemma_irq_number_view_injective(m, irq_number);
                }
            }
        }
        r
    }

    fn enable(&mut self, cpu: &mut CpuIrqState, irq_number: GICIRQNumber) {
        self.gicd.enable(cpu, irq_number);
    }

    fn handle_pending_irqs(&mut self, ic: &IRQContext) -> (r: Vec<IRQDescriptor>) {
        let mut r: Vec<IRQDescriptor> = Vec::new();
        let irq_number = self.gicc.pending_irq_number(ic);
        if irq_number > MAX_IRQ_NUMBER {
            return r;
        }
        let table = self.handler_table.read();
        match table[irq_number] {
            Some(descriptor) => {
                r.push(descriptor);
            },
            None => {},
        }
        self.gicc.mark_completed(irq_number as u32, ic);
        r
    }

    fn print_handler(&self) -> (r: Vec<(usize, &'static str)>) {
        list_handlers(self.handler_table.read(), FIRST_SHARED_IRQ)
    }
}

} // verus!
