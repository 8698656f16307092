//! Asynchronous exceptions: the local interrupt mask, bounded IRQ numbers,
//! handler descriptors, and the interface that interrupt controllers offer.
use vstd::prelude::*;
use crate::state::{KernelPhase, StateManager};

verus! {

/// The IRQ bit (I) of the DAIF register.
pub const DAIF_IRQ_BIT: u64 = 0x80;

/// The interrupt mask state of the executing core: its DAIF register.
#[derive(Clone, Copy, PartialEq, Eq, Structural, Debug)]
pub struct CpuIrqState {
    daif: u64,
}

impl CpuIrqState {
    pub closed spec fn daif_spec(&self) -> u64 {
        self.daif
    }

    /// Local interrupt delivery is masked.
    pub open spec fn masked_spec(&self) -> bool {
        self.daif_spec() & DAIF_IRQ_BIT != 0
    }

    /// The state whose DAIF register holds `daif`.
    pub fn new(daif: u64) -> (r: Self)
        ensures
            r.daif_spec() == daif,
    {
        CpuIrqState { daif }
    }

    /// The DAIF register's value.
    pub fn daif(&self) -> (r: u64)
        ensures
            r == self.daif_spec(),
    {
        self.daif
    }
}

/// The DAIF register's value determines the mask state.
pub proof fn lemma_daif_determines_state(a: CpuIrqState, b: CpuIrqState)
    requires
        a.daif_spec() == b.daif_spec(),
    ensures
        a == b,
{
}

/// Whether local interrupt delivery is masked.
pub fn is_local_irq_masked(cpu: &CpuIrqState) -> (r: bool)
    ensures
        r == cpu.masked_spec(),
{
    cpu.daif & DAIF_IRQ_BIT != 0
}

/// Unmasks local interrupt delivery.
pub fn local_irq_unmask(cpu: &mut CpuIrqState)
    ensures
        final(cpu).daif_spec() == old(cpu).daif_spec() & !DAIF_IRQ_BIT,
        !final(cpu).masked_spec(),
{
    let d = cpu.daif;
    cpu.daif = d & !DAIF_IRQ_BIT;
    assert((d & !0x80u64) & 0x80u64 == 0) by (bit_vector);
}

/// Masks local interrupt delivery.
pub fn local_irq_mask(cpu: &mut CpuIrqState)
    ensures
        final(cpu).daif_spec() == old(cpu).daif_spec() | DAIF_IRQ_BIT,
        final(cpu).masked_spec(),
{
    let d = cpu.daif;
    cpu.daif = d | DAIF_IRQ_BIT;
    assert((d | 0x80u64) & 0x80u64 != 0) by (bit_vector);
}

/// Masks local interrupt delivery and returns the DAIF value from before.
pub fn local_irq_mask_save(cpu: &mut CpuIrqState) -> (saved: u64)
    ensures
        saved == old(cpu).daif_spec(),
        final(cpu).daif_spec() == old(cpu).daif_spec() | DAIF_IRQ_BIT,
        final(cpu).masked_spec(),
{
    let saved = cpu.daif;
    local_irq_mask(cpu);
    saved
}

/// Restores a DAIF value that `local_irq_mask_save` returned.
pub fn local_irq_restore(cpu: &mut CpuIrqState, saved: u64)
    ensures
        final(cpu).daif_spec() == saved,
{
    cpu.daif = saved;
}

/// Runs `f` with local interrupts masked, then restores the mask state.
pub fn exec_with_irq_masked<T, F: FnOnce() -> T>(cpu: &mut CpuIrqState, f: F) -> (r: T)
    requires
        f.requires(()),
    ensures
        *final(cpu) == *old(cpu),
        f.ensures((), r),
{
    let saved = local_irq_mask_save(cpu);
    let r = f();
    local_irq_restore(cpu, saved);
    r
}

/// An IRQ number no greater than `MAX_INCLUSIVE`.
#[derive(Clone, Copy, Debug)]
pub struct IRQNumber<const MAX_INCLUSIVE: usize> {
    number: usize,
}

impl<const MAX_INCLUSIVE: usize> IRQNumber<MAX_INCLUSIVE> {
    pub closed spec fn view(&self) -> usize {
        self.number
    }

    pub open spec fn wf(&self) -> bool {
        self@ <= MAX_INCLUSIVE
    }

    /// The IRQ number `number`, which must not exceed `MAX_INCLUSIVE`.
    pub fn new(number: usize) -> (r: Self)
        requires
            number <= MAX_INCLUSIVE,
        ensures
            r@ == number,
            r.wf(),
    {
        IRQNumber { number }
    }

    /// The raw number, for register indexing.
    pub fn get(self) -> (r: usize)
        ensures
            r == self@,
    {
        self.number
    }
}

/// IRQ numbers with the same value are the same.
pub proof fn lemma_irq_number_view_injective<const MAX_INCLUSIVE: usize>(
    a: IRQNumber<MAX_INCLUSIVE>,
    b: IRQNumber<MAX_INCLUSIVE>,
)
    requires
        a@ == b@,
    ensures
        a == b,
{
}

/// A registered interrupt handler: its name, and the index of its handling
/// capability among the platform's handlers.
#[derive(Clone, Copy, Debug)]
pub struct IRQDescriptor {
    pub name: &'static str,
    pub handler: usize,
}

/// A token that proves that the code holding it runs in interrupt context.
#[derive(Clone, Copy, Debug)]
pub struct IRQContext {
    _private: (),
}

impl IRQContext {
    /// A token for code that runs in interrupt context.
    pub fn new() -> (r: Self) {
        IRQContext { _private: () }
    }
}

/// The capability of handling one interrupt.
pub trait IRQHandler {
    /// Handles the interrupt.
    fn handle(&self) -> Result<(), &'static str>;
}

/// The error of registering a handler for an IRQ that already has one.
pub const ERR_ALREADY_REGISTERED: &'static str = "IRQ handler already registered";

/// What one registration does to the slot of its IRQ: an occupied slot is
/// kept and the call fails; an empty slot takes the new descriptor.
pub open spec fn registration_outcome(
    before: Option<IRQDescriptor>,
    descriptor: IRQDescriptor,
    r: Result<(), &'static str>,
    after: Option<IRQDescriptor>,
) -> bool {
    match before {
        Some(_) => r == Err::<(), &'static str>(ERR_ALREADY_REGISTERED) && after == before,
        None => r is Ok && after == Some(descriptor),
    }
}

/// Registering twice for one IRQ: the first registration succeeds, the
/// second fails as already registered, and the first descriptor stays.
pub proof fn lemma_second_registration_fails(
    slot0: Option<IRQDescriptor>,
    first: IRQDescriptor,
    r1: Result<(), &'static str>,
    slot1: Option<IRQDescriptor>,
    second: IRQDescriptor,
    r2: Result<(), &'static str>,
    slot2: Option<IRQDescriptor>,
)
    requires
        slot0 is None,
        registration_outcome(slot0, first, r1, slot1),
        registration_outcome(slot1, second, r2, slot2),
    ensures
        r1 is Ok,
        r2 == Err::<(), &'static str>(ERR_ALREADY_REGISTERED),
        slot2 == Some(first),
{
}

/// The `(number, name)` pairs of the handlers registered in `table` for the
/// IRQs in `[start, end)`, in ascending order of IRQ number.
pub open spec fn handler_listing(table: Seq<Option<IRQDescriptor>>, start: int, end: int) -> Seq<(usize, &'static str)>
    decreases end - start,
{
    if end <= start {
        Seq::empty()
    } else {
        let prefix = handler_listing(table, start, end - 1);
        match table[end - 1] {
            Some(d) => prefix.push(((end - 1) as usize, d.name)),
            None => prefix,
        }
    }
}

/// The registered handlers of `table` from IRQ `start` on, as `(number,
/// name)` pairs in ascending order.
pub fn list_handlers(table: &Vec<Option<IRQDescriptor>>, start: usize) -> (r: Vec<(usize, &'static str)>)
    ensures
        r@ == handler_listing(table@, start as int, table@.len() as int),
{
    let mut r: Vec<(usize, &'static str)> = Vec::new();
    if start >= table.len() {
        return r;
    }
    let mut i: usize = start;
    while i < table.len()
        invariant
            start <= i <= table@.len(),
            r@ == handler_listing(table@, start as int, i as int),
        decreases table@.len() - i,
    {
        match table[i] {
            Some(d) => {
                r.push((i, d.name));
            },
            None => {},
        }
        i = i + 1;
    }
    r
}

/// Registers `descriptor` in slot `n` of `table` unless the slot is taken.
pub fn register_in_table(table: &mut Vec<Option<IRQDescriptor>>, n: usize, descriptor: IRQDescriptor) -> (r: Result<(), &'static str>)
    requires
        n < old(table)@.len(),
    ensures
        final(table)@.len() == old(table)@.len(),
        registration_outcome(old(table)@[n as int], descriptor, r, final(table)@[n as int]),
        forall|i: int| 0 <= i < old(table)@.len() && i != n ==> final(table)@[i] == old(table)@[i],
{
    if table[n].is_some() {
        return Err(ERR_ALREADY_REGISTERED);
    }
    table[n] = Some(descriptor);
    Ok(())
}

/// The interface of an interrupt controller: handler registration, arming
/// of lines, and dispatch of pending interrupts.
pub trait IRQManager {
    type IRQNumberType;

    /// The controller's internal invariant.
    spec fn wf(&self) -> bool;

    /// The controller implements the line of `irq`.
    spec fn implements(&self, irq: Self::IRQNumberType) -> bool;

    /// The handler registered for `irq`, if any.
    spec fn handler_for(&self, irq: Self::IRQNumberType) -> Option<IRQDescriptor>;

    /// `self` is `before` with the line of `irq` armed.
    spec fn armed_from(&self, before: &Self, irq: Self::IRQNumberType) -> bool;

    /// Every pending interrupt has a registered handler.
    spec fn dispatchable(&self) -> bool;

    /// The handlers to run for the pending interrupts, in order.
    spec fn pending_handlers(&self) -> Seq<IRQDescriptor>;

    /// `self` is `before` with the pending interrupts acknowledged.
    spec fn completed_from(&self, before: &Self) -> bool;

    /// The registered handlers as `(number, name)` pairs.
    spec fn listing(&self) -> Seq<(usize, &'static str)>;

    /// Registers `descriptor` for `irq_number`; fails if a handler is
    /// registered for it already. Only during the `Init` phase, with local
    /// interrupts masked.
    fn register_handler(
        &mut self,
        state: &StateManager,
        cpu: &CpuIrqState,
        irq_number: Self::IRQNumberType,
        descriptor: IRQDescriptor,
    ) -> (r: Result<(), &'static str>)
        requires
            old(self).wf(),
            old(self).implements(irq_number),
            state.phase_spec() == KernelPhase::Init,
            cpu.masked_spec(),
        ensures
            final(self).wf(),
            registration_outcome(old(self).handler_for(irq_number), descriptor, r, final(self).handler_for(irq_number)),
            forall|n: Self::IRQNumberType| n != irq_number ==> final(self).handler_for(n) == old(self).handler_for(n),
    ;

    /// Arms the line of `irq_number`.
    fn enable(&mut self, cpu: &mut CpuIrqState, irq_number: Self::IRQNumberType)
        requires
            old(self).wf(),
            old(self).implements(irq_number),
        ensures
            final(self).wf(),
            final(self).armed_from(old(self), irq_number),
            *final(cpu) == *old(cpu),
            forall|n: Self::IRQNumberType| final(self).handler_for(n) == old(self).handler_for(n),
    ;

    /// Acknowledges the pending interrupts and returns the handlers to run
    /// for them, in order.
    fn handle_pending_irqs(&mut self, ic: &IRQContext) -> (r: Vec<IRQDescriptor>)
        requires
            old(self).wf(),
            old(self).dispatchable(),
        ensures
            final(self).wf(),
            r@ == old(self).pending_handlers(),
            final(self).completed_from(old(self)),
            forall|n: Self::IRQNumberType| final(self).handler_for(n) == old(self).handler_for(n),
    ;

    /// The registered handlers as `(number, name)` pairs, for diagnostics.
    fn print_handler(&self) -> (r: Vec<(usize, &'static str)>)
        requires
            self.wf(),
        ensures
            r@ == self.listing(),
    ;
}

} // verus!
