//! The BCM legacy interrupt controller: two write-only enable registers and
//! two read-only pending registers, of which only the peripheral class is
//! implemented.
use vstd::prelude::*;
use vstd::std_specs::bits::axiom_u64_trailing_zeros;
use crate::exception::{
    handler_listing, lemma_irq_number_view_injective, list_handlers, register_in_table, CpuIrqState,
    IRQContext, IRQDescriptor, IRQManager, IRQNumber as BoundedIRQNumber,
};
use crate::state::{KernelPhase, StateManager};
use crate::synchronization::{IRQSafeNullLock, InitStateLock, Mutex, ReadWriteEx};

verus! {

/// Bit `j` of `m` is set.
pub open spec fn bit_set(m: u64, j: int) -> bool {
    (m >> (j as u64)) & 1u64 == 1u64
}

/// The positions below `k` of the set bits of `m`, in ascending order.
pub open spec fn set_bits_below(m: u64, k: int) -> Seq<usize>
    decreases k,
{
    if k <= 0 {
        Seq::empty()
    } else if bit_set(m, k - 1) {
        set_bits_below(m, k - 1).push((k - 1) as usize)
    } else {
        set_bits_below(m, k - 1)
    }
}

/// The positions of the set bits of `m`, in ascending order.
pub open spec fn set_bits(m: u64) -> Seq<usize> {
    set_bits_below(m, 64)
}

/// The pending IRQs of one poll, lowest number first: each is yielded once,
/// and the sequence ends when none is left.
pub struct PendingIRQs {
    bitmask: u64,
}

/// Clearing bit `t` leaves every other bit as it was.
proof fn lemma_clear_bit(m: u64, t: u64, j: u64)
    requires
        t < 64,
        j < 64,
    ensures
        bit_set(m & !(1u64 << t), j as int) == (j != t && bit_set(m, j as int)),
{
    assert(((m & !(1u64 << t)) >> j) & 1u64 == 1u64 <==> (j != t && (m >> j) & 1u64 == 1u64)) by (bit_vector)
        requires t < 64, j < 64;
}

/// Where no bit of `m` in `[lo, hi)` is set, the set bits below `hi` are
/// those below `lo`.
proof fn lemma_set_bits_gap(m: u64, lo: int, hi: int)
    requires
        0 <= lo <= hi <= 64,
        forall|j: int| lo <= j < hi ==> !#[trigger] bit_set(m, j),
    ensures
        set_bits_below(m, hi) == set_bits_below(m, lo),
    decreases hi - lo,
{
    if hi > lo {
        assert(!bit_set(m, hi - 1));
        lemma_set_bits_gap(m, lo, hi - 1);
    }
}

/// A mask with no bit set has no bits listed.
proof fn lemma_zero_has_no_bits(j: int)
    requires
        0 <= j < 64,
    ensures
        !bit_set(0u64, j),
{
    let jj = j as u64;
    assert((0u64 >> jj) & 1u64 == 0u64) by (bit_vector);
}

impl PendingIRQs {
    pub closed spec fn mask(&self) -> u64 {
        self.bitmask
    }

    /// The pending IRQs of `bitmask`.
    pub fn new(bitmask: u64) -> (r: Self)
        ensures
            r.mask() == bitmask,
    {
        PendingIRQs { bitmask }
    }

    /// The lowest pending IRQ, which leaves the set; `None` when none is
    /// left.
    pub fn next(&mut self) -> (r: Option<usize>)
        ensures
            old(self).mask() == 0 ==> r is None && final(self).mask() == 0,
            old(self).mask() != 0 ==> r is Some && r->Some_0 < 64 && bit_set(old(self).mask(), r->Some_0 as int)
                && (forall|j: int| 0 <= j < r->Some_0 ==> !#[trigger] bit_set(old(self).mask(), j))
                && final(self).mask() == old(self).mask() & !(1u64 << (r->Some_0 as u64)),
    {
        let next = self.bitmask.trailing_zeros();
        proof {
            axiom_u64_trailing_zeros(self.bitmask);
        }
        if next == 64 {
            return None;
        }
        let t = next as u64;
        self.bitmask = self.bitmask & !(1u64 << t);
        proof {
            assert forall|j: int| 0 <= j < t implies !#[trigger] bit_set(old(self).bitmask, j) by {
                let jj = j as u64;
                assert((old(self).bitmask >> jj) & 1u64 == 0u64);
            }
        }
        Some(next as usize)
    }
}

/// The largest local IRQ number.
pub const MAX_LOCAL_IRQ_NUMBER: usize = 11;

/// The largest peripheral IRQ number.
pub const MAX_PERIPHERAL_IRQ_NUMBER: usize = 63;

/// Number of peripheral IRQs.
pub const NUM_PERIPHERAL_IRQS: usize = 64;

/// The driver's compatibility string.
pub const BCM_IC_COMPATIBLE: &'static str = "BCM Interrupt Controller";

/// A local IRQ number.
pub type LocalIRQ = BoundedIRQNumber<MAX_LOCAL_IRQ_NUMBER>;

/// A peripheral IRQ number.
pub type PeripheralIRQ = BoundedIRQNumber<MAX_PERIPHERAL_IRQ_NUMBER>;

/// An IRQ of the BCM controller: a local one or a peripheral one.
#[derive(Clone, Copy, Debug)]
pub enum IRQNumber {
    Local(LocalIRQ),
    Peripheral(PeripheralIRQ),
}

/// The write-only enable registers: the value last written to each.
#[derive(Clone, Copy, PartialEq, Eq, Structural, Debug)]
pub struct WORegisters {
    /// Enable register of IRQs 0 to 31 (offset 0x10).
    pub enable_1: u32,
    /// Enable register of IRQs 32 to 63 (offset 0x14).
    pub enable_2: u32,
}

/// The read-only pending registers.
#[derive(Clone, Copy, PartialEq, Eq, Structural, Debug)]
pub struct RORegisters {
    /// Pending register of IRQs 0 to 31 (offset 0x04).
    pub pending_1: u32,
    /// Pending register of IRQs 32 to 63 (offset 0x08).
    pub pending_2: u32,
}

/// The 64-bit pending mask of the two pending registers.
pub open spec fn pending_mask(ro: RORegisters) -> u64 {
    ((ro.pending_2 as u64) << 32u64) | (ro.pending_1 as u64)
}

/// The descriptors that `table` holds for `irqs`, in order.
pub open spec fn handlers_of(table: Seq<Option<IRQDescriptor>>, irqs: Seq<usize>) -> Seq<IRQDescriptor> {
    irqs.map_values(|j: usize| table[j as int]->Some_0)
}

/// The peripheral interrupt controller.
pub struct PeripheralIC {
    wo_registers: IRQSafeNullLock<WORegisters>,
    ro_registers: RORegisters,
    handler_table: InitStateLock<Vec<Option<IRQDescriptor>>>,
}

impl PeripheralIC {
    pub closed spec fn wo(&self) -> WORegisters {
        self.wo_registers.data()
    }

    pub closed spec fn ro(&self) -> RORegisters {
        self.ro_registers
    }

    pub closed spec fn table(&self) -> Seq<Option<IRQDescriptor>> {
        self.handler_table.data()@
    }

    /// The controller over the given register blocks, with no handler
    /// registered.
    pub fn new(wo: WORegisters, ro: RORegisters) -> (r: Self)
        ensures
            r.wo() == wo,
            r.ro() == ro,
            r.table().len() == NUM_PERIPHERAL_IRQS,
            forall|i: int| 0 <= i < NUM_PERIPHERAL_IRQS ==> #[trigger] r.table()[i] is None,
    {
        let mut table: Vec<Option<IRQDescriptor>> = Vec::new();
        while table.len() < NUM_PERIPHERAL_IRQS
            invariant
                table@.len() <= NUM_PERIPHERAL_IRQS,
                forall|i: int| 0 <= i < table@.len() ==> #[trigger] table@[i] is None,
            decreases NUM_PERIPHERAL_IRQS - table@.len(),
        {
            table.push(None);
        }
        PeripheralIC {
            wo_registers: IRQSafeNullLock::new(wo),
            ro_registers: ro,
            handler_table: InitStateLock::new(table),
        }
    }

    /// Takes the pending registers' current contents.
    pub fn set_pending_registers(&mut self, ro: RORegisters)
        ensures
            final(self).ro() == ro,
            final(self).wo() == old(self).wo(),
            final(self).table() == old(self).table(),
    {
        self.ro_registers = ro;
    }

    /// The enable registers.
    pub fn wo_registers(&mut self, cpu: &mut CpuIrqState) -> (r: WORegisters)
        ensures
            r == old(self).wo(),
            final(self).wo() == old(self).wo(),
            final(self).ro() == old(self).ro(),
            final(self).table() == old(self).table(),
            *final(cpu) == *old(cpu),
    {
        self.wo_registers.lock(cpu, |regs: &mut WORegisters| -> (r: WORegisters)
            ensures
                r == *old(regs),
                *final(regs) == *old(regs),
            { *regs })
    }

    /// The pending IRQs of this poll.
    pub fn pending_irqs(&self) -> (r: PendingIRQs)
        ensures
            r.mask() == pending_mask(self.ro()),
    {
        let high = (self.ro_registers.pending_2 as u64) << 32u64;
        PendingIRQs::new(high | (self.ro_registers.pending_1 as u64))
    }
}

impl IRQManager for PeripheralIC {
    type IRQNumberType = PeripheralIRQ;

    open spec fn wf(&self) -> bool {
        self.table().len() == NUM_PERIPHERAL_IRQS
    }

    open spec fn implements(&self, irq: PeripheralIRQ) -> bool {
        irq.wf()
    }

    open spec fn handler_for(&self, irq: PeripheralIRQ) -> Option<IRQDescriptor> {
        if irq@ < self.table().len() {
            self.table()[irq@ as int]
        } else {
            None
        }
    }

    open spec fn armed_from(&self, before: &Self, irq: PeripheralIRQ) -> bool {
        &&& self.ro() == before.ro()
        &&& self.table() == before.table()
        &&& if irq@ <= 31 {
            self.wo() == (WORegisters { enable_1: 1u32 << ((irq@ % 32) as u32), ..before.wo() })
        } else {
            self.wo() == (WORegisters { enable_2: 1u32 << ((irq@ % 32) as u32), ..before.wo() })
        }
    }

    open spec fn dispatchable(&self) -> bool {
        forall|j: int| 0 <= j < 64 && #[trigger] bit_set(pending_mask(self.ro()), j) ==> self.table()[j] is Some
    }

    open spec fn pending_handlers(&self) -> Seq<IRQDescriptor> {
        handlers_of(self.table(), set_bits(pending_mask(self.ro())))
    }

    open spec fn completed_from(&self, before: &Self) -> bool {
        &&& self.wo() == before.wo()
        &&& self.ro() == before.ro()
        &&& self.table() == before.table()
    }

    open spec fn listing(&self) -> Seq<(usize, &'static str)> {
        handler_listing(self.table(), 0, NUM_PERIPHERAL_IRQS as int)
    }

    fn register_handler(
        &mut self,
        state: &StateManager,
        cpu: &CpuIrqState,
        irq_number: PeripheralIRQ,
        descriptor: IRQDescriptor,
    ) -> (r: Result<(), &'static str>) {
        let n = irq_number.get();
        let table = self.handler_table.write(state, cpu);
        let r = register_in_table(table, n, descriptor);
        proof {
            assert forall|m: PeripheralIRQ| m != irq_number implies self.handler_for(m) == old(self).handler_for(m) by {
                if m@ == irq_number@ {
                    lemma_irq_number_view_injective(m, irq_number);
                }
            }
        }
        r
    }

    fn enable(&mut self, cpu: &mut CpuIrqState, irq_number: PeripheralIRQ) {
        let irq = irq_number.get();
        let bit: u32 = 1u32 << ((irq % 32) as u32);
        if irq <= 31 {
            self.wo_registers.lock(cpu, |regs: &mut WORegisters| -> (r: ())
                ensures
                    *final(regs) == (WORegisters { enable_1: bit, ..*old(regs) }),
                { regs.enable_1 = bit; });
        } else {
            self.wo_registers.lock(cpu, |regs: &mut WORegisters| -> (r: ())
                ensures
                    *final(regs) == (WORegisters { enable_2: bit, ..*old(regs) }),
                { regs.enable_2 = bit; });
        }
    }

    fn handle_pending_irqs(&mut self, _ic: &IRQContext) -> (r: Vec<IRQDescriptor>) {
        let mut pending = self.pending_irqs();
        let table = self.handler_table.read();
        let ghost orig = pending.mask();
        let ghost mut bound: int = 0;
        let mut r: Vec<IRQDescriptor> = Vec::new();
        let mut done = false;
        while !done
            invariant
                self.wf(),
                self.dispatchable(),
                *table == self.handler_table.data(),
                orig == pending_mask(self.ro()),
                0 <= bound <= 64,
                forall|j: int| 0 <= j < 64 ==> #[trigger] bit_set(pending.mask(), j) == (bit_set(orig, j) && j >= bound),
                done ==> pending.mask() == 0,
                r@ == handlers_of(self.table(), set_bits_below(orig, bound)),
            decreases 2 * (64 - bound) + if done { 0int } else { 1int },
        {
            let ghost before = pending.mask();
            match pending.next() {
                None => {
                    done = true;
                },
                Some(n) => {
                    proof {
                        assert(bit_set(before, n as int));
                        assert forall|j: int| bound <= j < n implies !#[trigger] bit_set(orig, j) by {
                            assert(!bit_set(before, j));
                        }
                        lemma_set_bits_gap(orig, bound, n as int);
                        assert(set_bits_below(orig, n + 1) == set_bits_below(orig, n as int).push(n));
                        assert forall|j: int| 0 <= j < 64 implies #[trigger] bit_set(pending.mask(), j) == (
                        bit_set(orig, j) && j >= n + 1) by {
                            lemma_clear_bit(before, n as u64, j as u64);
                            if bound <= j < n {
                                assert(!bit_set(orig, j));
                            }
                        }
                    }
                    match table[n] {
                        Some(descriptor) => {
                            r.push(descriptor);
                        },
                        None => {},
                    }
                    proof {
                        assert(handlers_of(self.table(), set_bits_below(orig, n + 1)) =~= handlers_of(
                            self.table(),
                            set_bits_below(orig, bound),
                        ).push(self.table()[n as int]->Some_0));
                        bound = n + 1;
                    }
                },
            }
        }
        proof {
            assert forall|j: int| bound <= j < 64 implies !#[trigger] bit_set(orig, j) by {
                lemma_zero_has_no_bits(j);
                assert(!bit_set(pending.mask(), j));
            }
            lemma_set_bits_gap(orig, bound, 64);
        }
        r
    }

    fn print_handler(&self) -> (r: Vec<(usize, &'static str)>) {
        list_handlers(self.handler_table.read(), 0)
    }
}

/// The error of a request on a local IRQ, which this controller does not
/// implement.
pub const ERR_LOCAL_NOT_IMPLEMENTED: &'static str = "Local IRQ controller not implemented";

/// The BCM interrupt controller. Only peripheral IRQs are implemented.
pub struct InterruptController {
    periph: PeripheralIC,
}

impl InterruptController {
    pub closed spec fn peripheral(&self) -> PeripheralIC {
        self.periph
    }

    /// The controller over the peripheral controller `periph`.
    pub fn new(periph: PeripheralIC) -> (r: Self)
        ensures
            r.peripheral() == periph,
    {
        InterruptController { periph }
    }

    /// The driver's compatibility string.
    pub fn compatible(&self) -> (r: &'static str)
        ensures
            r == BCM_IC_COMPATIBLE,
    {
        BCM_IC_COMPATIBLE
    }

    /// The peripheral controller.
    pub fn periph(&self) -> (r: &PeripheralIC)
        ensures
            *r == self.peripheral(),
    {
        &self.periph
    }

    /// Mutable access to the peripheral controller.
    pub fn periph_mut(&mut self) -> (r: &mut PeripheralIC)
        ensures
            *r == old(self).peripheral(),
            final(self).peripheral() == *final(r),
    {
        &mut self.periph
    }
}

impl IRQManager for InterruptController {
    type IRQNumberType = IRQNumber;

    open spec fn wf(&self) -> bool {
        self.peripheral().wf()
    }

    open spec fn implements(&self, irq: IRQNumber) -> bool {
        match irq {
            IRQNumber::Local(_) => false,
            IRQNumber::Peripheral(p) => p.wf(),
        }
    }

    open spec fn handler_for(&self, irq: IRQNumber) -> Option<IRQDescriptor> {
        match irq {
            IRQNumber::Local(_) => None,
            IRQNumber::Peripheral(p) => self.peripheral().handler_for(p),
        }
    }

    open spec fn armed_from(&self, before: &Self, irq: IRQNumber) -> bool {
        match irq {
            IRQNumber::Local(_) => self == before,
            IRQNumber::Peripheral(p) => self.peripheral().armed_from(&before.peripheral(), p),
        }
    }

    open spec fn dispatchable(&self) -> bool {
        self.peripheral().dispatchable()
    }

    open spec fn pending_handlers(&self) -> Seq<IRQDescriptor> {
        self.peripheral().pending_handlers()
    }

    open spec fn completed_from(&self, before: &Self) -> bool {
        self.peripheral().completed_from(&before.peripheral())
    }

    open spec fn listing(&self) -> Seq<(usize, &'static str)> {
        self.peripheral().listing()
    }

    fn register_handler(
        &mut self,
        state: &StateManager,
        cpu: &CpuIrqState,
        irq_number: IRQNumber,
        descriptor: IRQDescriptor,
    ) -> (r: Result<(), &'static str>) {
        match irq_number {
            IRQNumber::Local(_) => Err(ERR_LOCAL_NOT_IMPLEMENTED),
            IRQNumber::Peripheral(pirq) => {
                let r = self.periph.register_handler(state, cpu, pirq, descriptor);
                proof {
                    assert forall|n: IRQNumber| n != irq_number implies self.handler_for(n) == old(self).handler_for(n) by {
                        match n {
                            IRQNumber::Local(_) => {},
                            IRQNumber::Peripheral(q) => {
                                assert(q != pirq);
                            },
                        }
                    }
                }
                r
            },
        }
    }

    fn enable(&mut self, cpu: &mut CpuIrqState, irq_number: IRQNumber) {
        match irq_number {
            IRQNumber::Local(_) => {},
            IRQNumber::Peripheral(pirq) => self.periph.enable(cpu, pirq),
        }
    }

    fn handle_pending_irqs(&mut self, ic: &IRQContext) -> (r: Vec<IRQDescriptor>) {
        self.periph.handle_pending_irqs(ic)
    }

    fn print_handler(&self) -> (r: Vec<(usize, &'static str)>) {
        self.periph.print_handler()
    }
}

} // verus!
