//! Uniprocessor synchronization: a cell whose critical sections run with
//! local interrupts masked, and a cell that may be written only while the
//! kernel is in its `Init` phase with interrupts masked, and read at any time.
use vstd::prelude::*;
use crate::exception::{lemma_daif_determines_state, local_irq_mask_save, local_irq_restore, CpuIrqState};
use crate::state::{KernelPhase, StateManager};

verus! {

/// Exclusive access to data through critical sections that mask local
/// interrupts.
pub trait Mutex {
    type Data;

    spec fn data(&self) -> Self::Data;

    /// Runs `f` on the data with local interrupts masked, and restores the
    /// interrupt state afterwards.
    fn lock<R, F: FnOnce(&mut Self::Data) -> R>(&mut self, cpu: &mut CpuIrqState, f: F) -> (r: R)
        requires
            forall|d: &mut Self::Data| *d == old(self).data() ==> f.requires((d,)),
        ensures
            *final(cpu) == *old(cpu),
            exists|d: &mut Self::Data|
                *d == old(self).data() && f.ensures((d,), r) && final(self).data() == *final(d),
    ;
}

/// Access to data that may be written during the `Init` phase with local
/// interrupts masked, and read at any time.
pub trait ReadWriteEx {
    type Data;

    spec fn data(&self) -> Self::Data;

    /// Write access to the data.
    fn write(&mut self, state: &StateManager, cpu: &CpuIrqState) -> (r: &mut Self::Data)
        requires
            state.phase_spec() == KernelPhase::Init,
            cpu.masked_spec(),
        ensures
            *r == old(self).data(),
            final(self).data() == *final(r),
    ;

    /// Read access to the data.
    fn read(&self) -> (r: &Self::Data)
        ensures
            *r == self.data(),
    ;
}

/// A cell whose critical sections run with local interrupts masked, so that
/// an interrupt handler on the same core cannot enter them.
pub struct IRQSafeNullLock<T> {
    data: T,
}

impl<T> IRQSafeNullLock<T> {
    /// A cell holding `data`.
    pub fn new(data: T) -> (r: Self)
        ensures
            r.data() == data,
    {
        IRQSafeNullLock { data }
    }
}

impl<T> Mutex for IRQSafeNullLock<T> {
    type Data = T;

    closed spec fn data(&self) -> T {
        self.data
    }

    fn lock<R, F: FnOnce(&mut T) -> R>(&mut self, cpu: &mut CpuIrqState, f: F) -> (r: R) {
        let saved = local_irq_mask_save(cpu);
        let r = f(&mut self.data);
        local_irq_restore(cpu, saved);
        proof {
            lemma_daif_determines_state(*cpu, *old(cpu));
        }
        r
    }
}

/// A cell that may be written only during the kernel's `Init` phase with
/// local interrupts masked, and read at any time.
pub struct InitStateLock<T> {
    data: T,
}

impl<T> InitStateLock<T> {
    /// A cell holding `data`.
    pub fn new(data: T) -> (r: Self)
        ensures
            r.data() == data,
    {
        InitStateLock { data }
    }
}

impl<T> ReadWriteEx for InitStateLock<T> {
    type Data = T;

    closed spec fn data(&self) -> T {
        self.data
    }

    fn write(&mut self, state: &StateManager, cpu: &CpuIrqState) -> (r: &mut T) {
        &mut self.data
    }

    fn read(&self) -> (r: &T) {
        &self.data
    }
}

} // verus!
