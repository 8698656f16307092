//! The kernel's boot phase: `Init`, then single-core main, then multi-core
//! main; it only moves forward.
use vstd::prelude::*;

verus! {

/// A phase of the kernel's life.
#[derive(Clone, Copy, PartialEq, Eq, Structural, Debug)]
pub enum KernelPhase {
    Init,
    SingleCoreMain,
    MultiCoreMain,
}

/// Holds the current phase and performs the transitions.
pub struct StateManager {
    phase: KernelPhase,
}

impl StateManager {
    pub closed spec fn phase_spec(&self) -> KernelPhase {
        self.phase
    }

    /// A manager in the `Init` phase.
    pub fn new() -> (r: Self)
        ensures
            r.phase_spec() == KernelPhase::Init,
    {
        StateManager { phase: KernelPhase::Init }
    }

    /// The current phase.
    pub fn phase(&self) -> (r: KernelPhase)
        ensures
            r == self.phase_spec(),
    {
        self.phase
    }

    /// Whether the kernel is still in the `Init` phase.
    pub fn is_init(&self) -> (r: bool)
        ensures
            r == (self.phase_spec() == KernelPhase::Init),
    {
        self.phase == KernelPhase::Init
    }

    /// Ends the `Init` phase.
    pub fn transition_to_single_core_main(&mut self)
        requires
            old(self).phase_spec() == KernelPhase::Init,
        ensures
            final(self).phase_spec() == KernelPhase::SingleCoreMain,
    {
        self.phase = KernelPhase::SingleCoreMain;
    }

    /// Ends the single-core main phase.
    pub fn transition_to_multi_core_main(&mut self)
        requires
            old(self).phase_spec() == KernelPhase::SingleCoreMain,
        ensures
            final(self).phase_spec() == KernelPhase::MultiCoreMain,
    {
        self.phase = KernelPhase::MultiCoreMain;
    }
}

} // verus!
