//! Activation of address translation: the decisions and register values of
//! the activation sequence. The sequence comes out as the list of system
//! register writes and barriers that the processor must perform, in order.
use vstd::prelude::*;
use crate::mmu::{KernelVirtualLayout, MMUEnableError};
use crate::registers::{field_bits_u64, field_value_u64};
use crate::translation_table::{FixedSizeTranslationTable, LVL3_TABLE_BYTES};

verus! {

/// The message of an activation on hardware without the 64 KiB granule.
pub const ERR_GRANULE_UNSUPPORTED: &'static str = "Translation granule not supported in HW";

/// One step of the activation sequence.
#[derive(Clone, Copy, PartialEq, Eq, Structural, Debug)]
pub enum SysRegWrite {
    /// Write the memory attribute indirection register.
    Mair(u64),
    /// Write the translation table base register 0.
    Ttbr0(u64),
    /// Write the translation control register.
    Tcr(u64),
    /// An instruction synchronization barrier.
    Isb,
    /// Write the system control register.
    Sctlr(u64),
}

/// Translation is active: the M bit of SCTLR_EL1.
pub open spec fn translation_enabled(sctlr: u64) -> bool {
    sctlr & 1 == 1
}

/// The hardware supports the 64 KiB granule: the TGran64 field (bits
/// 24..28) of ID_AA64MMFR0_EL1 is zero.
pub open spec fn granule_64kib_supported(id_aa64mmfr0: u64) -> bool {
    id_aa64mmfr0 & 0xF00_0000 == 0
}

/// MAIR_EL1: attribute 0 is device memory (nGnRE), attribute 1 is normal
/// memory, write-back non-transient read/write-allocate inside and out.
pub open spec fn mair_value() -> u64 {
    field_bits_u64(0xF, 12, 0b1111) | field_bits_u64(0xF, 8, 0b1111) | field_bits_u64(0xFF, 0, 0b0000_0100)
}

/// TCR_EL1 for an address space of `2^as_shift` bytes: top byte used,
/// 40-bit physical addresses, 64 KiB granule, inner shareable write-back
/// cacheable walks of TTBR0, ASID from TTBR0, walks of TTBR1 disabled.
pub open spec fn tcr_value(as_shift: u64) -> u64 {
    field_bits_u64(1, 37, 0) | field_bits_u64(7, 32, 0b010) | field_bits_u64(3, 14, 0b01)
        | field_bits_u64(3, 12, 0b11) | field_bits_u64(3, 10, 0b01) | field_bits_u64(3, 8, 0b01)
        | field_bits_u64(1, 7, 0) | field_bits_u64(1, 22, 0) | field_bits_u64(
        0x3F,
        0,
        (64 - as_shift) as u64,
    ) | field_bits_u64(1, 23, 1)
}

/// TTBR0_EL1 holding the table base address `addr`.
pub open spec fn ttbr0_value(addr: u64) -> u64 {
    field_bits_u64(0x7FFF_FFFF_FFFF, 1, addr >> 1u64)
}

/// SCTLR_EL1 from `sctlr` with translation (M), data caching (C) and
/// instruction caching (I) enabled.
pub open spec fn sctlr_enabled_value(sctlr: u64) -> u64 {
    sctlr | field_bits_u64(1, 0, 1) | field_bits_u64(1, 2, 1) | field_bits_u64(1, 12, 1)
}

/// The register writes and barriers that activate translation over the
/// table at `base`, in order.
pub open spec fn activation_sequence(sctlr: u64, base: u64, as_shift: u64) -> Seq<SysRegWrite> {
    seq![
        SysRegWrite::Mair(mair_value()),
        SysRegWrite::Ttbr0(ttbr0_value(base)),
        SysRegWrite::Tcr(tcr_value(as_shift)),
        SysRegWrite::Isb,
        SysRegWrite::Sctlr(sctlr_enabled_value(sctlr)),
        SysRegWrite::Isb,
    ]
}

/// The memory management unit, as seen through its system registers.
pub struct MemoryManagementUnit {
    sctlr_el1: u64,
    id_aa64mmfr0_el1: u64,
}

impl MemoryManagementUnit {
    pub closed spec fn sctlr(&self) -> u64 {
        self.sctlr_el1
    }

    pub closed spec fn id_aa64mmfr0(&self) -> u64 {
        self.id_aa64mmfr0_el1
    }

    /// The unit whose SCTLR_EL1 and ID_AA64MMFR0_EL1 read as given.
    pub fn new(sctlr_el1: u64, id_aa64mmfr0_el1: u64) -> (r: Self)
        ensures
            r.sctlr() == sctlr_el1,
            r.id_aa64mmfr0() == id_aa64mmfr0_el1,
    {
        MemoryManagementUnit { sctlr_el1, id_aa64mmfr0_el1 }
    }

    /// Whether translation is active.
    pub fn is_enabled(&self) -> (r: bool)
        ensures
            r == translation_enabled(self.sctlr()),
    {
        self.sctlr_el1 & 1 == 1
    }

    /// Whether the hardware supports the 64 KiB granule.
    pub fn granule_supported(&self) -> (r: bool)
        ensures
            r == granule_64kib_supported(self.id_aa64mmfr0()),
    {
        self.id_aa64mmfr0_el1 & 0xF00_0000 == 0
    }

    /// The value of MAIR_EL1.
    pub fn set_up_mair(&self) -> (r: u64)
        ensures
            r == mair_value(),
    {
        field_value_u64(0xF, 12, 0b1111) | field_value_u64(0xF, 8, 0b1111) | field_value_u64(0xFF, 0, 0b0000_0100)
    }

    /// The value of TCR_EL1 for an address space of `2^as_shift` bytes.
    pub fn configure_translation_control(&self, as_shift: usize) -> (r: u64)
        requires
            1 <= as_shift <= 48,
        ensures
            r == tcr_value(as_shift as u64),
    {
        let t0sz = 64 - (as_shift as u64);
        field_value_u64(1, 37, 0) | field_value_u64(7, 32, 0b010) | field_value_u64(3, 14, 0b01)
            | field_value_u64(3, 12, 0b11) | field_value_u64(3, 10, 0b01) | field_value_u64(3, 8, 0b01)
            | field_value_u64(1, 7, 0) | field_value_u64(1, 22, 0) | field_value_u64(0x3F, 0, t0sz)
            | field_value_u64(1, 23, 1)
    }

    /// Activates translation over `table`, filled from `layout`, for an
    /// address space of `2^as_shift` bytes: fails if translation is active
    /// already or the hardware lacks the 64 KiB granule; else fills the
    /// table, and on success returns the register writes and barriers to
    /// perform, in order. A failure while filling leaves the table partly
    /// filled and asks for no register write.
    pub fn enable_mmu_and_caching<const NUM_TABLES: usize>(
        &self,
        table: &mut FixedSizeTranslationTable<NUM_TABLES>,
        layout: &KernelVirtualLayout,
        as_shift: usize,
    ) -> (r: Result<Vec<SysRegWrite>, MMUEnableError>)
        requires
            old(table).wf(),
            layout.wf(),
            1 <= as_shift <= 48,
        ensures
            final(table).wf(),
            final(table).base_spec() == old(table).base_spec(),
            translation_enabled(self.sctlr()) ==> (r matches Err(MMUEnableError::AlreadyEnabled) && *final(table)
                == *old(table)),
            !translation_enabled(self.sctlr()) && !granule_64kib_supported(self.id_aa64mmfr0()) ==> (r matches Err(
                MMUEnableError::Other(m),
            ) && m == ERR_GRANULE_UNSUPPORTED && *final(table) == *old(table)),
            !translation_enabled(self.sctlr()) && granule_64kib_supported(self.id_aa64mmfr0()) ==> match r {
                Ok(steps) => final(table).populated_from(layout) && steps@ == activation_sequence(
                    self.sctlr(),
                    (old(table).base_spec() + NUM_TABLES * LVL3_TABLE_BYTES) as u64,
                    as_shift as u64,
                ),
                Err(e) => (e matches MMUEnableError::Other(m) && m == crate::mmu::ERR_OUT_OF_RANGE),
            },
            !translation_enabled(self.sctlr()) && granule_64kib_supported(self.id_aa64mmfr0()) ==> (r is Ok
                <==> crate::translation_table::slot_virt_addr(NUM_TABLES - 1, crate::translation_table::NUM_LVL3_ENTRIES - 1)
                <= layout.max_spec()),
    {
        if self.is_enabled() {
            return Err(MMUEnableError::AlreadyEnabled);
        }
        if !self.granule_supported() {
            return Err(MMUEnableError::Other(ERR_GRANULE_UNSUPPORTED));
        }
        let mair = self.set_up_mair();
        match table.populate_tt_entries(layout) {
            Err(e) => {
                return Err(MMUEnableError::Other(e));
            },
            Ok(()) => {},
        }
        let base = table.phys_base_address();
        let ttbr0 = field_value_u64(0x7FFF_FFFF_FFFF, 1, base >> 1u64);
        let tcr = self.configure_translation_control(as_shift);
        let sctlr = self.sctlr_el1 | field_value_u64(1, 0, 1) | field_value_u64(1, 2, 1) | field_value_u64(1, 12, 1);
        let mut steps: Vec<SysRegWrite> = Vec::new();
        steps.push(SysRegWrite::Mair(mair));
        steps.push(SysRegWrite::Ttbr0(ttbr0));
        steps.push(SysRegWrite::Tcr(tcr));
        steps.push(SysRegWrite::Isb);
        steps.push(SysRegWrite::Sctlr(sctlr));
        steps.push(SysRegWrite::Isb);
        assert(steps@ =~= activation_sequence(self.sctlr(), base, as_shift as u64));
        Ok(steps)
    }
}

} // verus!
