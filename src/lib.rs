//! Core of a bare-metal ARM64 kernel for the Raspberry Pi 3 and 4.
//!
//! - `mmu`, `translation_table`, `arch_mmu`, `bsp`: the declarative
//!   address-space layout, the two-level translation table filled from it,
//!   and the activation of address translation.
//! - `exception`, `gicd`, `gicc`, `gicv2`, `bcm_ic`: the local interrupt
//!   mask, bounded IRQ numbers, handler registration and dispatch, and the
//!   two interrupt controllers behind one interface.
//! - `state`, `synchronization`: the kernel's boot phase, and the cells
//!   that mask interrupts or are writable only while the kernel boots.
//! - `gpio`, `uart`, `mailbox`, `frame_buffer`, `console`, `time`, `boot`:
//!   device models whose calls decide register values and next steps;
//!   register access and waiting stay with the caller.
//!
//! Hardware registers appear as plain values: a driver holds an image of
//! its register block, and its contracts say what it writes there.

pub mod arch_mmu;
pub mod bcm_ic;
pub mod boot;
pub mod bsp;
pub mod console;
pub mod exception;
pub mod frame_buffer;
pub mod gicc;
pub mod gicd;
pub mod gicv2;
pub mod gpio;
pub mod mailbox;
pub mod mmu;
pub mod registers;
pub mod state;
pub mod synchronization;
pub mod time;
pub mod translation_table;
pub mod uart;
