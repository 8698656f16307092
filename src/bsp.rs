//! Board support for the Raspberry Pi 3 and 4: the physical memory map and
//! the kernel's virtual memory layout built from it.
use vstd::prelude::*;
use crate::mmu::{
    descriptor_ok, AcessPermissons, AttributeFields, KernelVirtualLayout, MemAttributes, Translation,
    TranslationDescriptor, VirtualRange,
};

verus! {

/// A supported board.
#[derive(Clone, Copy, PartialEq, Eq, Structural, Debug)]
pub enum Board {
    RaspberryPi3,
    RaspberryPi4,
}

/// The last address of the kernel's address space (4 GiB).
pub const END_INCLUSIVE: usize = 0xFFFF_FFFF;

/// Offset of the GPIO block from the start of device MMIO.
pub const GPIO_OFFSET: usize = 0x0020_0000;

/// Offset of the PL011 UART from the start of device MMIO.
pub const UART_OFFSET: usize = 0x0020_1000;

/// Offset of the mailbox from the start of device MMIO.
pub const MAILBOX_OFFSET: usize = 0x0000_B880;

/// Start of the virtual window that is remapped onto the GPIO block.
pub const REMAPPED_MMIO_START: usize = 0x1FFF_0000;

/// End of the virtual window that is remapped onto the GPIO block.
pub const REMAPPED_MMIO_END_INCLUSIVE: usize = 0x1FFF_FFFF;

/// The board's name.
pub fn board_name(board: Board) -> (r: &'static str)
    ensures
        r == match board {
            Board::RaspberryPi3 => "Raspberry Pi 3",
            Board::RaspberryPi4 => "Raspberry Pi 4",
        },
{
    match board {
        Board::RaspberryPi3 => "Raspberry Pi 3",
        Board::RaspberryPi4 => "Raspberry Pi 4",
    }
}

/// The library's version string.
pub fn version() -> (r: &'static str)
    ensures
        r == "rpi_kernel version 0.1.0",
{
    "rpi_kernel version 0.1.0"
}

/// The first address of device MMIO.
pub open spec fn mmio_start_spec(board: Board) -> usize {
    match board {
        Board::RaspberryPi3 => 0x3F00_0000,
        Board::RaspberryPi4 => 0xFE00_0000,
    }
}

/// The last address of device MMIO.
pub open spec fn mmio_end_inclusive_spec(board: Board) -> usize {
    match board {
        Board::RaspberryPi3 => 0x4000_FFFF,
        Board::RaspberryPi4 => 0xFF84_FFFF,
    }
}

/// The first address of device MMIO.
pub fn mmio_start(board: Board) -> (r: usize)
    ensures
        r == mmio_start_spec(board),
{
    match board {
        Board::RaspberryPi3 => 0x3F00_0000,
        Board::RaspberryPi4 => 0xFE00_0000,
    }
}

/// The physical address of the GPIO block.
pub fn gpio_start(board: Board) -> (r: usize)
    ensures
        r == mmio_start_spec(board) + GPIO_OFFSET,
{
    mmio_start(board) + GPIO_OFFSET
}

/// The physical address of the PL011 UART.
pub fn pl011_uart_start(board: Board) -> (r: usize)
    ensures
        r == mmio_start_spec(board) + UART_OFFSET,
{
    mmio_start(board) + UART_OFFSET
}

/// The physical address of the mailbox.
pub fn mailbox_start(board: Board) -> (r: usize)
    ensures
        r == mmio_start_spec(board) + MAILBOX_OFFSET,
{
    mmio_start(board) + MAILBOX_OFFSET
}

/// The kernel's code and read-only data: from `code_start` up to
/// `code_end_exclusive`.
pub fn code_range_inclusive(code_start: usize, code_end_exclusive: usize) -> (r: VirtualRange)
    requires
        code_start < code_end_exclusive,
    ensures
        r == (VirtualRange { start: code_start, end_inclusive: (code_end_exclusive - 1) as usize }),
{
    VirtualRange { start: code_start, end_inclusive: code_end_exclusive - 1 }
}

/// The virtual window that is remapped onto the GPIO block.
pub fn remmapped_mmio_range_inclusive() -> (r: VirtualRange)
    ensures
        r == (VirtualRange { start: REMAPPED_MMIO_START, end_inclusive: REMAPPED_MMIO_END_INCLUSIVE }),
{
    VirtualRange { start: REMAPPED_MMIO_START, end_inclusive: REMAPPED_MMIO_END_INCLUSIVE }
}

/// Device MMIO.
pub fn mmio_range_inclusive(board: Board) -> (r: VirtualRange)
    ensures
        r == (VirtualRange { start: mmio_start_spec(board), end_inclusive: mmio_end_inclusive_spec(board) }),
{
    match board {
        Board::RaspberryPi3 => VirtualRange { start: 0x3F00_0000, end_inclusive: 0x4000_FFFF },
        Board::RaspberryPi4 => VirtualRange { start: 0xFE00_0000, end_inclusive: 0xFF84_FFFF },
    }
}

/// The kernel's virtual memory layout on `board`, with the kernel's code
/// in `[code_start, code_end_exclusive)`: the code read-only and
/// executable; a window at 0x1FFF_0000 remapped onto the GPIO block; and
/// device MMIO identity-mapped; everything else up to 4 GiB by default.
pub fn virt_mem_layout(board: Board, code_start: usize, code_end_exclusive: usize) -> (r: KernelVirtualLayout)
    requires
        code_start < code_end_exclusive,
    ensures
        r.wf(),
        r.max_spec() == END_INCLUSIVE,
        r.descriptors() == seq![
            (TranslationDescriptor {
                name: "Kernel code and RO data",
                virtual_range: VirtualRange { start: code_start, end_inclusive: (code_end_exclusive - 1) as usize },
                physical_range_translation: Translation::Identity,
                attribute_fields: AttributeFields {
                    mem_attributes: MemAttributes::CacheableDRAM,
                    acc_perms: AcessPermissons::ReadOnly,
                    execute_never: false,
                },
            }),
            (TranslationDescriptor {
                name: "Remapped Device MMIO",
                virtual_range: VirtualRange { start: REMAPPED_MMIO_START, end_inclusive: REMAPPED_MMIO_END_INCLUSIVE },
                physical_range_translation: Translation::Offset((mmio_start_spec(board) + GPIO_OFFSET) as usize),
                attribute_fields: AttributeFields {
                    mem_attributes: MemAttributes::Device,
                    acc_perms: AcessPermissons::ReadWrite,
                    execute_never: true,
                },
            }),
            (TranslationDescriptor {
                name: "Device MMIO",
                virtual_range: VirtualRange { start: mmio_start_spec(board), end_inclusive: mmio_end_inclusive_spec(board) },
                physical_range_translation: Translation::Identity,
                attribute_fields: AttributeFields {
                    mem_attributes: MemAttributes::Device,
                    acc_perms: AcessPermissons::ReadWrite,
                    execute_never: true,
                },
            }),
        ],
{
    let mut layout: Vec<TranslationDescriptor> = Vec::new();
    layout.push(TranslationDescriptor {
        name: "Kernel code and RO data",
        virtual_range: code_range_inclusive(code_start, code_end_exclusive),
        physical_range_translation: Translation::Identity,
        attribute_fields: AttributeFields {
            mem_attributes: MemAttributes::CacheableDRAM,
            acc_perms: AcessPermissons::ReadOnly,
            execute_never: false,
        },
    });
    layout.push(TranslationDescriptor {
        name: "Remapped Device MMIO",
        virtual_range: remmapped_mmio_range_inclusive(),
        physical_range_translation: Translation::Offset(gpio_start(board)),
        attribute_fields: AttributeFields {
            mem_attributes: MemAttributes::Device,
            acc_perms: AcessPermissons::ReadWrite,
            execute_never: true,
        },
    });
    layout.push(TranslationDescriptor {
        name: "Device MMIO",
        virtual_range: mmio_range_inclusive(board),
        physical_range_translation: Translation::Identity,
        attribute_fields: AttributeFields {
            mem_attributes: MemAttributes::Device,
            acc_perms: AcessPermissons::ReadWrite,
            execute_never: true,
        },
    });
    let r = KernelVirtualLayout::new(END_INCLUSIVE, layout);
    assert(r.descriptors() =~= layout@);
    assert forall|i: int| 0 <= i < r.descriptors().len() implies descriptor_ok(#[trigger] r.descriptors()[i]) by {
        assert(r.descriptors()[i] == layout@[i]);
    }
    r
}

} // verus!
