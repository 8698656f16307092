use rpi_kernel::arch_mmu::{MemoryManagementUnit, SysRegWrite, ERR_GRANULE_UNSUPPORTED};
use rpi_kernel::bsp::{board_name, virt_mem_layout, Board};
use rpi_kernel::mmu::{
    AcessPermissons, AddressSpace, AttributeFields, KernelVirtualLayout, MMUEnableError, MemAttributes,
    Translation, TranslationDescriptor, TranslationGranule, VirtualRange, ERR_OUT_OF_RANGE,
};
use rpi_kernel::translation_table::{FixedSizeTranslationTable, PageDescriptor, TableDescriptor};

fn attrs(m: MemAttributes, a: AcessPermissons, xn: bool) -> AttributeFields {
    AttributeFields { mem_attributes: m, acc_perms: a, execute_never: xn }
}

fn desc(name: &'static str, start: usize, end: usize, t: Translation, a: AttributeFields) -> TranslationDescriptor {
    TranslationDescriptor {
        name,
        virtual_range: VirtualRange { start, end_inclusive: end },
        physical_range_translation: t,
        attribute_fields: a,
    }
}

fn decode(value: u64) -> u64 {
    ((value >> 16) & 0xFFFF_FFFF) << 16
}

#[test]
fn granule_size_and_shift() {
    assert_eq!(TranslationGranule::<65536>::size_checked(), 65536);
    assert_eq!(TranslationGranule::<65536>::shift(), 16);
    assert_eq!(TranslationGranule::<{ 512 * 1024 * 1024 }>::shift(), 29);
    assert_eq!(TranslationGranule::<1>::shift(), 0);
    assert_eq!(AddressSpace::<0x1_0000_0000>::size_checked(), 0x1_0000_0000);
    assert_eq!(AddressSpace::<0x1_0000_0000>::size_shift(), 32);
}

#[test]
fn first_matching_range_wins() {
    let ro = attrs(MemAttributes::CacheableDRAM, AcessPermissons::ReadOnly, false);
    let dev = attrs(MemAttributes::Device, AcessPermissons::ReadWrite, true);
    let layout = KernelVirtualLayout::new(
        0xFFFF,
        vec![
            desc("first", 0x100, 0x1FF, Translation::Offset(0x8000), ro),
            desc("second", 0x180, 0x2FF, Translation::Identity, dev),
        ],
    );
    assert_eq!(layout.virt_addr_properties(0x180), Ok((0x8080, ro)));
    assert_eq!(layout.virt_addr_properties(0x1FF), Ok((0x80FF, ro)));
    assert_eq!(layout.virt_addr_properties(0x200), Ok((0x200, dev)));
}

#[test]
fn uncovered_address_gets_identity_and_defaults() {
    let ro = attrs(MemAttributes::CacheableDRAM, AcessPermissons::ReadOnly, false);
    let layout = KernelVirtualLayout::new(0xFFFF, vec![desc("code", 0x100, 0x1FF, Translation::Identity, ro)]);
    let defaults = attrs(MemAttributes::CacheableDRAM, AcessPermissons::ReadWrite, true);
    assert_eq!(layout.virt_addr_properties(0x300), Ok((0x300, defaults)));
    assert_eq!(layout.virt_addr_properties(0xFFFF), Ok((0xFFFF, defaults)));
    assert_eq!(AttributeFields::default(), defaults);
}

#[test]
fn address_above_max_is_out_of_range() {
    let layout = KernelVirtualLayout::new(0xFFFF, vec![]);
    assert_eq!(layout.virt_addr_properties(0x1_0000), Err(ERR_OUT_OF_RANGE));
    assert_eq!(layout.virt_addr_properties(usize::MAX), Err(ERR_OUT_OF_RANGE));
}

#[test]
fn layout_listing() {
    let layout = virt_mem_layout(Board::RaspberryPi3, 0x8_0000, 0x9_0000);
    let lines = layout.print_layout();
    assert_eq!(lines.len(), 3);
    assert_eq!((lines[0].start, lines[0].end_inclusive), (0x8_0000, 0x8_FFFF));
    assert_eq!((lines[0].size, lines[0].unit), (64, "KiB"));
    assert_eq!((lines[0].attr, lines[0].acc, lines[0].xn), ("C", "RO", "PX"));
    assert_eq!(lines[1].name, "Remapped Device MMIO");
    assert_eq!((lines[1].size, lines[1].unit), (64, "KiB"));
    assert_eq!((lines[2].attr, lines[2].acc, lines[2].xn), ("Dev", "RW", "PXN"));
    assert_eq!((lines[2].size, lines[2].unit), (16, "MiB"));
    assert_eq!(board_name(Board::RaspberryPi4), "Raspberry Pi 4");
}

#[test]
fn board_layout_remaps_gpio_window() {
    let layout = virt_mem_layout(Board::RaspberryPi4, 0x8_0000, 0x9_0000);
    let dev = attrs(MemAttributes::Device, AcessPermissons::ReadWrite, true);
    assert_eq!(layout.virt_addr_properties(0x1FFF_0010), Ok((0xFE20_0010, dev)));
    assert_eq!(layout.virt_addr_properties(0xFE00_0000), Ok((0xFE00_0000, dev)));
    let code = attrs(MemAttributes::CacheableDRAM, AcessPermissons::ReadOnly, false);
    assert_eq!(layout.virt_addr_properties(0x8_1234), Ok((0x8_1234, code)));
}

#[test]
fn descriptor_encodings() {
    assert_eq!(TableDescriptor::new_zeroed().value, 0);
    assert_eq!(PageDescriptor::new_zeroed().value, 0);
    assert_eq!(TableDescriptor::from_next_lvl_table_addr(0x9_0000).value, 0x9_0003);
    let normal_ro = attrs(MemAttributes::CacheableDRAM, AcessPermissons::ReadOnly, false);
    // UXN | AF | SH inner | AP RO | AttrIndx 1 | page | valid
    assert_eq!(
        PageDescriptor::from_output_addr(0x8_0000, &normal_ro).value,
        (1 << 54) | 0x8_0000 | (1 << 10) | (0b11 << 8) | (0b10 << 6) | (1 << 2) | 0b11
    );
    let dev = attrs(MemAttributes::Device, AcessPermissons::ReadWrite, true);
    assert_eq!(
        PageDescriptor::from_output_addr(0x3F20_0000, &dev).value,
        (1 << 54) | (1 << 53) | 0x3F20_0000 | (1 << 10) | (0b10 << 8) | 0b11
    );
}

#[test]
fn identity_layout_round_trip() {
    let rw = attrs(MemAttributes::CacheableDRAM, AcessPermissons::ReadWrite, true);
    let layout = KernelVirtualLayout::new(
        0x3FFF_FFFF,
        vec![desc("all", 0, 0x2000_0000 - 1, Translation::Identity, rw)],
    );
    let mut table = FixedSizeTranslationTable::<2>::new(0x10_0000);
    assert_eq!(table.populate_tt_entries(&layout), Ok(()));
    for l2 in 0..2usize {
        assert_eq!(table.table_descriptor(l2), (0x10_0000 + (l2 as u64) * 0x1_0000) | 0b11);
        for l3 in 0..8192usize {
            let virt = ((l2 << 29) + (l3 << 16)) as u64;
            let v = table.page_descriptor(l2, l3);
            assert_eq!(decode(v), virt);
            assert_eq!(v & 1, 1);
        }
    }
    assert_eq!(table.phys_base_address(), 0x12_0000);
}

#[test]
fn populate_fails_beyond_address_space() {
    let layout = KernelVirtualLayout::new(0x1FFF_FFFF, vec![]);
    let mut table = FixedSizeTranslationTable::<2>::new(0);
    assert_eq!(table.populate_tt_entries(&layout), Err(ERR_OUT_OF_RANGE));
}

#[test]
fn populate_applies_offset_translation() {
    let dev = attrs(MemAttributes::Device, AcessPermissons::ReadWrite, true);
    let layout = KernelVirtualLayout::new(
        0x1FFF_FFFF,
        vec![desc("remap", 0x1FFF_0000, 0x1FFF_FFFF, Translation::Offset(0x3F20_0000), dev)],
    );
    let mut table = FixedSizeTranslationTable::<1>::new(0x20_0000);
    assert_eq!(table.populate_tt_entries(&layout), Ok(()));
    assert_eq!(decode(table.page_descriptor(0, 8191)), 0x3F20_0000);
    assert_eq!(decode(table.page_descriptor(0, 8190)), 0x1FFE_0000);
}

#[test]
fn mmu_activation_sequence() {
    let layout = virt_mem_layout(Board::RaspberryPi3, 0x8_0000, 0x9_0000);
    let mut table = FixedSizeTranslationTable::<8>::new(0x10_0000);
    let mmu = MemoryManagementUnit::new(0x30D0_0800, 0);
    assert!(!mmu.is_enabled());
    let steps = mmu.enable_mmu_and_caching(&mut table, &layout, 32).unwrap();
    let tcr = (0b010u64 << 32) | (1 << 23) | (0b01 << 14) | (0b11 << 12) | (0b01 << 10) | (0b01 << 8) | 32;
    assert_eq!(
        steps,
        vec![
            SysRegWrite::Mair(0xFF04),
            SysRegWrite::Ttbr0(0x18_0000),
            SysRegWrite::Tcr(tcr),
            SysRegWrite::Isb,
            SysRegWrite::Sctlr(0x30D0_0800 | 1 | (1 << 2) | (1 << 12)),
            SysRegWrite::Isb,
        ]
    );
    assert_eq!(decode(table.page_descriptor(1, 0)), 0x2000_0000);
}

#[test]
fn mmu_already_enabled() {
    let layout = KernelVirtualLayout::new(0xFFFF_FFFF, vec![]);
    let mut table = FixedSizeTranslationTable::<8>::new(0);
    let mmu = MemoryManagementUnit::new(1, 0);
    assert!(matches!(mmu.enable_mmu_and_caching(&mut table, &layout, 32), Err(MMUEnableError::AlreadyEnabled)));
    assert_eq!(table.page_descriptor(0, 0), 0);
}

#[test]
fn mmu_granule_unsupported() {
    let layout = KernelVirtualLayout::new(0xFFFF_FFFF, vec![]);
    let mut table = FixedSizeTranslationTable::<8>::new(0);
    let mmu = MemoryManagementUnit::new(0, 0xF00_0000);
    match mmu.enable_mmu_and_caching(&mut table, &layout, 32) {
        Err(e) => assert_eq!(e.message(), ERR_GRANULE_UNSUPPORTED),
        Ok(_) => panic!("activation without 64 KiB granule"),
    }
}

#[test]
fn mmu_population_error_is_reported() {
    let layout = KernelVirtualLayout::new(0x7FFF_FFFF, vec![]);
    let mut table = FixedSizeTranslationTable::<8>::new(0);
    let mmu = MemoryManagementUnit::new(0, 0);
    match mmu.enable_mmu_and_caching(&mut table, &layout, 32) {
        Err(e) => assert_eq!(e.message(), ERR_OUT_OF_RANGE),
        Ok(_) => panic!("population beyond the layout"),
    }
}
