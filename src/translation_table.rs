//! The kernel's two-level translation table: second-level table descriptors
//! of 512 MiB each, pointing at third-level tables of 8192 page descriptors
//! of 64 KiB each, filled from a `KernelVirtualLayout`.
use vstd::prelude::*;
use crate::mmu::{
    lookup, AcessPermissons, AttributeFields, KernelVirtualLayout, MemAttributes, Translation,
    ERR_OUT_OF_RANGE, GRANULE_512MIB, GRANULE_64KIB, MAX_ADDRESS_SPACE,
};
use crate::registers::{field_bits_u64, field_value_u64};

verus! {

/// Number of page descriptors in one third-level table.
pub const NUM_LVL3_ENTRIES: usize = 8192;

/// Size in bytes of one third-level table (8192 descriptors of 8 bytes).
pub const LVL3_TABLE_BYTES: u64 = 0x1_0000;

/// Mask of a 32-bit address field.
pub const ADDR_FIELD_MASK: u64 = 0xFFFF_FFFF;

/// Memory-attribute indirection index of device memory.
pub const MAIR_DEVICE: u64 = 0;

/// Memory-attribute indirection index of normal cacheable memory.
pub const MAIR_NORMAL: u64 = 1;

/// The bits of a valid table descriptor pointing at the next-level table at
/// physical address `addr`: the address field (bits 16..48), the `Table`
/// type bit and the valid bit.
pub open spec fn table_descriptor_bits(addr: u64) -> u64 {
    field_bits_u64(ADDR_FIELD_MASK, 16, addr >> 16) | field_bits_u64(1, 1, 1) | field_bits_u64(1, 0, 1)
}

/// The shareability (bits 8..10) and attribute index (bits 2..5) of a memory
/// type.
pub open spec fn mem_type_bits(m: MemAttributes) -> u64 {
    match m {
        MemAttributes::CacheableDRAM => field_bits_u64(3, 8, 0b11) | field_bits_u64(7, 2, MAIR_NORMAL),
        MemAttributes::Device => field_bits_u64(3, 8, 0b10) | field_bits_u64(7, 2, MAIR_DEVICE),
    }
}

/// The access-permission field (bits 6..8): kernel-only, read-only or
/// read-write.
pub open spec fn access_bits(a: AcessPermissons) -> u64 {
    match a {
        AcessPermissons::ReadOnly => field_bits_u64(3, 6, 0b10),
        AcessPermissons::ReadWrite => field_bits_u64(3, 6, 0b00),
    }
}

/// The hardware attribute bits of `attrs`: memory type, access permission,
/// privileged execute-never (bit 53) from `execute_never`, and unprivileged
/// execute-never (bit 54) always set.
pub open spec fn attribute_bits(attrs: AttributeFields) -> u64 {
    mem_type_bits(attrs.mem_attributes) | access_bits(attrs.acc_perms) | field_bits_u64(
        1,
        53,
        if attrs.execute_never { 1 } else { 0 },
    ) | field_bits_u64(1, 54, 1)
}

/// The bits of a valid page descriptor mapping to physical address `addr`:
/// the address field (bits 16..48), the access flag (bit 10), the `Page`
/// type bit, the valid bit and the attribute bits.
pub open spec fn page_descriptor_bits(addr: u64, attrs: AttributeFields) -> u64 {
    field_bits_u64(ADDR_FIELD_MASK, 16, addr >> 16) | field_bits_u64(1, 10, 1) | field_bits_u64(1, 1, 1)
        | field_bits_u64(1, 0, 1) | attribute_bits(attrs)
}

/// The physical address that a page or table descriptor holds.
pub open spec fn output_address(value: u64) -> u64 {
    ((value >> 16u64) & ADDR_FIELD_MASK) << 16u64
}

/// A second-level descriptor: the address of a third-level table.
#[derive(Clone, Copy, Debug)]
pub struct TableDescriptor {
    pub value: u64,
}

/// A third-level descriptor: the address and attributes of a 64 KiB page.
#[derive(Clone, Copy, Debug)]
pub struct PageDescriptor {
    pub value: u64,
}

impl TableDescriptor {
    /// The invalid descriptor.
    pub fn new_zeroed() -> (r: Self)
        ensures
            r.value == 0,
    {
        TableDescriptor { value: 0 }
    }

    /// A valid descriptor pointing at the next-level table at
    /// `phys_next_lvl_table_addr`.
    pub fn from_next_lvl_table_addr(phys_next_lvl_table_addr: u64) -> (r: Self)
        ensures
            r.value == table_descriptor_bits(phys_next_lvl_table_addr),
    {
        let shifted = phys_next_lvl_table_addr >> 16u64;
        let value = field_value_u64(ADDR_FIELD_MASK, 16, shifted) | field_value_u64(1, 1, 1)
            | field_value_u64(1, 0, 1);
        TableDescriptor { value }
    }
}

/// The attribute bits of `attrs`.
pub fn attribute_field_value(attrs: &AttributeFields) -> (r: u64)
    ensures
        r == attribute_bits(*attrs),
{
    let mem = match attrs.mem_attributes {
        MemAttributes::CacheableDRAM => field_value_u64(3, 8, 0b11) | field_value_u64(7, 2, MAIR_NORMAL),
        MemAttributes::Device => field_value_u64(3, 8, 0b10) | field_value_u64(7, 2, MAIR_DEVICE),
    };
    let acc = match attrs.acc_perms {
        AcessPermissons::ReadOnly => field_value_u64(3, 6, 0b10),
        AcessPermissons::ReadWrite => field_value_u64(3, 6, 0b00),
    };
    let pxn = field_value_u64(1, 53, if attrs.execute_never { 1 } else { 0 });
    let uxn = field_value_u64(1, 54, 1);
    mem | acc | pxn | uxn
}

impl PageDescriptor {
    /// The invalid descriptor.
    pub fn new_zeroed() -> (r: Self)
        ensures
            r.value == 0,
    {
        PageDescriptor { value: 0 }
    }

    /// A valid descriptor mapping a page to `phys_output_addr` with
    /// `attribute_fields`.
    pub fn from_output_addr(phys_output_addr: usize, attribute_fields: &AttributeFields) -> (r: Self)
        ensures
            r.value == page_descriptor_bits(phys_output_addr as u64, *attribute_fields),
    {
        let shifted = (phys_output_addr as u64) >> 16u64;
        let value = field_value_u64(ADDR_FIELD_MASK, 16, shifted) | field_value_u64(1, 10, 1)
            | field_value_u64(1, 1, 1) | field_value_u64(1, 0, 1) | attribute_field_value(
            attribute_fields,
        );
        PageDescriptor { value }
    }
}

/// The attribute bits lie outside the address field.
proof fn lemma_attribute_bits_outside_address(attrs: AttributeFields)
    ensures
        attribute_bits(attrs) & 0xFFFF_FFFF_0000u64 == 0,
        attribute_bits(attrs) & 1 == 0,
{
    assert((0b11u64 & 3u64) << 8u64 == 0x300u64) by (bit_vector);
    assert((0b10u64 & 3u64) << 8u64 == 0x200u64) by (bit_vector);
    assert((1u64 & 7u64) << 2u64 == 0x4u64) by (bit_vector);
    assert((0u64 & 7u64) << 2u64 == 0u64) by (bit_vector);
    assert((0b10u64 & 3u64) << 6u64 == 0x80u64) by (bit_vector);
    assert((0u64 & 3u64) << 6u64 == 0u64) by (bit_vector);
    assert((1u64 & 1u64) << 53u64 == 0x20_0000_0000_0000u64) by (bit_vector);
    assert((0u64 & 1u64) << 53u64 == 0u64) by (bit_vector);
    assert((1u64 & 1u64) << 54u64 == 0x40_0000_0000_0000u64) by (bit_vector);
    assert(0x300u64 | 0x4u64 == 0x304u64) by (bit_vector);
    assert(0x200u64 | 0u64 == 0x200u64) by (bit_vector);
    let a = attribute_bits(attrs);
    assert(a & 0xFFFF_FFFF_0000u64 == 0 && a & 1 == 0) by {
        let mt: u64 = mem_type_bits(attrs.mem_attributes);
        let ac: u64 = access_bits(attrs.acc_perms);
        let px: u64 = field_bits_u64(1, 53, if attrs.execute_never { 1 } else { 0 });
        let ux: u64 = 0x40_0000_0000_0000u64;
        assert(mt == 0x304u64 || mt == 0x200u64);
        assert(ac == 0x80u64 || ac == 0u64);
        assert(px == 0x20_0000_0000_0000u64 || px == 0u64);
        assert((mt == 0x304u64 || mt == 0x200u64) && (ac == 0x80u64 || ac == 0u64) && (px
            == 0x20_0000_0000_0000u64 || px == 0u64) && ux == 0x40_0000_0000_0000u64 ==> (mt | ac
            | px | ux) & 0xFFFF_FFFF_0000u64 == 0 && (mt | ac | px | ux) & 1 == 0) by (bit_vector);
    }
}

/// Decoding a page descriptor gives back its output address, for a 64 KiB
/// aligned address below 2^48; and the descriptor is valid.
pub proof fn lemma_page_descriptor_round_trip(addr: u64, attrs: AttributeFields)
    requires
        addr % 0x1_0000 == 0,
        addr < MAX_ADDRESS_SPACE,
    ensures
        output_address(page_descriptor_bits(addr, attrs)) == addr,
        page_descriptor_bits(addr, attrs) & 1 == 1,
{
    lemma_attribute_bits_outside_address(attrs);
    let a = attribute_bits(attrs);
    let m: u64 = ADDR_FIELD_MASK;
    assert((1u64 & 1u64) << 10u64 == 0x400u64) by (bit_vector);
    assert((1u64 & 1u64) << 1u64 == 2u64) by (bit_vector);
    assert((1u64 & 1u64) << 0u64 == 1u64) by (bit_vector);
    assert(addr % 0x1_0000 == 0 && addr < 0x1_0000_0000_0000u64 && a & 0xFFFF_FFFF_0000u64 == 0
        && a & 1 == 0 && m == 0xFFFF_FFFFu64 ==> (((((addr >> 16u64) & m) << 16u64 | 0x400u64
        | 2u64 | 1u64 | a) >> 16u64) & m) << 16u64 == addr && (((addr >> 16u64) & m) << 16u64
        | 0x400u64 | 2u64 | 1u64 | a) & 1 == 1) by (bit_vector);
}

/// The virtual address that third-level slot `l3` of second-level slot `l2`
/// translates.
pub open spec fn slot_virt_addr(l2: int, l3: int) -> int {
    l2 * GRANULE_512MIB + l3 * GRANULE_64KIB
}

/// The physical address of third-level table `l2` of a table structure at
/// `base`: the third-level tables come first, one after the other.
pub open spec fn lvl3_table_addr(base: u64, l2: int) -> int {
    base + l2 * LVL3_TABLE_BYTES
}

/// The page descriptor that `layout` asks for at virtual address `virt`.
pub open spec fn page_for(layout: &KernelVirtualLayout, virt: int) -> u64 {
    let (phys, attrs) = lookup(layout.descriptors(), virt as usize);
    page_descriptor_bits(phys as u64, attrs)
}

/// The translation table: `NUM_TABLES` third-level tables of 8192 page
/// descriptors followed by `NUM_TABLES` second-level table descriptors, laid
/// out from the 64 KiB aligned physical address `base`.
pub struct FixedSizeTranslationTable<const NUM_TABLES: usize> {
    base: u64,
    lvl3: Vec<PageDescriptor>,
    lvl2: Vec<TableDescriptor>,
}

/// The table sizes and placements that the hardware table walk accepts:
/// at least one table, a 64 KiB aligned base, and everything below 2^48.
pub open spec fn table_geometry_ok(num_tables: usize, base: u64) -> bool {
    &&& 0 < num_tables
    &&& num_tables * GRANULE_512MIB <= MAX_ADDRESS_SPACE
    &&& num_tables * GRANULE_512MIB <= usize::MAX
    &&& base % LVL3_TABLE_BYTES == 0
    &&& base + (num_tables + 1) * LVL3_TABLE_BYTES <= MAX_ADDRESS_SPACE
}

impl<const NUM_TABLES: usize> FixedSizeTranslationTable<NUM_TABLES> {
    pub closed spec fn base_spec(&self) -> u64 {
        self.base
    }

    /// The values of the page descriptors, third-level table after table.
    pub closed spec fn lvl3_values(&self) -> Seq<u64> {
        self.lvl3@.map_values(|d: PageDescriptor| d.value)
    }

    /// The values of the second-level table descriptors.
    pub closed spec fn lvl2_values(&self) -> Seq<u64> {
        self.lvl2@.map_values(|d: TableDescriptor| d.value)
    }

    pub open spec fn wf(&self) -> bool {
        &&& table_geometry_ok(NUM_TABLES, self.base_spec())
        &&& self.lvl3_values().len() == NUM_TABLES * NUM_LVL3_ENTRIES
        &&& self.lvl2_values().len() == NUM_TABLES
    }

    /// The page descriptor of slot `l3` of third-level table `l2`.
    pub open spec fn page_at(&self, l2: int, l3: int) -> u64 {
        self.lvl3_values()[l2 * NUM_LVL3_ENTRIES + l3]
    }

    /// Every entry of the table is as `layout` asks.
    pub open spec fn populated_from(&self, layout: &KernelVirtualLayout) -> bool {
        &&& forall|l2: int|
            0 <= l2 < NUM_TABLES ==> #[trigger] self.lvl2_values()[l2] == table_descriptor_bits(
                lvl3_table_addr(self.base_spec(), l2) as u64,
            )
        &&& forall|l2: int, l3: int|
            0 <= l2 < NUM_TABLES && 0 <= l3 < NUM_LVL3_ENTRIES ==> #[trigger] self.page_at(l2, l3)
                == page_for(layout, slot_virt_addr(l2, l3))
    }

    /// A table of invalid descriptors, to be placed at physical address
    /// `base`.
    pub fn new(base: u64) -> (r: Self)
        requires
            table_geometry_ok(NUM_TABLES, base),
        ensures
            r.wf(),
            r.base_spec() == base,
            forall|i: int| 0 <= i < r.lvl3_values().len() ==> #[trigger] r.lvl3_values()[i] == 0,
            forall|i: int| 0 <= i < r.lvl2_values().len() ==> #[trigger] r.lvl2_values()[i] == 0,
    {
        let mut lvl3: Vec<PageDescriptor> = Vec::new();
        assert(NUM_TABLES * NUM_LVL3_ENTRIES <= NUM_TABLES * GRANULE_512MIB) by (nonlinear_arith);
        let total: usize = NUM_TABLES * NUM_LVL3_ENTRIES;
        while lvl3.len() < total
            invariant
                total == NUM_TABLES * NUM_LVL3_ENTRIES,
                lvl3@.len() <= total,
                forall|i: int| 0 <= i < lvl3@.len() ==> #[trigger] lvl3@[i].value == 0,
            decreases total - lvl3@.len(),
        {
            lvl3.push(PageDescriptor::new_zeroed());
        }
        let mut lvl2: Vec<TableDescriptor> = Vec::new();
        while lvl2.len() < NUM_TABLES
            invariant
                lvl2@.len() <= NUM_TABLES,
                forall|i: int| 0 <= i < lvl2@.len() ==> #[trigger] lvl2@[i].value == 0,
            decreases NUM_TABLES - lvl2@.len(),
        {
            lvl2.push(TableDescriptor::new_zeroed());
        }
        FixedSizeTranslationTable { base, lvl3, lvl2 }
    }

    /// The value of the page descriptor in slot `l3` of third-level table
    /// `l2`.
    pub fn page_descriptor(&self, l2: usize, l3: usize) -> (r: u64)
        requires
            self.wf(),
            l2 < NUM_TABLES,
            l3 < NUM_LVL3_ENTRIES,
        ensures
            r == self.page_at(l2 as int, l3 as int),
    {
        self.lvl3[l2 * NUM_LVL3_ENTRIES + l3].value
    }

    /// The value of second-level table descriptor `l2`.
    pub fn table_descriptor(&self, l2: usize) -> (r: u64)
        requires
            self.wf(),
            l2 < NUM_TABLES,
        ensures
            r == self.lvl2_values()[l2 as int],
    {
        self.lvl2[l2].value
    }

    /// Fills every entry from `layout`: each second-level descriptor points
    /// at its third-level table, and each page descriptor maps the virtual
    /// address of its slot as `layout` says. Fails, leaving the table partly
    /// filled, when a slot's address lies above the layout's address space.
    pub fn populate_tt_entries(&mut self, layout: &KernelVirtualLayout) -> (r: Result<(), &'static str>)
        requires
            old(self).wf(),
            layout.wf(),
        ensures
            final(self).wf(),
            final(self).base_spec() == old(self).base_spec(),
            r is Ok <==> slot_virt_addr(NUM_TABLES - 1, NUM_LVL3_ENTRIES - 1) <= layout.max_spec(),
            r is Ok ==> final(self).populated_from(layout),
            r is Err ==> r == Err::<(), &'static str>(ERR_OUT_OF_RANGE),
    {
        let ghost base = self.base;
        let mut l2_nr: usize = 0;
        while l2_nr < NUM_TABLES
            invariant
                self.wf(),
                self.base == base,
                base == old(self).base,
                layout.wf(),
                l2_nr <= NUM_TABLES,
                l2_nr > 0 ==> slot_virt_addr(l2_nr - 1, NUM_LVL3_ENTRIES - 1) <= layout.max_spec(),
                forall|j: int|
                    0 <= j < l2_nr ==> #[trigger] self.lvl2_values()[j] == table_descriptor_bits(
                        lvl3_table_addr(base, j) as u64,
                    ),
                forall|j: int, k: int|
                    0 <= j < l2_nr && 0 <= k < NUM_LVL3_ENTRIES ==> #[trigger] self.page_at(j, k)
                        == page_for(layout, slot_virt_addr(j, k)),
            decreases NUM_TABLES - l2_nr,
        {
            assert((l2_nr as u64) * LVL3_TABLE_BYTES <= NUM_TABLES * LVL3_TABLE_BYTES) by (nonlinear_arith)
                requires l2_nr < NUM_TABLES;
            let table_addr = self.base + (l2_nr as u64) * LVL3_TABLE_BYTES;
            let ghost prev = *self;
            self.lvl2[l2_nr] = TableDescriptor::from_next_lvl_table_addr(table_addr);
            proof {
                assert(self.lvl2_values() =~= prev.lvl2_values().update(l2_nr as int, table_descriptor_bits(table_addr)));
                assert(self.lvl3_values() == prev.lvl3_values());
                assert forall|j: int, k: int|
                    0 <= j < l2_nr && 0 <= k < NUM_LVL3_ENTRIES implies #[trigger] self.page_at(j, k)
                        == page_for(layout, slot_virt_addr(j, k)) by {
                    assert(prev.page_at(j, k) == page_for(layout, slot_virt_addr(j, k)));
                }
                assert forall|j: int| 0 <= j <= l2_nr implies #[trigger] self.lvl2_values()[j]
                    == table_descriptor_bits(lvl3_table_addr(base, j) as u64) by {
                    if j < l2_nr {
                        assert(prev.lvl2_values()[j] == table_descriptor_bits(lvl3_table_addr(base, j) as u64));
                    }
                }
            }
            let mut l3_nr: usize = 0;
            while l3_nr < NUM_LVL3_ENTRIES
                invariant
                    self.wf(),
                    self.base == base,
                base == old(self).base,
                    layout.wf(),
                    l2_nr < NUM_TABLES,
                    l3_nr <= NUM_LVL3_ENTRIES,
                    l3_nr > 0 ==> slot_virt_addr(l2_nr as int, l3_nr - 1) <= layout.max_spec(),
                    l3_nr == 0 && l2_nr > 0 ==> slot_virt_addr(l2_nr - 1, NUM_LVL3_ENTRIES - 1) <= layout.max_spec(),
                    forall|j: int|
                        0 <= j <= l2_nr ==> #[trigger] self.lvl2_values()[j] == table_descriptor_bits(
                            lvl3_table_addr(base, j) as u64,
                        ),
                    forall|j: int, k: int|
                        (0 <= j < l2_nr && 0 <= k < NUM_LVL3_ENTRIES) || (j == l2_nr && 0 <= k
                            < l3_nr) ==> #[trigger] self.page_at(j, k) == page_for(
                            layout,
                            slot_virt_addr(j, k),
                        ),
                decreases NUM_LVL3_ENTRIES - l3_nr,
            {
                assert(l2_nr * GRANULE_512MIB + l3_nr * GRANULE_64KIB < NUM_TABLES * GRANULE_512MIB) by (nonlinear_arith)
                    requires l2_nr < NUM_TABLES, l3_nr < NUM_LVL3_ENTRIES;
                let virt_addr = l2_nr * GRANULE_512MIB + l3_nr * GRANULE_64KIB;
                let props = layout.virt_addr_properties(virt_addr);
                match props {
                    Err(e) => {
                        assert(slot_virt_addr(NUM_TABLES - 1, NUM_LVL3_ENTRIES - 1) >= virt_addr) by (nonlinear_arith)
                            requires l2_nr < NUM_TABLES, l3_nr < NUM_LVL3_ENTRIES, virt_addr == slot_virt_addr(l2_nr as int, l3_nr as int);
                        return Err(e);
                    },
                    Ok((phys_output_addr, attribute_fields)) => {
                        let idx = l2_nr * NUM_LVL3_ENTRIES + l3_nr;
                        let ghost before = self.lvl3_values();
                        let ghost prev = *self;
                        self.lvl3[idx] = PageDescriptor::from_output_addr(phys_output_addr, &attribute_fields);
                        proof {
                            assert(self.lvl3_values() =~= before.update(idx as int, page_for(layout, virt_addr as int)));
                            assert forall|j: int, k: int|
                                (0 <= j < l2_nr && 0 <= k < NUM_LVL3_ENTRIES) || (j == l2_nr && 0 <= k
                                    <= l3_nr) implies #[trigger] self.page_at(j, k) == page_for(
                                    layout,
                                    slot_virt_addr(j, k),
                                ) by {
                                if j < l2_nr {
                                    assert(j * NUM_LVL3_ENTRIES + k < l2_nr * NUM_LVL3_ENTRIES) by (nonlinear_arith)
                                        requires j < l2_nr, 0 <= k < NUM_LVL3_ENTRIES;
                                    assert(prev.page_at(j, k) == page_for(layout, slot_virt_addr(j, k)));
                                } else if k < l3_nr {
                                    assert(prev.page_at(j, k) == page_for(layout, slot_virt_addr(j, k)));
                                }
                            }
                        }
                    },
                }
                l3_nr = l3_nr + 1;
            }
            l2_nr = l2_nr + 1;
        }
        Ok(())
    }

    /// The physical address of the second-level table, for the translation
    /// base register.
    pub fn phys_base_address(&self) -> (r: u64)
        requires
            self.wf(),
        ensures
            r == self.base_spec() + NUM_TABLES * LVL3_TABLE_BYTES,
    {
        self.base + (NUM_TABLES as u64) * LVL3_TABLE_BYTES
    }
}

/// Under descriptors that all translate by identity, every address maps to
/// itself.
proof fn lemma_identity_lookup(descs: Seq<crate::mmu::TranslationDescriptor>, addr: usize)
    requires
        forall|i: int| 0 <= i < descs.len() ==> (#[trigger] descs[i]).physical_range_translation == Translation::Identity,
    ensures
        lookup(descs, addr).0 == addr,
    decreases descs.len(),
{
    if descs.len() > 0 {
        assert(descs[0].physical_range_translation == Translation::Identity);
        let rest = descs.drop_first();
        assert forall|i: int| 0 <= i < rest.len() implies (#[trigger] rest[i]).physical_range_translation
            == Translation::Identity by {
            assert(rest[i] == descs[i + 1]);
        }
        lemma_identity_lookup(rest, addr);
    }
}

/// Round trip: in a table populated from a layout whose ranges all translate
/// by identity, every page descriptor is valid and decodes to the virtual
/// address of its own slot.
pub proof fn lemma_identity_layout_round_trip<const NUM_TABLES: usize>(
    table: &FixedSizeTranslationTable<NUM_TABLES>,
    layout: &KernelVirtualLayout,
    l2: int,
    l3: int,
)
    requires
        table.wf(),
        table.populated_from(layout),
        forall|i: int| 0 <= i < layout.descriptors().len() ==> (#[trigger] layout.descriptors()[i]).physical_range_translation
            == Translation::Identity,
        0 <= l2 < NUM_TABLES,
        0 <= l3 < NUM_LVL3_ENTRIES,
    ensures
        output_address(table.page_at(l2, l3)) == slot_virt_addr(l2, l3),
        table.page_at(l2, l3) & 1 == 1,
{
    let virt = slot_virt_addr(l2, l3);
    assert(virt < NUM_TABLES * GRANULE_512MIB && virt % 0x1_0000 == 0) by (nonlinear_arith)
        requires
            virt == l2 * GRANULE_512MIB + l3 * GRANULE_64KIB,
            0 <= l2 < NUM_TABLES,
            0 <= l3 < NUM_LVL3_ENTRIES,
    ;
    lemma_identity_lookup(layout.descriptors(), virt as usize);
    assert(table.page_at(l2, l3) == page_for(layout, virt));
    lemma_page_descriptor_round_trip(virt as u64, lookup(layout.descriptors(), virt as usize).1);
}

} // verus!
