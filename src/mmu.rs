//! Architecture-independent description of the kernel's virtual address
//! space: granules, address-space sizes, and the declarative layout of named
//! virtual ranges with their translation and memory attributes.
use vstd::prelude::*;

verus! {

/// `n` is a power of two.
pub open spec fn is_power_of_two(n: u64) -> bool {
    n != 0 && n & vstd::prelude::sub(n, 1) == 0
}

/// The position of the single set bit of a power of two.
fn log2_of_power_of_two(n: u64) -> (r: usize)
    requires
        is_power_of_two(n),
    ensures
        r < 64,
        1u64 << (r as u64) == n,
{
    let t = n.trailing_zeros();
    proof {
        vstd::std_specs::bits::axiom_u64_trailing_zeros(n);
        let tz = t as u64;
        assert(tz < 64);
        assert(n != 0 && n & vstd::prelude::sub(n, 1) == 0 && tz < 64 && (n >> tz) & 1u64 == 1u64
            && n << vstd::prelude::sub(64, tz) == 0 ==> 1u64 << tz == n) by (bit_vector);
    }
    t as usize
}

/// Why activating translation failed.
#[derive(Clone, Copy, Debug)]
pub enum MMUEnableError {
    /// Translation was active already.
    AlreadyEnabled,
    /// Any other reason.
    Other(&'static str),
}

impl MMUEnableError {
    /// The error's message.
    pub fn message(&self) -> (r: &'static str)
        ensures
            r == match *self {
                MMUEnableError::AlreadyEnabled => ERR_ALREADY_ENABLED,
                MMUEnableError::Other(m) => m,
            },
    {
        match self {
            MMUEnableError::AlreadyEnabled => ERR_ALREADY_ENABLED,
            MMUEnableError::Other(m) => m,
        }
    }
}

/// The message of `MMUEnableError::AlreadyEnabled`.
pub const ERR_ALREADY_ENABLED: &'static str = "MMU is already enabled";

/// A translation granule: the size of the memory window that one entry of a
/// translation-table level covers. `GRANULE_SIZE` must be a power of two.
pub struct TranslationGranule<const GRANULE_SIZE: usize>;

impl<const GRANULE_SIZE: usize> TranslationGranule<GRANULE_SIZE> {
    /// The granule's size in bytes.
    pub fn size_checked() -> (r: usize)
        requires
            is_power_of_two(GRANULE_SIZE as u64),
        ensures
            r == GRANULE_SIZE,
    {
        GRANULE_SIZE
    }

    /// log2 of the granule's size: the shift that turns a granule index into
    /// an address.
    pub fn shift() -> (r: usize)
        requires
            is_power_of_two(GRANULE_SIZE as u64),
        ensures
            r < 64,
            1u64 << (r as u64) == GRANULE_SIZE as u64,
    {
        log2_of_power_of_two(GRANULE_SIZE as u64)
    }
}

/// The smallest granule of a second-level table entry: 512 MiB.
pub const GRANULE_512MIB: usize = 0x2000_0000;

/// The page granule of the third level: 64 KiB.
pub const GRANULE_64KIB: usize = 0x1_0000;

/// The largest virtual address space that the translation regime supports.
pub const MAX_ADDRESS_SPACE: u64 = 0x1_0000_0000_0000;

/// What an address-space size must satisfy: a power of two, a whole number
/// of 512 MiB windows, and at most 2^48 bytes.
pub open spec fn address_space_size_ok(n: usize) -> bool {
    &&& is_power_of_two(n as u64)
    &&& n % GRANULE_512MIB == 0
    &&& n <= MAX_ADDRESS_SPACE
}

/// A virtual address space of `AS_SIZE` bytes.
pub struct AddressSpace<const AS_SIZE: usize>;

impl<const AS_SIZE: usize> AddressSpace<AS_SIZE> {
    /// The address space's size in bytes.
    pub fn size_checked() -> (r: usize)
        requires
            address_space_size_ok(AS_SIZE),
        ensures
            r == AS_SIZE,
    {
        Self::arch_address_space_size_sanity_checks();
        AS_SIZE
    }

    /// The size constraints that the translation regime puts on an address
    /// space.
    pub fn arch_address_space_size_sanity_checks()
        requires
            address_space_size_ok(AS_SIZE),
    {
    }

    /// log2 of the address space's size.
    pub fn size_shift() -> (r: usize)
        requires
            address_space_size_ok(AS_SIZE),
        ensures
            r < 64,
            1u64 << (r as u64) == AS_SIZE as u64,
    {
        log2_of_power_of_two(AS_SIZE as u64)
    }
}

/// How a virtual range is translated to physical addresses.
#[derive(Clone, Copy, PartialEq, Eq, Structural, Debug)]
pub enum Translation {
    /// The physical address equals the virtual one.
    Identity,
    /// The range starts at this physical address.
    Offset(usize),
}

/// The memory type of a range.
#[derive(Clone, Copy, PartialEq, Eq, Structural, Debug)]
pub enum MemAttributes {
    CacheableDRAM,
    Device,
}

/// Access permissions of a range.
#[derive(Clone, Copy, PartialEq, Eq, Structural, Debug)]
pub enum AcessPermissons {
    ReadOnly,
    ReadWrite,
}

/// The memory attributes of a range.
#[derive(Clone, Copy, PartialEq, Eq, Structural, Debug)]
pub struct AttributeFields {
    pub mem_attributes: MemAttributes,
    pub acc_perms: AcessPermissons,
    pub execute_never: bool,
}

/// The attributes of an address that no declared range covers: cacheable,
/// read-write, execute-never.
pub open spec fn default_attributes() -> AttributeFields {
    AttributeFields {
        mem_attributes: MemAttributes::CacheableDRAM,
        acc_perms: AcessPermissons::ReadWrite,
        execute_never: true,
    }
}

impl Default for AttributeFields {
    fn default() -> (r: Self)
        ensures
            r == default_attributes(),
    {
        AttributeFields {
            mem_attributes: MemAttributes::CacheableDRAM,
            acc_perms: AcessPermissons::ReadWrite,
            execute_never: true,
        }
    }
}

/// An inclusive range of virtual addresses.
#[derive(Clone, Copy, PartialEq, Eq, Structural, Debug)]
pub struct VirtualRange {
    pub start: usize,
    pub end_inclusive: usize,
}

impl VirtualRange {
    pub open spec fn contains_spec(&self, addr: usize) -> bool {
        self.start <= addr <= self.end_inclusive
    }

    /// Whether `addr` lies in the range.
    pub fn contains(&self, addr: usize) -> (r: bool)
        ensures
            r == self.contains_spec(addr),
    {
        self.start <= addr && addr <= self.end_inclusive
    }
}

/// A named virtual range with its translation and attributes.
#[derive(Clone, Copy, Debug)]
pub struct TranslationDescriptor {
    pub name: &'static str,
    pub virtual_range: VirtualRange,
    pub physical_range_translation: Translation,
    pub attribute_fields: AttributeFields,
}

/// The physical address of `addr` under descriptor `d`, for an `addr` that
/// `d` covers.
pub open spec fn translate(d: TranslationDescriptor, addr: usize) -> int {
    match d.physical_range_translation {
        Translation::Identity => addr as int,
        Translation::Offset(offset) => offset + (addr - d.virtual_range.start),
    }
}

/// A descriptor whose range is not empty and whose translated addresses fit
/// in a `usize`.
pub open spec fn descriptor_ok(d: TranslationDescriptor) -> bool {
    &&& d.virtual_range.start <= d.virtual_range.end_inclusive
    &&& d.virtual_range.end_inclusive - d.virtual_range.start < usize::MAX
    &&& match d.physical_range_translation {
        Translation::Identity => true,
        Translation::Offset(offset) => offset + (d.virtual_range.end_inclusive
            - d.virtual_range.start) <= usize::MAX,
    }
}

/// A descriptor as the layout listing shows it: its range, its size in
/// the largest unit that fits at least once, its attributes in short form,
/// and its name.
#[derive(Clone, Copy, Debug)]
pub struct DescriptorSummary {
    pub start: usize,
    pub end_inclusive: usize,
    pub size: usize,
    pub unit: &'static str,
    pub attr: &'static str,
    pub acc: &'static str,
    pub xn: &'static str,
    pub name: &'static str,
}

/// The listing entry of a well-formed descriptor `d`.
pub open spec fn summary_spec(d: TranslationDescriptor) -> DescriptorSummary {
    let bytes = (d.virtual_range.end_inclusive - d.virtual_range.start + 1) as usize;
    let (size, unit) = if bytes >> 20usize > 0 {
        (bytes >> 20usize, "MiB")
    } else if bytes >> 10usize > 0 {
        (bytes >> 10usize, "KiB")
    } else {
        (bytes, "Byte")
    };
    DescriptorSummary {
        start: d.virtual_range.start,
        end_inclusive: d.virtual_range.end_inclusive,
        size,
        unit,
        attr: match d.attribute_fields.mem_attributes {
            MemAttributes::CacheableDRAM => "C",
            MemAttributes::Device => "Dev",
        },
        acc: match d.attribute_fields.acc_perms {
            AcessPermissons::ReadOnly => "RO",
            AcessPermissons::ReadWrite => "RW",
        },
        xn: if d.attribute_fields.execute_never {
            "PXN"
        } else {
            "PX"
        },
        name: d.name,
    }
}

impl TranslationDescriptor {
    /// The descriptor's listing entry.
    pub fn summary(&self) -> (r: DescriptorSummary)
        requires
            descriptor_ok(*self),
        ensures
            r == summary_spec(*self),
    {
        let bytes = self.virtual_range.end_inclusive - self.virtual_range.start + 1;
        let (size, unit) = if bytes >> 20usize > 0 {
            (bytes >> 20usize, "MiB")
        } else if bytes >> 10usize > 0 {
            (bytes >> 10usize, "KiB")
        } else {
            (bytes, "Byte")
        };
        let attr = match self.attribute_fields.mem_attributes {
            MemAttributes::CacheableDRAM => "C",
            MemAttributes::Device => "Dev",
        };
        let acc = match self.attribute_fields.acc_perms {
            AcessPermissons::ReadOnly => "RO",
            AcessPermissons::ReadWrite => "RW",
        };
        let xn = if self.attribute_fields.execute_never {
            "PXN"
        } else {
            "PX"
        };
        DescriptorSummary {
            start: self.virtual_range.start,
            end_inclusive: self.virtual_range.end_inclusive,
            size,
            unit,
            attr,
            acc,
            xn,
            name: self.name,
        }
    }
}

/// The physical address and attributes of `addr` under the descriptor
/// sequence `descs`: those of the first descriptor whose range holds `addr`,
/// or `addr` itself with the default attributes where none does.
pub open spec fn lookup(descs: Seq<TranslationDescriptor>, addr: usize) -> (usize, AttributeFields)
    decreases descs.len(),
{
    if descs.len() == 0 {
        (addr, default_attributes())
    } else if descs[0].virtual_range.contains_spec(addr) {
        (translate(descs[0], addr) as usize, descs[0].attribute_fields)
    } else {
        lookup(descs.drop_first(), addr)
    }
}

/// In a descriptor sequence, the first descriptor whose range holds `addr`
/// decides the lookup.
proof fn lemma_lookup_first(descs: Seq<TranslationDescriptor>, addr: usize, i: int)
    requires
        0 <= i < descs.len(),
        descs[i].virtual_range.contains_spec(addr),
        forall|j: int| 0 <= j < i ==> !(#[trigger] descs[j]).virtual_range.contains_spec(addr),
    ensures
        lookup(descs, addr) == (translate(descs[i], addr) as usize, descs[i].attribute_fields),
    decreases i,
{
    if i > 0 {
        assert(!descs[0].virtual_range.contains_spec(addr));
        let rest = descs.drop_first();
        assert forall|j: int| 0 <= j < i - 1 implies !(#[trigger] rest[j]).virtual_range.contains_spec(addr) by {
            assert(rest[j] == descs[j + 1]);
        }
        lemma_lookup_first(rest, addr, i - 1);
    }
}

/// Where no descriptor's range holds `addr`, the lookup is the identity with
/// the default attributes.
proof fn lemma_lookup_none(descs: Seq<TranslationDescriptor>, addr: usize)
    requires
        forall|j: int| 0 <= j < descs.len() ==> !(#[trigger] descs[j]).virtual_range.contains_spec(addr),
    ensures
        lookup(descs, addr) == (addr, default_attributes()),
    decreases descs.len(),
{
    if descs.len() > 0 {
        assert(!descs[0].virtual_range.contains_spec(addr));
        let rest = descs.drop_first();
        assert forall|j: int| 0 <= j < rest.len() implies !(#[trigger] rest[j]).virtual_range.contains_spec(addr) by {
            assert(rest[j] == descs[j + 1]);
        }
        lemma_lookup_none(rest, addr);
    }
}

/// The error of a lookup above the layout's last address.
pub const ERR_OUT_OF_RANGE: &'static str = "Address out of range";

/// The kernel's virtual memory layout: the address space's last address and
/// the declared ranges, in order of precedence.
pub struct KernelVirtualLayout {
    max_virt_inclusive: usize,
    inner: Vec<TranslationDescriptor>,
}

impl KernelVirtualLayout {
    pub closed spec fn max_spec(&self) -> usize {
        self.max_virt_inclusive
    }

    pub closed spec fn descriptors(&self) -> Seq<TranslationDescriptor> {
        self.inner@
    }

    /// Every declared range is well formed.
    pub open spec fn wf(&self) -> bool {
        forall|i: int| 0 <= i < self.descriptors().len() ==> descriptor_ok(#[trigger] self.descriptors()[i])
    }

    /// What `virt_addr_properties` returns for `addr`.
    pub open spec fn properties_spec(&self, addr: usize) -> Result<(usize, AttributeFields), &'static str> {
        if addr > self.max_spec() {
            Err(ERR_OUT_OF_RANGE)
        } else {
            Ok(lookup(self.descriptors(), addr))
        }
    }

    /// A layout of the address space `[0, max]` with the given ranges.
    pub fn new(max: usize, layout: Vec<TranslationDescriptor>) -> (r: Self)
        ensures
            r.max_spec() == max,
            r.descriptors() == layout@,
    {
        KernelVirtualLayout { max_virt_inclusive: max, inner: layout }
    }

    /// The last virtual address of the address space.
    pub fn max_virt_inclusive(&self) -> (r: usize)
        ensures
            r == self.max_spec(),
    {
        self.max_virt_inclusive
    }

    /// The declared ranges, in order of precedence.
    pub fn descriptors_exec(&self) -> (r: &Vec<TranslationDescriptor>)
        ensures
            r@ == self.descriptors(),
    {
        &self.inner
    }

    /// The listing entries of the declared ranges, in order.
    pub fn print_layout(&self) -> (r: Vec<DescriptorSummary>)
        requires
            self.wf(),
        ensures
            r@ == self.descriptors().map_values(|d: TranslationDescriptor| summary_spec(d)),
    {
        let mut r: Vec<DescriptorSummary> = Vec::new();
        let mut i: usize = 0;
        while i < self.inner.len()
            invariant
                self.wf(),
                i <= self.inner@.len(),
                r@ =~= self.inner@.subrange(0, i as int).map_values(|d: TranslationDescriptor| summary_spec(d)),
            decreases self.inner@.len() - i,
        {
            assert(descriptor_ok(self.descriptors()[i as int]));
            r.push(self.inner[i].summary());
            assert(self.inner@.subrange(0, i + 1) =~= self.inner@.subrange(0, i as int).push(self.inner@[i as int]));
            i = i + 1;
        }
        assert(self.inner@.subrange(0, i as int) =~= self.inner@);
        r
    }

    /// The physical address and attributes of `virt_addr`: an error above the
    /// address space, else those of the first declared range that holds it,
    /// else the address itself with the default attributes.
    pub fn virt_addr_properties(&self, virt_addr: usize) -> (r: Result<(usize, AttributeFields), &'static str>)
        requires
            self.wf(),
        ensures
            r == self.properties_spec(virt_addr),
    {
        if virt_addr > self.max_virt_inclusive {
            return Err(ERR_OUT_OF_RANGE);
        }
        let mut i: usize = 0;
        assert(self.inner@.subrange(0, self.inner@.len() as int) =~= self.inner@);
        while i < self.inner.len()
            invariant
                self.wf(),
                virt_addr <= self.max_virt_inclusive,
                i <= self.inner@.len(),
                lookup(self.inner@, virt_addr) == lookup(self.inner@.subrange(i as int, self.inner@.len() as int), virt_addr),
            decreases self.inner@.len() - i,
        {
            let descriptor = &self.inner[i];
            let ghost rest = self.inner@.subrange(i as int, self.inner@.len() as int);
            assert(rest[0] == *descriptor);
            if descriptor.virtual_range.contains(virt_addr) {
                assert(descriptor_ok(self.descriptors()[i as int]));
                let output_addr = match descriptor.physical_range_translation {
                    Translation::Identity => virt_addr,
                    Translation::Offset(offset) => offset + (virt_addr - descriptor.virtual_range.start),
                };
                assert(rest.len() > 0);
                assert(output_addr == translate(*descriptor, virt_addr));
                assert(lookup(rest, virt_addr) == (output_addr, descriptor.attribute_fields));
                return Ok((output_addr, descriptor.attribute_fields));
            }
            assert(rest.drop_first() =~= self.inner@.subrange(i + 1, self.inner@.len() as int));
            i = i + 1;
        }
        assert(self.inner@.subrange(i as int, self.inner@.len() as int).len() == 0);
        Ok((virt_addr, AttributeFields::default()))
    }
}

/// Precedence: for an address within the address space, the first declared
/// range that holds it decides its translation and attributes, whatever later
/// ranges hold it too.
pub proof fn lemma_first_matching_range_wins(layout: &KernelVirtualLayout, addr: usize, i: int)
    requires
        addr <= layout.max_spec(),
        0 <= i < layout.descriptors().len(),
        layout.descriptors()[i].virtual_range.contains_spec(addr),
        forall|j: int| 0 <= j < i ==> !(#[trigger] layout.descriptors()[j]).virtual_range.contains_spec(addr),
    ensures
        layout.properties_spec(addr) == Ok::<(usize, AttributeFields), &'static str>(
            (translate(layout.descriptors()[i], addr) as usize, layout.descriptors()[i].attribute_fields),
        ),
{
    lemma_lookup_first(layout.descriptors(), addr, i);
}

/// Fallback: an address within the address space that no declared range
/// holds is mapped to itself, cacheable, read-write and execute-never.
pub proof fn lemma_uncovered_address_is_identity(layout: &KernelVirtualLayout, addr: usize)
    requires
        addr <= layout.max_spec(),
        forall|j: int| 0 <= j < layout.descriptors().len() ==> !(#[trigger] layout.descriptors()[j]).virtual_range.contains_spec(addr),
    ensures
        layout.properties_spec(addr) == Ok::<(usize, AttributeFields), &'static str>((addr, default_attributes())),
{
    lemma_lookup_none(layout.descriptors(), addr);
}

/// An address above the address space's last address is out of range.
pub proof fn lemma_above_max_is_out_of_range(layout: &KernelVirtualLayout, addr: usize)
    requires
        addr > layout.max_spec(),
    ensures
        layout.properties_spec(addr) == Err::<(usize, AttributeFields), &'static str>(ERR_OUT_OF_RANGE),
{
}

} // verus!
