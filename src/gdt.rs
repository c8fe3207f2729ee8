//! The segment descriptor table: the packed layout of one descriptor, the
//! table the kernel loads, and the selectors that name its entries.

use vstd::prelude::*;

verus! {

/// Descriptors in the kernel's table.
pub const GDT_ENTRIES: usize = 6;

/// Bytes in one packed descriptor.
pub const ENTRY_SIZE: usize = 8;

// Access byte flags.
pub const PRESENT: u8 = 0x80;
pub const PRIVILEGE_RING0: u8 = 0x00;
pub const PRIVILEGE_RING3: u8 = 0x60;
pub const DESCRIPTOR_TYPE: u8 = 0x10;
pub const EXECUTABLE: u8 = 0x08;
pub const DIRECTION_CONFORMING: u8 = 0x04;
pub const READABLE_WRITABLE: u8 = 0x02;

// Granularity byte flags.
pub const GRANULARITY_4K: u8 = 0x80;
pub const SIZE_32: u8 = 0x40;

/// One segment descriptor, split into its packed fields.
#[derive(Clone, Copy, Debug, PartialEq, Eq, Structural)]
pub struct GdtEntry {
    pub limit_low: u16,
    pub base_low: u16,
    pub base_middle: u8,
    pub access: u8,
    pub granularity: u8,
    pub base_high: u8,
}

/// The operand of the table-load instruction: the table's size less one,
/// and its address.
#[derive(Clone, Copy, Debug, PartialEq, Eq, Structural)]
pub struct GdtPtr {
    pub limit: u16,
    pub base: u32,
}

/// The kernel's descriptor table: null, kernel code, kernel data, kernel
/// stack, user code, user data.
pub struct Gdt {
    pub entries: [GdtEntry; 6],
}

/// The base address a descriptor encodes.
pub open spec fn entry_base(e: GdtEntry) -> int {
    e.base_low as int + e.base_middle as int * 0x10000 + e.base_high as int * 0x1000000
}

/// The 20-bit limit a descriptor encodes.
pub open spec fn entry_limit(e: GdtEntry) -> int {
    e.limit_low as int + (e.granularity as int % 16) * 0x10000
}

/// The descriptor for a segment: the fields of `GdtEntry::new`.
pub open spec fn entry_spec(base: u32, limit: u32, access: u8, granularity: u8) -> GdtEntry {
    GdtEntry {
        limit_low: (limit % 0x10000) as u16,
        base_low: (base % 0x10000) as u16,
        base_middle: ((base / 0x10000) % 0x100) as u8,
        access,
        granularity: ((granularity / 16) * 16 + (limit / 0x10000) % 16) as u8,
        base_high: (base / 0x1000000) as u8,
    }
}

pub open spec fn null_entry() -> GdtEntry {
    GdtEntry {
        limit_low: 0,
        base_low: 0,
        base_middle: 0,
        access: 0,
        granularity: 0,
        base_high: 0,
    }
}

/// The kernel's table, entry by entry.
pub open spec fn kernel_table() -> Seq<GdtEntry> {
    seq![
        null_entry(),
        entry_spec(0, 0xFFFFF, 0x9A, 0xCF),
        entry_spec(0, 0xFFFFF, 0x92, 0xCF),
        entry_spec(0, 0xFFFFF, 0x92, 0xCF),
        entry_spec(0, 0xFFFFF, 0xFA, 0xCF),
        entry_spec(0, 0xFFFFF, 0xF2, 0xCF),
    ]
}

impl GdtEntry {
    /// Packs a segment's base, 20-bit limit, access byte and the flag half
    /// of its granularity byte.
    pub fn new(base: u32, limit: u32, access: u8, granularity: u8) -> (r: GdtEntry)
        ensures
            r == entry_spec(base, limit, access, granularity),
    {
        let limit_low = (limit & 0xFFFF) as u16;
        let base_low = (base & 0xFFFF) as u16;
        let base_middle = ((base >> 16) & 0xFF) as u8;
        let gran = (granularity & 0xF0) | (((limit >> 16) & 0x0F) as u8);
        let base_high = ((base >> 24) & 0xFF) as u8;
        assert(limit & 0xFFFF == limit % 0x10000) by (bit_vector);
        assert(base & 0xFFFF == base % 0x10000) by (bit_vector);
        assert((base >> 16) & 0xFF == (base / 0x10000) % 0x100) by (bit_vector);
        assert((base >> 24) & 0xFF == base / 0x1000000) by (bit_vector);
        assert((limit >> 16) & 0x0F == (limit / 0x10000) % 16) by (bit_vector);
        let high = ((limit >> 16) & 0x0F) as u8;
        assert((granularity & 0xF0) | high == (granularity / 16) * 16 + high) by (bit_vector)
            requires
                high < 16,
        ;
        assert(granularity & 0xF0 == (granularity / 16) * 16) by (bit_vector);
        GdtEntry { limit_low, base_low, base_middle, access, granularity: gran, base_high }
    }

    /// The all-zero descriptor that must open the table.
    pub fn null() -> (r: GdtEntry)
        ensures
            r == null_entry(),
    {
        GdtEntry { limit_low: 0, base_low: 0, base_middle: 0, access: 0, granularity: 0, base_high: 0 }
    }

    /// The base address the descriptor encodes.
    pub fn base(&self) -> (r: u32)
        ensures
            r == entry_base(*self),
    {
        (self.base_high as u32) * 0x1000000 + (self.base_middle as u32) * 0x10000
            + self.base_low as u32
    }

    /// The 20-bit limit the descriptor encodes.
    pub fn limit(&self) -> (r: u32)
        ensures
            r == entry_limit(*self),
    {
        ((self.granularity % 16) as u32) * 0x10000 + self.limit_low as u32
    }
}

/// Packing a segment and reading it back gives its base, and its limit cut
/// to 20 bits; the access byte and the flag half of the granularity stay.
pub proof fn lemma_entry_round_trip(base: u32, limit: u32, access: u8, granularity: u8)
    ensures
        entry_base(entry_spec(base, limit, access, granularity)) == base,
        entry_limit(entry_spec(base, limit, access, granularity)) == limit % 0x100000,
        entry_spec(base, limit, access, granularity).access == access,
        entry_spec(base, limit, access, granularity).granularity / 16 == granularity / 16,
{
    let e = entry_spec(base, limit, access, granularity);
    assert(e.granularity as int % 16 == (limit / 0x10000) % 16);
    assert(e.granularity as int / 16 == granularity / 16);
}

impl Gdt {
    /// The kernel's table: a null descriptor, then flat 4 GiB code, data and
    /// stack segments for ring 0 and code and data segments for ring 3.
    pub fn new() -> (r: Gdt)
        ensures
            r.entries@ == kernel_table(),
    {
        let mut gdt = Gdt { entries: [GdtEntry::null();6] };
        gdt.entries[0] = GdtEntry::null();
        gdt.entries[1] = GdtEntry::new(0x00000000, 0xFFFFF, 0x9A, 0xCF);
        gdt.entries[2] = GdtEntry::new(0x00000000, 0xFFFFF, 0x92, 0xCF);
        gdt.entries[3] = GdtEntry::new(0x00000000, 0xFFFFF, 0x92, 0xCF);
        gdt.entries[4] = GdtEntry::new(0x00000000, 0xFFFFF, 0xFA, 0xCF);
        gdt.entries[5] = GdtEntry::new(0x00000000, 0xFFFFF, 0xF2, 0xCF);
        assert(gdt.entries@ =~= kernel_table());
        gdt
    }

    /// The descriptor at `index`, if the table has one there.
    pub fn get_entry(&self, index: usize) -> (r: Option<&GdtEntry>)
        ensures
            index < GDT_ENTRIES ==> r == Some(&self.entries@[index as int]),
            index >= GDT_ENTRIES ==> r is None,
    {
        if index < GDT_ENTRIES {
            Some(&self.entries[index])
        } else {
            None
        }
    }

    /// The load operand for this table placed at address `base`.
    pub fn pointer(base: u32) -> (r: GdtPtr)
        ensures
            r.limit == GDT_ENTRIES * ENTRY_SIZE - 1,
            r.base == base,
    {
        GdtPtr { limit: (GDT_ENTRIES * ENTRY_SIZE - 1) as u16, base }
    }
}

/// A segment selector: the entry's index times eight, plus the requested
/// privilege level.
pub open spec fn selector_spec(index: nat, rpl: nat) -> nat {
    index * 8 + rpl
}

/// The selectors of the long-mode table: null, kernel code, kernel data,
/// user data, user code, then the task state segment.
#[derive(Clone, Copy, Debug, PartialEq, Eq, Structural)]
pub struct Selectors {
    pub kernel_code_selector: u16,
    pub kernel_data_selector: u16,
    pub user_code_selector: u16,
    pub user_data_selector: u16,
    pub tss_selector: u16,
}

/// The selector for entry `index` at privilege `rpl`.
pub fn segment_selector(index: u16, rpl: u16) -> (r: u16)
    requires
        index < 8192,
        rpl < 4,
    ensures
        r == selector_spec(index as nat, rpl as nat),
{
    index * 8 + rpl
}

/// The selectors of the long-mode table's segments.
pub fn get_selectors() -> (r: Selectors)
    ensures
        r.kernel_code_selector == selector_spec(1, 0),
        r.kernel_data_selector == selector_spec(2, 0),
        r.user_data_selector == selector_spec(3, 3),
        r.user_code_selector == selector_spec(4, 3),
        r.tss_selector == selector_spec(5, 0),
{
    Selectors {
        kernel_code_selector: segment_selector(1, 0),
        kernel_data_selector: segment_selector(2, 0),
        user_data_selector: segment_selector(3, 3),
        user_code_selector: segment_selector(4, 3),
        tss_selector: segment_selector(5, 0),
    }
}

} // verus!
