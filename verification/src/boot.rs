//! The memory map handed to the guest kernel at boot, as plain values.

use vstd::prelude::*;

verus! {

/// Value of the header field `boot_flag`.
pub const KERNEL_BOOT_FLAG_MAGIC: u16 = 0xaa55;
/// Value of the header field `header`: the letters `HdrS`.
pub const KERNEL_HDR_MAGIC: u32 = 0x5372_6448;
/// Value of the header field `type_of_loader` for an unregistered loader.
pub const KERNEL_LOADER_OTHER: u8 = 0xff;
/// Alignment a relocatable kernel needs.
pub const KERNEL_MIN_ALIGNMENT_BYTES: u32 = 0x0100_0000;
/// Memory type of usable RAM in the memory map.
pub const E820_RAM: u32 = 1;
/// Number of entries the memory map of the boot parameters holds.
pub const E820_MAX_ENTRIES: usize = 128;
/// Guest address of the boot parameters.
pub const ZEROPG_START: u64 = 0x7000;
/// Guest address of the kernel command line.
pub const CMDLINE_START: u64 = 0x0002_0000;

/// Last address of the 48-bit guest address space.
pub const MAX_48BIT_ADDRESS: u64 = 0x0000_ffff_ffff_ffff;
/// First address of the guest address space.
pub const BASE_ADDRESS: u64 = 0;
/// Start of the extended BIOS data area.
pub const EBDA_START: u64 = 0x0009_fc00;
/// Start of memory above the first megabyte.
pub const HIMEM_START: u64 = 0x0010_0000;
/// End of the 32-bit address space, where the APIC window ends.
pub const APIC_END: u64 = 0x1_0000_0000;
/// Size of the APIC window.
pub const APIC_SIZE: u64 = 0x0140_0000;
/// Start of the APIC window.
pub const APIC_START: u64 = 0xfec0_0000;
/// Alignment of allocated addresses.
pub const DEFAULT_ADDRESS_ALIGNMENT: u64 = 4;

/// What can go wrong while the memory map is built.
#[derive(Clone, Copy, Debug, PartialEq, Eq, Structural)]
pub enum BootError {
    /// The memory map is full.
    E820Configuration,
    /// A memory range ends before it starts.
    MemoryRegionStartPastEnd,
}

/// One entry of the memory map.
#[derive(Clone, Copy, Debug, PartialEq, Eq, Structural)]
pub struct E820Entry {
    pub addr: u64,
    pub size: u64,
    pub mem_type: u32,
}

/// The header fields the loader fills in.
#[derive(Clone, Copy, Debug, PartialEq, Eq, Structural)]
pub struct BootHeader {
    pub boot_flag: u16,
    pub header: u32,
    pub kernel_alignment: u32,
    pub type_of_loader: u8,
}

/// The boot parameters the loader writes: header fields and memory map.
#[derive(Debug)]
pub struct BootParams {
    pub hdr: BootHeader,
    pub e820_table: Vec<E820Entry>,
}

/// How a reserved range is backed.
#[derive(Clone, Copy, Debug, PartialEq, Eq, Structural)]
pub enum Reservation {
    /// Reserved and backed by guest memory.
    Mapped,
    /// Reserved and not backed by guest memory.
    NotMapped,
}

/// A range of guest addresses, both ends included, kept from allocation.
#[derive(Clone, Copy, Debug, PartialEq, Eq, Structural)]
pub struct ReservedRegion {
    pub start: u64,
    pub end: u64,
    pub kind: Reservation,
}

/// The map entry for the range from `range.0` to `range.1`.
pub open spec fn entry_of(range: (u64, u64), mem_type: u32) -> E820Entry {
    E820Entry { addr: range.0, size: (range.1 - range.0) as u64, mem_type }
}

/// The map entries for the first `n` of `ranges`, in order.
pub open spec fn entries_of(ranges: Seq<(u64, u64)>, mem_type: u32, n: int) -> Seq<E820Entry> {
    Seq::new(n as nat, |i: int| entry_of(ranges[i], mem_type))
}

/// Whether range `i` can be added to a table that held `held` entries
/// before the first range: it does not end before it starts, and the
/// table has room for it.
pub open spec fn fits(ranges: Seq<(u64, u64)>, held: nat, i: int) -> bool {
    ranges[i].0 <= ranges[i].1 && held + i < E820_MAX_ENTRIES
}

/// The two ranges an x86 guest must not allocate from: the extended BIOS
/// data area up to the first megabyte, backed by memory, and the APIC
/// window below 4 GiB, not backed.
pub fn x86_reserved_regions() -> (regions: Vec<ReservedRegion>)
    ensures
        regions@ == seq![
            (ReservedRegion { start: EBDA_START, end: HIMEM_START, kind: Reservation::Mapped }),
            (ReservedRegion { start: APIC_START, end: APIC_END, kind: Reservation::NotMapped }),
        ],
        APIC_START == APIC_END - APIC_SIZE,
{
    let mut regions: Vec<ReservedRegion> = Vec::new();
    regions.push(ReservedRegion { start: EBDA_START, end: HIMEM_START, kind: Reservation::Mapped });
    regions.push(
        ReservedRegion { start: APIC_START, end: APIC_END, kind: Reservation::NotMapped },
    );
    assert(regions@ =~= seq![
        (ReservedRegion { start: EBDA_START, end: HIMEM_START, kind: Reservation::Mapped }),
        (ReservedRegion { start: APIC_START, end: APIC_END, kind: Reservation::NotMapped }),
    ]);
    regions
}

/// Appends one entry to the memory map, unless the map is full.
pub fn add_e820_entry(table: &mut Vec<E820Entry>, addr: u64, size: u64, mem_type: u32) -> (out:
    Result<(), BootError>)
    ensures
        old(table)@.len() >= E820_MAX_ENTRIES ==> out == Err::<(), BootError>(
            BootError::E820Configuration,
        ) && final(table)@ == old(table)@,
        old(table)@.len() < E820_MAX_ENTRIES ==> out == Ok::<(), BootError>(()) && final(table)@
            == old(table)@.push(E820Entry { addr, size, mem_type }),
{
    if table.len() >= E820_MAX_ENTRIES {
        return Err(BootError::E820Configuration);
    }
    table.push(E820Entry { addr, size, mem_type });
    Ok(())
}

/// Appends an entry of type `mem_type` for each of `ranges`, given as
/// first and last address, until one does not fit. The entries added are
/// those of the ranges before the first that does not fit; the error says
/// why that one did not: a range that ends before it starts is reported as
/// such, a full table otherwise.
pub fn add_e820_entry_from_ranges(
    table: &mut Vec<E820Entry>,
    ranges: &Vec<(u64, u64)>,
    mem_type: u32,
) -> (out: Result<(), BootError>)
    ensures
        old(table)@.len() <= final(table)@.len() <= old(table)@.len() + ranges@.len(),
        final(table)@ == old(table)@ + entries_of(
            ranges@,
            mem_type,
            final(table)@.len() - old(table)@.len(),
        ),
        forall|j: int|
            0 <= j < final(table)@.len() - old(table)@.len() ==> fits(
                ranges@,
                old(table)@.len(),
                j,
            ),
        out is Ok <==> final(table)@.len() - old(table)@.len() == ranges@.len(),
        out is Err ==> !fits(
            ranges@,
            old(table)@.len(),
            final(table)@.len() - old(table)@.len(),
        ),
        out == Err::<(), BootError>(BootError::MemoryRegionStartPastEnd) <==> out is Err
            && ranges@[final(table)@.len() - old(table)@.len()].0 > ranges@[final(table)@.len()
            - old(table)@.len()].1,
{
    let mut i: usize = 0;
    assert(table@ =~= old(table)@ + entries_of(ranges@, mem_type, 0));
    while i < ranges.len()
        invariant
            i <= ranges@.len(),
            table@.len() == old(table)@.len() + i,
            table@ == old(table)@ + entries_of(ranges@, mem_type, i as int),
            forall|j: int| 0 <= j < i ==> fits(ranges@, old(table)@.len(), j),
        decreases ranges.len() - i,
    {
        let start: u64 = ranges[i].0;
        let end: u64 = ranges[i].1;
        if end < start {
            return Err(BootError::MemoryRegionStartPastEnd);
        }
        let ghost before = table@;
        match add_e820_entry(table, start, end - start, mem_type) {
            Ok(()) => {},
            Err(e) => {
                return Err(e);
            },
        }
        i = i + 1;
        assert(table@ =~= old(table)@ + entries_of(ranges@, mem_type, i as int));
    }
    Ok(())
}

/// The boot parameters for a guest whose usable RAM is `ram`, each range
/// given as first and last address: the header fields of the boot
/// protocol, and one RAM entry for each range in order. It fails as
/// `add_e820_entry_from_ranges` does on an empty table.
pub fn build_bootparams(ram: &Vec<(u64, u64)>) -> (out: Result<BootParams, BootError>)
    ensures
        out is Ok <==> forall|j: int| 0 <= j < ram@.len() ==> fits(ram@, 0, j),
        out matches Ok(params) ==> params.e820_table@ == entries_of(
            ram@,
            E820_RAM,
            ram@.len() as int,
        ) && params.hdr == (BootHeader {
            boot_flag: KERNEL_BOOT_FLAG_MAGIC,
            header: KERNEL_HDR_MAGIC,
            kernel_alignment: KERNEL_MIN_ALIGNMENT_BYTES,
            type_of_loader: KERNEL_LOADER_OTHER,
        }),
        out == Err::<BootParams, BootError>(BootError::MemoryRegionStartPastEnd) <==> exists|
            k: int,
        |
            0 <= k < ram@.len() && k <= E820_MAX_ENTRIES && ram@[k].0 > ram@[k].1 && forall|j: int|
                0 <= j < k ==> (#[trigger] ram@[j]).0 <= ram@[j].1,
        out matches Err(e) ==> e == BootError::MemoryRegionStartPastEnd || e
            == BootError::E820Configuration,
{
    let mut table: Vec<E820Entry> = Vec::new();
    let added = add_e820_entry_from_ranges(&mut table, ram, E820_RAM);
    let ghost k = table@.len() as int;
    match added {
        Ok(()) => {
            assert(table@ =~= entries_of(ram@, E820_RAM, ram@.len() as int));
            proof {
                assert forall|k2: int|
                    !(0 <= k2 < ram@.len() && k2 <= E820_MAX_ENTRIES && ram@[k2].0 > ram@[k2].1
                        && forall|j: int| 0 <= j < k2 ==> (#[trigger] ram@[j]).0 <= ram@[j].1) by {
                    if 0 <= k2 < ram@.len() {
                        assert(fits(ram@, 0, k2));
                    }
                }
            }
            Ok(
                BootParams {
                    hdr: BootHeader {
                        boot_flag: KERNEL_BOOT_FLAG_MAGIC,
                        header: KERNEL_HDR_MAGIC,
                        kernel_alignment: KERNEL_MIN_ALIGNMENT_BYTES,
                        type_of_loader: KERNEL_LOADER_OTHER,
                    },
                    e820_table: table,
                },
            )
        },
        Err(e) => {
            proof {
                assert(!fits(ram@, 0, k));
                if e == BootError::MemoryRegionStartPastEnd {
                    assert forall|j: int| 0 <= j < k implies (#[trigger] ram@[j]).0
                        <= ram@[j].1 by {
                        assert(fits(ram@, 0, j));
                    }
                    if k > 0 {
                        assert(fits(ram@, 0, k - 1));
                    }
                    assert(0 <= k < ram@.len() && k <= E820_MAX_ENTRIES && ram@[k].0 > ram@[k].1);
                } else {
                    assert forall|k2: int|
                        !(0 <= k2 < ram@.len() && k2 <= E820_MAX_ENTRIES && ram@[k2].0
                            > ram@[k2].1 && forall|j: int|
                            0 <= j < k2 ==> (#[trigger] ram@[j]).0 <= ram@[j].1) by {
                        if 0 <= k2 < k {
                            assert(fits(ram@, 0, k2));
                        } else if k2 > k && k2 < ram@.len() {
                            assert(ram@[k].0 <= ram@[k].1);
                            assert(k >= E820_MAX_ENTRIES);
                        }
                    }
                }
            }
            Err(e)
        },
    }
}

} // verus!
