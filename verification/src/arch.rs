//! The layout of the guest physical address space on x86_64 and what the guest is
//! told of it at boot.
use vstd::prelude::*;
use crate::bits::lemma_page_mask_usize;
use crate::memory::GuestMemoryLayout;
use crate::memory::GUEST_PAGE_SIZE;

verus! {

/// A guest physical address.
#[derive(Copy, Clone, Debug, PartialEq, Eq, Structural)]
pub struct GuestAddress(pub u64);

/// Memory type of usable RAM in the memory map that the guest is given.
pub const E820_RAM: u32 = 1;

/// Memory type of an area that the guest must leave alone.
pub const E820_RESERVED: u32 = 2;

/// Most entries the memory map can have.
pub const E820_MAX_ENTRIES: usize = 128;

/// First address beyond the 32-bit address space.
pub const FIRST_ADDR_PAST_32BITS: u64 = 0x1_0000_0000;

/// Size of the gap for memory mapped I/O at the top of the 32-bit address space.
pub const MEM_32BIT_GAP_SIZE: u64 = 0x3000_0000;

/// First address of the gap for memory mapped I/O.
pub const MMIO_MEM_START: u64 = 0xd000_0000;

/// Size of the gap for memory mapped I/O.
pub const MMIO_MEM_SIZE: u64 = 0x3000_0000;

/// Size of the address range of one memory mapped device.
pub const MMIO_LEN: u64 = 0x1000;

/// First address of the memory above the first megabyte.
pub const HIMEM_START: u64 = 0x0010_0000;

/// First address of the area below the first megabyte that is kept from the guest.
pub const SYSTEM_MEM_START: u64 = 0x9fc00;

/// Size of the area below the first megabyte that is kept from the guest.
pub const SYSTEM_MEM_SIZE: u64 = 0x60400;

/// Address of the page that holds the boot parameters.
pub const ZERO_PAGE_START: u64 = 0x7000;

/// Address at which the guest finds the root of the ACPI tables.
pub const RSDP_ADDR: u64 = 0x000e_0000;

/// Magic number of the boot flag.
pub const KERNEL_BOOT_FLAG_MAGIC: u16 = 0xaa55;

/// Magic number of the setup header.
pub const KERNEL_HDR_MAGIC: u32 = 0x5372_6448;

/// Loader type of a loader that has no number of its own.
pub const KERNEL_LOADER_OTHER: u8 = 0xff;

/// Alignment that the kernel asks for.
pub const KERNEL_MIN_ALIGNMENT_BYTES: u32 = 0x0100_0000;

/// Errors of writing the multiprocessor table.
#[derive(Copy, Clone, Debug, PartialEq, Eq, Structural)]
pub enum MptableError {
    /// The table does not fit in guest memory.
    NotEnoughMemory,
    /// An address of the table does not fit in 64 bits.
    AddressOverflow,
    /// The guest memory for the table could not be cleared.
    Clear,
    /// The guest has more processors than the table can hold.
    TooManyCpus,
    /// The guest has more interrupt lines than the table can hold.
    TooManyIrqs,
    /// The table could not be written.
    Write,
}

/// Errors of configuring the system.
#[derive(Copy, Clone, Debug, PartialEq, Eq, Structural)]
pub enum ConfigurationError {
    /// The memory map has no room for another entry.
    E820Configuration,
    /// The multiprocessor table could not be written.
    MpTableSetup(MptableError),
    /// The page with the boot parameters could not be written.
    ZeroPageSetup,
    /// No address could be found for the initial RAM disk.
    InitrdAddress,
}

/// The ranges of guest physical addresses that hold a memory of `size` bytes: one
/// range from 0 if the memory ends at or before the gap, else one up to the gap and
/// one from 4 GiB on with what is left.
pub open spec fn spec_arch_memory_regions(size: usize) -> Seq<(u64, usize)> {
    if size <= MMIO_MEM_START {
        seq![(0u64, size)]
    } else {
        seq![(0u64, MMIO_MEM_START as usize), (FIRST_ADDR_PAST_32BITS, (size - MMIO_MEM_START) as usize)]
    }
}

/// Lists the ranges of guest physical addresses that hold a memory of `size` bytes.
/// All addresses are usable from 0 on, but for the gap at the top of the 32-bit
/// address space.
pub fn arch_memory_regions(size: usize) -> (regions: Vec<(GuestAddress, usize)>)
    ensures
        regions@.len() == spec_arch_memory_regions(size).len(),
        forall|i: int|
            0 <= i < regions@.len() ==> (#[trigger] regions@[i]).0.0 == spec_arch_memory_regions(
                size,
            )[i].0 && regions@[i].1 == spec_arch_memory_regions(size)[i].1,
{
    let mut regions: Vec<(GuestAddress, usize)> = Vec::new();
    if size as u64 <= MMIO_MEM_START {
        regions.push((GuestAddress(0), size));
    } else {
        regions.push((GuestAddress(0), MMIO_MEM_START as usize));
        regions.push((GuestAddress(FIRST_ADDR_PAST_32BITS), size - MMIO_MEM_START as usize));
    }
    regions
}

/// Gives the guest physical address at which the kernel may be loaded.
pub fn get_kernel_start() -> (start: u64)
    ensures
        start == HIMEM_START,
{
    HIMEM_START
}

/// The address at which an initial RAM disk of `initrd_size` bytes is loaded in a
/// guest whose first memory region has `lowmem_size` bytes: the highest page
/// boundary that leaves room for it.
pub open spec fn spec_initrd_load_addr(lowmem_size: int, initrd_size: int) -> int {
    (lowmem_size - initrd_size) - (lowmem_size - initrd_size) % 4096
}

/// Finds the address at which the initial RAM disk is loaded: at the end of the
/// region that holds address 0, rounded down to a page boundary.
///
/// There is no such address if no region holds address 0, or if the region is
/// smaller than the RAM disk.
pub fn initrd_load_addr(guest_mem: &GuestMemoryLayout, initrd_size: usize) -> (r: Result<
    u64,
    ConfigurationError,
>)
    ensures
        match r {
            Ok(addr) => exists|i: int|
                0 <= i < guest_mem@.len() && (#[trigger] guest_mem@[i]).start == 0
                    && initrd_size <= guest_mem@[i].size && guest_mem@[i].size <= usize::MAX
                    && addr == spec_initrd_load_addr(
                    guest_mem@[i].size as int,
                    initrd_size as int,
                ),
            Err(e) => e == ConfigurationError::InitrdAddress && forall|i: int|
                0 <= i < guest_mem@.len() ==> !((#[trigger] guest_mem@[i]).start == 0
                    && initrd_size <= guest_mem@[i].size && guest_mem@[i].size <= usize::MAX),
        },
{
    let regions = guest_mem.regions();
    let first_region = match guest_mem.find_region(0) {
        Some(region) => region,
        None => {
            proof {
                assert forall|i: int| 0 <= i < guest_mem@.len() implies !((
                #[trigger] guest_mem@[i]).start == 0 && initrd_size <= guest_mem@[i].size) by {
                    assert(!crate::memory::spec_region_holds(guest_mem@[i], 0));
                    assert(regions@[i].size > 0);
                }
            }
            return Err(ConfigurationError::InitrdAddress);
        },
    };
    let ghost k = choose|k: int| 0 <= k < guest_mem@.len() && guest_mem@[k] == first_region;
    proof {
        assert(guest_mem@.contains(first_region));
        assert forall|i: int| 0 <= i < guest_mem@.len() && (#[trigger] guest_mem@[i]).start
            == 0 implies i == k by {
            if i < k {
                assert(guest_mem@[i].start + guest_mem@[i].size <= guest_mem@[k].start);
            } else if k < i {
                assert(guest_mem@[k].start + guest_mem@[k].size <= guest_mem@[i].start);
            }
        }
    }
    if first_region.size > usize::MAX as u64 {
        return Err(ConfigurationError::InitrdAddress);
    }
    let lowmem_size: usize = first_region.size as usize;
    if lowmem_size < initrd_size {
        return Err(ConfigurationError::InitrdAddress);
    }
    let left: usize = lowmem_size - initrd_size;
    proof {
        lemma_page_mask_usize(left);
    }
    Ok((left & !(GUEST_PAGE_SIZE - 1)) as u64)
}

/// One entry of the memory map that the guest is given.
#[derive(Copy, Clone, Debug, PartialEq, Eq, Structural)]
pub struct E820Entry {
    /// First address of the range.
    pub addr: u64,
    /// Size of the range in bytes.
    pub size: u64,
    /// Memory type of the range.
    pub type_: u32,
}

/// Where the initial RAM disk was loaded.
#[derive(Copy, Clone, Debug, PartialEq, Eq, Structural)]
pub struct InitrdConfig {
    /// Guest physical address of the RAM disk.
    pub address: u64,
    /// Size of the RAM disk in bytes.
    pub size: usize,
}

/// The boot parameters that the guest finds in the zero page.
#[derive(Clone, Debug)]
pub struct BootParams {
    /// Address of the root of the ACPI tables.
    pub acpi_rsdp_addr: u64,
    /// Type of the loader.
    pub type_of_loader: u8,
    /// Boot flag.
    pub boot_flag: u16,
    /// Magic number of the setup header.
    pub header: u32,
    /// Address of the kernel command line.
    pub cmd_line_ptr: u32,
    /// Size of the kernel command line, its end marker included.
    pub cmdline_size: u32,
    /// Alignment that the kernel asks for.
    pub kernel_alignment: u32,
    /// Address of the initial RAM disk, 0 if there is none.
    pub ramdisk_image: u32,
    /// Size of the initial RAM disk, 0 if there is none.
    pub ramdisk_size: u32,
    /// The memory map.
    pub e820_table: Vec<E820Entry>,
}

/// Adds a range to a memory map. A map that is full is left as it is.
pub fn add_e820_entry(table: &mut Vec<E820Entry>, addr: u64, size: u64, mem_type: u32) -> (r: Result<
    (),
    ConfigurationError,
>)
    ensures
        old(table)@.len() >= E820_MAX_ENTRIES ==> r == Err::<(), ConfigurationError>(
            ConfigurationError::E820Configuration,
        ) && final(table)@ == old(table)@,
        old(table)@.len() < E820_MAX_ENTRIES ==> r is Ok && final(table)@ == old(table)@.push(
            E820Entry { addr, size, type_: mem_type },
        ),
{
    if table.len() >= E820_MAX_ENTRIES {
        return Err(ConfigurationError::E820Configuration);
    }
    table.push(E820Entry { addr, size, type_: mem_type });
    Ok(())
}

/// The memory map of a guest whose memory ends at `last_addr`: RAM up to the area
/// that is kept from the guest, that area up to the first megabyte, then RAM from the
/// first megabyte to the end of memory, with the gap for memory mapped I/O left out.
pub open spec fn spec_e820_table(last_addr: u64) -> Seq<E820Entry> {
    let low = seq![
        E820Entry { addr: 0, size: SYSTEM_MEM_START, type_: E820_RAM },
        E820Entry { addr: SYSTEM_MEM_START, size: SYSTEM_MEM_SIZE, type_: E820_RESERVED },
    ];
    if last_addr < HIMEM_START {
        low
    } else if last_addr < MMIO_MEM_START {
        low.push(
            E820Entry {
                addr: HIMEM_START,
                size: (last_addr - HIMEM_START + 1) as u64,
                type_: E820_RAM,
            },
        )
    } else if last_addr <= FIRST_ADDR_PAST_32BITS {
        low.push(
            E820Entry { addr: HIMEM_START, size: (MMIO_MEM_START - HIMEM_START) as u64, type_: E820_RAM },
        )
    } else {
        low.push(
            E820Entry { addr: HIMEM_START, size: (MMIO_MEM_START - HIMEM_START) as u64, type_: E820_RAM },
        ).push(
            E820Entry {
                addr: FIRST_ADDR_PAST_32BITS,
                size: (last_addr - FIRST_ADDR_PAST_32BITS + 1) as u64,
                type_: E820_RAM,
            },
        )
    }
}

/// Builds the memory map of a guest whose memory ends at `last_addr`.
pub fn e820_table(last_addr: u64) -> (table: Vec<E820Entry>)
    ensures
        table@ == spec_e820_table(last_addr),
{
    let mut table: Vec<E820Entry> = Vec::new();
    let _ = add_e820_entry(&mut table, 0, SYSTEM_MEM_START, E820_RAM);
    let _ = add_e820_entry(&mut table, SYSTEM_MEM_START, SYSTEM_MEM_SIZE, E820_RESERVED);
    if last_addr < HIMEM_START {
    } else if last_addr < MMIO_MEM_START {
        let _ = add_e820_entry(&mut table, HIMEM_START, last_addr - HIMEM_START + 1, E820_RAM);
    } else {
        let _ = add_e820_entry(&mut table, HIMEM_START, MMIO_MEM_START - HIMEM_START, E820_RAM);
        if last_addr > FIRST_ADDR_PAST_32BITS {
            let _ = add_e820_entry(
                &mut table,
                FIRST_ADDR_PAST_32BITS,
                last_addr - FIRST_ADDR_PAST_32BITS + 1,
                E820_RAM,
            );
        }
    }
    proof {
        assert(table@ =~= spec_e820_table(last_addr));
    }
    table
}

/// Address at which the multiprocessor table starts.
pub const MPTABLE_START: u64 = 0x9fc00;

/// Size in bytes of the multiprocessor table without the entries of the processors.
pub const MPTABLE_FIXED_SIZE: u64 = 284;

/// Size in bytes of the entry of one processor in the multiprocessor table.
pub const MPTABLE_CPU_SIZE: u64 = 20;

/// The last address of the multiprocessor table of a guest with `num_cpus`
/// processors.
pub open spec fn spec_mptable_end(num_cpus: u8) -> u64 {
    (MPTABLE_START + MPTABLE_FIXED_SIZE + MPTABLE_CPU_SIZE * num_cpus - 1) as u64
}

/// True if guest memory has room for the multiprocessor table: a region holds the
/// last address of the table.
pub open spec fn spec_mptable_fits(regions: Seq<crate::memory::GuestRegion>, num_cpus: u8) -> bool {
    exists|i: int|
        0 <= i < regions.len() && crate::memory::spec_region_holds(
            #[trigger] regions[i],
            spec_mptable_end(num_cpus),
        )
}

/// Puts together the boot parameters of a guest with `num_cpus` processors.
///
/// The command line is at `cmdline_addr` and takes `cmdline_size` bytes; `initrd`
/// says where the initial RAM disk was loaded, if there is one. The memory map is
/// that of `spec_e820_table` for the last address of guest memory. A guest whose
/// memory has no room for the multiprocessor table cannot be configured.
pub fn configure_system(
    guest_mem: &GuestMemoryLayout,
    cmdline_addr: u64,
    cmdline_size: usize,
    initrd: &Option<InitrdConfig>,
    num_cpus: u8,
) -> (r: Result<BootParams, ConfigurationError>)
    requires
        cmdline_addr <= u32::MAX,
        cmdline_size <= u32::MAX,
        initrd matches Some(config) ==> config.address <= u32::MAX && config.size <= u32::MAX,
    ensures
        !spec_mptable_fits(guest_mem@, num_cpus) ==> r == Err::<BootParams, ConfigurationError>(
            ConfigurationError::MpTableSetup(MptableError::NotEnoughMemory),
        ),
        spec_mptable_fits(guest_mem@, num_cpus) ==> r is Ok && ({
            let params = r->Ok_0;
            &&& params.acpi_rsdp_addr == RSDP_ADDR
            &&& params.type_of_loader == KERNEL_LOADER_OTHER
            &&& params.boot_flag == KERNEL_BOOT_FLAG_MAGIC
            &&& params.header == KERNEL_HDR_MAGIC
            &&& params.cmd_line_ptr == cmdline_addr
            &&& params.cmdline_size == cmdline_size
            &&& params.kernel_alignment == KERNEL_MIN_ALIGNMENT_BYTES
            &&& params.ramdisk_image == (match *initrd {
                Some(config) => config.address,
                None => 0,
            })
            &&& params.ramdisk_size == (match *initrd {
                Some(config) => config.size as u64,
                None => 0,
            })
            &&& params.e820_table@ == spec_e820_table(
                (guest_mem@.last().start + guest_mem@.last().size - 1) as u64,
            )
        }),
{
    let table_end: u64 = MPTABLE_START + MPTABLE_FIXED_SIZE + MPTABLE_CPU_SIZE * (num_cpus as u64)
        - 1;
    match guest_mem.find_region(table_end) {
        None => {
            return Err(ConfigurationError::MpTableSetup(MptableError::NotEnoughMemory));
        },
        Some(region) => {
            proof {
                let i = choose|i: int| 0 <= i < guest_mem@.len() && guest_mem@[i] == region;
                assert(crate::memory::spec_region_holds(guest_mem@[i], spec_mptable_end(num_cpus)));
            }
        },
    }
    let last_addr = match guest_mem.last_addr() {
        Some(last) => last,
        None => {
            return Err(ConfigurationError::ZeroPageSetup);
        },
    };
    let (ramdisk_image, ramdisk_size) = match initrd {
        Some(config) => (config.address as u32, config.size as u32),
        None => (0u32, 0u32),
    };
    Ok(
        BootParams {
            acpi_rsdp_addr: RSDP_ADDR,
            type_of_loader: KERNEL_LOADER_OTHER,
            boot_flag: KERNEL_BOOT_FLAG_MAGIC,
            header: KERNEL_HDR_MAGIC,
            cmd_line_ptr: cmdline_addr as u32,
            cmdline_size: cmdline_size as u32,
            kernel_alignment: KERNEL_MIN_ALIGNMENT_BYTES,
            ramdisk_image,
            ramdisk_size,
            e820_table: e820_table(last_addr),
        },
    )
}

} // verus!
