//! A passthrough device as the guest sees it: its emulated BAR and expansion ROM
//! registers, and the routing of accesses that land in the trapped pages of its BARs.
use vstd::prelude::*;
use crate::pci::msix::MsixConfig;
use crate::resources::MmioWindow;
use crate::resources::ResourceAllocator;
use crate::resources::BAR_ALIGNMENT;
use crate::vfio::bars::spec_size32;
use crate::vfio::error::VfioError;
use crate::vfio::mmap::spec_pba_len;
use crate::vfio::mmap::spec_table_len;
use crate::vfio::BarHoleInfo;
use crate::vfio::BarHoleInfoUsage;
use crate::vfio::BarInfo;
use crate::vfio::MsiCap;
use crate::vfio::MsixCap;
use crate::vfio::RegisterMask;
use crate::vfio::VfioIrqInfo;
use crate::vfio::VfioRegionInfo;
use crate::vfio::VFIO_DEVICE_FLAGS_RESET;
use crate::wire::read_u32;
use crate::wire::spec_u32_at;

verus! {

/// What a device reports of itself.
#[derive(Copy, Clone, Debug, PartialEq, Eq, Structural)]
pub struct VfioDeviceInfo {
    /// Flags of the device.
    pub flags: u32,
    /// Number of regions.
    pub num_regions: u32,
    /// Number of interrupts.
    pub num_irqs: u32,
}

/// A device with what it reported of its regions and interrupts.
#[derive(Clone, Debug)]
pub struct VfioDevice {
    /// What the device reported of itself.
    pub info: VfioDeviceInfo,
    /// Its regions.
    pub region_infos: Vec<VfioRegionInfo>,
    /// Its interrupts.
    pub irq_infos: Vec<VfioIrqInfo>,
}

/// True if a device with these flags is to be reset when it is attached.
pub fn vfio_device_reset(device_info: &VfioDeviceInfo) -> (reset: bool)
    ensures
        reset == (device_info.flags & VFIO_DEVICE_FLAGS_RESET != 0),
{
    device_info.flags & VFIO_DEVICE_FLAGS_RESET != 0
}

/// The expansion ROM of a device and where it was placed in the guest.
#[derive(Copy, Clone, Debug, PartialEq, Eq, Structural)]
pub struct ExpansionRomInfo {
    /// Guest physical address of the ROM.
    pub gpa: u64,
    /// Size of the ROM in bytes.
    pub size: u32,
    /// The low twelve bits of the register as the device showed them.
    pub extra: u16,
    /// True once the guest has written all ones to the register.
    pub about_to_read_size: bool,
}

/// True if a ROM register with this value is to be sized: its enable bit is set.
pub open spec fn spec_rom_enabled(rom_raw: u32) -> bool {
    rom_raw & 0x1 != 0
}

/// True if a ROM register with this value is to be sized.
pub fn rom_enabled(rom_raw: u32) -> (b: bool)
    ensures
        b == spec_rom_enabled(rom_raw),
{
    rom_raw & 0x1 != 0
}

/// The size of the ROM whose register read back as `readback` after all ones were
/// written to it; the low twelve bits do not count.
pub open spec fn spec_rom_size(readback: u32) -> u32 {
    spec_size32(readback, 4096) as u32
}

/// What becomes of the expansion ROM, `rom_raw` being its register as it was,
/// `readback` the register after all ones were written, and `allocation` the range
/// that was given for it: nothing where the ROM is not enabled or has no size, the ROM
/// at its range where one was given, an error where none was.
pub open spec fn spec_place_rom(rom_raw: u32, readback: u32, allocation: Option<u64>) -> Result<
    Option<ExpansionRomInfo>,
    VfioError,
> {
    if !spec_rom_enabled(rom_raw) || spec_rom_size(readback) == 0 {
        Ok(None)
    } else {
        match allocation {
            None => Err(VfioError::ResourceExhausted),
            Some(gpa) => Ok(
                Some(
                    ExpansionRomInfo {
                        gpa,
                        size: spec_rom_size(readback),
                        extra: (rom_raw % 4096) as u16,
                        about_to_read_size: false,
                    },
                ),
            ),
        }
    }
}

/// Decodes the size of the ROM from what its register read back.
pub fn rom_size(readback: u32) -> (size: u32)
    ensures
        size == spec_rom_size(readback),
{
    let rest: u32 = readback - readback % 4096;
    if rest == 0 {
        0
    } else {
        (u32::MAX - rest) + 1
    }
}

/// Says what becomes of the expansion ROM, given the range that was allocated for it.
pub fn place_expansion_rom(rom_raw: u32, readback: u32, allocation: Option<u64>) -> (r: Result<
    Option<ExpansionRomInfo>,
    VfioError,
>)
    ensures
        r == spec_place_rom(rom_raw, readback, allocation),
{
    let size = rom_size(readback);
    if !rom_enabled(rom_raw) || size == 0 {
        return Ok(None);
    }
    match allocation {
        None => Err(VfioError::ResourceExhausted),
        Some(gpa) => Ok(
            Some(
                ExpansionRomInfo {
                    gpa,
                    size,
                    extra: (rom_raw % 4096) as u16,
                    about_to_read_size: false,
                },
            ),
        ),
    }
}

/// Sizes the expansion ROM and gives it a range of the window below 4 GiB, aligned to
/// 64 bytes.
///
/// `rom_raw` is the ROM register as it was, `readback` what it read after all ones
/// were written to it. A ROM that is not enabled or has no size gets nothing, and
/// nothing is allocated. A ROM that is placed gets the lowest range of the window that
/// is aligned and shares no address with a range handed out before.
pub fn device_get_expansion_rom_info(
    rom_raw: u32,
    readback: u32,
    resource_allocator: &mut ResourceAllocator,
) -> (r: Result<Option<ExpansionRomInfo>, VfioError>)
    requires
        old(resource_allocator).wf(),
    ensures
        final(resource_allocator).wf(),
        final(resource_allocator).spec_window(MmioWindow::Mmio32) == old(
            resource_allocator,
        ).spec_window(MmioWindow::Mmio32),
        final(resource_allocator).spec_window(MmioWindow::Mmio64) == old(
            resource_allocator,
        ).spec_window(MmioWindow::Mmio64),
        final(resource_allocator).spec_allocated(MmioWindow::Mmio64) == old(
            resource_allocator,
        ).spec_allocated(MmioWindow::Mmio64),
        final(resource_allocator).spec_next_slot() == old(resource_allocator).spec_next_slot(),
        r == spec_place_rom(
            rom_raw,
            readback,
            crate::resources::spec_first_fit(
                old(resource_allocator).spec_allocated(MmioWindow::Mmio32),
                old(resource_allocator).spec_window(MmioWindow::Mmio32),
                spec_rom_size(readback) as u64,
                BAR_ALIGNMENT,
            ),
        ),
        (!spec_rom_enabled(rom_raw) || spec_rom_size(readback) == 0) ==> r == Ok::<
            Option<ExpansionRomInfo>,
            VfioError,
        >(None) && final(resource_allocator).spec_allocated(MmioWindow::Mmio32) == old(
            resource_allocator,
        ).spec_allocated(MmioWindow::Mmio32),
        (spec_rom_enabled(rom_raw) && spec_rom_size(readback) != 0) ==> match r {
            Ok(Some(rom)) => r == spec_place_rom(rom_raw, readback, Some(rom.gpa)) && rom.gpa
                % BAR_ALIGNMENT == 0 && crate::resources::spec_range_free(
                old(resource_allocator).spec_allocated(MmioWindow::Mmio32),
                old(resource_allocator).spec_window(MmioWindow::Mmio32),
                rom.gpa,
                rom.size as u64,
                BAR_ALIGNMENT,
            ) && final(resource_allocator).spec_allocated(MmioWindow::Mmio32) == old(
                resource_allocator,
            ).spec_allocated(MmioWindow::Mmio32).insert((rom.gpa, rom.size as u64)),
            Ok(None) => false,
            Err(e) => e == VfioError::ResourceExhausted
                && final(resource_allocator).spec_allocated(MmioWindow::Mmio32)
                == old(resource_allocator).spec_allocated(MmioWindow::Mmio32),
        },
{
    let size = rom_size(readback);
    if !rom_enabled(rom_raw) || size == 0 {
        return Ok(None);
    }
    let allocation = resource_allocator.allocate(MmioWindow::Mmio32, size as u64, BAR_ALIGNMENT).ok();
    place_expansion_rom(rom_raw, readback, allocation)
}

/// The two's complement of `size` in 64 bits: all ones above the size of a BAR whose
/// size is a power of two, zeroes below.
pub open spec fn spec_size_mask(size: u64) -> u64 {
    if size == 0 {
        0
    } else {
        (0x1_0000_0000_0000_0000 - size) as u64
    }
}

/// The flag bits of the lower register of a BAR: bit 2 for 64 bits, bit 3 for
/// prefetchable.
pub open spec fn spec_bar_flag_bits(bar: BarInfo) -> u32 {
    (if bar.is_64_bits {
        4u32
    } else {
        0u32
    }) | (if bar.is_prefetchable {
        8u32
    } else {
        0u32
    })
}

/// What the guest reads from the lower register of a BAR: the low half of the size
/// mask after it has written all ones, else the low half of the address; the flag
/// bits in either case.
pub open spec fn spec_bar_low(bar: BarInfo) -> u32 {
    (if bar.about_to_read_size {
        (spec_size_mask(bar.size) % 0x1_0000_0000) as u32
    } else {
        (bar.gpa % 0x1_0000_0000) as u32
    }) | spec_bar_flag_bits(bar)
}

/// What the guest reads from the upper register of a 64-bit BAR: the high half of the
/// size mask after it has written all ones, else the high half of the address.
pub open spec fn spec_bar_high(bar: BarInfo) -> u32 {
    if bar.about_to_read_size {
        (spec_size_mask(bar.size) / 0x1_0000_0000) as u32
    } else {
        (bar.gpa / 0x1_0000_0000) as u32
    }
}

/// What the guest reads from BAR register `bar_idx`, going by the first `n` BARs: the
/// last of them that owns the register decides, and a register that none owns reads
/// as zero.
pub open spec fn spec_bar_register(bars: Seq<BarInfo>, bar_idx: u32, n: nat) -> u32
    decreases n,
{
    if n == 0 {
        0
    } else {
        let bar = bars[n - 1];
        if bar_idx == bar.idx {
            spec_bar_low(bar)
        } else if bar.is_64_bits && bar_idx == bar.idx + 1 {
            spec_bar_high(bar)
        } else {
            spec_bar_register(bars, bar_idx, (n - 1) as nat)
        }
    }
}

/// What the guest reads from the expansion ROM register: the size mask after it has
/// written all ones, else the address with its low twelve bits replaced by those the
/// device showed.
pub open spec fn spec_rom_register(rom: ExpansionRomInfo) -> u32 {
    if rom.about_to_read_size {
        (spec_size_mask(rom.size as u64) % 0x1_0000_0000) as u32
    } else {
        ((rom.gpa % 0x1_0000_0000 - rom.gpa % 4096) as u32) | (rom.extra as u32)
    }
}

/// The first of the first `n` masks that is for register `reg_idx`.
pub open spec fn spec_find_mask(masks: Seq<RegisterMask>, reg_idx: int, n: nat) -> Option<
    RegisterMask,
>
    decreases n,
{
    if n == 0 {
        None
    } else {
        match spec_find_mask(masks, reg_idx, (n - 1) as nat) {
            Some(m) => Some(m),
            None => if masks[n - 1].register == reg_idx % 65536 {
                Some(masks[n - 1])
            } else {
                None
            },
        }
    }
}

/// What the guest sees of a raw register value under a mask.
pub open spec fn spec_apply_mask(raw: u32, mask: RegisterMask) -> u32 {
    (raw & mask.mask) | mask.value
}

/// How a read of a configuration register is answered.
#[derive(Copy, Clone, Debug, PartialEq, Eq, Structural)]
pub enum ConfigRead {
    /// The register is emulated and reads as this value.
    Value(u32),
    /// The register is to be read from the configuration region of the device at this
    /// offset; where a mask is given, the guest sees the value under the mask.
    Forward(u64, Option<RegisterMask>),
}

/// How a write of a configuration register is answered.
#[derive(Copy, Clone, Debug, PartialEq, Eq, Structural)]
pub enum ConfigWrite {
    /// The register is emulated; nothing reaches the device.
    Emulated,
    /// The bytes are to be written to the configuration region of the device at this
    /// offset.
    Forward(u64),
}

/// How an access to a BAR of the device is answered.
#[derive(Copy, Clone, Debug, PartialEq, Eq, Structural)]
pub enum BarAccess {
    /// The address belongs to no BAR of the device.
    Unclaimed,
    /// The access is served by the virtual MSI-X table; the offset is that within the
    /// BAR.
    Table(u64),
    /// The access is served by the virtual pending bit array; the offset is that
    /// within the BAR.
    Pba(u64),
    /// The access is to be made on the region with this index of the device, at this
    /// offset within the device file.
    Region(u32, u64),
}

/// A passthrough device with all that attaching it has found and decided.
#[derive(Clone, Debug)]
pub struct VfioDeviceBundle {
    /// Name of the device on the host.
    pub id: String,
    /// Number of its IOMMU group.
    pub group_id: u32,
    /// What the device reported.
    pub device: VfioDevice,
    /// Its memory BARs and where they were placed.
    pub bar_infos: Vec<BarInfo>,
    /// Its expansion ROM, if it has one.
    pub expansion_rom_info: Option<ExpansionRomInfo>,
    /// Its MSI capability, if it has one.
    pub msi_cap: Option<MsiCap>,
    /// Its MSI-X capability, if it has one.
    pub msix_cap: Option<MsixCap>,
    /// The trapped pages of its BARs.
    pub bar_hole_infos: Vec<BarHoleInfo>,
    /// The registers of which the guest sees only a part.
    pub masks: Option<Vec<RegisterMask>>,
    /// The MSI-X table and pending bit array that the guest sees, if the device has
    /// MSI-X.
    pub msix_config: Option<MsixConfig>,
}

/// The first of the first `n` BARs that holds `addr`.
pub open spec fn spec_bar_at(bars: Seq<BarInfo>, addr: int, n: nat) -> Option<BarInfo>
    decreases n,
{
    if n == 0 {
        None
    } else {
        match spec_bar_at(bars, addr, (n - 1) as nat) {
            Some(b) => Some(b),
            None => if bars[n - 1].gpa <= addr < bars[n - 1].gpa + bars[n - 1].size {
                Some(bars[n - 1])
            } else {
                None
            },
        }
    }
}

/// The length in bytes of the structure that a hole is kept back for: that of the
/// MSI-X table or of the pending bit array of the capability. Without the capability
/// there is no structure.
pub open spec fn spec_structure_len(usage: BarHoleInfoUsage, msix: Option<MsixCap>) -> int {
    match usage {
        BarHoleInfoUsage::Table => spec_table_len(msix),
        BarHoleInfoUsage::Pba => spec_pba_len(msix),
    }
}

/// True if `addr` hits the structure that the hole is kept back for: it lies in the
/// hole and among the bytes of the structure. The rest of the pages of the hole
/// belongs to the device.
pub open spec fn spec_hole_hit(hole: BarHoleInfo, msix: Option<MsixCap>, addr: int) -> bool {
    &&& hole.gpa + hole.offset_in_hole <= addr
    &&& addr < hole.gpa + hole.offset_in_hole + spec_structure_len(hole.usage, msix)
    &&& addr < hole.gpa + hole.size
}

/// The first of the first `n` holes whose structure `addr` hits.
pub open spec fn spec_hole_at(
    holes: Seq<BarHoleInfo>,
    msix: Option<MsixCap>,
    addr: int,
    n: nat,
) -> Option<BarHoleInfo>
    decreases n,
{
    if n == 0 {
        None
    } else {
        match spec_hole_at(holes, msix, addr, (n - 1) as nat) {
            Some(h) => Some(h),
            None => if spec_hole_hit(holes[n - 1], msix, addr) {
                Some(holes[n - 1])
            } else {
                None
            },
        }
    }
}

impl VfioDeviceBundle {
    /// How an access at `offset` from `base` is answered. An address in no BAR is
    /// unclaimed. An address that hits the MSI-X table or the pending bit array in
    /// its hole is served by that structure. Any other address of a BAR, those in
    /// the pages of a hole beside the structure too, is served by the region of the
    /// BAR, at the offset of the region plus that within the BAR.
    pub open spec fn spec_bar_access(&self, base: u64, offset: u64) -> BarAccess {
        let addr = base + offset;
        match spec_bar_at(self.bar_infos@, addr, self.bar_infos@.len()) {
            None => BarAccess::Unclaimed,
            Some(bar) => match spec_hole_at(
                self.bar_hole_infos@,
                self.msix_cap,
                addr,
                self.bar_hole_infos@.len(),
            ) {
                Some(hole) => match hole.usage {
                    BarHoleInfoUsage::Table => BarAccess::Table((addr - bar.gpa) as u64),
                    BarHoleInfoUsage::Pba => BarAccess::Pba((addr - bar.gpa) as u64),
                },
                None => if bar.idx < self.device.region_infos@.len()
                    && self.device.region_infos@[bar.idx as int].offset + (addr - bar.gpa)
                    <= u64::MAX {
                    BarAccess::Region(
                        bar.idx,
                        (self.device.region_infos@[bar.idx as int].offset + (addr - bar.gpa)) as u64,
                    )
                } else {
                    BarAccess::Unclaimed
                },
            },
        }
    }

    /// How a read of configuration register `reg_idx` is answered: the BAR registers,
    /// 4 to 9, and the expansion ROM register, 12, are emulated; every other register
    /// is read from the device, under the first mask recorded for it if there is one.
    pub open spec fn spec_read_config_register(&self, reg_idx: usize) -> ConfigRead {
        if 4 <= reg_idx < 10 {
            ConfigRead::Value(
                spec_bar_register(self.bar_infos@, (reg_idx - 4) as u32, self.bar_infos@.len()),
            )
        } else if reg_idx == 12 {
            match self.expansion_rom_info {
                Some(rom) => ConfigRead::Value(spec_rom_register(rom)),
                None => ConfigRead::Value(0),
            }
        } else {
            ConfigRead::Forward(
                (reg_idx * 4) as u64,
                match self.masks {
                    Some(masks) => spec_find_mask(masks@, reg_idx as int, masks@.len()),
                    None => None,
                },
            )
        }
    }

    /// Finds the BAR that holds `addr`.
    fn bar_at(&self, addr: u64) -> (r: Option<BarInfo>)
        ensures
            r == spec_bar_at(self.bar_infos@, addr as int, self.bar_infos@.len()),
            r matches Some(bar) ==> bar.gpa <= addr < bar.gpa + bar.size,
    {
        let mut i: usize = 0;
        while i < self.bar_infos.len()
            invariant
                i <= self.bar_infos@.len(),
                spec_bar_at(self.bar_infos@, addr as int, i as nat) is None,
            decreases self.bar_infos@.len() - i,
        {
            let bar = self.bar_infos[i];
            if bar.gpa <= addr && addr - bar.gpa < bar.size {
                proof {
                    lemma_bar_at_stays(
                        self.bar_infos@,
                        addr as int,
                        (i + 1) as nat,
                        self.bar_infos@.len(),
                    );
                }
                return Some(bar);
            }
            i = i + 1;
        }
        None
    }

    /// Finds the hole whose structure `addr` hits.
    pub fn hole_at(&self, addr: u64) -> (r: Option<BarHoleInfo>)
        ensures
            r == spec_hole_at(
                self.bar_hole_infos@,
                self.msix_cap,
                addr as int,
                self.bar_hole_infos@.len(),
            ),
            r matches Some(hole) ==> spec_hole_hit(hole, self.msix_cap, addr as int),
    {
        let (table_len, pba_len): (u64, u64) = match &self.msix_cap {
            Some(cap) => (cap.table_range().1, cap.pba_range().1),
            None => (0, 0),
        };
        let mut i: usize = 0;
        while i < self.bar_hole_infos.len()
            invariant
                i <= self.bar_hole_infos@.len(),
                table_len == spec_table_len(self.msix_cap),
                pba_len == spec_pba_len(self.msix_cap),
                spec_hole_at(self.bar_hole_infos@, self.msix_cap, addr as int, i as nat) is None,
            decreases self.bar_hole_infos@.len() - i,
        {
            let hole = self.bar_hole_infos[i];
            let len: u64 = match hole.usage {
                BarHoleInfoUsage::Table => table_len,
                BarHoleInfoUsage::Pba => pba_len,
            };
            if hole.gpa <= addr && hole.offset_in_hole <= addr - hole.gpa && addr - hole.gpa
                < hole.size && addr - hole.gpa - hole.offset_in_hole < len {
                proof {
                    lemma_hole_at_stays(
                        self.bar_hole_infos@,
                        self.msix_cap,
                        addr as int,
                        (i + 1) as nat,
                        self.bar_hole_infos@.len(),
                    );
                }
                return Some(hole);
            }
            i = i + 1;
        }
        None
    }

    /// Says how a guest access at `offset` from `base` is answered.
    pub fn bar_access(&self, base: u64, offset: u64) -> (access: BarAccess)
        requires
            base + offset <= u64::MAX,
        ensures
            access == self.spec_bar_access(base, offset),
    {
        let addr: u64 = base + offset;
        let bar = match self.bar_at(addr) {
            None => {
                return BarAccess::Unclaimed;
            },
            Some(bar) => bar,
        };
        let within: u64 = addr - bar.gpa;
        match self.hole_at(addr) {
            Some(hole) => match hole.usage {
                BarHoleInfoUsage::Table => BarAccess::Table(within),
                BarHoleInfoUsage::Pba => BarAccess::Pba(within),
            },
            None => {
                if (bar.idx as usize) < self.device.region_infos.len() {
                    let region_offset: u64 = self.device.region_infos[bar.idx as usize].offset;
                    if region_offset <= u64::MAX - within {
                        return BarAccess::Region(bar.idx, region_offset + within);
                    }
                }
                BarAccess::Unclaimed
            },
        }
    }

    /// Answers a guest read of configuration register `reg_idx`.
    pub fn read_config_register(&self, reg_idx: usize) -> (r: ConfigRead)
        requires
            reg_idx * 4 <= u64::MAX,
        ensures
            r == self.spec_read_config_register(reg_idx),
    {
        if 4 <= reg_idx && reg_idx < 10 {
            let bar_idx: u32 = (reg_idx - 4) as u32;
            let mut result: u32 = 0;
            let mut i: usize = 0;
            while i < self.bar_infos.len()
                invariant
                    i <= self.bar_infos@.len(),
                    result == spec_bar_register(self.bar_infos@, bar_idx, i as nat),
                decreases self.bar_infos@.len() - i,
            {
                let bar = self.bar_infos[i];
                if bar_idx == bar.idx {
                    result = bar_low(&bar);
                } else if bar.is_64_bits && bar.idx < u32::MAX && bar_idx == bar.idx + 1 {
                    result = bar_high(&bar);
                }
                i = i + 1;
            }
            ConfigRead::Value(result)
        } else if reg_idx == 12 {
            match &self.expansion_rom_info {
                Some(rom) => ConfigRead::Value(rom_register(rom)),
                None => ConfigRead::Value(0),
            }
        } else {
            let mut found: Option<RegisterMask> = None;
            match &self.masks {
                Some(masks) => {
                    let mut i: usize = 0;
                    while i < masks.len()
                        invariant
                            i <= masks@.len(),
                            found == spec_find_mask(masks@, reg_idx as int, i as nat),
                        decreases masks@.len() - i,
                    {
                        if found.is_none() && masks[i].register as usize == reg_idx % 65536 {
                            found = Some(masks[i]);
                        }
                        i = i + 1;
                    }
                },
                None => {},
            }
            ConfigRead::Forward(reg_idx as u64 * 4, found)
        }
    }

    /// Answers a guest write of `data` at `offset` within configuration register
    /// `reg_idx`.
    ///
    /// A write of four bytes of all ones to a BAR register marks every BAR that owns
    /// the register, one to the expansion ROM register marks the ROM: the next reads
    /// give the size mask. Any other write to these registers changes nothing. A
    /// write to any other register is to be made on the device.
    pub fn write_config_register(&mut self, reg_idx: usize, offset: u64, data: &[u8]) -> (r:
        ConfigWrite)
        requires
            reg_idx * 4 + offset <= u64::MAX,
        ensures
            final(self).id == old(self).id,
            final(self).group_id == old(self).group_id,
            final(self).device == old(self).device,
            final(self).msi_cap == old(self).msi_cap,
            final(self).msix_cap == old(self).msix_cap,
            final(self).bar_hole_infos == old(self).bar_hole_infos,
            final(self).masks == old(self).masks,
            final(self).msix_config == old(self).msix_config,
            final(self).bar_infos@ == spec_bars_after_write(
                old(self).bar_infos@,
                reg_idx,
                spec_is_sizing_write(data@),
            ),
            final(self).expansion_rom_info == spec_rom_after_write(
                old(self).expansion_rom_info,
                reg_idx,
                spec_is_sizing_write(data@),
            ),
            r == (if 4 <= reg_idx < 10 || reg_idx == 12 {
                ConfigWrite::Emulated
            } else {
                ConfigWrite::Forward((reg_idx * 4 + offset) as u64)
            }),
    {
        let sizing = data.len() == 4 && read_u32(data, 0) == 0xffff_ffff;
        if 4 <= reg_idx && reg_idx < 10 {
            let bar_idx: u32 = (reg_idx - 4) as u32;
            let mut i: usize = 0;
            while i < self.bar_infos.len()
                invariant
                    4 <= reg_idx < 10,
                    bar_idx == reg_idx - 4,
                    i <= self.bar_infos@.len(),
                    self.bar_infos@.len() == old(self).bar_infos@.len(),
                    self.id == old(self).id,
                    self.group_id == old(self).group_id,
                    self.device == old(self).device,
                    self.msi_cap == old(self).msi_cap,
                    self.msix_cap == old(self).msix_cap,
                    self.bar_hole_infos == old(self).bar_hole_infos,
                    self.masks == old(self).masks,
                    self.msix_config == old(self).msix_config,
                    self.expansion_rom_info == old(self).expansion_rom_info,
                    forall|k: int|
                        0 <= k < i ==> self.bar_infos@[k] == spec_bar_after_write(
                            old(self).bar_infos@[k],
                            reg_idx,
                            sizing,
                        ),
                    forall|k: int|
                        i <= k < self.bar_infos@.len() ==> self.bar_infos@[k] == old(
                            self,
                        ).bar_infos@[k],
                decreases self.bar_infos@.len() - i,
            {
                let bar = self.bar_infos[i];
                if sizing && (bar_idx == bar.idx || (bar.is_64_bits && bar.idx < u32::MAX && bar_idx
                    == bar.idx + 1)) {
                    self.bar_infos[i] = BarInfo {
                        idx: bar.idx,
                        gpa: bar.gpa,
                        size: bar.size,
                        is_64_bits: bar.is_64_bits,
                        is_prefetchable: bar.is_prefetchable,
                        about_to_read_size: true,
                    };
                }
                i = i + 1;
            }
            proof {
                assert(self.bar_infos@ =~= spec_bars_after_write(
                    old(self).bar_infos@,
                    reg_idx,
                    sizing,
                ));
            }
            ConfigWrite::Emulated
        } else if reg_idx == 12 {
            if sizing {
                match self.expansion_rom_info {
                    Some(rom) => {
                        self.expansion_rom_info = Some(
                            ExpansionRomInfo {
                                gpa: rom.gpa,
                                size: rom.size,
                                extra: rom.extra,
                                about_to_read_size: true,
                            },
                        );
                    },
                    None => {},
                }
            }
            proof {
                assert(self.bar_infos@ =~= spec_bars_after_write(
                    old(self).bar_infos@,
                    reg_idx,
                    sizing,
                ));
            }
            ConfigWrite::Emulated
        } else {
            proof {
                assert(self.bar_infos@ =~= spec_bars_after_write(
                    old(self).bar_infos@,
                    reg_idx,
                    sizing,
                ));
            }
            ConfigWrite::Forward(reg_idx as u64 * 4 + offset)
        }
    }
}

/// True if the bytes are a write of all ones to a whole register.
pub open spec fn spec_is_sizing_write(data: Seq<u8>) -> bool {
    data.len() == 4 && spec_u32_at(data, 0) == 0xffff_ffff
}

/// True if the BAR owns configuration register `reg_idx`: the register of its index,
/// and the next one too where it has 64 bits.
pub open spec fn spec_bar_owns(bar: BarInfo, reg_idx: usize) -> bool {
    4 <= reg_idx < 10 && (reg_idx - 4 == bar.idx || (bar.is_64_bits && reg_idx - 4 == bar.idx
        + 1))
}

/// A BAR after a write to configuration register `reg_idx`: marked, if the write was
/// one of all ones to a register that the BAR owns.
pub open spec fn spec_bar_after_write(bar: BarInfo, reg_idx: usize, sizing: bool) -> BarInfo {
    if sizing && spec_bar_owns(bar, reg_idx) {
        BarInfo { about_to_read_size: true, ..bar }
    } else {
        bar
    }
}

/// The BARs after a write to configuration register `reg_idx`.
pub open spec fn spec_bars_after_write(bars: Seq<BarInfo>, reg_idx: usize, sizing: bool) -> Seq<
    BarInfo,
> {
    Seq::new(bars.len(), |k: int| spec_bar_after_write(bars[k], reg_idx, sizing))
}

/// The expansion ROM after a write to configuration register `reg_idx`: marked, if
/// the write was one of all ones to register 12.
pub open spec fn spec_rom_after_write(
    rom: Option<ExpansionRomInfo>,
    reg_idx: usize,
    sizing: bool,
) -> Option<ExpansionRomInfo> {
    match rom {
        Some(r) => if sizing && reg_idx == 12 {
            Some(ExpansionRomInfo { about_to_read_size: true, ..r })
        } else {
            Some(r)
        },
        None => None,
    }
}

/// The two's complement of `size` in 64 bits.
pub fn size_mask(size: u64) -> (mask: u64)
    ensures
        mask == spec_size_mask(size),
{
    if size == 0 {
        0
    } else {
        (u64::MAX - size) + 1
    }
}

/// What the guest reads from the lower register of a BAR.
pub fn bar_low(bar: &BarInfo) -> (v: u32)
    ensures
        v == spec_bar_low(*bar),
{
    let flags: u32 = (if bar.is_64_bits {
        4u32
    } else {
        0u32
    }) | (if bar.is_prefetchable {
        8u32
    } else {
        0u32
    });
    let value: u32 = if bar.about_to_read_size {
        (size_mask(bar.size) % 0x1_0000_0000) as u32
    } else {
        (bar.gpa % 0x1_0000_0000) as u32
    };
    value | flags
}

/// What the guest reads from the upper register of a 64-bit BAR.
pub fn bar_high(bar: &BarInfo) -> (v: u32)
    ensures
        v == spec_bar_high(*bar),
{
    if bar.about_to_read_size {
        (size_mask(bar.size) / 0x1_0000_0000) as u32
    } else {
        (bar.gpa / 0x1_0000_0000) as u32
    }
}

/// What the guest reads from the expansion ROM register.
pub fn rom_register(rom: &ExpansionRomInfo) -> (v: u32)
    ensures
        v == spec_rom_register(*rom),
{
    if rom.about_to_read_size {
        (size_mask(rom.size as u64) % 0x1_0000_0000) as u32
    } else {
        let gpa: u64 = rom.gpa;
        proof {
            assert(gpa % 0x1_0000_0000 >= gpa % 4096) by (bit_vector);
        }
        ((gpa % 0x1_0000_0000 - gpa % 4096) as u32) | (rom.extra as u32)
    }
}

/// What the guest sees of a raw register value under a mask.
pub fn apply_mask(raw: u32, mask: &RegisterMask) -> (v: u32)
    ensures
        v == spec_apply_mask(raw, *mask),
{
    (raw & mask.mask) | mask.value
}

/// Once one of the first `n` BARs holds `addr`, the first that does stays the answer
/// for every longer prefix.
pub proof fn lemma_bar_at_stays(bars: Seq<BarInfo>, addr: int, n: nat, m: nat)
    requires
        n <= m,
    ensures
        spec_bar_at(bars, addr, n) is Some ==> spec_bar_at(bars, addr, m) == spec_bar_at(
            bars,
            addr,
            n,
        ),
    decreases m,
{
    if n < m {
        lemma_bar_at_stays(bars, addr, n, (m - 1) as nat);
    }
}

/// Once `addr` hits one of the first `n` holes, the first it hits stays the answer for
/// every longer prefix.
pub proof fn lemma_hole_at_stays(
    holes: Seq<BarHoleInfo>,
    msix: Option<MsixCap>,
    addr: int,
    n: nat,
    m: nat,
)
    requires
        n <= m,
    ensures
        spec_hole_at(holes, msix, addr, n) is Some ==> spec_hole_at(holes, msix, addr, m)
            == spec_hole_at(holes, msix, addr, n),
    decreases m,
{
    if n < m {
        lemma_hole_at_stays(holes, msix, addr, n, (m - 1) as nat);
    }
}

/// A mask applied twice shows what it shows applied once.
pub proof fn lemma_apply_mask_idempotent(raw: u32, mask: RegisterMask)
    ensures
        spec_apply_mask(spec_apply_mask(raw, mask), mask) == spec_apply_mask(raw, mask),
{
    let m = mask.mask;
    let v = mask.value;
    assert((((raw & m) | v) & m) | v == (raw & m) | v) by (bit_vector);
}

/// The size mask of a BAR in the terms of its registers: for a size that is not zero,
/// the low half is `!(size - 1)` cut to 32 bits and the high half is `!(size - 1)`
/// shifted down by 32.
pub proof fn lemma_size_mask_bits(size: u64)
    requires
        size > 0,
    ensures
        (0x1_0000_0000_0000_0000 - size) % 0x1_0000_0000 == (!((size - 1) as u64)) & 0xffff_ffff,
        (0x1_0000_0000_0000_0000 - size) / 0x1_0000_0000 == (!((size - 1) as u64)) >> 32,
{
    let x: u64 = (size - 1) as u64;
    assert(!x == 0xffff_ffff_ffff_ffffu64 - x) by (bit_vector);
    let y: u64 = !x;
    assert(y & 0xffff_ffff == y % 0x1_0000_0000) by (bit_vector);
    assert(y >> 32 == y / 0x1_0000_0000) by (bit_vector);
}

/// After the guest has written all ones to the register of a BAR that is not empty,
/// it reads from the lower register `!(size - 1)` cut to 32 bits, with the flag bits
/// of the BAR set, and from the upper register of a 64-bit BAR `!(size - 1)` shifted
/// down by 32. For a BAR that has neither 64 bits nor is prefetchable the lower
/// register reads as `!(size - 1)` cut to 32 bits and nothing else.
pub proof fn lemma_sizing_read(bar: BarInfo)
    requires
        bar.about_to_read_size,
        bar.size > 0,
    ensures
        spec_bar_low(bar) == (((!((bar.size - 1) as u64)) & 0xffff_ffff) as u32)
            | spec_bar_flag_bits(bar),
        !bar.is_64_bits && !bar.is_prefetchable ==> spec_bar_low(bar) == ((!((bar.size
            - 1) as u64)) & 0xffff_ffff) as u32,
        spec_bar_high(bar) == ((!((bar.size - 1) as u64)) >> 32) as u32,
{
    lemma_size_mask_bits(bar.size);
    let low = (((!((bar.size - 1) as u64)) & 0xffff_ffff) as u32);
    assert(low | (0u32 | 0u32) == low) by (bit_vector);
}

/// A write of all ones to a register of a BAR, followed by a read of that register,
/// reads the size of the BAR: `!(size - 1)` cut to 32 bits, with the flag bits of the
/// BAR set, from its lower register, and `!(size - 1)` shifted down by 32 from the
/// upper register of a 64-bit BAR. `j` is the place of the BAR among the BARs of the
/// device, none of which shares a register with another.
pub proof fn lemma_sizing_write_then_read(bars: Seq<BarInfo>, j: int, reg_idx: usize)
    requires
        0 <= j < bars.len(),
        bars[j].size > 0,
        spec_bar_owns(bars[j], reg_idx),
        forall|k: int| 0 <= k < bars.len() && k != j ==> !spec_bar_owns(#[trigger] bars[k], reg_idx),
    ensures
        spec_bar_register(
            spec_bars_after_write(bars, reg_idx, true),
            (reg_idx - 4) as u32,
            bars.len(),
        ) == (if reg_idx - 4 == bars[j].idx {
            (((!((bars[j].size - 1) as u64)) & 0xffff_ffff) as u32) | spec_bar_flag_bits(bars[j])
        } else {
            ((!((bars[j].size - 1) as u64)) >> 32) as u32
        }),
{
    let after = spec_bars_after_write(bars, reg_idx, true);
    lemma_sizing_read(after[j]);
    lemma_bar_register_of(after, j, reg_idx, bars.len());
}

/// The register of a BAR reads as that BAR says, where no other BAR owns the
/// register.
pub proof fn lemma_bar_register_of(bars: Seq<BarInfo>, j: int, reg_idx: usize, n: nat)
    requires
        0 <= j < n <= bars.len(),
        spec_bar_owns(bars[j], reg_idx),
        forall|k: int| 0 <= k < bars.len() && k != j ==> !spec_bar_owns(#[trigger] bars[k], reg_idx),
    ensures
        spec_bar_register(bars, (reg_idx - 4) as u32, n) == (if reg_idx - 4 == bars[j].idx {
            spec_bar_low(bars[j])
        } else {
            spec_bar_high(bars[j])
        }),
    decreases n,
{
    if n - 1 != j {
        assert(!spec_bar_owns(bars[n - 1], reg_idx));
        lemma_bar_register_of(bars, j, reg_idx, (n - 1) as nat);
    }
}

} // verus!
