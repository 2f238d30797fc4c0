//! Passthrough of host PCI devices: what a device reports, where its resources are
//! placed in the guest, and how guest accesses to it are answered.
use vstd::prelude::*;
use crate::bits::lemma_low3_u32;
use crate::bits::lemma_msg_ctl_bits;

pub mod bar_io;
pub mod bars;
pub mod container;
pub mod device;
pub mod dma;
pub mod error;
pub mod ioctls;
pub mod mmap;
pub mod pci_caps;
pub mod region;
pub mod rom;

verus! {

/// Offset of the first BAR register in PCI configuration space.
pub const PCI_CONFIG_BAR_OFFSET: u32 = 0x10;

/// Offset of the capability pointer in PCI configuration space.
pub const PCI_CONFIG_CAPABILITY_OFFSET: u32 = 0x34;

/// Offset of the first extended capability in PCI configuration space.
pub const PCI_CONFIG_EXTENDED_CAPABILITY_OFFSET: u32 = 0x100;

/// Bit 0 of a BAR register: set for an I/O BAR.
pub const PCI_CONFIG_IO_BAR: u32 = 0x1;

/// Bit 2 of a memory BAR register: set for a 64-bit BAR.
pub const PCI_CONFIG_MEMORY_BAR_64BIT: u32 = 0x4;

/// Bit 3 of a memory BAR register: set for a prefetchable BAR.
pub const PCI_CONFIG_BAR_PREFETCHABLE: u32 = 0x8;

/// Size in bytes of one PCI configuration register.
pub const PCI_CONFIG_REGISTER_SIZE: usize = 4;

/// Number of BARs of a PCI device.
pub const BAR_NUMS: usize = 6;

/// Register index of the header type.
pub const PCI_HEADER_TYPE_REG_INDEX: usize = 3;

/// Register index of BAR 0.
pub const PCI_CONFIG_BAR0_INDEX: usize = 4;

/// Register index of the expansion ROM BAR.
pub const PCI_ROM_EXP_BAR_INDEX: usize = 12;

/// Version of the VFIO interface this crate speaks.
pub const VFIO_API_VERSION: u32 = 0;

/// IOMMU driver type 1.
pub const VFIO_TYPE1_IOMMU: u32 = 1;

/// IOMMU driver type 1, version 2.
pub const VFIO_TYPE1V2_IOMMU: u32 = 3;

/// Group status flag: every device of the group is bound to a VFIO driver.
pub const VFIO_GROUP_FLAGS_VIABLE: u32 = 1;

/// Device flag: the device supports reset.
pub const VFIO_DEVICE_FLAGS_RESET: u32 = 1;

/// Region flag: the region can be read.
pub const VFIO_REGION_INFO_FLAG_READ: u32 = 1;

/// Region flag: the region can be written.
pub const VFIO_REGION_INFO_FLAG_WRITE: u32 = 2;

/// Region flag: the region can be memory mapped.
pub const VFIO_REGION_INFO_FLAG_MMAP: u32 = 4;

/// Region flag: the region information is followed by a capability chain.
pub const VFIO_REGION_INFO_FLAG_CAPS: u32 = 8;

/// Region capability id: sparse mmap areas.
pub const VFIO_REGION_INFO_CAP_SPARSE_MMAP: u16 = 1;

/// Region capability id: device specific type and subtype.
pub const VFIO_REGION_INFO_CAP_TYPE: u16 = 2;

/// Region capability id: the region may be mapped although it holds the MSI-X table.
pub const VFIO_REGION_INFO_CAP_MSIX_MAPPABLE: u16 = 3;

/// Region capability id: NVLink2 SSA target.
pub const VFIO_REGION_INFO_CAP_NVLINK2_SSATGT: u16 = 4;

/// Region capability id: NVLink2 link speed.
pub const VFIO_REGION_INFO_CAP_NVLINK2_LNKSPD: u16 = 5;

/// Region index of BAR 0.
pub const VFIO_PCI_BAR0_REGION_INDEX: u32 = 0;

/// Region index of BAR 5.
pub const VFIO_PCI_BAR5_REGION_INDEX: u32 = 5;

/// Region index of the expansion ROM.
pub const VFIO_PCI_ROM_REGION_INDEX: u32 = 6;

/// Region index of the PCI configuration space.
pub const VFIO_PCI_CONFIG_REGION_INDEX: u32 = 7;

/// Region index of the optional VGA region.
pub const VFIO_PCI_VGA_REGION_INDEX: u32 = 8;

/// Interrupt index of the legacy INTx line.
pub const VFIO_PCI_INTX_IRQ_INDEX: u32 = 0;

/// Interrupt index of MSI.
pub const VFIO_PCI_MSI_IRQ_INDEX: u32 = 1;

/// Interrupt index of MSI-X.
pub const VFIO_PCI_MSIX_IRQ_INDEX: u32 = 2;

/// Interrupt index of the error interrupt.
pub const VFIO_PCI_ERR_IRQ_INDEX: u32 = 3;

/// Interrupt index of the device request interrupt.
pub const VFIO_PCI_REQ_IRQ_INDEX: u32 = 4;

/// DMA mapping flag: the device may read the mapping.
pub const VFIO_DMA_MAP_FLAG_READ: u32 = 1;

/// DMA mapping flag: the device may write the mapping.
pub const VFIO_DMA_MAP_FLAG_WRITE: u32 = 2;

/// Size of a guest page.
pub const PAGE_SIZE: u64 = 4096;

/// One mappable area of a region.
#[derive(Copy, Clone, Debug, Default, PartialEq, Eq, Structural)]
pub struct VfioRegionSparseMmapArea {
    /// Offset of the area within the region.
    pub offset: u64,
    /// Size of the area.
    pub size: u64,
}

/// The mappable areas of a region.
#[derive(Clone, Debug, PartialEq, Eq)]
pub struct VfioRegionCapSparseMmap {
    /// The areas, in the order the device reported them.
    pub areas: Vec<VfioRegionSparseMmapArea>,
}

/// Device specific type and subtype of a region.
#[derive(Copy, Clone, Debug, PartialEq, Eq, Structural)]
pub struct VfioRegionCapType {
    /// Device type.
    pub type_: u32,
    /// Device subtype.
    pub subtype: u32,
}

/// NVLink2 SSA target of a region.
#[derive(Copy, Clone, Debug, PartialEq, Eq, Structural)]
pub struct VfioRegionCapNvlink2Ssatgt {
    /// Target value.
    pub tgt: u64,
}

/// NVLink2 link speed of a region.
#[derive(Copy, Clone, Debug, PartialEq, Eq, Structural)]
pub struct VfioRegionCapNvlink2Lnkspd {
    /// Link speed value.
    pub link_speed: u32,
}

/// A capability attached to a region.
#[derive(Clone, Debug, PartialEq, Eq)]
pub enum VfioRegionCap {
    /// Only the listed areas of the region can be mapped.
    SparseMmap(VfioRegionCapSparseMmap),
    /// Device specific type and subtype.
    Type(VfioRegionCapType),
    /// The region can be mapped although it holds the MSI-X table.
    MsixMappable,
    /// NVLink2 SSA target.
    Nvlink2Ssatgt(VfioRegionCapNvlink2Ssatgt),
    /// NVLink2 link speed.
    Nvlink2Lnkspd(VfioRegionCapNvlink2Lnkspd),
}

/// What a device reports of one of its regions.
#[derive(Clone, Debug)]
pub struct VfioRegionInfo {
    /// Access flags of the region.
    pub flags: u32,
    /// Index of the region.
    pub index: u32,
    /// Size of the region in bytes.
    pub size: u64,
    /// Offset of the region within the device file.
    pub offset: u64,
    /// Capabilities of the region.
    pub caps: Vec<VfioRegionCap>,
}

/// What a device reports of one of its interrupts.
#[derive(Copy, Clone, Debug, PartialEq, Eq, Structural)]
pub struct VfioIrqInfo {
    /// Flags of the interrupt.
    pub flags: u32,
    /// Index of the interrupt.
    pub index: u32,
    /// Number of vectors of the interrupt.
    pub count: u32,
}

/// Message control register of the MSI capability.
#[derive(Copy, Clone, Debug, PartialEq, Eq, Structural)]
pub struct MsiCap {
    /// Raw message control register.
    pub msg_ctl: u16,
}

/// MSI-X capability: message control, and where the table and the pending bit array
/// live.
#[derive(Copy, Clone, Debug, PartialEq, Eq, Structural)]
pub struct MsixCap {
    /// Raw message control register.
    pub msg_ctl: u16,
    /// Raw table offset register: offset in the upper 29 bits, BAR indicator in the
    /// lower 3.
    pub table_offset: u32,
    /// Raw pending bit array offset register, laid out as the table offset register.
    pub pba_offset: u32,
}

impl MsixCap {
    /// Number of entries of the MSI-X table.
    pub open spec fn spec_table_size(&self) -> int {
        self.msg_ctl as int % 2048 + 1
    }

    /// BAR that holds the table.
    pub open spec fn spec_table_bir(&self) -> int {
        self.table_offset as int % 8
    }

    /// BAR that holds the pending bit array.
    pub open spec fn spec_pba_bir(&self) -> int {
        self.pba_offset as int % 8
    }

    /// Offset of the table within its BAR.
    pub open spec fn spec_table_offset(&self) -> int {
        self.table_offset as int - self.table_offset as int % 8
    }

    /// Offset of the pending bit array within its BAR.
    pub open spec fn spec_pba_offset(&self) -> int {
        self.pba_offset as int - self.pba_offset as int % 8
    }

    /// Offset and size in bytes of the table: sixteen bytes for each entry.
    pub open spec fn spec_table_range(&self) -> (int, int) {
        (self.spec_table_offset(), 16 * self.spec_table_size())
    }

    /// Offset and size in bytes of the pending bit array: one bit for each entry, in
    /// units of eight bytes, plus one unit.
    pub open spec fn spec_pba_range(&self) -> (int, int) {
        (self.spec_pba_offset(), (self.spec_table_size() / 64 + 1) * 8)
    }

    /// True if the function mask bit (bit 14 of message control) is set.
    pub fn masked(&self) -> (b: bool)
        ensures
            b == ((self.msg_ctl as int / 0x4000) % 2 == 1),
    {
        proof {
            lemma_msg_ctl_bits(self.msg_ctl);
        }
        (self.msg_ctl >> 14) & 0x1 == 0x1
    }

    /// True if the MSI-X enable bit (bit 15 of message control) is set.
    pub fn enabled(&self) -> (b: bool)
        ensures
            b == (self.msg_ctl as int >= 0x8000),
    {
        proof {
            lemma_msg_ctl_bits(self.msg_ctl);
        }
        (self.msg_ctl >> 15) & 0x1 == 0x1
    }

    /// Offset of the table within its BAR: the register with its low three bits
    /// cleared.
    pub fn table_offset(&self) -> (offset: u32)
        ensures
            offset == self.spec_table_offset(),
            offset % 8 == 0,
    {
        proof {
            lemma_low3_u32(self.table_offset);
        }
        self.table_offset & 0xffff_fff8
    }

    /// Offset of the pending bit array within its BAR.
    pub fn pba_offset(&self) -> (offset: u32)
        ensures
            offset == self.spec_pba_offset(),
            offset % 8 == 0,
    {
        proof {
            lemma_low3_u32(self.pba_offset);
        }
        self.pba_offset & 0xffff_fff8
    }

    /// Replaces the table offset by `addr` and keeps the BAR indicator.
    pub fn table_set_offset(&mut self, addr: u32)
        requires
            old(self).spec_table_bir() + addr <= u32::MAX,
        ensures
            final(self).table_offset == old(self).spec_table_bir() + addr,
            final(self).msg_ctl == old(self).msg_ctl,
            final(self).pba_offset == old(self).pba_offset,
            addr % 8 == 0 ==> final(self).spec_table_bir() == old(self).spec_table_bir()
                && final(self).spec_table_offset() == addr,
    {
        proof {
            lemma_low3_u32(self.table_offset);
        }
        self.table_offset = (self.table_offset & 0x7) + addr;
    }

    /// Replaces the offset of the pending bit array by `addr` and keeps the BAR
    /// indicator.
    pub fn pba_set_offset(&mut self, addr: u32)
        requires
            old(self).spec_pba_bir() + addr <= u32::MAX,
        ensures
            final(self).pba_offset == old(self).spec_pba_bir() + addr,
            final(self).msg_ctl == old(self).msg_ctl,
            final(self).table_offset == old(self).table_offset,
            addr % 8 == 0 ==> final(self).spec_pba_bir() == old(self).spec_pba_bir()
                && final(self).spec_pba_offset() == addr,
    {
        proof {
            lemma_low3_u32(self.pba_offset);
        }
        self.pba_offset = (self.pba_offset & 0x7) + addr;
    }

    /// BAR that holds the table: the low three bits of the table offset register.
    pub fn table_bir(&self) -> (bir: u32)
        ensures
            bir == self.spec_table_bir(),
            bir == self.table_offset & 0x7,
            bir < 8,
    {
        proof {
            lemma_low3_u32(self.table_offset);
        }
        self.table_offset & 0x7
    }

    /// BAR that holds the pending bit array: the low three bits of its offset
    /// register.
    pub fn pba_bir(&self) -> (bir: u32)
        ensures
            bir == self.spec_pba_bir(),
            bir == self.pba_offset & 0x7,
            bir < 8,
    {
        proof {
            lemma_low3_u32(self.pba_offset);
        }
        self.pba_offset & 0x7
    }

    /// Number of entries of the table: the low eleven bits of message control, plus
    /// one.
    pub fn table_size(&self) -> (size: u16)
        ensures
            size == self.spec_table_size(),
            1 <= size <= 2048,
    {
        proof {
            lemma_msg_ctl_bits(self.msg_ctl);
        }
        (self.msg_ctl & 0x7ff) + 1
    }

    /// Offset of the table within its BAR, and its size in bytes.
    pub fn table_range(&self) -> (range: (u64, u64))
        ensures
            range.0 == self.spec_table_range().0,
            range.1 == self.spec_table_range().1,
            range.1 == 16 * self.spec_table_size(),
    {
        let size: u64 = self.table_size() as u64 * 16;
        (self.table_offset() as u64, size)
    }

    /// Offset of the pending bit array within its BAR, and its size in bytes.
    pub fn pba_range(&self) -> (range: (u64, u64))
        ensures
            range.0 == self.spec_pba_range().0,
            range.1 == self.spec_pba_range().1,
    {
        let size: u64 = ((self.table_size() as u64 / 64) + 1) * 8;
        (self.pba_offset() as u64, size)
    }
}

/// A register of configuration space of which the guest sees `(raw & mask) | value`.
#[derive(Copy, Clone, Debug, PartialEq, Eq, Structural)]
pub struct RegisterMask {
    /// Index of the register.
    pub register: u16,
    /// Bits of the raw value that the guest sees.
    pub mask: u32,
    /// Bits that are set in what the guest sees.
    pub value: u32,
}

/// A BAR of the device and where it was placed in the guest.
#[derive(Copy, Clone, Debug, PartialEq, Eq, Structural)]
pub struct BarInfo {
    /// Index of the BAR.
    pub idx: u32,
    /// Guest physical address of the BAR.
    pub gpa: u64,
    /// Size of the BAR in bytes.
    pub size: u64,
    /// True for a 64-bit BAR, which takes two registers.
    pub is_64_bits: bool,
    /// True for a prefetchable BAR.
    pub is_prefetchable: bool,
    /// True once the guest has written all ones to the register: its next read gives
    /// the size mask.
    pub about_to_read_size: bool,
}

/// What lives in a hole of a BAR.
#[derive(Copy, Clone, Debug, PartialEq, Eq, Structural)]
pub enum BarHoleInfoUsage {
    /// The MSI-X table.
    Table,
    /// The MSI-X pending bit array.
    Pba,
}

/// Pages of a BAR that are not mapped into the guest, because they hold the MSI-X
/// table or the pending bit array.
#[derive(Copy, Clone, Debug, PartialEq, Eq, Structural)]
pub struct BarHoleInfo {
    /// Guest physical address of the first page of the hole.
    pub gpa: u64,
    /// Size of the hole in bytes, a multiple of the page size.
    pub size: u64,
    /// Offset within the hole at which the structure starts.
    pub offset_in_hole: u64,
    /// What the hole holds.
    pub usage: BarHoleInfoUsage,
}

/// Of every MSI-X capability: the table has between 1 and 2048 entries, the BAR
/// indicators are the low three bits of the offset registers, offsets are multiples
/// of eight that leave the indicator out, and the table takes sixteen bytes for each
/// entry.
pub proof fn lemma_msix_cap_layout(cap: MsixCap)
    ensures
        1 <= cap.spec_table_size() <= 2048,
        cap.spec_table_bir() == (cap.table_offset & 0x7) as int,
        cap.spec_pba_bir() == (cap.pba_offset & 0x7) as int,
        0 <= cap.spec_table_bir() < 8,
        0 <= cap.spec_pba_bir() < 8,
        cap.spec_table_offset() + cap.spec_table_bir() == cap.table_offset,
        cap.spec_pba_offset() + cap.spec_pba_bir() == cap.pba_offset,
        cap.spec_table_offset() % 8 == 0,
        cap.spec_pba_offset() % 8 == 0,
        cap.spec_table_range().1 == 16 * cap.spec_table_size(),
        16 <= cap.spec_table_range().1 <= 32768,
        8 <= cap.spec_pba_range().1 <= 264,
{
    lemma_low3_u32(cap.table_offset);
    lemma_low3_u32(cap.pba_offset);
}

} // verus!
