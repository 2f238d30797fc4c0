//! How the expansion ROM of a device appears in the guest.
use vstd::prelude::*;
use crate::vfio::device::ExpansionRomInfo;
use crate::vfio::error::VfioError;
use crate::vfio::mmap::BarMapping;
use crate::vfio::VfioRegionInfo;
use crate::vfio::VFIO_PCI_ROM_REGION_INDEX;
use crate::vfio::VFIO_REGION_INFO_FLAG_READ;
use crate::vfio::VFIO_REGION_INFO_FLAG_WRITE;

verus! {

/// The mapping of the expansion ROM: the ROM region of the device, from its start and
/// in the size of the ROM, appears at the guest address of the ROM. A device without
/// a ROM region, a ROM that is empty or larger than its region, and a ROM that
/// reaches beyond the last address are refused.
pub open spec fn spec_mmap_expansion_rom(rom: ExpansionRomInfo, regions: Seq<VfioRegionInfo>) -> Result<
    BarMapping,
    VfioError,
> {
    if regions.len() <= VFIO_PCI_ROM_REGION_INDEX {
        Err(VfioError::InvalidRegionIndex(VFIO_PCI_ROM_REGION_INDEX))
    } else {
        let region = regions[VFIO_PCI_ROM_REGION_INDEX as int];
        if rom.size == 0 || rom.size > region.size {
            Err(VfioError::InvalidMmapArea(VFIO_PCI_ROM_REGION_INDEX))
        } else if rom.gpa + rom.size > u64::MAX || region.offset + rom.size > u64::MAX {
            Err(VfioError::AddressOverflow(VFIO_PCI_ROM_REGION_INDEX))
        } else {
            Ok(
                BarMapping {
                    bar_idx: VFIO_PCI_ROM_REGION_INDEX,
                    file_offset: region.offset,
                    size: rom.size as u64,
                    gpa: rom.gpa,
                    readable: region.flags & VFIO_REGION_INFO_FLAG_READ != 0,
                    writable: region.flags & VFIO_REGION_INFO_FLAG_WRITE != 0,
                },
            )
        }
    }
}

/// Plans the mapping of the expansion ROM of a device into the guest.
pub fn mmap_expansion_rom(expansion_rom_info: &ExpansionRomInfo, region_infos: &Vec<VfioRegionInfo>) -> (r:
    Result<BarMapping, VfioError>)
    ensures
        r == spec_mmap_expansion_rom(*expansion_rom_info, region_infos@),
{
    if region_infos.len() <= VFIO_PCI_ROM_REGION_INDEX as usize {
        return Err(VfioError::InvalidRegionIndex(VFIO_PCI_ROM_REGION_INDEX));
    }
    let region = &region_infos[VFIO_PCI_ROM_REGION_INDEX as usize];
    let size: u64 = expansion_rom_info.size as u64;
    if size == 0 || size > region.size {
        return Err(VfioError::InvalidMmapArea(VFIO_PCI_ROM_REGION_INDEX));
    }
    if expansion_rom_info.gpa > u64::MAX - size || region.offset > u64::MAX - size {
        return Err(VfioError::AddressOverflow(VFIO_PCI_ROM_REGION_INDEX));
    }
    Ok(
        BarMapping {
            bar_idx: VFIO_PCI_ROM_REGION_INDEX,
            file_offset: region.offset,
            size,
            gpa: expansion_rom_info.gpa,
            readable: region.flags & VFIO_REGION_INFO_FLAG_READ != 0,
            writable: region.flags & VFIO_REGION_INFO_FLAG_WRITE != 0,
        },
    )
}

} // verus!
