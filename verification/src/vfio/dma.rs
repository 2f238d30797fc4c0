//! Which guest memory a passthrough device is allowed to reach.
use vstd::prelude::*;
use crate::memory::GuestMemoryLayout;
use crate::memory::GuestRegion;
use crate::memory::GuestRegionType;
use crate::vfio::VFIO_DMA_MAP_FLAG_READ;
use crate::vfio::VFIO_DMA_MAP_FLAG_WRITE;

verus! {

/// One mapping to program into the IOMMU.
#[derive(Copy, Clone, Debug, PartialEq, Eq, Structural)]
pub struct DmaMap {
    /// Address that the device uses.
    pub iova: u64,
    /// Address of the memory in the host process.
    pub vaddr: u64,
    /// Size in bytes.
    pub size: u64,
    /// Whether the device may read and write the memory.
    pub flags: u32,
}

/// The access the device gets to a region: read where the mapping can be read, write
/// where it can be written.
pub open spec fn spec_dma_flags(region: GuestRegion) -> u32 {
    (if region.readable {
        VFIO_DMA_MAP_FLAG_READ
    } else {
        0u32
    }) | (if region.writable {
        VFIO_DMA_MAP_FLAG_WRITE
    } else {
        0u32
    })
}

/// The mapping of a region: the device sees it at its guest physical address.
pub open spec fn spec_dma_map(region: GuestRegion) -> DmaMap {
    DmaMap {
        iova: region.start,
        vaddr: region.host_addr,
        size: region.size,
        flags: spec_dma_flags(region),
    }
}

/// The mappings of the first `n` regions: one for each region of ordinary memory, in
/// order.
pub open spec fn spec_dma_maps(regions: Seq<GuestRegion>, n: nat) -> Seq<DmaMap>
    decreases n,
{
    if n == 0 {
        Seq::<DmaMap>::empty()
    } else if regions[n - 1].region_type == GuestRegionType::Dram {
        spec_dma_maps(regions, (n - 1) as nat).push(spec_dma_map(regions[n - 1]))
    } else {
        spec_dma_maps(regions, (n - 1) as nat)
    }
}

/// Every region of ordinary memory among the first `n` has its mapping, and every
/// mapping is that of such a region.
pub proof fn lemma_dma_maps_cover(regions: Seq<GuestRegion>, n: nat)
    requires
        n <= regions.len(),
    ensures
        forall|i: int|
            0 <= i < n && (#[trigger] regions[i]).region_type == GuestRegionType::Dram
                ==> spec_dma_maps(regions, n).contains(spec_dma_map(regions[i])),
        forall|k: int|
            0 <= k < spec_dma_maps(regions, n).len() ==> exists|i: int|
                0 <= i < n && regions[i].region_type == GuestRegionType::Dram
                    && #[trigger] spec_dma_maps(regions, n)[k] == spec_dma_map(regions[i]),
    decreases n,
{
    if n > 0 {
        lemma_dma_maps_cover(regions, (n - 1) as nat);
        let before = spec_dma_maps(regions, (n - 1) as nat);
        let maps = spec_dma_maps(regions, n);
        if regions[n - 1].region_type == GuestRegionType::Dram {
            assert(maps[maps.len() - 1] == spec_dma_map(regions[n - 1]));
            assert forall|i: int|
                0 <= i < n && (#[trigger] regions[i]).region_type
                    == GuestRegionType::Dram implies maps.contains(spec_dma_map(regions[i])) by {
                if i < n - 1 {
                    let k = choose|k: int|
                        0 <= k < before.len() && before[k] == spec_dma_map(regions[i]);
                    assert(maps[k] == before[k]);
                }
            }
            assert forall|k: int| 0 <= k < maps.len() implies exists|i: int|
                0 <= i < n && regions[i].region_type == GuestRegionType::Dram
                    && #[trigger] maps[k] == spec_dma_map(regions[i]) by {
                if k < before.len() {
                    assert(maps[k] == before[k]);
                    let i = choose|i: int|
                        0 <= i < n - 1 && regions[i].region_type == GuestRegionType::Dram
                            && before[k] == spec_dma_map(regions[i]);
                    assert(maps[k] == spec_dma_map(regions[i]));
                } else {
                    assert(maps[k] == spec_dma_map(regions[n - 1]));
                }
            }
        }
    }
}

/// The access the device gets to a region.
pub fn dma_flags(region: &GuestRegion) -> (flags: u32)
    ensures
        flags == spec_dma_flags(*region),
{
    (if region.readable {
        VFIO_DMA_MAP_FLAG_READ
    } else {
        0u32
    }) | (if region.writable {
        VFIO_DMA_MAP_FLAG_WRITE
    } else {
        0u32
    })
}

/// Lists the mappings that let a device reach all ordinary memory of the guest.
///
/// There is one mapping for each region of ordinary memory, in the order of the
/// regions: the device sees the region at its guest physical address, in its full
/// size. Device memory gets no mapping.
pub fn dma_map_guest_memory(guest_memory: &GuestMemoryLayout) -> (maps: Vec<DmaMap>)
    ensures
        maps@ == spec_dma_maps(guest_memory@, guest_memory@.len()),
        forall|i: int|
            0 <= i < guest_memory@.len() && (#[trigger] guest_memory@[i]).region_type
                == GuestRegionType::Dram ==> exists|k: int|
                0 <= k < maps@.len() && maps@[k].iova == guest_memory@[i].start && maps@[k].size
                    == guest_memory@[i].size && maps@[k].vaddr == guest_memory@[i].host_addr,
{
    let regions = guest_memory.regions();
    let mut maps: Vec<DmaMap> = Vec::new();
    let mut i: usize = 0;
    while i < regions.len()
        invariant
            i <= regions@.len(),
            maps@ == spec_dma_maps(regions@, i as nat),
        decreases regions@.len() - i,
    {
        let region = regions[i];
        match region.region_type {
            GuestRegionType::Dram => {
                maps.push(
                    DmaMap {
                        iova: region.start,
                        vaddr: region.host_addr,
                        size: region.size,
                        flags: dma_flags(&region),
                    },
                );
            },
            GuestRegionType::Device => {},
        }
        i = i + 1;
    }
    proof {
        lemma_dma_maps_cover(regions@, regions@.len());
        assert forall|i: int|
            0 <= i < regions@.len() && (#[trigger] regions@[i]).region_type
                == GuestRegionType::Dram implies exists|k: int|
            0 <= k < maps@.len() && maps@[k].iova == regions@[i].start && maps@[k].size
                == regions@[i].size && maps@[k].vaddr == regions@[i].host_addr by {
            assert(maps@.contains(spec_dma_map(regions@[i])));
            let k = choose|k: int| 0 <= k < maps@.len() && maps@[k] == spec_dma_map(regions@[i]);
            assert(maps@[k].iova == regions@[i].start);
        }
    }
    maps
}

} // verus!
