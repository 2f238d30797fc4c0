//! The layout of guest memory: which ranges of guest physical addresses are backed by
//! host memory, and what kind of memory backs them.
use vstd::prelude::*;

verus! {

/// Size of a guest page.
pub const GUEST_PAGE_SIZE: usize = 4096;

/// What a region of guest memory is.
#[derive(Copy, Clone, Debug, PartialEq, Eq, Structural)]
pub enum GuestRegionType {
    /// Ordinary memory of the guest.
    Dram,
    /// Memory of a device that is mapped into the guest.
    Device,
}

/// One region of guest memory.
#[derive(Copy, Clone, Debug, PartialEq, Eq, Structural)]
pub struct GuestRegion {
    /// Guest physical address of the first byte.
    pub start: u64,
    /// Size in bytes.
    pub size: u64,
    /// What the region is.
    pub region_type: GuestRegionType,
    /// Address of the first byte in the host process.
    pub host_addr: u64,
    /// True if the mapping can be read.
    pub readable: bool,
    /// True if the mapping can be written.
    pub writable: bool,
}

/// True if the regions can make up a guest memory: none is empty, none reaches beyond
/// the last address, they are in ascending order and no two share an address.
pub open spec fn spec_regions_valid(regions: Seq<GuestRegion>) -> bool {
    &&& forall|i: int|
        0 <= i < regions.len() ==> (#[trigger] regions[i]).size > 0 && regions[i].start
            + regions[i].size - 1 <= u64::MAX
    &&& forall|i: int, j: int|
        0 <= i < j < regions.len() ==> (#[trigger] regions[i]).start + regions[i].size <= (
        #[trigger] regions[j]).start
}

/// True if the region holds the address.
pub open spec fn spec_region_holds(region: GuestRegion, addr: u64) -> bool {
    region.start <= addr && addr - region.start < region.size
}

/// The regions of guest memory, in ascending order of their addresses.
pub struct GuestMemoryLayout {
    regions: Vec<GuestRegion>,
}

impl View for GuestMemoryLayout {
    type V = Seq<GuestRegion>;

    closed spec fn view(&self) -> Seq<GuestRegion> {
        self.regions@
    }
}

impl GuestMemoryLayout {
    #[verifier::type_invariant]
    spec fn inv(&self) -> bool {
        spec_regions_valid(self.regions@)
    }

    /// Makes a layout of the regions, if they can make up a guest memory.
    pub fn new(regions: Vec<GuestRegion>) -> (r: Option<Self>)
        ensures
            r is Some <==> spec_regions_valid(regions@),
            r matches Some(layout) ==> layout@ == regions@,
    {
        let mut i: usize = 0;
        let mut end: u64 = 0;
        while i < regions.len()
            invariant
                i <= regions@.len(),
                forall|k: int|
                    0 <= k < i ==> (#[trigger] regions@[k]).size > 0 && regions@[k].start
                        + regions@[k].size - 1 <= u64::MAX,
                forall|k: int, j: int|
                    0 <= k < j < i ==> (#[trigger] regions@[k]).start + regions@[k].size <= (
                    #[trigger] regions@[j]).start,
                i > 0 ==> end == regions@[i - 1].start + regions@[i - 1].size - 1,
            decreases regions@.len() - i,
        {
            let region = regions[i];
            if region.size == 0 || region.start > u64::MAX - (region.size - 1) {
                return None;
            }
            if i > 0 && region.start <= end {
                proof {
                    assert(regions@[i - 1].start + regions@[i - 1].size > regions@[i as int].start);
                }
                return None;
            }
            proof {
                assert forall|k: int, j: int| 0 <= k < j < i + 1 implies (
                #[trigger] regions@[k]).start + regions@[k].size <= (
                #[trigger] regions@[j]).start by {
                    if j == i && k < i - 1 {
                        assert(regions@[k].start + regions@[k].size <= regions@[i - 1].start);
                    }
                }
            }
            end = region.start + (region.size - 1);
            i = i + 1;
        }
        Some(GuestMemoryLayout { regions })
    }

    /// The regions, in ascending order of their addresses.
    pub fn regions(&self) -> (r: &Vec<GuestRegion>)
        ensures
            r@ == self@,
            spec_regions_valid(r@),
    {
        proof {
            use_type_invariant(self);
        }
        &self.regions
    }

    /// The number of regions.
    pub fn num_regions(&self) -> (n: usize)
        ensures
            n == self@.len(),
    {
        self.regions.len()
    }

    /// The region that holds `addr`, if there is one.
    pub fn find_region(&self, addr: u64) -> (r: Option<GuestRegion>)
        ensures
            match r {
                Some(region) => self@.contains(region) && spec_region_holds(region, addr),
                None => forall|i: int|
                    0 <= i < self@.len() ==> !spec_region_holds(#[trigger] self@[i], addr),
            },
    {
        let mut i: usize = 0;
        while i < self.regions.len()
            invariant
                i <= self.regions@.len(),
                forall|k: int| 0 <= k < i ==> !spec_region_holds(#[trigger] self.regions@[k], addr),
            decreases self.regions@.len() - i,
        {
            let region = self.regions[i];
            if region.start <= addr && addr - region.start < region.size {
                return Some(region);
            }
            i = i + 1;
        }
        None
    }

    /// The last address of guest memory, if there is any memory.
    pub fn last_addr(&self) -> (r: Option<u64>)
        ensures
            self@.len() == 0 ==> r is None,
            self@.len() > 0 ==> r == Some((self@.last().start + self@.last().size - 1) as u64),
            r matches Some(last) ==> forall|i: int|
                0 <= i < self@.len() ==> (#[trigger] self@[i]).start + self@[i].size - 1 <= last,
    {
        proof {
            use_type_invariant(self);
        }
        let n = self.regions.len();
        if n == 0 {
            None
        } else {
            let region = self.regions[n - 1];
            Some(region.start + (region.size - 1))
        }
    }
}

} // verus!
