//! Reading what the kernel reports of the regions and interrupts of a device.
//!
//! The kernel answers a region query with a fixed header, followed, where the region
//! has capabilities, by a chain of capability records. Each record names the offset of
//! the next one. All integers are little-endian.
use vstd::prelude::*;
use crate::vfio::error::VfioError;
use crate::vfio::VfioIrqInfo;
use crate::vfio::VfioRegionCap;
use crate::vfio::VfioRegionCapNvlink2Lnkspd;
use crate::vfio::VfioRegionCapNvlink2Ssatgt;
use crate::vfio::VfioRegionCapSparseMmap;
use crate::vfio::VfioRegionCapType;
use crate::vfio::VfioRegionInfo;
use crate::vfio::VfioRegionSparseMmapArea;
use crate::vfio::VFIO_PCI_VGA_REGION_INDEX;
use crate::vfio::VFIO_REGION_INFO_FLAG_CAPS;
use crate::wire::read_u16;
use crate::wire::read_u32;
use crate::wire::read_u64;
use crate::wire::spec_u16_at;
use crate::wire::spec_u32_at;
use crate::wire::spec_u64_at;

verus! {

/// Size of the fixed header of a region reply.
pub const REGION_INFO_SIZE: u32 = 32;

/// Error number with which the kernel refuses an index it does not know.
pub const EINVAL: i32 = 22;

/// A region capability as a mathematical value.
pub enum RegionCapView {
    /// Only the listed areas can be mapped.
    SparseMmap(Seq<VfioRegionSparseMmapArea>),
    /// Device specific type and subtype.
    Type(VfioRegionCapType),
    /// The region may be mapped although it holds the MSI-X table.
    MsixMappable,
    /// NVLink2 SSA target.
    Nvlink2Ssatgt(VfioRegionCapNvlink2Ssatgt),
    /// NVLink2 link speed.
    Nvlink2Lnkspd(VfioRegionCapNvlink2Lnkspd),
}

/// A region as a mathematical value.
pub struct RegionInfoView {
    /// Access flags.
    pub flags: u32,
    /// Index of the region.
    pub index: u32,
    /// Size in bytes.
    pub size: u64,
    /// Offset within the device file.
    pub offset: u64,
    /// Capabilities, in chain order.
    pub caps: Seq<RegionCapView>,
}

impl View for VfioRegionCap {
    type V = RegionCapView;

    open spec fn view(&self) -> RegionCapView {
        match *self {
            VfioRegionCap::SparseMmap(c) => RegionCapView::SparseMmap(c.areas@),
            VfioRegionCap::Type(t) => RegionCapView::Type(t),
            VfioRegionCap::MsixMappable => RegionCapView::MsixMappable,
            VfioRegionCap::Nvlink2Ssatgt(t) => RegionCapView::Nvlink2Ssatgt(t),
            VfioRegionCap::Nvlink2Lnkspd(l) => RegionCapView::Nvlink2Lnkspd(l),
        }
    }
}

/// The capabilities of a list, each as a mathematical value.
pub open spec fn spec_caps_view(caps: Seq<VfioRegionCap>) -> Seq<RegionCapView> {
    Seq::new(caps.len(), |i: int| caps[i]@)
}

impl View for VfioRegionInfo {
    type V = RegionInfoView;

    open spec fn view(&self) -> RegionInfoView {
        RegionInfoView {
            flags: self.flags,
            index: self.index,
            size: self.size,
            offset: self.offset,
            caps: spec_caps_view(self.caps@),
        }
    }
}

/// The regions of a list, each as a mathematical value.
pub open spec fn spec_regions_view(regions: Seq<VfioRegionInfo>) -> Seq<RegionInfoView> {
    Seq::new(regions.len(), |i: int| regions[i]@)
}

/// The first `n` areas of a sparse mmap record at `o`: sixteen bytes each, from
/// offset sixteen of the record on.
pub open spec fn spec_sparse_areas_at(b: Seq<u8>, o: int, n: nat) -> Seq<
    VfioRegionSparseMmapArea,
> {
    Seq::new(
        n,
        |k: int|
            VfioRegionSparseMmapArea {
                offset: spec_u64_at(b, o + 16 + 16 * k) as u64,
                size: spec_u64_at(b, o + 16 + 16 * k + 8) as u64,
            },
    )
}

/// The capability that the record at `o` holds: none for an id that is not known, an
/// error where the record does not fit in the buffer.
pub open spec fn spec_cap_at(b: Seq<u8>, o: int) -> Result<Option<RegionCapView>, VfioError> {
    let id = spec_u16_at(b, o);
    if id == 1 {
        if o + 16 > b.len() || o + 16 + 16 * spec_u32_at(b, o + 8) > b.len() {
            Err(VfioError::InvalidCapabilityChain)
        } else {
            Ok(
                Some(
                    RegionCapView::SparseMmap(
                        spec_sparse_areas_at(b, o, spec_u32_at(b, o + 8) as nat),
                    ),
                ),
            )
        }
    } else if id == 2 {
        if o + 16 > b.len() {
            Err(VfioError::InvalidCapabilityChain)
        } else {
            Ok(
                Some(
                    RegionCapView::Type(
                        VfioRegionCapType {
                            type_: spec_u32_at(b, o + 8) as u32,
                            subtype: spec_u32_at(b, o + 12) as u32,
                        },
                    ),
                ),
            )
        }
    } else if id == 3 {
        Ok(Some(RegionCapView::MsixMappable))
    } else if id == 4 {
        if o + 16 > b.len() {
            Err(VfioError::InvalidCapabilityChain)
        } else {
            Ok(
                Some(
                    RegionCapView::Nvlink2Ssatgt(
                        VfioRegionCapNvlink2Ssatgt { tgt: spec_u64_at(b, o + 8) as u64 },
                    ),
                ),
            )
        }
    } else if id == 5 {
        if o + 12 > b.len() {
            Err(VfioError::InvalidCapabilityChain)
        } else {
            Ok(
                Some(
                    RegionCapView::Nvlink2Lnkspd(
                        VfioRegionCapNvlink2Lnkspd { link_speed: spec_u32_at(b, o + 8) as u32 },
                    ),
                ),
            )
        }
    } else {
        Ok(None)
    }
}

/// The capabilities of the chain that starts at `o`, read in at most `fuel` steps. An
/// offset inside the fixed header ends the chain. A record that does not fit in the
/// buffer, or a chain of more than `fuel` records, is an error.
pub open spec fn spec_cap_chain(b: Seq<u8>, o: int, fuel: nat) -> Result<
    Seq<RegionCapView>,
    VfioError,
>
    decreases fuel,
{
    if o < 32 {
        Ok(Seq::<RegionCapView>::empty())
    } else if fuel == 0 || o + 8 > b.len() {
        Err(VfioError::InvalidCapabilityChain)
    } else {
        match spec_cap_at(b, o) {
            Err(e) => Err(e),
            Ok(cap) => match spec_cap_chain(b, spec_u32_at(b, o + 4), (fuel - 1) as nat) {
                Err(e) => Err(e),
                Ok(rest) => Ok(
                    match cap {
                        Some(c) => seq![c] + rest,
                        None => rest,
                    },
                ),
            },
        }
    }
}

/// True if a reply with these flags and this size is followed by capabilities, so that
/// the region has to be asked for again with room for them.
pub open spec fn spec_region_has_caps(flags: u32, argsz: u32) -> bool {
    flags & VFIO_REGION_INFO_FLAG_CAPS != 0 && argsz > 32
}

/// What a region reply says. The reply holds, at offsets 0, 4, 8, 12, 16 and 24: its
/// own size, the flags, the index, the offset of the first capability, the size of the
/// region and its offset in the device file. A chain cannot have more records than
/// the reply has bytes, so one that has is taken for a cycle.
pub open spec fn spec_parse_region_info(b: Seq<u8>) -> Result<RegionInfoView, VfioError> {
    if b.len() < 32 {
        Err(VfioError::InvalidCapabilityChain)
    } else {
        let flags = spec_u32_at(b, 4) as u32;
        let caps = if spec_region_has_caps(flags, spec_u32_at(b, 0) as u32) {
            spec_cap_chain(b, spec_u32_at(b, 12), b.len())
        } else {
            Ok(Seq::<RegionCapView>::empty())
        };
        match caps {
            Err(e) => Err(e),
            Ok(caps) => Ok(
                RegionInfoView {
                    flags,
                    index: spec_u32_at(b, 8) as u32,
                    size: spec_u64_at(b, 16) as u64,
                    offset: spec_u64_at(b, 24) as u64,
                    caps,
                },
            ),
        }
    }
}

/// True if a region reply with these flags and this size is followed by capabilities.
pub fn region_info_has_caps(flags: u32, argsz: u32) -> (b: bool)
    ensures
        b == spec_region_has_caps(flags, argsz),
{
    flags & VFIO_REGION_INFO_FLAG_CAPS != 0 && argsz > REGION_INFO_SIZE
}

/// Reads the areas of a sparse mmap record at `o`.
fn sparse_areas_at(b: &[u8], o: usize, n: u32) -> (areas: Vec<VfioRegionSparseMmapArea>)
    requires
        o + 16 + 16 * n <= b@.len(),
    ensures
        areas@ == spec_sparse_areas_at(b@, o as int, n as nat),
{
    let len: usize = b.len();
    let mut areas: Vec<VfioRegionSparseMmapArea> = Vec::new();
    let mut k: usize = 0;
    while k < n as usize
        invariant
            k <= n,
            len == b@.len(),
            o + 16 + 16 * n <= len,
            areas@ == spec_sparse_areas_at(b@, o as int, k as nat),
        decreases n - k,
    {
        let at: usize = o + 16 + 16 * k;
        let area = VfioRegionSparseMmapArea { offset: read_u64(b, at), size: read_u64(b, at + 8) };
        areas.push(area);
        k = k + 1;
        proof {
            assert(areas@ =~= spec_sparse_areas_at(b@, o as int, k as nat));
        }
    }
    areas
}

/// Reads the capability record at `o`.
fn cap_at(b: &[u8], o: usize) -> (r: Result<Option<VfioRegionCap>, VfioError>)
    requires
        o + 8 <= b@.len(),
    ensures
        match spec_cap_at(b@, o as int) {
            Ok(Some(c)) => r is Ok && r->Ok_0 is Some && r->Ok_0->Some_0@ == c,
            Ok(None) => r is Ok && r->Ok_0 is None,
            Err(e) => r == Err::<Option<VfioRegionCap>, VfioError>(e),
        },
{
    let len: usize = b.len();
    let id = read_u16(b, o);
    if id == 1 {
        if len - o < 16 {
            return Err(VfioError::InvalidCapabilityChain);
        }
        let n = read_u32(b, o + 8);
        if (len - o - 16) / 16 < n as usize {
            return Err(VfioError::InvalidCapabilityChain);
        }
        let areas = sparse_areas_at(b, o, n);
        Ok(Some(VfioRegionCap::SparseMmap(VfioRegionCapSparseMmap { areas })))
    } else if id == 2 {
        if len - o < 16 {
            return Err(VfioError::InvalidCapabilityChain);
        }
        Ok(
            Some(
                VfioRegionCap::Type(
                    VfioRegionCapType {
                        type_: read_u32(b, o + 8),
                        subtype: read_u32(b, o + 12),
                    },
                ),
            ),
        )
    } else if id == 3 {
        Ok(Some(VfioRegionCap::MsixMappable))
    } else if id == 4 {
        if len - o < 16 {
            return Err(VfioError::InvalidCapabilityChain);
        }
        Ok(Some(VfioRegionCap::Nvlink2Ssatgt(VfioRegionCapNvlink2Ssatgt { tgt: read_u64(b, o + 8) })))
    } else if id == 5 {
        if len - o < 12 {
            return Err(VfioError::InvalidCapabilityChain);
        }
        Ok(
            Some(
                VfioRegionCap::Nvlink2Lnkspd(
                    VfioRegionCapNvlink2Lnkspd { link_speed: read_u32(b, o + 8) },
                ),
            ),
        )
    } else {
        Ok(None)
    }
}

/// Reads the capability chain that starts at `start`.
fn cap_chain(b: &[u8], start: u32) -> (r: Result<Vec<VfioRegionCap>, VfioError>)
    ensures
        match spec_cap_chain(b@, start as int, b@.len()) {
            Ok(caps) => r is Ok && spec_caps_view(r->Ok_0@) == caps,
            Err(e) => r == Err::<Vec<VfioRegionCap>, VfioError>(e),
        },
{
    let len: usize = b.len();
    let mut caps: Vec<VfioRegionCap> = Vec::new();
    let mut o: u32 = start;
    let mut fuel: usize = len;
    proof {
        assert(spec_caps_view(caps@) =~= Seq::<RegionCapView>::empty());
        assert(Seq::<RegionCapView>::empty() + spec_cap_chain(b@, start as int, len as nat)->Ok_0
            =~= spec_cap_chain(b@, start as int, len as nat)->Ok_0);
    }
    while o >= REGION_INFO_SIZE
        invariant
            len == b@.len(),
            spec_cap_chain(b@, start as int, len as nat) == match spec_cap_chain(
                b@,
                o as int,
                fuel as nat,
            ) {
                Ok(rest) => Ok::<Seq<RegionCapView>, VfioError>(spec_caps_view(caps@) + rest),
                Err(e) => Err::<Seq<RegionCapView>, VfioError>(e),
            },
        decreases fuel,
    {
        let at: usize = o as usize;
        if fuel == 0 || at > len || len - at < 8 {
            return Err(VfioError::InvalidCapabilityChain);
        }
        let ghost before = spec_caps_view(caps@);
        match cap_at(b, at) {
            Err(e) => {
                return Err(e);
            },
            Ok(Some(c)) => {
                caps.push(c);
                proof {
                    assert(spec_caps_view(caps@) =~= before + seq![c@]);
                }
            },
            Ok(None) => {},
        }
        let next = read_u32(b, at + 4);
        proof {
            let rest = spec_cap_chain(b@, next as int, (fuel - 1) as nat);
            if rest is Ok {
                match spec_cap_at(b@, o as int)->Ok_0 {
                    Some(c) => {
                        assert(before + (seq![c] + rest->Ok_0) =~= (before + seq![c])
                            + rest->Ok_0);
                    },
                    None => {},
                }
            }
        }
        o = next;
        fuel = fuel - 1;
    }
    proof {
        assert(spec_caps_view(caps@) + Seq::<RegionCapView>::empty() =~= spec_caps_view(caps@));
    }
    Ok(caps)
}

/// Reads a region reply: the fixed header and, where the flags and the size of the
/// reply announce them, the capabilities that follow it.
pub fn parse_region_info(b: &[u8]) -> (r: Result<VfioRegionInfo, VfioError>)
    ensures
        match spec_parse_region_info(b@) {
            Ok(info) => r is Ok && r->Ok_0@ == info,
            Err(e) => r == Err::<VfioRegionInfo, VfioError>(e),
        },
{
    if b.len() < 32 {
        return Err(VfioError::InvalidCapabilityChain);
    }
    let argsz = read_u32(b, 0);
    let flags = read_u32(b, 4);
    let caps = if region_info_has_caps(flags, argsz) {
        match cap_chain(b, read_u32(b, 12)) {
            Ok(caps) => caps,
            Err(e) => {
                return Err(e);
            },
        }
    } else {
        let caps: Vec<VfioRegionCap> = Vec::new();
        proof {
            assert(spec_caps_view(caps@) =~= Seq::<RegionCapView>::empty());
        }
        caps
    };
    Ok(
        VfioRegionInfo {
            flags,
            index: read_u32(b, 8),
            size: read_u64(b, 16),
            offset: read_u64(b, 24),
            caps,
        },
    )
}

/// How the query for one region ended.
#[derive(Clone, Debug)]
pub enum RegionReply {
    /// The kernel refused the query with this error number.
    Failed(i32),
    /// The kernel answered with these bytes.
    Info(Vec<u8>),
}

/// True if a failed query for the region with this index is passed over: the kernel
/// did not know the index, and the index is that of the optional VGA region or beyond
/// it.
pub open spec fn spec_region_failure_tolerated(index: int, errno: i32) -> bool {
    errno == EINVAL && index >= VFIO_PCI_VGA_REGION_INDEX
}

/// The regions that the first `n` replies give, reply `i` being that for the region
/// with index `i`. A failure that is not passed over, or a reply that cannot be read,
/// ends the list with an error.
pub open spec fn spec_region_infos(replies: Seq<RegionReply>, n: nat) -> Result<
    Seq<RegionInfoView>,
    VfioError,
>
    decreases n,
{
    if n == 0 {
        Ok(Seq::<RegionInfoView>::empty())
    } else {
        match spec_region_infos(replies, (n - 1) as nat) {
            Err(e) => Err(e),
            Ok(done) => match replies[n - 1] {
                RegionReply::Failed(errno) => if spec_region_failure_tolerated(n - 1, errno) {
                    Ok(done)
                } else {
                    Err(VfioError::VfioDeviceGetRegionInfo(errno))
                },
                RegionReply::Info(bytes) => match spec_parse_region_info(bytes@) {
                    Err(e) => Err(e),
                    Ok(info) => Ok(done.push(info)),
                },
            },
        }
    }
}

/// Once the first `n` replies give an error, so do the first `m`, for every `m` from
/// `n` on, and it is the same error.
pub proof fn lemma_region_infos_error_stays(replies: Seq<RegionReply>, n: nat, m: nat)
    requires
        n <= m,
    ensures
        spec_region_infos(replies, n) is Err ==> spec_region_infos(replies, m)
            == spec_region_infos(replies, n),
    decreases m,
{
    if n < m {
        lemma_region_infos_error_stays(replies, n, (m - 1) as nat);
    }
}

/// Collects the regions of a device from the replies to its region queries, the reply
/// at position `i` being that for the region with index `i`.
///
/// A query that the kernel refused because it does not know the index is passed over
/// for the optional VGA region and the indices beyond it. Any other failure ends the
/// attach.
pub fn vfio_device_get_region_infos(replies: &Vec<RegionReply>) -> (r: Result<
    Vec<VfioRegionInfo>,
    VfioError,
>)
    ensures
        match spec_region_infos(replies@, replies@.len()) {
            Ok(infos) => r is Ok && spec_regions_view(r->Ok_0@) == infos,
            Err(e) => r == Err::<Vec<VfioRegionInfo>, VfioError>(e),
        },
{
    let mut regions: Vec<VfioRegionInfo> = Vec::new();
    let mut i: usize = 0;
    proof {
        assert(spec_regions_view(regions@) =~= Seq::<RegionInfoView>::empty());
    }
    while i < replies.len()
        invariant
            i <= replies@.len(),
            spec_region_infos(replies@, i as nat) == Ok::<Seq<RegionInfoView>, VfioError>(
                spec_regions_view(regions@),
            ),
        decreases replies@.len() - i,
    {
        proof {
            lemma_region_infos_error_stays(replies@, (i + 1) as nat, replies@.len());
        }
        let ghost before = spec_regions_view(regions@);
        match &replies[i] {
            RegionReply::Failed(errno) => {
                if !(*errno == EINVAL && i >= VFIO_PCI_VGA_REGION_INDEX as usize) {
                    return Err(VfioError::VfioDeviceGetRegionInfo(*errno));
                }
            },
            RegionReply::Info(bytes) => {
                match parse_region_info(bytes.as_slice()) {
                    Err(e) => {
                        return Err(e);
                    },
                    Ok(info) => {
                        regions.push(info);
                        proof {
                            assert(spec_regions_view(regions@) =~= before.push(info@));
                        }
                    },
                }
            },
        }
        i = i + 1;
    }
    Ok(regions)
}

/// Where in the device file an access of `len` bytes at `offset` of the region at
/// place `index` is made: at the offset of the region plus `offset`. An index that
/// names no region, and an access that reaches beyond the end of the region or of the
/// device file, are refused.
pub open spec fn spec_region_access(
    regions: Seq<VfioRegionInfo>,
    index: u32,
    offset: u64,
    len: usize,
) -> Result<u64, VfioError> {
    if index >= regions.len() {
        Err(VfioError::InvalidRegionIndex(index))
    } else if offset + len > regions[index as int].size || regions[index as int].offset + offset
        + len > u64::MAX {
        Err(VfioError::RegionAccessOutOfBounds)
    } else {
        Ok((regions[index as int].offset + offset) as u64)
    }
}

/// Says where in the device file a read of a region is made, or why it cannot be
/// made.
pub fn vfio_device_region_read(
    region_infos: &Vec<VfioRegionInfo>,
    index: u32,
    offset: u64,
    len: usize,
) -> (r: Result<u64, VfioError>)
    ensures
        r == spec_region_access(region_infos@, index, offset, len),
{
    if index as usize >= region_infos.len() {
        return Err(VfioError::InvalidRegionIndex(index));
    }
    let region = &region_infos[index as usize];
    if offset > region.size || len as u64 > region.size - offset || region.offset > u64::MAX
        - offset - len as u64 {
        return Err(VfioError::RegionAccessOutOfBounds);
    }
    Ok(region.offset + offset)
}

/// Says where in the device file a write of a region is made, or why it cannot be
/// made.
pub fn vfio_device_region_write(
    region_infos: &Vec<VfioRegionInfo>,
    index: u32,
    offset: u64,
    len: usize,
) -> (r: Result<u64, VfioError>)
    ensures
        r == spec_region_access(region_infos@, index, offset, len),
{
    vfio_device_region_read(region_infos, index, offset, len)
}

/// How the query for one interrupt ended.
#[derive(Copy, Clone, Debug, PartialEq, Eq, Structural)]
pub enum IrqReply {
    /// The kernel refused the query with this error number.
    Failed(i32),
    /// The kernel answered.
    Info(VfioIrqInfo),
}

/// The interrupts that the first `n` replies give. A failure ends the list with an
/// error.
pub open spec fn spec_irq_infos(replies: Seq<IrqReply>, n: nat) -> Result<
    Seq<VfioIrqInfo>,
    VfioError,
>
    decreases n,
{
    if n == 0 {
        Ok(Seq::<VfioIrqInfo>::empty())
    } else {
        match spec_irq_infos(replies, (n - 1) as nat) {
            Err(e) => Err(e),
            Ok(done) => match replies[n - 1] {
                IrqReply::Failed(errno) => Err(VfioError::VfioDeviceGetIrqInfo(errno)),
                IrqReply::Info(info) => Ok(done.push(info)),
            },
        }
    }
}

/// Once the first `n` replies give an error, so do the first `m`, for every `m` from
/// `n` on, and it is the same error.
pub proof fn lemma_irq_infos_error_stays(replies: Seq<IrqReply>, n: nat, m: nat)
    requires
        n <= m,
    ensures
        spec_irq_infos(replies, n) is Err ==> spec_irq_infos(replies, m) == spec_irq_infos(
            replies,
            n,
        ),
    decreases m,
{
    if n < m {
        lemma_irq_infos_error_stays(replies, n, (m - 1) as nat);
    }
}

/// Collects the interrupts of a device from the replies to its interrupt queries, in
/// order. The first failure ends the attach.
pub fn vfio_device_get_irq_infos(replies: &Vec<IrqReply>) -> (r: Result<
    Vec<VfioIrqInfo>,
    VfioError,
>)
    ensures
        match spec_irq_infos(replies@, replies@.len()) {
            Ok(infos) => r is Ok && r->Ok_0@ == infos,
            Err(e) => r == Err::<Vec<VfioIrqInfo>, VfioError>(e),
        },
{
    let mut irqs: Vec<VfioIrqInfo> = Vec::new();
    let mut i: usize = 0;
    while i < replies.len()
        invariant
            i <= replies@.len(),
            spec_irq_infos(replies@, i as nat) == Ok::<Seq<VfioIrqInfo>, VfioError>(irqs@),
        decreases replies@.len() - i,
    {
        proof {
            lemma_irq_infos_error_stays(replies@, (i + 1) as nat, replies@.len());
        }
        match replies[i] {
            IrqReply::Failed(errno) => {
                return Err(VfioError::VfioDeviceGetIrqInfo(errno));
            },
            IrqReply::Info(info) => {
                irqs.push(info);
            },
        }
        i = i + 1;
    }
    Ok(irqs)
}

} // verus!
