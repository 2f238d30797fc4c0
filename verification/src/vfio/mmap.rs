//! Which parts of the BARs of a device are mapped into the guest, and which pages are
//! kept back because they hold the MSI-X table or the pending bit array.
use vstd::prelude::*;
use crate::bits::lemma_page_mask;
use crate::vfio::error::VfioError;
use crate::vfio::BarHoleInfo;
use crate::vfio::BarHoleInfoUsage;
use crate::vfio::BarInfo;
use crate::vfio::MsixCap;
use crate::vfio::VfioRegionCap;
use crate::vfio::VfioRegionInfo;
use crate::vfio::VfioRegionSparseMmapArea;
use crate::vfio::VFIO_REGION_INFO_FLAG_MMAP;
use crate::vfio::VFIO_REGION_INFO_FLAG_READ;
use crate::vfio::VFIO_REGION_INFO_FLAG_WRITE;

verus! {

/// One area of a BAR that is to be mapped from the device file into the guest.
#[derive(Copy, Clone, Debug, PartialEq, Eq, Structural)]
pub struct BarMapping {
    /// Index of the BAR the area belongs to.
    pub bar_idx: u32,
    /// Offset of the area within the device file.
    pub file_offset: u64,
    /// Size of the area in bytes.
    pub size: u64,
    /// Guest physical address at which the area appears.
    pub gpa: u64,
    /// True if the guest may read the area.
    pub readable: bool,
    /// True if the guest may write the area.
    pub writable: bool,
}

/// The holes of all BARs of a device and the areas to map.
#[derive(Clone, Debug)]
pub struct BarMappingPlan {
    /// Pages that stay trapped, in BAR order, the table before the pending bit array.
    pub holes: Vec<BarHoleInfo>,
    /// Areas to map, in BAR order and within a BAR in area order.
    pub mappings: Vec<BarMapping>,
}

/// A range of a BAR that is kept back: where it starts, how long it is, and where in
/// it the structure it protects begins. A length of zero stands for no range.
#[derive(Copy, Clone, Debug, PartialEq, Eq, Structural)]
pub struct Gap {
    /// Offset of the first byte within the BAR.
    pub start: u64,
    /// Length in bytes.
    pub size: u64,
    /// Offset of the protected structure within the range.
    pub offset_in_hole: u64,
}

/// `v` rounded down to a page boundary.
pub open spec fn spec_page_down(v: int) -> int {
    v - v % 4096
}

/// `v` rounded up to a page boundary.
pub open spec fn spec_page_up(v: int) -> int {
    spec_page_down(v + 4095)
}

/// The pages that a structure of `size` bytes at `offset` touches.
pub open spec fn spec_gap_of(offset: int, size: int) -> Gap {
    Gap {
        start: spec_page_down(offset) as u64,
        size: (spec_page_up(offset + size) - spec_page_down(offset)) as u64,
        offset_in_hole: (offset - spec_page_down(offset)) as u64,
    }
}

/// No range.
pub open spec fn spec_no_gap() -> Gap {
    Gap { start: 0, size: 0, offset_in_hole: 0 }
}

/// The pages of the region with index `region_index` that hold the MSI-X table.
pub open spec fn spec_table_gap(region_index: u32, msix: Option<MsixCap>) -> Gap {
    match msix {
        Some(cap) => if region_index == cap.spec_table_bir() {
            spec_gap_of(cap.spec_table_range().0, cap.spec_table_range().1)
        } else {
            spec_no_gap()
        },
        None => spec_no_gap(),
    }
}

/// The pages of the region with index `region_index` that hold the pending bit array.
pub open spec fn spec_pba_gap(region_index: u32, msix: Option<MsixCap>) -> Gap {
    match msix {
        Some(cap) => if region_index == cap.spec_pba_bir() {
            spec_gap_of(cap.spec_pba_range().0, cap.spec_pba_range().1)
        } else {
            spec_no_gap()
        },
        None => spec_no_gap(),
    }
}

/// The length in bytes of the MSI-X table.
pub open spec fn spec_table_len(msix: Option<MsixCap>) -> int {
    match msix {
        Some(cap) => cap.spec_table_range().1,
        None => 0,
    }
}

/// The length in bytes of the pending bit array.
pub open spec fn spec_pba_len(msix: Option<MsixCap>) -> int {
    match msix {
        Some(cap) => cap.spec_pba_range().1,
        None => 0,
    }
}

/// True if the structure of `len` bytes that the range is kept back for lies inside a
/// BAR of `bar_size` bytes. No range keeps nothing back.
pub open spec fn spec_gap_fits(gap: Gap, len: int, bar_size: u64) -> bool {
    gap.size == 0 || gap.start + gap.offset_in_hole + len <= bar_size
}

/// The part of a kept back range that lies in a BAR of `bar_size` bytes: the pages
/// around a structure at the end of a BAR that does not end at a page boundary end
/// with the BAR.
pub open spec fn spec_clip(gap: Gap, bar_size: u64) -> Gap {
    if gap.start + gap.size <= bar_size {
        gap
    } else if gap.start <= bar_size {
        Gap { size: (bar_size - gap.start) as u64, ..gap }
    } else {
        Gap { size: 0, ..gap }
    }
}

/// The hole that a kept back range makes in a BAR at `gpa`.
pub open spec fn spec_hole(gpa: u64, gap: Gap, usage: BarHoleInfoUsage) -> BarHoleInfo {
    BarHoleInfo {
        gpa: (gpa + gap.start) as u64,
        size: gap.size,
        offset_in_hole: gap.offset_in_hole,
        usage,
    }
}

/// The holes of one BAR: the table's, if the BAR holds the table, then the pending bit
/// array's, if it holds that.
pub open spec fn spec_bar_holes(bar: BarInfo, table: Gap, pba: Gap) -> Seq<BarHoleInfo> {
    let t = if table.size != 0 {
        seq![spec_hole(bar.gpa, table, BarHoleInfoUsage::Table)]
    } else {
        Seq::<BarHoleInfo>::empty()
    };
    let p = if pba.size != 0 {
        seq![spec_hole(bar.gpa, pba, BarHoleInfoUsage::Pba)]
    } else {
        Seq::<BarHoleInfo>::empty()
    };
    t + p
}

/// True if one of the capabilities says that the region may be mapped although it
/// holds the MSI-X table.
pub open spec fn spec_has_msix_mappable(caps: Seq<VfioRegionCap>) -> bool {
    exists|i: int| 0 <= i < caps.len() && #[trigger] caps[i] is MsixMappable
}

/// The areas of the last sparse mmap capability, if there is one.
pub open spec fn spec_sparse_areas(caps: Seq<VfioRegionCap>) -> Option<
    Seq<VfioRegionSparseMmapArea>,
>
    decreases caps.len(),
{
    if caps.len() == 0 {
        None
    } else {
        match caps.last() {
            VfioRegionCap::SparseMmap(c) => Some(c.areas@),
            _ => spec_sparse_areas(caps.drop_last()),
        }
    }
}

/// What is left of `[0, region_size)` when two kept back ranges are taken out: up to
/// three areas, in ascending order.
pub open spec fn spec_gap_areas(a: Gap, b: Gap, region_size: u64) -> Seq<
    VfioRegionSparseMmapArea,
> {
    let first = if b.start < a.start {
        b
    } else {
        a
    };
    let second = if b.start < a.start {
        a
    } else {
        b
    };
    let s1 = if first.size != 0 && first.start > 0 {
        seq![VfioRegionSparseMmapArea { offset: 0, size: first.start }]
    } else {
        Seq::<VfioRegionSparseMmapArea>::empty()
    };
    let o1: int = if first.size != 0 {
        first.start + first.size
    } else {
        0
    };
    let s2 = if second.size != 0 && second.start > o1 {
        seq![VfioRegionSparseMmapArea { offset: o1 as u64, size: (second.start - o1) as u64 }]
    } else {
        Seq::<VfioRegionSparseMmapArea>::empty()
    };
    let o2: int = if second.size != 0 && second.start + second.size > o1 {
        second.start + second.size
    } else {
        o1
    };
    let s3 = if region_size > o2 {
        seq![VfioRegionSparseMmapArea { offset: o2 as u64, size: (region_size - o2) as u64 }]
    } else {
        Seq::<VfioRegionSparseMmapArea>::empty()
    };
    s1 + s2 + s3
}

/// The areas of a region that are candidates for mapping: those of its sparse mmap
/// capability; else, where the region may be mapped around the MSI-X structures, what
/// the kept back ranges leave; else the whole region.
pub open spec fn spec_candidate_areas(region: VfioRegionInfo, table: Gap, pba: Gap) -> Seq<
    VfioRegionSparseMmapArea,
> {
    match spec_sparse_areas(region.caps@) {
        Some(areas) => areas,
        None => if spec_has_msix_mappable(region.caps@) {
            spec_gap_areas(table, pba, region.size)
        } else {
            seq![VfioRegionSparseMmapArea { offset: 0, size: region.size }]
        },
    }
}

/// True if anything of the region is mapped at all: it must be mappable, and where it
/// holds an MSI-X structure it must say how to map around it.
pub open spec fn spec_region_is_mapped(region: VfioRegionInfo, table: Gap, pba: Gap) -> bool {
    let sparse = spec_sparse_areas(region.caps@) is Some;
    let holds_msix = table.size != 0 || pba.size != 0;
    !(holds_msix && !spec_has_msix_mappable(region.caps@) && !sparse) && (region.flags
        & VFIO_REGION_INFO_FLAG_MMAP != 0 || sparse)
}

/// True if the area can be mapped: not empty, page aligned, inside its region.
pub open spec fn spec_area_valid(area: VfioRegionSparseMmapArea, region_size: u64) -> bool {
    &&& area.size > 0
    &&& area.size % 4096 == 0
    &&& area.offset % 4096 == 0
    &&& area.offset + area.size <= region_size
}

/// True if the area shares a byte with the kept back range.
pub open spec fn spec_area_overlaps(area: VfioRegionSparseMmapArea, gap: Gap) -> bool {
    gap.size != 0 && area.offset < gap.start + gap.size && gap.start < area.offset + area.size
}

/// True if the area fits below the end of the address space, in the device file and in
/// the guest.
pub open spec fn spec_area_fits(bar: BarInfo, region: VfioRegionInfo, area: VfioRegionSparseMmapArea) -> bool {
    region.offset + area.offset + area.size <= u64::MAX && bar.gpa + area.offset + area.size
        <= u64::MAX
}

/// The mapping of one area.
pub open spec fn spec_area_mapping(bar: BarInfo, region: VfioRegionInfo, area: VfioRegionSparseMmapArea) -> BarMapping {
    BarMapping {
        bar_idx: bar.idx,
        file_offset: (region.offset + area.offset) as u64,
        size: area.size,
        gpa: (bar.gpa + area.offset) as u64,
        readable: region.flags & VFIO_REGION_INFO_FLAG_READ != 0,
        writable: region.flags & VFIO_REGION_INFO_FLAG_WRITE != 0,
    }
}

/// The mappings of the first `n` candidate areas: an area that cannot be mapped ends
/// the plan with an error, one that shares a byte with a kept back range is left out.
pub open spec fn spec_area_mappings(
    bar: BarInfo,
    region: VfioRegionInfo,
    areas: Seq<VfioRegionSparseMmapArea>,
    table: Gap,
    pba: Gap,
    n: nat,
) -> Result<Seq<BarMapping>, VfioError>
    decreases n,
{
    if n == 0 {
        Ok(Seq::<BarMapping>::empty())
    } else {
        match spec_area_mappings(bar, region, areas, table, pba, (n - 1) as nat) {
            Err(e) => Err(e),
            Ok(done) => {
                let area = areas[n - 1];
                if !spec_area_valid(area, region.size) || area.offset + area.size > bar.size {
                    Err(VfioError::InvalidMmapArea(bar.idx))
                } else if !spec_area_fits(bar, region, area) {
                    Err(VfioError::AddressOverflow(bar.idx))
                } else if spec_area_overlaps(area, table) || spec_area_overlaps(area, pba) {
                    Ok(done)
                } else {
                    Ok(done.push(spec_area_mapping(bar, region, area)))
                }
            },
        }
    }
}

/// The holes and mappings of one BAR. A BAR that is to hold the MSI-X table or the
/// pending bit array and is too small for it is refused, and so is one that reaches
/// beyond the last address. The holes are the pages of the BAR that the structures
/// touch; they end with the BAR where its last page is not whole.
pub open spec fn spec_bar_plan(
    bar: BarInfo,
    regions: Seq<VfioRegionInfo>,
    msix: Option<MsixCap>,
) -> Result<(Seq<BarHoleInfo>, Seq<BarMapping>), VfioError> {
    if bar.idx >= regions.len() {
        Err(VfioError::InvalidRegionIndex(bar.idx))
    } else {
        let region = regions[bar.idx as int];
        let table = spec_clip(spec_table_gap(region.index, msix), bar.size);
        let pba = spec_clip(spec_pba_gap(region.index, msix), bar.size);
        if !spec_gap_fits(spec_table_gap(region.index, msix), spec_table_len(msix), bar.size)
            || !spec_gap_fits(spec_pba_gap(region.index, msix), spec_pba_len(msix), bar.size) {
            Err(VfioError::MsixOutsideBar(bar.idx))
        } else if bar.gpa + bar.size > u64::MAX {
            Err(VfioError::AddressOverflow(bar.idx))
        } else if !spec_region_is_mapped(region, table, pba) {
            Ok((spec_bar_holes(bar, table, pba), Seq::<BarMapping>::empty()))
        } else {
            let areas = spec_candidate_areas(region, table, pba);
            match spec_area_mappings(bar, region, areas, table, pba, areas.len()) {
                Err(e) => Err(e),
                Ok(m) => Ok((spec_bar_holes(bar, table, pba), m)),
            }
        }
    }
}

/// The holes and mappings of the first `n` BARs: the first BAR that fails ends the
/// plan with its error.
pub open spec fn spec_mmap_bars(
    bars: Seq<BarInfo>,
    regions: Seq<VfioRegionInfo>,
    msix: Option<MsixCap>,
    n: nat,
) -> Result<(Seq<BarHoleInfo>, Seq<BarMapping>), VfioError>
    decreases n,
{
    if n == 0 {
        Ok((Seq::<BarHoleInfo>::empty(), Seq::<BarMapping>::empty()))
    } else {
        match spec_mmap_bars(bars, regions, msix, (n - 1) as nat) {
            Err(e) => Err(e),
            Ok((holes, mappings)) => match spec_bar_plan(bars[n - 1], regions, msix) {
                Err(e) => Err(e),
                Ok((h, m)) => Ok((holes + h, mappings + m)),
            },
        }
    }
}

/// Rounds `v` down to a page boundary.
pub fn align_page_size_down(v: u64) -> (r: u64)
    ensures
        r == spec_page_down(v as int),
        r <= v,
        r % 4096 == 0,
{
    proof {
        lemma_page_mask(v);
    }
    v & !4095u64
}

/// Rounds `v` up to a page boundary.
pub fn align_page_size_up(v: u64) -> (r: u64)
    requires
        v + 4095 <= u64::MAX,
    ensures
        r == spec_page_up(v as int),
        v <= r < v + 4096,
        r % 4096 == 0,
{
    align_page_size_down(v + 4095)
}

/// The pages that a structure of `size` bytes at `offset` touches.
fn gap_of(offset: u64, size: u64) -> (gap: Gap)
    requires
        offset <= u32::MAX,
        size <= u32::MAX,
    ensures
        gap == spec_gap_of(offset as int, size as int),
        gap.start % 4096 == 0,
        gap.size % 4096 == 0,
        gap.start <= offset,
        offset + size <= gap.start + gap.size,
        gap.start + gap.offset_in_hole == offset,
        size > 0 ==> gap.size > 0,
{
    let start = align_page_size_down(offset);
    let end = align_page_size_up(offset + size);
    Gap { start, size: end - start, offset_in_hole: offset - start }
}

/// The pages of the region that hold the MSI-X table, if it holds the table.
fn table_gap(region_index: u32, msix_cap: Option<&MsixCap>) -> (gap: Gap)
    ensures
        gap == spec_table_gap(
            region_index,
            match msix_cap {
                Some(c) => Some(*c),
                None => None,
            },
        ),
        gap.start + gap.size <= 0x1_0000_0000 + 0x10000,
        gap.start % 4096 == 0,
        gap.size % 4096 == 0,
{
    match msix_cap {
        Some(cap) => {
            if region_index == cap.table_bir() {
                let (offset, size) = cap.table_range();
                gap_of(offset, size)
            } else {
                Gap { start: 0, size: 0, offset_in_hole: 0 }
            }
        },
        None => Gap { start: 0, size: 0, offset_in_hole: 0 },
    }
}

/// The pages of the region that hold the pending bit array, if it holds that.
fn pba_gap(region_index: u32, msix_cap: Option<&MsixCap>) -> (gap: Gap)
    ensures
        gap == spec_pba_gap(
            region_index,
            match msix_cap {
                Some(c) => Some(*c),
                None => None,
            },
        ),
        gap.start + gap.size <= 0x1_0000_0000 + 0x10000,
        gap.start % 4096 == 0,
        gap.size % 4096 == 0,
{
    match msix_cap {
        Some(cap) => {
            if region_index == cap.pba_bir() {
                let (offset, size) = cap.pba_range();
                gap_of(offset, size)
            } else {
                Gap { start: 0, size: 0, offset_in_hole: 0 }
            }
        },
        None => Gap { start: 0, size: 0, offset_in_hole: 0 },
    }
}

/// True if one of the capabilities is `MsixMappable`.
fn has_msix_mappable(caps: &Vec<VfioRegionCap>) -> (found: bool)
    ensures
        found == spec_has_msix_mappable(caps@),
{
    let mut i: usize = 0;
    while i < caps.len()
        invariant
            i <= caps@.len(),
            forall|j: int| 0 <= j < i ==> !(#[trigger] caps@[j] is MsixMappable),
        decreases caps@.len() - i,
    {
        match &caps[i] {
            VfioRegionCap::MsixMappable => {
                return true;
            },
            _ => {},
        }
        i = i + 1;
    }
    false
}

/// The areas of the last sparse mmap capability, if there is one.
fn sparse_areas(caps: &Vec<VfioRegionCap>) -> (found: Option<&Vec<VfioRegionSparseMmapArea>>)
    ensures
        match found {
            Some(areas) => spec_sparse_areas(caps@) == Some(areas@),
            None => spec_sparse_areas(caps@) is None,
        },
{
    let mut i: usize = caps.len();
    proof {
        assert(caps@.take(i as int) == caps@);
    }
    while i > 0
        invariant
            i <= caps@.len(),
            spec_sparse_areas(caps@) == spec_sparse_areas(caps@.take(i as int)),
        decreases i,
    {
        proof {
            assert(caps@.take(i as int).drop_last() == caps@.take(i as int - 1));
            assert(caps@.take(i as int).last() == caps@[i as int - 1]);
        }
        match &caps[i - 1] {
            VfioRegionCap::SparseMmap(c) => {
                return Some(&c.areas);
            },
            _ => {},
        }
        i = i - 1;
    }
    proof {
        assert(caps@.take(0).len() == 0);
    }
    None
}

/// What is left of `[0, region_size)` when two kept back ranges are taken out.
fn gap_areas(a: Gap, b: Gap, region_size: u64) -> (areas: Vec<VfioRegionSparseMmapArea>)
    requires
        a.start + a.size <= u64::MAX,
        b.start + b.size <= u64::MAX,
    ensures
        areas@ == spec_gap_areas(a, b, region_size),
{
    let (first, second) = if b.start < a.start {
        (b, a)
    } else {
        (a, b)
    };
    let mut areas: Vec<VfioRegionSparseMmapArea> = Vec::new();
    let mut offset: u64 = 0;
    if first.size != 0 {
        if first.start > 0 {
            areas.push(VfioRegionSparseMmapArea { offset: 0, size: first.start });
        }
        offset = first.start + first.size;
    }
    if second.size != 0 {
        if second.start > offset {
            areas.push(VfioRegionSparseMmapArea { offset, size: second.start - offset });
        }
        if second.start + second.size > offset {
            offset = second.start + second.size;
        }
    }
    if region_size > offset {
        areas.push(VfioRegionSparseMmapArea { offset, size: region_size - offset });
    }
    proof {
        assert(areas@ =~= spec_gap_areas(a, b, region_size));
    }
    areas
}

/// Adds the mappings of the candidate areas of one BAR to `mappings`.
fn map_areas(
    bar: &BarInfo,
    region: &VfioRegionInfo,
    areas: &Vec<VfioRegionSparseMmapArea>,
    table: Gap,
    pba: Gap,
    mappings: &mut Vec<BarMapping>,
) -> (r: Result<(), VfioError>)
    requires
        table.start + table.size <= u64::MAX,
        pba.start + pba.size <= u64::MAX,
    ensures
        match spec_area_mappings(*bar, *region, areas@, table, pba, areas@.len()) {
            Ok(m) => r is Ok && final(mappings)@ == old(mappings)@ + m,
            Err(e) => r == Err::<(), VfioError>(e),
        },
{
    let mut i: usize = 0;
    while i < areas.len()
        invariant
            i <= areas@.len(),
            table.start + table.size <= u64::MAX,
            pba.start + pba.size <= u64::MAX,
            spec_area_mappings(*bar, *region, areas@, table, pba, i as nat) is Ok,
            mappings@ == old(mappings)@ + spec_area_mappings(
                *bar,
                *region,
                areas@,
                table,
                pba,
                i as nat,
            )->Ok_0,
        decreases areas@.len() - i,
    {
        let area = areas[i];
        proof {
            lemma_page_mask(area.size);
            lemma_page_mask(area.offset);
            lemma_area_mappings_error_stays(
                *bar,
                *region,
                areas@,
                table,
                pba,
                (i + 1) as nat,
                areas@.len(),
            );
        }
        if area.size == 0 || area.size & 4095 != 0 || area.offset & 4095 != 0 || area.size
            > region.size || area.offset > region.size - area.size || area.size > bar.size
            || area.offset > bar.size - area.size {
            return Err(VfioError::InvalidMmapArea(bar.idx));
        }
        if region.offset > u64::MAX - area.offset - area.size || bar.gpa > u64::MAX - area.offset
            - area.size {
            return Err(VfioError::AddressOverflow(bar.idx));
        }
        let end: u64 = area.offset + area.size;
        let hits_table = table.size != 0 && area.offset < table.start + table.size && table.start
            < end;
        let hits_pba = pba.size != 0 && area.offset < pba.start + pba.size && pba.start < end;
        if !hits_table && !hits_pba {
            mappings.push(
                BarMapping {
                    bar_idx: bar.idx,
                    file_offset: region.offset + area.offset,
                    size: area.size,
                    gpa: bar.gpa + area.offset,
                    readable: region.flags & VFIO_REGION_INFO_FLAG_READ != 0,
                    writable: region.flags & VFIO_REGION_INFO_FLAG_WRITE != 0,
                },
            );
        }
        proof {
            let next = spec_area_mappings(*bar, *region, areas@, table, pba, (i + 1) as nat);
            assert(next is Ok);
            assert(mappings@ =~= old(mappings)@ + next->Ok_0);
        }
        i = i + 1;
    }
    Ok(())
}

/// Once the first `n` areas give an error, so do the first `m`, for every `m` from `n`
/// on, and it is the same error.
pub proof fn lemma_area_mappings_error_stays(
    bar: BarInfo,
    region: VfioRegionInfo,
    areas: Seq<VfioRegionSparseMmapArea>,
    table: Gap,
    pba: Gap,
    n: nat,
    m: nat,
)
    requires
        n <= m,
    ensures
        spec_area_mappings(bar, region, areas, table, pba, n) is Err ==> spec_area_mappings(
            bar,
            region,
            areas,
            table,
            pba,
            m,
        ) == spec_area_mappings(bar, region, areas, table, pba, n),
    decreases m,
{
    if n < m {
        lemma_area_mappings_error_stays(bar, region, areas, table, pba, n, (m - 1) as nat);
    }
}

/// Once the first `n` BARs give an error, so do the first `m`, for every `m` from `n`
/// on, and it is the same error.
pub proof fn lemma_mmap_bars_error_stays(
    bars: Seq<BarInfo>,
    regions: Seq<VfioRegionInfo>,
    msix: Option<MsixCap>,
    n: nat,
    m: nat,
)
    requires
        n <= m,
    ensures
        spec_mmap_bars(bars, regions, msix, n) is Err ==> spec_mmap_bars(bars, regions, msix, m)
            == spec_mmap_bars(bars, regions, msix, n),
    decreases m,
{
    if n < m {
        lemma_mmap_bars_error_stays(bars, regions, msix, n, (m - 1) as nat);
    }
}

/// Says whether the structure that a range is kept back for lies inside the BAR.
fn gap_fits(gap: Gap, len: u64, bar_size: u64) -> (b: bool)
    requires
        gap.start + gap.offset_in_hole + len <= u64::MAX,
    ensures
        b == spec_gap_fits(gap, len as int, bar_size),
{
    gap.size == 0 || gap.start + gap.offset_in_hole + len <= bar_size
}

/// Cuts a kept back range off at the end of the BAR.
fn clip(gap: Gap, bar_size: u64) -> (r: Gap)
    requires
        gap.start + gap.size <= u64::MAX,
    ensures
        r == spec_clip(gap, bar_size),
{
    if gap.start + gap.size <= bar_size {
        gap
    } else if gap.start <= bar_size {
        Gap { start: gap.start, size: bar_size - gap.start, offset_in_hole: gap.offset_in_hole }
    } else {
        Gap { start: gap.start, size: 0, offset_in_hole: gap.offset_in_hole }
    }
}

/// Adds the holes and mappings of one BAR.
fn plan_bar(
    bar: &BarInfo,
    region_infos: &Vec<VfioRegionInfo>,
    msix_cap: Option<&MsixCap>,
    holes: &mut Vec<BarHoleInfo>,
    mappings: &mut Vec<BarMapping>,
) -> (r: Result<(), VfioError>)
    ensures
        match spec_bar_plan(
            *bar,
            region_infos@,
            match msix_cap {
                Some(c) => Some(*c),
                None => None,
            },
        ) {
            Ok((h, m)) => r is Ok && final(holes)@ == old(holes)@ + h && final(mappings)@ == old(
                mappings,
            )@ + m,
            Err(e) => r == Err::<(), VfioError>(e),
        },
{
    if bar.idx as usize >= region_infos.len() {
        return Err(VfioError::InvalidRegionIndex(bar.idx));
    }
    let region = &region_infos[bar.idx as usize];
    let whole_table = table_gap(region.index, msix_cap);
    let whole_pba = pba_gap(region.index, msix_cap);
    let (table_len, pba_len): (u64, u64) = match msix_cap {
        Some(cap) => (cap.table_range().1, cap.pba_range().1),
        None => (0, 0),
    };
    if !gap_fits(whole_table, table_len, bar.size) || !gap_fits(whole_pba, pba_len, bar.size) {
        return Err(VfioError::MsixOutsideBar(bar.idx));
    }
    if bar.gpa > u64::MAX - bar.size {
        return Err(VfioError::AddressOverflow(bar.idx));
    }
    let table = clip(whole_table, bar.size);
    let pba = clip(whole_pba, bar.size);
    let ghost holes0 = holes@;
    if table.size != 0 {
        holes.push(
            BarHoleInfo {
                gpa: bar.gpa + table.start,
                size: table.size,
                offset_in_hole: table.offset_in_hole,
                usage: BarHoleInfoUsage::Table,
            },
        );
    }
    if pba.size != 0 {
        holes.push(
            BarHoleInfo {
                gpa: bar.gpa + pba.start,
                size: pba.size,
                offset_in_hole: pba.offset_in_hole,
                usage: BarHoleInfoUsage::Pba,
            },
        );
    }
    proof {
        assert(holes@ =~= holes0 + spec_bar_holes(*bar, table, pba));
    }
    let mappable = has_msix_mappable(&region.caps);
    let sparse = sparse_areas(&region.caps);
    let holds_msix = table.size != 0 || pba.size != 0;
    if holds_msix && !mappable && sparse.is_none() {
        proof {
            assert(mappings@ =~= old(mappings)@ + Seq::<BarMapping>::empty());
        }
        return Ok(());
    }
    if region.flags & VFIO_REGION_INFO_FLAG_MMAP == 0 && sparse.is_none() {
        proof {
            assert(mappings@ =~= old(mappings)@ + Seq::<BarMapping>::empty());
        }
        return Ok(());
    }
    match sparse {
        Some(areas) => map_areas(bar, region, areas, table, pba, mappings),
        None => {
            if mappable {
                let areas = gap_areas(table, pba, region.size);
                map_areas(bar, region, &areas, table, pba, mappings)
            } else {
                let mut areas: Vec<VfioRegionSparseMmapArea> = Vec::new();
                areas.push(VfioRegionSparseMmapArea { offset: 0, size: region.size });
                proof {
                    assert(areas@ =~= seq![
                        VfioRegionSparseMmapArea { offset: 0, size: region.size },
                    ]);
                }
                map_areas(bar, region, &areas, table, pba, mappings)
            }
        },
    }
}

/// Plans how the BARs of a device appear in the guest.
///
/// For each BAR in turn: the pages that hold the MSI-X table or the pending bit array
/// become holes, which stay trapped; of the rest, each mappable area becomes a mapping
/// from the device file to the guest address of the BAR plus the offset of the area.
/// A region that holds an MSI-X structure and says neither that it may be mapped
/// around it nor which areas may be mapped is not mapped at all. The first BAR that
/// names no region, or has an area that cannot be mapped, ends the plan with an
/// error. Every hole lies in the BAR that it was made for.
pub fn mmap_bars(
    bar_infos: &Vec<BarInfo>,
    region_infos: &Vec<VfioRegionInfo>,
    msix_cap: Option<&MsixCap>,
) -> (plan: Result<BarMappingPlan, VfioError>)
    ensures
        match spec_mmap_bars(
            bar_infos@,
            region_infos@,
            match msix_cap {
                Some(c) => Some(*c),
                None => None,
            },
            bar_infos@.len(),
        ) {
            Ok((holes, mappings)) => plan is Ok && plan->Ok_0.holes@ == holes
                && plan->Ok_0.mappings@ == mappings,
            Err(e) => plan == Err::<BarMappingPlan, VfioError>(e),
        },
        plan matches Ok(p) ==> forall|k: int|
            0 <= k < p.holes@.len() ==> exists|j: int|
                0 <= j < bar_infos@.len() && spec_hole_in_bar(
                    #[trigger] p.holes@[k],
                    #[trigger] bar_infos@[j],
                ),
        msix_cap is None ==> (plan matches Ok(p) ==> p.holes@.len() == 0),
{
    proof {
        lemma_holes_in_bars(
            bar_infos@,
            region_infos@,
            match msix_cap {
                Some(c) => Some(*c),
                None => None,
            },
            bar_infos@.len(),
        );
    }
    plan_bars(bar_infos, region_infos, msix_cap)
}

/// Plans the BARs one after the other.
fn plan_bars(
    bar_infos: &Vec<BarInfo>,
    region_infos: &Vec<VfioRegionInfo>,
    msix_cap: Option<&MsixCap>,
) -> (plan: Result<BarMappingPlan, VfioError>)
    ensures
        match spec_mmap_bars(
            bar_infos@,
            region_infos@,
            match msix_cap {
                Some(c) => Some(*c),
                None => None,
            },
            bar_infos@.len(),
        ) {
            Ok((holes, mappings)) => plan is Ok && plan->Ok_0.holes@ == holes
                && plan->Ok_0.mappings@ == mappings,
            Err(e) => plan == Err::<BarMappingPlan, VfioError>(e),
        },
{
    let ghost msix = match msix_cap {
        Some(c) => Some(*c),
        None => None,
    };
    let mut holes: Vec<BarHoleInfo> = Vec::new();
    let mut mappings: Vec<BarMapping> = Vec::new();
    let mut i: usize = 0;
    while i < bar_infos.len()
        invariant
            i <= bar_infos@.len(),
            msix == match msix_cap {
                Some(c) => Some(*c),
                None => None,
            },
            spec_mmap_bars(bar_infos@, region_infos@, msix, i as nat) == Ok::<
                (Seq<BarHoleInfo>, Seq<BarMapping>),
                VfioError,
            >((holes@, mappings@)),
        decreases bar_infos@.len() - i,
    {
        proof {
            lemma_mmap_bars_error_stays(
                bar_infos@,
                region_infos@,
                msix,
                (i + 1) as nat,
                bar_infos@.len(),
            );
        }
        match plan_bar(&bar_infos[i], region_infos, msix_cap, &mut holes, &mut mappings) {
            Ok(()) => {},
            Err(e) => {
                return Err(e);
            },
        }
        i = i + 1;
    }
    Ok(BarMappingPlan { holes, mappings })
}

/// True if the mapping is one that the plan may hold for this BAR: it is not empty
/// and page aligned, lies inside the region and the BAR, appears in the guest at the offset at
/// which it lies in the region, and shares no byte with a kept back range.
pub open spec fn spec_mapping_sound(
    m: BarMapping,
    bar: BarInfo,
    region: VfioRegionInfo,
    table: Gap,
    pba: Gap,
) -> bool {
    let offset = m.gpa - bar.gpa;
    &&& m.bar_idx == bar.idx
    &&& m.size > 0
    &&& m.size % 4096 == 0
    &&& offset >= 0
    &&& offset % 4096 == 0
    &&& offset + m.size <= region.size
    &&& offset + m.size <= bar.size
    &&& m.file_offset == region.offset + offset
    &&& table.size != 0 ==> offset + m.size <= table.start || table.start + table.size <= offset
    &&& pba.size != 0 ==> offset + m.size <= pba.start || pba.start + pba.size <= offset
}

/// Every mapping that is planned for a BAR is sound: whatever areas the device
/// reports, the pages that hold the MSI-X table and the pending bit array are never
/// mapped into the guest, and nothing is mapped from outside the region.
pub proof fn lemma_mappings_sound(
    bar: BarInfo,
    region: VfioRegionInfo,
    areas: Seq<VfioRegionSparseMmapArea>,
    table: Gap,
    pba: Gap,
    n: nat,
)
    requires
        n <= areas.len(),
    ensures
        spec_area_mappings(bar, region, areas, table, pba, n) matches Ok(mappings) ==> forall|
            k: int,
        |
            0 <= k < mappings.len() ==> spec_mapping_sound(
                #[trigger] mappings[k],
                bar,
                region,
                table,
                pba,
            ),
    decreases n,
{
    if n > 0 {
        lemma_mappings_sound(bar, region, areas, table, pba, (n - 1) as nat);
        match spec_area_mappings(bar, region, areas, table, pba, (n - 1) as nat) {
            Err(_) => {},
            Ok(done) => {
                let area = areas[n - 1];
                if spec_area_valid(area, region.size) && area.offset + area.size <= bar.size
                    && spec_area_fits(bar, region, area)
                    && !spec_area_overlaps(area, table) && !spec_area_overlaps(area, pba) {
                    let after = done.push(spec_area_mapping(bar, region, area));
                    assert forall|k: int| 0 <= k < after.len() implies spec_mapping_sound(
                        #[trigger] after[k],
                        bar,
                        region,
                        table,
                        pba,
                    ) by {
                        if k < done.len() {
                            assert(after[k] == done[k]);
                        }
                    }
                }
            },
        }
    }
}

/// The hole of a structure covers the structure: the pages that are kept back for a
/// table or a pending bit array of `size` bytes at `offset` hold all its bytes.
pub proof fn lemma_gap_covers(offset: int, size: int)
    requires
        0 <= offset,
        0 < size,
    ensures
        spec_page_down(offset) <= offset,
        offset + size <= spec_page_up(offset + size),
        spec_page_down(offset) % 4096 == 0,
        spec_page_up(offset + size) % 4096 == 0,
{
}

/// True if the hole lies in the BAR: it is not empty, starts at a page of the BAR,
/// ends no later than the BAR does, and the structure it is kept back for begins
/// inside it.
pub open spec fn spec_hole_in_bar(hole: BarHoleInfo, bar: BarInfo) -> bool {
    &&& hole.size > 0
    &&& bar.gpa <= hole.gpa
    &&& hole.gpa + hole.size <= bar.gpa + bar.size
    &&& bar.gpa + bar.size <= u64::MAX
    &&& (hole.gpa - bar.gpa) % 4096 == 0
    &&& hole.offset_in_hole < 4096
    &&& hole.offset_in_hole < hole.size
}

/// The pages that a structure of `len` bytes at `offset` touches begin at or before
/// the structure, at a page boundary, and hold the structure; `len` is no more than an
/// MSI-X structure can have.
pub proof fn lemma_whole_gap(offset: int, len: int)
    requires
        0 <= offset <= u32::MAX,
        0 < len <= 0x1_0000,
    ensures
        ({
            let gap = spec_gap_of(offset, len);
            &&& gap.size > 0
            &&& gap.start % 4096 == 0
            &&& gap.start + gap.offset_in_hole == offset
            &&& gap.offset_in_hole < 4096
            &&& gap.offset_in_hole + len <= gap.size
        }),
{
    let down = spec_page_down(offset);
    let up = spec_page_up(offset + len);
    assert(0 <= down <= offset && offset - down < 4096 && down % 4096 == 0);
    assert(offset + len <= up < offset + len + 4096);
}

/// The part of a BAR that is kept back for a structure of `len` bytes at `offset`
/// that lies inside the BAR, `len` being no more than an MSI-X structure can have: it
/// is not empty, starts at a page of the BAR and at or
/// before the structure, holds the structure, and ends no later than the BAR does.
pub proof fn lemma_clipped_gap(offset: int, len: int, bar_size: u64)
    requires
        0 <= offset,
        0 < len <= 0x1_0000,
        offset + len <= bar_size,
    ensures
        ({
            let gap = spec_clip(spec_gap_of(offset, len), bar_size);
            &&& gap.size > 0
            &&& gap.start % 4096 == 0
            &&& gap.start + gap.offset_in_hole == offset
            &&& gap.offset_in_hole < 4096
            &&& gap.offset_in_hole + len <= gap.size
            &&& gap.start + gap.size <= bar_size
        }),
{
    let down = spec_page_down(offset);
    let up = spec_page_up(offset + len);
    assert(0 <= down <= offset && offset - down < 4096 && down % 4096 == 0);
    assert(offset + len <= up < offset + len + 4096);
    let whole = spec_gap_of(offset, len);
    assert(whole.start == down);
    assert(whole.size == up - down);
    assert(whole.offset_in_hole == offset - down);
}

/// The holes of a BAR lie in the BAR.
pub proof fn lemma_bar_holes_in_bar(bar: BarInfo, regions: Seq<VfioRegionInfo>, msix: Option<MsixCap>)
    ensures
        spec_bar_plan(bar, regions, msix) matches Ok((holes, _)) ==> forall|k: int|
            0 <= k < holes.len() ==> spec_hole_in_bar(#[trigger] holes[k], bar),
        msix is None ==> (spec_bar_plan(bar, regions, msix) matches Ok((holes, _)) ==> holes.len()
            == 0),
{
    if spec_bar_plan(bar, regions, msix) is Ok {
        let region = regions[bar.idx as int];
        let table = spec_clip(spec_table_gap(region.index, msix), bar.size);
        let pba = spec_clip(spec_pba_gap(region.index, msix), bar.size);
        let holes = spec_bar_holes(bar, table, pba);
        assert(spec_bar_plan(bar, regions, msix)->Ok_0.0 == holes);
        if msix is Some {
            let cap = msix->Some_0;
            crate::vfio::lemma_msix_cap_layout(cap);
            if region.index == cap.spec_table_bir() {
                lemma_clipped_gap(cap.spec_table_range().0, cap.spec_table_range().1, bar.size);
            }
            if region.index == cap.spec_pba_bir() {
                lemma_clipped_gap(cap.spec_pba_range().0, cap.spec_pba_range().1, bar.size);
            }
        }
        if table.size != 0 {
            assert(spec_hole_in_bar(spec_hole(bar.gpa, table, BarHoleInfoUsage::Table), bar));
        }
        if pba.size != 0 {
            assert(spec_hole_in_bar(spec_hole(bar.gpa, pba, BarHoleInfoUsage::Pba), bar));
        }
        assert forall|k: int| 0 <= k < holes.len() implies spec_hole_in_bar(
            #[trigger] holes[k],
            bar,
        ) by {
            if table.size != 0 && k == 0 {
                assert(holes[k] == spec_hole(bar.gpa, table, BarHoleInfoUsage::Table));
            } else {
                assert(holes[k] == spec_hole(bar.gpa, pba, BarHoleInfoUsage::Pba));
            }
        }
    }
}

/// Every hole of a plan lies in one of the BARs that the plan was made for.
pub proof fn lemma_holes_in_bars(
    bars: Seq<BarInfo>,
    regions: Seq<VfioRegionInfo>,
    msix: Option<MsixCap>,
    n: nat,
)
    requires
        n <= bars.len(),
    ensures
        spec_mmap_bars(bars, regions, msix, n) matches Ok((holes, _)) ==> forall|k: int|
            0 <= k < holes.len() ==> exists|j: int|
                0 <= j < n && spec_hole_in_bar(#[trigger] holes[k], #[trigger] bars[j]),
        msix is None ==> (spec_mmap_bars(bars, regions, msix, n) matches Ok((holes, _))
            ==> holes.len() == 0),
    decreases n,
{
    if n > 0 {
        lemma_holes_in_bars(bars, regions, msix, (n - 1) as nat);
        lemma_bar_holes_in_bar(bars[n - 1], regions, msix);
        match spec_mmap_bars(bars, regions, msix, (n - 1) as nat) {
            Err(_) => {},
            Ok((before, _)) => match spec_bar_plan(bars[n - 1], regions, msix) {
                Err(_) => {},
                Ok((h, _)) => {
                    let holes = before + h;
                    assert forall|k: int| 0 <= k < holes.len() implies exists|j: int|
                        0 <= j < n && spec_hole_in_bar(#[trigger] holes[k], #[trigger] bars[j]) by {
                        if k < before.len() {
                            assert(holes[k] == before[k]);
                            let j = choose|j: int|
                                0 <= j < n - 1 && spec_hole_in_bar(
                                    #[trigger] before[k],
                                    #[trigger] bars[j],
                                );
                            assert(spec_hole_in_bar(holes[k], bars[j]));
                        } else {
                            assert(holes[k] == h[k - before.len()]);
                            assert(spec_hole_in_bar(holes[k], bars[n - 1]));
                        }
                    }
                },
            },
        }
    }
}

/// Two BARs in which one hole lies share an address: where no two BARs of a device
/// share one, a hole lies in one BAR only.
pub proof fn lemma_hole_in_one_bar(hole: BarHoleInfo, a: BarInfo, b: BarInfo)
    requires
        spec_hole_in_bar(hole, a),
        spec_hole_in_bar(hole, b),
    ensures
        a.gpa < b.gpa + b.size && b.gpa < a.gpa + a.size,
{
}

} // verus!
