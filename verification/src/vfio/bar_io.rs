//! Serving guest accesses to the trapped pages of a passthrough device.
use vstd::prelude::*;
use crate::resources::spec_disjoint;
use crate::resources::spec_in_window;
use crate::resources::ResourceAllocator;
use crate::vfio::bars::spec_bar_from;
use crate::vfio::bars::spec_bar_range;
use crate::vfio::bars::spec_bar_shape;
use crate::vfio::bars::spec_bar_window;
use crate::vfio::bars::spec_placed;
use crate::vfio::bars::spec_probe_in_order;
use crate::vfio::bars::spec_probes_ordered;
use crate::vfio::bars::spec_takes_two_registers;
use crate::vfio::bars::BarProbe;
use crate::pci::msix::spec_read_words;
use crate::pci::msix::spec_write_words;
use crate::vfio::device::lemma_sizing_write_then_read;
use crate::vfio::device::spec_bar_flag_bits;
use crate::vfio::device::spec_bar_owns;
use crate::vfio::device::spec_bar_register;
use crate::vfio::device::spec_bars_after_write;
use crate::vfio::device::spec_bar_at;
use crate::vfio::device::spec_hole_at;
use crate::vfio::device::spec_hole_hit;
use crate::vfio::mmap::lemma_clipped_gap;
use crate::vfio::mmap::lemma_whole_gap;
use crate::vfio::mmap::spec_bar_holes;
use crate::vfio::mmap::spec_bar_plan;
use crate::vfio::mmap::spec_clip;
use crate::vfio::mmap::spec_gap_fits;
use crate::vfio::mmap::spec_hole;
use crate::vfio::mmap::spec_mmap_bars;
use crate::vfio::mmap::spec_pba_gap;
use crate::vfio::mmap::spec_pba_len;
use crate::vfio::mmap::spec_table_gap;
use crate::vfio::mmap::spec_table_len;
use crate::vfio::mmap::Gap;
use crate::vfio::BarHoleInfo;
use crate::vfio::BarHoleInfoUsage;
use crate::vfio::BarInfo;
use crate::vfio::MsixCap;
use crate::vfio::VfioRegionInfo;
use crate::vfio::device::BarAccess;
use crate::vfio::device::VfioDeviceBundle;

verus! {

impl VfioDeviceBundle {
    /// The offset of `addr` within the structure that the hole it hits holds.
    pub open spec fn spec_offset_in_structure(&self, addr: int) -> int {
        let hole = spec_hole_at(
            self.bar_hole_infos@,
            self.msix_cap,
            addr,
            self.bar_hole_infos@.len(),
        )->Some_0;
        addr - (hole.gpa + hole.offset_in_hole)
    }

    /// Answers a guest read at `offset` from `base`.
    ///
    /// A read that hits the MSI-X table or the pending bit array is served here, from
    /// what the guest sees of them, if the device has them. Any other read leaves the
    /// buffer as it is: where the answer names a region, the caller reads it from the
    /// device. Nothing of the device changes.
    pub fn read(&self, base: u64, offset: u64, data: &mut [u8]) -> (access: BarAccess)
        requires
            base + offset <= u64::MAX,
        ensures
            access == self.spec_bar_access(base, offset),
            final(data)@ == (match (access, self.msix_config) {
                (BarAccess::Table(_), Some(config)) => spec_read_words(
                    config@.table,
                    self.spec_offset_in_structure(base + offset) as u64,
                    old(data)@,
                ),
                (BarAccess::Pba(_), Some(config)) => spec_read_words(
                    config@.pba,
                    self.spec_offset_in_structure(base + offset) as u64,
                    old(data)@,
                ),
                _ => old(data)@,
            }),
    {
        let access = self.bar_access(base, offset);
        let addr: u64 = base + offset;
        match (&access, &self.msix_config) {
            (BarAccess::Table(_), Some(config)) => {
                match self.hole_at(addr) {
                    Some(hole) => {
                        config.read_table(addr - hole.gpa - hole.offset_in_hole, data);
                    },
                    None => {},
                }
            },
            (BarAccess::Pba(_), Some(config)) => {
                match self.hole_at(addr) {
                    Some(hole) => {
                        config.read_pba(addr - hole.gpa - hole.offset_in_hole, data);
                    },
                    None => {},
                }
            },
            _ => {},
        }
        access
    }

    /// Takes a guest write at `offset` from `base`.
    ///
    /// A write that hits the MSI-X table changes what the guest sees of it, if the
    /// device has one; a write to the pending bit array changes nothing. Where the
    /// answer names a region, the caller writes the bytes to the device.
    pub fn write(&mut self, base: u64, offset: u64, data: &[u8]) -> (access: BarAccess)
        requires
            base + offset <= u64::MAX,
        ensures
            access == old(self).spec_bar_access(base, offset),
            final(self).id == old(self).id,
            final(self).group_id == old(self).group_id,
            final(self).device == old(self).device,
            final(self).bar_infos == old(self).bar_infos,
            final(self).expansion_rom_info == old(self).expansion_rom_info,
            final(self).msi_cap == old(self).msi_cap,
            final(self).msix_cap == old(self).msix_cap,
            final(self).bar_hole_infos == old(self).bar_hole_infos,
            final(self).masks == old(self).masks,
            match (access, old(self).msix_config) {
                (BarAccess::Table(_), Some(config)) => final(self).msix_config is Some && final(self).msix_config->Some_0@.pba == config@.pba && final(self).msix_config->Some_0@.table
                    == spec_write_words(
                    config@.table,
                    old(self).spec_offset_in_structure(base + offset) as u64,
                    data@,
                ),
                (_, Some(config)) => final(self).msix_config is Some && final(self).msix_config->Some_0@ == config@,
                (_, None) => final(self).msix_config is None,
            },
    {
        let access = self.bar_access(base, offset);
        let addr: u64 = base + offset;
        let hole = self.hole_at(addr);
        let mut config: Option<crate::pci::msix::MsixConfig> = None;
        core::mem::swap(&mut config, &mut self.msix_config);
        let config = match (&access, hole, config) {
            (BarAccess::Table(_), Some(hole), Some(c)) => {
                let mut c = c;
                c.write_table(addr - hole.gpa - hole.offset_in_hole, data);
                Some(c)
            },
            (_, _, other) => other,
        };
        self.msix_config = config;
        access
    }
}

/// True if the two BARs own a configuration register in common.
pub open spec fn spec_share_register(a: BarInfo, b: BarInfo) -> bool {
    a.idx == b.idx || (a.is_64_bits && a.idx + 1 == b.idx) || (b.is_64_bits && b.idx + 1 == a.idx)
}

/// True if the BARs are those of one device: none is empty or reaches beyond the last
/// address, and no two of them share an address or a register.
pub open spec fn spec_bars_apart(bars: Seq<BarInfo>) -> bool {
    &&& forall|i: int|
        0 <= i < bars.len() ==> (#[trigger] bars[i]).size > 0 && bars[i].gpa + bars[i].size
            <= u64::MAX
    &&& forall|i: int, j: int|
        0 <= i < j < bars.len() ==> !spec_share_register(#[trigger] bars[i], #[trigger] bars[j])
            && (bars[i].gpa + bars[i].size <= bars[j].gpa || bars[j].gpa + bars[j].size
            <= bars[i].gpa)
}

/// True if `offset` within the BAR lies among the bytes of the MSI-X table.
pub open spec fn spec_in_table(bar: BarInfo, msix: Option<MsixCap>, offset: int) -> bool {
    match msix {
        Some(cap) => bar.idx == cap.spec_table_bir() && cap.spec_table_range().0 <= offset
            < cap.spec_table_range().0 + cap.spec_table_range().1,
        None => false,
    }
}

/// True if `offset` within the BAR lies among the bytes of the pending bit array.
pub open spec fn spec_in_pba(bar: BarInfo, msix: Option<MsixCap>, offset: int) -> bool {
    match msix {
        Some(cap) => bar.idx == cap.spec_pba_bir() && cap.spec_pba_range().0 <= offset
            < cap.spec_pba_range().0 + cap.spec_pba_range().1,
        None => false,
    }
}

/// The part of the BAR that is kept back for the table.
pub open spec fn spec_table_part(bar: BarInfo, msix: Option<MsixCap>) -> Gap {
    spec_clip(spec_table_gap(bar.idx, msix), bar.size)
}

/// The part of the BAR that is kept back for the pending bit array.
pub open spec fn spec_pba_part(bar: BarInfo, msix: Option<MsixCap>) -> Gap {
    spec_clip(spec_pba_gap(bar.idx, msix), bar.size)
}

/// True if the hole is one of the two that the BAR may have, and the structures of
/// the BAR lie inside it.
pub open spec fn spec_hole_of(hole: BarHoleInfo, bar: BarInfo, msix: Option<MsixCap>) -> bool {
    &&& spec_gap_fits(spec_table_gap(bar.idx, msix), spec_table_len(msix), bar.size)
    &&& spec_gap_fits(spec_pba_gap(bar.idx, msix), spec_pba_len(msix), bar.size)
    &&& (spec_table_part(bar, msix).size != 0 && hole == spec_hole(
        bar.gpa,
        spec_table_part(bar, msix),
        BarHoleInfoUsage::Table,
    )) || (spec_pba_part(bar, msix).size != 0 && hole == spec_hole(
        bar.gpa,
        spec_pba_part(bar, msix),
        BarHoleInfoUsage::Pba,
    ))
}

/// True if each BAR has the region of its index.
pub open spec fn spec_bars_have_regions(bars: Seq<BarInfo>, regions: Seq<VfioRegionInfo>) -> bool {
    forall|i: int|
        0 <= i < bars.len() ==> (#[trigger] bars[i]).idx < regions.len() && regions[bars[i].idx as int].index
            == bars[i].idx
}

/// True if the MSI-X table and the pending bit array share no byte.
pub open spec fn spec_structures_apart(msix: Option<MsixCap>) -> bool {
    match msix {
        Some(cap) => cap.spec_table_bir() == cap.spec_pba_bir() ==> cap.spec_table_range().0
            + cap.spec_table_range().1 <= cap.spec_pba_range().0 || cap.spec_pba_range().0
            + cap.spec_pba_range().1 <= cap.spec_table_range().0,
        None => true,
    }
}

impl VfioDeviceBundle {
    /// Says whether the bundle is in order. A bundle that was put together by hand
    /// is to be asked before accesses are answered from it.
    pub fn is_wf(&self) -> (b: bool)
        ensures
            b == self.wf(),
    {
        proof {
            reveal(VfioDeviceBundle::spec_holes_planned);
        }
        if !bars_apart(&self.bar_infos) {
            return false;
        }
        let mut i: usize = 0;
        while i < self.bar_infos.len()
            invariant
                i <= self.bar_infos@.len(),
                forall|k: int|
                    0 <= k < i ==> (#[trigger] self.bar_infos@[k]).idx
                        < self.device.region_infos@.len() && self.device.region_infos@[self.bar_infos@[k].idx as int].index
                        == self.bar_infos@[k].idx,
            decreases self.bar_infos@.len() - i,
        {
            let idx = self.bar_infos[i].idx;
            if idx as usize >= self.device.region_infos.len() || self.device.region_infos[idx as usize].index
                != idx {
                return false;
            }
            i = i + 1;
        }
        let apart = match &self.msix_cap {
            Some(cap) => {
                let (table, table_len) = cap.table_range();
                let (pba, pba_len) = cap.pba_range();
                cap.table_bir() != cap.pba_bir() || table + table_len <= pba || pba + pba_len
                    <= table
            },
            None => true,
        };
        if !apart {
            return false;
        }
        let cap: Option<&MsixCap> = match &self.msix_cap {
            Some(cap) => Some(cap),
            None => None,
        };
        match crate::vfio::mmap::mmap_bars(&self.bar_infos, &self.device.region_infos, cap) {
            Err(_) => false,
            Ok(plan) => {
                if plan.holes.len() != self.bar_hole_infos.len() {
                    return false;
                }
                let mut k: usize = 0;
                while k < plan.holes.len()
                    invariant
                        k <= plan.holes@.len(),
                        plan.holes@.len() == self.bar_hole_infos@.len(),
                        spec_mmap_bars(
                            self.bar_infos@,
                            self.device.region_infos@,
                            self.msix_cap,
                            self.bar_infos@.len(),
                        ) is Ok,
                        spec_mmap_bars(
                            self.bar_infos@,
                            self.device.region_infos@,
                            self.msix_cap,
                            self.bar_infos@.len(),
                        )->Ok_0.0 == plan.holes@,
                        spec_bars_apart(self.bar_infos@),
                        spec_bars_have_regions(self.bar_infos@, self.device.region_infos@),
                        spec_structures_apart(self.msix_cap),
                        forall|m: int| 0 <= m < k ==> plan.holes@[m] == self.bar_hole_infos@[m],
                    decreases plan.holes@.len() - k,
                {
                    let a = plan.holes[k];
                    let b = self.bar_hole_infos[k];
                    let same_usage = match (a.usage, b.usage) {
                        (BarHoleInfoUsage::Table, BarHoleInfoUsage::Table) => true,
                        (BarHoleInfoUsage::Pba, BarHoleInfoUsage::Pba) => true,
                        _ => false,
                    };
                    if a.gpa != b.gpa || a.size != b.size || a.offset_in_hole != b.offset_in_hole
                        || !same_usage {
                        proof {
                            reveal(VfioDeviceBundle::spec_holes_planned);
                            assert(plan.holes@[k as int] != self.bar_hole_infos@[k as int]);
                        }
                        return false;
                    }
                    k = k + 1;
                }
                proof {
                    assert(plan.holes@ =~= self.bar_hole_infos@);
                }
                true
            },
        }
    }

    /// True if the bundle is what attaching a device leaves behind: its BARs are
    /// apart, each has the region of its index, the holes are those that the plan of
    /// the mappings gives, and the MSI-X table and the pending bit array share no
    /// byte.
    pub open spec fn wf(&self) -> bool {
        &&& spec_bars_apart(self.bar_infos@)
        &&& spec_bars_have_regions(self.bar_infos@, self.device.region_infos@)
        &&& self.spec_holes_planned()
        &&& spec_structures_apart(self.msix_cap)
    }

    /// True if the holes of the bundle are those that the plan of the mappings of
    /// its BARs gives.
    #[verifier::opaque]
    pub open spec fn spec_holes_planned(&self) -> bool {
        let plan = spec_mmap_bars(
            self.bar_infos@,
            self.device.region_infos@,
            self.msix_cap,
            self.bar_infos@.len(),
        );
        plan is Ok && plan->Ok_0.0 == self.bar_hole_infos@
    }
}

/// Says whether a BAR is apart from each of the first `n` BARs.
fn apart_from(bars: &Vec<BarInfo>, bar: &BarInfo, n: usize) -> (b: bool)
    requires
        n <= bars@.len(),
        bar.gpa + bar.size <= u64::MAX,
        forall|i: int| 0 <= i < n ==> (#[trigger] bars@[i]).gpa + bars@[i].size <= u64::MAX,
    ensures
        b == forall|i: int|
            0 <= i < n ==> !spec_share_register(#[trigger] bars@[i], *bar) && (bars@[i].gpa
                + bars@[i].size <= bar.gpa || bar.gpa + bar.size <= bars@[i].gpa),
{
    let mut i: usize = 0;
    while i < n
        invariant
            i <= n <= bars@.len(),
            bar.gpa + bar.size <= u64::MAX,
            forall|k: int| 0 <= k < n ==> (#[trigger] bars@[k]).gpa + bars@[k].size <= u64::MAX,
            forall|k: int|
                0 <= k < i ==> !spec_share_register(#[trigger] bars@[k], *bar) && (bars@[k].gpa
                    + bars@[k].size <= bar.gpa || bar.gpa + bar.size <= bars@[k].gpa),
        decreases n - i,
    {
        let other = bars[i];
        let shared = other.idx == bar.idx || (other.is_64_bits && other.idx < u32::MAX && other.idx
            + 1 == bar.idx) || (bar.is_64_bits && bar.idx < u32::MAX && bar.idx + 1 == other.idx);
        let disjoint = other.gpa + other.size <= bar.gpa || bar.gpa + bar.size <= other.gpa;
        if shared || !disjoint {
            return false;
        }
        i = i + 1;
    }
    true
}

/// Says whether the BARs are apart.
pub fn bars_apart(bars: &Vec<BarInfo>) -> (b: bool)
    ensures
        b == spec_bars_apart(bars@),
{
    let mut j: usize = 0;
    while j < bars.len()
        invariant
            j <= bars@.len(),
            forall|i: int|
                0 <= i < j ==> (#[trigger] bars@[i]).size > 0 && bars@[i].gpa + bars@[i].size
                    <= u64::MAX,
            forall|i: int, k: int|
                0 <= i < k < j ==> !spec_share_register(#[trigger] bars@[i], #[trigger] bars@[k])
                    && (bars@[i].gpa + bars@[i].size <= bars@[k].gpa || bars@[k].gpa
                    + bars@[k].size <= bars@[i].gpa),
        decreases bars@.len() - j,
    {
        let bar = bars[j];
        if bar.size == 0 || bar.gpa > u64::MAX - bar.size {
            return false;
        }
        if !apart_from(bars, &bar, j) {
            return false;
        }
        j = j + 1;
    }
    true
}

/// An address that lies in one of the BARs of a device lies in that BAR and in no
/// other.
pub proof fn lemma_bar_at(bars: Seq<BarInfo>, addr: int, j: int, n: nat)
    requires
        spec_bars_apart(bars),
        0 <= j < n <= bars.len(),
        bars[j].gpa <= addr < bars[j].gpa + bars[j].size,
    ensures
        spec_bar_at(bars, addr, n) == Some(bars[j]),
    decreases n,
{
    if n - 1 > j {
        lemma_bar_at(bars, addr, j, (n - 1) as nat);
    } else {
        lemma_bar_at_none(bars, addr, j, j as nat);
    }
}

/// An address that lies in a BAR lies in none of the BARs before it.
pub proof fn lemma_bar_at_none(bars: Seq<BarInfo>, addr: int, j: int, n: nat)
    requires
        spec_bars_apart(bars),
        0 <= n <= j < bars.len(),
        bars[j].gpa <= addr < bars[j].gpa + bars[j].size,
    ensures
        spec_bar_at(bars, addr, n) is None,
    decreases n,
{
    if n > 0 {
        lemma_bar_at_none(bars, addr, j, (n - 1) as nat);
        assert(!spec_share_register(bars[n - 1], bars[j]));
    }
}

/// The plan of the first `n` BARs is that of the BARs before the last with the holes
/// of the last added.
pub proof fn lemma_plan_step(
    bars: Seq<BarInfo>,
    regions: Seq<VfioRegionInfo>,
    msix: Option<MsixCap>,
    n: nat,
)
    requires
        0 < n <= bars.len(),
        spec_mmap_bars(bars, regions, msix, n) is Ok,
    ensures
        spec_mmap_bars(bars, regions, msix, (n - 1) as nat) is Ok,
        spec_bar_plan(bars[n - 1], regions, msix) is Ok,
        spec_mmap_bars(bars, regions, msix, n)->Ok_0.0 == spec_mmap_bars(
            bars,
            regions,
            msix,
            (n - 1) as nat,
        )->Ok_0.0 + spec_bar_plan(bars[n - 1], regions, msix)->Ok_0.0,
{
}

/// The holes in the plan of a BAR are those of the parts that are kept back of it,
/// and its structures lie inside it.
pub proof fn lemma_bar_plan_holes(bar: BarInfo, regions: Seq<VfioRegionInfo>, msix: Option<MsixCap>)
    requires
        bar.idx < regions.len(),
        regions[bar.idx as int].index == bar.idx,
        spec_bar_plan(bar, regions, msix) is Ok,
    ensures
        spec_bar_plan(bar, regions, msix)->Ok_0.0 == spec_bar_holes(
            bar,
            spec_table_part(bar, msix),
            spec_pba_part(bar, msix),
        ),
        spec_gap_fits(spec_table_gap(bar.idx, msix), spec_table_len(msix), bar.size),
        spec_gap_fits(spec_pba_gap(bar.idx, msix), spec_pba_len(msix), bar.size),
        forall|k: int|
            0 <= k < spec_bar_plan(bar, regions, msix)->Ok_0.0.len() ==> spec_hole_of(
                #[trigger] spec_bar_plan(bar, regions, msix)->Ok_0.0[k],
                bar,
                msix,
            ),
{
}

/// Each hole of a plan is one of a BAR of the plan.
pub proof fn lemma_plan_holes(
    bars: Seq<BarInfo>,
    regions: Seq<VfioRegionInfo>,
    msix: Option<MsixCap>,
    n: nat,
)
    requires
        n <= bars.len(),
        forall|i: int|
            0 <= i < bars.len() ==> (#[trigger] bars[i]).idx < regions.len()
                && regions[bars[i].idx as int].index == bars[i].idx,
        spec_mmap_bars(bars, regions, msix, n) is Ok,
    ensures
        forall|k: int|
            0 <= k < spec_mmap_bars(bars, regions, msix, n)->Ok_0.0.len() ==> exists|j: int|
                0 <= j < n && spec_hole_of(
                    #[trigger] spec_mmap_bars(bars, regions, msix, n)->Ok_0.0[k],
                    #[trigger] bars[j],
                    msix,
                ),
    decreases n,
{
    if n > 0 {
        lemma_plan_step(bars, regions, msix, n);
        lemma_bar_plan_holes(bars[n - 1], regions, msix);
        lemma_plan_holes(bars, regions, msix, (n - 1) as nat);
        let before = spec_mmap_bars(bars, regions, msix, (n - 1) as nat)->Ok_0.0;
        let own = spec_bar_plan(bars[n - 1], regions, msix)->Ok_0.0;
        let holes = spec_mmap_bars(bars, regions, msix, n)->Ok_0.0;
        assert forall|k: int| 0 <= k < holes.len() implies exists|j: int|
            0 <= j < n && spec_hole_of(#[trigger] holes[k], #[trigger] bars[j], msix) by {
            if k < before.len() {
                assert(holes[k] == before[k]);
                let j = choose|j: int|
                    0 <= j < n - 1 && spec_hole_of(#[trigger] before[k], #[trigger] bars[j], msix);
                assert(spec_hole_of(holes[k], bars[j], msix));
            } else {
                assert(holes[k] == own[k - before.len()]);
                assert(spec_hole_of(holes[k], bars[n - 1], msix));
            }
        }
    } else {
        assert(spec_mmap_bars(bars, regions, msix, 0)->Ok_0.0.len() == 0);
    }
}

/// Each part of a BAR of a plan that is kept back has its hole in the plan.
pub proof fn lemma_plan_has_holes(
    bars: Seq<BarInfo>,
    regions: Seq<VfioRegionInfo>,
    msix: Option<MsixCap>,
    j: int,
    n: nat,
)
    requires
        0 <= j < n <= bars.len(),
        forall|i: int|
            0 <= i < bars.len() ==> (#[trigger] bars[i]).idx < regions.len()
                && regions[bars[i].idx as int].index == bars[i].idx,
        spec_mmap_bars(bars, regions, msix, n) is Ok,
    ensures
        spec_table_part(bars[j], msix).size != 0 ==> spec_mmap_bars(
            bars,
            regions,
            msix,
            n,
        )->Ok_0.0.contains(
            spec_hole(bars[j].gpa, spec_table_part(bars[j], msix), BarHoleInfoUsage::Table),
        ),
        spec_pba_part(bars[j], msix).size != 0 ==> spec_mmap_bars(
            bars,
            regions,
            msix,
            n,
        )->Ok_0.0.contains(
            spec_hole(bars[j].gpa, spec_pba_part(bars[j], msix), BarHoleInfoUsage::Pba),
        ),
    decreases n,
{
    lemma_plan_step(bars, regions, msix, n);
    let before = spec_mmap_bars(bars, regions, msix, (n - 1) as nat)->Ok_0.0;
    let own = spec_bar_plan(bars[n - 1], regions, msix)->Ok_0.0;
    let holes = spec_mmap_bars(bars, regions, msix, n)->Ok_0.0;
    let t = spec_hole(bars[j].gpa, spec_table_part(bars[j], msix), BarHoleInfoUsage::Table);
    let p = spec_hole(bars[j].gpa, spec_pba_part(bars[j], msix), BarHoleInfoUsage::Pba);
    if j < n - 1 {
        lemma_plan_has_holes(bars, regions, msix, j, (n - 1) as nat);
        if spec_table_part(bars[j], msix).size != 0 {
            let k = choose|k: int| 0 <= k < before.len() && before[k] == t;
            assert(holes[k] == t);
        }
        if spec_pba_part(bars[j], msix).size != 0 {
            let k = choose|k: int| 0 <= k < before.len() && before[k] == p;
            assert(holes[k] == p);
        }
    } else {
        lemma_bar_plan_holes(bars[n - 1], regions, msix);
        if spec_table_part(bars[j], msix).size != 0 {
            assert(own[0] == t);
            assert(holes[before.len() as int] == t);
        }
        if spec_pba_part(bars[j], msix).size != 0 {
            assert(own[own.len() - 1] == p);
            assert(holes[holes.len() - 1] == p);
        }
    }
}

/// What `spec_hole_at` finds is a hole that the address hits, and it finds one
/// wherever there is one.
pub proof fn lemma_hole_at(holes: Seq<BarHoleInfo>, msix: Option<MsixCap>, addr: int, n: nat)
    requires
        n <= holes.len(),
    ensures
        match spec_hole_at(holes, msix, addr, n) {
            Some(h) => spec_hole_hit(h, msix, addr) && exists|k: int|
                0 <= k < n && #[trigger] holes[k] == h,
            None => forall|k: int| 0 <= k < n ==> !spec_hole_hit(#[trigger] holes[k], msix, addr),
        },
    decreases n,
{
    if n > 0 {
        lemma_hole_at(holes, msix, addr, (n - 1) as nat);
        match spec_hole_at(holes, msix, addr, (n - 1) as nat) {
            Some(h) => {
                let k = choose|k: int| 0 <= k < n - 1 && #[trigger] holes[k] == h;
                assert(holes[k] == h);
            },
            None => {
                if spec_hole_hit(holes[n - 1], msix, addr) {
                    assert(holes[n - 1] == holes[n - 1]);
                }
            },
        }
    }
}

/// What is known of the parts of a BAR that are kept back, where the structures of the
/// BAR lie inside it: each part that is not empty belongs to the structure that the
/// capability puts into this BAR, begins at or before it and holds it.
pub proof fn lemma_parts(bar: BarInfo, msix: Option<MsixCap>)
    requires
        spec_gap_fits(spec_table_gap(bar.idx, msix), spec_table_len(msix), bar.size),
        spec_gap_fits(spec_pba_gap(bar.idx, msix), spec_pba_len(msix), bar.size),
    ensures
        ({
            let part = spec_table_part(bar, msix);
            part.size != 0 <==> msix is Some && bar.idx == msix->Some_0.spec_table_bir()
        }),
        ({
            let part = spec_pba_part(bar, msix);
            part.size != 0 <==> msix is Some && bar.idx == msix->Some_0.spec_pba_bir()
        }),
        ({
            let part = spec_table_part(bar, msix);
            part.size != 0 ==> part.start + part.offset_in_hole
                == msix->Some_0.spec_table_range().0 && part.offset_in_hole
                + msix->Some_0.spec_table_range().1 <= part.size && part.start + part.size
                <= bar.size
        }),
        ({
            let part = spec_pba_part(bar, msix);
            part.size != 0 ==> part.start + part.offset_in_hole
                == msix->Some_0.spec_pba_range().0 && part.offset_in_hole
                + msix->Some_0.spec_pba_range().1 <= part.size && part.start + part.size
                <= bar.size
        }),
{
    if msix is Some {
        let cap = msix->Some_0;
        crate::vfio::lemma_msix_cap_layout(cap);
        if bar.idx == cap.spec_table_bir() {
            lemma_whole_gap(cap.spec_table_range().0, cap.spec_table_range().1);
            lemma_clipped_gap(cap.spec_table_range().0, cap.spec_table_range().1, bar.size);
        }
        if bar.idx == cap.spec_pba_bir() {
            lemma_whole_gap(cap.spec_pba_range().0, cap.spec_pba_range().1);
            lemma_clipped_gap(cap.spec_pba_range().0, cap.spec_pba_range().1, bar.size);
        }
    }
}

/// A hole of a BAR is hit only by addresses among the bytes of its structure, which
/// lie in the BAR.
pub proof fn lemma_hit_in_structure(hole: BarHoleInfo, bar: BarInfo, msix: Option<MsixCap>, addr: int)
    requires
        spec_hole_of(hole, bar, msix),
        spec_hole_hit(hole, msix, addr),
        bar.gpa + bar.size <= u64::MAX,
    ensures
        bar.gpa <= addr < bar.gpa + bar.size,
        hole.usage == BarHoleInfoUsage::Table ==> spec_in_table(bar, msix, addr - bar.gpa)
            && hole.gpa + hole.offset_in_hole == bar.gpa + msix->Some_0.spec_table_range().0,
        hole.usage == BarHoleInfoUsage::Pba ==> spec_in_pba(bar, msix, addr - bar.gpa) && hole.gpa
            + hole.offset_in_hole == bar.gpa + msix->Some_0.spec_pba_range().0,
{
    lemma_parts(bar, msix);
    let table = spec_table_part(bar, msix);
    let pba = spec_pba_part(bar, msix);
    if hole.usage == BarHoleInfoUsage::Table {
        assert(hole == spec_hole(bar.gpa, table, BarHoleInfoUsage::Table));
        assert(hole.gpa == bar.gpa + table.start);
    } else {
        assert(hole == spec_hole(bar.gpa, pba, BarHoleInfoUsage::Pba));
        assert(hole.gpa == bar.gpa + pba.start);
    }
}

/// Where an address among the bytes of a structure of a BAR lies, the hole of the
/// structure is hit.
pub proof fn lemma_structure_hits(bar: BarInfo, msix: Option<MsixCap>, offset: int)
    requires
        bar.gpa + bar.size <= u64::MAX,
        spec_gap_fits(spec_table_gap(bar.idx, msix), spec_table_len(msix), bar.size),
        spec_gap_fits(spec_pba_gap(bar.idx, msix), spec_pba_len(msix), bar.size),
    ensures
        spec_in_table(bar, msix, offset) ==> spec_table_part(bar, msix).size != 0 && spec_hole_hit(
            spec_hole(bar.gpa, spec_table_part(bar, msix), BarHoleInfoUsage::Table),
            msix,
            bar.gpa + offset,
        ),
        spec_in_pba(bar, msix, offset) ==> spec_pba_part(bar, msix).size != 0 && spec_hole_hit(
            spec_hole(bar.gpa, spec_pba_part(bar, msix), BarHoleInfoUsage::Pba),
            msix,
            bar.gpa + offset,
        ),
{
    lemma_parts(bar, msix);
    let table = spec_table_part(bar, msix);
    let pba = spec_pba_part(bar, msix);
    if spec_in_table(bar, msix, offset) {
        let h = spec_hole(bar.gpa, table, BarHoleInfoUsage::Table);
        assert(h.gpa == bar.gpa + table.start);
    }
    if spec_in_pba(bar, msix, offset) {
        let h = spec_hole(bar.gpa, pba, BarHoleInfoUsage::Pba);
        assert(h.gpa == bar.gpa + pba.start);
    }
}

/// The holes of a bundle that is in order are those of its BARs, whose structures lie
/// inside them: each hole is one of a BAR, and each part of a BAR that is kept back
/// has its hole.
pub proof fn lemma_bundle_holes(bundle: VfioDeviceBundle)
    requires
        bundle.wf(),
    ensures
        forall|k: int|
            0 <= k < bundle.bar_hole_infos@.len() ==> exists|j: int|
                0 <= j < bundle.bar_infos@.len() && spec_hole_of(
                    #[trigger] bundle.bar_hole_infos@[k],
                    #[trigger] bundle.bar_infos@[j],
                    bundle.msix_cap,
                ),
        forall|j: int|
            0 <= j < bundle.bar_infos@.len() ==> {
                let bar = #[trigger] bundle.bar_infos@[j];
                &&& spec_gap_fits(
                    spec_table_gap(bar.idx, bundle.msix_cap),
                    spec_table_len(bundle.msix_cap),
                    bar.size,
                )
                &&& spec_gap_fits(
                    spec_pba_gap(bar.idx, bundle.msix_cap),
                    spec_pba_len(bundle.msix_cap),
                    bar.size,
                )
                &&& spec_table_part(bar, bundle.msix_cap).size != 0
                    ==> bundle.bar_hole_infos@.contains(
                    spec_hole(
                        bar.gpa,
                        spec_table_part(bar, bundle.msix_cap),
                        BarHoleInfoUsage::Table,
                    ),
                )
                &&& spec_pba_part(bar, bundle.msix_cap).size != 0
                    ==> bundle.bar_hole_infos@.contains(
                    spec_hole(bar.gpa, spec_pba_part(bar, bundle.msix_cap), BarHoleInfoUsage::Pba),
                )
            },
{
    reveal(VfioDeviceBundle::spec_holes_planned);
    let bars = bundle.bar_infos@;
    let regions = bundle.device.region_infos@;
    let msix = bundle.msix_cap;
    lemma_plan_holes(bars, regions, msix, bars.len());
    assert forall|j: int| 0 <= j < bars.len() implies {
        let bar = #[trigger] bars[j];
        &&& spec_gap_fits(spec_table_gap(bar.idx, msix), spec_table_len(msix), bar.size)
        &&& spec_gap_fits(spec_pba_gap(bar.idx, msix), spec_pba_len(msix), bar.size)
        &&& spec_table_part(bar, msix).size != 0 ==> bundle.bar_hole_infos@.contains(
            spec_hole(bar.gpa, spec_table_part(bar, msix), BarHoleInfoUsage::Table),
        )
        &&& spec_pba_part(bar, msix).size != 0 ==> bundle.bar_hole_infos@.contains(
            spec_hole(bar.gpa, spec_pba_part(bar, msix), BarHoleInfoUsage::Pba),
        )
    } by {
        lemma_plan_has_holes(bars, regions, msix, j, bars.len());
        crate::vfio::mmap::lemma_mmap_bars_error_stays(
            bars,
            regions,
            msix,
            (j + 1) as nat,
            bars.len(),
        );
        lemma_plan_step(bars, regions, msix, (j + 1) as nat);
        lemma_bar_plan_holes(bars[j], regions, msix);
    }
}

/// Which hole an address of a BAR of a device hits: that of the table if it lies
/// among the bytes of the table, that of the pending bit array if it lies among the
/// bytes of the array, and none else. `j` is the place of the BAR among the BARs of
/// the device.
pub proof fn lemma_hole_of_access(bundle: VfioDeviceBundle, j: int, offset: u64)
    requires
        bundle.wf(),
        0 <= j < bundle.bar_infos@.len(),
        offset < bundle.bar_infos@[j].size,
    ensures
        ({
            let bar = bundle.bar_infos@[j];
            let msix = bundle.msix_cap;
            match spec_hole_at(
                bundle.bar_hole_infos@,
                msix,
                bar.gpa + offset,
                bundle.bar_hole_infos@.len(),
            ) {
                Some(h) => if spec_in_table(bar, msix, offset as int) {
                    h.usage == BarHoleInfoUsage::Table && h.gpa + h.offset_in_hole == bar.gpa
                        + msix->Some_0.spec_table_range().0
                } else {
                    h.usage == BarHoleInfoUsage::Pba && spec_in_pba(bar, msix, offset as int)
                        && h.gpa + h.offset_in_hole == bar.gpa + msix->Some_0.spec_pba_range().0
                },
                None => !spec_in_table(bar, msix, offset as int) && !spec_in_pba(
                    bar,
                    msix,
                    offset as int,
                ),
            }
        }),
{
    let bars = bundle.bar_infos@;
    let msix = bundle.msix_cap;
    let holes = bundle.bar_hole_infos@;
    let bar = bars[j];
    let addr = bar.gpa + offset;
    lemma_bundle_holes(bundle);
    lemma_hole_at(holes, msix, addr, holes.len());
    lemma_structure_hits(bar, msix, offset as int);
    match spec_hole_at(holes, msix, addr, holes.len()) {
        Some(h) => {
            let k = choose|k: int| 0 <= k < holes.len() && #[trigger] holes[k] == h;
            let i = choose|i: int| 0 <= i < bars.len() && spec_hole_of(holes[k], #[trigger] bars[i], msix);
            lemma_hit_in_structure(h, bars[i], msix, addr);
            if i < j {
                assert(!spec_share_register(bars[i], bars[j]));
            } else if j < i {
                assert(!spec_share_register(bars[j], bars[i]));
            }
            assert(i == j);
        },
        None => {
            if spec_in_table(bar, msix, offset as int) {
                let h = spec_hole(bar.gpa, spec_table_part(bar, msix), BarHoleInfoUsage::Table);
                let k = choose|k: int| 0 <= k < holes.len() && holes[k] == h;
                assert(spec_hole_hit(holes[k], msix, addr));
            }
            if spec_in_pba(bar, msix, offset as int) {
                let h = spec_hole(bar.gpa, spec_pba_part(bar, msix), BarHoleInfoUsage::Pba);
                let k = choose|k: int| 0 <= k < holes.len() && holes[k] == h;
                assert(spec_hole_hit(holes[k], msix, addr));
            }
        },
    }
}

/// How the accesses to a BAR of a device are answered, whatever the device: one among
/// the bytes of the MSI-X table is served by the table, one among the bytes of the
/// pending bit array by the array, each at its offset within the BAR; any other is
/// made on the region of the BAR, at the offset of the region plus that within the
/// BAR. What is served by a structure is read and written there at the offset within
/// the structure. `j` is the place of the BAR among the BARs of the device.
pub proof fn lemma_bar_access(bundle: VfioDeviceBundle, j: int, offset: u64)
    requires
        bundle.wf(),
        0 <= j < bundle.bar_infos@.len(),
        offset < bundle.bar_infos@[j].size,
    ensures
        ({
            let bar = bundle.bar_infos@[j];
            let region = bundle.device.region_infos@[bar.idx as int];
            bundle.spec_bar_access(bar.gpa, offset) == (if spec_in_table(
                bar,
                bundle.msix_cap,
                offset as int,
            ) {
                BarAccess::Table(offset)
            } else if spec_in_pba(bar, bundle.msix_cap, offset as int) {
                BarAccess::Pba(offset)
            } else if region.offset + offset <= u64::MAX {
                BarAccess::Region(bar.idx, (region.offset + offset) as u64)
            } else {
                BarAccess::Unclaimed
            })
        }),
        spec_in_table(bundle.bar_infos@[j], bundle.msix_cap, offset as int)
            ==> bundle.spec_offset_in_structure(bundle.bar_infos@[j].gpa + offset) == offset
            - bundle.msix_cap->Some_0.spec_table_range().0,
        spec_in_pba(bundle.bar_infos@[j], bundle.msix_cap, offset as int)
            ==> bundle.spec_offset_in_structure(bundle.bar_infos@[j].gpa + offset) == offset
            - bundle.msix_cap->Some_0.spec_pba_range().0,
{
    let bar = bundle.bar_infos@[j];
    lemma_bar_at(bundle.bar_infos@, bar.gpa + offset, j, bundle.bar_infos@.len());
    lemma_hole_of_access(bundle, j, offset);
}

/// On a device whose BARs are apart, a write of all ones to a register of a BAR,
/// followed by a read of that register, reads the size of the BAR: `!(size - 1)` cut
/// to 32 bits, with the flag bits of the BAR set, from its lower register, and
/// `!(size - 1)` shifted down by 32 from the upper register of a 64-bit BAR. `j` is
/// the place of the BAR among the BARs of the device.
pub proof fn lemma_sizing_on_device(bars: Seq<BarInfo>, j: int, reg_idx: usize)
    requires
        spec_bars_apart(bars),
        0 <= j < bars.len(),
        spec_bar_owns(bars[j], reg_idx),
    ensures
        spec_bar_register(
            spec_bars_after_write(bars, reg_idx, true),
            (reg_idx - 4) as u32,
            bars.len(),
        ) == (if reg_idx - 4 == bars[j].idx {
            (((!((bars[j].size - 1) as u64)) & 0xffff_ffff) as u32) | spec_bar_flag_bits(bars[j])
        } else {
            ((!((bars[j].size - 1) as u64)) >> 32) as u32
        }),
{
    assert forall|k: int| 0 <= k < bars.len() && k != j implies !spec_bar_owns(
        #[trigger] bars[k],
        reg_idx,
    ) by {
        if k < j {
            assert(!spec_share_register(bars[k], bars[j]));
        } else {
            assert(!spec_share_register(bars[j], bars[k]));
        }
    }
    lemma_sizing_write_then_read(bars, j, reg_idx);
}

/// The probes that are placed are in order as the probes are: those among the first
/// `n`, with the index of the probe at `n`, or `limit` behind the last, as their
/// limit.
pub proof fn lemma_placed_ordered(probes: Seq<BarProbe>, limit: int, n: nat)
    requires
        n <= probes.len(),
        spec_probes_ordered(probes, limit),
    ensures
        spec_probes_ordered(
            spec_placed(probes, n),
            if n < probes.len() {
                probes[n as int].idx as int
            } else {
                limit
            },
        ),
    decreases n,
{
    let bound = if n < probes.len() {
        probes[n as int].idx as int
    } else {
        limit
    };
    if n > 0 {
        lemma_placed_ordered(probes, limit, (n - 1) as nat);
        let before = spec_placed(probes, (n - 1) as nat);
        let placed = spec_placed(probes, n);
        let last = probes[n - 1];
        assert(spec_probe_in_order(probes, n - 1, limit));
        assert forall|k: int| 0 <= k < placed.len() implies #[trigger] spec_probe_in_order(
            placed,
            k,
            bound,
        ) by {
            if k < before.len() {
                assert(spec_probe_in_order(before, k, last.idx as int));
                assert(placed[k] == before[k]);
                if k + 1 < before.len() {
                    assert(placed[k + 1] == before[k + 1]);
                }
            }
        }
    }
}

/// Of probes in order, one that comes before another ends before the other begins.
pub proof fn lemma_ordered_pair(probes: Seq<BarProbe>, limit: int, i: int, j: int)
    requires
        spec_probes_ordered(probes, limit),
        0 <= i < j < probes.len(),
    ensures
        probes[i].idx + (if spec_takes_two_registers(spec_bar_shape(probes[i])) {
            2int
        } else {
            1int
        }) <= probes[j].idx,
    decreases j - i,
{
    assert(spec_probe_in_order(probes, i, limit));
    if i + 1 < j {
        lemma_ordered_pair(probes, limit, i + 1, j);
        assert(spec_probe_in_order(probes, i + 1, limit));
    }
}

/// The BARs that `device_get_bar_infos` places for probes in order are apart: no two
/// of them share a register or an address.
pub proof fn lemma_placed_bars_apart(
    probes: Seq<BarProbe>,
    limit: int,
    bars: Seq<BarInfo>,
    allocator: ResourceAllocator,
)
    requires
        spec_probes_ordered(probes, limit),
        allocator.wf(),
        bars.len() == spec_placed(probes, probes.len()).len(),
        forall|i: int|
            0 <= i < bars.len() ==> spec_bar_from(
                #[trigger] bars[i],
                spec_placed(probes, probes.len())[i],
                allocator,
            ),
        forall|i: int, j: int|
            0 <= i < j < bars.len() ==> spec_disjoint(
                spec_bar_range(#[trigger] bars[i]),
                spec_bar_range(#[trigger] bars[j]),
            ),
    ensures
        spec_bars_apart(bars),
{
    let placed = spec_placed(probes, probes.len());
    lemma_placed_ordered(probes, limit, probes.len());
    assert forall|i: int| 0 <= i < bars.len() implies (#[trigger] bars[i]).size > 0 && bars[i].gpa
        + bars[i].size <= u64::MAX by {
        assert(spec_bar_from(bars[i], placed[i], allocator));
        let w = spec_bar_window(spec_bar_shape(placed[i]));
        assert(allocator.spec_allocated(w).contains((bars[i].gpa, bars[i].size)));
        assert(spec_in_window((bars[i].gpa, bars[i].size), allocator.spec_window(w)));
    }
    assert forall|i: int, j: int| 0 <= i < j < bars.len() implies !spec_share_register(
        #[trigger] bars[i],
        #[trigger] bars[j],
    ) && (bars[i].gpa + bars[i].size <= bars[j].gpa || bars[j].gpa + bars[j].size
        <= bars[i].gpa) by {
        lemma_ordered_pair(placed, limit, i, j);
        assert(spec_bar_from(bars[i], placed[i], allocator));
        assert(spec_bar_from(bars[j], placed[j], allocator));
        assert(spec_disjoint(spec_bar_range(bars[i]), spec_bar_range(bars[j])));
    }
}

} // verus!
