//! Sizing the BARs and the expansion ROM of a device and placing them in the guest.
//!
//! A BAR is sized by writing all ones to its register and reading it back: the bits
//! that stay zero give the size. The prober says which register to read or write
//! next; the caller does so and hands back what was read. What the registers
//! answered is then decoded and each memory BAR gets a guest address range.
use vstd::prelude::*;
use crate::resources::spec_disjoint;
use crate::resources::spec_first_fit;
use crate::resources::spec_in_window;
use crate::resources::spec_range_free;
use crate::resources::MmioWindow;
use crate::resources::ResourceAllocator;
use crate::resources::BAR_ALIGNMENT;
use crate::vfio::error::VfioError;
use crate::vfio::BarInfo;
use crate::vfio::PCI_CONFIG_BAR_OFFSET;
use crate::vfio::PCI_CONFIG_BAR_PREFETCHABLE;
use crate::vfio::PCI_CONFIG_IO_BAR;
use crate::vfio::PCI_CONFIG_MEMORY_BAR_64BIT;
use crate::vfio::VFIO_PCI_BAR5_REGION_INDEX;

verus! {

/// Offset of the expansion ROM register in configuration space.
pub const PCI_CONFIG_ROM_OFFSET: u32 = 0x30;

/// What the registers of one BAR answered.
#[derive(Copy, Clone, Debug, PartialEq, Eq, Structural)]
pub struct BarProbe {
    /// Index of the BAR.
    pub idx: u32,
    /// The register before it was written.
    pub raw: u32,
    /// The register after all ones were written to it.
    pub lower: u32,
    /// The next register after all ones were written to it, for a 64-bit memory BAR;
    /// zero for any other.
    pub upper: u32,
}

/// Kind and size of a BAR.
#[derive(Copy, Clone, Debug, PartialEq, Eq, Structural)]
pub struct BarShape {
    /// True for an I/O BAR.
    pub is_io: bool,
    /// True for a 64-bit BAR.
    pub is_64_bits: bool,
    /// True for a prefetchable BAR.
    pub is_prefetchable: bool,
    /// Size in bytes; zero if the BAR is not implemented.
    pub size: u64,
}

/// The size that a 32-bit register shows after all ones were written to it, its
/// `low_bits` lowest bits being flags: the two's complement of the rest, zero where
/// the rest is zero.
pub open spec fn spec_size32(readback: u32, low_bits: int) -> int {
    let rest = readback as int - readback as int % low_bits;
    if rest == 0 {
        0
    } else {
        0x1_0000_0000 - rest
    }
}

/// The size that the two registers of a 64-bit BAR show after all ones were written
/// to them.
pub open spec fn spec_size64(lower: u32, upper: u32) -> int {
    let rest = upper * 0x1_0000_0000 + lower - lower % 16;
    if rest == 0 {
        0
    } else {
        0x1_0000_0000_0000_0000 - rest
    }
}

/// Kind and size of the BAR that answered `probe`.
pub open spec fn spec_bar_shape(probe: BarProbe) -> BarShape {
    let is_io = probe.raw & PCI_CONFIG_IO_BAR != 0;
    let is_64_bits = probe.raw & PCI_CONFIG_MEMORY_BAR_64BIT != 0;
    BarShape {
        is_io,
        is_64_bits,
        is_prefetchable: probe.raw & PCI_CONFIG_BAR_PREFETCHABLE != 0,
        size: (if is_io {
            spec_size32(probe.lower, 4)
        } else if !is_64_bits {
            spec_size32(probe.lower, 16)
        } else {
            spec_size64(probe.lower, probe.upper)
        }) as u64,
    }
}

/// True if the BAR takes the register after its own too: a memory BAR of 64 bits that
/// is implemented.
pub open spec fn spec_takes_two_registers(shape: BarShape) -> bool {
    shape.size != 0 && !shape.is_io && shape.is_64_bits
}

/// True if the BAR is placed in the guest: a memory BAR that is implemented.
pub open spec fn spec_is_placed(shape: BarShape) -> bool {
    shape.size != 0 && !shape.is_io
}

/// Decodes kind and size of a BAR from what its registers answered.
pub fn bar_shape(probe: &BarProbe) -> (shape: BarShape)
    ensures
        shape == spec_bar_shape(*probe),
{
    let is_io = probe.raw & PCI_CONFIG_IO_BAR != 0;
    let is_64_bits = probe.raw & PCI_CONFIG_MEMORY_BAR_64BIT != 0;
    let is_prefetchable = probe.raw & PCI_CONFIG_BAR_PREFETCHABLE != 0;
    let size: u64 = if is_io {
        let rest: u32 = probe.lower - probe.lower % 4;
        if rest == 0 {
            0
        } else {
            (u32::MAX - rest) as u64 + 1
        }
    } else if !is_64_bits {
        let rest: u32 = probe.lower - probe.lower % 16;
        if rest == 0 {
            0
        } else {
            (u32::MAX - rest) as u64 + 1
        }
    } else {
        let rest: u64 = probe.upper as u64 * 0x1_0000_0000 + (probe.lower - probe.lower % 16) as u64;
        if rest == 0 {
            0
        } else {
            (u64::MAX - rest) + 1
        }
    };
    BarShape { is_io, is_64_bits, is_prefetchable, size }
}

/// What the caller is to do next with the configuration space of the device.
#[derive(Copy, Clone, Debug, PartialEq, Eq, Structural)]
pub enum ConfigAction {
    /// Read the 32-bit register at this offset and hand back its value.
    Read(u32),
    /// Write this value to the 32-bit register at this offset.
    Write(u32, u32),
    /// Nothing is left to do.
    Done,
}

/// Where the prober stands with the BAR it is at.
#[derive(Copy, Clone, Debug, PartialEq, Eq, Structural)]
pub enum ProbeStage {
    /// The register is to be read as it is.
    ReadRaw,
    /// All ones are to be written to the register.
    WriteLower,
    /// The register is to be read back.
    ReadLower,
    /// All ones are to be written to the next register.
    WriteUpper,
    /// The next register is to be read back.
    ReadUpper,
    /// All BARs have been probed.
    Done,
}

/// The prober as a mathematical value.
pub struct BarProberView {
    /// Index of the BAR that is being probed.
    pub bar_idx: u32,
    /// Where the prober stands with it.
    pub stage: ProbeStage,
    /// Its register before it was written, once that was read.
    pub raw: u32,
    /// Its register after all ones were written, once that was read.
    pub lower: u32,
    /// What the BARs probed before answered.
    pub probes: Seq<BarProbe>,
}

/// Offset of the register of the BAR with index `idx`.
pub open spec fn spec_bar_offset(idx: u32) -> int {
    PCI_CONFIG_BAR_OFFSET + 4 * idx
}

impl BarProberView {
    /// What the caller is to do next.
    pub open spec fn action(self) -> ConfigAction {
        match self.stage {
            ProbeStage::ReadRaw => ConfigAction::Read(spec_bar_offset(self.bar_idx) as u32),
            ProbeStage::WriteLower => ConfigAction::Write(
                spec_bar_offset(self.bar_idx) as u32,
                0xffff_ffff,
            ),
            ProbeStage::ReadLower => ConfigAction::Read(spec_bar_offset(self.bar_idx) as u32),
            ProbeStage::WriteUpper => ConfigAction::Write(
                (spec_bar_offset(self.bar_idx) + 4) as u32,
                0xffff_ffff,
            ),
            ProbeStage::ReadUpper => ConfigAction::Read((spec_bar_offset(self.bar_idx) + 4) as u32),
            ProbeStage::Done => ConfigAction::Done,
        }
    }

    /// The prober after `probe` has been recorded: it goes on with the next BAR, or the
    /// one after that where the recorded one takes two registers, and is done after
    /// BAR 5.
    pub open spec fn record(self, probe: BarProbe) -> BarProberView {
        let step: int = if spec_takes_two_registers(spec_bar_shape(probe)) {
            2
        } else {
            1
        };
        let next = self.bar_idx + step;
        BarProberView {
            bar_idx: next as u32,
            stage: if next > VFIO_PCI_BAR5_REGION_INDEX {
                ProbeStage::Done
            } else {
                ProbeStage::ReadRaw
            },
            raw: 0,
            lower: 0,
            probes: self.probes.push(probe),
        }
    }

    /// The prober after the pending action was done, `value` being what was read if it
    /// was a read.
    pub open spec fn advance(self, value: u32) -> BarProberView {
        match self.stage {
            ProbeStage::ReadRaw => BarProberView {
                raw: value,
                stage: ProbeStage::WriteLower,
                ..self
            },
            ProbeStage::WriteLower => BarProberView { stage: ProbeStage::ReadLower, ..self },
            ProbeStage::ReadLower => if self.raw & PCI_CONFIG_IO_BAR == 0 && self.raw
                & PCI_CONFIG_MEMORY_BAR_64BIT != 0 {
                BarProberView { lower: value, stage: ProbeStage::WriteUpper, ..self }
            } else {
                self.record(BarProbe { idx: self.bar_idx, raw: self.raw, lower: value, upper: 0 })
            },
            ProbeStage::WriteUpper => BarProberView { stage: ProbeStage::ReadUpper, ..self },
            ProbeStage::ReadUpper => self.record(
                BarProbe { idx: self.bar_idx, raw: self.raw, lower: self.lower, upper: value },
            ),
            ProbeStage::Done => self,
        }
    }

    /// True for a prober that a run from the start can reach: it is at a BAR from 0 to
    /// 5 unless it is done, the BARs it has probed have ascending indices below the
    /// one it is at, and each that takes two registers is followed by none at the next
    /// index.
    pub open spec fn wf(self) -> bool {
        &&& self.stage != ProbeStage::Done ==> self.bar_idx <= VFIO_PCI_BAR5_REGION_INDEX
        &&& self.bar_idx <= VFIO_PCI_BAR5_REGION_INDEX + 2
        &&& spec_probes_ordered(self.probes, self.bar_idx as int)
    }
}

/// True if the probe at place `i` is in order: its index is that of a BAR, 0 to 5, and
/// the registers it takes, two for a memory BAR of 64 bits and else one, end before
/// the index of the next probe, or before `limit` if it is the last.
pub open spec fn spec_probe_in_order(probes: Seq<BarProbe>, i: int, limit: int) -> bool {
    &&& probes[i].idx <= VFIO_PCI_BAR5_REGION_INDEX
    &&& probes[i].idx + (if spec_takes_two_registers(spec_bar_shape(probes[i])) {
        2int
    } else {
        1int
    }) <= (if i + 1 < probes.len() {
        probes[i + 1].idx as int
    } else {
        limit
    })
}

/// True if the probes are of BARs 0 to 5, have ascending indices, each that takes two
/// registers leaves the next index out, and all registers taken lie below `limit`.
pub open spec fn spec_probes_ordered(probes: Seq<BarProbe>, limit: int) -> bool {
    forall|i: int| 0 <= i < probes.len() ==> #[trigger] spec_probe_in_order(probes, i, limit)
}

/// Walks the BAR registers of a device, one action at a time.
pub struct BarProber {
    bar_idx: u32,
    stage: ProbeStage,
    raw: u32,
    lower: u32,
    probes: Vec<BarProbe>,
}

impl View for BarProber {
    type V = BarProberView;

    closed spec fn view(&self) -> BarProberView {
        BarProberView {
            bar_idx: self.bar_idx,
            stage: self.stage,
            raw: self.raw,
            lower: self.lower,
            probes: self.probes@,
        }
    }
}

impl BarProber {
    /// A prober that is about to read the register of BAR 0.
    pub fn new() -> (p: Self)
        ensures
            p@.wf(),
            p@.bar_idx == 0,
            p@.stage == ProbeStage::ReadRaw,
            p@.probes == Seq::<BarProbe>::empty(),
    {
        BarProber { bar_idx: 0, stage: ProbeStage::ReadRaw, raw: 0, lower: 0, probes: Vec::new() }
    }

    /// What the caller is to do next.
    pub fn action(&self) -> (a: ConfigAction)
        requires
            self@.wf(),
        ensures
            a == self@.action(),
            a is Done <==> self@.stage == ProbeStage::Done,
    {
        match self.stage {
            ProbeStage::ReadRaw => ConfigAction::Read(PCI_CONFIG_BAR_OFFSET + 4 * self.bar_idx),
            ProbeStage::WriteLower => ConfigAction::Write(
                PCI_CONFIG_BAR_OFFSET + 4 * self.bar_idx,
                0xffff_ffff,
            ),
            ProbeStage::ReadLower => ConfigAction::Read(PCI_CONFIG_BAR_OFFSET + 4 * self.bar_idx),
            ProbeStage::WriteUpper => ConfigAction::Write(
                PCI_CONFIG_BAR_OFFSET + 4 * self.bar_idx + 4,
                0xffff_ffff,
            ),
            ProbeStage::ReadUpper => ConfigAction::Read(
                PCI_CONFIG_BAR_OFFSET + 4 * self.bar_idx + 4,
            ),
            ProbeStage::Done => ConfigAction::Done,
        }
    }

    /// Records `probe` and moves to the next BAR.
    fn record(&mut self, probe: BarProbe)
        requires
            old(self)@.wf(),
            old(self)@.stage != ProbeStage::Done,
            probe.idx == old(self)@.bar_idx,
        ensures
            final(self)@ == old(self)@.record(probe),
            final(self)@.wf(),
    {
        let shape = bar_shape(&probe);
        let step: u32 = if shape.size != 0 && !shape.is_io && shape.is_64_bits {
            2
        } else {
            1
        };
        let ghost before = self.probes@;
        self.probes.push(probe);
        self.bar_idx = self.bar_idx + step;
        self.stage = if self.bar_idx > VFIO_PCI_BAR5_REGION_INDEX {
            ProbeStage::Done
        } else {
            ProbeStage::ReadRaw
        };
        self.raw = 0;
        self.lower = 0;
        proof {
            assert forall|i: int| 0 <= i < self.probes@.len() implies #[trigger] spec_probe_in_order(
                self.probes@,
                i,
                self.bar_idx as int,
            ) by {
                if i < before.len() {
                    assert(spec_probe_in_order(before, i, old(self)@.bar_idx as int));
                    assert(self.probes@[i] == before[i]);
                    if i + 1 < before.len() {
                        assert(self.probes@[i + 1] == before[i + 1]);
                    }
                }
            }
        }
    }

    /// Takes note that the pending action was done; `value` is what was read, and is
    /// not looked at after a write.
    pub fn advance(&mut self, value: u32)
        requires
            old(self)@.wf(),
        ensures
            final(self)@ == old(self)@.advance(value),
            final(self)@.wf(),
    {
        match self.stage {
            ProbeStage::ReadRaw => {
                self.raw = value;
                self.stage = ProbeStage::WriteLower;
            },
            ProbeStage::WriteLower => {
                self.stage = ProbeStage::ReadLower;
            },
            ProbeStage::ReadLower => {
                if self.raw & PCI_CONFIG_IO_BAR == 0 && self.raw & PCI_CONFIG_MEMORY_BAR_64BIT != 0 {
                    self.lower = value;
                    self.stage = ProbeStage::WriteUpper;
                } else {
                    let probe = BarProbe {
                        idx: self.bar_idx,
                        raw: self.raw,
                        lower: value,
                        upper: 0,
                    };
                    self.record(probe);
                }
            },
            ProbeStage::WriteUpper => {
                self.stage = ProbeStage::ReadUpper;
            },
            ProbeStage::ReadUpper => {
                let probe = BarProbe {
                    idx: self.bar_idx,
                    raw: self.raw,
                    lower: self.lower,
                    upper: value,
                };
                self.record(probe);
            },
            ProbeStage::Done => {},
        }
    }

    /// What the BARs answered, once all are probed.
    pub fn finish(self) -> (probes: Vec<BarProbe>)
        requires
            self@.wf(),
        ensures
            probes@ == self@.probes,
            spec_probes_ordered(probes@, VFIO_PCI_BAR5_REGION_INDEX + 2),
            forall|i: int|
                0 <= i < probes@.len() ==> (#[trigger] probes@[i]).idx
                    <= VFIO_PCI_BAR5_REGION_INDEX,
    {
        let ghost limit = self.bar_idx as int;
        let probes = self.probes;
        proof {
            assert forall|i: int| 0 <= i < probes@.len() implies #[trigger] spec_probe_in_order(
                probes@,
                i,
                VFIO_PCI_BAR5_REGION_INDEX + 2,
            ) by {
                assert(spec_probe_in_order(probes@, i, limit));
            }
            assert forall|i: int| 0 <= i < probes@.len() implies (#[trigger] probes@[i]).idx
                <= VFIO_PCI_BAR5_REGION_INDEX by {
                assert(spec_probe_in_order(probes@, i, limit));
            }
        }
        probes
    }
}

/// The window from which a BAR of this shape gets its range.
pub open spec fn spec_bar_window(shape: BarShape) -> MmioWindow {
    if shape.is_64_bits {
        MmioWindow::Mmio64
    } else {
        MmioWindow::Mmio32
    }
}

/// What becomes of a probed BAR, `allocation` being the range that was given for it:
/// nothing for a BAR that is not placed, the BAR at its range where one was given, an
/// error where none was.
pub open spec fn spec_place_bar(probe: BarProbe, allocation: Option<u64>) -> Result<
    Option<BarInfo>,
    VfioError,
> {
    let shape = spec_bar_shape(probe);
    if !spec_is_placed(shape) {
        Ok(None)
    } else {
        match allocation {
            None => Err(VfioError::ResourceExhausted),
            Some(gpa) => Ok(
                Some(
                    BarInfo {
                        idx: probe.idx,
                        gpa,
                        size: shape.size,
                        is_64_bits: shape.is_64_bits,
                        is_prefetchable: shape.is_prefetchable,
                        about_to_read_size: false,
                    },
                ),
            ),
        }
    }
}

/// Says what becomes of a probed BAR, given the range that was allocated for it.
pub fn place_bar(probe: &BarProbe, allocation: Option<u64>) -> (r: Result<
    Option<BarInfo>,
    VfioError,
>)
    ensures
        r == spec_place_bar(*probe, allocation),
{
    let shape = bar_shape(probe);
    if shape.size == 0 || shape.is_io {
        return Ok(None);
    }
    match allocation {
        None => Err(VfioError::ResourceExhausted),
        Some(gpa) => Ok(
            Some(
                BarInfo {
                    idx: probe.idx,
                    gpa,
                    size: shape.size,
                    is_64_bits: shape.is_64_bits,
                    is_prefetchable: shape.is_prefetchable,
                    about_to_read_size: false,
                },
            ),
        ),
    }
}

/// True if `bar` is what `probe` was placed as: it has the index, the size and the kind
/// of the probed BAR, and its range is aligned and was handed out from the window of
/// its kind.
pub open spec fn spec_bar_from(bar: BarInfo, probe: BarProbe, allocator: ResourceAllocator) -> bool {
    let shape = spec_bar_shape(probe);
    &&& spec_is_placed(shape)
    &&& bar.idx == probe.idx
    &&& bar.size == shape.size
    &&& bar.is_64_bits == shape.is_64_bits
    &&& bar.is_prefetchable == shape.is_prefetchable
    &&& !bar.about_to_read_size
    &&& bar.gpa % BAR_ALIGNMENT == 0
    &&& allocator.spec_allocated(spec_bar_window(shape)).contains((bar.gpa, bar.size))
}

/// Those of the first `n` probes that are placed, in order.
pub open spec fn spec_placed(probes: Seq<BarProbe>, n: nat) -> Seq<BarProbe>
    decreases n,
{
    if n == 0 {
        Seq::<BarProbe>::empty()
    } else if spec_is_placed(spec_bar_shape(probes[n - 1])) {
        spec_placed(probes, (n - 1) as nat).push(probes[n - 1])
    } else {
        spec_placed(probes, (n - 1) as nat)
    }
}

/// The range of guest addresses of a BAR, as its first address and its length.
pub open spec fn spec_bar_range(bar: BarInfo) -> (u64, u64) {
    (bar.gpa, bar.size)
}

/// How far the placing of the BARs of a device has come.
pub struct Placement {
    /// The BARs placed so far, in order.
    pub bars: Seq<BarInfo>,
    /// The ranges handed out of the window below 4 GiB.
    pub low: Set<(u64, u64)>,
    /// The ranges handed out of the window above 4 GiB.
    pub high: Set<(u64, u64)>,
    /// True once a range could not be had.
    pub failed: bool,
}

/// The placing after the first `n` probes were looked at, `start` being where it
/// began and `low_window` and `high_window` the two windows. A probe that is placed
/// gets the lowest range of its window that is free and aligned to 64 bytes. Once a
/// range cannot be had, nothing more is placed.
pub open spec fn spec_place_bars(
    probes: Seq<BarProbe>,
    start: Placement,
    low_window: (u64, u64),
    high_window: (u64, u64),
    n: nat,
) -> Placement
    decreases n,
{
    if n == 0 {
        start
    } else {
        let before = spec_place_bars(probes, start, low_window, high_window, (n - 1) as nat);
        let probe = probes[n - 1];
        let high = spec_bar_shape(probe).is_64_bits;
        let allocation = if high {
            spec_first_fit(before.high, high_window, spec_bar_shape(probe).size, BAR_ALIGNMENT)
        } else {
            spec_first_fit(before.low, low_window, spec_bar_shape(probe).size, BAR_ALIGNMENT)
        };
        if before.failed {
            before
        } else {
            match spec_place_bar(probe, allocation) {
                Ok(None) => before,
                Err(_) => Placement { failed: true, ..before },
                Ok(Some(bar)) => if high {
                    Placement {
                        bars: before.bars.push(bar),
                        high: before.high.insert((bar.gpa, bar.size)),
                        ..before
                    }
                } else {
                    Placement {
                        bars: before.bars.push(bar),
                        low: before.low.insert((bar.gpa, bar.size)),
                        ..before
                    }
                },
            }
        }
    }
}

/// Once the placing has failed, it stays as it is.
pub proof fn lemma_place_bars_failed_stays(
    probes: Seq<BarProbe>,
    start: Placement,
    low_window: (u64, u64),
    high_window: (u64, u64),
    n: nat,
    m: nat,
)
    requires
        n <= m,
    ensures
        spec_place_bars(probes, start, low_window, high_window, n).failed ==> spec_place_bars(
            probes,
            start,
            low_window,
            high_window,
            m,
        ) == spec_place_bars(probes, start, low_window, high_window, n),
    decreases m,
{
    if n < m {
        lemma_place_bars_failed_stays(probes, start, low_window, high_window, n, (m - 1) as nat);
    }
}

/// The placing of the BARs of a device that begins with what `allocator` has handed
/// out.
pub open spec fn spec_place_all(probes: Seq<BarProbe>, allocator: ResourceAllocator) -> Placement {
    spec_place_bars(
        probes,
        Placement {
            bars: Seq::<BarInfo>::empty(),
            low: allocator.spec_allocated(MmioWindow::Mmio32),
            high: allocator.spec_allocated(MmioWindow::Mmio64),
            failed: false,
        },
        allocator.spec_window(MmioWindow::Mmio32),
        allocator.spec_window(MmioWindow::Mmio64),
        probes.len(),
    )
}

/// Gives each memory BAR of a device a guest address range.
///
/// The BARs are taken in the order in which they were probed. An I/O BAR and a BAR of
/// size zero get nothing. A 64-bit BAR gets a range of the window above 4 GiB, any
/// other memory BAR one of the window below, of the size of the BAR and aligned to 64
/// bytes: the lowest that is free. On success there is one entry for each placed BAR,
/// in order; no two of them share an address, and none shares one with a range handed
/// out before. If a range cannot be had, the result is `ResourceExhausted`, and what
/// was handed out until then stays handed out; a device without a BAR to place never
/// fails and takes nothing from the allocator.
pub fn device_get_bar_infos(probes: &Vec<BarProbe>, resource_allocator: &mut ResourceAllocator) -> (r:
    Result<Vec<BarInfo>, VfioError>)
    requires
        old(resource_allocator).wf(),
    ensures
        final(resource_allocator).wf(),
        final(resource_allocator).spec_window(MmioWindow::Mmio32) == old(
            resource_allocator,
        ).spec_window(MmioWindow::Mmio32),
        final(resource_allocator).spec_window(MmioWindow::Mmio64) == old(
            resource_allocator,
        ).spec_window(MmioWindow::Mmio64),
        final(resource_allocator).spec_next_slot() == old(resource_allocator).spec_next_slot(),
        final(resource_allocator).spec_allocated(MmioWindow::Mmio32) == spec_place_all(
            probes@,
            *old(resource_allocator),
        ).low,
        final(resource_allocator).spec_allocated(MmioWindow::Mmio64) == spec_place_all(
            probes@,
            *old(resource_allocator),
        ).high,
        match r {
            Ok(bars) => !spec_place_all(probes@, *old(resource_allocator)).failed && bars@
                == spec_place_all(probes@, *old(resource_allocator)).bars,
            Err(e) => spec_place_all(probes@, *old(resource_allocator)).failed && e
                == VfioError::ResourceExhausted,
        },
        forall|w: MmioWindow, taken: (u64, u64)| #[trigger]
            old(resource_allocator).spec_allocated(w).contains(taken) ==> final(resource_allocator).spec_allocated(w).contains(taken),
        spec_placed(probes@, probes@.len()).len() == 0 ==> r is Ok && forall|w: MmioWindow|
            final(resource_allocator).spec_allocated(w) == old(resource_allocator).spec_allocated(
                w,
            ),
        r matches Ok(bars) ==> {
            &&& bars@.len() == spec_placed(probes@, probes@.len()).len()
            &&& forall|i: int|
                0 <= i < bars@.len() ==> spec_bar_from(
                    #[trigger] bars@[i],
                    spec_placed(probes@, probes@.len())[i],
                    *final(resource_allocator),
                )
            &&& forall|i: int, j: int|
                0 <= i < j < bars@.len() ==> spec_disjoint(
                    spec_bar_range(#[trigger] bars@[i]),
                    spec_bar_range(#[trigger] bars@[j]),
                )
            &&& forall|i: int, w: MmioWindow, taken: (u64, u64)|
                0 <= i < bars@.len() && #[trigger] old(resource_allocator).spec_allocated(
                    w,
                ).contains(taken) ==> spec_disjoint(taken, spec_bar_range(#[trigger] bars@[i]))
        },
{
    let mut bars: Vec<BarInfo> = Vec::new();
    let mut i: usize = 0;
    let ghost start = Placement {
        bars: Seq::<BarInfo>::empty(),
        low: resource_allocator.spec_allocated(MmioWindow::Mmio32),
        high: resource_allocator.spec_allocated(MmioWindow::Mmio64),
        failed: false,
    };
    while i < probes.len()
        invariant
            i <= probes@.len(),
            old(resource_allocator).wf(),
            resource_allocator.wf(),
            resource_allocator.spec_window(MmioWindow::Mmio32) == old(
                resource_allocator,
            ).spec_window(MmioWindow::Mmio32),
            resource_allocator.spec_window(MmioWindow::Mmio64) == old(
                resource_allocator,
            ).spec_window(MmioWindow::Mmio64),
            resource_allocator.spec_next_slot() == old(resource_allocator).spec_next_slot(),
            start == (Placement {
                bars: Seq::<BarInfo>::empty(),
                low: old(resource_allocator).spec_allocated(MmioWindow::Mmio32),
                high: old(resource_allocator).spec_allocated(MmioWindow::Mmio64),
                failed: false,
            }),
            spec_place_bars(
                probes@,
                start,
                resource_allocator.spec_window(MmioWindow::Mmio32),
                resource_allocator.spec_window(MmioWindow::Mmio64),
                i as nat,
            ) == (Placement {
                bars: bars@,
                low: resource_allocator.spec_allocated(MmioWindow::Mmio32),
                high: resource_allocator.spec_allocated(MmioWindow::Mmio64),
                failed: false,
            }),
            bars@.len() == spec_placed(probes@, i as nat).len(),
            bars@.len() == 0 ==> forall|w: MmioWindow|
                resource_allocator.spec_allocated(w) == old(resource_allocator).spec_allocated(w),
            forall|w: MmioWindow, taken: (u64, u64)| #[trigger]
                old(resource_allocator).spec_allocated(w).contains(taken)
                    ==> resource_allocator.spec_allocated(w).contains(taken),
            forall|k: int|
                0 <= k < bars@.len() ==> spec_bar_from(
                    #[trigger] bars@[k],
                    spec_placed(probes@, i as nat)[k],
                    *resource_allocator,
                ),
            forall|k: int, j: int|
                0 <= k < j < bars@.len() ==> spec_disjoint(
                    spec_bar_range(#[trigger] bars@[k]),
                    spec_bar_range(#[trigger] bars@[j]),
                ),
            forall|k: int, w: MmioWindow, taken: (u64, u64)|
                0 <= k < bars@.len() && #[trigger] old(resource_allocator).spec_allocated(
                    w,
                ).contains(taken) ==> spec_disjoint(taken, spec_bar_range(#[trigger] bars@[k])),
        decreases probes@.len() - i,
    {
        let probe = probes[i];
        let shape = bar_shape(&probe);
        let ghost placed = spec_placed(probes@, i as nat);
        if shape.size != 0 && !shape.is_io {
            let window = if shape.is_64_bits {
                MmioWindow::Mmio64
            } else {
                MmioWindow::Mmio32
            };
            let ghost before = *resource_allocator;
            let ghost bars_before = bars@;
            let allocation = resource_allocator.allocate(window, shape.size, BAR_ALIGNMENT).ok();
            proof {
                lemma_placed_grows(probes@, (i + 1) as nat, probes@.len());
                lemma_place_bars_failed_stays(
                    probes@,
                    start,
                    resource_allocator.spec_window(MmioWindow::Mmio32),
                    resource_allocator.spec_window(MmioWindow::Mmio64),
                    (i + 1) as nat,
                    probes@.len(),
                );
            }
            match place_bar(&probe, allocation) {
                Err(e) => {
                    return Err(e);
                },
                Ok(None) => {},
                Ok(Some(bar)) => {
                    proof {
                        assert(spec_range_free(
                            before.spec_allocated(window),
                            before.spec_window(window),
                            bar.gpa,
                            bar.size,
                            BAR_ALIGNMENT,
                        ));
                        assert(spec_bar_from(bar, probes@[i as int], *resource_allocator));
                        assert forall|k: int| 0 <= k < bars_before.len() implies spec_bar_from(
                            #[trigger] bars_before[k],
                            placed[k],
                            *resource_allocator,
                        ) && spec_disjoint(spec_bar_range(bars_before[k]), spec_bar_range(bar)) by {
                            let w = spec_bar_window(spec_bar_shape(placed[k]));
                            assert(spec_bar_from(bars_before[k], placed[k], before));
                            assert(before.spec_allocated(w).contains(spec_bar_range(bars_before[k])));
                            assert(resource_allocator.spec_allocated(w).contains(
                                spec_bar_range(bars_before[k]),
                            ));
                            assert(spec_in_window(spec_bar_range(bars_before[k]), before.spec_window(w)));
                        }
                        assert forall|w: MmioWindow, taken: (u64, u64)| #[trigger]
                            old(resource_allocator).spec_allocated(w).contains(
                                taken,
                            ) implies spec_disjoint(taken, spec_bar_range(bar)) by {
                            assert(before.spec_allocated(w).contains(taken));
                            assert(spec_in_window(taken, before.spec_window(w)));
                        }
                    }
                    bars.push(bar);
                },
            }
        }
        i = i + 1;
    }
    Ok(bars)
}

/// The placed probes among the first `n` are among those of the first `m`, for `m`
/// from `n` on.
pub proof fn lemma_placed_grows(probes: Seq<BarProbe>, n: nat, m: nat)
    requires
        n <= m,
    ensures
        spec_placed(probes, n).len() <= spec_placed(probes, m).len(),
    decreases m,
{
    if n < m {
        lemma_placed_grows(probes, n, (m - 1) as nat);
    }
}

} // verus!
