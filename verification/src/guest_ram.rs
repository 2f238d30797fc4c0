//! The bytes of guest memory, as far as devices read and write them.
use vstd::prelude::*;
use crate::memory::GuestRegionType;

verus! {

/// One region of guest memory with its bytes.
#[derive(Clone, Debug)]
pub struct RamRegion {
    /// Guest physical address of the first byte.
    pub start: u64,
    /// What the region is.
    pub region_type: GuestRegionType,
    /// The bytes of the region.
    pub bytes: Vec<u8>,
}

/// A region as a mathematical value.
pub struct RamRegionView {
    /// Guest physical address of the first byte.
    pub start: u64,
    /// What the region is.
    pub region_type: GuestRegionType,
    /// The bytes of the region.
    pub bytes: Seq<u8>,
}

impl View for RamRegion {
    type V = RamRegionView;

    open spec fn view(&self) -> RamRegionView {
        RamRegionView { start: self.start, region_type: self.region_type, bytes: self.bytes@ }
    }
}

impl RamRegionView {
    /// True if the region is ordinary memory and holds the `len` bytes from `addr`.
    pub open spec fn holds(self, addr: u64, len: int) -> bool {
        self.region_type == GuestRegionType::Dram && self.start <= addr && addr - self.start + len
            <= self.bytes.len()
    }
}

/// The regions of a list, each as a mathematical value.
pub open spec fn spec_ram_view(regions: Seq<RamRegion>) -> Seq<RamRegionView> {
    Seq::new(regions.len(), |i: int| regions[i]@)
}

/// The first of the first `n` regions that holds the `len` bytes from `addr`.
pub open spec fn spec_region_of(regions: Seq<RamRegionView>, addr: u64, len: int, n: nat) -> Option<
    int,
>
    decreases n,
{
    if n == 0 {
        None
    } else {
        match spec_region_of(regions, addr, len, (n - 1) as nat) {
            Some(i) => Some(i),
            None => if regions[n - 1].holds(addr, len) {
                Some(n - 1)
            } else {
                None
            },
        }
    }
}

/// What `spec_region_of` finds is a region among the first `n` that holds the bytes.
pub proof fn lemma_region_of(regions: Seq<RamRegionView>, addr: u64, len: int, n: nat)
    requires
        n <= regions.len(),
    ensures
        spec_region_of(regions, addr, len, n) matches Some(i) ==> 0 <= i < n && regions[i].holds(
            addr,
            len,
        ),
    decreases n,
{
    if n > 0 {
        lemma_region_of(regions, addr, len, (n - 1) as nat);
    }
}

/// Once one of the first `n` regions holds the bytes, the first that does stays the
/// answer for every longer prefix.
pub proof fn lemma_region_of_stays(regions: Seq<RamRegionView>, addr: u64, len: int, n: nat, m: nat)
    requires
        n <= m,
    ensures
        spec_region_of(regions, addr, len, n) is Some ==> spec_region_of(regions, addr, len, m)
            == spec_region_of(regions, addr, len, n),
    decreases m,
{
    if n < m {
        lemma_region_of_stays(regions, addr, len, n, (m - 1) as nat);
    }
}

/// Guest memory as a mathematical value: its regions.
pub struct GuestRamView {
    /// The regions.
    pub regions: Seq<RamRegionView>,
}

impl GuestRamView {
    /// The region that holds the `len` bytes from `addr`, if they lie in one region of
    /// ordinary memory.
    pub open spec fn region_of(self, addr: u64, len: int) -> Option<int> {
        spec_region_of(self.regions, addr, len, self.regions.len())
    }

    /// True if the `len` bytes from `addr` lie in one region of ordinary memory.
    pub open spec fn in_dram(self, addr: u64, len: int) -> bool {
        self.region_of(addr, len) is Some
    }

    /// The `len` bytes from `addr`, if they lie in one region of ordinary memory.
    pub open spec fn read(self, addr: u64, len: int) -> Option<Seq<u8>> {
        match self.region_of(addr, len) {
            Some(i) => Some(
                self.regions[i].bytes.subrange(
                    addr - self.regions[i].start,
                    addr - self.regions[i].start + len,
                ),
            ),
            None => None,
        }
    }

    /// The bytes of a region after `data` was written at `at`.
    pub open spec fn bytes_after(bytes: Seq<u8>, at: int, data: Seq<u8>) -> Seq<u8> {
        Seq::new(
            bytes.len(),
            |k: int|
                if at <= k < at + data.len() {
                    data[k - at]
                } else {
                    bytes[k]
                },
        )
    }

    /// Guest memory after `data` was written at `addr`; unchanged if the bytes do not
    /// lie in one region of ordinary memory.
    pub open spec fn write(self, addr: u64, data: Seq<u8>) -> GuestRamView {
        match self.region_of(addr, data.len() as int) {
            Some(i) => GuestRamView {
                regions: self.regions.update(
                    i,
                    RamRegionView {
                        bytes: Self::bytes_after(
                            self.regions[i].bytes,
                            addr - self.regions[i].start,
                            data,
                        ),
                        ..self.regions[i]
                    },
                ),
            },
            None => self,
        }
    }

    /// True if the two memories have the same regions and differ at most in the bytes
    /// of the `len` addresses from `addr`.
    pub open spec fn same_outside(self, other: GuestRamView, addr: u64, len: int) -> bool {
        &&& self.regions.len() == other.regions.len()
        &&& forall|i: int|
            0 <= i < self.regions.len() ==> {
                &&& (#[trigger] self.regions[i]).start == other.regions[i].start
                &&& self.regions[i].region_type == other.regions[i].region_type
                &&& self.regions[i].bytes.len() == other.regions[i].bytes.len()
                &&& forall|k: int|
                    0 <= k < self.regions[i].bytes.len() && !(addr <= self.regions[i].start + k
                        < addr + len) ==> #[trigger] self.regions[i].bytes[k]
                        == other.regions[i].bytes[k]
            }
    }
}

/// A write changes no byte outside the range it is made on.
pub proof fn lemma_write_same_outside(mem: GuestRamView, addr: u64, data: Seq<u8>)
    ensures
        mem.same_outside(mem.write(addr, data), addr, data.len() as int),
{
    lemma_region_of(mem.regions, addr, data.len() as int, mem.regions.len());
}

/// Reading back what was written gives what was written.
pub proof fn lemma_write_then_read(mem: GuestRamView, addr: u64, data: Seq<u8>)
    requires
        mem.in_dram(addr, data.len() as int),
    ensures
        mem.write(addr, data).read(addr, data.len() as int) == Some(data),
{
    let len = data.len() as int;
    lemma_region_of(mem.regions, addr, len, mem.regions.len());
    let i = mem.region_of(addr, len)->Some_0;
    let after = mem.write(addr, data);
    lemma_region_of_same(mem.regions, after.regions, addr, len, mem.regions.len());
    assert(after.regions[i].bytes.subrange(
        addr - after.regions[i].start,
        addr - after.regions[i].start + len,
    ) =~= data);
}

/// Two lists of regions that agree in where their regions lie, what they are and how
/// long they are, answer alike which region holds a range.
pub proof fn lemma_region_of_same(
    a: Seq<RamRegionView>,
    b: Seq<RamRegionView>,
    addr: u64,
    len: int,
    n: nat,
)
    requires
        n <= a.len(),
        a.len() == b.len(),
        forall|i: int|
            0 <= i < a.len() ==> (#[trigger] a[i]).start == b[i].start && a[i].region_type
                == b[i].region_type && a[i].bytes.len() == b[i].bytes.len(),
    ensures
        spec_region_of(a, addr, len, n) == spec_region_of(b, addr, len, n),
    decreases n,
{
    if n > 0 {
        lemma_region_of_same(a, b, addr, len, (n - 1) as nat);
        assert(a[n - 1].start == b[n - 1].start);
    }
}

/// The memory of a guest.
#[derive(Clone, Debug)]
pub struct GuestRam {
    regions: Vec<RamRegion>,
}

impl View for GuestRam {
    type V = GuestRamView;

    closed spec fn view(&self) -> GuestRamView {
        GuestRamView { regions: spec_ram_view(self.regions@) }
    }
}

impl GuestRam {
    /// A memory with the given regions.
    pub fn new(regions: Vec<RamRegion>) -> (mem: Self)
        ensures
            mem@.regions == spec_ram_view(regions@),
    {
        GuestRam { regions }
    }

    /// A memory of one region of ordinary memory, `size` bytes of zero from `start`.
    pub fn with_dram(start: u64, size: usize) -> (mem: Self)
        ensures
            mem@.regions.len() == 1,
            mem@.regions[0].start == start,
            mem@.regions[0].region_type == GuestRegionType::Dram,
            mem@.regions[0].bytes == Seq::new(size as nat, |k: int| 0u8),
    {
        let mut bytes: Vec<u8> = Vec::new();
        let mut i: usize = 0;
        while i < size
            invariant
                i <= size,
                bytes@ == Seq::new(i as nat, |k: int| 0u8),
            decreases size - i,
        {
            bytes.push(0);
            i = i + 1;
            proof {
                assert(bytes@ =~= Seq::new(i as nat, |k: int| 0u8));
            }
        }
        let mut regions: Vec<RamRegion> = Vec::new();
        regions.push(RamRegion { start, region_type: GuestRegionType::Dram, bytes });
        GuestRam { regions }
    }

    /// Finds the region that holds the `len` bytes from `addr`.
    fn region_of(&self, addr: u64, len: usize) -> (r: Option<usize>)
        ensures
            match r {
                Some(i) => self@.region_of(addr, len as int) == Some(i as int) && i
                    < self.regions@.len() && self.regions@[i as int]@.holds(addr, len as int),
                None => self@.region_of(addr, len as int) is None,
            },
    {
        let mut i: usize = 0;
        while i < self.regions.len()
            invariant
                i <= self.regions@.len(),
                spec_region_of(self@.regions, addr, len as int, i as nat) is None,
            decreases self.regions@.len() - i,
        {
            let region = &self.regions[i];
            let size: usize = region.bytes.len();
            let is_dram = match region.region_type {
                GuestRegionType::Dram => true,
                GuestRegionType::Device => false,
            };
            if is_dram && region.start <= addr && addr - region.start <= size as u64 && len <= size
                - (addr - region.start) as usize {
                proof {
                    assert(self@.regions[i as int] == self.regions@[i as int]@);
                    lemma_region_of_stays(
                        self@.regions,
                        addr,
                        len as int,
                        (i + 1) as nat,
                        self.regions@.len(),
                    );
                }
                return Some(i);
            }
            proof {
                assert(self@.regions[i as int] == self.regions@[i as int]@);
            }
            i = i + 1;
        }
        None
    }

    /// Says whether the `len` bytes from `addr` lie in one region of ordinary memory.
    pub fn in_dram(&self, addr: u64, len: usize) -> (b: bool)
        ensures
            b == self@.in_dram(addr, len as int),
    {
        self.region_of(addr, len).is_some()
    }

    /// Reads the `len` bytes from `addr`, if they lie in one region of ordinary
    /// memory.
    pub fn read(&self, addr: u64, len: usize) -> (r: Option<Vec<u8>>)
        ensures
            match self@.read(addr, len as int) {
                Some(bytes) => r is Some && r->Some_0@ == bytes,
                None => r is None,
            },
            r matches Some(bytes) ==> bytes@.len() == len,
    {
        match self.region_of(addr, len) {
            None => None,
            Some(i) => {
                let region = &self.regions[i];
                let size: usize = region.bytes.len();
                let at: usize = (addr - region.start) as usize;
                let mut out: Vec<u8> = Vec::new();
                let mut k: usize = 0;
                while k < len
                    invariant
                        k <= len,
                        size == region.bytes@.len(),
                        at + len <= size,
                        out@ == region.bytes@.subrange(at as int, at + k),
                    decreases len - k,
                {
                    out.push(region.bytes[at + k]);
                    k = k + 1;
                    proof {
                        assert(out@ =~= region.bytes@.subrange(at as int, at + k));
                    }
                }
                proof {
                    assert(self@.regions[i as int] == self.regions@[i as int]@);
                }
                Some(out)
            },
        }
    }

    /// Writes `data` at `addr`. Says whether the bytes lie in one region of ordinary
    /// memory; if they do not, nothing is written.
    pub fn write(&mut self, addr: u64, data: &[u8]) -> (written: bool)
        ensures
            written == old(self)@.in_dram(addr, data@.len() as int),
            final(self)@ == old(self)@.write(addr, data@),
    {
        let len: usize = data.len();
        match self.region_of(addr, len) {
            None => false,
            Some(i) => {
                let size: usize = self.regions[i].bytes.len();
                let at: usize = (addr - self.regions[i].start) as usize;
                let mut bytes: Vec<u8> = Vec::new();
                core::mem::swap(&mut bytes, &mut self.regions[i].bytes);
                let ghost before = bytes@;
                let mut k: usize = 0;
                while k < len
                    invariant
                        k <= len,
                        len == data@.len(),
                        bytes@.len() == before.len(),
                        size == before.len(),
                        at + len <= size,
                        forall|j: int|
                            0 <= j < bytes@.len() ==> bytes@[j] == (if at <= j < at + k {
                                data@[j - at]
                            } else {
                                before[j]
                            }),
                    decreases len - k,
                {
                    bytes[at + k] = data[k];
                    k = k + 1;
                }
                core::mem::swap(&mut bytes, &mut self.regions[i].bytes);
                proof {
                    assert(old(self)@.regions[i as int] == old(self).regions@[i as int]@);
                    assert(self.regions@[i as int].bytes@ =~= GuestRamView::bytes_after(
                        before,
                        at as int,
                        data@,
                    ));
                    assert(self@.regions =~= old(self)@.write(addr, data@).regions);
                }
                true
            },
        }
    }
}

} // verus!
