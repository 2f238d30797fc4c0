//! Guest resources that are handed out to devices: address ranges for memory mapped
//! I/O below and above 4 GiB, and the slots in which memory is shown to the guest.
use vstd::prelude::*;
use vm_allocator::AddressAllocator;
use vm_allocator::AllocPolicy;

verus! {

/// First address of the window for 32-bit memory mapped I/O.
pub const MMIO32_MEM_START: u64 = 0xd000_0000;

/// Size of the window for 32-bit memory mapped I/O.
pub const MMIO32_MEM_SIZE: u64 = 0x3000_0000;

/// First address of the window for 64-bit memory mapped I/O.
pub const MMIO64_MEM_START: u64 = 0x40_0000_0000;

/// Size of the window for 64-bit memory mapped I/O.
pub const MMIO64_MEM_SIZE: u64 = 0x40_0000_0000;

/// Alignment of the ranges given to the BARs of passthrough devices.
pub const BAR_ALIGNMENT: u64 = 64;

/// `vm_allocator::AddressAllocator`, an allocator of address ranges. Nothing of what
/// it holds is seen here; what is said of it is said by the two names below.
#[verifier::external_type_specification]
#[verifier::external_body]
pub struct ExAddressAllocator(vm_allocator::AddressAllocator);

/// `vm_allocator::Error`, with which an allocator refuses a request. Nothing of what
/// it holds is looked at: a request that is refused is refused.
#[verifier::external_type_specification]
#[verifier::external_body]
pub struct ExAllocatorError(vm_allocator::Error);

/// The ranges that an allocator has handed out and not taken back, each as its first
/// address and its length.
pub uninterp spec fn allocated_ranges(a: AddressAllocator) -> Set<(u64, u64)>;

/// The first and the last address of the space that an allocator manages.
pub uninterp spec fn managed_space(a: AddressAllocator) -> (u64, u64);

/// True if the two ranges, each given by its first address and its length, share no
/// address.
pub open spec fn spec_disjoint(a: (u64, u64), b: (u64, u64)) -> bool {
    a.0 + a.1 <= b.0 || b.0 + b.1 <= a.0
}

/// True if the range, given by its first address and its length, is not empty and lies
/// between the first and the last address of `space`.
pub open spec fn spec_in_window(r: (u64, u64), space: (u64, u64)) -> bool {
    r.1 > 0 && space.0 <= r.0 && r.0 + r.1 - 1 <= space.1
}

/// True if the range of `size` addresses from `start` can be handed out: it is not
/// empty, starts at a multiple of `alignment`, lies in `space` and shares no address
/// with a range of `taken`.
pub open spec fn spec_range_free(
    taken: Set<(u64, u64)>,
    space: (u64, u64),
    start: u64,
    size: u64,
    alignment: u64,
) -> bool {
    &&& size > 0
    &&& alignment > 0
    &&& start % alignment == 0
    &&& space.0 <= start
    &&& start + size - 1 <= space.1
    &&& forall|r: (u64, u64)| #[trigger] taken.contains(r) ==> spec_disjoint(r, (start, size))
}

/// True if `alignment` is a power of two.
pub open spec fn spec_power_of_two(alignment: u64) -> bool {
    alignment > 0 && alignment & ((alignment - 1) as u64) == 0
}

/// True if `start` is the lowest address from which `size` addresses can be handed
/// out.
pub open spec fn spec_first_free(
    taken: Set<(u64, u64)>,
    space: (u64, u64),
    start: u64,
    size: u64,
    alignment: u64,
) -> bool {
    &&& spec_range_free(taken, space, start, size, alignment)
    &&& forall|lower: u64|
        lower < start ==> !#[trigger] spec_range_free(taken, space, lower, size, alignment)
}

/// The address at which a request for `size` addresses is served: the lowest from
/// which they can be handed out. There is none if the alignment is no power of two or
/// the addresses cannot be had anywhere.
pub open spec fn spec_first_fit(
    taken: Set<(u64, u64)>,
    space: (u64, u64),
    size: u64,
    alignment: u64,
) -> Option<u64> {
    if spec_power_of_two(alignment) && exists|s: u64| #[trigger]
        spec_range_free(taken, space, s, size, alignment) {
        Some(choose|s: u64| spec_first_free(taken, space, s, size, alignment))
    } else {
        None
    }
}

/// The lowest address from which a range can be handed out is the one at which the
/// request is served, and no other is.
pub proof fn lemma_first_fit(
    taken: Set<(u64, u64)>,
    space: (u64, u64),
    start: u64,
    size: u64,
    alignment: u64,
)
    requires
        spec_power_of_two(alignment),
    ensures
        spec_first_free(taken, space, start, size, alignment) <==> spec_first_fit(
            taken,
            space,
            size,
            alignment,
        ) == Some(start),
{
    if spec_first_free(taken, space, start, size, alignment) {
        let chosen = choose|s: u64| spec_first_free(taken, space, s, size, alignment);
        assert(spec_range_free(taken, space, start, size, alignment));
        assert(spec_range_free(taken, space, chosen, size, alignment));
        assert(chosen == start);
    }
    if spec_first_fit(taken, space, size, alignment) == Some(start) {
        let s = choose|s: u64| #[trigger] spec_range_free(taken, space, s, size, alignment);
        lemma_lowest_exists(taken, space, s, size, alignment);
    }
}

/// Where a range can be handed out at all, there is a lowest address from which it
/// can.
pub proof fn lemma_lowest_exists(
    taken: Set<(u64, u64)>,
    space: (u64, u64),
    start: u64,
    size: u64,
    alignment: u64,
)
    requires
        spec_range_free(taken, space, start, size, alignment),
    ensures
        exists|s: u64| spec_first_free(taken, space, s, size, alignment),
    decreases start,
{
    if exists|lower: u64|
        lower < start && #[trigger] spec_range_free(taken, space, lower, size, alignment) {
        let lower = choose|lower: u64|
            lower < start && #[trigger] spec_range_free(taken, space, lower, size, alignment);
        lemma_lowest_exists(taken, space, lower, size, alignment);
    } else {
        assert(spec_first_free(taken, space, start, size, alignment));
    }
}

/// Makes an allocator for the `size` addresses from `base`.
///
/// Calls `vm_allocator::AddressAllocator::new`, which refuses a size of zero and a
/// space that ends beyond the last 64-bit address, and else gives an allocator of
/// which nothing is handed out.
#[verifier::external_body]
fn address_allocator_new(base: u64, size: u64) -> (r: Result<AddressAllocator, vm_allocator::Error>)
    ensures
        r is Ok <==> (size > 0 && base + size - 1 <= u64::MAX),
        r matches Ok(a) ==> managed_space(a) == (base, (base + size - 1) as u64)
            && allocated_ranges(a) == Set::<(u64, u64)>::empty(),
{
    AddressAllocator::new(base, size)
}

/// Asks an allocator for `size` addresses that start at a multiple of `alignment`.
///
/// Calls `vm_allocator::AddressAllocator::allocate` with the policy `FirstMatch`. It
/// refuses a size of zero and an alignment that is no power of two. Else it walks the
/// free parts of its space from the lowest address up and serves the request from the
/// first that can hold the range at an aligned address, at the lowest such address:
/// so the range it gives is the lowest that was free in the sense of
/// `spec_range_free`, and is handed out from then on. On failure nothing changes. A
/// request that can be served is served, unless the space reaches the last address of
/// all: there the allocator fails on a range that ends at that address. The managed
/// space never changes.
#[verifier::external_body]
fn address_allocator_allocate(a: &mut AddressAllocator, size: u64, alignment: u64) -> (r: Result<
    u64,
    vm_allocator::Error,
>)
    ensures
        managed_space(*final(a)) == managed_space(*old(a)),
        r is Err ==> allocated_ranges(*final(a)) == allocated_ranges(*old(a)),
        r matches Ok(start) ==> spec_power_of_two(alignment) && spec_first_free(
            allocated_ranges(*old(a)),
            managed_space(*old(a)),
            start,
            size,
            alignment,
        ) && allocated_ranges(*final(a)) == allocated_ranges(*old(a)).insert((start, size)),
        r is Err && managed_space(*old(a)).1 < u64::MAX ==> spec_first_fit(
            allocated_ranges(*old(a)),
            managed_space(*old(a)),
            size,
            alignment,
        ) is None,
{
    match a.allocate(size, alignment, AllocPolicy::FirstMatch) {
        Ok(range) => Ok(range.start()),
        Err(e) => Err(e),
    }
}

/// Errors of handing out resources.
#[derive(Copy, Clone, Debug, PartialEq, Eq, Structural)]
pub enum ResourceError {
    /// Nothing that fits is left to hand out.
    Exhausted,
}

/// Which window a range is taken from.
#[derive(Copy, Clone, Debug, PartialEq, Eq, Structural)]
pub enum MmioWindow {
    /// The window below 4 GiB.
    Mmio32,
    /// The window above 4 GiB.
    Mmio64,
}

/// Hands out guest address ranges and memory slots.
pub struct ResourceAllocator {
    /// Allocator of the window below 4 GiB.
    mmio32_memory: AddressAllocator,
    /// Allocator of the window above 4 GiB.
    mmio64_memory: AddressAllocator,
    /// Number of the next memory slot.
    next_slot: u32,
}

impl ResourceAllocator {
    /// The ranges handed out from a window.
    pub closed spec fn spec_allocated(&self, window: MmioWindow) -> Set<(u64, u64)> {
        match window {
            MmioWindow::Mmio32 => allocated_ranges(self.mmio32_memory),
            MmioWindow::Mmio64 => allocated_ranges(self.mmio64_memory),
        }
    }

    /// The number of the memory slot that is handed out next.
    pub closed spec fn spec_next_slot(&self) -> u32 {
        self.next_slot
    }

    /// The first and last address of a window.
    pub closed spec fn spec_window(&self, window: MmioWindow) -> (u64, u64) {
        match window {
            MmioWindow::Mmio32 => managed_space(self.mmio32_memory),
            MmioWindow::Mmio64 => managed_space(self.mmio64_memory),
        }
    }

    /// True if the lower window ends before the upper one starts, the upper one ends
    /// before the last address, and every range handed out lies in its window.
    pub open spec fn wf(&self) -> bool {
        let low = self.spec_window(MmioWindow::Mmio32);
        let high = self.spec_window(MmioWindow::Mmio64);
        &&& low.0 <= low.1 && low.1 < high.0 && high.0 <= high.1 && high.1 < u64::MAX
        &&& forall|w: MmioWindow, r: (u64, u64)| #[trigger]
            self.spec_allocated(w).contains(r) ==> spec_in_window(r, self.spec_window(w))
    }

    /// An allocator with the usual windows and nothing handed out.
    pub fn new() -> (r: Self)
        ensures
            r.wf(),
            r.spec_window(MmioWindow::Mmio32) == (MMIO32_MEM_START, 0xffff_ffffu64),
            r.spec_window(MmioWindow::Mmio64) == (MMIO64_MEM_START, 0x7f_ffff_ffffu64),
            r.spec_allocated(MmioWindow::Mmio32) == Set::<(u64, u64)>::empty(),
            r.spec_allocated(MmioWindow::Mmio64) == Set::<(u64, u64)>::empty(),
            r.spec_next_slot() == 0,
    {
        let made = Self::with_windows(
            (MMIO32_MEM_START, MMIO32_MEM_SIZE),
            (MMIO64_MEM_START, MMIO64_MEM_SIZE),
        );
        made.unwrap()
    }

    /// An allocator with the given windows, each as its first address and its size.
    /// There is none if a window is empty, if the lower window does not end before
    /// the upper one starts, or if the upper one does not end before the last
    /// address.
    pub fn with_windows(low: (u64, u64), high: (u64, u64)) -> (r: Option<Self>)
        ensures
            r is Some <==> (low.1 > 0 && high.1 > 0 && low.0 + low.1 <= high.0 && high.0 + high.1
                <= u64::MAX),
            r matches Some(a) ==> a.wf() && a.spec_window(MmioWindow::Mmio32) == (
                low.0,
                (low.0 + low.1 - 1) as u64,
            ) && a.spec_window(MmioWindow::Mmio64) == (high.0, (high.0 + high.1 - 1) as u64)
                && a.spec_allocated(MmioWindow::Mmio32) == Set::<(u64, u64)>::empty()
                && a.spec_allocated(MmioWindow::Mmio64) == Set::<(u64, u64)>::empty()
                && a.spec_next_slot() == 0,
    {
        if low.1 == 0 || high.1 == 0 || low.0 > u64::MAX - low.1 || low.0 + low.1 > high.0
            || high.0 > u64::MAX - high.1 {
            return None;
        }
        let low_allocator = address_allocator_new(low.0, low.1);
        let high_allocator = address_allocator_new(high.0, high.1);
        match (low_allocator, high_allocator) {
            (Ok(l), Ok(h)) => Some(
                ResourceAllocator { mmio32_memory: l, mmio64_memory: h, next_slot: 0 },
            ),
            _ => None,
        }
    }

    /// Asks for `size` addresses of a window that start at a multiple of `alignment`,
    /// which must be a power of two.
    ///
    /// The range that is given is the lowest of the window that is aligned and shares
    /// no address with a range given before. If there is none, nothing is handed out.
    /// The other window is left as it was.
    pub fn allocate(&mut self, window: MmioWindow, size: u64, alignment: u64) -> (r: Result<
        u64,
        ResourceError,
    >)
        requires
            old(self).wf(),
        ensures
            r matches Err(e) ==> e == ResourceError::Exhausted,
            final(self).wf(),
            final(self).spec_next_slot() == old(self).spec_next_slot(),
            final(self).spec_window(MmioWindow::Mmio32) == old(self).spec_window(
                MmioWindow::Mmio32,
            ),
            final(self).spec_window(MmioWindow::Mmio64) == old(self).spec_window(
                MmioWindow::Mmio64,
            ),
            forall|w: MmioWindow| w != window ==> final(self).spec_allocated(w) == old(
                self,
            ).spec_allocated(w),
            r is Err ==> final(self).spec_allocated(window) == old(self).spec_allocated(window),
            r matches Ok(start) ==> spec_first_free(
                old(self).spec_allocated(window),
                old(self).spec_window(window),
                start,
                size,
                alignment,
            ) && final(self).spec_allocated(window) == old(self).spec_allocated(window).insert(
                (start, size),
            ),
            match spec_first_fit(
                old(self).spec_allocated(window),
                old(self).spec_window(window),
                size,
                alignment,
            ) {
                Some(start) => r == Ok::<u64, ResourceError>(start),
                None => r is Err,
            },
    {
        let r = match window {
            MmioWindow::Mmio32 => address_allocator_allocate(
                &mut self.mmio32_memory,
                size,
                alignment,
            ),
            MmioWindow::Mmio64 => address_allocator_allocate(
                &mut self.mmio64_memory,
                size,
                alignment,
            ),
        };
        proof {
            assert forall|w: MmioWindow, range: (u64, u64)| #[trigger]
                self.spec_allocated(w).contains(range) implies spec_in_window(
                range,
                self.spec_window(w),
            ) by {
                if !old(self).spec_allocated(w).contains(range) {
                    assert(w == window && range == (r->Ok_0, size));
                }
            }
            if r is Ok {
                lemma_first_fit(
                    old(self).spec_allocated(window),
                    old(self).spec_window(window),
                    r->Ok_0,
                    size,
                    alignment,
                );
            }
        }
        match r {
            Ok(start) => Ok(start),
            Err(_) => Err(ResourceError::Exhausted),
        }
    }

    /// Reserves `count` memory slots that follow each other and gives the number of
    /// the first, or nothing if the numbers run out.
    pub fn next_kvm_slot(&mut self, count: u32) -> (r: Option<u32>)
        ensures
            old(self).wf() ==> final(self).wf(),
            forall|w: MmioWindow|
                final(self).spec_window(w) == old(self).spec_window(w) && final(self).spec_allocated(w)
                    == old(self).spec_allocated(w),
            old(self).spec_next_slot() + count <= u32::MAX ==> r == Some(old(self).spec_next_slot())
                && final(self).spec_next_slot() == old(self).spec_next_slot() + count,
            old(self).spec_next_slot() + count > u32::MAX ==> r is None && final(self).spec_next_slot() == old(self).spec_next_slot(),
    {
        let r = match self.next_slot.checked_add(count) {
            Some(next) => {
                let first = self.next_slot;
                self.next_slot = next;
                Some(first)
            },
            None => None,
        };
        proof {
            assert(self.spec_allocated(MmioWindow::Mmio32) == old(self).spec_allocated(
                MmioWindow::Mmio32,
            ));
            assert(self.spec_allocated(MmioWindow::Mmio64) == old(self).spec_allocated(
                MmioWindow::Mmio64,
            ));
        }
        r
    }
}

} // verus!
