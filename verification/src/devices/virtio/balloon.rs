//! The memory balloon: the guest gives pages back to the host and takes them again.
use vstd::prelude::*;
use crate::devices::virtio::queue::Descriptor;
use crate::devices::virtio::queue::DescriptorChain;
use crate::devices::virtio::queue::Queue;
use crate::devices::virtio::queue::lemma_add_used_touches_ring_only;
use crate::devices::virtio::queue::spec_unset_queue;
use crate::devices::virtio::queue::QueueError;
use crate::devices::virtio::queue::Taken;
use crate::devices::virtio::DeviceState;
use crate::event_manager::EventSource;
use crate::guest_ram::GuestRam;
use crate::guest_ram::GuestRamView;
use crate::wire::read_u32;
use crate::wire::spec_u32_at;

verus! {

/// Index of the queue on which the guest gives pages up.
pub const INFLATE_INDEX: usize = 0;

/// Index of the queue on which the guest takes pages back.
pub const DEFLATE_INDEX: usize = 1;

/// Index of the queue on which the guest reports statistics.
pub const STATS_INDEX: usize = 2;

/// Size of a page of the balloon.
pub const BALLOON_PAGE_SIZE: u64 = 4096;

/// Number of balloon pages in a mebibyte.
pub const PAGES_PER_MIB: u32 = 256;

/// Errors of the balloon.
#[derive(Copy, Clone, Debug, PartialEq, Eq, Structural)]
pub enum BalloonError {
    /// The balloon would have more pages than can be counted.
    TooManyPagesRequested,
    /// The statistics were asked for on a balloon that does not keep any.
    StatisticsDisabled,
    /// A buffer of page numbers is marked for writing, or its size is not a multiple
    /// of the size of a page number.
    MalformedDescriptor,
    /// A buffer does not lie in ordinary guest memory.
    GuestMemory,
    /// The queue is malformed.
    Queue(QueueError),
}

/// The guest physical addresses of the pages that the first `n` page numbers of a
/// buffer name. Page numbers take four bytes each.
pub open spec fn spec_pages_of_bytes(bytes: Seq<u8>, n: nat) -> Seq<u64>
    decreases n,
{
    if n == 0 {
        Seq::<u64>::empty()
    } else {
        spec_pages_of_bytes(bytes, (n - 1) as nat).push(
            (spec_u32_at(bytes, 4 * (n - 1)) * BALLOON_PAGE_SIZE) as u64,
        )
    }
}

/// The pages that the first `n` buffers of a chain name, in order. A buffer that is
/// marked for writing, or whose size is not a multiple of four, is malformed.
pub open spec fn spec_pages_of_chain(chain: Seq<Descriptor>, mem: GuestRamView, n: nat) -> Result<
    Seq<u64>,
    BalloonError,
>
    decreases n,
{
    if n == 0 {
        Ok(Seq::<u64>::empty())
    } else {
        match spec_pages_of_chain(chain, mem, (n - 1) as nat) {
            Err(e) => Err(e),
            Ok(pages) => {
                let d = chain[n - 1];
                if d.spec_is_write_only() || d.len % 4 != 0 {
                    Err(BalloonError::MalformedDescriptor)
                } else {
                    match mem.read(d.addr, d.len as int) {
                        None => Err(BalloonError::GuestMemory),
                        Some(bytes) => Ok(pages + spec_pages_of_bytes(bytes, (d.len / 4) as nat)),
                    }
                }
            },
        }
    }
}

/// Once the first `n` buffers are malformed, so are the first `m`, for `m` from `n`
/// on, with the same error.
pub proof fn lemma_pages_error_stays(chain: Seq<Descriptor>, mem: GuestRamView, n: nat, m: nat)
    requires
        n <= m,
    ensures
        spec_pages_of_chain(chain, mem, n) is Err ==> spec_pages_of_chain(chain, mem, m)
            == spec_pages_of_chain(chain, mem, n),
    decreases m,
{
    if n < m {
        lemma_pages_error_stays(chain, mem, n, (m - 1) as nat);
    }
}

/// Reads the pages that a chain names.
pub fn pages_of_chain(chain: &DescriptorChain, mem: &GuestRam) -> (r: Result<Vec<u64>, BalloonError>)
    ensures
        match spec_pages_of_chain(chain.descriptors@, mem@, chain.descriptors@.len()) {
            Ok(pages) => r is Ok && r->Ok_0@ == pages,
            Err(e) => r == Err::<Vec<u64>, BalloonError>(e),
        },
{
    let mut pages: Vec<u64> = Vec::new();
    let mut i: usize = 0;
    while i < chain.descriptors.len()
        invariant
            i <= chain.descriptors@.len(),
            spec_pages_of_chain(chain.descriptors@, mem@, i as nat) == Ok::<
                Seq<u64>,
                BalloonError,
            >(pages@),
        decreases chain.descriptors@.len() - i,
    {
        let d = chain.descriptors[i];
        proof {
            lemma_pages_error_stays(
                chain.descriptors@,
                mem@,
                (i + 1) as nat,
                chain.descriptors@.len(),
            );
        }
        if d.is_write_only() || d.len % 4 != 0 {
            return Err(BalloonError::MalformedDescriptor);
        }
        let bytes = match mem.read(d.addr, d.len as usize) {
            Some(bytes) => bytes,
            None => {
                return Err(BalloonError::GuestMemory);
            },
        };
        let count: usize = (d.len / 4) as usize;
        let ghost before = pages@;
        let mut k: usize = 0;
        while k < count
            invariant
                k <= count,
                count == d.len / 4,
                bytes@.len() == d.len,
                pages@ == before + spec_pages_of_bytes(bytes@, k as nat),
            decreases count - k,
        {
            let pfn = read_u32(bytes.as_slice(), 4 * k);
            pages.push(pfn as u64 * BALLOON_PAGE_SIZE);
            k = k + 1;
            proof {
                assert(pages@ =~= before + spec_pages_of_bytes(bytes@, k as nat));
            }
        }
        i = i + 1;
    }
    Ok(pages)
}

/// What the balloon did when one of its page queues was looked at.
#[derive(Clone, Debug)]
pub enum BalloonEvent {
    /// The device is not activated and has not looked at the queue.
    Ignored,
    /// The guest had made nothing available.
    Idle,
    /// The guest has named these pages; the chain was given back.
    Pages(Vec<u64>),
    /// The chain or the queue was malformed.
    Failed(BalloonError),
}

/// What the balloon did when one of its page queues was looked at, as a mathematical
/// value.
pub enum BalloonStep {
    /// The device is not activated and has not looked at the queue.
    Ignored,
    /// The guest had made nothing available.
    Idle,
    /// The guest has named these pages; the chain was given back.
    Pages(Seq<u64>),
    /// The chain or the queue was malformed.
    Failed(BalloonError),
}

impl View for BalloonEvent {
    type V = BalloonStep;

    open spec fn view(&self) -> BalloonStep {
        match self {
            BalloonEvent::Ignored => BalloonStep::Ignored,
            BalloonEvent::Idle => BalloonStep::Idle,
            BalloonEvent::Pages(pages) => BalloonStep::Pages(pages@),
            BalloonEvent::Failed(e) => BalloonStep::Failed(*e),
        }
    }
}

/// What looking at a page queue once leaves behind: the queue, guest memory, and what
/// happened. The next chain is taken, the pages that it names are read, and the chain
/// is given back with 0 bytes written. A chain that is malformed counts as taken and
/// is not given back.
#[verifier::opaque]
pub open spec fn spec_page_queue(queue: Queue, mem: GuestRamView) -> (Queue, GuestRamView, BalloonStep) {
    match queue.spec_pop(mem) {
        Taken::Unreadable(e) => (queue, mem, BalloonStep::Failed(BalloonError::Queue(e))),
        Taken::Nothing => (queue, mem, BalloonStep::Idle),
        Taken::Malformed(e) => (
            queue.spec_taken(),
            mem,
            BalloonStep::Failed(BalloonError::Queue(e)),
        ),
        Taken::Chain(head, chain) => {
            let taken = queue.spec_taken();
            match spec_pages_of_chain(chain, mem, chain.len()) {
                Err(e) => (taken, mem, BalloonStep::Failed(e)),
                Ok(pages) => if taken.spec_can_add_used(mem) {
                    (
                        taken.spec_returned(),
                        taken.spec_mem_after_used(mem, head, 0),
                        BalloonStep::Pages(pages),
                    )
                } else {
                    (
                        taken,
                        mem,
                        BalloonStep::Failed(BalloonError::Queue(QueueError::QueueOutOfMemory)),
                    )
                },
            }
        },
    }
}

/// The memory balloon.
#[derive(Copy, Clone, Debug, PartialEq, Eq, Structural)]
pub struct Balloon {
    /// The queue on which the guest gives pages up.
    pub inflate_queue: Queue,
    /// The queue on which the guest takes pages back.
    pub deflate_queue: Queue,
    /// The queue on which the guest reports statistics.
    pub stats_queue: Queue,
    /// Whether the driver has started the device.
    pub device_state: DeviceState,
    /// Number of pages that the balloon is to have.
    pub num_pages: u32,
    /// Number of pages that the guest says the balloon has.
    pub actual_pages: u32,
    /// True if the guest may take pages back when it runs out of memory.
    pub deflate_on_oom: bool,
    /// Seconds between two requests for statistics; 0 if none are kept.
    pub stats_polling_interval_s: u16,
    /// Head of the chain that the guest has given for statistics and that the device
    /// holds until it wants new ones.
    pub stats_desc_index: Option<u16>,
    /// True if the balloon was made from a saved state.
    pub restored: bool,
}

impl Balloon {
    /// A balloon that is to have `amount_mib` mebibytes. The device is not activated
    /// and its queues are not set up. A balloon that keeps no statistics has an
    /// interval of 0.
    pub fn new(amount_mib: u32, deflate_on_oom: bool, stats_polling_interval_s: u16, restored: bool) -> (r:
        Result<Balloon, BalloonError>)
        ensures
            amount_mib * PAGES_PER_MIB > u32::MAX ==> r == Err::<Balloon, BalloonError>(
                BalloonError::TooManyPagesRequested,
            ),
            amount_mib * PAGES_PER_MIB <= u32::MAX ==> r == Ok::<Balloon, BalloonError>(
                Balloon {
                    inflate_queue: spec_unset_queue(),
                    deflate_queue: spec_unset_queue(),
                    stats_queue: spec_unset_queue(),
                    device_state: DeviceState::Inactive,
                    num_pages: (amount_mib * PAGES_PER_MIB) as u32,
                    actual_pages: 0,
                    deflate_on_oom,
                    stats_polling_interval_s,
                    stats_desc_index: None,
                    restored,
                },
            ),
    {
        if amount_mib > u32::MAX / PAGES_PER_MIB {
            return Err(BalloonError::TooManyPagesRequested);
        }
        let unset = Queue {
            size: 0,
            desc_table: 0,
            avail_ring: 0,
            used_ring: 0,
            next_avail: 0,
            next_used: 0,
        };
        Ok(
            Balloon {
                inflate_queue: unset,
                deflate_queue: unset,
                stats_queue: unset,
                device_state: DeviceState::Inactive,
                num_pages: amount_mib * PAGES_PER_MIB,
                actual_pages: 0,
                deflate_on_oom,
                stats_polling_interval_s,
                stats_desc_index: None,
                restored,
            },
        )
    }

    /// True if the balloon keeps statistics.
    pub fn stats_enabled(&self) -> (b: bool)
        ensures
            b == (self.stats_polling_interval_s > 0),
    {
        self.stats_polling_interval_s > 0
    }

    /// Sets the queue with the given index; an index that names no queue changes
    /// nothing.
    pub fn set_queue(&mut self, index: usize, queue: Queue)
        ensures
            *final(self) == (if index == INFLATE_INDEX {
                Balloon { inflate_queue: queue, ..*old(self) }
            } else if index == DEFLATE_INDEX {
                Balloon { deflate_queue: queue, ..*old(self) }
            } else if index == STATS_INDEX {
                Balloon { stats_queue: queue, ..*old(self) }
            } else {
                *old(self)
            }),
    {
        if index == INFLATE_INDEX {
            self.inflate_queue = queue;
        } else if index == DEFLATE_INDEX {
            self.deflate_queue = queue;
        } else if index == STATS_INDEX {
            self.stats_queue = queue;
        }
    }

    /// Starts the device: from now on it looks at its queues.
    pub fn activate(&mut self)
        ensures
            *final(self) == (Balloon { device_state: DeviceState::Activated, ..*old(self) }),
    {
        self.device_state = DeviceState::Activated;
    }

    /// The events that the device waits for: the start by the driver as long as it
    /// is not activated; then its two page queues and, where it keeps statistics, the
    /// queue and the timer of the statistics.
    pub fn register(&self) -> (sources: Vec<EventSource>)
        ensures
            sources@ == (if self.device_state != DeviceState::Activated {
                seq![EventSource::Activate]
            } else if self.stats_polling_interval_s > 0 {
                seq![
                    EventSource::Queue(0),
                    EventSource::Queue(1),
                    EventSource::Queue(2),
                    EventSource::StatsTimer,
                ]
            } else {
                seq![EventSource::Queue(0), EventSource::Queue(1)]
            }),
    {
        let mut sources: Vec<EventSource> = Vec::new();
        if !self.device_state.is_activated() {
            sources.push(EventSource::Activate);
            proof {
                assert(sources@ =~= seq![EventSource::Activate]);
            }
        } else {
            sources.push(EventSource::Queue(0));
            sources.push(EventSource::Queue(1));
            if self.stats_enabled() {
                sources.push(EventSource::Queue(2));
                sources.push(EventSource::StatsTimer);
                proof {
                    assert(sources@ =~= seq![
                        EventSource::Queue(0),
                        EventSource::Queue(1),
                        EventSource::Queue(2),
                        EventSource::StatsTimer,
                    ]);
                }
            } else {
                proof {
                    assert(sources@ =~= seq![EventSource::Queue(0), EventSource::Queue(1)]);
                }
            }
        }
        sources
    }

    /// Looks at a page queue once, as `spec_page_queue` says.
    fn process_page_queue(queue: &mut Queue, mem: &mut GuestRam) -> (event: BalloonEvent)
        ensures
            (*final(queue), final(mem)@, event@) == spec_page_queue(*old(queue), old(mem)@),
            !(event is Ignored),
    {
        proof {
            reveal(spec_page_queue);
        }
        let chain = match queue.pop(mem) {
            Err(e) => {
                return BalloonEvent::Failed(BalloonError::Queue(e));
            },
            Ok(None) => {
                return BalloonEvent::Idle;
            },
            Ok(Some(chain)) => chain,
        };
        let pages = match pages_of_chain(&chain, mem) {
            Ok(pages) => pages,
            Err(e) => {
                return BalloonEvent::Failed(e);
            },
        };
        match queue.add_used(mem, chain.head, 0) {
            Ok(()) => BalloonEvent::Pages(pages),
            Err(e) => BalloonEvent::Failed(BalloonError::Queue(e)),
        }
    }

    /// What looking at the inflate queue once leaves behind. A device that is not
    /// activated leaves the queue and guest memory alone.
    pub open spec fn spec_inflate_one(self, mem: GuestRamView) -> (Balloon, GuestRamView, BalloonStep) {
        if self.device_state != DeviceState::Activated {
            (self, mem, BalloonStep::Ignored)
        } else {
            let r = spec_page_queue(self.inflate_queue, mem);
            (Balloon { inflate_queue: r.0, ..self }, r.1, r.2)
        }
    }

    /// What looking at the deflate queue once leaves behind. A device that is not
    /// activated leaves the queue and guest memory alone.
    pub open spec fn spec_deflate_one(self, mem: GuestRamView) -> (Balloon, GuestRamView, BalloonStep) {
        if self.device_state != DeviceState::Activated {
            (self, mem, BalloonStep::Ignored)
        } else {
            let r = spec_page_queue(self.deflate_queue, mem);
            (Balloon { deflate_queue: r.0, ..self }, r.1, r.2)
        }
    }

    /// What looking at the inflate queue at most `budget` times leaves behind: the
    /// device, guest memory, the pages that the guest has given up, in order, and the
    /// error that stopped the device, if one did. The device goes on as long as it
    /// gives a chain back.
    pub open spec fn spec_inflate_queue(self, mem: GuestRamView, budget: nat) -> (
        Balloon,
        GuestRamView,
        Seq<u64>,
        Result<(), BalloonError>,
    )
        decreases budget,
    {
        if budget == 0 {
            (self, mem, Seq::<u64>::empty(), Ok(()))
        } else {
            let step = self.spec_inflate_one(mem);
            match step.2 {
                BalloonStep::Pages(pages) => {
                    let rest = step.0.spec_inflate_queue(step.1, (budget - 1) as nat);
                    (rest.0, rest.1, pages + rest.2, rest.3)
                },
                BalloonStep::Failed(e) => (step.0, step.1, Seq::<u64>::empty(), Err(e)),
                _ => (step.0, step.1, Seq::<u64>::empty(), Ok(())),
            }
        }
    }

    /// What looking at the deflate queue at most `budget` times leaves behind: the
    /// device, guest memory, the number of chains given back, and the error that
    /// stopped the device, if one did.
    pub open spec fn spec_deflate_queue(self, mem: GuestRamView, budget: nat) -> (
        Balloon,
        GuestRamView,
        nat,
        Result<(), BalloonError>,
    )
        decreases budget,
    {
        if budget == 0 {
            (self, mem, 0, Ok(()))
        } else {
            let step = self.spec_deflate_one(mem);
            match step.2 {
                BalloonStep::Pages(_) => {
                    let rest = step.0.spec_deflate_queue(step.1, (budget - 1) as nat);
                    (rest.0, rest.1, (rest.2 + 1) as nat, rest.3)
                },
                BalloonStep::Failed(e) => (step.0, step.1, 0, Err(e)),
                _ => (step.0, step.1, 0, Ok(())),
            }
        }
    }

    /// Looks at the inflate queue once, as `spec_inflate_one` says. The pages that
    /// the guest names are to be discarded by the caller.
    pub fn process_inflate_one(&mut self, mem: &mut GuestRam) -> (event: BalloonEvent)
        ensures
            (*final(self), final(mem)@, event@) == old(self).spec_inflate_one(old(mem)@),
    {
        if !self.device_state.is_activated() {
            return BalloonEvent::Ignored;
        }
        let mut queue = self.inflate_queue;
        let event = Self::process_page_queue(&mut queue, mem);
        self.inflate_queue = queue;
        event
    }

    /// Looks at the deflate queue once, as `spec_deflate_one` says. The pages that
    /// the guest names are its own again; nothing is to be done for them.
    pub fn process_deflate_one(&mut self, mem: &mut GuestRam) -> (event: BalloonEvent)
        ensures
            (*final(self), final(mem)@, event@) == old(self).spec_deflate_one(old(mem)@),
    {
        if !self.device_state.is_activated() {
            return BalloonEvent::Ignored;
        }
        let mut queue = self.deflate_queue;
        let event = Self::process_page_queue(&mut queue, mem);
        self.deflate_queue = queue;
        event
    }

    /// Handles a notification of the inflate queue: looks at the queue until the
    /// guest has nothing more available or something is malformed, at most as often
    /// as the queue has descriptors. Gives the pages to discard, and says whether an
    /// error has stopped it.
    ///
    /// A device that is not activated gives nothing and leaves the queue and guest
    /// memory as they are.
    pub fn process_inflate_queue_event(&mut self, mem: &mut GuestRam) -> (r: (
        Vec<u64>,
        Result<(), BalloonError>,
    ))
        ensures
            (*final(self), final(mem)@, r.0@, r.1) == old(self).spec_inflate_queue(
                old(mem)@,
                old(self).inflate_queue.size as nat,
            ),
            old(self).device_state != DeviceState::Activated ==> r.0@.len() == 0 && r.1 is Ok
                && *final(self) == *old(self) && final(mem)@ == old(mem)@,
    {
        let mut pages: Vec<u64> = Vec::new();
        let budget: usize = self.inflate_queue.size as usize;
        let mut taken: usize = 0;
        while taken < budget
            invariant
                taken <= budget,
                budget == old(self).inflate_queue.size,
                old(self).device_state != DeviceState::Activated ==> pages@.len() == 0 && *self
                    == *old(self) && mem@ == old(mem)@,
                old(self).spec_inflate_queue(old(mem)@, budget as nat) == ({
                    let rest = self.spec_inflate_queue(mem@, (budget - taken) as nat);
                    (rest.0, rest.1, pages@ + rest.2, rest.3)
                }),
            decreases budget - taken,
        {
            let ghost before = pages@;
            match self.process_inflate_one(mem) {
                BalloonEvent::Pages(more) => {
                    proof {
                        let rest = self.spec_inflate_queue(mem@, (budget - taken - 1) as nat);
                        assert(before + (more@ + rest.2) =~= (before + more@) + rest.2);
                    }
                    let mut more = more;
                    pages.append(&mut more);
                },
                BalloonEvent::Failed(e) => {
                    proof {
                        assert(pages@ + Seq::<u64>::empty() =~= pages@);
                    }
                    return (pages, Err(e));
                },
                _ => {
                    proof {
                        assert(pages@ + Seq::<u64>::empty() =~= pages@);
                    }
                    return (pages, Ok(()));
                },
            }
            taken = taken + 1;
        }
        proof {
            assert(pages@ + Seq::<u64>::empty() =~= pages@);
        }
        (pages, Ok(()))
    }

    /// Handles a notification of the deflate queue as the inflate queue is handled.
    /// Says how many chains were given back, and whether an error has stopped it.
    pub fn process_deflate_queue_event(&mut self, mem: &mut GuestRam) -> (r: (
        u32,
        Result<(), BalloonError>,
    ))
        ensures
            (*final(self), final(mem)@, r.0 as nat, r.1) == old(self).spec_deflate_queue(
                old(mem)@,
                old(self).deflate_queue.size as nat,
            ),
            old(self).device_state != DeviceState::Activated ==> r.0 == 0 && r.1 is Ok && *final(self) == *old(self) && final(mem)@ == old(mem)@,
    {
        let budget: u32 = self.deflate_queue.size as u32;
        let mut taken: u32 = 0;
        while taken < budget
            invariant
                taken <= budget,
                budget == old(self).deflate_queue.size,
                old(self).device_state != DeviceState::Activated ==> taken == 0 && *self == *old(
                    self,
                ) && mem@ == old(mem)@,
                old(self).spec_deflate_queue(old(mem)@, budget as nat) == ({
                    let rest = self.spec_deflate_queue(mem@, (budget - taken) as nat);
                    (rest.0, rest.1, (rest.2 + taken) as nat, rest.3)
                }),
            decreases budget - taken,
        {
            match self.process_deflate_one(mem) {
                BalloonEvent::Pages(_) => {},
                BalloonEvent::Failed(e) => {
                    return (taken, Err(e));
                },
                _ => {
                    return (taken, Ok(()));
                },
            }
            taken = taken + 1;
        }
        (taken, Ok(()))
    }

    /// What a notification of the statistics queue leaves behind. A device that is
    /// not activated does nothing, and a balloon that keeps no statistics refuses.
    /// Else the device takes the next chain and holds it until its timer fires; a
    /// chain that it held before is given back with 0 bytes written.
    pub open spec fn spec_stats_queue_event(self, mem: GuestRamView) -> (
        Balloon,
        GuestRamView,
        Result<(), BalloonError>,
    ) {
        if self.device_state != DeviceState::Activated {
            (self, mem, Ok(()))
        } else if self.stats_polling_interval_s == 0 {
            (self, mem, Err(BalloonError::StatisticsDisabled))
        } else {
            match self.stats_queue.spec_pop(mem) {
                Taken::Unreadable(e) => (self, mem, Err(BalloonError::Queue(e))),
                Taken::Nothing => (self, mem, Ok(())),
                Taken::Malformed(e) => (
                    Balloon { stats_queue: self.stats_queue.spec_taken(), ..self },
                    mem,
                    Err(BalloonError::Queue(e)),
                ),
                Taken::Chain(head, _) => {
                    let taken = self.stats_queue.spec_taken();
                    match self.stats_desc_index {
                        None => (
                            Balloon { stats_queue: taken, stats_desc_index: Some(head), ..self },
                            mem,
                            Ok(()),
                        ),
                        Some(earlier) => if taken.spec_can_add_used(mem) {
                            (
                                Balloon {
                                    stats_queue: taken.spec_returned(),
                                    stats_desc_index: Some(head),
                                    ..self
                                },
                                taken.spec_mem_after_used(mem, earlier, 0),
                                Ok(()),
                            )
                        } else {
                            (
                                Balloon {
                                    stats_queue: taken,
                                    stats_desc_index: Some(head),
                                    ..self
                                },
                                mem,
                                Err(BalloonError::Queue(QueueError::QueueOutOfMemory)),
                            )
                        },
                    }
                },
            }
        }
    }

    /// Handles a notification of the statistics queue, as `spec_stats_queue_event`
    /// says: the guest has handed in a buffer of statistics.
    pub fn process_stats_queue_event(&mut self, mem: &mut GuestRam) -> (r: Result<(), BalloonError>)
        ensures
            (*final(self), final(mem)@, r) == old(self).spec_stats_queue_event(old(mem)@),
    {
        if !self.device_state.is_activated() {
            return Ok(());
        }
        if !self.stats_enabled() {
            return Err(BalloonError::StatisticsDisabled);
        }
        let mut queue = self.stats_queue;
        let chain = match queue.pop(mem) {
            Err(e) => {
                self.stats_queue = queue;
                return Err(BalloonError::Queue(e));
            },
            Ok(None) => {
                return Ok(());
            },
            Ok(Some(chain)) => chain,
        };
        let r = match self.stats_desc_index {
            None => Ok(()),
            Some(earlier) => match queue.add_used(mem, earlier, 0) {
                Ok(()) => Ok(()),
                Err(e) => Err(BalloonError::Queue(e)),
            },
        };
        self.stats_queue = queue;
        self.stats_desc_index = Some(chain.head);
        r
    }

    /// What the timer of the statistics leaves behind when it fires: an activated
    /// device that holds a chain gives it back with 0 bytes written, which asks the
    /// guest for new statistics. If the chain cannot be given back, the device goes
    /// on holding it.
    pub open spec fn spec_stats_timer_event(self, mem: GuestRamView) -> (
        Balloon,
        GuestRamView,
        Result<(), BalloonError>,
    ) {
        if self.device_state != DeviceState::Activated {
            (self, mem, Ok(()))
        } else {
            match self.stats_desc_index {
                None => (self, mem, Ok(())),
                Some(head) => if self.stats_queue.spec_can_add_used(mem) {
                    (
                        Balloon {
                            stats_queue: self.stats_queue.spec_returned(),
                            stats_desc_index: None,
                            ..self
                        },
                        self.stats_queue.spec_mem_after_used(mem, head, 0),
                        Ok(()),
                    )
                } else {
                    (
                        self,
                        mem,
                        Err(
                            BalloonError::Queue(
                                if self.stats_queue.spec_addressable() {
                                    QueueError::QueueOutOfMemory
                                } else {
                                    QueueError::EmptyQueue
                                },
                            ),
                        ),
                    )
                },
            }
        }
    }

    /// Takes note that the timer of the statistics has fired, as
    /// `spec_stats_timer_event` says.
    pub fn process_stats_timer_event(&mut self, mem: &mut GuestRam) -> (r: Result<(), BalloonError>)
        ensures
            (*final(self), final(mem)@, r) == old(self).spec_stats_timer_event(old(mem)@),
    {
        if !self.device_state.is_activated() {
            return Ok(());
        }
        match self.stats_desc_index {
            None => Ok(()),
            Some(head) => {
                let mut queue = self.stats_queue;
                match queue.add_used(mem, head, 0) {
                    Ok(()) => {
                        self.stats_queue = queue;
                        self.stats_desc_index = None;
                        Ok(())
                    },
                    Err(e) => Err(BalloonError::Queue(e)),
                }
            },
        }
    }
}

/// A balloon that is not activated leaves its queues and guest memory as they are,
/// however often a queue is notified.
pub proof fn lemma_inactive_balloon_ignores_queues(balloon: Balloon, mem: GuestRamView, budget: nat)
    requires
        balloon.device_state != DeviceState::Activated,
    ensures
        balloon.spec_inflate_queue(mem, budget) == (balloon, mem, Seq::<u64>::empty(), Ok::<(), BalloonError>(())),
        balloon.spec_deflate_queue(mem, budget) == (balloon, mem, 0nat, Ok::<(), BalloonError>(())),
        balloon.spec_stats_queue_event(mem) == (balloon, mem, Ok::<(), BalloonError>(())),
        balloon.spec_stats_timer_event(mem) == (balloon, mem, Ok::<(), BalloonError>(())),
{
}

/// Looking at a page queue changes guest memory only in the used ring of the queue:
/// the page numbers that the guest hands in are read, never written.
pub proof fn lemma_page_queue_touches_ring_only(queue: Queue, mem: GuestRamView)
    ensures
        spec_page_queue(queue, mem).1 == mem || mem.same_outside(
            spec_page_queue(queue, mem).1,
            queue.used_ring,
            4 + 8 * queue.size,
        ),
{
    reveal(spec_page_queue);
    match queue.spec_pop(mem) {
        Taken::Chain(head, chain) => {
            let taken = queue.spec_taken();
            if taken.spec_can_add_used(mem) {
                lemma_add_used_touches_ring_only(taken, mem, head, 0);
            }
        },
        _ => {},
    }
}

} // verus!
