//! The entropy device: the guest hands in buffers and gets them back filled with
//! random bytes.
use vstd::prelude::*;
use crate::devices::virtio::net::virtio::deliver;
use crate::devices::virtio::net::virtio::lemma_deliver_stays_in_chain;
use crate::devices::virtio::net::virtio::spec_deliver;
use crate::devices::virtio::queue::Queue;
use crate::devices::virtio::queue::lemma_returned_chain;
use crate::devices::virtio::queue::spec_same_outside_chain_and_ring;
use crate::devices::virtio::queue::spec_unset_queue;
use crate::devices::virtio::queue::QueueError;
use crate::devices::virtio::queue::Taken;
use crate::devices::virtio::DeviceState;
use crate::event_manager::EventSource;
use crate::guest_ram::GuestRam;
use crate::guest_ram::GuestRamView;
use crate::rate_limiter::RateLimiter;

verus! {

/// Index of the queue of the entropy device.
pub const RNG_QUEUE: usize = 0;

/// What the entropy device did when its queue was looked at.
#[derive(Copy, Clone, Debug, PartialEq, Eq, Structural)]
pub enum EntropyEvent {
    /// The device is not activated and has not looked at the queue.
    Ignored,
    /// The guest had made nothing available.
    Idle,
    /// The rate limiter holds the request back; the chain stays in the queue.
    Throttled,
    /// This many random bytes were written into the chain, which was given back.
    Filled(u32),
    /// The chain could not be written; it was given back empty.
    Dropped,
    /// The queue or the chain was malformed.
    Failed(QueueError),
}

/// The entropy device.
#[derive(Copy, Clone, Debug, PartialEq, Eq, Structural)]
pub struct Entropy {
    /// The queue of the device.
    pub queue: Queue,
    /// The limiter of the device.
    pub rate_limiter: RateLimiter,
    /// Whether the driver has started the device.
    pub device_state: DeviceState,
}

impl Entropy {
    /// An entropy device with the given limiter. The device is not activated and its
    /// queue is not set up.
    pub fn new(rate_limiter: RateLimiter) -> (e: Self)
        ensures
            e == (Entropy {
                queue: spec_unset_queue(),
                rate_limiter,
                device_state: DeviceState::Inactive,
            }),
    {
        Entropy {
            queue: Queue {
                size: 0,
                desc_table: 0,
                avail_ring: 0,
                used_ring: 0,
                next_avail: 0,
                next_used: 0,
            },
            rate_limiter,
            device_state: DeviceState::Inactive,
        }
    }

    /// The limiter of the device.
    pub fn rate_limiter(&self) -> (l: &RateLimiter)
        ensures
            *l == self.rate_limiter,
    {
        &self.rate_limiter
    }

    /// Starts the device.
    pub fn activate(&mut self)
        ensures
            *final(self) == (Entropy { device_state: DeviceState::Activated, ..*old(self) }),
    {
        self.device_state = DeviceState::Activated;
    }

    /// The events that the device waits for: the start by the driver as long as it
    /// is not activated; then its queue and the timer of its limiter.
    pub fn register(&self) -> (sources: Vec<EventSource>)
        ensures
            sources@ == (if self.device_state != DeviceState::Activated {
                seq![EventSource::Activate]
            } else {
                seq![EventSource::Queue(0), EventSource::RateLimiter(0)]
            }),
    {
        let mut sources: Vec<EventSource> = Vec::new();
        if !self.device_state.is_activated() {
            sources.push(EventSource::Activate);
            proof {
                assert(sources@ =~= seq![EventSource::Activate]);
            }
        } else {
            sources.push(EventSource::Queue(0));
            sources.push(EventSource::RateLimiter(0));
            proof {
                assert(sources@ =~= seq![EventSource::Queue(0), EventSource::RateLimiter(0)]);
            }
        }
        sources
    }

    /// What looking at the queue once at time `now` leaves behind, with `random` as
    /// the bytes to hand out.
    ///
    /// A device that is not activated leaves the queue and guest memory alone. Else
    /// the next chain is looked at. The request costs one operation and the number of
    /// bytes of `random` of the limiter; a request that the limiter holds back stays
    /// in the queue. Else the chain is taken and filled with the bytes of `random`,
    /// as far as they reach and the chain has room, and given back with the number of
    /// bytes written. A chain that cannot be written is given back with 0 bytes.
    pub open spec fn spec_entropy_one(self, mem: GuestRamView, random: Seq<u8>, now: u64) -> (
        Entropy,
        GuestRamView,
        EntropyEvent,
    ) {
        if self.device_state != DeviceState::Activated {
            (self, mem, EntropyEvent::Ignored)
        } else {
            match self.queue.spec_pop(mem) {
                Taken::Unreadable(e) => (self, mem, EntropyEvent::Failed(e)),
                Taken::Nothing => (self, mem, EntropyEvent::Idle),
                Taken::Malformed(e) => (
                    Entropy { queue: self.queue.spec_taken(), ..self },
                    mem,
                    EntropyEvent::Failed(e),
                ),
                Taken::Chain(head, chain) => {
                    let taken = self.queue.spec_taken();
                    let rate_limiter = self.rate_limiter.spec_after_request(
                        random.len() as u64,
                        now,
                    );
                    if !self.rate_limiter.spec_admits(random.len() as u64, now) {
                        (Entropy { rate_limiter, ..self }, mem, EntropyEvent::Throttled)
                    } else {
                        let d = spec_deliver(chain, mem, random, chain.len());
                        let filled = d.ok && d.done <= u32::MAX;
                        let used_len = if filled {
                            d.done as u32
                        } else {
                            0u32
                        };
                        if !taken.spec_can_add_used(d.mem) {
                            (
                                Entropy { queue: taken, rate_limiter, ..self },
                                d.mem,
                                EntropyEvent::Failed(QueueError::QueueOutOfMemory),
                            )
                        } else {
                            (
                                Entropy { queue: taken.spec_returned(), rate_limiter, ..self },
                                taken.spec_mem_after_used(d.mem, head, used_len),
                                if filled {
                                    EntropyEvent::Filled(used_len)
                                } else {
                                    EntropyEvent::Dropped
                                },
                            )
                        }
                    }
                },
            }
        }
    }

    /// Looks at the queue once, as `spec_entropy_one` says. The caller brings the
    /// random bytes.
    pub fn process_entropy_one(&mut self, mem: &mut GuestRam, random: &[u8], now: u64) -> (event:
        EntropyEvent)
        requires
            old(self).rate_limiter.wf(),
        ensures
            final(self).rate_limiter.wf(),
            (*final(self), final(mem)@, event) == old(self).spec_entropy_one(
                old(mem)@,
                random@,
                now,
            ),
    {
        if !self.device_state.is_activated() {
            return EntropyEvent::Ignored;
        }
        let mut queue = self.queue;
        let chain = match queue.pop(mem) {
            Err(e) => {
                self.queue = queue;
                return EntropyEvent::Failed(e);
            },
            Ok(None) => {
                return EntropyEvent::Idle;
            },
            Ok(Some(chain)) => chain,
        };
        if !self.rate_limiter.consume_request(random.len() as u64, now) {
            return EntropyEvent::Throttled;
        }
        let (done, ok) = deliver(&chain, mem, random);
        let filled = ok && done <= u32::MAX as usize;
        let used_len: u32 = if filled {
            done as u32
        } else {
            0
        };
        self.queue = queue;
        match self.queue.add_used(mem, chain.head, used_len) {
            Err(e) => EntropyEvent::Failed(e),
            Ok(()) => if filled {
                EntropyEvent::Filled(used_len)
            } else {
                EntropyEvent::Dropped
            },
        }
    }

    /// Takes note that the timer of the limiter has fired: the device waits no
    /// longer.
    pub fn process_rate_limiter_event(&mut self)
        ensures
            *final(self) == (Entropy {
                rate_limiter: RateLimiter { timer_active: false, ..old(self).rate_limiter },
                ..*old(self)
            }),
    {
        self.rate_limiter.event_handler();
    }
}

/// Looking at the queue once changes guest memory only where the device may write:
/// in buffers of the chain it has taken that the driver has marked for writing, and
/// in the used ring. A device that takes no chain changes nothing.
pub proof fn lemma_entropy_stays_in_chain(device: Entropy, mem: GuestRamView, random: Seq<u8>, now: u64)
    ensures
        device.spec_entropy_one(mem, random, now).1 == mem || (device.queue.spec_pop(mem) is Chain
            && spec_same_outside_chain_and_ring(
            mem,
            device.spec_entropy_one(mem, random, now).1,
            device.queue.spec_pop(mem)->Chain_1,
            device.queue,
        )),
{
    if device.device_state == DeviceState::Activated {
        match device.queue.spec_pop(mem) {
            Taken::Chain(head, chain) => {
                let taken = device.queue.spec_taken();
                if device.rate_limiter.spec_admits(random.len() as u64, now) {
                    let d = spec_deliver(chain, mem, random, chain.len());
                    lemma_deliver_stays_in_chain(chain, mem, random, chain.len());
                    let used_len = if d.ok && d.done <= u32::MAX {
                        d.done as u32
                    } else {
                        0u32
                    };
                    if taken.spec_can_add_used(d.mem) {
                        lemma_returned_chain(mem, d.mem, chain, taken, head, used_len);
                    }
                    assert(spec_same_outside_chain_and_ring(
                        mem,
                        device.spec_entropy_one(mem, random, now).1,
                        chain,
                        device.queue,
                    ));
                }
            },
            _ => {},
        }
    }
}

} // verus!
