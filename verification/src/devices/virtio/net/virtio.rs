//! The virtio backend of the network device: frames move between the queues of the
//! guest and the host interface.
use vstd::prelude::*;
use vstd::string::StringSliceAdditionalSpecFns;
use crate::devices::virtio::net::VirtioNetError;
use crate::devices::virtio::queue::Descriptor;
use crate::devices::virtio::queue::DescriptorChain;
use crate::devices::virtio::queue::Queue;
use crate::devices::virtio::queue::lemma_add_used_touches_ring_only;
use crate::devices::virtio::queue::lemma_returned_chain;
use crate::devices::virtio::queue::lemma_write_in_chain;
use crate::devices::virtio::queue::spec_same_outside_chain;
use crate::devices::virtio::queue::spec_same_outside_chain_and_ring;
use crate::devices::virtio::queue::spec_unset_queue;
use crate::devices::virtio::queue::QueueError;
use crate::devices::virtio::queue::Taken;
use crate::devices::virtio::DeviceState;
use crate::event_manager::EventSource;
use crate::guest_ram::GuestRam;
use crate::guest_ram::GuestRamView;
use crate::rate_limiter::BucketUpdate;
use crate::rate_limiter::RateLimiter;

verus! {

/// Longest name a host interface can have.
pub const IFACE_NAME_MAX_LEN: usize = 15;

/// Protocol number of TCP.
pub const IPPROTO_TCP: u8 = 6;

/// A hardware address.
#[derive(Copy, Clone, Debug, PartialEq, Eq)]
pub struct MacAddr {
    /// The six bytes of the address.
    pub bytes: [u8; 6],
}

/// The network stack that answers requests to the metadata service.
#[derive(Copy, Clone, Debug, PartialEq, Eq)]
pub struct MmdsNetworkStack {
    /// The IPv4 address of the service, most significant byte first.
    pub ipv4_addr: [u8; 4],
}

/// True if the frame is TCP over IPv4 to the address `ip`. The frame starts with the
/// virtio header of 12 bytes; the Ethernet header of 14 bytes follows, with the type
/// of the frame in its last two bytes, and then the IPv4 header, with the version in
/// the upper half of its first byte, the protocol in byte 9 and the destination in
/// bytes 16 to 19.
pub open spec fn spec_is_mmds_frame(frame: Seq<u8>, ip: Seq<u8>) -> bool {
    &&& frame.len() >= 46
    &&& frame[24] == 0x08
    &&& frame[25] == 0x00
    &&& frame[26] / 16 == 4
    &&& frame[35] == IPPROTO_TCP
    &&& frame.subrange(42, 46) == ip
}

/// Says whether a frame, which starts with the virtio header, is TCP over IPv4 to the
/// address of the metadata service.
pub fn is_mmds_frame(frame: &[u8], mmds: &MmdsNetworkStack) -> (b: bool)
    ensures
        b == spec_is_mmds_frame(frame@, mmds.ipv4_addr@),
{
    if frame.len() < 46 {
        return false;
    }
    let matches = frame[24] == 0x08 && frame[25] == 0x00 && frame[26] / 16 == 4 && frame[35]
        == IPPROTO_TCP && frame[42] == mmds.ipv4_addr[0] && frame[43] == mmds.ipv4_addr[1]
        && frame[44] == mmds.ipv4_addr[2] && frame[45] == mmds.ipv4_addr[3];
    proof {
        if matches {
            assert(frame@.subrange(42, 46) =~= mmds.ipv4_addr@);
        } else if frame[24] == 0x08 && frame[25] == 0x00 && frame[26] / 16 == 4 && frame[35]
            == IPPROTO_TCP {
            let s = frame@.subrange(42, 46);
            assert(s[0] == frame@[42] && s[1] == frame@[43] && s[2] == frame@[44] && s[3]
                == frame@[45]);
        }
    }
    matches
}

/// The frame that the first `n` buffers of a chain hold: their bytes, one buffer
/// after the other. There is none if one of the buffers is marked for writing or does
/// not lie in ordinary guest memory.
pub open spec fn spec_frame_of(chain: Seq<Descriptor>, mem: GuestRamView, n: nat) -> Option<Seq<u8>>
    decreases n,
{
    if n == 0 {
        Some(Seq::<u8>::empty())
    } else {
        match spec_frame_of(chain, mem, (n - 1) as nat) {
            None => None,
            Some(head) => if chain[n - 1].spec_is_write_only() {
                None
            } else {
                match mem.read(chain[n - 1].addr, chain[n - 1].len as int) {
                    None => None,
                    Some(bytes) => Some(head + bytes),
                }
            },
        }
    }
}

/// Once the first `n` buffers hold no frame, neither do the first `m`, for `m` from
/// `n` on.
pub proof fn lemma_frame_of_none_stays(chain: Seq<Descriptor>, mem: GuestRamView, n: nat, m: nat)
    requires
        n <= m,
    ensures
        spec_frame_of(chain, mem, n) is None ==> spec_frame_of(chain, mem, m) is None,
    decreases m,
{
    if n < m {
        lemma_frame_of_none_stays(chain, mem, n, (m - 1) as nat);
    }
}

/// Reads the frame that a chain holds.
pub fn frame_of(chain: &DescriptorChain, mem: &GuestRam) -> (r: Option<Vec<u8>>)
    ensures
        match spec_frame_of(chain.descriptors@, mem@, chain.descriptors@.len()) {
            Some(frame) => r is Some && r->Some_0@ == frame,
            None => r is None,
        },
{
    let mut frame: Vec<u8> = Vec::new();
    let mut i: usize = 0;
    while i < chain.descriptors.len()
        invariant
            i <= chain.descriptors@.len(),
            spec_frame_of(chain.descriptors@, mem@, i as nat) == Some(frame@),
        decreases chain.descriptors@.len() - i,
    {
        let d = chain.descriptors[i];
        proof {
            lemma_frame_of_none_stays(
                chain.descriptors@,
                mem@,
                (i + 1) as nat,
                chain.descriptors@.len(),
            );
        }
        if d.is_write_only() {
            return None;
        }
        match mem.read(d.addr, d.len as usize) {
            None => {
                return None;
            },
            Some(bytes) => {
                let mut bytes = bytes;
                frame.append(&mut bytes);
            },
        }
        i = i + 1;
    }
    Some(frame)
}

/// How far the delivery of a frame into the buffers of a chain has come.
pub struct Delivery {
    /// Guest memory.
    pub mem: GuestRamView,
    /// Number of bytes of the frame that are delivered.
    pub done: int,
    /// False once a buffer could not be written.
    pub ok: bool,
}

/// The state after the frame was delivered into the first `n` buffers of a chain:
/// each buffer takes as much of what is left of the frame as it can hold. A buffer
/// that is not marked for writing, while something of the frame is left, ends the
/// delivery as failed.
pub open spec fn spec_deliver(chain: Seq<Descriptor>, mem: GuestRamView, frame: Seq<u8>, n: nat) -> Delivery
    decreases n,
{
    if n == 0 {
        Delivery { mem, done: 0, ok: true }
    } else {
        let before = spec_deliver(chain, mem, frame, (n - 1) as nat);
        let d = chain[n - 1];
        let left = frame.len() - before.done;
        if !before.ok || left <= 0 {
            before
        } else if !d.spec_is_write_only() {
            Delivery { ok: false, ..before }
        } else {
            let take = if left <= d.len {
                left
            } else {
                d.len as int
            };
            if !before.mem.in_dram(d.addr, take) {
                Delivery { ok: false, ..before }
            } else {
                Delivery {
                    mem: before.mem.write(d.addr, frame.subrange(before.done, before.done + take)),
                    done: before.done + take,
                    ok: true,
                }
            }
        }
    }
}

/// The delivery of a frame never delivers more than the frame.
pub proof fn lemma_deliver_bounds(chain: Seq<Descriptor>, mem: GuestRamView, frame: Seq<u8>, n: nat)
    ensures
        0 <= spec_deliver(chain, mem, frame, n).done <= frame.len(),
    decreases n,
{
    if n > 0 {
        lemma_deliver_bounds(chain, mem, frame, (n - 1) as nat);
    }
}

/// Delivers a frame into the buffers of a chain. Says how many bytes were delivered
/// and whether all buffers that were needed could be written.
pub fn deliver(chain: &DescriptorChain, mem: &mut GuestRam, frame: &[u8]) -> (r: (usize, bool))
    ensures
        ({
            let d = spec_deliver(chain.descriptors@, old(mem)@, frame@, chain.descriptors@.len());
            final(mem)@ == d.mem && r.0 == d.done && r.1 == d.ok
        }),
{
    let total: usize = frame.len();
    let mut done: usize = 0;
    let mut i: usize = 0;
    while i < chain.descriptors.len()
        invariant
            i <= chain.descriptors@.len(),
            total == frame@.len(),
            done <= total,
            ({
                let d = spec_deliver(chain.descriptors@, old(mem)@, frame@, i as nat);
                mem@ == d.mem && done == d.done && d.ok
            }),
        decreases chain.descriptors@.len() - i,
    {
        let d = chain.descriptors[i];
        proof {
            lemma_deliver_stops(
                chain.descriptors@,
                old(mem)@,
                frame@,
                (i + 1) as nat,
                chain.descriptors@.len(),
            );
        }
        let left: usize = total - done;
        if left == 0 {
            return (done, true);
        }
        if !d.is_write_only() {
            return (done, false);
        }
        let take: usize = if left <= d.len as usize {
            left
        } else {
            d.len as usize
        };
        if !mem.in_dram(d.addr, take) {
            return (done, false);
        }
        let part = vstd::slice::slice_subrange(frame, done, done + take);
        mem.write(d.addr, part);
        done = done + take;
        i = i + 1;
    }
    (done, true)
}

/// The delivery of a frame changes guest memory only in buffers of the chain that the
/// driver has marked for writing.
pub proof fn lemma_deliver_stays_in_chain(
    chain: Seq<Descriptor>,
    mem: GuestRamView,
    frame: Seq<u8>,
    n: nat,
)
    requires
        n <= chain.len(),
    ensures
        spec_same_outside_chain(mem, spec_deliver(chain, mem, frame, n).mem, chain),
    decreases n,
{
    if n > 0 {
        lemma_deliver_stays_in_chain(chain, mem, frame, (n - 1) as nat);
        lemma_deliver_bounds(chain, mem, frame, (n - 1) as nat);
        let before = spec_deliver(chain, mem, frame, (n - 1) as nat);
        let d = chain[n - 1];
        let left = frame.len() - before.done;
        if before.ok && left > 0 && d.spec_is_write_only() {
            let take = if left <= d.len {
                left
            } else {
                d.len as int
            };
            if before.mem.in_dram(d.addr, take) {
                lemma_write_in_chain(
                    mem,
                    before.mem,
                    chain,
                    n - 1,
                    d.addr,
                    frame.subrange(before.done, before.done + take),
                );
            }
        }
    }
}

/// A delivery that has failed, or that has nothing left to deliver, stays as it is.
pub proof fn lemma_deliver_stops(
    chain: Seq<Descriptor>,
    mem: GuestRamView,
    frame: Seq<u8>,
    n: nat,
    m: nat,
)
    requires
        n <= m,
    ensures
        (!spec_deliver(chain, mem, frame, n).ok || spec_deliver(chain, mem, frame, n).done
            >= frame.len()) ==> spec_deliver(chain, mem, frame, m) == spec_deliver(
            chain,
            mem,
            frame,
            n,
        ),
    decreases m,
{
    if n < m {
        lemma_deliver_stops(chain, mem, frame, n, (m - 1) as nat);
    }
}

/// What the device did when its transmit queue was looked at.
#[derive(Clone, Debug)]
pub enum TxEvent {
    /// The device is not activated and has not looked at the queue.
    Ignored,
    /// The guest had nothing to send.
    Idle,
    /// The rate limiter holds the frame back; the chain stays in the queue.
    Throttled,
    /// The guest has sent this frame, which is to be written to the host interface.
    Sent(Vec<u8>),
    /// The chain held no frame; it was given back.
    Dropped,
    /// The queue or the chain was malformed.
    Failed(QueueError),
}

/// What the device did with a frame that the host interface received.
#[derive(Copy, Clone, Debug, PartialEq, Eq, Structural)]
pub enum RxEvent {
    /// The device is not activated; the frame is dropped.
    Ignored,
    /// The frame is addressed to the metadata service and goes to its network stack
    /// in place of the guest.
    Mmds,
    /// The guest has no buffer available, or the rate limiter holds the frame back:
    /// the device keeps the frame.
    Deferred,
    /// The frame was written into a chain of this many bytes.
    Delivered(u32),
    /// The chain was too small for the frame or could not be written; it was given
    /// back empty and the frame is dropped.
    Dropped,
    /// The queue or the chain was malformed.
    Failed(QueueError),
}

/// What the device did when its transmit queue was looked at, as a mathematical
/// value.
pub enum TxStep {
    /// The device is not activated and has not looked at the queue.
    Ignored,
    /// The guest had nothing to send.
    Idle,
    /// The rate limiter holds the frame back; the chain stays in the queue.
    Throttled,
    /// The guest has sent this frame.
    Sent(Seq<u8>),
    /// The chain held no frame; it was given back.
    Dropped,
    /// The queue or the chain was malformed.
    Failed(QueueError),
}

impl View for TxEvent {
    type V = TxStep;

    open spec fn view(&self) -> TxStep {
        match self {
            TxEvent::Ignored => TxStep::Ignored,
            TxEvent::Idle => TxStep::Idle,
            TxEvent::Throttled => TxStep::Throttled,
            TxEvent::Sent(frame) => TxStep::Sent(frame@),
            TxEvent::Dropped => TxStep::Dropped,
            TxEvent::Failed(e) => TxStep::Failed(*e),
        }
    }
}

/// What looking at the transmit queue leaves behind: the queue, its limiter, guest
/// memory, and what happened.
pub struct TxOutcome {
    /// The transmit queue.
    pub queue: Queue,
    /// The limiter of sent frames.
    pub rate_limiter: RateLimiter,
    /// Guest memory.
    pub mem: GuestRamView,
    /// What the device did.
    pub step: TxStep,
}

/// What handling a received frame leaves behind: the receive queue, its limiter, the
/// frame that the device keeps for later, guest memory, and what happened.
pub struct RxOutcome {
    /// The receive queue.
    pub queue: Queue,
    /// The limiter of received frames.
    pub rate_limiter: RateLimiter,
    /// The frame that the device keeps, if it keeps one.
    pub deferred: Option<Seq<u8>>,
    /// Guest memory.
    pub mem: GuestRamView,
    /// What the device did.
    pub event: RxEvent,
}

/// The virtio backend of a network device.
#[derive(Clone, Debug)]
pub struct Net {
    /// Name that the device is known by.
    pub id: String,
    /// Name of the host interface.
    pub iface_name: String,
    /// Hardware address that the guest sees, if one is set.
    pub guest_mac: Option<MacAddr>,
    /// Limiter of received frames.
    pub rx_rate_limiter: RateLimiter,
    /// Limiter of sent frames.
    pub tx_rate_limiter: RateLimiter,
    /// The stack of the metadata service, if the device serves it.
    pub mmds_ns: Option<MmdsNetworkStack>,
    /// The queue on which the guest receives frames.
    pub rx_queue: Queue,
    /// The queue on which the guest sends frames.
    pub tx_queue: Queue,
    /// Whether the driver has started the device.
    pub device_state: DeviceState,
    /// Features that the device offers.
    pub avail_features: u64,
    /// Features that the driver has accepted.
    pub acked_features: u64,
    /// A frame that was received and could not be delivered yet.
    pub rx_deferred_frame: Option<Vec<u8>>,
}

/// True if the name can be that of a host interface: it is not empty and takes no
/// more bytes than the host allows.
pub open spec fn spec_iface_name_valid(name: Seq<char>) -> bool {
    0 < vstd::utf8::encode_utf8(name).len() <= IFACE_NAME_MAX_LEN
}

impl Net {
    /// True if the limiters of the device are in order.
    pub open spec fn wf(&self) -> bool {
        self.rx_rate_limiter.wf() && self.tx_rate_limiter.wf()
    }

    /// A network device on the host interface `tap_if_name`. The name must not be
    /// empty and not longer than the host allows. The device is not activated and
    /// its queues are not set up.
    pub fn new(
        id: String,
        tap_if_name: &str,
        guest_mac: Option<MacAddr>,
        rx_rate_limiter: RateLimiter,
        tx_rate_limiter: RateLimiter,
    ) -> (r: Result<Self, VirtioNetError>)
        ensures
            !spec_iface_name_valid(tap_if_name@) ==> r == Err::<Self, VirtioNetError>(
                VirtioNetError::InvalidIfaceName,
            ),
            spec_iface_name_valid(tap_if_name@) ==> r is Ok && {
                let net = r->Ok_0;
                &&& net.id == id
                &&& net.iface_name@ == tap_if_name@
                &&& net.guest_mac == guest_mac
                &&& net.rx_rate_limiter == rx_rate_limiter
                &&& net.tx_rate_limiter == tx_rate_limiter
                &&& net.mmds_ns is None
                &&& net.rx_queue == spec_unset_queue()
                &&& net.tx_queue == spec_unset_queue()
                &&& net.device_state == DeviceState::Inactive
                &&& net.avail_features == 0
                &&& net.acked_features == 0
                &&& net.rx_deferred_frame is None
            },
    {
        let n = tap_if_name.as_bytes().len();
        proof {
            assert(tap_if_name.spec_bytes() == vstd::utf8::encode_utf8(tap_if_name@));
        }
        if n == 0 || n > IFACE_NAME_MAX_LEN {
            return Err(VirtioNetError::InvalidIfaceName);
        }
        let unset = Queue {
            size: 0,
            desc_table: 0,
            avail_ring: 0,
            used_ring: 0,
            next_avail: 0,
            next_used: 0,
        };
        Ok(
            Net {
                id,
                iface_name: tap_if_name.to_owned(),
                guest_mac,
                rx_rate_limiter,
                tx_rate_limiter,
                mmds_ns: None,
                rx_queue: unset,
                tx_queue: unset,
                device_state: DeviceState::Inactive,
                avail_features: 0,
                acked_features: 0,
                rx_deferred_frame: None,
            },
        )
    }

    /// Name that the device is known by.
    pub fn id(&self) -> (id: &String)
        ensures
            *id == self.id,
    {
        &self.id
    }

    /// Hardware address that the guest sees.
    pub fn guest_mac(&self) -> (mac: Option<&MacAddr>)
        ensures
            match mac {
                Some(m) => self.guest_mac == Some(*m),
                None => self.guest_mac is None,
            },
    {
        self.guest_mac.as_ref()
    }

    /// Name of the host interface.
    pub fn iface_name(&self) -> (name: String)
        ensures
            name@ == self.iface_name@,
    {
        self.iface_name.clone()
    }

    /// The stack of the metadata service, if the device serves it.
    pub fn mmds_ns(&self) -> (ns: Option<&MmdsNetworkStack>)
        ensures
            match ns {
                Some(n) => self.mmds_ns == Some(*n),
                None => self.mmds_ns is None,
            },
    {
        self.mmds_ns.as_ref()
    }

    /// Lets the device serve the metadata service at `ipv4_addr`. A device that
    /// serves it already gets the new address; nothing else of the device changes.
    pub fn configure_mmds_network_stack(&mut self, ipv4_addr: [u8; 4])
        ensures
            *final(self) == (Net { mmds_ns: Some(MmdsNetworkStack { ipv4_addr }), ..*old(self) }),
    {
        self.mmds_ns = Some(MmdsNetworkStack { ipv4_addr });
    }

    /// Stops the device from serving the metadata service. Nothing else of the device
    /// changes, and a device that does not serve it stays as it is.
    pub fn disable_mmds_network_stack(&mut self)
        ensures
            *final(self) == (Net { mmds_ns: None, ..*old(self) }),
    {
        self.mmds_ns = None;
    }

    /// The limiter of received frames.
    pub fn rx_rate_limiter(&self) -> (l: &RateLimiter)
        ensures
            *l == self.rx_rate_limiter,
    {
        &self.rx_rate_limiter
    }

    /// The limiter of sent frames.
    pub fn tx_rate_limiter(&self) -> (l: &RateLimiter)
        ensures
            *l == self.tx_rate_limiter,
    {
        &self.tx_rate_limiter
    }

    /// Changes the buckets of the two limiters.
    pub fn patch_rate_limiters(
        &mut self,
        rx_bytes: BucketUpdate,
        rx_ops: BucketUpdate,
        tx_bytes: BucketUpdate,
        tx_ops: BucketUpdate,
    )
        ensures
            *final(self) == (Net {
                rx_rate_limiter: RateLimiter {
                    bandwidth: crate::rate_limiter::spec_apply_update(
                        old(self).rx_rate_limiter.bandwidth,
                        rx_bytes,
                    ),
                    ops: crate::rate_limiter::spec_apply_update(
                        old(self).rx_rate_limiter.ops,
                        rx_ops,
                    ),
                    ..old(self).rx_rate_limiter
                },
                tx_rate_limiter: RateLimiter {
                    bandwidth: crate::rate_limiter::spec_apply_update(
                        old(self).tx_rate_limiter.bandwidth,
                        tx_bytes,
                    ),
                    ops: crate::rate_limiter::spec_apply_update(
                        old(self).tx_rate_limiter.ops,
                        tx_ops,
                    ),
                    ..old(self).tx_rate_limiter
                },
                ..*old(self)
            }),
    {
        self.rx_rate_limiter.update_buckets(rx_bytes, rx_ops);
        self.tx_rate_limiter.update_buckets(tx_bytes, tx_ops);
    }

    /// Starts the device: from now on it looks at its queues.
    pub fn activate(&mut self)
        ensures
            *final(self) == (Net { device_state: DeviceState::Activated, ..*old(self) }),
    {
        self.device_state = DeviceState::Activated;
    }

    /// True once the device was started.
    pub fn is_activated(&self) -> (b: bool)
        ensures
            b == (self.device_state == DeviceState::Activated),
    {
        self.device_state.is_activated()
    }

    /// The events that the device waits for: the start by the driver as long as it
    /// is not activated; then its two queues, the host interface and the timers of
    /// its two limiters.
    pub fn register(&self) -> (sources: Vec<EventSource>)
        ensures
            sources@ == (if self.device_state != DeviceState::Activated {
                seq![EventSource::Activate]
            } else {
                seq![
                    EventSource::Queue(0),
                    EventSource::Queue(1),
                    EventSource::Tap,
                    EventSource::RateLimiter(0),
                    EventSource::RateLimiter(1),
                ]
            }),
    {
        let mut sources: Vec<EventSource> = Vec::new();
        if !self.device_state.is_activated() {
            sources.push(EventSource::Activate);
            proof {
                assert(sources@ =~= seq![EventSource::Activate]);
            }
        } else {
            sources.push(EventSource::Queue(0));
            sources.push(EventSource::Queue(1));
            sources.push(EventSource::Tap);
            sources.push(EventSource::RateLimiter(0));
            sources.push(EventSource::RateLimiter(1));
            proof {
                assert(sources@ =~= seq![
                    EventSource::Queue(0),
                    EventSource::Queue(1),
                    EventSource::Tap,
                    EventSource::RateLimiter(0),
                    EventSource::RateLimiter(1),
                ]);
            }
        }
        sources
    }

    /// The frame that the device keeps for later, if it keeps one.
    pub open spec fn spec_deferred(self) -> Option<Seq<u8>> {
        match self.rx_deferred_frame {
            Some(frame) => Some(frame@),
            None => None,
        }
    }

    /// True if the two devices differ at most in the frame that they keep for later.
    pub open spec fn spec_same_but_deferred(self, other: Net) -> bool {
        other == (Net { rx_deferred_frame: other.rx_deferred_frame, ..self })
    }

    /// What looking at the transmit queue once at time `now` leaves behind.
    ///
    /// A device that is not activated leaves the queue and guest memory alone. Else
    /// the next chain that the guest has made available is taken. Its frame costs
    /// one operation and its length in bytes of the transmit limiter; a frame that
    /// the limiter holds back stays in the queue. A frame that gets through is sent,
    /// and its chain is given back with 0 bytes written. A chain that holds no frame
    /// is given back as well, and costs nothing.
    #[verifier::opaque]
    pub open spec fn spec_tx_one(self, mem: GuestRamView, now: u64) -> TxOutcome {
        let same = TxOutcome {
            queue: self.tx_queue,
            rate_limiter: self.tx_rate_limiter,
            mem,
            step: TxStep::Ignored,
        };
        if self.device_state != DeviceState::Activated {
            same
        } else {
            match self.tx_queue.spec_pop(mem) {
                Taken::Unreadable(e) => TxOutcome { step: TxStep::Failed(e), ..same },
                Taken::Nothing => TxOutcome { step: TxStep::Idle, ..same },
                Taken::Malformed(e) => TxOutcome {
                    queue: self.tx_queue.spec_taken(),
                    step: TxStep::Failed(e),
                    ..same
                },
                Taken::Chain(head, chain) => {
                    let taken = self.tx_queue.spec_taken();
                    let frame = spec_frame_of(chain, mem, chain.len());
                    let cost = match frame {
                        Some(f) => f.len() as u64,
                        None => 0,
                    };
                    let rate_limiter = if frame is Some {
                        self.tx_rate_limiter.spec_after_request(cost, now)
                    } else {
                        self.tx_rate_limiter
                    };
                    if frame is Some && !self.tx_rate_limiter.spec_admits(cost, now) {
                        TxOutcome { rate_limiter, step: TxStep::Throttled, ..same }
                    } else if !taken.spec_can_add_used(mem) {
                        TxOutcome {
                            queue: taken,
                            rate_limiter,
                            mem,
                            step: TxStep::Failed(QueueError::QueueOutOfMemory),
                        }
                    } else {
                        TxOutcome {
                            queue: taken.spec_returned(),
                            rate_limiter,
                            mem: taken.spec_mem_after_used(mem, head, 0),
                            step: match frame {
                                Some(f) => TxStep::Sent(f),
                                None => TxStep::Dropped,
                            },
                        }
                    }
                },
            }
        }
    }

    /// What looking at the transmit queue at most `budget` times leaves behind: the
    /// queue, its limiter, guest memory, and the frames that were sent, in order. The
    /// device goes on as long as it sends a frame or gives an empty chain back.
    pub open spec fn spec_tx_queue(self, mem: GuestRamView, now: u64, budget: nat) -> (
        Queue,
        RateLimiter,
        GuestRamView,
        Seq<Seq<u8>>,
    )
        decreases budget,
    {
        if budget == 0 {
            (self.tx_queue, self.tx_rate_limiter, mem, Seq::<Seq<u8>>::empty())
        } else {
            let step = self.spec_tx_one(mem, now);
            let next = Net { tx_queue: step.queue, tx_rate_limiter: step.rate_limiter, ..self };
            match step.step {
                TxStep::Sent(frame) => {
                    let rest = next.spec_tx_queue(step.mem, now, (budget - 1) as nat);
                    (rest.0, rest.1, rest.2, seq![frame] + rest.3)
                },
                TxStep::Dropped => next.spec_tx_queue(step.mem, now, (budget - 1) as nat),
                _ => (step.queue, step.rate_limiter, step.mem, Seq::<Seq<u8>>::empty()),
            }
        }
    }

    /// Looks at the transmit queue once, as `spec_tx_one` says. A frame that is sent
    /// is handed out for the host interface.
    pub fn process_tx_one(&mut self, mem: &mut GuestRam, now: u64) -> (event: TxEvent)
        requires
            old(self).wf(),
        ensures
            final(self).wf(),
            *final(self) == (Net {
                tx_queue: old(self).spec_tx_one(old(mem)@, now).queue,
                tx_rate_limiter: old(self).spec_tx_one(old(mem)@, now).rate_limiter,
                ..*old(self)
            }),
            final(mem)@ == old(self).spec_tx_one(old(mem)@, now).mem,
            event@ == old(self).spec_tx_one(old(mem)@, now).step,
    {
        proof {
            reveal(Net::spec_tx_one);
        }
        if !self.device_state.is_activated() {
            return TxEvent::Ignored;
        }
        let mut queue = self.tx_queue;
        let chain = match queue.pop(mem) {
            Err(e) => {
                self.tx_queue = queue;
                return TxEvent::Failed(e);
            },
            Ok(None) => {
                return TxEvent::Idle;
            },
            Ok(Some(chain)) => chain,
        };
        let frame = frame_of(&chain, mem);
        let admitted = match &frame {
            Some(f) => self.tx_rate_limiter.consume_request(f.len() as u64, now),
            None => true,
        };
        if !admitted {
            return TxEvent::Throttled;
        }
        self.tx_queue = queue;
        match self.tx_queue.add_used(mem, chain.head, 0) {
            Err(e) => TxEvent::Failed(e),
            Ok(()) => match frame {
                None => TxEvent::Dropped,
                Some(f) => TxEvent::Sent(f),
            },
        }
    }

    /// Handles a notification of the transmit queue: looks at the queue until the
    /// guest has nothing more to send, the limiter holds a frame back, something is
    /// malformed, or as many chains were taken as the queue has descriptors. Gives
    /// the frames for the host interface, in the order in which the guest has sent
    /// them.
    ///
    /// A device that is not activated gives nothing and leaves the queue and guest
    /// memory as they are.
    pub fn process_tx_queue_event(&mut self, mem: &mut GuestRam, now: u64) -> (frames: Vec<Vec<u8>>)
        requires
            old(self).wf(),
        ensures
            final(self).wf(),
            ({
                let out = old(self).spec_tx_queue(old(mem)@, now, old(self).tx_queue.size as nat);
                &&& *final(self) == (Net { tx_queue: out.0, tx_rate_limiter: out.1, ..*old(self) })
                &&& final(mem)@ == out.2
                &&& frames@.len() == out.3.len()
                &&& forall|i: int| 0 <= i < frames@.len() ==> (#[trigger] frames@[i])@ == out.3[i]
            }),
            old(self).device_state != DeviceState::Activated ==> frames@.len() == 0 && final(mem)@
                == old(mem)@ && *final(self) == *old(self),
            frames@.len() <= old(self).tx_queue.size,
    {
        let mut to_tap: Vec<Vec<u8>> = Vec::new();
        let budget: usize = self.tx_queue.size as usize;
        let mut taken: usize = 0;
        let ghost mut sent: Seq<Seq<u8>> = Seq::empty();
        while taken < budget
            invariant
                taken <= budget,
                budget == old(self).tx_queue.size,
                self.wf(),
                *self == (Net {
                    tx_queue: self.tx_queue,
                    tx_rate_limiter: self.tx_rate_limiter,
                    ..*old(self)
                }),
                to_tap@.len() <= taken,
                sent.len() == to_tap@.len(),
                forall|i: int| 0 <= i < to_tap@.len() ==> (#[trigger] to_tap@[i])@ == sent[i],
                old(self).device_state != DeviceState::Activated ==> to_tap@.len() == 0 && mem@
                    == old(mem)@ && *self == *old(self),
                old(self).spec_tx_queue(old(mem)@, now, budget as nat) == ({
                    let rest = self.spec_tx_queue(mem@, now, (budget - taken) as nat);
                    (rest.0, rest.1, rest.2, sent + rest.3)
                }),
            decreases budget - taken,
        {
            proof {
                lemma_tx_one_keeps(*self, mem@, now);
            }
            match self.process_tx_one(mem, now) {
                TxEvent::Sent(frame) => {
                    proof {
                        let rest = self.spec_tx_queue(mem@, now, (budget - taken - 1) as nat);
                        assert(sent + (seq![frame@] + rest.3) =~= sent.push(frame@) + rest.3);
                        sent = sent.push(frame@);
                    }
                    to_tap.push(frame);
                },
                TxEvent::Dropped => {},
                _ => {
                    proof {
                        assert(sent + Seq::<Seq<u8>>::empty() =~= sent);
                    }
                    return to_tap;
                },
            }
            taken = taken + 1;
        }
        proof {
            assert(sent + Seq::<Seq<u8>>::empty() =~= sent);
        }
        to_tap
    }

    /// What handling a frame from the host interface at time `now` leaves behind.
    ///
    /// A frame that is addressed to the metadata service, on an activated device
    /// that serves it, goes to the network stack of the service: nothing of the
    /// device or of guest memory changes. Any other frame is delivered to the guest
    /// as `spec_deliver_frame` says.
    pub open spec fn spec_tap_rx(self, mem: GuestRamView, frame: Seq<u8>, now: u64) -> RxOutcome {
        if self.device_state == DeviceState::Activated && self.mmds_ns is Some
            && spec_is_mmds_frame(frame, self.mmds_ns->Some_0.ipv4_addr@) {
            RxOutcome {
                queue: self.rx_queue,
                rate_limiter: self.rx_rate_limiter,
                deferred: self.spec_deferred(),
                mem,
                event: RxEvent::Mmds,
            }
        } else {
            self.spec_deliver_frame(mem, frame, now)
        }
    }

    /// Handles a frame that the host interface has received, as `spec_tap_rx` says.
    pub fn process_tap_rx_event(&mut self, mem: &mut GuestRam, frame: Vec<u8>, now: u64) -> (event:
        RxEvent)
        requires
            old(self).wf(),
        ensures
            final(self).wf(),
            ({
                let out = old(self).spec_tap_rx(old(mem)@, frame@, now);
                &&& (Net { rx_queue: out.queue, rx_rate_limiter: out.rate_limiter, ..*old(self) })
                    .spec_same_but_deferred(*final(self))
                &&& final(self).spec_deferred() == out.deferred
                &&& final(mem)@ == out.mem
                &&& event == out.event
            }),
            event == RxEvent::Mmds <==> old(self).device_state == DeviceState::Activated && old(
                self,
            ).mmds_ns is Some && spec_is_mmds_frame(frame@, old(self).mmds_ns->Some_0.ipv4_addr@),
    {
        if !self.device_state.is_activated() {
            return RxEvent::Ignored;
        }
        let to_mmds = match &self.mmds_ns {
            Some(ns) => is_mmds_frame(frame.as_slice(), ns),
            None => false,
        };
        if to_mmds {
            return RxEvent::Mmds;
        }
        self.deliver_frame(mem, frame, now)
    }

    /// What delivering a received frame at time `now` leaves behind.
    ///
    /// A device that is not activated drops the frame, and so does any device with a
    /// frame too long for a chain to be given back with its length. Else the next
    /// chain of the receive queue is looked at. If the guest has none available, the
    /// device keeps the frame for later. Else the frame costs one operation and its
    /// length in bytes of the receive limiter; if the limiter holds it back, the
    /// chain stays in the queue and the device keeps the frame. Else the frame is
    /// written into the chain, which is given back with the length of the frame; a
    /// chain that cannot take the whole frame is given back with 0 bytes, and the
    /// frame is dropped.
    pub open spec fn spec_deliver_frame(self, mem: GuestRamView, frame: Seq<u8>, now: u64) -> RxOutcome {
        let same = RxOutcome {
            queue: self.rx_queue,
            rate_limiter: self.rx_rate_limiter,
            deferred: self.spec_deferred(),
            mem,
            event: RxEvent::Ignored,
        };
        if self.device_state != DeviceState::Activated {
            same
        } else if frame.len() > u32::MAX {
            RxOutcome { event: RxEvent::Dropped, ..same }
        } else {
            match self.rx_queue.spec_pop(mem) {
                Taken::Unreadable(e) => RxOutcome { event: RxEvent::Failed(e), ..same },
                Taken::Nothing => RxOutcome {
                    deferred: Some(frame),
                    event: RxEvent::Deferred,
                    ..same
                },
                Taken::Malformed(e) => RxOutcome {
                    queue: self.rx_queue.spec_taken(),
                    event: RxEvent::Failed(e),
                    ..same
                },
                Taken::Chain(head, chain) => {
                    let taken = self.rx_queue.spec_taken();
                    let rate_limiter = self.rx_rate_limiter.spec_after_request(
                        frame.len() as u64,
                        now,
                    );
                    if !self.rx_rate_limiter.spec_admits(frame.len() as u64, now) {
                        RxOutcome {
                            rate_limiter,
                            deferred: Some(frame),
                            event: RxEvent::Deferred,
                            ..same
                        }
                    } else {
                        let d = spec_deliver(chain, mem, frame, chain.len());
                        let complete = d.ok && d.done == frame.len();
                        let used_len = if complete {
                            frame.len() as u32
                        } else {
                            0u32
                        };
                        if !taken.spec_can_add_used(d.mem) {
                            RxOutcome {
                                queue: taken,
                                rate_limiter,
                                deferred: None,
                                mem: d.mem,
                                event: RxEvent::Failed(QueueError::QueueOutOfMemory),
                            }
                        } else {
                            RxOutcome {
                                queue: taken.spec_returned(),
                                rate_limiter,
                                deferred: None,
                                mem: taken.spec_mem_after_used(d.mem, head, used_len),
                                event: if complete {
                                    RxEvent::Delivered(used_len)
                                } else {
                                    RxEvent::Dropped
                                },
                            }
                        }
                    }
                },
            }
        }
    }

    /// Delivers a frame that the host interface has received, as
    /// `spec_deliver_frame` says.
    pub fn deliver_frame(&mut self, mem: &mut GuestRam, frame: Vec<u8>, now: u64) -> (event: RxEvent)
        requires
            old(self).wf(),
        ensures
            final(self).wf(),
            ({
                let out = old(self).spec_deliver_frame(old(mem)@, frame@, now);
                &&& (Net { rx_queue: out.queue, rx_rate_limiter: out.rate_limiter, ..*old(self) })
                    .spec_same_but_deferred(*final(self))
                &&& final(self).spec_deferred() == out.deferred
                &&& final(mem)@ == out.mem
                &&& event == out.event
            }),
            event != RxEvent::Mmds,
    {
        if !self.device_state.is_activated() {
            return RxEvent::Ignored;
        }
        let len: usize = frame.len();
        if len > u32::MAX as usize {
            return RxEvent::Dropped;
        }
        let mut queue = self.rx_queue;
        let chain = match queue.pop(mem) {
            Err(e) => {
                self.rx_queue = queue;
                return RxEvent::Failed(e);
            },
            Ok(None) => {
                self.rx_deferred_frame = Some(frame);
                return RxEvent::Deferred;
            },
            Ok(Some(chain)) => chain,
        };
        if !self.rx_rate_limiter.consume_request(len as u64, now) {
            self.rx_deferred_frame = Some(frame);
            return RxEvent::Deferred;
        }
        let (done, ok) = deliver(&chain, mem, frame.as_slice());
        let complete = ok && done == len;
        let used_len: u32 = if complete {
            len as u32
        } else {
            0
        };
        self.rx_deferred_frame = None;
        self.rx_queue = queue;
        match self.rx_queue.add_used(mem, chain.head, used_len) {
            Err(e) => RxEvent::Failed(e),
            Ok(()) => if complete {
                RxEvent::Delivered(used_len)
            } else {
                RxEvent::Dropped
            },
        }
    }

    /// What a notification of the receive queue at time `now` leaves behind, if the
    /// device does anything: an activated device that keeps a frame delivers it now,
    /// as `spec_deliver_frame` says of a device that keeps none.
    pub open spec fn spec_rx_queue_event(self, mem: GuestRamView, now: u64) -> Option<RxOutcome> {
        if self.device_state != DeviceState::Activated {
            None
        } else {
            match self.spec_deferred() {
                None => None,
                Some(frame) => Some(
                    (Net { rx_deferred_frame: None, ..self }).spec_deliver_frame(mem, frame, now),
                ),
            }
        }
    }

    /// Handles a notification of the receive queue: the guest has made buffers
    /// available, so a frame that the device has kept is delivered now. A device
    /// that is not activated, or keeps no frame, does nothing.
    pub fn process_rx_queue_event(&mut self, mem: &mut GuestRam, now: u64) -> (event: Option<
        RxEvent,
    >)
        requires
            old(self).wf(),
        ensures
            final(self).wf(),
            match old(self).spec_rx_queue_event(old(mem)@, now) {
                None => event is None && *final(self) == *old(self) && final(mem)@ == old(mem)@,
                Some(out) => {
                    &&& (Net {
                        rx_queue: out.queue,
                        rx_rate_limiter: out.rate_limiter,
                        ..*old(self)
                    }).spec_same_but_deferred(*final(self))
                    &&& final(self).spec_deferred() == out.deferred
                    &&& final(mem)@ == out.mem
                    &&& event == Some(out.event)
                },
            },
    {
        if !self.device_state.is_activated() {
            return None;
        }
        let mut kept: Option<Vec<u8>> = None;
        core::mem::swap(&mut kept, &mut self.rx_deferred_frame);
        match kept {
            None => None,
            Some(frame) => Some(self.deliver_frame(mem, frame, now)),
        }
    }

    /// The receive side of the device and guest memory after a notification of the
    /// receive queue at time `now`, whether the device has done anything or not.
    pub open spec fn spec_rx_side(self, mem: GuestRamView, now: u64) -> RxOutcome {
        match self.spec_rx_queue_event(mem, now) {
            Some(out) => out,
            None => RxOutcome {
                queue: self.rx_queue,
                rate_limiter: self.rx_rate_limiter,
                deferred: self.spec_deferred(),
                mem,
                event: RxEvent::Ignored,
            },
        }
    }

    /// The device after the timer of its receive limiter has fired.
    pub open spec fn spec_rx_timer_fired(self) -> Net {
        Net { rx_rate_limiter: RateLimiter { timer_active: false, ..self.rx_rate_limiter }, ..self }
    }

    /// The device after the timer of its transmit limiter has fired.
    pub open spec fn spec_tx_timer_fired(self) -> Net {
        Net { tx_rate_limiter: RateLimiter { timer_active: false, ..self.tx_rate_limiter }, ..self }
    }

    /// Takes note that the timer of the receive limiter has fired, and delivers a
    /// frame that the device has kept. A device that is not activated does nothing.
    pub fn process_rx_rate_limiter_event(&mut self, mem: &mut GuestRam, now: u64) -> (event: Option<
        RxEvent,
    >)
        requires
            old(self).wf(),
        ensures
            final(self).wf(),
            old(self).device_state != DeviceState::Activated ==> event is None && *final(self)
                == *old(self) && final(mem)@ == old(mem)@,
            old(self).device_state == DeviceState::Activated ==> match old(
                self,
            ).spec_rx_timer_fired().spec_rx_queue_event(old(mem)@, now) {
                None => event is None && *final(self) == old(self).spec_rx_timer_fired()
                    && final(mem)@ == old(mem)@,
                Some(out) => {
                    &&& (Net {
                        rx_queue: out.queue,
                        rx_rate_limiter: out.rate_limiter,
                        ..*old(self)
                    }).spec_same_but_deferred(*final(self))
                    &&& final(self).spec_deferred() == out.deferred
                    &&& final(mem)@ == out.mem
                    &&& event == Some(out.event)
                },
            },
    {
        if !self.device_state.is_activated() {
            return None;
        }
        self.rx_rate_limiter.event_handler();
        self.process_rx_queue_event(mem, now)
    }

    /// Takes note that the timer of the transmit limiter has fired, and goes on
    /// sending as `process_tx_queue_event` does. A device that is not activated does
    /// nothing.
    pub fn process_tx_rate_limiter_event(&mut self, mem: &mut GuestRam, now: u64) -> (frames: Vec<
        Vec<u8>,
    >)
        requires
            old(self).wf(),
        ensures
            final(self).wf(),
            old(self).device_state != DeviceState::Activated ==> frames@.len() == 0 && final(mem)@
                == old(mem)@ && *final(self) == *old(self),
            old(self).device_state == DeviceState::Activated ==> ({
                let out = old(self).spec_tx_timer_fired().spec_tx_queue(
                    old(mem)@,
                    now,
                    old(self).tx_queue.size as nat,
                );
                &&& *final(self) == (Net { tx_queue: out.0, tx_rate_limiter: out.1, ..*old(self) })
                &&& final(mem)@ == out.2
                &&& frames@.len() == out.3.len()
                &&& forall|i: int| 0 <= i < frames@.len() ==> (#[trigger] frames@[i])@ == out.3[i]
            }),
    {
        if !self.device_state.is_activated() {
            return Vec::new();
        }
        self.tx_rate_limiter.event_handler();
        self.process_tx_queue_event(mem, now)
    }
}

/// Looking at the transmit queue keeps the size of the queue, and a device that is not
/// activated does nothing at all.
pub proof fn lemma_tx_one_keeps(net: Net, mem: GuestRamView, now: u64)
    ensures
        net.spec_tx_one(mem, now).queue.size == net.tx_queue.size,
        net.device_state != DeviceState::Activated ==> net.spec_tx_one(mem, now) == (TxOutcome {
            queue: net.tx_queue,
            rate_limiter: net.tx_rate_limiter,
            mem,
            step: TxStep::Ignored,
        }),
{
    reveal(Net::spec_tx_one);
}

/// What the device sends does not depend on what it has received: two devices with the
/// same state, transmit queue and transmit limiter send the same.
pub proof fn lemma_tx_ignores_rx(a: Net, b: Net, mem: GuestRamView, now: u64, budget: nat)
    requires
        a.device_state == b.device_state,
        a.tx_queue == b.tx_queue,
        a.tx_rate_limiter == b.tx_rate_limiter,
    ensures
        a.spec_tx_queue(mem, now, budget) == b.spec_tx_queue(mem, now, budget),
    decreases budget,
{
    if budget > 0 {
        reveal(Net::spec_tx_one);
        let step = a.spec_tx_one(mem, now);
        assert(b.spec_tx_one(mem, now) == step);
        lemma_tx_ignores_rx(
            Net { tx_queue: step.queue, tx_rate_limiter: step.rate_limiter, ..a },
            Net { tx_queue: step.queue, tx_rate_limiter: step.rate_limiter, ..b },
            step.mem,
            now,
            (budget - 1) as nat,
        );
    }
}

/// A device that is not activated sends nothing and leaves its transmit queue, its
/// limiter and guest memory as they are, however often the queue is looked at.
pub proof fn lemma_inactive_net_sends_nothing(net: Net, mem: GuestRamView, now: u64, budget: nat)
    requires
        net.device_state != DeviceState::Activated,
    ensures
        net.spec_tx_queue(mem, now, budget) == (
            net.tx_queue,
            net.tx_rate_limiter,
            mem,
            Seq::<Seq<u8>>::empty(),
        ),
{
    lemma_tx_one_keeps(net, mem, now);
}

/// Looking at the transmit queue changes guest memory only in the used ring of the
/// queue: what the guest sends is read, never written.
pub proof fn lemma_tx_one_touches_ring_only(net: Net, mem: GuestRamView, now: u64)
    ensures
        net.spec_tx_one(mem, now).mem == mem || mem.same_outside(
            net.spec_tx_one(mem, now).mem,
            net.tx_queue.used_ring,
            4 + 8 * net.tx_queue.size,
        ),
{
    reveal(Net::spec_tx_one);
    if net.device_state == DeviceState::Activated {
        match net.tx_queue.spec_pop(mem) {
            Taken::Chain(head, chain) => {
                let taken = net.tx_queue.spec_taken();
                if taken.spec_can_add_used(mem) {
                    lemma_add_used_touches_ring_only(taken, mem, head, 0);
                }
            },
            _ => {},
        }
    }
}

/// Delivering a frame changes guest memory only where the device may write: in
/// buffers of the chain it has taken that the driver has marked for writing, and in
/// the used ring of the receive queue. A device that takes no chain changes nothing.
pub proof fn lemma_deliver_frame_stays_in_chain(net: Net, mem: GuestRamView, frame: Seq<u8>, now: u64)
    ensures
        net.spec_deliver_frame(mem, frame, now).mem == mem || (net.rx_queue.spec_pop(mem) is Chain
            && spec_same_outside_chain_and_ring(
            mem,
            net.spec_deliver_frame(mem, frame, now).mem,
            net.rx_queue.spec_pop(mem)->Chain_1,
            net.rx_queue,
        )),
{
    if net.device_state == DeviceState::Activated && frame.len() <= u32::MAX {
        match net.rx_queue.spec_pop(mem) {
            Taken::Chain(head, chain) => {
                let taken = net.rx_queue.spec_taken();
                if net.rx_rate_limiter.spec_admits(frame.len() as u64, now) {
                    let d = spec_deliver(chain, mem, frame, chain.len());
                    lemma_deliver_stays_in_chain(chain, mem, frame, chain.len());
                    let used_len = if d.ok && d.done == frame.len() {
                        frame.len() as u32
                    } else {
                        0u32
                    };
                    if taken.spec_can_add_used(d.mem) {
                        lemma_returned_chain(mem, d.mem, chain, taken, head, used_len);
                    }
                    assert(spec_same_outside_chain_and_ring(
                        mem,
                        net.spec_deliver_frame(mem, frame, now).mem,
                        chain,
                        net.rx_queue,
                    ));
                }
            },
            _ => {},
        }
    }
}

} // verus!
