//! The network device, whatever its backend.
use vstd::prelude::*;
use crate::devices::virtio::net::persist::NetConstructorArgs;
use crate::devices::virtio::net::persist::NetState;
use crate::devices::virtio::net::persist::VirtioNetState;
use crate::devices::virtio::net::virtio::lemma_tx_ignores_rx;
use crate::devices::virtio::net::virtio::spec_iface_name_valid;
use crate::devices::virtio::net::virtio::MacAddr;
use crate::devices::virtio::net::virtio::MmdsNetworkStack;
use crate::devices::virtio::net::virtio::Net as VirtioNet;
use crate::devices::virtio::net::NetError;
use crate::devices::virtio::net::NetPersistError;
use crate::devices::virtio::queue::spec_unset_queue;
use crate::devices::virtio::queue::Queue;
use crate::devices::virtio::DeviceState;
use crate::devices::virtio::TYPE_NET;
use crate::guest_ram::GuestRam;
use crate::rate_limiter::BucketUpdate;
use crate::rate_limiter::RateLimiter;

verus! {

/// A network device.
#[derive(Clone, Debug)]
pub enum Net {
    /// A device with the virtio backend.
    Virtio(VirtioNet),
}

impl Net {
    /// The backend of the device.
    pub open spec fn backend(&self) -> VirtioNet {
        match *self {
            Net::Virtio(b) => b,
        }
    }

    /// A network device on the host interface `tap_if_name`.
    pub fn new(
        id: String,
        tap_if_name: &str,
        guest_mac: Option<MacAddr>,
        rx_rate_limiter: RateLimiter,
        tx_rate_limiter: RateLimiter,
    ) -> (r: Result<Self, NetError>)
        ensures
            match r {
                Ok(net) => spec_iface_name_valid(tap_if_name@) && net.backend().id
                    == id && net.backend().iface_name@ == tap_if_name@ && net.backend().guest_mac
                    == guest_mac && net.backend().rx_rate_limiter == rx_rate_limiter
                    && net.backend().tx_rate_limiter == tx_rate_limiter && net.backend().mmds_ns
                    is None && net.backend().device_state == DeviceState::Inactive
                    && net.backend().rx_queue == spec_unset_queue() && net.backend().tx_queue
                    == spec_unset_queue() && net.backend().avail_features == 0
                    && net.backend().acked_features == 0 && net.backend().rx_deferred_frame is None,
                Err(e) => !spec_iface_name_valid(tap_if_name@) && e
                    == NetError::VirtioBackend(
                    crate::devices::virtio::net::VirtioNetError::InvalidIfaceName,
                ),
            },
    {
        match VirtioNet::new(id, tap_if_name, guest_mac, rx_rate_limiter, tx_rate_limiter) {
            Ok(net) => Ok(Net::Virtio(net)),
            Err(e) => Err(NetError::VirtioBackend(e)),
        }
    }

    /// Name that the device is known by.
    pub fn id(&self) -> (id: &String)
        ensures
            *id == self.backend().id,
    {
        match self {
            Self::Virtio(b) => b.id(),
        }
    }

    /// Hardware address that the guest sees.
    pub fn guest_mac(&self) -> (mac: Option<&MacAddr>)
        ensures
            match mac {
                Some(m) => self.backend().guest_mac == Some(*m),
                None => self.backend().guest_mac is None,
            },
    {
        match self {
            Self::Virtio(b) => b.guest_mac(),
        }
    }

    /// Name of the host interface.
    pub fn iface_name(&self) -> (name: String)
        ensures
            name@ == self.backend().iface_name@,
    {
        match self {
            Self::Virtio(b) => b.iface_name(),
        }
    }

    /// The stack of the metadata service, if the device serves it.
    pub fn mmds_ns(&self) -> (ns: Option<&MmdsNetworkStack>)
        ensures
            match ns {
                Some(n) => self.backend().mmds_ns == Some(*n),
                None => self.backend().mmds_ns is None,
            },
    {
        match self {
            Self::Virtio(b) => b.mmds_ns(),
        }
    }

    /// Lets the device serve the metadata service at `ipv4_addr`; a device that
    /// serves it already gets the new address. The interface is not reset.
    pub fn configure_mmds_network_stack(&mut self, ipv4_addr: [u8; 4])
        ensures
            final(self).backend() == (VirtioNet {
                mmds_ns: Some(MmdsNetworkStack { ipv4_addr }),
                ..old(self).backend()
            }),
    {
        match self {
            Self::Virtio(b) => b.configure_mmds_network_stack(ipv4_addr),
        }
    }

    /// Stops the device from serving the metadata service. The interface is not
    /// reset, and doing this twice is the same as doing it once.
    pub fn disable_mmds_network_stack(&mut self)
        ensures
            final(self).backend() == (VirtioNet { mmds_ns: None, ..old(self).backend() }),
    {
        match self {
            Self::Virtio(b) => b.disable_mmds_network_stack(),
        }
    }

    /// The limiter of received frames.
    pub fn rx_rate_limiter(&self) -> (l: &RateLimiter)
        ensures
            *l == self.backend().rx_rate_limiter,
    {
        match self {
            Self::Virtio(b) => b.rx_rate_limiter(),
        }
    }

    /// The limiter of sent frames.
    pub fn tx_rate_limiter(&self) -> (l: &RateLimiter)
        ensures
            *l == self.backend().tx_rate_limiter,
    {
        match self {
            Self::Virtio(b) => b.tx_rate_limiter(),
        }
    }

    /// Changes the buckets of the two limiters.
    pub fn patch_rate_limiters(
        &mut self,
        rx_bytes: BucketUpdate,
        rx_ops: BucketUpdate,
        tx_bytes: BucketUpdate,
        tx_ops: BucketUpdate,
    )
        ensures
            final(self).backend() == (VirtioNet {
                rx_rate_limiter: RateLimiter {
                    bandwidth: crate::rate_limiter::spec_apply_update(
                        old(self).backend().rx_rate_limiter.bandwidth,
                        rx_bytes,
                    ),
                    ops: crate::rate_limiter::spec_apply_update(
                        old(self).backend().rx_rate_limiter.ops,
                        rx_ops,
                    ),
                    ..old(self).backend().rx_rate_limiter
                },
                tx_rate_limiter: RateLimiter {
                    bandwidth: crate::rate_limiter::spec_apply_update(
                        old(self).backend().tx_rate_limiter.bandwidth,
                        tx_bytes,
                    ),
                    ops: crate::rate_limiter::spec_apply_update(
                        old(self).backend().tx_rate_limiter.ops,
                        tx_ops,
                    ),
                    ..old(self).backend().tx_rate_limiter
                },
                ..old(self).backend()
            }),
    {
        match self {
            Self::Virtio(b) => b.patch_rate_limiters(rx_bytes, rx_ops, tx_bytes, tx_ops),
        }
    }

    /// Looks at both queues of the device: delivers a frame that the device has kept,
    /// and takes what the guest has to send. Gives the frames for the host interface.
    ///
    /// A device that is not activated gives nothing and leaves its queues and guest
    /// memory as they are.
    pub fn process_virtio_queues(&mut self, mem: &mut GuestRam, now: u64) -> (frames: Vec<Vec<u8>>)
        requires
            old(self).backend().wf(),
        ensures
            final(self).backend().wf(),
            ({
                let b = old(self).backend();
                let rx = b.spec_rx_side(old(mem)@, now);
                let tx = b.spec_tx_queue(rx.mem, now, b.tx_queue.size as nat);
                &&& (VirtioNet {
                    rx_queue: rx.queue,
                    rx_rate_limiter: rx.rate_limiter,
                    tx_queue: tx.0,
                    tx_rate_limiter: tx.1,
                    ..b
                }).spec_same_but_deferred(final(self).backend())
                &&& final(self).backend().spec_deferred() == rx.deferred
                &&& final(mem)@ == tx.2
                &&& frames@.len() == tx.3.len()
                &&& forall|i: int| 0 <= i < frames@.len() ==> (#[trigger] frames@[i])@ == tx.3[i]
            }),
            old(self).backend().device_state != DeviceState::Activated ==> frames@.len() == 0
                && final(mem)@ == old(mem)@ && final(self).backend() == old(self).backend(),
    {
        match self {
            Self::Virtio(b) => {
                let _ = b.process_rx_queue_event(mem, now);
                proof {
                    lemma_tx_ignores_rx(
                        *b,
                        old(self).backend(),
                        mem@,
                        now,
                        old(self).backend().tx_queue.size as nat,
                    );
                }
                b.process_tx_queue_event(mem, now)
            },
        }
    }

    /// The events that the device waits for.
    pub fn register(&self) -> (sources: Vec<crate::event_manager::EventSource>)
        ensures
            sources@ == (if self.backend().device_state != DeviceState::Activated {
                seq![crate::event_manager::EventSource::Activate]
            } else {
                seq![
                    crate::event_manager::EventSource::Queue(0),
                    crate::event_manager::EventSource::Queue(1),
                    crate::event_manager::EventSource::Tap,
                    crate::event_manager::EventSource::RateLimiter(0),
                    crate::event_manager::EventSource::RateLimiter(1),
                ]
            }),
    {
        match self {
            Self::Virtio(b) => b.register(),
        }
    }

    /// Features that the device offers.
    pub fn avail_features(&self) -> (f: u64)
        ensures
            f == self.backend().avail_features,
    {
        match self {
            Self::Virtio(b) => b.avail_features,
        }
    }

    /// Features that the driver has accepted.
    pub fn acked_features(&self) -> (f: u64)
        ensures
            f == self.backend().acked_features,
    {
        match self {
            Self::Virtio(b) => b.acked_features,
        }
    }

    /// Sets the features that the driver has accepted.
    pub fn set_acked_features(&mut self, acked_features: u64)
        ensures
            final(self).backend().acked_features == acked_features,
            final(self).backend().device_state == old(self).backend().device_state,
            final(self).backend().avail_features == old(self).backend().avail_features,
    {
        match self {
            Self::Virtio(b) => {
                b.acked_features = acked_features;
            },
        }
    }

    /// Type of the device.
    pub fn device_type(&self) -> (t: u32)
        ensures
            t == TYPE_NET,
    {
        TYPE_NET
    }

    /// The queues of the device: the receive queue, then the transmit queue.
    pub fn queues(&self) -> (q: [Queue; 2])
        ensures
            q@[0] == self.backend().rx_queue,
            q@[1] == self.backend().tx_queue,
    {
        match self {
            Self::Virtio(b) => [b.rx_queue, b.tx_queue],
        }
    }

    /// Starts the device.
    pub fn activate(&mut self)
        ensures
            final(self).backend() == (VirtioNet {
                device_state: DeviceState::Activated,
                ..old(self).backend()
            }),
    {
        match self {
            Self::Virtio(b) => b.activate(),
        }
    }

    /// True once the device was started.
    pub fn is_activated(&self) -> (b: bool)
        ensures
            b == (self.backend().device_state == DeviceState::Activated),
    {
        match self {
            Self::Virtio(b) => b.is_activated(),
        }
    }

    /// What is saved of the device.
    pub fn save(&self) -> (state: NetState)
        ensures
            state matches NetState::Virtio(s) && {
                &&& s.id == self.backend().id
                &&& s.tap_if_name@ == self.backend().iface_name@
                &&& s.rx_rate_limiter == self.backend().rx_rate_limiter
                &&& s.tx_rate_limiter == self.backend().tx_rate_limiter
                &&& s.mmds_ns == self.backend().mmds_ns
                &&& s.guest_mac == self.backend().guest_mac
                &&& s.avail_features == self.backend().avail_features
                &&& s.acked_features == self.backend().acked_features
                &&& s.queues@ == seq![self.backend().rx_queue, self.backend().tx_queue]
                &&& s.activated == (self.backend().device_state == DeviceState::Activated)
            },
    {
        match self {
            Self::Virtio(b) => {
                let mut queues: Vec<Queue> = Vec::new();
                queues.push(b.rx_queue);
                queues.push(b.tx_queue);
                proof {
                    assert(queues@ =~= seq![b.rx_queue, b.tx_queue]);
                }
                NetState::Virtio(
                    VirtioNetState {
                        id: b.id.clone(),
                        tap_if_name: b.iface_name.clone(),
                        rx_rate_limiter: b.rx_rate_limiter,
                        tx_rate_limiter: b.tx_rate_limiter,
                        mmds_ns: b.mmds_ns,
                        guest_mac: b.guest_mac,
                        avail_features: b.avail_features,
                        acked_features: b.acked_features,
                        queues,
                        activated: b.device_state.is_activated(),
                    },
                )
            },
        }
    }

    /// Makes a device from a saved state: the device has what was saved, and is
    /// activated if it was. A state that does not have two queues is refused. The
    /// device serves the metadata service only if the state says so and there is a
    /// data store to serve.
    pub fn restore(constructor_args: NetConstructorArgs, state: &NetState) -> (r: Result<
        Self,
        NetError,
    >)
        ensures
            match *state {
                NetState::Virtio(s) => if s.queues@.len() != 2 {
                    r == Err::<Self, NetError>(
                        NetError::VirtioBackendPersist(NetPersistError::QueueCount),
                    )
                } else if !spec_iface_name_valid(s.tap_if_name@) {
                    r == Err::<Self, NetError>(
                        NetError::VirtioBackendPersist(
                            NetPersistError::CreateNet(
                                crate::devices::virtio::net::VirtioNetError::InvalidIfaceName,
                            ),
                        ),
                    )
                } else {
                    r is Ok && {
                        let net = r->Ok_0.backend();
                        &&& net.id == s.id
                        &&& net.iface_name@ == s.tap_if_name@
                        &&& net.guest_mac == s.guest_mac
                        &&& net.rx_rate_limiter == s.rx_rate_limiter
                        &&& net.tx_rate_limiter == s.tx_rate_limiter
                        &&& net.avail_features == s.avail_features
                        &&& net.acked_features == s.acked_features
                        &&& net.rx_queue == s.queues@[0]
                        &&& net.tx_queue == s.queues@[1]
                        &&& net.mmds_ns == (if constructor_args.mmds {
                            s.mmds_ns
                        } else {
                            None
                        })
                        &&& net.rx_deferred_frame is None
                        &&& net.device_state == (if s.activated {
                            DeviceState::Activated
                        } else {
                            DeviceState::Inactive
                        })
                    }
                },
            },
    {
        match state {
            NetState::Virtio(s) => {
                if s.queues.len() != 2 {
                    return Err(NetError::VirtioBackendPersist(NetPersistError::QueueCount));
                }
                let mut net = match VirtioNet::new(
                    s.id.clone(),
                    s.tap_if_name.as_str(),
                    s.guest_mac,
                    s.rx_rate_limiter,
                    s.tx_rate_limiter,
                ) {
                    Ok(net) => net,
                    Err(e) => {
                        return Err(NetError::VirtioBackendPersist(NetPersistError::CreateNet(e)));
                    },
                };
                net.avail_features = s.avail_features;
                net.acked_features = s.acked_features;
                net.rx_queue = s.queues[0];
                net.tx_queue = s.queues[1];
                if constructor_args.mmds {
                    net.mmds_ns = s.mmds_ns;
                }
                if s.activated {
                    net.device_state = DeviceState::Activated;
                }
                Ok(Net::Virtio(net))
            },
        }
    }
}

} // verus!
