//! The register file through which a guest driver finds, configures and starts a
//! virtio device.
//!
//! The driver acknowledges the device, announces itself, negotiates features, sets up
//! the queues and at last reports that it is ready. Only then is the device
//! activated; until then its queues are not looked at.
use vstd::prelude::*;
use crate::devices::virtio::DeviceState;
use crate::wire::read_u32;
use crate::wire::spec_u32_at;
use crate::wire::spec_u32_bytes;
use crate::wire::write_u32;

verus! {

/// Status of a device that the driver has not touched.
pub const DEVICE_INIT: u32 = 0;

/// Status bit: the driver has seen the device.
pub const DEVICE_ACKNOWLEDGE: u32 = 0x01;

/// Status bit: the driver knows how to drive the device.
pub const DEVICE_DRIVER: u32 = 0x02;

/// Status bit: the driver is ready.
pub const DEVICE_DRIVER_OK: u32 = 0x04;

/// Status bit: the driver has accepted the features.
pub const DEVICE_FEATURES_OK: u32 = 0x08;

/// Status bit: the device has met an error it cannot recover from.
pub const DEVICE_NEEDS_RESET: u32 = 0x40;

/// Status bit: the driver has given up on the device, or the device could not be
/// started.
pub const DEVICE_FAILED: u32 = 0x80;

/// What the magic register reads.
pub const MMIO_MAGIC_VALUE: u32 = 0x7472_6976;

/// Version of the transport.
pub const MMIO_VERSION: u32 = 2;

/// What the vendor register reads.
pub const VENDOR_ID: u32 = 0;

/// Offset at which the configuration space of the device starts.
pub const MMIO_CFG_SPACE_OFF: u64 = 0x100;

/// Offset of the register by which the driver notifies a queue.
pub const MMIO_QUEUE_NOTIFY: u64 = 0x50;

/// The registers of one queue.
#[derive(Copy, Clone, Debug, PartialEq, Eq, Structural)]
pub struct QueueConfig {
    /// Most descriptors the queue can have.
    pub max_size: u16,
    /// Number of descriptors the driver has chosen.
    pub size: u16,
    /// True once the driver has made the queue ready.
    pub ready: bool,
    /// Guest physical address of the descriptor table.
    pub desc_table: u64,
    /// Guest physical address of the available ring.
    pub avail_ring: u64,
    /// Guest physical address of the used ring.
    pub used_ring: u64,
}

impl QueueConfig {
    /// True if the queue can be used: it is ready, its size is a power of two and not
    /// more than the queue can have, and its three parts are aligned to 16, 2 and 4
    /// bytes.
    pub open spec fn spec_is_valid(self) -> bool {
        &&& self.ready
        &&& self.size != 0
        &&& self.size <= self.max_size
        &&& self.size & ((self.size - 1) as u16) == 0
        &&& self.desc_table % 16 == 0
        &&& self.avail_ring % 2 == 0
        &&& self.used_ring % 4 == 0
    }

    /// Says whether the queue can be used.
    pub fn is_valid(&self) -> (b: bool)
        ensures
            b == self.spec_is_valid(),
    {
        self.ready && self.size != 0 && self.size <= self.max_size && self.size & (self.size - 1)
            == 0 && self.desc_table % 16 == 0 && self.avail_ring % 2 == 0 && self.used_ring % 4
            == 0
    }

    /// The queue as it is before the driver has touched it.
    pub open spec fn spec_reset(self) -> QueueConfig {
        QueueConfig {
            max_size: self.max_size,
            size: self.max_size,
            ready: false,
            desc_table: 0,
            avail_ring: 0,
            used_ring: 0,
        }
    }
}

/// The transport as a mathematical value.
pub struct MmioTransportView {
    /// Type of the device.
    pub device_type: u32,
    /// Features the device offers.
    pub avail_features: u64,
    /// Features the driver has accepted.
    pub acked_features: u64,
    /// Which half of the offered features the driver reads.
    pub features_select: u32,
    /// Which half of the accepted features the driver writes.
    pub acked_features_select: u32,
    /// Which queue the queue registers stand for.
    pub queue_select: u32,
    /// Status of the device.
    pub device_status: u32,
    /// Generation of the configuration space.
    pub config_generation: u32,
    /// Interrupts that the driver has not acknowledged.
    pub interrupt_status: u32,
    /// The queues.
    pub queues: Seq<QueueConfig>,
    /// The configuration space of the device.
    pub config_space: Seq<u8>,
    /// Whether the device is activated.
    pub device_state: DeviceState,
}

/// The low half of a 64-bit address replaced by `v`.
pub open spec fn spec_set_low(addr: u64, v: u32) -> u64 {
    ((addr / 0x1_0000_0000) * 0x1_0000_0000 + v) as u64
}

/// The high half of a 64-bit address replaced by `v`.
pub open spec fn spec_set_high(addr: u64, v: u32) -> u64 {
    (v * 0x1_0000_0000 + addr % 0x1_0000_0000) as u64
}

impl MmioTransportView {
    /// True if, of the status bits in `set` and `clr`, exactly those in `set` are set.
    pub open spec fn check_status(self, set: u32, clr: u32) -> bool {
        self.device_status & (set | clr) == set
    }

    /// True if every queue can be used.
    pub open spec fn queues_valid(self) -> bool {
        forall|i: int| 0 <= i < self.queues.len() ==> (#[trigger] self.queues[i]).spec_is_valid()
    }

    /// What a register of four bytes reads.
    pub open spec fn register(self, offset: u64) -> u32 {
        if offset == 0x00 {
            MMIO_MAGIC_VALUE
        } else if offset == 0x04 {
            MMIO_VERSION
        } else if offset == 0x08 {
            self.device_type
        } else if offset == 0x0c {
            VENDOR_ID
        } else if offset == 0x10 {
            if self.features_select == 0 {
                (self.avail_features % 0x1_0000_0000) as u32
            } else if self.features_select == 1 {
                (self.avail_features / 0x1_0000_0000) as u32 | 0x1
            } else {
                0
            }
        } else if offset == 0x34 {
            if self.queue_select < self.queues.len() {
                self.queues[self.queue_select as int].max_size as u32
            } else {
                0
            }
        } else if offset == 0x44 {
            if self.queue_select < self.queues.len() && self.queues[self.queue_select as int].ready {
                1
            } else {
                0
            }
        } else if offset == 0x60 {
            self.interrupt_status
        } else if offset == 0x70 {
            self.device_status
        } else if offset == 0xfc {
            self.config_generation
        } else {
            0
        }
    }

    /// What a read of `data.len()` bytes at `offset` leaves in the buffer. A register
    /// is read in four bytes; the configuration space is read in any size that stays
    /// inside it; any other read leaves the buffer as it was.
    pub open spec fn read(self, offset: u64, data: Seq<u8>) -> Seq<u8> {
        if offset < MMIO_CFG_SPACE_OFF {
            if data.len() == 4 {
                spec_u32_bytes(self.register(offset))
            } else {
                data
            }
        } else if offset - MMIO_CFG_SPACE_OFF + data.len() <= self.config_space.len() {
            self.config_space.subrange(
                offset - MMIO_CFG_SPACE_OFF,
                offset - MMIO_CFG_SPACE_OFF + data.len(),
            )
        } else {
            data
        }
    }

    /// The accepted features after the driver has written `v` to the half it has
    /// selected: features that the device does not offer are left out.
    pub open spec fn ack_features(self, v: u32) -> u64 {
        if self.acked_features_select == 0 {
            self.acked_features | ((v as u64) & self.avail_features)
        } else if self.acked_features_select == 1 {
            self.acked_features | ((((v as u64) * 0x1_0000_0000) as u64) & self.avail_features)
        } else {
            self.acked_features
        }
    }

    /// True if the driver may change the queue registers now: it has accepted the
    /// features, has not reported ready, and has selected a queue that exists.
    pub open spec fn queue_writable(self) -> bool {
        self.check_status(DEVICE_FEATURES_OK, DEVICE_DRIVER_OK | DEVICE_FAILED) && self.queue_select
            < self.queues.len()
    }

    /// The transport with the selected queue replaced.
    pub open spec fn with_queue(self, q: QueueConfig) -> MmioTransportView {
        MmioTransportView { queues: self.queues.update(self.queue_select as int, q), ..self }
    }

    /// The transport after a reset: nothing is selected, negotiated or pending, the
    /// queues are as they were at first, and the device is not activated.
    pub open spec fn reset(self) -> MmioTransportView {
        MmioTransportView {
            acked_features: 0,
            features_select: 0,
            acked_features_select: 0,
            queue_select: 0,
            device_status: DEVICE_INIT,
            interrupt_status: 0,
            queues: Seq::new(self.queues.len(), |i: int| self.queues[i].spec_reset()),
            device_state: DeviceState::Inactive,
            ..self
        }
    }

    /// The transport after the driver has written `status` to the status register.
    ///
    /// The driver sets the bits one at a time, in the order acknowledge, driver,
    /// features accepted, ready. When it reports ready the device is activated if all
    /// its queues can be used; if not, the device is marked failed and stays inactive.
    /// A write with the failed bit marks the device failed. A write of zero resets the
    /// transport. Any other write changes nothing.
    pub open spec fn set_status(self, status: u32) -> MmioTransportView {
        let new_bits = !self.device_status & status;
        if new_bits == DEVICE_ACKNOWLEDGE && self.device_status == DEVICE_INIT {
            MmioTransportView { device_status: status, ..self }
        } else if new_bits == DEVICE_DRIVER && self.device_status == DEVICE_ACKNOWLEDGE {
            MmioTransportView { device_status: status, ..self }
        } else if new_bits == DEVICE_FEATURES_OK && self.device_status == (DEVICE_ACKNOWLEDGE
            | DEVICE_DRIVER) {
            MmioTransportView { device_status: status, ..self }
        } else if new_bits == DEVICE_DRIVER_OK && self.device_status == (DEVICE_ACKNOWLEDGE
            | DEVICE_DRIVER | DEVICE_FEATURES_OK) {
            if self.queues_valid() {
                MmioTransportView {
                    device_status: status,
                    device_state: DeviceState::Activated,
                    ..self
                }
            } else {
                MmioTransportView { device_status: status | DEVICE_FAILED, ..self }
            }
        } else if status & DEVICE_FAILED != 0 {
            MmioTransportView { device_status: self.device_status | DEVICE_FAILED, ..self }
        } else if status == 0 {
            self.reset()
        } else {
            self
        }
    }

    /// The transport after the driver has written `v` to the register at `offset`.
    pub open spec fn write_register(self, offset: u64, v: u32) -> MmioTransportView {
        if offset == 0x14 {
            MmioTransportView { features_select: v, ..self }
        } else if offset == 0x20 {
            if self.check_status(
                DEVICE_DRIVER,
                DEVICE_FEATURES_OK | DEVICE_FAILED | DEVICE_DRIVER_OK,
            ) {
                MmioTransportView { acked_features: self.ack_features(v), ..self }
            } else {
                self
            }
        } else if offset == 0x24 {
            MmioTransportView { acked_features_select: v, ..self }
        } else if offset == 0x30 {
            MmioTransportView { queue_select: v, ..self }
        } else if offset == 0x64 {
            if self.check_status(DEVICE_DRIVER_OK, 0) {
                MmioTransportView { interrupt_status: self.interrupt_status & !v, ..self }
            } else {
                self
            }
        } else if offset == 0x70 {
            self.set_status(v)
        } else if !self.queue_writable() {
            self
        } else {
            let q = self.queues[self.queue_select as int];
            if offset == 0x38 {
                self.with_queue(QueueConfig { size: (v % 0x1_0000) as u16, ..q })
            } else if offset == 0x44 {
                self.with_queue(QueueConfig { ready: v == 1, ..q })
            } else if offset == 0x80 {
                self.with_queue(QueueConfig { desc_table: spec_set_low(q.desc_table, v), ..q })
            } else if offset == 0x84 {
                self.with_queue(QueueConfig { desc_table: spec_set_high(q.desc_table, v), ..q })
            } else if offset == 0x90 {
                self.with_queue(QueueConfig { avail_ring: spec_set_low(q.avail_ring, v), ..q })
            } else if offset == 0x94 {
                self.with_queue(QueueConfig { avail_ring: spec_set_high(q.avail_ring, v), ..q })
            } else if offset == 0xa0 {
                self.with_queue(QueueConfig { used_ring: spec_set_low(q.used_ring, v), ..q })
            } else if offset == 0xa4 {
                self.with_queue(QueueConfig { used_ring: spec_set_high(q.used_ring, v), ..q })
            } else {
                self
            }
        }
    }

    /// The configuration space after `data` has been written at `at`.
    pub open spec fn config_after(self, at: int, data: Seq<u8>) -> Seq<u8> {
        Seq::new(
            self.config_space.len(),
            |i: int|
                if at <= i < at + data.len() {
                    data[i - at]
                } else {
                    self.config_space[i]
                },
        )
    }

    /// The transport after a write of `data` at `offset`. A register is written in
    /// four bytes. The configuration space is written in any size that stays inside
    /// it, once the driver has announced itself and as long as the device has not
    /// failed. Any other write changes nothing.
    pub open spec fn write(self, offset: u64, data: Seq<u8>) -> MmioTransportView {
        if offset < MMIO_CFG_SPACE_OFF {
            if data.len() == 4 {
                self.write_register(offset, spec_u32_at(data, 0) as u32)
            } else {
                self
            }
        } else if self.check_status(DEVICE_DRIVER, DEVICE_FAILED) && offset - MMIO_CFG_SPACE_OFF
            + data.len() <= self.config_space.len() {
            MmioTransportView {
                config_space: self.config_after(offset - MMIO_CFG_SPACE_OFF, data),
                ..self
            }
        } else {
            self
        }
    }

    /// The queue that the driver notifies with a write of `data` at `offset`: the one
    /// whose index it writes, in four bytes, to the notify register. A write that
    /// names no queue of the device notifies none, and neither does any write before
    /// the device is activated.
    pub open spec fn notified_queue(self, offset: u64, data: Seq<u8>) -> Option<u32> {
        if offset == MMIO_QUEUE_NOTIFY && data.len() == 4 && self.device_state
            == DeviceState::Activated && spec_u32_at(data, 0) < self.queues.len() {
            Some(spec_u32_at(data, 0) as u32)
        } else {
            None
        }
    }
}

/// The registers of a virtio device on the bus, with the state of the device that the
/// registers show.
#[derive(Clone, Debug)]
pub struct MmioTransport {
    device_type: u32,
    avail_features: u64,
    acked_features: u64,
    features_select: u32,
    acked_features_select: u32,
    queue_select: u32,
    device_status: u32,
    config_generation: u32,
    interrupt_status: u32,
    queues: Vec<QueueConfig>,
    config_space: Vec<u8>,
    device_state: DeviceState,
}

impl View for MmioTransport {
    type V = MmioTransportView;

    closed spec fn view(&self) -> MmioTransportView {
        MmioTransportView {
            device_type: self.device_type,
            avail_features: self.avail_features,
            acked_features: self.acked_features,
            features_select: self.features_select,
            acked_features_select: self.acked_features_select,
            queue_select: self.queue_select,
            device_status: self.device_status,
            config_generation: self.config_generation,
            interrupt_status: self.interrupt_status,
            queues: self.queues@,
            config_space: self.config_space@,
            device_state: self.device_state,
        }
    }
}

impl MmioTransport {
    /// The transport of a device of type `device_type` that offers `avail_features`,
    /// has one queue for each entry of `queue_sizes`, and has `config_space` as its
    /// configuration space. The driver has not touched it, and the device is not
    /// activated.
    pub fn new(device_type: u32, avail_features: u64, queue_sizes: &[u16], config_space: Vec<u8>) -> (t:
        Self)
        ensures
            t@.device_type == device_type,
            t@.avail_features == avail_features,
            t@.acked_features == 0,
            t@.features_select == 0,
            t@.acked_features_select == 0,
            t@.queue_select == 0,
            t@.device_status == DEVICE_INIT,
            t@.config_generation == 0,
            t@.interrupt_status == 0,
            t@.config_space == config_space@,
            t@.device_state == DeviceState::Inactive,
            t@.queues.len() == queue_sizes@.len(),
            forall|i: int|
                0 <= i < queue_sizes@.len() ==> #[trigger] t@.queues[i] == (QueueConfig {
                    max_size: queue_sizes@[i],
                    size: queue_sizes@[i],
                    ready: false,
                    desc_table: 0,
                    avail_ring: 0,
                    used_ring: 0,
                }),
    {
        let mut queues: Vec<QueueConfig> = Vec::new();
        let mut i: usize = 0;
        while i < queue_sizes.len()
            invariant
                i <= queue_sizes@.len(),
                queues@.len() == i,
                forall|k: int|
                    0 <= k < i ==> #[trigger] queues@[k] == (QueueConfig {
                        max_size: queue_sizes@[k],
                        size: queue_sizes@[k],
                        ready: false,
                        desc_table: 0,
                        avail_ring: 0,
                        used_ring: 0,
                    }),
            decreases queue_sizes@.len() - i,
        {
            queues.push(
                QueueConfig {
                    max_size: queue_sizes[i],
                    size: queue_sizes[i],
                    ready: false,
                    desc_table: 0,
                    avail_ring: 0,
                    used_ring: 0,
                },
            );
            i = i + 1;
        }
        MmioTransport {
            device_type,
            avail_features,
            acked_features: 0,
            features_select: 0,
            acked_features_select: 0,
            queue_select: 0,
            device_status: DEVICE_INIT,
            config_generation: 0,
            interrupt_status: 0,
            queues,
            config_space,
            device_state: DeviceState::Inactive,
        }
    }

    /// True once the driver has reported ready and the device was started.
    pub fn is_activated(&self) -> (b: bool)
        ensures
            b == (self@.device_state == DeviceState::Activated),
    {
        match self.device_state {
            DeviceState::Activated => true,
            DeviceState::Inactive => false,
        }
    }

    /// Status of the device.
    pub fn device_status(&self) -> (s: u32)
        ensures
            s == self@.device_status,
    {
        self.device_status
    }

    /// Features the driver has accepted.
    pub fn acked_features(&self) -> (f: u64)
        ensures
            f == self@.acked_features,
    {
        self.acked_features
    }

    /// The queues of the device.
    pub fn queues(&self) -> (q: &Vec<QueueConfig>)
        ensures
            q@ == self@.queues,
    {
        &self.queues
    }

    /// Marks an interrupt as pending: the bits of `status` are set in the interrupt
    /// status.
    pub fn signal_interrupt(&mut self, status: u32)
        ensures
            final(self)@ == (MmioTransportView {
                interrupt_status: old(self)@.interrupt_status | status,
                ..old(self)@
            }),
    {
        self.interrupt_status = self.interrupt_status | status;
    }

    /// Says whether every queue can be used.
    fn queues_valid(&self) -> (b: bool)
        ensures
            b == self@.queues_valid(),
    {
        let mut i: usize = 0;
        while i < self.queues.len()
            invariant
                i <= self.queues@.len(),
                forall|k: int| 0 <= k < i ==> (#[trigger] self.queues@[k]).spec_is_valid(),
            decreases self.queues@.len() - i,
        {
            if !self.queues[i].is_valid() {
                proof {
                    assert(!self@.queues[i as int].spec_is_valid());
                }
                return false;
            }
            i = i + 1;
        }
        true
    }

    /// Resets the transport.
    fn reset(&mut self)
        ensures
            final(self)@ == old(self)@.reset(),
    {
        self.acked_features = 0;
        self.features_select = 0;
        self.acked_features_select = 0;
        self.queue_select = 0;
        self.device_status = DEVICE_INIT;
        self.interrupt_status = 0;
        self.device_state = DeviceState::Inactive;
        let mut i: usize = 0;
        while i < self.queues.len()
            invariant
                i <= self.queues@.len(),
                self.queues@.len() == old(self).queues@.len(),
                self.device_type == old(self).device_type,
                self.avail_features == old(self).avail_features,
                self.config_generation == old(self).config_generation,
                self.config_space == old(self).config_space,
                self.acked_features == 0,
                self.features_select == 0,
                self.acked_features_select == 0,
                self.queue_select == 0,
                self.device_status == DEVICE_INIT,
                self.interrupt_status == 0,
                self.device_state == DeviceState::Inactive,
                forall|k: int| 0 <= k < i ==> self.queues@[k] == old(self).queues@[k].spec_reset(),
                forall|k: int| i <= k < self.queues@.len() ==> self.queues@[k] == old(self).queues@[k],
            decreases self.queues@.len() - i,
        {
            let q = self.queues[i];
            self.queues[i] = QueueConfig {
                max_size: q.max_size,
                size: q.max_size,
                ready: false,
                desc_table: 0,
                avail_ring: 0,
                used_ring: 0,
            };
            i = i + 1;
        }
        proof {
            assert(self@.queues =~= old(self)@.reset().queues);
        }
    }

    /// Takes a write to the status register.
    fn set_status(&mut self, status: u32)
        ensures
            final(self)@ == old(self)@.set_status(status),
    {
        let new_bits = !self.device_status & status;
        if new_bits == DEVICE_ACKNOWLEDGE && self.device_status == DEVICE_INIT {
            self.device_status = status;
        } else if new_bits == DEVICE_DRIVER && self.device_status == DEVICE_ACKNOWLEDGE {
            self.device_status = status;
        } else if new_bits == DEVICE_FEATURES_OK && self.device_status == (DEVICE_ACKNOWLEDGE
            | DEVICE_DRIVER) {
            self.device_status = status;
        } else if new_bits == DEVICE_DRIVER_OK && self.device_status == (DEVICE_ACKNOWLEDGE
            | DEVICE_DRIVER | DEVICE_FEATURES_OK) {
            if self.queues_valid() {
                self.device_status = status;
                self.device_state = DeviceState::Activated;
            } else {
                self.device_status = status | DEVICE_FAILED;
            }
        } else if status & DEVICE_FAILED != 0 {
            self.device_status = self.device_status | DEVICE_FAILED;
        } else if status == 0 {
            self.reset();
        }
    }

    /// Takes a write of `v` to the register at `offset`.
    fn write_register(&mut self, offset: u64, v: u32)
        ensures
            final(self)@ == old(self)@.write_register(offset, v),
    {
        if offset == 0x14 {
            self.features_select = v;
        } else if offset == 0x20 {
            if self.device_status & (DEVICE_DRIVER | (DEVICE_FEATURES_OK | DEVICE_FAILED
                | DEVICE_DRIVER_OK)) == DEVICE_DRIVER {
                if self.acked_features_select == 0 {
                    self.acked_features = self.acked_features | ((v as u64) & self.avail_features);
                } else if self.acked_features_select == 1 {
                    self.acked_features = self.acked_features | (((v as u64) * 0x1_0000_0000)
                        & self.avail_features);
                }
            }
        } else if offset == 0x24 {
            self.acked_features_select = v;
        } else if offset == 0x30 {
            self.queue_select = v;
        } else if offset == 0x64 {
            if self.device_status & (DEVICE_DRIVER_OK | 0) == DEVICE_DRIVER_OK {
                self.interrupt_status = self.interrupt_status & !v;
            }
        } else if offset == 0x70 {
            self.set_status(v);
        } else if self.device_status & (DEVICE_FEATURES_OK | (DEVICE_DRIVER_OK | DEVICE_FAILED))
            == DEVICE_FEATURES_OK && (self.queue_select as usize) < self.queues.len() {
            let at: usize = self.queue_select as usize;
            let q = self.queues[at];
            let mut next = q;
            if offset == 0x38 {
                next.size = (v % 0x1_0000) as u16;
            } else if offset == 0x44 {
                next.ready = v == 1;
            } else if offset == 0x80 {
                next.desc_table = (q.desc_table / 0x1_0000_0000) * 0x1_0000_0000 + v as u64;
            } else if offset == 0x84 {
                next.desc_table = v as u64 * 0x1_0000_0000 + q.desc_table % 0x1_0000_0000;
            } else if offset == 0x90 {
                next.avail_ring = (q.avail_ring / 0x1_0000_0000) * 0x1_0000_0000 + v as u64;
            } else if offset == 0x94 {
                next.avail_ring = v as u64 * 0x1_0000_0000 + q.avail_ring % 0x1_0000_0000;
            } else if offset == 0xa0 {
                next.used_ring = (q.used_ring / 0x1_0000_0000) * 0x1_0000_0000 + v as u64;
            } else if offset == 0xa4 {
                next.used_ring = v as u64 * 0x1_0000_0000 + q.used_ring % 0x1_0000_0000;
            }
            self.queues[at] = next;
            proof {
                assert(self@.queues =~= old(self)@.write_register(offset, v).queues);
            }
        }
    }

    /// What the register at `offset` reads.
    fn register(&self, offset: u64) -> (v: u32)
        ensures
            v == self@.register(offset),
    {
        if offset == 0x00 {
            MMIO_MAGIC_VALUE
        } else if offset == 0x04 {
            MMIO_VERSION
        } else if offset == 0x08 {
            self.device_type
        } else if offset == 0x0c {
            VENDOR_ID
        } else if offset == 0x10 {
            if self.features_select == 0 {
                (self.avail_features % 0x1_0000_0000) as u32
            } else if self.features_select == 1 {
                (self.avail_features / 0x1_0000_0000) as u32 | 0x1
            } else {
                0
            }
        } else if offset == 0x34 {
            if (self.queue_select as usize) < self.queues.len() {
                self.queues[self.queue_select as usize].max_size as u32
            } else {
                0
            }
        } else if offset == 0x44 {
            if (self.queue_select as usize) < self.queues.len()
                && self.queues[self.queue_select as usize].ready {
                1
            } else {
                0
            }
        } else if offset == 0x60 {
            self.interrupt_status
        } else if offset == 0x70 {
            self.device_status
        } else if offset == 0xfc {
            self.config_generation
        } else {
            0
        }
    }

    /// Answers a guest read of `data.len()` bytes at `offset`. Nothing of the
    /// transport changes.
    pub fn bus_read(&mut self, offset: u64, data: &mut [u8])
        ensures
            final(self)@ == old(self)@,
            final(data)@ == old(self)@.read(offset, old(data)@),
    {
        let len: usize = data.len();
        if offset < MMIO_CFG_SPACE_OFF {
            if len == 4 {
                let v = self.register(offset);
                write_u32(data, v);
            }
        } else {
            let at: u64 = offset - MMIO_CFG_SPACE_OFF;
            let size: usize = self.config_space.len();
            if at <= size as u64 && len <= size - at as usize {
                let start: usize = at as usize;
                let mut i: usize = 0;
                while i < len
                    invariant
                        i <= len,
                        len == data@.len(),
                        size == self.config_space@.len(),
                        start + len <= size,
                        forall|k: int| 0 <= k < i ==> data@[k] == self.config_space@[start + k],
                    decreases len - i,
                {
                    data[i] = self.config_space[start + i];
                    i = i + 1;
                }
                proof {
                    assert(data@ =~= self.config_space@.subrange(
                        start as int,
                        start as int + len as int,
                    ));
                }
            }
        }
    }

    /// Takes a guest write of `data` at `offset`.
    pub fn bus_write(&mut self, offset: u64, data: &[u8])
        ensures
            final(self)@ == old(self)@.write(offset, data@),
    {
        let len: usize = data.len();
        if offset < MMIO_CFG_SPACE_OFF {
            if len == 4 {
                let v = read_u32(data, 0);
                self.write_register(offset, v);
            }
        } else if self.device_status & (DEVICE_DRIVER | DEVICE_FAILED) == DEVICE_DRIVER {
            let at: u64 = offset - MMIO_CFG_SPACE_OFF;
            let size: usize = self.config_space.len();
            if at <= size as u64 && len <= size - at as usize {
                let start: usize = at as usize;
                let mut i: usize = 0;
                while i < len
                    invariant
                        i <= len,
                        len == data@.len(),
                        size == self.config_space@.len(),
                        start + len <= size,
                        self.config_space@.len() == old(self).config_space@.len(),
                        self.device_type == old(self).device_type,
                        self.avail_features == old(self).avail_features,
                        self.acked_features == old(self).acked_features,
                        self.features_select == old(self).features_select,
                        self.acked_features_select == old(self).acked_features_select,
                        self.queue_select == old(self).queue_select,
                        self.device_status == old(self).device_status,
                        self.config_generation == old(self).config_generation,
                        self.interrupt_status == old(self).interrupt_status,
                        self.queues == old(self).queues,
                        self.device_state == old(self).device_state,
                        forall|k: int|
                            0 <= k < self.config_space@.len() ==> self.config_space@[k] == (if start
                                <= k < start + i {
                                data@[k - start]
                            } else {
                                old(self).config_space@[k]
                            }),
                    decreases len - i,
                {
                    self.config_space[start + i] = data[i];
                    i = i + 1;
                }
                proof {
                    assert(self.config_space@ =~= old(self)@.config_after(start as int, data@));
                }
            }
        }
    }

    /// Says which queue the driver notifies with a write of `data` at `offset`, if it
    /// notifies one. The device is told of nothing as long as it is not activated.
    pub fn notified_queue(&self, offset: u64, data: &[u8]) -> (r: Option<u32>)
        ensures
            r == self@.notified_queue(offset, data@),
    {
        if offset != MMIO_QUEUE_NOTIFY || data.len() != 4 || !self.is_activated() {
            return None;
        }
        let index = read_u32(data, 0);
        if (index as usize) < self.queues.len() {
            Some(index)
        } else {
            None
        }
    }
}

/// A device that is not activated stays so under every write but one that sets the
/// ready bit on a device whose driver has gone through acknowledge, driver and
/// features accepted, and only if all its queues can be used.
pub proof fn lemma_activation_needs_driver_ok(t: MmioTransportView, offset: u64, data: Seq<u8>)
    requires
        t.device_state == DeviceState::Inactive,
        t.write(offset, data).device_state == DeviceState::Activated,
    ensures
        offset == 0x70,
        data.len() == 4,
        t.device_status == (DEVICE_ACKNOWLEDGE | DEVICE_DRIVER | DEVICE_FEATURES_OK),
        t.queues_valid(),
        t.write(offset, data).device_status & DEVICE_DRIVER_OK != 0,
{
    let v = spec_u32_at(data, 0) as u32;
    let s = t.device_status;
    assert((!s & v == DEVICE_DRIVER_OK && s == (DEVICE_ACKNOWLEDGE | DEVICE_DRIVER
        | DEVICE_FEATURES_OK)) ==> v & DEVICE_DRIVER_OK != 0) by (bit_vector);
}

} // verus!
