//! The queues through which a driver hands buffers to a device and gets them back.
//!
//! A queue lives in guest memory: a table of descriptors, a ring in which the driver
//! makes chains of descriptors available, and a ring in which the device gives them
//! back as used. All integers are little-endian.
use vstd::prelude::*;
use crate::guest_ram::lemma_region_of;
use crate::guest_ram::GuestRam;
use crate::guest_ram::GuestRamView;
use crate::wire::read_u16;
use crate::wire::read_u32;
use crate::wire::read_u64;
use crate::wire::spec_u16_at;
use crate::wire::spec_u16_bytes;
use crate::wire::spec_u32_at;
use crate::wire::spec_u32_bytes;
use crate::wire::spec_u64_at;
use crate::wire::u16_to_vec;
use crate::wire::u32_to_vec;

verus! {

/// Descriptor flag: the chain goes on with the descriptor that `next` names.
pub const VIRTQ_DESC_F_NEXT: u16 = 0x1;

/// Descriptor flag: the device writes the buffer; without it, the device reads it.
pub const VIRTQ_DESC_F_WRITE: u16 = 0x2;

/// What is wrong with a queue or a chain.
#[derive(Copy, Clone, Debug, PartialEq, Eq, Structural)]
pub enum QueueError {
    /// The queue has no descriptors.
    EmptyQueue,
    /// A descriptor index is not below the size of the queue.
    DescIndexOutOfBounds(u16),
    /// A part of the queue does not lie in ordinary guest memory.
    QueueOutOfMemory,
    /// The buffer of a descriptor does not lie in ordinary guest memory.
    BufferOutOfMemory(u64),
    /// A chain has more descriptors than the queue, so that it runs in a circle.
    ChainTooLong,
}

/// One buffer of a chain.
#[derive(Copy, Clone, Debug, PartialEq, Eq, Structural)]
pub struct Descriptor {
    /// Guest physical address of the buffer.
    pub addr: u64,
    /// Length of the buffer in bytes.
    pub len: u32,
    /// Flags of the descriptor.
    pub flags: u16,
    /// Index of the next descriptor of the chain, if the flags say there is one.
    pub next: u16,
}

impl Descriptor {
    /// True if the device may write the buffer.
    pub open spec fn spec_is_write_only(self) -> bool {
        self.flags & VIRTQ_DESC_F_WRITE != 0
    }

    /// True if the chain goes on.
    pub open spec fn spec_has_next(self) -> bool {
        self.flags & VIRTQ_DESC_F_NEXT != 0
    }

    /// Says whether the device may write the buffer.
    pub fn is_write_only(&self) -> (b: bool)
        ensures
            b == self.spec_is_write_only(),
    {
        self.flags & VIRTQ_DESC_F_WRITE != 0
    }

    /// Says whether the chain goes on.
    pub fn has_next(&self) -> (b: bool)
        ensures
            b == self.spec_has_next(),
    {
        self.flags & VIRTQ_DESC_F_NEXT != 0
    }
}

/// The descriptor that sixteen bytes hold: address, length, flags and next index.
pub open spec fn spec_parse_descriptor(b: Seq<u8>) -> Descriptor {
    Descriptor {
        addr: spec_u64_at(b, 0) as u64,
        len: spec_u32_at(b, 8) as u32,
        flags: spec_u16_at(b, 12) as u16,
        next: spec_u16_at(b, 14) as u16,
    }
}

/// A chain of descriptors that the driver has made available.
#[derive(Clone, Debug)]
pub struct DescriptorChain {
    /// Index of the first descriptor, by which the chain is given back.
    pub head: u16,
    /// The descriptors of the chain, in order.
    pub descriptors: Vec<Descriptor>,
}

/// What taking the next chain from a queue gives.
pub enum Taken {
    /// The queue cannot be read. It is left as it was.
    Unreadable(QueueError),
    /// The driver has made nothing available.
    Nothing,
    /// The next chain is malformed. It counts as taken.
    Malformed(QueueError),
    /// The head of the next chain and its descriptors. The chain is taken.
    Chain(u16, Seq<Descriptor>),
}

/// A queue as the device keeps it.
#[derive(Copy, Clone, Debug, PartialEq, Eq, Structural)]
pub struct Queue {
    /// Number of descriptors.
    pub size: u16,
    /// Guest physical address of the descriptor table.
    pub desc_table: u64,
    /// Guest physical address of the available ring.
    pub avail_ring: u64,
    /// Guest physical address of the used ring.
    pub used_ring: u64,
    /// How many chains the device has taken from the available ring, modulo 65536.
    pub next_avail: u16,
    /// How many chains the device has given back, modulo 65536.
    pub next_used: u16,
}

/// A queue that the driver has not set up.
pub open spec fn spec_unset_queue() -> Queue {
    Queue { size: 0, desc_table: 0, avail_ring: 0, used_ring: 0, next_avail: 0, next_used: 0 }
}

impl Queue {
    /// True if the three parts of the queue can be addressed without leaving the
    /// address space.
    pub open spec fn spec_addressable(self) -> bool {
        &&& self.size > 0
        &&& self.desc_table + 16 * self.size <= u64::MAX
        &&& self.avail_ring + 4 + 2 * self.size <= u64::MAX
        &&& self.used_ring + 4 + 8 * self.size <= u64::MAX
    }

    /// The descriptor with the given index, if the index is in the queue and the
    /// descriptor lies in ordinary memory.
    pub open spec fn spec_descriptor(self, mem: GuestRamView, index: u16) -> Result<
        Descriptor,
        QueueError,
    > {
        if index >= self.size {
            Err(QueueError::DescIndexOutOfBounds(index))
        } else {
            match mem.read((self.desc_table + 16 * index) as u64, 16) {
                None => Err(QueueError::QueueOutOfMemory),
                Some(b) => Ok(spec_parse_descriptor(b)),
            }
        }
    }

    /// The chain that starts at the descriptor `index`, followed for at most `fuel`
    /// descriptors. Each buffer must lie in ordinary memory.
    pub open spec fn spec_chain(self, mem: GuestRamView, index: u16, fuel: nat) -> Result<
        Seq<Descriptor>,
        QueueError,
    >
        decreases fuel,
    {
        if fuel == 0 {
            Err(QueueError::ChainTooLong)
        } else {
            match self.spec_descriptor(mem, index) {
                Err(e) => Err(e),
                Ok(d) => if !mem.in_dram(d.addr, d.len as int) {
                    Err(QueueError::BufferOutOfMemory(d.addr))
                } else if d.spec_has_next() {
                    match self.spec_chain(mem, d.next, (fuel - 1) as nat) {
                        Err(e) => Err(e),
                        Ok(rest) => Ok(seq![d] + rest),
                    }
                } else {
                    Ok(seq![d])
                },
            }
        }
    }

    /// The index up to which the driver has made chains available.
    pub open spec fn spec_avail_idx(self, mem: GuestRamView) -> Option<u16> {
        match mem.read((self.avail_ring + 2) as u64, 2) {
            Some(b) => Some(spec_u16_at(b, 0) as u16),
            None => None,
        }
    }

    /// The head of the chain that the device takes next.
    pub open spec fn spec_next_head(self, mem: GuestRamView) -> Option<u16> {
        match mem.read((self.avail_ring + 4 + 2 * (self.next_avail % self.size)) as u64, 2) {
            Some(b) => Some(spec_u16_at(b, 0) as u16),
            None => None,
        }
    }

    /// The queue after the device has taken one chain.
    pub open spec fn spec_taken(self) -> Queue {
        Queue { next_avail: ((self.next_avail + 1) % 65536) as u16, ..self }
    }

    /// The queue after the device has given one chain back.
    pub open spec fn spec_returned(self) -> Queue {
        Queue { next_used: ((self.next_used + 1) % 65536) as u16, ..self }
    }

    /// What taking the next chain gives. A queue whose parts cannot be addressed, or
    /// whose available ring does not lie in ordinary memory, cannot be read. If the
    /// device has taken all that the driver has announced, there is nothing. Else the
    /// chain is followed from the head that the ring names, for at most as many
    /// descriptors as the queue has.
    pub open spec fn spec_pop(self, mem: GuestRamView) -> Taken {
        if !self.spec_addressable() {
            Taken::Unreadable(QueueError::EmptyQueue)
        } else {
            match self.spec_avail_idx(mem) {
                None => Taken::Unreadable(QueueError::QueueOutOfMemory),
                Some(idx) => if idx == self.next_avail {
                    Taken::Nothing
                } else {
                    match self.spec_next_head(mem) {
                        None => Taken::Unreadable(QueueError::QueueOutOfMemory),
                        Some(head) => match self.spec_chain(mem, head, self.size as nat) {
                            Ok(descriptors) => Taken::Chain(head, descriptors),
                            Err(e) => Taken::Malformed(e),
                        },
                    }
                },
            }
        }
    }

    /// Address of the used ring entry that the device fills next.
    pub open spec fn spec_used_entry_addr(self) -> u64 {
        (self.used_ring + 4 + 8 * (self.next_used % self.size)) as u64
    }

    /// The eight bytes of a used ring entry: the head of the chain and the number of
    /// bytes that the device wrote.
    pub open spec fn spec_used_entry(head: u16, len: u32) -> Seq<u8> {
        spec_u32_bytes(head as u32) + spec_u32_bytes(len)
    }

    /// True if the used ring can take an entry: the entry and the index of the ring
    /// lie in ordinary memory.
    pub open spec fn spec_can_add_used(self, mem: GuestRamView) -> bool {
        self.spec_addressable() && mem.in_dram(self.spec_used_entry_addr(), 8) && mem.in_dram(
            (self.used_ring + 2) as u64,
            2,
        )
    }

    /// Guest memory after the chain with the given head was given back: the entry is
    /// written, then the index of the used ring.
    pub open spec fn spec_mem_after_used(self, mem: GuestRamView, head: u16, len: u32) -> GuestRamView {
        mem.write(self.spec_used_entry_addr(), Self::spec_used_entry(head, len)).write(
            (self.used_ring + 2) as u64,
            spec_u16_bytes(((self.next_used + 1) % 65536) as u16),
        )
    }

    /// Says whether the parts of the queue can be addressed.
    pub fn addressable(&self) -> (b: bool)
        ensures
            b == self.spec_addressable(),
    {
        let n: u64 = self.size as u64;
        self.size > 0 && self.desc_table <= u64::MAX - 16 * n && self.avail_ring <= u64::MAX - 4 - 2
            * n && self.used_ring <= u64::MAX - 4 - 8 * n
    }

    /// Reads the descriptor with the given index.
    pub fn descriptor(&self, mem: &GuestRam, index: u16) -> (r: Result<Descriptor, QueueError>)
        requires
            self.spec_addressable(),
        ensures
            r == self.spec_descriptor(mem@, index),
    {
        if index >= self.size {
            return Err(QueueError::DescIndexOutOfBounds(index));
        }
        match mem.read(self.desc_table + 16 * (index as u64), 16) {
            None => Err(QueueError::QueueOutOfMemory),
            Some(b) => Ok(
                Descriptor {
                    addr: read_u64(b.as_slice(), 0),
                    len: read_u32(b.as_slice(), 8),
                    flags: read_u16(b.as_slice(), 12),
                    next: read_u16(b.as_slice(), 14),
                },
            ),
        }
    }

    /// Reads the chain that starts at the descriptor `head`.
    ///
    /// A chain has at most as many descriptors as the queue; one that goes on beyond
    /// that runs in a circle and is refused. Every descriptor must lie in the queue
    /// and every buffer in ordinary guest memory.
    pub fn chain(&self, mem: &GuestRam, head: u16) -> (r: Result<DescriptorChain, QueueError>)
        requires
            self.spec_addressable(),
        ensures
            match self.spec_chain(mem@, head, self.size as nat) {
                Ok(descriptors) => r is Ok && r->Ok_0.head == head && r->Ok_0.descriptors@
                    == descriptors,
                Err(e) => r == Err::<DescriptorChain, QueueError>(e),
            },
    {
        let mut descriptors: Vec<Descriptor> = Vec::new();
        let mut index: u16 = head;
        let mut fuel: u16 = self.size;
        loop
            invariant
                self.spec_addressable(),
                self.spec_chain(mem@, head, self.size as nat) == match self.spec_chain(
                    mem@,
                    index,
                    fuel as nat,
                ) {
                    Ok(rest) => Ok::<Seq<Descriptor>, QueueError>(descriptors@ + rest),
                    Err(e) => Err::<Seq<Descriptor>, QueueError>(e),
                },
            decreases fuel,
        {
            if fuel == 0 {
                return Err(QueueError::ChainTooLong);
            }
            let d = match self.descriptor(mem, index) {
                Ok(d) => d,
                Err(e) => {
                    return Err(e);
                },
            };
            if !mem.in_dram(d.addr, d.len as usize) {
                return Err(QueueError::BufferOutOfMemory(d.addr));
            }
            let ghost before = descriptors@;
            descriptors.push(d);
            if !d.has_next() {
                proof {
                    assert(before + seq![d] =~= descriptors@);
                }
                return Ok(DescriptorChain { head, descriptors });
            }
            proof {
                let rest = self.spec_chain(mem@, d.next, (fuel - 1) as nat);
                if rest is Ok {
                    assert(before + (seq![d] + rest->Ok_0) =~= descriptors@ + rest->Ok_0);
                }
            }
            index = d.next;
            fuel = fuel - 1;
        }
    }

    /// Takes the next chain that the driver has made available, if there is one.
    ///
    /// There is none if the device has taken all that the driver has announced. A
    /// chain that is malformed is an error; it counts as taken all the same, so that
    /// the device does not meet it again.
    pub fn pop(&mut self, mem: &GuestRam) -> (r: Result<Option<DescriptorChain>, QueueError>)
        ensures
            match old(self).spec_pop(mem@) {
                Taken::Unreadable(e) => r == Err::<Option<DescriptorChain>, QueueError>(e)
                    && *final(self) == *old(self),
                Taken::Nothing => r is Ok && r->Ok_0 is None && *final(self) == *old(self),
                Taken::Malformed(e) => r == Err::<Option<DescriptorChain>, QueueError>(e)
                    && *final(self) == old(self).spec_taken(),
                Taken::Chain(head, descriptors) => r is Ok && r->Ok_0 is Some
                    && r->Ok_0->Some_0.head == head && r->Ok_0->Some_0.descriptors@ == descriptors
                    && *final(self) == old(self).spec_taken(),
            },
    {
        if !self.addressable() {
            return Err(QueueError::EmptyQueue);
        }
        let idx = match mem.read(self.avail_ring + 2, 2) {
            Some(b) => read_u16(b.as_slice(), 0),
            None => {
                return Err(QueueError::QueueOutOfMemory);
            },
        };
        if idx == self.next_avail {
            return Ok(None);
        }
        let slot: u64 = (self.next_avail % self.size) as u64;
        let head = match mem.read(self.avail_ring + 4 + 2 * slot, 2) {
            Some(b) => read_u16(b.as_slice(), 0),
            None => {
                return Err(QueueError::QueueOutOfMemory);
            },
        };
        let chain = self.chain(mem, head);
        self.next_avail = self.next_avail.wrapping_add(1);
        match chain {
            Ok(chain) => Ok(Some(chain)),
            Err(e) => Err(e),
        }
    }

    /// Gives the chain with the given head back to the driver and says that the
    /// device wrote `len` bytes into it.
    ///
    /// The entry is written into the used ring, then the index of the ring is moved
    /// on. Nothing else in guest memory changes. If the entry or the index does not
    /// lie in ordinary guest memory, nothing is written at all.
    pub fn add_used(&mut self, mem: &mut GuestRam, head: u16, len: u32) -> (r: Result<(), QueueError>)
        ensures
            final(self).size == old(self).size,
            final(self).desc_table == old(self).desc_table,
            final(self).avail_ring == old(self).avail_ring,
            final(self).used_ring == old(self).used_ring,
            final(self).next_avail == old(self).next_avail,
            old(self).spec_can_add_used(old(mem)@) ==> r is Ok && final(self).next_used == (old(
                self,
            ).next_used + 1) % 65536 && final(mem)@ == old(self).spec_mem_after_used(
                old(mem)@,
                head,
                len,
            ),
            !old(self).spec_can_add_used(old(mem)@) ==> r is Err && final(self).next_used == old(
                self,
            ).next_used && final(mem)@ == old(mem)@,
            r matches Err(e) ==> e == (if old(self).spec_addressable() {
                QueueError::QueueOutOfMemory
            } else {
                QueueError::EmptyQueue
            }),
    {
        if !self.addressable() {
            return Err(QueueError::EmptyQueue);
        }
        let slot: u64 = (self.next_used % self.size) as u64;
        let entry_addr: u64 = self.used_ring + 4 + 8 * slot;
        let idx_addr: u64 = self.used_ring + 2;
        if !mem.in_dram(entry_addr, 8) || !mem.in_dram(idx_addr, 2) {
            return Err(QueueError::QueueOutOfMemory);
        }
        let mut entry = u32_to_vec(head as u32);
        let mut len_bytes = u32_to_vec(len);
        entry.append(&mut len_bytes);
        let next: u16 = self.next_used.wrapping_add(1);
        let idx = u16_to_vec(next);
        mem.write(entry_addr, entry.as_slice());
        mem.write(idx_addr, idx.as_slice());
        self.next_used = next;
        Ok(())
    }
}

/// Giving a chain back changes guest memory only in the used ring: in the entry that
/// is filled and in the index of the ring.
pub proof fn lemma_add_used_touches_ring_only(q: Queue, mem: GuestRamView, head: u16, len: u32)
    requires
        q.spec_can_add_used(mem),
    ensures
        mem.same_outside(
            q.spec_mem_after_used(mem, head, len),
            q.used_ring,
            4 + 8 * q.size,
        ),
{
    let entry = Queue::spec_used_entry(head, len);
    let m1 = mem.write(q.spec_used_entry_addr(), entry);
    let idx = spec_u16_bytes(((q.next_used + 1) % 65536) as u16);
    let m2 = m1.write((q.used_ring + 2) as u64, idx);
    crate::guest_ram::lemma_write_same_outside(mem, q.spec_used_entry_addr(), entry);
    crate::guest_ram::lemma_write_same_outside(m1, (q.used_ring + 2) as u64, idx);
    assert forall|i: int| 0 <= i < mem.regions.len() implies {
        &&& (#[trigger] mem.regions[i]).start == m2.regions[i].start
        &&& mem.regions[i].region_type == m2.regions[i].region_type
        &&& mem.regions[i].bytes.len() == m2.regions[i].bytes.len()
        &&& forall|k: int|
            0 <= k < mem.regions[i].bytes.len() && !(q.used_ring <= mem.regions[i].start + k
                < q.used_ring + (4 + 8 * q.size)) ==> #[trigger] mem.regions[i].bytes[k]
                == m2.regions[i].bytes[k]
    } by {
        assert(mem.regions[i].start == m1.regions[i].start);
        assert(m1.regions[i].start == m2.regions[i].start);
        assert forall|k: int|
            0 <= k < mem.regions[i].bytes.len() && !(q.used_ring <= mem.regions[i].start + k
                < q.used_ring + (4 + 8 * q.size)) implies #[trigger] mem.regions[i].bytes[k]
            == m2.regions[i].bytes[k] by {
            assert(mem.regions[i].bytes[k] == m1.regions[i].bytes[k]);
            assert(m1.regions[i].bytes[k] == m2.regions[i].bytes[k]);
        }
    }
}

/// True if the device may write guest memory at `addr` for this chain: the address
/// lies in a buffer of the chain that the driver has marked for writing.
pub open spec fn spec_writable_by_chain(chain: Seq<Descriptor>, addr: int) -> bool {
    exists|j: int|
        0 <= j < chain.len() && (#[trigger] chain[j]).spec_is_write_only() && chain[j].addr <= addr
            < chain[j].addr + chain[j].len
}

/// True if the two memories have the same regions and differ at most where the device
/// may write for this chain.
pub open spec fn spec_same_outside_chain(a: GuestRamView, b: GuestRamView, chain: Seq<Descriptor>) -> bool {
    &&& a.regions.len() == b.regions.len()
    &&& forall|i: int|
        0 <= i < a.regions.len() ==> {
            &&& (#[trigger] a.regions[i]).start == b.regions[i].start
            &&& a.regions[i].region_type == b.regions[i].region_type
            &&& a.regions[i].bytes.len() == b.regions[i].bytes.len()
            &&& forall|k: int|
                0 <= k < a.regions[i].bytes.len() && !spec_writable_by_chain(
                    chain,
                    a.regions[i].start + k,
                ) ==> #[trigger] a.regions[i].bytes[k] == b.regions[i].bytes[k]
        }
}

/// A write into a buffer of the chain that is marked for writing keeps the memory the
/// same outside the chain.
pub proof fn lemma_write_in_chain(
    a: GuestRamView,
    b: GuestRamView,
    chain: Seq<Descriptor>,
    j: int,
    addr: u64,
    data: Seq<u8>,
)
    requires
        spec_same_outside_chain(a, b, chain),
        0 <= j < chain.len(),
        chain[j].spec_is_write_only(),
        chain[j].addr <= addr,
        addr + data.len() <= chain[j].addr + chain[j].len,
    ensures
        spec_same_outside_chain(a, b.write(addr, data), chain),
{
    let c = b.write(addr, data);
    crate::guest_ram::lemma_write_same_outside(b, addr, data);
    assert forall|i: int| 0 <= i < a.regions.len() implies {
        &&& (#[trigger] a.regions[i]).start == c.regions[i].start
        &&& a.regions[i].region_type == c.regions[i].region_type
        &&& a.regions[i].bytes.len() == c.regions[i].bytes.len()
        &&& forall|k: int|
            0 <= k < a.regions[i].bytes.len() && !spec_writable_by_chain(
                chain,
                a.regions[i].start + k,
            ) ==> #[trigger] a.regions[i].bytes[k] == c.regions[i].bytes[k]
    } by {
        assert(a.regions[i].start == b.regions[i].start);
        assert(b.regions[i].start == c.regions[i].start);
        assert forall|k: int|
            0 <= k < a.regions[i].bytes.len() && !spec_writable_by_chain(
                chain,
                a.regions[i].start + k,
            ) implies #[trigger] a.regions[i].bytes[k] == c.regions[i].bytes[k] by {
            assert(a.regions[i].bytes[k] == b.regions[i].bytes[k]);
            if addr <= b.regions[i].start + k < addr + data.len() {
                assert(chain[j].spec_is_write_only() && chain[j].addr <= a.regions[i].start + k
                    < chain[j].addr + chain[j].len);
            }
            assert(b.regions[i].bytes[k] == c.regions[i].bytes[k]);
        }
    }
}

/// True if the device may write guest memory at `addr` when it handles this chain of
/// this queue: the address lies in a buffer of the chain that the driver has marked
/// for writing, or in the used ring.
pub open spec fn spec_writable_by_device(chain: Seq<Descriptor>, q: Queue, addr: int) -> bool {
    spec_writable_by_chain(chain, addr) || q.used_ring <= addr < q.used_ring + (4 + 8 * q.size)
}

/// True if the two memories have the same regions and differ at most where the device
/// may write when it handles this chain of this queue.
pub open spec fn spec_same_outside_chain_and_ring(
    a: GuestRamView,
    b: GuestRamView,
    chain: Seq<Descriptor>,
    q: Queue,
) -> bool {
    &&& a.regions.len() == b.regions.len()
    &&& forall|i: int|
        0 <= i < a.regions.len() ==> {
            &&& (#[trigger] a.regions[i]).start == b.regions[i].start
            &&& a.regions[i].region_type == b.regions[i].region_type
            &&& a.regions[i].bytes.len() == b.regions[i].bytes.len()
            &&& forall|k: int|
                0 <= k < a.regions[i].bytes.len() && !spec_writable_by_device(
                    chain,
                    q,
                    a.regions[i].start + k,
                ) ==> #[trigger] a.regions[i].bytes[k] == b.regions[i].bytes[k]
        }
}

/// Giving a chain back, after memory was changed only in the chain, leaves memory
/// changed only in the chain and in the used ring.
pub proof fn lemma_returned_chain(
    a: GuestRamView,
    b: GuestRamView,
    chain: Seq<Descriptor>,
    q: Queue,
    head: u16,
    len: u32,
)
    requires
        spec_same_outside_chain(a, b, chain),
        q.spec_can_add_used(b),
    ensures
        spec_same_outside_chain_and_ring(a, q.spec_mem_after_used(b, head, len), chain, q),
{
    let c = q.spec_mem_after_used(b, head, len);
    lemma_add_used_touches_ring_only(q, b, head, len);
    assert forall|i: int| 0 <= i < a.regions.len() implies {
        &&& (#[trigger] a.regions[i]).start == c.regions[i].start
        &&& a.regions[i].region_type == c.regions[i].region_type
        &&& a.regions[i].bytes.len() == c.regions[i].bytes.len()
        &&& forall|k: int|
            0 <= k < a.regions[i].bytes.len() && !spec_writable_by_device(
                chain,
                q,
                a.regions[i].start + k,
            ) ==> #[trigger] a.regions[i].bytes[k] == c.regions[i].bytes[k]
    } by {
        assert(a.regions[i].start == b.regions[i].start);
        assert(b.regions[i].start == c.regions[i].start);
        assert forall|k: int|
            0 <= k < a.regions[i].bytes.len() && !spec_writable_by_device(
                chain,
                q,
                a.regions[i].start + k,
            ) implies #[trigger] a.regions[i].bytes[k] == c.regions[i].bytes[k] by {
            assert(a.regions[i].bytes[k] == b.regions[i].bytes[k]);
            assert(b.regions[i].bytes[k] == c.regions[i].bytes[k]);
        }
    }
}

} // verus!
