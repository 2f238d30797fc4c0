use vmm::devices::virtio::balloon::pages_of_chain;
use vmm::devices::virtio::balloon::Balloon;
use vmm::devices::virtio::balloon::BalloonError;
use vmm::devices::virtio::balloon::BalloonEvent;
use vmm::devices::virtio::balloon::INFLATE_INDEX;
use vmm::devices::virtio::block::device::handle_chain;
use vmm::devices::virtio::block::device::parse_request;
use vmm::devices::virtio::block::device::BlockError;
use vmm::devices::virtio::block::device::QueueEvent;
use vmm::devices::virtio::block::device::VirtioBlock;
use vmm::devices::virtio::block::device::VIRTIO_BLK_S_IOERR;
use vmm::devices::virtio::block::device::VIRTIO_BLK_S_OK;
use vmm::devices::virtio::block::device::VIRTIO_BLK_S_UNSUPP;
use vmm::devices::virtio::block::device::VIRTIO_BLK_T_DISCARD;
use vmm::devices::virtio::block::device::VIRTIO_BLK_T_FLUSH;
use vmm::devices::virtio::block::device::VIRTIO_BLK_T_GET_ID;
use vmm::devices::virtio::block::device::VIRTIO_BLK_T_IN;
use vmm::devices::virtio::block::device::VIRTIO_BLK_T_OUT;
use vmm::devices::virtio::block::device::VIRTIO_BLK_T_WRITE_ZEROES;
use vmm::devices::virtio::block::sync_io::SyncFileEngine;
use vmm::devices::virtio::block::sync_io::SyncIoError;
use vmm::devices::virtio::mmio::MmioTransport;
use vmm::devices::virtio::net::device::Net;
use vmm::devices::virtio::net::persist::NetConstructorArgs;
use vmm::devices::virtio::net::persist::NetState;
use vmm::devices::virtio::net::virtio::is_mmds_frame;
use vmm::devices::virtio::net::virtio::MacAddr;
use vmm::devices::virtio::net::virtio::MmdsNetworkStack;
use vmm::devices::virtio::net::virtio::RxEvent;
use vmm::devices::virtio::net::virtio::TxEvent;
use vmm::devices::virtio::net::NetError;
use vmm::devices::virtio::net::NetPersistError;
use vmm::devices::virtio::net::VirtioNetError;
use vmm::devices::virtio::net::TX_INDEX;
use vmm::devices::virtio::queue::Descriptor;
use vmm::devices::virtio::queue::DescriptorChain;
use vmm::devices::virtio::queue::Queue;
use vmm::devices::virtio::queue::QueueError;
use vmm::devices::virtio::queue::VIRTQ_DESC_F_NEXT;
use vmm::devices::virtio::queue::VIRTQ_DESC_F_WRITE;
use vmm::devices::virtio::rng::Entropy;
use vmm::devices::virtio::rng::EntropyEvent;
use vmm::devices::virtio::DeviceState;
use vmm::devices::virtio::TYPE_NET;
use vmm::event_manager::Event;
use vmm::event_manager::EventManager;
use vmm::event_manager::EventSource;
use vmm::guest_ram::GuestRam;
use vmm::guest_ram::RamRegion;
use vmm::memory::GuestRegionType;
use vmm::rate_limiter::BucketUpdate;
use vmm::rate_limiter::RateLimiter;
use vmm::rate_limiter::TokenBucket;
use vmm::rate_limiter::TokenType;

const DESC_TABLE: u64 = 0x1000;
const AVAIL_RING: u64 = 0x2000;
const USED_RING: u64 = 0x3000;

fn queue(size: u16) -> Queue {
    Queue { size, desc_table: DESC_TABLE, avail_ring: AVAIL_RING, used_ring: USED_RING, next_avail: 0, next_used: 0 }
}

fn queue_at(size: u16, base: u64) -> Queue {
    Queue {
        size,
        desc_table: base + DESC_TABLE,
        avail_ring: base + AVAIL_RING,
        used_ring: base + USED_RING,
        next_avail: 0,
        next_used: 0,
    }
}

fn set_desc(mem: &mut GuestRam, q: &Queue, index: u16, addr: u64, len: u32, flags: u16, next: u16) {
    let mut b = Vec::new();
    b.extend_from_slice(&addr.to_le_bytes());
    b.extend_from_slice(&len.to_le_bytes());
    b.extend_from_slice(&flags.to_le_bytes());
    b.extend_from_slice(&next.to_le_bytes());
    assert!(mem.write(q.desc_table + 16 * index as u64, &b));
}

fn avail_idx(mem: &GuestRam, q: &Queue) -> u16 {
    let b = mem.read(q.avail_ring + 2, 2).unwrap();
    u16::from_le_bytes([b[0], b[1]])
}

fn make_available(mem: &mut GuestRam, q: &Queue, head: u16) {
    let idx = avail_idx(mem, q);
    assert!(mem.write(q.avail_ring + 4 + 2 * (idx % q.size) as u64, &head.to_le_bytes()));
    assert!(mem.write(q.avail_ring + 2, &idx.wrapping_add(1).to_le_bytes()));
}

fn used_idx(mem: &GuestRam, q: &Queue) -> u16 {
    let b = mem.read(q.used_ring + 2, 2).unwrap();
    u16::from_le_bytes([b[0], b[1]])
}

fn used_entry(mem: &GuestRam, q: &Queue, slot: u16) -> (u32, u32) {
    let b = mem.read(q.used_ring + 4 + 8 * slot as u64, 8).unwrap();
    (
        u32::from_le_bytes([b[0], b[1], b[2], b[3]]),
        u32::from_le_bytes([b[4], b[5], b[6], b[7]]),
    )
}

fn blk_header(request_type: u32, sector: u64) -> Vec<u8> {
    let mut b = Vec::new();
    b.extend_from_slice(&request_type.to_le_bytes());
    b.extend_from_slice(&0u32.to_le_bytes());
    b.extend_from_slice(&sector.to_le_bytes());
    b
}

const HEADER_ADDR: u64 = 0x4000;
const DATA_ADDR: u64 = 0x5000;
const STATUS_ADDR: u64 = 0x6000;

fn blk_request(mem: &mut GuestRam, q: &Queue, request_type: u32, sector: u64, data_len: u32, data_flags: u16) {
    assert!(mem.write(HEADER_ADDR, &blk_header(request_type, sector)));
    assert!(mem.write(STATUS_ADDR, &[0xff]));
    set_desc(mem, q, 0, HEADER_ADDR, 16, VIRTQ_DESC_F_NEXT, 1);
    set_desc(mem, q, 1, DATA_ADDR, data_len, VIRTQ_DESC_F_NEXT | data_flags, 2);
    set_desc(mem, q, 2, STATUS_ADDR, 1, VIRTQ_DESC_F_WRITE, 0);
    make_available(mem, q, 0);
}

fn status(mem: &GuestRam) -> u8 {
    mem.read(STATUS_ADDR, 1).unwrap()[0]
}

#[test]
fn guest_ram_read_write() {
    let mut mem = GuestRam::with_dram(0x1000, 0x2000);
    assert_eq!(mem.read(0x1000, 4).unwrap(), vec![0, 0, 0, 0]);
    assert!(mem.write(0x2ffc, &[1, 2, 3, 4]));
    assert_eq!(mem.read(0x2ffc, 4).unwrap(), vec![1, 2, 3, 4]);
    assert_eq!(mem.read(0x2ffe, 2).unwrap(), vec![3, 4]);
    // Nothing is written across the end of a region.
    assert!(!mem.write(0x2ffd, &[9, 9, 9, 9]));
    assert_eq!(mem.read(0x2ffc, 4).unwrap(), vec![1, 2, 3, 4]);
    assert!(mem.read(0x0fff, 2).is_none());
    assert!(mem.read(0x3000, 1).is_none());
    assert!(mem.in_dram(0x3000, 0));
    assert!(!mem.in_dram(0x3001, 0));

    // Device memory is not for devices to read or write.
    let mut mixed = GuestRam::new(vec![
        RamRegion { start: 0, region_type: GuestRegionType::Device, bytes: vec![7; 16] },
        RamRegion { start: 0x100, region_type: GuestRegionType::Dram, bytes: vec![8; 16] },
    ]);
    assert!(mixed.read(0, 4).is_none());
    assert!(!mixed.write(0, &[1]));
    assert_eq!(mixed.read(0x10c, 4).unwrap(), vec![8; 4]);
    assert!(mixed.read(0x10d, 4).is_none());
}

#[test]
fn queue_chain_parsing() {
    let mut mem = GuestRam::with_dram(0, 0x10000);
    let q = queue(4);
    set_desc(&mut mem, &q, 0, 0x4000, 16, VIRTQ_DESC_F_NEXT, 3);
    set_desc(&mut mem, &q, 3, 0x5000, 512, VIRTQ_DESC_F_NEXT | VIRTQ_DESC_F_WRITE, 1);
    set_desc(&mut mem, &q, 1, 0x6000, 1, VIRTQ_DESC_F_WRITE, 0);
    let chain = q.chain(&mem, 0).unwrap();
    assert_eq!(chain.head, 0);
    assert_eq!(
        chain.descriptors,
        vec![
            Descriptor { addr: 0x4000, len: 16, flags: 1, next: 3 },
            Descriptor { addr: 0x5000, len: 512, flags: 3, next: 1 },
            Descriptor { addr: 0x6000, len: 1, flags: 2, next: 0 },
        ]
    );
    assert!(!chain.descriptors[0].is_write_only());
    assert!(chain.descriptors[1].is_write_only());
    assert!(chain.descriptors[1].has_next());
    assert!(!chain.descriptors[2].has_next());
    assert_eq!(q.chain(&mem, 4).unwrap_err(), QueueError::DescIndexOutOfBounds(4));

    // A chain that runs in a circle.
    set_desc(&mut mem, &q, 1, 0x6000, 1, VIRTQ_DESC_F_WRITE | VIRTQ_DESC_F_NEXT, 0);
    assert_eq!(q.chain(&mem, 0).unwrap_err(), QueueError::ChainTooLong);
    // A buffer outside guest memory.
    set_desc(&mut mem, &q, 1, 0xffff, 2, VIRTQ_DESC_F_WRITE, 0);
    assert_eq!(q.chain(&mem, 0).unwrap_err(), QueueError::BufferOutOfMemory(0xffff));
    // A next index outside the queue.
    set_desc(&mut mem, &q, 3, 0x5000, 512, VIRTQ_DESC_F_NEXT, 9);
    assert_eq!(q.chain(&mem, 0).unwrap_err(), QueueError::DescIndexOutOfBounds(9));
    // A descriptor table outside guest memory.
    let far = Queue { desc_table: 0x2_0000, ..queue(4) };
    assert_eq!(far.chain(&mem, 0).unwrap_err(), QueueError::QueueOutOfMemory);
}

#[test]
fn queue_pop_and_add_used() {
    let mut mem = GuestRam::with_dram(0, 0x10000);
    let mut q = queue(2);
    assert!(q.pop(&mem).unwrap().is_none());
    set_desc(&mut mem, &q, 0, 0x4000, 8, 0, 0);
    set_desc(&mut mem, &q, 1, 0x5000, 8, VIRTQ_DESC_F_WRITE, 0);
    make_available(&mut mem, &q, 1);
    make_available(&mut mem, &q, 0);
    make_available(&mut mem, &q, 1);
    let first = q.pop(&mem).unwrap().unwrap();
    assert_eq!(first.head, 1);
    assert_eq!(q.next_avail, 1);
    let second = q.pop(&mem).unwrap().unwrap();
    assert_eq!(second.head, 0);
    // The ring has two slots: the third entry has overwritten the first.
    let third = q.pop(&mem).unwrap().unwrap();
    assert_eq!(third.head, 1);
    assert!(q.pop(&mem).unwrap().is_none());
    assert_eq!(q.next_avail, 3);

    assert_eq!(used_idx(&mem, &q), 0);
    q.add_used(&mut mem, 1, 8).unwrap();
    q.add_used(&mut mem, 0, 0).unwrap();
    q.add_used(&mut mem, 1, 0x1234_5678).unwrap();
    assert_eq!(used_idx(&mem, &q), 3);
    assert_eq!(q.next_used, 3);
    assert_eq!(used_entry(&mem, &q, 0), (1, 0x1234_5678));
    assert_eq!(used_entry(&mem, &q, 1), (0, 0));

    // The index wraps.
    q.next_used = u16::MAX;
    q.add_used(&mut mem, 0, 1).unwrap();
    assert_eq!(q.next_used, 0);
    assert_eq!(used_idx(&mem, &q), 0);
    assert_eq!(used_entry(&mem, &q, 1), (0, 1));

    let mut empty = queue(0);
    assert_eq!(empty.pop(&mem).unwrap_err(), QueueError::EmptyQueue);
    assert_eq!(empty.add_used(&mut mem, 0, 0).unwrap_err(), QueueError::EmptyQueue);
    let mut far = Queue { used_ring: 0xffff, ..queue(2) };
    assert_eq!(far.add_used(&mut mem, 0, 0).unwrap_err(), QueueError::QueueOutOfMemory);
    assert!(!Queue { desc_table: u64::MAX - 8, ..queue(2) }.addressable());
}

#[test]
fn add_used_touches_the_used_ring_only() {
    let mut mem = GuestRam::with_dram(0, 0x8000);
    let pattern: Vec<u8> = (0..0x8000u32).map(|i| (i % 251) as u8).collect();
    assert!(mem.write(0, &pattern));
    let mut q = queue(8);
    q.next_used = 5;
    q.add_used(&mut mem, 3, 77).unwrap();
    let after = mem.read(0, 0x8000).unwrap();
    for (i, (a, b)) in after.iter().zip(pattern.iter()).enumerate() {
        let addr = i as u64;
        let in_ring = addr >= USED_RING && addr < USED_RING + 4 + 8 * 8;
        if !in_ring {
            assert_eq!(a, b, "byte at {:#x}", addr);
        }
    }
    assert_eq!(used_entry(&mem, &q, 5), (3, 77));
    assert_eq!(used_idx(&mem, &q), 6);
}

#[test]
fn sync_file_engine_transfers() {
    let mut engine = SyncFileEngine::from_file(vec![0u8; 1024]);
    let mut mem = GuestRam::with_dram(0, 0x1000);
    assert!(mem.write(0x100, &[1, 2, 3, 4, 5, 6, 7, 8]));
    assert_eq!(engine.write(512, &mem, 0x100, 8), Ok(8));
    assert_eq!(&engine.bytes()[510..522], &[0, 0, 1, 2, 3, 4, 5, 6, 7, 8, 0, 0]);
    assert_eq!(engine.read(514, &mut mem, 0x200, 4), Ok(4));
    assert_eq!(mem.read(0x200, 4).unwrap(), vec![3, 4, 5, 6]);
    assert_eq!(engine.len(), 1024);
    assert_eq!(engine.flush(), Ok(()));

    assert_eq!(engine.read(1020, &mut mem, 0, 8), Err(SyncIoError::UnexpectedEof));
    assert_eq!(engine.write(1020, &mem, 0, 8), Err(SyncIoError::WriteZero));
    assert_eq!(engine.read(0, &mut mem, 0xffc, 8), Err(SyncIoError::Transfer));
    assert_eq!(engine.write(0, &mem, 0xffc, 8), Err(SyncIoError::Transfer));
    assert_eq!(engine.read(1024, &mut mem, 0, 0), Ok(0));
    assert_eq!(engine.write_zeroes(514, 4), Ok(()));
    assert_eq!(&engine.bytes()[512..520], &[1, 2, 0, 0, 0, 0, 7, 8]);
    assert_eq!(engine.write_zeroes(1023, 2), Err(SyncIoError::WriteZero));
    engine.update_file(vec![9; 16]);
    assert_eq!(engine.len(), 16);
    assert_eq!(engine.read(0, &mut mem, 0, 2), Ok(2));
    assert_eq!(mem.read(0, 2).unwrap(), vec![9, 9]);
}

#[test]
fn block_write_then_read() {
    let mut block = VirtioBlock::new(SyncFileEngine::from_file(vec![0u8; 64 * 1024]), RateLimiter::unlimited(), b"disk0");
    let mut mem = GuestRam::with_dram(0, 0x10000);
    let q = queue(16);
    block.set_queue(q);
    block.activate();

    let payload: Vec<u8> = 0x1234_5678_9ABC_DEF0u64.to_le_bytes().iter().cycle().take(512).cloned().collect();
    assert!(mem.write(DATA_ADDR, &payload));
    blk_request(&mut mem, &q, VIRTIO_BLK_T_OUT, 0, 512, 0);
    assert_eq!(block.process_queue_event(&mut mem, 0), 1);
    assert_eq!(status(&mem), VIRTIO_BLK_S_OK);
    assert_eq!(used_idx(&mem, &q), 1);
    assert_eq!(used_entry(&mem, &q, 0), (0, 1));
    assert_eq!(&block.disk().bytes()[..512], &payload[..]);
    assert_eq!(&block.disk().bytes()[512..520], &[0u8; 8]);

    // Wipe the buffer and read the sector back.
    assert!(mem.write(DATA_ADDR, &vec![0u8; 512]));
    blk_request(&mut mem, &q, VIRTIO_BLK_T_IN, 0, 512, VIRTQ_DESC_F_WRITE);
    assert_eq!(block.process_queue_event(&mut mem, 0), 1);
    assert_eq!(status(&mem), VIRTIO_BLK_S_OK);
    assert_eq!(mem.read(DATA_ADDR, 512).unwrap(), payload);
    assert_eq!(used_idx(&mem, &q), 2);
    assert_eq!(used_entry(&mem, &q, 1), (0, 513));
}

#[test]
fn block_request_statuses() {
    let mut block = VirtioBlock::new(SyncFileEngine::from_file(vec![5u8; 2048]), RateLimiter::unlimited(), b"disk0");
    let mut mem = GuestRam::with_dram(0, 0x10000);
    let q = queue(4);
    block.set_queue(q);
    block.activate();

    // Beyond the end of the disk.
    blk_request(&mut mem, &q, VIRTIO_BLK_T_IN, 4, 512, VIRTQ_DESC_F_WRITE);
    assert_eq!(block.process_one(&mut mem, 0), QueueEvent::Handled(1));
    assert_eq!(status(&mem), VIRTIO_BLK_S_IOERR);
    // Partly beyond the end.
    blk_request(&mut mem, &q, VIRTIO_BLK_T_OUT, 3, 1024, 0);
    assert_eq!(block.process_one(&mut mem, 0), QueueEvent::Handled(1));
    assert_eq!(status(&mem), VIRTIO_BLK_S_IOERR);
    // A sector number that cannot be a byte offset.
    blk_request(&mut mem, &q, VIRTIO_BLK_T_IN, u64::MAX, 512, VIRTQ_DESC_F_WRITE);
    assert_eq!(block.process_one(&mut mem, 0), QueueEvent::Handled(1));
    assert_eq!(status(&mem), VIRTIO_BLK_S_IOERR);
    // A read into a buffer that the device may not write.
    blk_request(&mut mem, &q, VIRTIO_BLK_T_IN, 0, 512, 0);
    assert_eq!(block.process_one(&mut mem, 0), QueueEvent::Handled(1));
    assert_eq!(status(&mem), VIRTIO_BLK_S_IOERR);
    // Flush.
    blk_request(&mut mem, &q, VIRTIO_BLK_T_FLUSH, 0, 0, 0);
    assert_eq!(block.process_one(&mut mem, 0), QueueEvent::Handled(1));
    assert_eq!(status(&mem), VIRTIO_BLK_S_OK);
    // The identifier: the name, filled up with zeroes.
    assert!(mem.write(DATA_ADDR, &[0xffu8; 24]));
    blk_request(&mut mem, &q, VIRTIO_BLK_T_GET_ID, 0, 20, VIRTQ_DESC_F_WRITE);
    assert_eq!(block.process_one(&mut mem, 0), QueueEvent::Handled(21));
    assert_eq!(status(&mem), VIRTIO_BLK_S_OK);
    let mut id = b"disk0".to_vec();
    id.resize(20, 0);
    assert_eq!(mem.read(DATA_ADDR, 20).unwrap(), id);
    assert_eq!(mem.read(DATA_ADDR + 20, 4).unwrap(), vec![0xffu8; 4]);
    // A request that the device does not know.
    blk_request(&mut mem, &q, 0x77, 0, 512, 0);
    assert_eq!(block.process_one(&mut mem, 0), QueueEvent::Handled(1));
    assert_eq!(status(&mem), VIRTIO_BLK_S_UNSUPP);
    // A read of the last sector.
    blk_request(&mut mem, &q, VIRTIO_BLK_T_IN, 3, 512, VIRTQ_DESC_F_WRITE);
    assert_eq!(block.process_one(&mut mem, 0), QueueEvent::Handled(513));
    assert_eq!(status(&mem), VIRTIO_BLK_S_OK);
    assert_eq!(mem.read(DATA_ADDR, 512).unwrap(), vec![5u8; 512]);
    assert_eq!(block.process_one(&mut mem, 0), QueueEvent::Idle);
    assert_eq!(block.queue().next_used, 8);
}

#[test]
fn block_discard_and_write_zeroes() {
    let mut block = VirtioBlock::new(SyncFileEngine::from_file(vec![7u8; 2048]), RateLimiter::unlimited(), b"a_name_longer_than_twenty_bytes");
    let mut mem = GuestRam::with_dram(0, 0x10000);
    let q = queue(8);
    block.set_queue(q);
    block.activate();
    let segment = |sector: u64, sectors: u32| {
        let mut s = sector.to_le_bytes().to_vec();
        s.extend_from_slice(&sectors.to_le_bytes());
        s.extend_from_slice(&0u32.to_le_bytes());
        s
    };

    // Sectors 1 and 2 are filled with zeroes, the others stay.
    assert!(mem.write(DATA_ADDR, &segment(1, 2)));
    blk_request(&mut mem, &q, VIRTIO_BLK_T_WRITE_ZEROES, 0, 16, 0);
    assert_eq!(block.process_one(&mut mem, 0), QueueEvent::Handled(1));
    assert_eq!(status(&mem), VIRTIO_BLK_S_OK);
    assert_eq!(&block.disk().bytes()[..512], &[7u8; 512][..]);
    assert_eq!(&block.disk().bytes()[512..1536], &[0u8; 1024][..]);
    assert_eq!(&block.disk().bytes()[1536..], &[7u8; 512][..]);
    // Discarded sectors keep what they hold.
    assert!(mem.write(DATA_ADDR, &segment(3, 1)));
    blk_request(&mut mem, &q, VIRTIO_BLK_T_DISCARD, 0, 16, 0);
    assert_eq!(block.process_one(&mut mem, 0), QueueEvent::Handled(1));
    assert_eq!(status(&mem), VIRTIO_BLK_S_OK);
    assert_eq!(&block.disk().bytes()[1536..], &[7u8; 512][..]);
    // A range that leaves the disk.
    assert!(mem.write(DATA_ADDR, &segment(3, 2)));
    blk_request(&mut mem, &q, VIRTIO_BLK_T_WRITE_ZEROES, 0, 16, 0);
    assert_eq!(block.process_one(&mut mem, 0), QueueEvent::Handled(1));
    assert_eq!(status(&mem), VIRTIO_BLK_S_IOERR);
    assert_eq!(&block.disk().bytes()[1536..], &[7u8; 512][..]);
    // A segment that is too short, and one that the device may write.
    blk_request(&mut mem, &q, VIRTIO_BLK_T_DISCARD, 0, 15, 0);
    assert_eq!(block.process_one(&mut mem, 0), QueueEvent::Handled(1));
    assert_eq!(status(&mem), VIRTIO_BLK_S_IOERR);
    assert!(mem.write(DATA_ADDR, &segment(0, 1)));
    blk_request(&mut mem, &q, VIRTIO_BLK_T_DISCARD, 0, 16, VIRTQ_DESC_F_WRITE);
    assert_eq!(block.process_one(&mut mem, 0), QueueEvent::Handled(1));
    assert_eq!(status(&mem), VIRTIO_BLK_S_IOERR);
    // The identifier holds the first 20 bytes of a longer name.
    blk_request(&mut mem, &q, VIRTIO_BLK_T_GET_ID, 0, 32, VIRTQ_DESC_F_WRITE);
    assert_eq!(block.process_one(&mut mem, 0), QueueEvent::Handled(21));
    assert_eq!(mem.read(DATA_ADDR, 20).unwrap(), b"a_name_longer_than_t".to_vec());
    // A buffer too small for the identifier, and one that the device may not write.
    blk_request(&mut mem, &q, VIRTIO_BLK_T_GET_ID, 0, 19, VIRTQ_DESC_F_WRITE);
    assert_eq!(block.process_one(&mut mem, 0), QueueEvent::Handled(1));
    assert_eq!(status(&mem), VIRTIO_BLK_S_IOERR);
    blk_request(&mut mem, &q, VIRTIO_BLK_T_GET_ID, 0, 20, 0);
    assert_eq!(block.process_one(&mut mem, 0), QueueEvent::Handled(1));
    assert_eq!(status(&mem), VIRTIO_BLK_S_IOERR);
}

#[test]
fn block_malformed_chains() {
    let mut mem = GuestRam::with_dram(0, 0x10000);
    let hdr = Descriptor { addr: HEADER_ADDR, len: 16, flags: VIRTQ_DESC_F_NEXT, next: 1 };
    let st = Descriptor { addr: STATUS_ADDR, len: 1, flags: VIRTQ_DESC_F_WRITE, next: 0 };
    assert!(mem.write(HEADER_ADDR, &blk_header(VIRTIO_BLK_T_OUT, 9)));
    let ok = DescriptorChain { head: 0, descriptors: vec![hdr, st] };
    let header = parse_request(&ok, &mem).unwrap();
    assert_eq!((header.request_type, header.sector, header.status_addr), (1, 9, STATUS_ADDR));

    let short = DescriptorChain { head: 0, descriptors: vec![hdr] };
    assert_eq!(parse_request(&short, &mem).unwrap_err(), BlockError::DescriptorChainTooShort);
    let wr_hdr = DescriptorChain { head: 0, descriptors: vec![Descriptor { flags: 3, ..hdr }, st] };
    assert_eq!(parse_request(&wr_hdr, &mem).unwrap_err(), BlockError::UnexpectedWriteOnlyDescriptor);
    let ro_status = DescriptorChain { head: 0, descriptors: vec![hdr, Descriptor { flags: 0, ..st }] };
    assert_eq!(parse_request(&ro_status, &mem).unwrap_err(), BlockError::UnexpectedReadOnlyDescriptor);
    let small = DescriptorChain { head: 0, descriptors: vec![Descriptor { len: 15, ..hdr }, st] };
    assert_eq!(parse_request(&small, &mem).unwrap_err(), BlockError::DescriptorLengthTooSmall);
    let nowhere = DescriptorChain { head: 0, descriptors: vec![Descriptor { addr: 0xfff8, ..hdr }, st] };
    assert_eq!(parse_request(&nowhere, &mem).unwrap_err(), BlockError::GuestMemory);

    // A chain that holds no request is given back with nothing written.
    let mut disk = SyncFileEngine::from_file(vec![0u8; 512]);
    assert!(mem.write(STATUS_ADDR, &[0xff]));
    assert_eq!(handle_chain(&mut disk, &mut mem, &short, &[0u8; 20]), 0);
    assert_eq!(status(&mem), 0xff);
    assert_eq!(handle_chain(&mut disk, &mut mem, &ok, &[0u8; 20]), 1);
    assert_eq!(status(&mem), VIRTIO_BLK_S_OK);
}

#[test]
fn block_request_stays_inside_its_chain() {
    let mut block = VirtioBlock::new(SyncFileEngine::from_file(vec![0xabu8; 4096]), RateLimiter::unlimited(), b"disk0");
    let mut mem = GuestRam::with_dram(0, 0x8000);
    let pattern: Vec<u8> = (0..0x8000u32).map(|i| (i % 253) as u8).collect();
    assert!(mem.write(0, &pattern));
    let q = queue(4);
    assert!(mem.write(AVAIL_RING, &[0u8; 16]));
    assert!(mem.write(USED_RING, &[0u8; 64]));
    block.set_queue(q);
    block.activate();
    blk_request(&mut mem, &q, VIRTIO_BLK_T_IN, 1, 1024, VIRTQ_DESC_F_WRITE);
    let before = mem.read(0, 0x8000).unwrap();
    assert_eq!(block.process_one(&mut mem, 0), QueueEvent::Handled(1025));
    let after = mem.read(0, 0x8000).unwrap();
    for i in 0..0x8000u64 {
        let in_data = i >= DATA_ADDR && i < DATA_ADDR + 1024;
        let in_status = i == STATUS_ADDR;
        let in_used = i >= USED_RING && i < USED_RING + 4 + 8 * 4;
        if !(in_data || in_status || in_used) {
            assert_eq!(after[i as usize], before[i as usize], "byte at {:#x}", i);
        }
    }
    assert_eq!(&after[DATA_ADDR as usize..DATA_ADDR as usize + 1024], &vec![0xabu8; 1024][..]);
}

#[test]
fn block_event_handler_test_event_handler() {
    let mut event_manager = EventManager::new();
    let mut block = VirtioBlock::new(SyncFileEngine::from_file(vec![0u8; 4096]), RateLimiter::unlimited(), b"disk0");
    let mut mem = GuestRam::with_dram(0, 0x10000);
    let q = queue(16);
    block.set_queue(q);
    event_manager.add_all(0, &block.register());

    // Push a 'Write' operation.
    assert!(mem.write(DATA_ADDR, &123_456_789u64.to_le_bytes()));
    blk_request(&mut mem, &q, VIRTIO_BLK_T_OUT, 0, 512, 0);
    let queue_event = vec![Event { subscriber: 0, source: EventSource::Queue(0) }];

    // The table reports no events since block has only registered its activation
    // event so far (even though the queue event is pending).
    assert_eq!(event_manager.run_with_timeout(&queue_event).len(), 0);
    assert_eq!(block.process_queue_event(&mut mem, 0), 0);
    assert_eq!(used_idx(&mem, &q), 0);

    // Now activate the device and process the activate event.
    block.activate();
    let activate = vec![Event { subscriber: 0, source: EventSource::Activate }];
    assert_eq!(event_manager.run_with_timeout(&activate).len(), 1);
    event_manager.remove_subscriber(0);
    event_manager.add_all(0, &block.register());

    // Handle the pending queue event.
    for event in event_manager.run_with_timeout(&queue_event) {
        assert_eq!(event.source, EventSource::Queue(0));
        block.process_queue_event(&mut mem, 0);
    }
    assert_eq!(used_idx(&mem, &q), 1);
    assert_eq!(used_entry(&mem, &q, 0).0, 0);
    assert_eq!(used_entry(&mem, &q, 0).1, 1);
    assert_eq!(status(&mem), VIRTIO_BLK_S_OK);
}

#[test]
fn block_rate_limited() {
    let limiter = RateLimiter::new(None, TokenBucket::new(1, 0, 1000, 0));
    let mut block = VirtioBlock::new(SyncFileEngine::from_file(vec![0u8; 4096]), limiter, b"disk0");
    let mut mem = GuestRam::with_dram(0, 0x10000);
    let q = queue(4);
    block.set_queue(q);
    block.activate();
    blk_request(&mut mem, &q, VIRTIO_BLK_T_FLUSH, 0, 0, 0);
    blk_request(&mut mem, &q, VIRTIO_BLK_T_FLUSH, 0, 0, 0);
    assert_eq!(block.process_one(&mut mem, 0), QueueEvent::Handled(1));
    // The second request is held back and stays in the queue.
    assert_eq!(block.process_one(&mut mem, 0), QueueEvent::Throttled);
    assert_eq!(block.queue().next_avail, 1);
    assert!(block.rate_limiter().is_blocked());
    assert_eq!(block.process_one(&mut mem, 5000), QueueEvent::Throttled);
    // The timer fires after the bucket has filled up, and the device goes on.
    assert_eq!(block.process_rate_limiter_event(&mut mem, 5000), 1);
    assert!(!block.rate_limiter().is_blocked());
    assert_eq!(used_idx(&mem, &q), 2);
    assert_eq!(block.process_rate_limiter_event(&mut mem, 5000), 0);
}

fn net() -> Net {
    Net::new(String::from("net0"), "tap0", None, RateLimiter::unlimited(), RateLimiter::unlimited()).unwrap()
}

fn set_net_queues(net: &mut Net, rx: Queue, tx: Queue) {
    match net {
        Net::Virtio(b) => {
            b.rx_queue = rx;
            b.tx_queue = tx;
        }
    }
}

#[test]
fn event_handler_test_event_handler() {
    let mut event_manager = EventManager::new();
    let mut net = net();
    let mut mem = GuestRam::with_dram(0, 0x20000);
    let rxq = queue_at(16, 0);
    let txq = queue_at(16, 0x8000);
    set_net_queues(&mut net, rxq, txq);
    event_manager.add_all(0, &net.register());

    // Push a queue event, use the TX queue in this test.
    set_desc(&mut mem, &txq, 0, 0x10000, 4096, 0, 0);
    make_available(&mut mem, &txq, 0);

    // The table should report no events since net has only registered its activation
    // event so far (even though there is also a queue event pending).
    let ev_count = event_manager.run_with_timeout(&Vec::new()).len();
    assert_eq!(ev_count, 0);

    // Manually force a queue event and check it's ignored pre-activation.
    let tx_event = vec![Event { subscriber: 0, source: EventSource::Queue(TX_INDEX as u32) }];
    let ev_count = event_manager.run_with_timeout(&tx_event).len();
    assert_eq!(ev_count, 0);
    let to_tap = net.process_virtio_queues(&mut mem, 0);
    assert!(to_tap.is_empty());
    // Validate there was no queue operation.
    assert_eq!(used_idx(&mem, &txq), 0);

    // Now activate the device.
    net.activate();
    event_manager.remove_subscriber(0);
    event_manager.add_all(0, &net.register());
    // Handle the previously pushed queue event.
    let mut frames = Vec::new();
    for event in event_manager.run_with_timeout(&tx_event) {
        assert_eq!(event.source, EventSource::Queue(1));
        frames = net.process_virtio_queues(&mut mem, 0);
    }
    // Make sure the data queue advanced.
    assert_eq!(used_idx(&mem, &txq), 1);
    assert_eq!(frames.len(), 1);
    assert_eq!(frames[0].len(), 4096);
}

#[test]
fn net_getters_and_mmds() {
    let mac = MacAddr { bytes: [6, 0, 0xac, 0x10, 0, 2] };
    let mut net = Net::new(
        String::from("eth0"),
        "tap7",
        Some(mac),
        RateLimiter::unlimited(),
        RateLimiter::new(TokenBucket::new(1000, 0, 100, 0), None),
    )
    .unwrap();
    assert_eq!(net.id(), "eth0");
    assert_eq!(net.iface_name(), "tap7");
    assert_eq!(net.guest_mac(), Some(&mac));
    assert_eq!(net.device_type(), TYPE_NET);
    assert!(net.mmds_ns().is_none());
    assert!(!net.is_activated());
    assert_eq!(net.rx_rate_limiter(), &RateLimiter::unlimited());
    assert_eq!(net.tx_rate_limiter().bandwidth.unwrap().size, 1000);
    assert_eq!(net.register(), vec![EventSource::Activate]);

    net.configure_mmds_network_stack([169, 254, 169, 254]);
    assert_eq!(net.mmds_ns(), Some(&MmdsNetworkStack { ipv4_addr: [169, 254, 169, 254] }));
    net.configure_mmds_network_stack([10, 0, 0, 1]);
    assert_eq!(net.mmds_ns().unwrap().ipv4_addr, [10, 0, 0, 1]);
    net.disable_mmds_network_stack();
    assert!(net.mmds_ns().is_none());
    net.disable_mmds_network_stack();
    assert!(net.mmds_ns().is_none());
    assert_eq!(net.iface_name(), "tap7");

    let bucket = TokenBucket::new(10, 5, 100, 0).unwrap();
    net.patch_rate_limiters(BucketUpdate::Update(bucket), BucketUpdate::Unchanged, BucketUpdate::Disabled, BucketUpdate::Update(bucket));
    assert_eq!(net.rx_rate_limiter().bandwidth, Some(bucket));
    assert_eq!(net.rx_rate_limiter().ops, None);
    assert_eq!(net.tx_rate_limiter().bandwidth, None);
    assert_eq!(net.tx_rate_limiter().ops, Some(bucket));
    net.set_acked_features(0x21);
    assert_eq!(net.acked_features(), 0x21);
    assert_eq!(net.avail_features(), 0);
    net.activate();
    assert!(net.is_activated());
    assert_eq!(
        net.register(),
        vec![
            EventSource::Queue(0),
            EventSource::Queue(1),
            EventSource::Tap,
            EventSource::RateLimiter(0),
            EventSource::RateLimiter(1),
        ]
    );
}

#[test]
fn net_invalid_names() {
    let make = |name: &str| Net::new(String::from("n"), name, None, RateLimiter::unlimited(), RateLimiter::unlimited());
    assert_eq!(make("").unwrap_err(), NetError::VirtioBackend(VirtioNetError::InvalidIfaceName));
    assert_eq!(make("a_name_too_long_").unwrap_err(), NetError::VirtioBackend(VirtioNetError::InvalidIfaceName));
    assert!(make("fifteen_letters").is_ok());
}

fn mmds_frame(dst: [u8; 4], protocol: u8) -> Vec<u8> {
    let mut f = vec![0u8; 12 + 14 + 20 + 8];
    f[24] = 0x08;
    f[25] = 0x00;
    f[26] = 0x45;
    f[35] = protocol;
    f[42..46].copy_from_slice(&dst);
    f
}

#[test]
fn net_mmds_steering() {
    let mmds = MmdsNetworkStack { ipv4_addr: [169, 254, 169, 254] };
    assert!(is_mmds_frame(&mmds_frame([169, 254, 169, 254], 6), &mmds));
    assert!(!is_mmds_frame(&mmds_frame([169, 254, 169, 253], 6), &mmds));
    assert!(!is_mmds_frame(&mmds_frame([169, 254, 169, 254], 17), &mmds));
    assert!(!is_mmds_frame(&mmds_frame([169, 254, 169, 254], 6)[..45], &mmds));
    let mut v6 = mmds_frame([169, 254, 169, 254], 6);
    v6[26] = 0x60;
    assert!(!is_mmds_frame(&v6, &mmds));

    let mut net = net();
    let mut mem = GuestRam::with_dram(0, 0x20000);
    let rxq = queue_at(4, 0);
    set_net_queues(&mut net, rxq, queue_at(4, 0x8000));
    set_desc(&mut mem, &rxq, 0, 0x10000, 128, VIRTQ_DESC_F_WRITE, 0);
    make_available(&mut mem, &rxq, 0);
    let to_service = mmds_frame([169, 254, 169, 254], 6);
    let to_guest = mmds_frame([10, 0, 0, 1], 6);
    let b = match &mut net {
        Net::Virtio(b) => b,
    };
    // Before activation nothing is looked at.
    b.configure_mmds_network_stack([169, 254, 169, 254]);
    assert_eq!(b.process_tap_rx_event(&mut mem, to_service.clone(), 0), RxEvent::Ignored);
    b.activate();
    // A frame for the service leaves the queue and guest memory alone.
    let before = mem.read(0, 0x20000).unwrap();
    assert_eq!(b.process_tap_rx_event(&mut mem, to_service.clone(), 0), RxEvent::Mmds);
    assert_eq!(mem.read(0, 0x20000).unwrap(), before);
    assert_eq!(b.rx_queue.next_avail, 0);
    assert!(b.rx_deferred_frame.is_none());
    // With the service switched off the same frame goes to the guest.
    b.disable_mmds_network_stack();
    assert_eq!(
        b.process_tap_rx_event(&mut mem, to_service.clone(), 0),
        RxEvent::Delivered(to_service.len() as u32)
    );
    assert_eq!(mem.read(0x10000, to_service.len()).unwrap(), to_service);
    assert_eq!(used_entry(&mem, &rxq, 0), (0, to_service.len() as u32));
    // A frame for another address goes to the guest although the service is on.
    b.configure_mmds_network_stack([169, 254, 169, 254]);
    make_available(&mut mem, &rxq, 0);
    assert_eq!(
        b.process_tap_rx_event(&mut mem, to_guest.clone(), 0),
        RxEvent::Delivered(to_guest.len() as u32)
    );
    assert_eq!(mem.read(0x10000, to_guest.len()).unwrap(), to_guest);
    assert_eq!(used_idx(&mem, &rxq), 2);
}

#[test]
fn net_tx_frames() {
    let mut net = net();
    let mut mem = GuestRam::with_dram(0, 0x20000);
    let txq = queue_at(4, 0x8000);
    set_net_queues(&mut net, queue_at(4, 0), txq);
    net.configure_mmds_network_stack([169, 254, 169, 254]);
    net.activate();
    let first = mmds_frame([169, 254, 169, 254], 6);
    let second = mmds_frame([10, 0, 0, 1], 6);
    assert!(mem.write(0x10000, &first));
    assert!(mem.write(0x11000, &second[..20]));
    assert!(mem.write(0x12000, &second[20..]));
    set_desc(&mut mem, &txq, 0, 0x10000, first.len() as u32, 0, 0);
    set_desc(&mut mem, &txq, 1, 0x11000, 20, VIRTQ_DESC_F_NEXT, 2);
    set_desc(&mut mem, &txq, 2, 0x12000, (second.len() - 20) as u32, 0, 0);
    set_desc(&mut mem, &txq, 3, 0x13000, 64, VIRTQ_DESC_F_WRITE, 0);
    make_available(&mut mem, &txq, 0);
    make_available(&mut mem, &txq, 1);
    make_available(&mut mem, &txq, 3);
    // Every frame that the guest sends goes to the host interface, in order.
    let tap = net.process_virtio_queues(&mut mem, 0);
    assert_eq!(tap, vec![first, second]);
    // The chain without a frame was given back too.
    assert_eq!(used_idx(&mem, &txq), 3);
    assert_eq!(used_entry(&mem, &txq, 0), (0, 0));
    assert_eq!(used_entry(&mem, &txq, 1), (1, 0));
    assert_eq!(used_entry(&mem, &txq, 2), (3, 0));
}

#[test]
fn net_rx_delivery() {
    let mut net = net();
    let mut mem = GuestRam::with_dram(0, 0x20000);
    let rxq = queue_at(4, 0);
    set_net_queues(&mut net, rxq, queue_at(4, 0x8000));
    let frame: Vec<u8> = (0..100u8).collect();
    let backend = |n: &mut Net| match n {
        Net::Virtio(b) => b.clone(),
    };
    // Not activated: the frame is dropped.
    match &mut net {
        Net::Virtio(b) => assert_eq!(b.deliver_frame(&mut mem, frame.clone(), 0), RxEvent::Ignored),
    }
    net.activate();
    // No buffer: the device keeps the frame.
    match &mut net {
        Net::Virtio(b) => assert_eq!(b.deliver_frame(&mut mem, frame.clone(), 0), RxEvent::Deferred),
    }
    assert_eq!(backend(&mut net).rx_deferred_frame, Some(frame.clone()));
    assert_eq!(used_idx(&mem, &rxq), 0);
    // The guest refills the queue with a chain of two buffers.
    set_desc(&mut mem, &rxq, 0, 0x10000, 64, VIRTQ_DESC_F_WRITE | VIRTQ_DESC_F_NEXT, 1);
    set_desc(&mut mem, &rxq, 1, 0x11000, 64, VIRTQ_DESC_F_WRITE, 0);
    make_available(&mut mem, &rxq, 0);
    match &mut net {
        Net::Virtio(b) => assert_eq!(b.process_rx_queue_event(&mut mem, 0), Some(RxEvent::Delivered(100))),
    }
    assert_eq!(mem.read(0x10000, 64).unwrap(), frame[..64].to_vec());
    assert_eq!(mem.read(0x11000, 36).unwrap(), frame[64..].to_vec());
    assert_eq!(mem.read(0x11000 + 36, 4).unwrap(), vec![0; 4]);
    assert_eq!(used_entry(&mem, &rxq, 0), (0, 100));
    assert_eq!(used_idx(&mem, &rxq), 1);
    assert!(backend(&mut net).rx_deferred_frame.is_none());
    match &mut net {
        Net::Virtio(b) => assert_eq!(b.process_rx_queue_event(&mut mem, 0), None),
    }
    // A chain that is too small is given back empty.
    set_desc(&mut mem, &rxq, 2, 0x12000, 10, VIRTQ_DESC_F_WRITE, 0);
    make_available(&mut mem, &rxq, 2);
    match &mut net {
        Net::Virtio(b) => assert_eq!(b.deliver_frame(&mut mem, frame.clone(), 0), RxEvent::Dropped),
    }
    assert_eq!(used_entry(&mem, &rxq, 1), (2, 0));
}

#[test]
fn net_tx_rate_limited() {
    let limiter = RateLimiter::new(TokenBucket::new(100, 0, 1000, 0), None);
    let mut net = Net::new(String::from("n"), "tap0", None, RateLimiter::unlimited(), limiter).unwrap();
    let mut mem = GuestRam::with_dram(0, 0x20000);
    let txq = queue_at(4, 0x8000);
    set_net_queues(&mut net, queue_at(4, 0), txq);
    net.activate();
    set_desc(&mut mem, &txq, 0, 0x10000, 80, 0, 0);
    make_available(&mut mem, &txq, 0);
    make_available(&mut mem, &txq, 0);
    let b = match &mut net {
        Net::Virtio(b) => b,
    };
    assert!(matches!(b.process_tx_one(&mut mem, 0), TxEvent::Sent(_)));
    assert!(matches!(b.process_tx_one(&mut mem, 0), TxEvent::Throttled));
    assert_eq!(b.tx_queue.next_avail, 1);
    assert_eq!(used_idx(&mem, &txq), 1);
    // After a second the bucket is full again.
    let tap = b.process_tx_rate_limiter_event(&mut mem, 1000);
    assert_eq!(tap.len(), 1);
    assert_eq!(used_idx(&mem, &txq), 2);
    assert!(matches!(b.process_tx_one(&mut mem, 1000), TxEvent::Idle));
}

#[test]
fn net_save_and_restore() {
    let mut net = net();
    set_net_queues(&mut net, queue_at(8, 0), queue_at(8, 0x8000));
    net.configure_mmds_network_stack([1, 2, 3, 4]);
    net.set_acked_features(3);
    net.activate();
    let state = net.save();
    let args = NetConstructorArgs { mem: GuestRam::with_dram(0, 0x1000), mmds: true };
    let restored = Net::restore(args, &state).unwrap();
    assert_eq!(restored.id(), "net0");
    assert_eq!(restored.iface_name(), "tap0");
    assert_eq!(restored.queues(), [queue_at(8, 0), queue_at(8, 0x8000)]);
    assert!(restored.is_activated());
    assert_eq!(restored.acked_features(), 3);
    assert_eq!(restored.mmds_ns().unwrap().ipv4_addr, [1, 2, 3, 4]);
    // Without a data store the device does not serve the metadata service.
    let without = Net::restore(NetConstructorArgs { mem: GuestRam::with_dram(0, 0x1000), mmds: false }, &state).unwrap();
    assert!(without.mmds_ns().is_none());
    let NetState::Virtio(mut inner) = state;
    inner.queues.pop();
    assert_eq!(
        Net::restore(NetConstructorArgs { mem: GuestRam::with_dram(0, 16), mmds: true }, &NetState::Virtio(inner.clone()))
            .unwrap_err(),
        NetError::VirtioBackendPersist(NetPersistError::QueueCount)
    );
    inner.queues.push(queue(1));
    inner.tap_if_name = String::new();
    assert_eq!(
        Net::restore(NetConstructorArgs { mem: GuestRam::with_dram(0, 16), mmds: true }, &NetState::Virtio(inner))
            .unwrap_err(),
        NetError::VirtioBackendPersist(NetPersistError::CreateNet(VirtioNetError::InvalidIfaceName))
    );
}

#[test]
fn balloon_event_handler_test_event_handler() {
    let mut event_manager = EventManager::new();
    let mut balloon = Balloon::new(0, true, 10, false).unwrap();
    let mut mem = GuestRam::with_dram(0, 0x10000);
    let infq = queue(16);
    balloon.set_queue(INFLATE_INDEX, infq);
    event_manager.add_all(0, &balloon.register());

    // Push a queue event, use the inflate queue in this test.
    assert!(mem.write(0x4000, &0x100u32.to_le_bytes()));
    set_desc(&mut mem, &infq, 0, 0x4000, 4, 0, 0);
    make_available(&mut mem, &infq, 0);
    let inflate = vec![Event { subscriber: 0, source: EventSource::Queue(INFLATE_INDEX as u32) }];

    assert_eq!(event_manager.run_with_timeout(&inflate).len(), 0);
    assert_eq!(balloon.process_inflate_queue_event(&mut mem), (Vec::new(), Ok(())));
    assert_eq!(used_idx(&mem, &infq), 0);

    // Now activate the device.
    balloon.activate();
    assert_eq!(event_manager.run_with_timeout(&vec![Event { subscriber: 0, source: EventSource::Activate }]).len(), 1);
    event_manager.remove_subscriber(0);
    event_manager.add_all(0, &balloon.register());
    let mut pages = Vec::new();
    for _ in event_manager.run_with_timeout(&inflate) {
        let (named, result) = balloon.process_inflate_queue_event(&mut mem);
        assert_eq!(result, Ok(()));
        pages = named;
    }
    // Make sure the data queue advanced.
    assert_eq!(used_idx(&mem, &infq), 1);
    assert_eq!(pages, vec![0x100 * 4096]);
}

#[test]
fn balloon_pages_and_stats() {
    assert_eq!(Balloon::new(u32::MAX, false, 0, false).unwrap_err(), BalloonError::TooManyPagesRequested);
    let mut balloon = Balloon::new(2, false, 0, false).unwrap();
    assert_eq!(balloon.num_pages, 512);
    assert!(!balloon.stats_enabled());
    assert_eq!(balloon.register(), vec![EventSource::Activate]);
    balloon.activate();
    assert_eq!(balloon.register(), vec![EventSource::Queue(0), EventSource::Queue(1)]);
    let mut mem = GuestRam::with_dram(0, 0x1000);
    assert_eq!(balloon.process_stats_queue_event(&mut mem), Err(BalloonError::StatisticsDisabled));

    let mut mem = GuestRam::with_dram(0, 0x10000);
    let mut pfns = Vec::new();
    for pfn in [1u32, 2, 0x10, 0xffff_ffff] {
        pfns.extend_from_slice(&pfn.to_le_bytes());
    }
    assert!(mem.write(0x4000, &pfns));
    let chain = DescriptorChain {
        head: 0,
        descriptors: vec![
            Descriptor { addr: 0x4000, len: 8, flags: 0, next: 0 },
            Descriptor { addr: 0x4008, len: 8, flags: 0, next: 0 },
        ],
    };
    assert_eq!(pages_of_chain(&chain, &mem).unwrap(), vec![0x1000, 0x2000, 0x10000, 0xffff_ffff * 4096]);
    let odd = DescriptorChain { head: 0, descriptors: vec![Descriptor { addr: 0x4000, len: 6, flags: 0, next: 0 }] };
    assert_eq!(pages_of_chain(&odd, &mem).unwrap_err(), BalloonError::MalformedDescriptor);
    let wr = DescriptorChain { head: 0, descriptors: vec![Descriptor { addr: 0x4000, len: 4, flags: 2, next: 0 }] };
    assert_eq!(pages_of_chain(&wr, &mem).unwrap_err(), BalloonError::MalformedDescriptor);
    let far = DescriptorChain { head: 0, descriptors: vec![Descriptor { addr: 0xfffe, len: 4, flags: 0, next: 0 }] };
    assert_eq!(pages_of_chain(&far, &mem).unwrap_err(), BalloonError::GuestMemory);

    // Deflate and statistics.
    let mut with_stats = Balloon::new(0, true, 1, false).unwrap();
    let defq = queue_at(4, 0);
    let statq = queue_at(4, 0x8000);
    let mut mem = GuestRam::with_dram(0, 0x20000);
    with_stats.set_queue(1, defq);
    with_stats.set_queue(2, statq);
    with_stats.activate();
    assert_eq!(
        with_stats.register(),
        vec![EventSource::Queue(0), EventSource::Queue(1), EventSource::Queue(2), EventSource::StatsTimer]
    );
    set_desc(&mut mem, &defq, 0, 0x10000, 4, 0, 0);
    make_available(&mut mem, &defq, 0);
    assert!(matches!(with_stats.process_deflate_one(&mut mem), BalloonEvent::Pages(_)));
    assert_eq!(with_stats.process_deflate_queue_event(&mut mem), (0, Ok(())));
    assert_eq!(used_idx(&mem, &defq), 1);
    set_desc(&mut mem, &statq, 2, 0x11000, 10, 0, 0);
    make_available(&mut mem, &statq, 2);
    assert_eq!(with_stats.process_stats_queue_event(&mut mem), Ok(()));
    assert_eq!(with_stats.stats_desc_index, Some(2));
    assert_eq!(used_idx(&mem, &statq), 0);
    assert_eq!(with_stats.process_stats_timer_event(&mut mem), Ok(()));
    assert_eq!(with_stats.stats_desc_index, None);
    assert_eq!(used_idx(&mem, &statq), 1);
    assert_eq!(used_entry(&mem, &statq, 0), (2, 0));
    // Without a chain the timer has nothing to give back.
    assert_eq!(with_stats.process_stats_timer_event(&mut mem), Ok(()));
    assert_eq!(used_idx(&mem, &statq), 1);
    // A chain that arrives while the device holds one sends the earlier one back.
    make_available(&mut mem, &statq, 2);
    make_available(&mut mem, &statq, 3);
    set_desc(&mut mem, &statq, 3, 0x12000, 10, 0, 0);
    assert_eq!(with_stats.process_stats_queue_event(&mut mem), Ok(()));
    assert_eq!(with_stats.process_stats_queue_event(&mut mem), Ok(()));
    assert_eq!(with_stats.stats_desc_index, Some(3));
    assert_eq!(used_idx(&mem, &statq), 2);
    assert_eq!(used_entry(&mem, &statq, 1), (2, 0));
}

#[test]
fn balloon_inflate_keeps_pages_named_before_an_error() {
    let mut balloon = Balloon::new(1, false, 0, false).unwrap();
    let infq = queue(8);
    let mut mem = GuestRam::with_dram(0, 0x10000);
    balloon.set_queue(INFLATE_INDEX, infq);
    balloon.set_queue(7, queue(2));
    assert_eq!(balloon.deflate_queue.size, 0);
    balloon.activate();
    assert!(mem.write(0x4000, &[3, 0, 0, 0, 4, 0, 0, 0]));
    set_desc(&mut mem, &infq, 0, 0x4000, 8, 0, 0);
    // Six bytes are no whole number of page numbers.
    set_desc(&mut mem, &infq, 1, 0x4000, 6, 0, 0);
    set_desc(&mut mem, &infq, 2, 0x4004, 4, 0, 0);
    make_available(&mut mem, &infq, 0);
    make_available(&mut mem, &infq, 1);
    make_available(&mut mem, &infq, 2);
    let (pages, result) = balloon.process_inflate_queue_event(&mut mem);
    assert_eq!(pages, vec![0x3000, 0x4000]);
    assert_eq!(result, Err(BalloonError::MalformedDescriptor));
    // The first chain was given back, the second was taken and not given back.
    assert_eq!(used_idx(&mem, &infq), 1);
    assert_eq!(balloon.inflate_queue.next_avail, 2);
    // The next notification goes on behind the malformed chain.
    assert_eq!(balloon.process_inflate_queue_event(&mut mem), (vec![0x4000], Ok(())));
    assert_eq!(used_idx(&mem, &infq), 2);
    assert_eq!(used_entry(&mem, &infq, 1), (2, 0));
}

#[test]
fn entropy_fills_buffers() {
    let mut rng = Entropy::new(RateLimiter::unlimited());
    let mut mem = GuestRam::with_dram(0, 0x10000);
    let q = queue(4);
    rng.queue = q;
    assert_eq!(rng.register(), vec![EventSource::Activate]);
    set_desc(&mut mem, &q, 0, 0x4000, 8, VIRTQ_DESC_F_WRITE, 0);
    make_available(&mut mem, &q, 0);
    let random: Vec<u8> = (1..=32u8).collect();
    assert_eq!(rng.process_entropy_one(&mut mem, &random, 0), EntropyEvent::Ignored);
    assert_eq!(used_idx(&mem, &q), 0);
    rng.activate();
    assert_eq!(rng.register(), vec![EventSource::Queue(0), EventSource::RateLimiter(0)]);
    assert_eq!(rng.process_entropy_one(&mut mem, &random, 0), EntropyEvent::Filled(8));
    assert_eq!(mem.read(0x4000, 9).unwrap(), vec![1, 2, 3, 4, 5, 6, 7, 8, 0]);
    assert_eq!(used_entry(&mem, &q, 0), (0, 8));
    assert_eq!(rng.process_entropy_one(&mut mem, &random, 0), EntropyEvent::Idle);
    // A buffer that the device may not write.
    set_desc(&mut mem, &q, 1, 0x5000, 8, 0, 0);
    make_available(&mut mem, &q, 1);
    assert_eq!(rng.process_entropy_one(&mut mem, &random, 0), EntropyEvent::Dropped);
    assert_eq!(used_entry(&mem, &q, 1), (1, 0));
    // Limited to 16 bytes.
    let mut limited = Entropy::new(RateLimiter::new(TokenBucket::new(16, 0, 100, 0), None));
    limited.queue = queue(4);
    limited.queue.next_avail = 2;
    limited.queue.next_used = 2;
    limited.activate();
    make_available(&mut mem, &q, 0);
    assert_eq!(limited.process_entropy_one(&mut mem, &random, 0), EntropyEvent::Throttled);
    assert!(limited.rate_limiter().is_blocked());
    limited.process_rate_limiter_event();
    assert_eq!(limited.process_entropy_one(&mut mem, &random[..16], 0), EntropyEvent::Filled(8));
}

#[test]
fn limiters_in_order() {
    assert!(RateLimiter::unlimited().is_wf());
    let bucket = TokenBucket::new(100, 10, 1000, 0).unwrap();
    assert!(bucket.is_wf());
    assert!(RateLimiter::new(Some(bucket), Some(bucket)).is_wf());
    let over = TokenBucket { budget: 101, ..bucket };
    assert!(!over.is_wf());
    assert!(!RateLimiter::new(None, Some(over)).is_wf());
    assert!(!RateLimiter::new(Some(over), None).is_wf());
    let huge = TokenBucket { size: u64::MAX, one_time_burst: 1, ..bucket };
    assert!(!huge.is_wf());
}

#[test]
fn token_bucket_arithmetic() {
    assert!(TokenBucket::new(0, 0, 100, 0).is_none());
    assert!(TokenBucket::new(100, 0, 0, 0).is_none());
    let mut bucket = TokenBucket::new(1000, 200, 100, 50).unwrap();
    assert_eq!((bucket.size, bucket.one_time_burst, bucket.budget, bucket.last_update), (1000, 200, 1000, 50));
    // The burst is used first.
    assert!(bucket.reduce(150));
    assert_eq!((bucket.one_time_burst, bucket.budget), (50, 1000));
    assert!(bucket.reduce(250));
    assert_eq!((bucket.one_time_burst, bucket.budget), (0, 800));
    assert!(!bucket.reduce(801));
    assert_eq!(bucket.budget, 800);
    assert!(bucket.reduce(800));
    // A quarter of the refill time brings back a quarter of the size.
    bucket.replenish(75);
    assert_eq!((bucket.budget, bucket.last_update), (250, 75));
    bucket.replenish(74);
    assert_eq!((bucket.budget, bucket.last_update), (250, 75));
    bucket.replenish(76);
    assert_eq!(bucket.budget, 260);
    bucket.replenish(10_000);
    assert_eq!(bucket.budget, 1000);
    assert!(bucket.reduce(1000));
    bucket.force_replenish(300);
    assert_eq!(bucket.budget, 300);
    bucket.force_replenish(u64::MAX);
    assert_eq!(bucket.budget, 1000);
    // A burst that cannot be counted on top of the size is cut.
    assert_eq!(TokenBucket::new(u64::MAX, 5, 1, 0).unwrap().one_time_burst, 0);
}

#[test]
fn rate_limiter_consume() {
    let mut limiter = RateLimiter::new(TokenBucket::new(100, 0, 1000, 0), TokenBucket::new(2, 0, 1000, 0));
    assert!(limiter.consume(1, TokenType::Ops, 0));
    assert!(limiter.consume(60, TokenType::Bytes, 0));
    assert!(limiter.consume(1, TokenType::Ops, 0));
    // Too few bytes are left: the limiter starts to wait, and the operation is
    // given back.
    assert!(!limiter.consume(60, TokenType::Bytes, 0));
    limiter.manual_replenish(1, TokenType::Ops);
    assert!(limiter.is_blocked());
    assert_eq!(limiter.bandwidth.unwrap().budget, 40);
    assert_eq!(limiter.ops.unwrap().budget, 1);
    // While it waits nothing gets through, not even what the bucket could pay for.
    assert!(!limiter.consume(1, TokenType::Bytes, 0));
    assert!(!limiter.consume(1, TokenType::Ops, 5000));
    limiter.event_handler();
    assert!(!limiter.is_blocked());
    assert!(limiter.consume(60, TokenType::Bytes, 500));
    assert_eq!(limiter.bandwidth.unwrap().budget, 30);
    // No limit: everything gets through.
    let mut free = RateLimiter::unlimited();
    assert!(free.consume(u64::MAX, TokenType::Bytes, 0));
    assert!(free.consume(u64::MAX, TokenType::Ops, 0));
    free.manual_replenish(5, TokenType::Ops);
    assert_eq!(free, RateLimiter::unlimited());
    free.update_buckets(BucketUpdate::Update(TokenBucket::new(1, 0, 1, 0).unwrap()), BucketUpdate::Unchanged);
    assert!(free.consume(1, TokenType::Bytes, 0));
    assert!(!free.consume(1, TokenType::Bytes, 0));
    free.update_buckets(BucketUpdate::Disabled, BucketUpdate::Disabled);
    assert_eq!(free.bandwidth, None);
}

#[test]
fn event_manager_dispatch() {
    let mut manager = EventManager::new();
    manager.add(1, EventSource::Queue(0));
    manager.add(1, EventSource::Queue(0));
    manager.add(2, EventSource::Tap);
    manager.add_all(3, &vec![EventSource::StatsTimer, EventSource::Queue(0)]);
    assert!(manager.is_registered(Event { subscriber: 3, source: EventSource::Queue(0) }));
    assert!(!manager.is_registered(Event { subscriber: 2, source: EventSource::Queue(0) }));
    let ready = vec![
        Event { subscriber: 2, source: EventSource::Queue(0) },
        Event { subscriber: 3, source: EventSource::StatsTimer },
        Event { subscriber: 1, source: EventSource::Queue(0) },
        Event { subscriber: 1, source: EventSource::Queue(1) },
        Event { subscriber: 2, source: EventSource::Tap },
    ];
    assert_eq!(
        manager.run_with_timeout(&ready),
        vec![
            Event { subscriber: 3, source: EventSource::StatsTimer },
            Event { subscriber: 1, source: EventSource::Queue(0) },
            Event { subscriber: 2, source: EventSource::Tap },
        ]
    );
    assert!(manager.run_with_timeout(&Vec::new()).is_empty());
    manager.remove_subscriber(1);
    assert_eq!(manager.run_with_timeout(&ready).len(), 2);
    manager.remove_subscriber(9);
    assert_eq!(manager.run_with_timeout(&ready).len(), 2);
}

fn mmio_write(t: &mut MmioTransport, offset: u64, v: u32) {
    t.bus_write(offset, &v.to_le_bytes());
}

fn mmio_read(t: &mut MmioTransport, offset: u64) -> u32 {
    let mut b = [0u8; 4];
    t.bus_read(offset, &mut b);
    u32::from_le_bytes(b)
}

fn setup_queue(t: &mut MmioTransport, index: u32) {
    mmio_write(t, 0x30, index);
    mmio_write(t, 0x38, 16);
    mmio_write(t, 0x80, 0x1000);
    mmio_write(t, 0x84, 0x1);
    mmio_write(t, 0x90, 0x2000);
    mmio_write(t, 0xa0, 0x3000);
    mmio_write(t, 0x44, 1);
}

#[test]
fn mmio_transport_registers() {
    let mut t = MmioTransport::new(2, 0x1_0000_0021, &[256, 256], vec![1, 2, 3, 4, 5, 6, 7, 8]);
    assert_eq!(mmio_read(&mut t, 0x00), 0x7472_6976);
    assert_eq!(mmio_read(&mut t, 0x04), 2);
    assert_eq!(mmio_read(&mut t, 0x08), 2);
    assert_eq!(mmio_read(&mut t, 0x0c), 0);
    assert_eq!(mmio_read(&mut t, 0x10), 0x21);
    mmio_write(&mut t, 0x14, 1);
    assert_eq!(mmio_read(&mut t, 0x10), 0x1);
    mmio_write(&mut t, 0x14, 2);
    assert_eq!(mmio_read(&mut t, 0x10), 0);
    assert_eq!(mmio_read(&mut t, 0x34), 256);
    mmio_write(&mut t, 0x30, 2);
    assert_eq!(mmio_read(&mut t, 0x34), 0);
    assert_eq!(mmio_read(&mut t, 0x70), 0);
    assert_eq!(mmio_read(&mut t, 0xfc), 0);
    assert_eq!(mmio_read(&mut t, 0x1c), 0);
    // The configuration space.
    let mut two = [0u8; 2];
    t.bus_read(0x103, &mut two);
    assert_eq!(two, [4, 5]);
    let mut beyond = [9u8; 4];
    t.bus_read(0x106, &mut beyond);
    assert_eq!(beyond, [9; 4]);
    // A register is read in four bytes only.
    let mut one = [7u8];
    t.bus_read(0x00, &mut one);
    assert_eq!(one, [7]);
    // The configuration space cannot be written before the driver has announced
    // itself.
    t.bus_write(0x100, &[0xff]);
    t.bus_read(0x100, &mut one);
    assert_eq!(one, [1]);
    mmio_write(&mut t, 0x70, 1);
    mmio_write(&mut t, 0x70, 3);
    t.bus_write(0x100, &[0xff, 0xee]);
    t.bus_read(0x100, &mut two);
    assert_eq!(two, [0xff, 0xee]);
    t.bus_write(0x107, &[1, 2]);
    t.bus_read(0x106, &mut two);
    assert_eq!(two, [7, 8]);
}

#[test]
fn mmio_transport_activation() {
    let mut t = MmioTransport::new(1, 0x1_0000_0003, &[16, 16], Vec::new());
    // Out of order: nothing happens.
    mmio_write(&mut t, 0x70, 2);
    assert_eq!(t.device_status(), 0);
    mmio_write(&mut t, 0x70, 4);
    assert_eq!(t.device_status(), 0);
    // Features cannot be accepted before the driver has announced itself.
    mmio_write(&mut t, 0x20, 1);
    assert_eq!(t.acked_features(), 0);
    mmio_write(&mut t, 0x70, 1);
    mmio_write(&mut t, 0x70, 1 | 2);
    mmio_write(&mut t, 0x20, 0xff);
    assert_eq!(t.acked_features(), 0x3);
    mmio_write(&mut t, 0x24, 1);
    mmio_write(&mut t, 0x20, 0x3);
    assert_eq!(t.acked_features(), 0x1_0000_0003);
    // Queues cannot be set up before the features are accepted.
    mmio_write(&mut t, 0x44, 1);
    assert!(!t.queues()[0].ready);
    mmio_write(&mut t, 0x70, 1 | 2 | 8);
    assert_eq!(t.device_status(), 11);
    setup_queue(&mut t, 0);
    assert_eq!(t.queues()[0].desc_table, 0x1_0000_1000);
    assert_eq!(t.queues()[0].avail_ring, 0x2000);
    assert_eq!(t.queues()[0].used_ring, 0x3000);
    assert_eq!(mmio_read(&mut t, 0x44), 1);
    // Before the device is started a notification reaches no queue.
    assert_eq!(t.notified_queue(0x50, &0u32.to_le_bytes()), None);
    // One queue is not set up: the device cannot be started.
    let mut early = t.clone();
    mmio_write(&mut early, 0x70, 1 | 2 | 8 | 4);
    assert!(!early.is_activated());
    assert_eq!(early.device_status() & 0x80, 0x80);
    setup_queue(&mut t, 1);
    assert!(!t.is_activated());
    mmio_write(&mut t, 0x70, 1 | 2 | 8 | 4);
    assert!(t.is_activated());
    assert_eq!(t.device_status(), 15);
    // Now the driver can notify the queues that the device has.
    assert_eq!(t.notified_queue(0x50, &0u32.to_le_bytes()), Some(0));
    assert_eq!(t.notified_queue(0x50, &1u32.to_le_bytes()), Some(1));
    assert_eq!(t.notified_queue(0x50, &2u32.to_le_bytes()), None);
    assert_eq!(t.notified_queue(0x50, &[1, 0]), None);
    assert_eq!(t.notified_queue(0x54, &1u32.to_le_bytes()), None);
    // Once started, the queues cannot be changed.
    mmio_write(&mut t, 0x38, 8);
    assert_eq!(t.queues()[1].size, 16);
    // Interrupts are acknowledged bit by bit.
    t.signal_interrupt(0x3);
    assert_eq!(mmio_read(&mut t, 0x60), 3);
    mmio_write(&mut t, 0x64, 1);
    assert_eq!(mmio_read(&mut t, 0x60), 2);
    // The driver gives up.
    mmio_write(&mut t, 0x70, 0x80);
    assert_eq!(t.device_status(), 0x8f);
    // Reset.
    mmio_write(&mut t, 0x70, 0);
    assert_eq!(t.device_status(), 0);
    assert!(!t.is_activated());
    assert_eq!(t.acked_features(), 0);
    assert!(!t.queues()[0].ready);
    assert_eq!(t.queues()[0].desc_table, 0);
    assert_eq!(mmio_read(&mut t, 0x60), 0);
    assert_eq!(DeviceState::Inactive.is_activated(), false);
}

#[test]
fn mmio_transport_invalid_queue() {
    let mut t = MmioTransport::new(1, 0, &[16], Vec::new());
    mmio_write(&mut t, 0x70, 1);
    mmio_write(&mut t, 0x70, 3);
    mmio_write(&mut t, 0x70, 11);
    setup_queue(&mut t, 0);
    // A size that is not a power of two.
    mmio_write(&mut t, 0x38, 12);
    assert!(!t.queues()[0].is_valid());
    mmio_write(&mut t, 0x38, 32);
    assert!(!t.queues()[0].is_valid());
    mmio_write(&mut t, 0x38, 8);
    assert!(t.queues()[0].is_valid());
    mmio_write(&mut t, 0xa0, 0x3002);
    assert!(!t.queues()[0].is_valid());
}
