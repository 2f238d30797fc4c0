//! Carrying out the requests of a block device.
//!
//! A request is a chain of descriptors: a header that the device reads, data buffers,
//! and a status byte that the device writes. The device gives each chain back with
//! the number of bytes it wrote into it.
use vstd::prelude::*;
use crate::devices::virtio::block::sync_io::spec_engine_read;
use crate::devices::virtio::block::sync_io::spec_engine_write;
use crate::devices::virtio::block::sync_io::spec_image_after;
use crate::devices::virtio::block::sync_io::SyncFileEngine;
use crate::devices::virtio::queue::Descriptor;
use crate::devices::virtio::queue::DescriptorChain;
use crate::devices::virtio::queue::Queue;
use crate::devices::virtio::queue::lemma_returned_chain;
use crate::devices::virtio::queue::lemma_write_in_chain;
use crate::devices::virtio::queue::spec_same_outside_chain;
use crate::devices::virtio::queue::spec_same_outside_chain_and_ring;
use crate::devices::virtio::queue::QueueError;
use crate::devices::virtio::queue::Taken;
use crate::devices::virtio::DeviceState;
use crate::guest_ram::GuestRam;
use crate::event_manager::EventSource;
use crate::guest_ram::GuestRamView;
use crate::rate_limiter::RateLimiter;
use crate::wire::read_u32;
use crate::wire::read_u64;
use crate::wire::spec_u32_at;
use crate::wire::spec_u64_at;

verus! {

/// Request type: read from the disk.
pub const VIRTIO_BLK_T_IN: u32 = 0;

/// Request type: write to the disk.
pub const VIRTIO_BLK_T_OUT: u32 = 1;

/// Request type: flush the disk.
pub const VIRTIO_BLK_T_FLUSH: u32 = 4;

/// Request type: read the identifier of the disk.
pub const VIRTIO_BLK_T_GET_ID: u32 = 8;

/// Request type: discard sectors.
pub const VIRTIO_BLK_T_DISCARD: u32 = 11;

/// Request type: fill sectors with zeroes.
pub const VIRTIO_BLK_T_WRITE_ZEROES: u32 = 13;

/// Status: the request was carried out.
pub const VIRTIO_BLK_S_OK: u8 = 0;

/// Status: the request failed.
pub const VIRTIO_BLK_S_IOERR: u8 = 1;

/// Status: the device does not know the request.
pub const VIRTIO_BLK_S_UNSUPP: u8 = 2;

/// Size of a sector in bytes.
pub const SECTOR_SIZE: u64 = 512;

/// Size of the header of a request in bytes.
pub const REQUEST_HEADER_SIZE: u32 = 16;

/// Size of the identifier of a disk in bytes.
pub const VIRTIO_BLK_ID_BYTES: usize = 20;

/// Size in bytes of the record that names the sectors to discard or to fill with
/// zeroes.
pub const DISCARD_SEGMENT_SIZE: u32 = 16;

/// What is wrong with the chain of a request.
#[derive(Copy, Clone, Debug, PartialEq, Eq, Structural)]
pub enum BlockError {
    /// The chain has no room for a header and a status byte.
    DescriptorChainTooShort,
    /// The header is in a buffer that the device is to write.
    UnexpectedWriteOnlyDescriptor,
    /// The status byte is in a buffer that the device is to read.
    UnexpectedReadOnlyDescriptor,
    /// The header or the status buffer is too small.
    DescriptorLengthTooSmall,
    /// The header does not lie in ordinary guest memory.
    GuestMemory,
}

/// The header of a request and where its status byte goes.
#[derive(Copy, Clone, Debug, PartialEq, Eq, Structural)]
pub struct RequestHeader {
    /// What is asked for.
    pub request_type: u32,
    /// The first sector that the request is about.
    pub sector: u64,
    /// Guest physical address of the status byte.
    pub status_addr: u64,
}

/// The header of the request that a chain holds: the first descriptor holds the
/// header, which the device reads, the last one the status byte, which it writes.
pub open spec fn spec_parse_request(chain: Seq<Descriptor>, mem: GuestRamView) -> Result<
    RequestHeader,
    BlockError,
> {
    if chain.len() < 2 {
        Err(BlockError::DescriptorChainTooShort)
    } else if chain[0].spec_is_write_only() {
        Err(BlockError::UnexpectedWriteOnlyDescriptor)
    } else if !chain.last().spec_is_write_only() {
        Err(BlockError::UnexpectedReadOnlyDescriptor)
    } else if chain[0].len < REQUEST_HEADER_SIZE || chain.last().len < 1 {
        Err(BlockError::DescriptorLengthTooSmall)
    } else {
        match mem.read(chain[0].addr, 16) {
            None => Err(BlockError::GuestMemory),
            Some(b) => Ok(
                RequestHeader {
                    request_type: spec_u32_at(b, 0) as u32,
                    sector: spec_u64_at(b, 8) as u64,
                    status_addr: chain.last().addr,
                },
            ),
        }
    }
}

/// How far a transfer over the data buffers of a request has come.
pub struct Transfer {
    /// The disk image.
    pub image: Seq<u8>,
    /// Guest memory.
    pub mem: GuestRamView,
    /// Number of bytes moved.
    pub bytes: int,
    /// False once a buffer could not be moved.
    pub ok: bool,
}

/// The state after the data buffers 1 to `n` of the chain were filled from the disk,
/// one after the other, from `offset` of the image on. A buffer that the device may
/// not write, one that reaches beyond the end of the image, or one that would make the
/// count of bytes leave 32 bits, ends the transfer as failed.
pub open spec fn spec_transfer_in(
    image: Seq<u8>,
    mem: GuestRamView,
    chain: Seq<Descriptor>,
    offset: u64,
    n: nat,
) -> Transfer
    decreases n,
{
    if n == 0 {
        Transfer { image, mem, bytes: 0, ok: true }
    } else {
        let before = spec_transfer_in(image, mem, chain, offset, (n - 1) as nat);
        let d = chain[n as int];
        if !before.ok {
            before
        } else if !d.spec_is_write_only() || offset + before.bytes + d.len > u64::MAX
            || before.bytes + d.len + 1 > u32::MAX {
            Transfer { ok: false, ..before }
        } else {
            match spec_engine_read(
                before.image,
                before.mem,
                (offset + before.bytes) as u64,
                d.addr,
                d.len,
            ) {
                Ok(after) => Transfer { mem: after, bytes: before.bytes + d.len, ..before },
                Err(_) => Transfer { ok: false, ..before },
            }
        }
    }
}

/// The state after the data buffers 1 to `n` of the chain were written to the disk,
/// one after the other, from `offset` of the image on. A buffer that the device may
/// write, or one that reaches beyond the end of the image, ends the transfer as
/// failed.
pub open spec fn spec_transfer_out(
    image: Seq<u8>,
    mem: GuestRamView,
    chain: Seq<Descriptor>,
    offset: u64,
    n: nat,
) -> Transfer
    decreases n,
{
    if n == 0 {
        Transfer { image, mem, bytes: 0, ok: true }
    } else {
        let before = spec_transfer_out(image, mem, chain, offset, (n - 1) as nat);
        let d = chain[n as int];
        if !before.ok {
            before
        } else if d.spec_is_write_only() || offset + before.bytes + d.len > u64::MAX {
            Transfer { ok: false, ..before }
        } else {
            match spec_engine_write(
                before.image,
                before.mem,
                (offset + before.bytes) as u64,
                d.addr,
                d.len,
            ) {
                Ok(after) => Transfer { image: after, bytes: before.bytes + d.len, ..before },
                Err(_) => Transfer { ok: false, ..before },
            }
        }
    }
}

/// What carrying out a request leaves behind.
pub struct Outcome {
    /// The disk image.
    pub image: Seq<u8>,
    /// Guest memory, without the status byte.
    pub mem: GuestRamView,
    /// The status of the request.
    pub status: u8,
    /// Number of bytes that the device wrote into the data buffers.
    pub written: int,
}

/// The sectors that a request to discard or to fill with zeroes names, as the offset
/// of the first byte and the number of bytes. The record that names them lies in the
/// first data buffer, which the device reads: the first sector in its first eight
/// bytes, the number of sectors in the next four.
pub open spec fn spec_named_range(chain: Seq<Descriptor>, mem: GuestRamView) -> Option<(int, int)> {
    if chain.len() < 3 || chain[1].spec_is_write_only() || chain[1].len < DISCARD_SEGMENT_SIZE {
        None
    } else {
        match mem.read(chain[1].addr, 16) {
            None => None,
            Some(b) => Some((spec_u64_at(b, 0) * SECTOR_SIZE, spec_u32_at(b, 8) * SECTOR_SIZE)),
        }
    }
}

/// What carrying out the request of a chain leaves behind.
///
/// A read fills the data buffers from the disk, a write stores them on the disk; both
/// start at the sector that the header names. A flush changes nothing. A request for
/// the identifier writes `id` into the first data buffer. A request to fill sectors
/// with zeroes does so; one to discard sectors leaves them as they are. A request of
/// any other type is not supported. A request whose sectors do not lie on the disk,
/// whose buffers are not as they should be, or whose transfer fails, ends with an I/O
/// error; what was moved before the failure stays moved.
///
/// `written` counts the bytes that the device has put into the data buffers of the
/// guest, as the used ring wants them counted: those of a read and of the identifier.
/// A write moves bytes from the guest to the disk and puts none into guest memory, so
/// that its chain is given back with the status byte alone, with length 1.
pub open spec fn spec_execute(
    image: Seq<u8>,
    mem: GuestRamView,
    chain: Seq<Descriptor>,
    header: RequestHeader,
    id: Seq<u8>,
) -> Outcome {
    let segments = (chain.len() - 2) as nat;
    if header.request_type == VIRTIO_BLK_T_IN {
        if header.sector * SECTOR_SIZE > u64::MAX {
            Outcome { image, mem, status: VIRTIO_BLK_S_IOERR, written: 0 }
        } else {
            let t = spec_transfer_in(
                image,
                mem,
                chain,
                (header.sector * SECTOR_SIZE) as u64,
                segments,
            );
            Outcome {
                image: t.image,
                mem: t.mem,
                status: if t.ok {
                    VIRTIO_BLK_S_OK
                } else {
                    VIRTIO_BLK_S_IOERR
                },
                written: t.bytes,
            }
        }
    } else if header.request_type == VIRTIO_BLK_T_OUT {
        if header.sector * SECTOR_SIZE > u64::MAX {
            Outcome { image, mem, status: VIRTIO_BLK_S_IOERR, written: 0 }
        } else {
            let t = spec_transfer_out(
                image,
                mem,
                chain,
                (header.sector * SECTOR_SIZE) as u64,
                segments,
            );
            Outcome {
                image: t.image,
                mem: t.mem,
                status: if t.ok {
                    VIRTIO_BLK_S_OK
                } else {
                    VIRTIO_BLK_S_IOERR
                },
                written: 0,
            }
        }
    } else if header.request_type == VIRTIO_BLK_T_FLUSH {
        Outcome { image, mem, status: VIRTIO_BLK_S_OK, written: 0 }
    } else if header.request_type == VIRTIO_BLK_T_GET_ID {
        if chain.len() < 3 || !chain[1].spec_is_write_only() || chain[1].len < id.len()
            || !mem.in_dram(chain[1].addr, id.len() as int) {
            Outcome { image, mem, status: VIRTIO_BLK_S_IOERR, written: 0 }
        } else {
            Outcome {
                image,
                mem: mem.write(chain[1].addr, id),
                status: VIRTIO_BLK_S_OK,
                written: id.len() as int,
            }
        }
    } else if header.request_type == VIRTIO_BLK_T_DISCARD || header.request_type
        == VIRTIO_BLK_T_WRITE_ZEROES {
        match spec_named_range(chain, mem) {
            None => Outcome { image, mem, status: VIRTIO_BLK_S_IOERR, written: 0 },
            Some((start, len)) => if start + len > image.len() {
                Outcome { image, mem, status: VIRTIO_BLK_S_IOERR, written: 0 }
            } else if header.request_type == VIRTIO_BLK_T_WRITE_ZEROES {
                Outcome {
                    image: spec_image_after(image, start, Seq::new(len as nat, |k: int| 0u8)),
                    mem,
                    status: VIRTIO_BLK_S_OK,
                    written: 0,
                }
            } else {
                Outcome { image, mem, status: VIRTIO_BLK_S_OK, written: 0 }
            },
        }
    } else {
        Outcome { image, mem, status: VIRTIO_BLK_S_UNSUPP, written: 0 }
    }
}

/// What handling a chain leaves behind: the disk image, guest memory, and the number
/// of bytes that the chain is given back with. A chain that holds no request is given
/// back with 0 bytes and nothing changes. Else the request is carried out, the status
/// byte is written, and the chain is given back with the bytes written into the data
/// buffers of the guest plus one for the status byte: a read of 512 bytes with 513, a
/// write of any length with 1.
pub open spec fn spec_handle_chain(
    image: Seq<u8>,
    mem: GuestRamView,
    chain: Seq<Descriptor>,
    id: Seq<u8>,
) -> (Seq<u8>, GuestRamView, u32) {
    match spec_parse_request(chain, mem) {
        Err(_) => (image, mem, 0u32),
        Ok(header) => {
            let out = spec_execute(image, mem, chain, header, id);
            (out.image, out.mem.write(header.status_addr, seq![out.status]), (out.written + 1) as u32)
        },
    }
}

/// Reads the header of the request that a chain holds.
pub fn parse_request(chain: &DescriptorChain, mem: &GuestRam) -> (r: Result<
    RequestHeader,
    BlockError,
>)
    ensures
        r == spec_parse_request(chain.descriptors@, mem@),
{
    let n = chain.descriptors.len();
    if n < 2 {
        return Err(BlockError::DescriptorChainTooShort);
    }
    let first = chain.descriptors[0];
    let last = chain.descriptors[n - 1];
    if first.is_write_only() {
        return Err(BlockError::UnexpectedWriteOnlyDescriptor);
    }
    if !last.is_write_only() {
        return Err(BlockError::UnexpectedReadOnlyDescriptor);
    }
    if first.len < REQUEST_HEADER_SIZE || last.len < 1 {
        return Err(BlockError::DescriptorLengthTooSmall);
    }
    match mem.read(first.addr, 16) {
        None => Err(BlockError::GuestMemory),
        Some(b) => Ok(
            RequestHeader {
                request_type: read_u32(b.as_slice(), 0),
                sector: read_u64(b.as_slice(), 8),
                status_addr: last.addr,
            },
        ),
    }
}

/// Fills the data buffers of a chain from the disk.
fn transfer_in(disk: &mut SyncFileEngine, mem: &mut GuestRam, chain: &DescriptorChain, offset: u64) -> (r:
    (u32, bool))
    requires
        chain.descriptors@.len() >= 2,
    ensures
        ({
            let t = spec_transfer_in(
                old(disk)@,
                old(mem)@,
                chain.descriptors@,
                offset,
                (chain.descriptors@.len() - 2) as nat,
            );
            final(disk)@ == t.image && final(mem)@ == t.mem && r.0 == t.bytes && r.1 == t.ok
        }),
{
    let segments: usize = chain.descriptors.len() - 2;
    let mut bytes: u32 = 0;
    let mut i: usize = 0;
    while i < segments
        invariant
            i <= segments,
            segments == chain.descriptors@.len() - 2,
            ({
                let t = spec_transfer_in(old(disk)@, old(mem)@, chain.descriptors@, offset, i as nat);
                disk@ == t.image && mem@ == t.mem && bytes == t.bytes && t.ok
            }),
        decreases segments - i,
    {
        let d = chain.descriptors[i + 1];
        proof {
            lemma_transfer_in_failed_stays(
                old(disk)@,
                old(mem)@,
                chain.descriptors@,
                offset,
                (i + 1) as nat,
                segments as nat,
            );
        }
        if !d.is_write_only() || offset > u64::MAX - bytes as u64 || offset + bytes as u64
            > u64::MAX - d.len as u64 || bytes > u32::MAX - 1 || d.len > u32::MAX - 1 - bytes {
            return (bytes, false);
        }
        match disk.read(offset + bytes as u64, mem, d.addr, d.len) {
            Ok(_) => {
                bytes = bytes + d.len;
            },
            Err(_) => {
                return (bytes, false);
            },
        }
        i = i + 1;
    }
    (bytes, true)
}

/// Writes the data buffers of a chain to the disk.
fn transfer_out(disk: &mut SyncFileEngine, mem: &GuestRam, chain: &DescriptorChain, offset: u64) -> (ok:
    bool)
    requires
        chain.descriptors@.len() >= 2,
    ensures
        ({
            let t = spec_transfer_out(
                old(disk)@,
                mem@,
                chain.descriptors@,
                offset,
                (chain.descriptors@.len() - 2) as nat,
            );
            final(disk)@ == t.image && mem@ == t.mem && ok == t.ok
        }),
{
    let segments: usize = chain.descriptors.len() - 2;
    let mut bytes: u64 = 0;
    let mut i: usize = 0;
    while i < segments
        invariant
            i <= segments,
            segments == chain.descriptors@.len() - 2,
            ({
                let t = spec_transfer_out(old(disk)@, mem@, chain.descriptors@, offset, i as nat);
                disk@ == t.image && mem@ == t.mem && bytes == t.bytes && t.ok && offset + bytes
                    <= u64::MAX
            }),
        decreases segments - i,
    {
        let d = chain.descriptors[i + 1];
        proof {
            lemma_transfer_out_failed_stays(
                old(disk)@,
                mem@,
                chain.descriptors@,
                offset,
                (i + 1) as nat,
                segments as nat,
            );
        }
        if d.is_write_only() || offset + bytes > u64::MAX - d.len as u64 {
            return false;
        }
        match disk.write(offset + bytes, mem, d.addr, d.len) {
            Ok(_) => {
                bytes = bytes + d.len as u64;
            },
            Err(_) => {
                return false;
            },
        }
        i = i + 1;
    }
    true
}

/// A transfer from the disk that has failed stays as it is.
pub proof fn lemma_transfer_in_failed_stays(
    image: Seq<u8>,
    mem: GuestRamView,
    chain: Seq<Descriptor>,
    offset: u64,
    n: nat,
    m: nat,
)
    requires
        n <= m,
    ensures
        !spec_transfer_in(image, mem, chain, offset, n).ok ==> spec_transfer_in(
            image,
            mem,
            chain,
            offset,
            m,
        ) == spec_transfer_in(image, mem, chain, offset, n),
    decreases m,
{
    if n < m {
        lemma_transfer_in_failed_stays(image, mem, chain, offset, n, (m - 1) as nat);
    }
}

/// A transfer to the disk that has failed stays as it is.
pub proof fn lemma_transfer_out_failed_stays(
    image: Seq<u8>,
    mem: GuestRamView,
    chain: Seq<Descriptor>,
    offset: u64,
    n: nat,
    m: nat,
)
    requires
        n <= m,
    ensures
        !spec_transfer_out(image, mem, chain, offset, n).ok ==> spec_transfer_out(
            image,
            mem,
            chain,
            offset,
            m,
        ) == spec_transfer_out(image, mem, chain, offset, n),
    decreases m,
{
    if n < m {
        lemma_transfer_out_failed_stays(image, mem, chain, offset, n, (m - 1) as nat);
    }
}

/// Handles one chain: carries out the request it holds and writes the status byte.
/// Gives the number of bytes that the chain is to be given back with.
pub fn handle_chain(
    disk: &mut SyncFileEngine,
    mem: &mut GuestRam,
    chain: &DescriptorChain,
    id: &[u8],
) -> (used_len: u32)
    requires
        id@.len() == VIRTIO_BLK_ID_BYTES,
    ensures
        (final(disk)@, final(mem)@, used_len) == spec_handle_chain(
            old(disk)@,
            old(mem)@,
            chain.descriptors@,
            id@,
        ),
{
    let header = match parse_request(chain, mem) {
        Ok(header) => header,
        Err(_) => {
            return 0;
        },
    };
    let mut status: u8 = VIRTIO_BLK_S_OK;
    let mut written: u32 = 0;
    if header.request_type == VIRTIO_BLK_T_IN {
        if header.sector > u64::MAX / SECTOR_SIZE {
            status = VIRTIO_BLK_S_IOERR;
        } else {
            let (bytes, ok) = transfer_in(disk, mem, chain, header.sector * SECTOR_SIZE);
            written = bytes;
            if !ok {
                status = VIRTIO_BLK_S_IOERR;
            }
        }
    } else if header.request_type == VIRTIO_BLK_T_OUT {
        if header.sector > u64::MAX / SECTOR_SIZE {
            status = VIRTIO_BLK_S_IOERR;
        } else {
            let ok = transfer_out(disk, mem, chain, header.sector * SECTOR_SIZE);
            if !ok {
                status = VIRTIO_BLK_S_IOERR;
            }
        }
    } else if header.request_type == VIRTIO_BLK_T_FLUSH {
        let _ = disk.flush();
    } else if header.request_type == VIRTIO_BLK_T_GET_ID {
        let fits = chain.descriptors.len() >= 3 && chain.descriptors[1].is_write_only()
            && chain.descriptors[1].len as usize >= VIRTIO_BLK_ID_BYTES;
        if fits && mem.write(chain.descriptors[1].addr, id) {
            written = VIRTIO_BLK_ID_BYTES as u32;
        } else {
            status = VIRTIO_BLK_S_IOERR;
        }
    } else if header.request_type == VIRTIO_BLK_T_DISCARD || header.request_type
        == VIRTIO_BLK_T_WRITE_ZEROES {
        status = VIRTIO_BLK_S_IOERR;
        if chain.descriptors.len() >= 3 && !chain.descriptors[1].is_write_only()
            && chain.descriptors[1].len >= DISCARD_SEGMENT_SIZE {
            match mem.read(chain.descriptors[1].addr, 16) {
                None => {},
                Some(b) => {
                    let sector = read_u64(b.as_slice(), 0);
                    let sectors = read_u32(b.as_slice(), 8);
                    let size: u64 = disk.len() as u64;
                    let len: u64 = sectors as u64 * SECTOR_SIZE;
                    if sector <= u64::MAX / SECTOR_SIZE && sector * SECTOR_SIZE <= size && len
                        <= size - sector * SECTOR_SIZE {
                        if header.request_type == VIRTIO_BLK_T_WRITE_ZEROES {
                            let _ = disk.write_zeroes(sector * SECTOR_SIZE, len);
                        }
                        status = VIRTIO_BLK_S_OK;
                    }
                },
            }
        }
    } else {
        status = VIRTIO_BLK_S_UNSUPP;
    }
    let mut status_byte: Vec<u8> = Vec::new();
    status_byte.push(status);
    proof {
        assert(status_byte@ =~= seq![status]);
        lemma_written_fits(old(disk)@, old(mem)@, chain.descriptors@, header, id@);
    }
    mem.write(header.status_addr, status_byte.as_slice());
    written + 1
}

/// The bytes written by a request and the status byte together fit in 32 bits.
pub proof fn lemma_written_fits(
    image: Seq<u8>,
    mem: GuestRamView,
    chain: Seq<Descriptor>,
    header: RequestHeader,
    id: Seq<u8>,
)
    requires
        chain.len() >= 2,
        id.len() == VIRTIO_BLK_ID_BYTES,
    ensures
        0 <= spec_execute(image, mem, chain, header, id).written < u32::MAX,
{
    if header.request_type == VIRTIO_BLK_T_IN && header.sector * SECTOR_SIZE <= u64::MAX {
        lemma_transfer_in_bytes(
            image,
            mem,
            chain,
            (header.sector * SECTOR_SIZE) as u64,
            (chain.len() - 2) as nat,
        );
    }
}

/// A transfer from the disk moves fewer bytes than 32 bits can count.
pub proof fn lemma_transfer_in_bytes(
    image: Seq<u8>,
    mem: GuestRamView,
    chain: Seq<Descriptor>,
    offset: u64,
    n: nat,
)
    ensures
        0 <= spec_transfer_in(image, mem, chain, offset, n).bytes < u32::MAX,
    decreases n,
{
    if n > 0 {
        lemma_transfer_in_bytes(image, mem, chain, offset, (n - 1) as nat);
    }
}

/// The number of bytes in the data buffers 1 to `n` of a chain.
pub open spec fn spec_data_len(chain: Seq<Descriptor>, n: nat) -> int
    decreases n,
{
    if n == 0 {
        0
    } else {
        spec_data_len(chain, (n - 1) as nat) + chain[n as int].len
    }
}

/// The data buffers of a chain hold fewer bytes than 64 bits can count.
pub proof fn lemma_data_len_bound(chain: Seq<Descriptor>, n: nat)
    ensures
        0 <= spec_data_len(chain, n) <= n * u32::MAX,
    decreases n,
{
    if n > 0 {
        lemma_data_len_bound(chain, (n - 1) as nat);
        assert((n - 1) * u32::MAX + u32::MAX == n * u32::MAX) by (nonlinear_arith);
    }
}

/// What a request costs in bytes: the bytes in its data buffers, which lie between
/// the header and the status byte.
pub open spec fn spec_cost(chain: Seq<Descriptor>) -> u64 {
    if chain.len() < 2 {
        0
    } else {
        spec_data_len(chain, (chain.len() - 2) as nat) as u64
    }
}

/// Counts the bytes in the data buffers of a chain.
pub fn cost(chain: &DescriptorChain) -> (bytes: u64)
    requires
        chain.descriptors@.len() <= 65536,
    ensures
        bytes == spec_cost(chain.descriptors@),
{
    let n = chain.descriptors.len();
    if n < 2 {
        return 0;
    }
    let mut bytes: u64 = 0;
    let mut i: usize = 0;
    while i < n - 2
        invariant
            i <= n - 2,
            n == chain.descriptors@.len(),
            n <= 65536,
            bytes == spec_data_len(chain.descriptors@, i as nat),
        decreases n - 2 - i,
    {
        proof {
            lemma_data_len_bound(chain.descriptors@, i as nat);
            assert(i * u32::MAX <= 65536 * u32::MAX) by (nonlinear_arith)
                requires
                    i <= 65536,
            ;
        }
        bytes = bytes + chain.descriptors[i + 1].len as u64;
        i = i + 1;
    }
    proof {
        lemma_data_len_bound(chain.descriptors@, (n - 2) as nat);
        assert((n - 2) * u32::MAX <= 65536 * u32::MAX) by (nonlinear_arith)
            requires
                n <= 65536,
        ;
    }
    bytes
}

/// The block device as a mathematical value.
pub struct VirtioBlockView {
    /// The queue of the device.
    pub queue: Queue,
    /// The disk image.
    pub image: Seq<u8>,
    /// The identifier of the disk.
    pub id: Seq<u8>,
    /// The limiter of the device.
    pub rate_limiter: RateLimiter,
    /// Whether the driver has started the device.
    pub device_state: DeviceState,
}

/// A block device with one queue.
#[derive(Clone, Debug)]
pub struct VirtioBlock {
    queue: Queue,
    disk: SyncFileEngine,
    id: Vec<u8>,
    rate_limiter: RateLimiter,
    device_state: DeviceState,
}

impl View for VirtioBlock {
    type V = VirtioBlockView;

    closed spec fn view(&self) -> VirtioBlockView {
        VirtioBlockView {
            queue: self.queue,
            image: self.disk@,
            id: self.id@,
            rate_limiter: self.rate_limiter,
            device_state: self.device_state,
        }
    }
}

/// What a device does when its queue is notified.
#[derive(Copy, Clone, Debug, PartialEq, Eq, Structural)]
pub enum QueueEvent {
    /// The device is not activated and has not looked at the queue.
    Ignored,
    /// The driver had made nothing available.
    Idle,
    /// The rate limiter holds the request back; the chain stays in the queue.
    Throttled,
    /// The device has handled a chain and given it back with this many bytes.
    Handled(u32),
    /// The chain or the queue was malformed.
    Failed(QueueError),
}

impl VirtioBlockView {
    /// The device after the timer of its limiter has fired.
    pub open spec fn timer_fired(self) -> VirtioBlockView {
        VirtioBlockView {
            rate_limiter: RateLimiter { timer_active: false, ..self.rate_limiter },
            ..self
        }
    }

    /// The device, guest memory and what happened after the device has looked at its
    /// queue once at time `now`. A device that is not activated does nothing. Else it
    /// looks for the next chain. If the limiter holds the request back, the chain
    /// stays in the queue. Else the device takes the chain, handles it and gives it
    /// back.
    #[verifier::opaque]
    pub open spec fn process_one(self, mem: GuestRamView, now: u64) -> (
        VirtioBlockView,
        GuestRamView,
        QueueEvent,
    ) {
        if self.device_state != DeviceState::Activated {
            (self, mem, QueueEvent::Ignored)
        } else {
            match self.queue.spec_pop(mem) {
                Taken::Unreadable(e) => (self, mem, QueueEvent::Failed(e)),
                Taken::Nothing => (self, mem, QueueEvent::Idle),
                Taken::Malformed(e) => (
                    VirtioBlockView { queue: self.queue.spec_taken(), ..self },
                    mem,
                    QueueEvent::Failed(e),
                ),
                Taken::Chain(head, chain) => {
                    let taken = self.queue.spec_taken();
                    let rate_limiter = self.rate_limiter.spec_after_request(spec_cost(chain), now);
                    if !self.rate_limiter.spec_admits(spec_cost(chain), now) {
                        (VirtioBlockView { rate_limiter, ..self }, mem, QueueEvent::Throttled)
                    } else {
                        let (image, after, used_len) = spec_handle_chain(
                            self.image,
                            mem,
                            chain,
                            self.id,
                        );
                        if taken.spec_can_add_used(after) {
                            (
                                VirtioBlockView {
                                    queue: taken.spec_returned(),
                                    image,
                                    rate_limiter,
                                    ..self
                                },
                                taken.spec_mem_after_used(after, head, used_len),
                                QueueEvent::Handled(used_len),
                            )
                        } else {
                            (
                                VirtioBlockView { queue: taken, image, rate_limiter, ..self },
                                after,
                                QueueEvent::Failed(QueueError::QueueOutOfMemory),
                            )
                        }
                    }
                },
            }
        }
    }
}

impl VirtioBlock {
    /// The identifier of a disk with the given name: the first 20 bytes of the name,
    /// filled up with zeroes.
    pub open spec fn spec_id(name: Seq<u8>) -> Seq<u8> {
        Seq::new(
            VIRTIO_BLK_ID_BYTES as nat,
            |k: int|
                if k < name.len() {
                    name[k]
                } else {
                    0u8
                },
        )
    }

    /// True if the device is in order: its identifier has 20 bytes and its limiter
    /// is in order.
    pub open spec fn wf(&self) -> bool {
        self@.id.len() == VIRTIO_BLK_ID_BYTES && self@.rate_limiter.wf()
    }

    /// A block device on the given disk image, with a queue that the driver has not
    /// set up. The device is not activated. Its identifier is made of `name`.
    pub fn new(disk: SyncFileEngine, rate_limiter: RateLimiter, name: &[u8]) -> (b: Self)
        ensures
            b@.image == disk@,
            b@.id == Self::spec_id(name@),
            b@.rate_limiter == rate_limiter,
            b@.device_state == DeviceState::Inactive,
            b@.queue == (Queue {
                size: 0,
                desc_table: 0,
                avail_ring: 0,
                used_ring: 0,
                next_avail: 0,
                next_used: 0,
            }),
    {
        let mut id: Vec<u8> = Vec::new();
        let mut k: usize = 0;
        while k < VIRTIO_BLK_ID_BYTES
            invariant
                k <= VIRTIO_BLK_ID_BYTES,
                id@.len() == k,
                forall|j: int|
                    0 <= j < k ==> id@[j] == (if j < name@.len() {
                        name@[j]
                    } else {
                        0u8
                    }),
            decreases VIRTIO_BLK_ID_BYTES - k,
        {
            id.push(
                if k < name.len() {
                    name[k]
                } else {
                    0
                },
            );
            k = k + 1;
        }
        proof {
            assert(id@ =~= Self::spec_id(name@));
        }
        VirtioBlock {
            queue: Queue {
                size: 0,
                desc_table: 0,
                avail_ring: 0,
                used_ring: 0,
                next_avail: 0,
                next_used: 0,
            },
            disk,
            id,
            rate_limiter,
            device_state: DeviceState::Inactive,
        }
    }

    /// The limiter of the device.
    pub fn rate_limiter(&self) -> (l: &RateLimiter)
        ensures
            *l == self@.rate_limiter,
    {
        &self.rate_limiter
    }

    /// Takes note that the timer of the limiter has fired: the device waits no
    /// longer and goes on with its queue, as `process_queue_event` does. Says how
    /// many chains were given back. A device that is not activated does nothing.
    pub fn process_rate_limiter_event(&mut self, mem: &mut GuestRam, now: u64) -> (handled: u32)
        requires
            old(self).wf(),
        ensures
            final(self).wf(),
            old(self)@.device_state != DeviceState::Activated ==> handled == 0 && final(self)@
                == old(self)@ && final(mem)@ == old(mem)@,
            old(self)@.device_state == DeviceState::Activated ==> (
                final(self)@,
                final(mem)@,
                handled as nat,
            ) == old(self)@.timer_fired().process_queue(
                old(mem)@,
                now,
                old(self)@.queue.size as nat,
            ),
    {
        if !self.device_state.is_activated() {
            return 0;
        }
        self.rate_limiter.event_handler();
        self.process_queue_event(mem, now)
    }

    /// The events that the device waits for: the start by the driver as long as it
    /// is not activated; then its queue and the timer of its limiter.
    pub fn register(&self) -> (sources: Vec<EventSource>)
        ensures
            sources@ == (if self@.device_state != DeviceState::Activated {
                seq![EventSource::Activate]
            } else {
                seq![EventSource::Queue(0), EventSource::RateLimiter(0)]
            }),
    {
        let mut sources: Vec<EventSource> = Vec::new();
        if !self.device_state.is_activated() {
            sources.push(EventSource::Activate);
            proof {
                assert(sources@ =~= seq![EventSource::Activate]);
            }
        } else {
            sources.push(EventSource::Queue(0));
            sources.push(EventSource::RateLimiter(0));
            proof {
                assert(sources@ =~= seq![EventSource::Queue(0), EventSource::RateLimiter(0)]);
            }
        }
        sources
    }

    /// Sets the queue of the device.
    pub fn set_queue(&mut self, queue: Queue)
        ensures
            final(self)@ == (VirtioBlockView { queue, ..old(self)@ }),
    {
        self.queue = queue;
    }

    /// The queue of the device.
    pub fn queue(&self) -> (q: Queue)
        ensures
            q == self@.queue,
    {
        self.queue
    }

    /// The disk of the device.
    pub fn disk(&self) -> (d: &SyncFileEngine)
        ensures
            d@ == self@.image,
    {
        &self.disk
    }

    /// Starts the device: from now on it looks at its queue.
    pub fn activate(&mut self)
        ensures
            final(self)@ == (VirtioBlockView {
                device_state: DeviceState::Activated,
                ..old(self)@
            }),
    {
        self.device_state = DeviceState::Activated;
    }

    /// True once the device was started.
    pub fn is_activated(&self) -> (b: bool)
        ensures
            b == (self@.device_state == DeviceState::Activated),
    {
        self.device_state.is_activated()
    }

    /// Looks at the queue once: takes the next chain, if the driver has made one
    /// available, handles it and gives it back. A device that is not activated leaves
    /// its queue and guest memory alone.
    pub fn process_one(&mut self, mem: &mut GuestRam, now: u64) -> (event: QueueEvent)
        requires
            old(self).wf(),
        ensures
            final(self).wf(),
            (final(self)@, final(mem)@, event) == old(self)@.process_one(old(mem)@, now),
    {
        proof {
            reveal(VirtioBlockView::process_one);
        }
        if !self.device_state.is_activated() {
            return QueueEvent::Ignored;
        }
        let mut queue = self.queue;
        let chain = match queue.pop(mem) {
            Err(e) => {
                self.queue = queue;
                return QueueEvent::Failed(e);
            },
            Ok(None) => {
                return QueueEvent::Idle;
            },
            Ok(Some(chain)) => chain,
        };
        proof {
            lemma_chain_len(self.queue, mem@, chain.head, self.queue.size as nat);
        }
        let bytes = cost(&chain);
        if !self.rate_limiter.consume_request(bytes, now) {
            return QueueEvent::Throttled;
        }
        self.queue = queue;
        let used_len = handle_chain(&mut self.disk, mem, &chain, self.id.as_slice());
        match self.queue.add_used(mem, chain.head, used_len) {
            Ok(()) => QueueEvent::Handled(used_len),
            Err(e) => QueueEvent::Failed(e),
        }
    }

    /// Handles a notification of the queue: looks at the queue until the driver has
    /// nothing more available, a chain is malformed, or as many chains were handled as
    /// the queue has descriptors. Says how many chains were given back.
    ///
    /// A device that is not activated gives nothing back and leaves its queue and
    /// guest memory as they are.
    pub fn process_queue_event(&mut self, mem: &mut GuestRam, now: u64) -> (handled: u32)
        requires
            old(self).wf(),
        ensures
            final(self).wf(),
            (final(self)@, final(mem)@, handled as nat) == old(self)@.process_queue(
                old(mem)@,
                now,
                old(self)@.queue.size as nat,
            ),
            old(self)@.device_state != DeviceState::Activated ==> handled == 0 && final(self)@
                == old(self)@ && final(mem)@ == old(mem)@,
            handled <= old(self)@.queue.size,
            final(self)@.queue.next_used == (old(self)@.queue.next_used + handled) % 65536,
    {
        let mut handled: u32 = 0;
        let budget: u32 = self.queue.size as u32;
        loop
            invariant
                handled <= budget,
                budget == old(self)@.queue.size,
                self.wf(),
                self@.queue.next_used == (old(self)@.queue.next_used + handled) % 65536,
                old(self)@.device_state != DeviceState::Activated ==> self@ == old(self)@ && mem@
                    == old(mem)@ && handled == 0,
                old(self)@.process_queue(old(mem)@, now, budget as nat) == ({
                    let rest = self@.process_queue(mem@, now, (budget - handled) as nat);
                    (rest.0, rest.1, (rest.2 + handled) as nat)
                }),
            decreases budget - handled,
        {
            if handled >= budget {
                return handled;
            }
            proof {
                lemma_process_one_keeps(self@, mem@, now);
            }
            match self.process_one(mem, now) {
                QueueEvent::Handled(_) => {
                    handled = handled + 1;
                },
                _ => {
                    return handled;
                },
            }
        }
    }
}

impl VirtioBlockView {
    /// The device, guest memory and the number of chains given back after the device
    /// has looked at its queue until nothing was left to handle, but at most `budget`
    /// times.
    pub open spec fn process_queue(self, mem: GuestRamView, now: u64, budget: nat) -> (
        VirtioBlockView,
        GuestRamView,
        nat,
    )
        decreases budget,
    {
        if budget == 0 {
            (self, mem, 0)
        } else {
            let step = self.process_one(mem, now);
            if step.2 is Handled {
                let rest = step.0.process_queue(step.1, now, (budget - 1) as nat);
                (rest.0, rest.1, (rest.2 + 1) as nat)
            } else {
                (step.0, step.1, 0)
            }
        }
    }
}

/// Looking at the queue once keeps the size of the queue and the state of the device;
/// it moves the used index on by one if a chain was handled, and not at all if none
/// was. A device that is not activated does nothing at all.
pub proof fn lemma_process_one_keeps(block: VirtioBlockView, mem: GuestRamView, now: u64)
    ensures
        block.process_one(mem, now).0.queue.size == block.queue.size,
        block.process_one(mem, now).0.device_state == block.device_state,
        block.process_one(mem, now).2 is Handled ==> block.process_one(mem, now).0.queue.next_used
            == (block.queue.next_used + 1) % 65536,
        !(block.process_one(mem, now).2 is Handled) ==> block.process_one(
            mem,
            now,
        ).0.queue.next_used == block.queue.next_used,
        block.device_state != DeviceState::Activated ==> block.process_one(mem, now) == (
            block,
            mem,
            QueueEvent::Ignored,
        ),
{
    reveal(VirtioBlockView::process_one);
}

/// A device that is not activated does not move the used index of its queue, however
/// often the queue is notified.
pub proof fn lemma_inactive_device_ignores_queue(
    block: VirtioBlockView,
    mem: GuestRamView,
    now: u64,
    budget: nat,
)
    requires
        block.device_state != DeviceState::Activated,
    ensures
        block.process_queue(mem, now, budget) == (block, mem, 0nat),
{
    lemma_process_one_keeps(block, mem, now);
}

/// A chain has at most as many descriptors as it was given fuel.
pub proof fn lemma_chain_len(q: Queue, mem: GuestRamView, index: u16, fuel: nat)
    ensures
        q.spec_chain(mem, index, fuel) matches Ok(chain) ==> 1 <= chain.len() <= fuel,
    decreases fuel,
{
    if fuel > 0 {
        match q.spec_descriptor(mem, index) {
            Ok(d) => {
                lemma_chain_len(q, mem, d.next, (fuel - 1) as nat);
            },
            Err(_) => {},
        }
    }
}

/// Filling the data buffers of a chain from the disk changes guest memory only in
/// buffers of the chain that are marked for writing.
pub proof fn lemma_transfer_in_stays_in_chain(
    image: Seq<u8>,
    mem: GuestRamView,
    chain: Seq<Descriptor>,
    offset: u64,
    n: nat,
)
    requires
        n < chain.len(),
    ensures
        spec_same_outside_chain(mem, spec_transfer_in(image, mem, chain, offset, n).mem, chain),
    decreases n,
{
    if n > 0 {
        lemma_transfer_in_stays_in_chain(image, mem, chain, offset, (n - 1) as nat);
        let before = spec_transfer_in(image, mem, chain, offset, (n - 1) as nat);
        let d = chain[n as int];
        if before.ok && d.spec_is_write_only() && offset + before.bytes + d.len <= u64::MAX
            && before.bytes + d.len + 1 <= u32::MAX {
            let at = (offset + before.bytes) as u64;
            if spec_engine_read(before.image, before.mem, at, d.addr, d.len) is Ok {
                lemma_write_in_chain(
                    mem,
                    before.mem,
                    chain,
                    n as int,
                    d.addr,
                    before.image.subrange(at as int, at + d.len),
                );
            }
        }
    }
}

/// Writing the data buffers of a chain to the disk leaves guest memory as it is.
pub proof fn lemma_transfer_out_keeps_memory(
    image: Seq<u8>,
    mem: GuestRamView,
    chain: Seq<Descriptor>,
    offset: u64,
    n: nat,
)
    ensures
        spec_transfer_out(image, mem, chain, offset, n).mem == mem,
    decreases n,
{
    if n > 0 {
        lemma_transfer_out_keeps_memory(image, mem, chain, offset, (n - 1) as nat);
    }
}

/// Handling a chain changes guest memory only in buffers of the chain that the driver
/// has marked for writing: whatever request the chain holds, every byte outside these
/// buffers is after the request what it was before.
pub proof fn lemma_handle_chain_stays_in_chain(
    image: Seq<u8>,
    mem: GuestRamView,
    chain: Seq<Descriptor>,
    id: Seq<u8>,
)
    ensures
        spec_same_outside_chain(mem, spec_handle_chain(image, mem, chain, id).1, chain),
{
    match spec_parse_request(chain, mem) {
        Err(_) => {},
        Ok(header) => {
            let out = spec_execute(image, mem, chain, header, id);
            let segments = (chain.len() - 2) as nat;
            if header.request_type == VIRTIO_BLK_T_GET_ID && chain.len() >= 3
                && chain[1].spec_is_write_only() && chain[1].len >= id.len() {
                lemma_write_in_chain(mem, mem, chain, 1, chain[1].addr, id);
            }
            if header.sector * SECTOR_SIZE <= u64::MAX {
                lemma_transfer_in_stays_in_chain(
                    image,
                    mem,
                    chain,
                    (header.sector * SECTOR_SIZE) as u64,
                    segments,
                );
                lemma_transfer_out_keeps_memory(
                    image,
                    mem,
                    chain,
                    (header.sector * SECTOR_SIZE) as u64,
                    segments,
                );
            }
            assert(spec_same_outside_chain(mem, out.mem, chain));
            lemma_write_in_chain(
                mem,
                out.mem,
                chain,
                chain.len() - 1,
                header.status_addr,
                seq![out.status],
            );
        },
    }
}

/// Looking at the queue once changes guest memory only where the device may write:
/// in buffers of the chain it has taken that the driver has marked for writing, and
/// in the used ring. A device that takes no chain changes nothing.
pub proof fn lemma_process_one_stays_in_chain(block: VirtioBlockView, mem: GuestRamView, now: u64)
    ensures
        block.process_one(mem, now).1 == mem || (block.queue.spec_pop(mem) is Chain
            && spec_same_outside_chain_and_ring(
            mem,
            block.process_one(mem, now).1,
            block.queue.spec_pop(mem)->Chain_1,
            block.queue,
        )),
{
    reveal(VirtioBlockView::process_one);
    if block.device_state == DeviceState::Activated {
        match block.queue.spec_pop(mem) {
            Taken::Chain(head, chain) => {
                let taken = block.queue.spec_taken();
                let (image, after, used_len) = spec_handle_chain(block.image, mem, chain, block.id);
                lemma_handle_chain_stays_in_chain(block.image, mem, chain, block.id);
                if block.rate_limiter.spec_admits(spec_cost(chain), now) {
                    if taken.spec_can_add_used(after) {
                        lemma_returned_chain(mem, after, chain, taken, head, used_len);
                    }
                    assert(spec_same_outside_chain_and_ring(
                        mem,
                        block.process_one(mem, now).1,
                        chain,
                        block.queue,
                    ));
                }
            },
            _ => {},
        }
    }
}

} // verus!
