//! The disk image of a block device, held in memory in full.
use vstd::prelude::*;
use crate::guest_ram::GuestRam;
use crate::guest_ram::GuestRamView;

verus! {

/// Errors of moving data between the disk image and guest memory.
#[derive(Copy, Clone, Debug, PartialEq, Eq, Structural)]
pub enum SyncIoError {
    /// The image could not be flushed; the host gave this error number.
    Flush(i32),
    /// The position in the image could not be set.
    Seek(i32),
    /// The image could not be synchronised.
    SyncAll(i32),
    /// The bytes do not lie in ordinary guest memory.
    Transfer,
    /// A read reaches beyond the end of the image.
    UnexpectedEof,
    /// A write reaches beyond the end of the image.
    WriteZero,
}

/// A disk image that is read and written in place.
#[derive(Clone, Debug)]
pub struct SyncFileEngine {
    file_mem: Vec<u8>,
}

impl View for SyncFileEngine {
    type V = Seq<u8>;

    closed spec fn view(&self) -> Seq<u8> {
        self.file_mem@
    }
}

/// What a read of `count` bytes at `offset` of the image into guest memory at `addr`
/// gives: guest memory with the bytes of the image, or the reason why nothing was
/// read.
pub open spec fn spec_engine_read(
    image: Seq<u8>,
    mem: GuestRamView,
    offset: u64,
    addr: u64,
    count: u32,
) -> Result<GuestRamView, SyncIoError> {
    if offset + count > image.len() {
        Err(SyncIoError::UnexpectedEof)
    } else if !mem.in_dram(addr, count as int) {
        Err(SyncIoError::Transfer)
    } else {
        Ok(mem.write(addr, image.subrange(offset as int, offset + count)))
    }
}

/// The image after `data` was written at `at`.
pub open spec fn spec_image_after(image: Seq<u8>, at: int, data: Seq<u8>) -> Seq<u8> {
    Seq::new(
        image.len(),
        |k: int|
            if at <= k < at + data.len() {
                data[k - at]
            } else {
                image[k]
            },
    )
}

/// What a write of `count` bytes of guest memory at `addr` to the image at `offset`
/// gives: the image with the bytes of the guest, or the reason why nothing was
/// written.
pub open spec fn spec_engine_write(
    image: Seq<u8>,
    mem: GuestRamView,
    offset: u64,
    addr: u64,
    count: u32,
) -> Result<Seq<u8>, SyncIoError> {
    if offset + count > image.len() {
        Err(SyncIoError::WriteZero)
    } else {
        match mem.read(addr, count as int) {
            None => Err(SyncIoError::Transfer),
            Some(data) => Ok(spec_image_after(image, offset as int, data)),
        }
    }
}

/// After `count` bytes were written to the image at `offset`, reading the same extent
/// gives the bytes that were written, into whatever guest memory and at whatever
/// address that can hold them.
pub proof fn lemma_read_after_write(
    image: Seq<u8>,
    mem: GuestRamView,
    offset: u64,
    addr: u64,
    count: u32,
    later: GuestRamView,
    into: u64,
)
    requires
        spec_engine_write(image, mem, offset, addr, count) is Ok,
        later.in_dram(into, count as int),
    ensures
        spec_engine_read(
            spec_engine_write(image, mem, offset, addr, count)->Ok_0,
            later,
            offset,
            into,
            count,
        ) == Ok::<GuestRamView, SyncIoError>(later.write(into, mem.read(addr, count as int)->Some_0)),
        spec_engine_write(image, mem, offset, addr, count)->Ok_0.len() == image.len(),
{
    let data = mem.read(addr, count as int)->Some_0;
    crate::guest_ram::lemma_region_of(mem.regions, addr, count as int, mem.regions.len());
    let after = spec_image_after(image, offset as int, data);
    assert(after.subrange(offset as int, offset + count) =~= data);
}

/// After `count` bytes were written to the image at `offset`, the extent holds the
/// bytes that were written, wherever a read of it may go; the image has the length
/// it had, and no byte outside the extent has changed.
pub proof fn lemma_extent_after_write(image: Seq<u8>, mem: GuestRamView, offset: u64, addr: u64, count: u32)
    requires
        spec_engine_write(image, mem, offset, addr, count) is Ok,
    ensures
        ({
            let after = spec_engine_write(image, mem, offset, addr, count)->Ok_0;
            &&& offset + count <= image.len()
            &&& after.len() == image.len()
            &&& after.subrange(offset as int, offset + count) == mem.read(addr, count as int)->Some_0
            &&& forall|k: int|
                0 <= k < image.len() && !(offset <= k < offset + count) ==> after[k] == image[k]
        }),
{
    let data = mem.read(addr, count as int)->Some_0;
    crate::guest_ram::lemma_region_of(mem.regions, addr, count as int, mem.regions.len());
    let after = spec_image_after(image, offset as int, data);
    assert(after.subrange(offset as int, offset + count) =~= data);
}

impl SyncFileEngine {
    /// An engine for an image with these bytes.
    pub fn from_file(file_mem: Vec<u8>) -> (engine: SyncFileEngine)
        ensures
            engine@ == file_mem@,
    {
        SyncFileEngine { file_mem }
    }

    /// Replaces the image.
    pub fn update_file(&mut self, file_mem: Vec<u8>)
        ensures
            final(self)@ == file_mem@,
    {
        self.file_mem = file_mem;
    }

    /// The size of the image in bytes.
    pub fn len(&self) -> (n: usize)
        ensures
            n == self@.len(),
    {
        self.file_mem.len()
    }

    /// The bytes of the image.
    pub fn bytes(&self) -> (b: &Vec<u8>)
        ensures
            b@ == self@,
    {
        &self.file_mem
    }

    /// Reads `count` bytes at `offset` of the image into guest memory at `addr`. All
    /// bytes are read or none; the image does not change.
    pub fn read(&mut self, offset: u64, mem: &mut GuestRam, addr: u64, count: u32) -> (r: Result<
        u32,
        SyncIoError,
    >)
        ensures
            final(self)@ == old(self)@,
            match spec_engine_read(old(self)@, old(mem)@, offset, addr, count) {
                Ok(after) => r == Ok::<u32, SyncIoError>(count) && final(mem)@ == after,
                Err(e) => r == Err::<u32, SyncIoError>(e) && final(mem)@ == old(mem)@,
            },
    {
        let size: usize = self.file_mem.len();
        if offset > size as u64 || count as u64 > size as u64 - offset {
            return Err(SyncIoError::UnexpectedEof);
        }
        if !mem.in_dram(addr, count as usize) {
            return Err(SyncIoError::Transfer);
        }
        let start: usize = offset as usize;
        let end: usize = start + count as usize;
        let data = vstd::slice::slice_subrange(self.file_mem.as_slice(), start, end);
        mem.write(addr, data);
        Ok(count)
    }

    /// Writes `count` bytes of guest memory at `addr` to the image at `offset`. All
    /// bytes are written or none.
    pub fn write(&mut self, offset: u64, mem: &GuestRam, addr: u64, count: u32) -> (r: Result<
        u32,
        SyncIoError,
    >)
        ensures
            match spec_engine_write(old(self)@, mem@, offset, addr, count) {
                Ok(after) => r == Ok::<u32, SyncIoError>(count) && final(self)@ == after,
                Err(e) => r == Err::<u32, SyncIoError>(e) && final(self)@ == old(self)@,
            },
    {
        let size: usize = self.file_mem.len();
        if offset > size as u64 || count as u64 > size as u64 - offset {
            return Err(SyncIoError::WriteZero);
        }
        let data = match mem.read(addr, count as usize) {
            Some(data) => data,
            None => {
                return Err(SyncIoError::Transfer);
            },
        };
        let start: usize = offset as usize;
        let len: usize = count as usize;
        let mut k: usize = 0;
        while k < len
            invariant
                k <= len,
                len == data@.len(),
                size == self.file_mem@.len(),
                self.file_mem@.len() == old(self).file_mem@.len(),
                start + len <= size,
                forall|j: int|
                    0 <= j < self.file_mem@.len() ==> self.file_mem@[j] == (if start <= j < start
                        + k {
                        data@[j - start]
                    } else {
                        old(self).file_mem@[j]
                    }),
            decreases len - k,
        {
            self.file_mem[start + k] = data[k];
            k = k + 1;
        }
        proof {
            assert(self.file_mem@ =~= spec_image_after(old(self)@, offset as int, data@));
        }
        Ok(count)
    }

    /// Fills `count` bytes of the image at `offset` with zeroes. All bytes are filled
    /// or none.
    pub fn write_zeroes(&mut self, offset: u64, count: u64) -> (r: Result<(), SyncIoError>)
        ensures
            offset + count <= old(self)@.len() ==> r is Ok && final(self)@ == spec_image_after(
                old(self)@,
                offset as int,
                Seq::new(count as nat, |k: int| 0u8),
            ),
            offset + count > old(self)@.len() ==> r == Err::<(), SyncIoError>(
                SyncIoError::WriteZero,
            ) && final(self)@ == old(self)@,
    {
        let size: usize = self.file_mem.len();
        if offset > size as u64 || count > size as u64 - offset {
            return Err(SyncIoError::WriteZero);
        }
        let start: usize = offset as usize;
        let len: usize = count as usize;
        let mut k: usize = 0;
        while k < len
            invariant
                k <= len,
                size == self.file_mem@.len(),
                self.file_mem@.len() == old(self).file_mem@.len(),
                start + len <= size,
                forall|j: int|
                    0 <= j < self.file_mem@.len() ==> self.file_mem@[j] == (if start <= j < start
                        + k {
                        0u8
                    } else {
                        old(self).file_mem@[j]
                    }),
            decreases len - k,
        {
            self.file_mem[start + k] = 0;
            k = k + 1;
        }
        proof {
            assert(self.file_mem@ =~= spec_image_after(
                old(self)@,
                offset as int,
                Seq::new(count as nat, |k: int| 0u8),
            ));
        }
        Ok(())
    }

    /// Flushes the image. Nothing of the image changes; carrying the bytes to the
    /// disk of the host is left to the caller.
    pub fn flush(&mut self) -> (r: Result<(), SyncIoError>)
        ensures
            r is Ok,
            final(self)@ == old(self)@,
    {
        Ok(())
    }
}

} // verus!
