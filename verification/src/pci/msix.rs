//! The MSI-X table and the pending bit array of a device as the guest sees them.
//!
//! The table has four 32-bit words for each vector: the low and the high half of the
//! message address, the message data and the vector control. The pending bit array has
//! one bit for each vector, in words of 64 bits. All words are little-endian.
use vstd::prelude::*;
use crate::wire::read_u32;
use crate::wire::spec_u32_at;
use crate::wire::spec_u32_bytes;
use crate::wire::write_u32;

verus! {

/// Size in bytes of one entry of the table.
pub const MSIX_TABLE_ENTRY_SIZE: u64 = 16;

/// Bit of the vector control word that masks the vector.
pub const MSIX_TABLE_ENTRY_MASK_BIT: u32 = 0x1;

/// Most vectors a table can have.
pub const MSIX_MAX_VECTORS: u16 = 2048;

/// The table and the pending bit array as a mathematical value.
pub struct MsixConfigView {
    /// The words of the table, four for each vector.
    pub table: Seq<u32>,
    /// The words of the pending bit array, two for each 64 vectors.
    pub pba: Seq<u32>,
}

/// What a read of `data.len()` bytes at `offset` of an array of words leaves in the
/// buffer. A read of a whole number of words at a multiple of four gives these words,
/// the low byte of each first; a read of eight bytes must start at a multiple of
/// eight. A read that is not aligned so gives zeroes. A read of no whole number of
/// words leaves the buffer as it was. A read beyond the end of the array gives all
/// ones.
pub open spec fn spec_read_words(words: Seq<u32>, offset: u64, data: Seq<u8>) -> Seq<u8> {
    let at = offset as int / 4;
    if data.len() == 0 || data.len() % 4 != 0 {
        data
    } else if at + data.len() / 4 > words.len() {
        Seq::new(data.len(), |i: int| 0xffu8)
    } else if offset as int % (if data.len() == 8 {
        8int
    } else {
        4int
    }) != 0 {
        Seq::new(data.len(), |i: int| 0u8)
    } else {
        Seq::new(data.len(), |i: int| spec_u32_bytes(words[at + i / 4])[i % 4])
    }
}

/// An array of words after `data` was written at `offset`. A write of four bytes at a
/// multiple of four sets one word, a write of eight bytes at a multiple of eight sets
/// two. Any other write, and a write beyond the end of the array, changes nothing.
pub open spec fn spec_write_words(words: Seq<u32>, offset: u64, data: Seq<u8>) -> Seq<u32> {
    let at = offset as int / 4;
    if data.len() != 4 && data.len() != 8 {
        words
    } else if at + data.len() / 4 > words.len() || offset as int % (data.len() as int) != 0 {
        words
    } else if data.len() == 4 {
        words.update(at, spec_u32_at(data, 0) as u32)
    } else {
        words.update(at, spec_u32_at(data, 0) as u32).update(at + 1, spec_u32_at(data, 4) as u32)
    }
}

/// Reads from an array of words.
fn read_words(words: &Vec<u32>, offset: u64, data: &mut [u8])
    ensures
        final(data)@ == spec_read_words(words@, offset, old(data)@),
{
    let len: usize = data.len();
    if len == 0 || len % 4 != 0 {
        return ;
    }
    let count: usize = words.len();
    let first: u64 = offset / 4;
    if first > count as u64 || (len / 4) as u64 > count as u64 - first {
        let mut i: usize = 0;
        while i < len
            invariant
                i <= len,
                len == data@.len(),
                forall|k: int| 0 <= k < i ==> data@[k] == 0xffu8,
            decreases len - i,
        {
            data[i] = 0xff;
            i = i + 1;
        }
        proof {
            assert(data@ =~= Seq::new(len as nat, |i: int| 0xffu8));
        }
        return ;
    }
    let align: u64 = if len == 8 {
        8
    } else {
        4
    };
    if offset % align != 0 {
        let mut i: usize = 0;
        while i < len
            invariant
                i <= len,
                len == data@.len(),
                forall|k: int| 0 <= k < i ==> data@[k] == 0u8,
            decreases len - i,
        {
            data[i] = 0;
            i = i + 1;
        }
        proof {
            assert(data@ =~= Seq::new(len as nat, |i: int| 0u8));
        }
        return ;
    }
    let at: usize = first as usize;
    let n: usize = len / 4;
    assert(at + n <= count);
    let mut w: usize = 0;
    while w < n
        invariant
            w <= n,
            n == len / 4,
            len % 4 == 0,
            len == data@.len(),
            at + n <= words@.len(),
            words@.len() <= usize::MAX,
            forall|k: int|
                0 <= k < 4 * w ==> data@[k] == spec_u32_bytes(words@[at + k / 4])[k % 4],
        decreases n - w,
    {
        let v = words[at + w];
        let ghost before = data@;
        data[4 * w] = (v % 256) as u8;
        data[4 * w + 1] = (v / 256 % 256) as u8;
        data[4 * w + 2] = (v / 65536 % 256) as u8;
        data[4 * w + 3] = (v / 16777216) as u8;
        proof {
            assert forall|k: int| 0 <= k < 4 * (w + 1) implies data@[k] == spec_u32_bytes(
                words@[at + k / 4],
            )[k % 4] by {
                if k < 4 * w {
                    assert(data@[k] == before[k]);
                } else {
                    assert(k / 4 == w);
                }
            }
        }
        w = w + 1;
    }
    proof {
        assert(data@ =~= spec_read_words(words@, offset, old(data)@));
    }
}

/// Writes to an array of words.
fn write_words(words: &mut Vec<u32>, offset: u64, data: &[u8])
    ensures
        final(words)@ == spec_write_words(old(words)@, offset, data@),
{
    let len: usize = data.len();
    if len != 4 && len != 8 {
        return ;
    }
    let count: usize = words.len();
    let first: u64 = offset / 4;
    if first > count as u64 || (len / 4) as u64 > count as u64 - first || offset % (len as u64)
        != 0 {
        return ;
    }
    let at: usize = first as usize;
    words[at] = read_u32(data, 0);
    if len == 8 {
        words[at + 1] = read_u32(data, 4);
    }
}

/// The MSI-X table and the pending bit array that the guest sees in place of those of
/// the device.
#[derive(Clone, Debug)]
pub struct MsixConfig {
    table: Vec<u32>,
    pba: Vec<u32>,
}

impl View for MsixConfig {
    type V = MsixConfigView;

    closed spec fn view(&self) -> MsixConfigView {
        MsixConfigView { table: self.table@, pba: self.pba@ }
    }
}

/// The words of a table of `vectors` vectors that all are masked and have no message.
pub open spec fn spec_empty_table(vectors: u16) -> Seq<u32> {
    Seq::new(
        4 * vectors as nat,
        |k: int|
            if k % 4 == 3 {
                MSIX_TABLE_ENTRY_MASK_BIT
            } else {
                0u32
            },
    )
}

/// The number of 32-bit words of the pending bit array of `vectors` vectors.
pub open spec fn spec_pba_words(vectors: u16) -> nat {
    (2 * ((vectors + 63) / 64)) as nat
}

impl MsixConfig {
    /// A table of `msix_vectors` vectors, all masked and without a message, and a
    /// pending bit array in which nothing is pending.
    pub fn new(msix_vectors: u16) -> (c: Self)
        ensures
            c@.table == spec_empty_table(msix_vectors),
            c@.pba == Seq::new(spec_pba_words(msix_vectors), |k: int| 0u32),
    {
        let mut table: Vec<u32> = Vec::new();
        let words: usize = 4 * msix_vectors as usize;
        let mut i: usize = 0;
        while i < words
            invariant
                i <= words,
                table@.len() == i,
                forall|k: int|
                    0 <= k < i ==> table@[k] == (if k % 4 == 3 {
                        MSIX_TABLE_ENTRY_MASK_BIT
                    } else {
                        0u32
                    }),
            decreases words - i,
        {
            table.push(
                if i % 4 == 3 {
                    MSIX_TABLE_ENTRY_MASK_BIT
                } else {
                    0
                },
            );
            i = i + 1;
        }
        let mut pba: Vec<u32> = Vec::new();
        let pba_words: usize = 2 * ((msix_vectors as usize + 63) / 64);
        let mut j: usize = 0;
        while j < pba_words
            invariant
                j <= pba_words,
                pba@.len() == j,
                forall|k: int| 0 <= k < j ==> pba@[k] == 0u32,
            decreases pba_words - j,
        {
            pba.push(0);
            j = j + 1;
        }
        proof {
            assert(table@ =~= spec_empty_table(msix_vectors));
            assert(pba@ =~= Seq::new(spec_pba_words(msix_vectors), |k: int| 0u32));
        }
        MsixConfig { table, pba }
    }

    /// Answers a guest read at `offset` of the table.
    pub fn read_table(&self, offset: u64, data: &mut [u8])
        ensures
            final(data)@ == spec_read_words(self@.table, offset, old(data)@),
    {
        read_words(&self.table, offset, data);
    }

    /// Takes a guest write at `offset` of the table.
    pub fn write_table(&mut self, offset: u64, data: &[u8])
        ensures
            final(self)@.table == spec_write_words(old(self)@.table, offset, data@),
            final(self)@.pba == old(self)@.pba,
    {
        write_words(&mut self.table, offset, data);
    }

    /// Answers a guest read at `offset` of the pending bit array.
    pub fn read_pba(&self, offset: u64, data: &mut [u8])
        ensures
            final(data)@ == spec_read_words(self@.pba, offset, old(data)@),
    {
        read_words(&self.pba, offset, data);
    }

    /// Takes a guest write at `offset` of the pending bit array. The guest cannot
    /// change the array: nothing happens.
    pub fn write_pba(&mut self, offset: u64, data: &[u8])
        ensures
            final(self)@ == old(self)@,
    {
    }

    /// True if the vector with the given index is masked; a vector that the table
    /// does not have counts as masked.
    pub fn is_masked(&self, vector: u16) -> (b: bool)
        ensures
            b == (4 * vector + 3 >= self@.table.len() || self@.table[4 * vector + 3]
                & MSIX_TABLE_ENTRY_MASK_BIT != 0),
    {
        let at: usize = 4 * vector as usize + 3;
        at >= self.table.len() || self.table[at] & MSIX_TABLE_ENTRY_MASK_BIT != 0
    }
}

/// A word that was written to the table reads back as it was written.
pub proof fn lemma_table_write_then_read(words: Seq<u32>, offset: u64, data: Seq<u8>, buffer: Seq<u8>)
    requires
        data.len() == 4,
        buffer.len() == 4,
        offset % 4 == 0,
        offset / 4 < words.len(),
    ensures
        spec_u32_at(spec_read_words(spec_write_words(words, offset, data), offset, buffer), 0)
            == spec_u32_at(data, 0),
{
    crate::wire::lemma_u32_bytes_round_trip(spec_u32_at(data, 0) as u32);
}

} // verus!
