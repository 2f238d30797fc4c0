//! Little-endian integers in byte buffers, as device registers and kernel replies hold
//! them.
use vstd::prelude::*;

verus! {

/// The 16-bit value that the two bytes at `o` hold.
pub open spec fn spec_u16_at(b: Seq<u8>, o: int) -> int {
    b[o] as int + 256 * b[o + 1] as int
}

/// The 32-bit value that the four bytes at `o` hold.
pub open spec fn spec_u32_at(b: Seq<u8>, o: int) -> int {
    spec_u16_at(b, o) + 65536 * spec_u16_at(b, o + 2)
}

/// The 64-bit value that the eight bytes at `o` hold.
pub open spec fn spec_u64_at(b: Seq<u8>, o: int) -> int {
    spec_u32_at(b, o) + 0x1_0000_0000 * spec_u32_at(b, o + 4)
}

/// The four bytes that hold `v`.
pub open spec fn spec_u32_bytes(v: u32) -> Seq<u8> {
    seq![
        (v as int % 256) as u8,
        (v as int / 256 % 256) as u8,
        (v as int / 65536 % 256) as u8,
        (v as int / 16777216) as u8,
    ]
}

/// Reading back the bytes of a value gives the value.
pub proof fn lemma_u32_bytes_round_trip(v: u32)
    ensures
        spec_u32_bytes(v).len() == 4,
        spec_u32_at(spec_u32_bytes(v), 0) == v,
{
}

/// Reads the 16-bit value at `o`.
pub fn read_u16(b: &[u8], o: usize) -> (v: u16)
    requires
        o + 2 <= b@.len(),
    ensures
        v == spec_u16_at(b@, o as int),
{
    b[o] as u16 + 256 * (b[o + 1] as u16)
}

/// Reads the 32-bit value at `o`.
pub fn read_u32(b: &[u8], o: usize) -> (v: u32)
    requires
        o + 4 <= b@.len(),
    ensures
        v == spec_u32_at(b@, o as int),
{
    let n: usize = b.len();
    assert(o + 2 <= n);
    read_u16(b, o) as u32 + 65536 * (read_u16(b, o + 2) as u32)
}

/// Reads the 64-bit value at `o`.
pub fn read_u64(b: &[u8], o: usize) -> (v: u64)
    requires
        o + 8 <= b@.len(),
    ensures
        v == spec_u64_at(b@, o as int),
{
    let n: usize = b.len();
    assert(o + 4 <= n);
    read_u32(b, o) as u64 + 0x1_0000_0000 * (read_u32(b, o + 4) as u64)
}

/// Puts the four bytes that hold `v` into a buffer of four bytes.
pub fn write_u32(data: &mut [u8], v: u32)
    requires
        old(data)@.len() == 4,
    ensures
        final(data)@ == spec_u32_bytes(v),
{
    data[0] = (v % 256) as u8;
    data[1] = (v / 256 % 256) as u8;
    data[2] = (v / 65536 % 256) as u8;
    data[3] = (v / 16777216) as u8;
    proof {
        assert(data@ =~= spec_u32_bytes(v));
    }
}

/// The two bytes that hold `v`.
pub open spec fn spec_u16_bytes(v: u16) -> Seq<u8> {
    seq![(v as int % 256) as u8, (v as int / 256) as u8]
}

/// The two bytes that hold `v`, in a vector.
pub fn u16_to_vec(v: u16) -> (b: Vec<u8>)
    ensures
        b@ == spec_u16_bytes(v),
{
    let mut b: Vec<u8> = Vec::new();
    b.push((v % 256) as u8);
    b.push((v / 256) as u8);
    proof {
        assert(b@ =~= spec_u16_bytes(v));
    }
    b
}

/// The four bytes that hold `v`, in a vector.
pub fn u32_to_vec(v: u32) -> (b: Vec<u8>)
    ensures
        b@ == spec_u32_bytes(v),
{
    let mut b: Vec<u8> = Vec::new();
    b.push((v % 256) as u8);
    b.push((v / 256 % 256) as u8);
    b.push((v / 65536 % 256) as u8);
    b.push((v / 16777216) as u8);
    proof {
        assert(b@ =~= spec_u32_bytes(v));
    }
    b
}

} // verus!
