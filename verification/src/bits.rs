//! Facts that tie the bit operations used on device registers to plain arithmetic.
use vstd::prelude::*;

verus! {

/// The low three bits of a 32-bit register are its value modulo eight, and masking
/// them off rounds the register down to a multiple of eight.
pub proof fn lemma_low3_u32(x: u32)
    by (bit_vector)
    ensures
        x & 0x7 == x % 8,
        x & 0xffff_fff8 == x - x % 8,
{
}

/// The low eleven bits of a 16-bit register are its value modulo 2048; bits 14 and 15
/// are read off by dividing.
pub proof fn lemma_msg_ctl_bits(x: u16)
    by (bit_vector)
    ensures
        x & 0x7ff == x % 2048,
        ((x >> 14) & 0x1 == 0x1) <==> ((x / 0x4000) % 2 == 1),
        ((x >> 15) & 0x1 == 0x1) <==> (x / 0x8000 == 1),
{
}

/// Clearing the low twelve bits of an address rounds it down to a page boundary.
pub proof fn lemma_page_mask(v: u64)
    by (bit_vector)
    ensures
        v & !4095u64 == v - v % 4096,
        (v & 4095 == 0) <==> (v % 4096 == 0),
{
}

/// Clearing the low twelve bits of a size rounds it down to a page boundary.
pub proof fn lemma_page_mask_usize(v: usize)
    ensures
        v & !4095usize == v - v % 4096,
{
    let w = v as u64;
    assert(w & !4095u64 == w - w % 4096) by (bit_vector);
    assert(v & !4095usize == (w & !4095u64) as usize) by (bit_vector)
        requires
            w == v as u64,
    ;
}

} // verus!
