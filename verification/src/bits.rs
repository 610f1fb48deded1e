//! Most-significant-bit-first bitstream reading over byte buffers.
//!
//! The cube protocol packs fields at bit granularity: bit 0 is the most
//! significant bit of byte 0, bit 8 the most significant bit of byte 1, and
//! so on. Fields are unsigned integers read most-significant-bit first.

use vstd::prelude::*;

verus! {

/// Bit `i` of `data`, counting most-significant-bit first within each byte.
pub open spec fn bit_at(data: Seq<u8>, i: int) -> bool {
    (data[i / 8] >> ((7 - i % 8) as u8)) & 1u8 == 1u8
}

/// The unsigned value of bits `[lo, hi)` of `data`, bit `lo` most significant.
pub open spec fn bits_be(data: Seq<u8>, lo: int, hi: int) -> nat
    decreases hi - lo,
{
    if hi <= lo {
        0
    } else {
        2 * bits_be(data, lo, hi - 1) + (if bit_at(data, hi - 1) {
            1nat
        } else {
            0nat
        })
    }
}

/// A field of `w` bits is below `2^w`.
pub proof fn lemma_bits_be_bound(data: Seq<u8>, lo: int, hi: int)
    ensures
        bits_be(data, lo, hi) < vstd::arithmetic::power2::pow2((if hi <= lo {
            0
        } else {
            hi - lo
        }) as nat),
    decreases hi - lo,
{
    vstd::arithmetic::power2::lemma2_to64();
    if hi > lo {
        lemma_bits_be_bound(data, lo, hi - 1);
        vstd::arithmetic::power2::lemma_pow2_unfold((hi - lo) as nat);
    }
}

/// Two buffers that agree on every bit of `[lo, hi)` encode the same value there.
pub proof fn lemma_bits_be_congruent(a: Seq<u8>, b: Seq<u8>, lo: int, hi: int)
    requires
        forall|i: int| lo <= i < hi ==> bit_at(a, i) == bit_at(b, i),
    ensures
        bits_be(a, lo, hi) == bits_be(b, lo, hi),
    decreases hi - lo,
{
    if hi > lo {
        lemma_bits_be_congruent(a, b, lo, hi - 1);
    }
}

/// Reads bits `[lo, hi)` of `data` as an unsigned most-significant-bit-first
/// integer of at most 16 bits.
pub fn load_bits_be(data: &Vec<u8>, lo: usize, hi: usize) -> (r: u16)
    requires
        lo <= hi,
        hi <= data@.len() * 8,
        hi - lo <= 16,
    ensures
        r == bits_be(data@, lo as int, hi as int),
{
    let mut r: u16 = 0;
    let mut i: usize = lo;
    while i < hi
        invariant
            lo <= i <= hi,
            hi <= data@.len() * 8,
            hi - lo <= 16,
            r == bits_be(data@, lo as int, i as int),
        decreases hi - i,
    {
        assert(i / 8 < data@.len()) by (nonlinear_arith)
            requires
                i < hi,
                hi <= data@.len() * 8,
        ;
        let byte: u8 = data[i / 8];
        let shift: usize = 7 - i % 8;
        let b: u8 = (byte >> (shift as u8)) & 1;
        assert((byte >> (shift as u8)) & 1u8 == 0u8 || (byte >> (shift as u8)) & 1u8 == 1u8)
            by (bit_vector);
        proof {
            lemma_bits_be_bound(data@, lo as int, i as int + 1);
            if i + 1 - lo < 16 {
                vstd::arithmetic::power2::lemma_pow2_strictly_increases((i + 1 - lo) as nat, 16);
            }
            vstd::arithmetic::power2::lemma2_to64();
        }
        r = r * 2 + b as u16;
        i = i + 1;
    }
    r
}

} // verus!
