use vstd::prelude::*;
use crate::encoding::{dna_payload, encode_dna_payload};
use crate::hashing::{blake2_128, blake2_128_of};
use crate::types::{Dna, Entropy, Gender, Kitty};

verus! {

/// The gender that a byte's parity selects: even is male, odd is female.
pub open spec fn gender_of_byte(b: u8) -> Gender {
    if b % 2 == 0 {
        Gender::Male
    } else {
        Gender::Female
    }
}

/// Fresh genetic data: the 128-bit digest of the `dna` seed and the block number.
pub open spec fn fresh_dna(e: Entropy) -> Dna {
    blake2_128_of(dna_payload(e.dna_seed@, e.block_number))
}

/// A fresh gender: the parity of the first byte of the `gender` seed.
pub open spec fn fresh_gender(e: Entropy) -> Gender {
    gender_of_byte(e.gender_seed[0])
}

/// One byte of offspring: each bit from `a` where the mask bit is set, else from `b`.
pub open spec fn mix_byte(m: u8, a: u8, b: u8) -> u8 {
    (m & a) | (!m & b)
}

/// Offspring genetic data under `mask`, byte by byte.
pub open spec fn is_mix(r: Dna, mask: Dna, dna1: Dna, dna2: Dna) -> bool {
    forall|i: int| 0 <= i < 16 ==> #[trigger] r[i] == mix_byte(mask[i], dna1[i], dna2[i])
}

impl Kitty {
    /// The gender that genetic data determines, by the parity of its first byte.
    pub fn gender(dna: &Dna) -> (r: Gender)
        ensures
            r == gender_of_byte(dna[0]),
    {
        if dna[0] % 2 == 0 {
            Gender::Male
        } else {
            Gender::Female
        }
    }
}

/// A fresh gender from the randomness drawn under the `gender` tag.
pub fn gen_gender(e: &Entropy) -> (r: Gender)
    ensures
        r == fresh_gender(*e),
{
    match e.gender_seed[0] % 2 {
        0 => Gender::Male,
        _ => Gender::Female,
    }
}

/// Fresh genetic data from the randomness drawn under the `dna` tag and the
/// block number.
pub fn gen_dna(e: &Entropy) -> (r: Dna)
    ensures
        r == fresh_dna(*e),
{
    let payload = encode_dna_payload(&e.dna_seed, e.block_number);
    blake2_128(&payload)
}

/// Combines two parents' genetic data: each bit of the result comes from
/// `dna1` where the bit of `mask` is set, and from `dna2` where it is clear.
pub fn combine_dna(mask: &Dna, dna1: &Dna, dna2: &Dna) -> (r: Dna)
    ensures
        is_mix(r, *mask, *dna1, *dna2),
{
    let mut out: Dna = *mask;
    let mut i: usize = 0;
    while i < 16
        invariant
            i <= 16,
            forall|j: int| 0 <= j < i ==> #[trigger] out[j] == mix_byte(mask[j], dna1[j], dna2[j]),
        decreases 16 - i,
    {
        out[i] = (mask[i] & dna1[i]) | (!mask[i] & dna2[i]);
        i = i + 1;
    }
    out
}

/// The bit at position `k` of a byte.
pub open spec fn bit(x: u8, k: u8) -> u8 {
    (x >> k) & 1
}

/// Each bit of a mixed byte is the first parent's bit where the mask bit is
/// one, and the second parent's bit where it is zero.
pub proof fn lemma_mix_byte_bits(m: u8, a: u8, b: u8, k: u8)
    requires
        k < 8,
    ensures
        bit(mix_byte(m, a, b), k) == if bit(m, k) == 1 { bit(a, k) } else { bit(b, k) },
{
    assert(((((m & a) | (!m & b)) >> k) & 1) == if ((m >> k) & 1) == 1 {
        (a >> k) & 1
    } else {
        (b >> k) & 1
    }) by (bit_vector)
        requires
            k < 8,
    ;
}

/// For every mask and pair of parents, every bit of the combined genetic
/// data is the first parent's bit where the mask bit is one, and the second
/// parent's bit otherwise.
pub proof fn lemma_combine_bits(r: Dna, mask: Dna, dna1: Dna, dna2: Dna)
    requires
        is_mix(r, mask, dna1, dna2),
    ensures
        forall|i: int, k: u8|
            0 <= i < 16 && k < 8 ==> #[trigger] bit(r[i], k) == if bit(mask[i], k) == 1 {
                bit(dna1[i], k)
            } else {
                bit(dna2[i], k)
            },
{
    assert forall|i: int, k: u8| 0 <= i < 16 && k < 8 implies #[trigger] bit(r[i], k) == if bit(
        mask[i],
        k,
    ) == 1 {
        bit(dna1[i], k)
    } else {
        bit(dna2[i], k)
    } by {
        lemma_mix_byte_bits(mask[i], dna1[i], dna2[i], k);
    }
}

} // verus!
