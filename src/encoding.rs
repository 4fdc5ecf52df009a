use vstd::prelude::*;
use crate::hashing::{blake2_256, blake2_256_of};
use crate::types::{Gender, Kitty};

verus! {

/// The `n` least significant bytes of `v`, least significant first.
pub open spec fn le_bytes(v: nat, n: nat) -> Seq<u8>
    decreases n,
{
    if n == 0 {
        seq![]
    } else {
        seq![(v % 256) as u8] + le_bytes(v / 256, (n - 1) as nat)
    }
}

/// The one-byte tag of a gender.
pub open spec fn gender_byte(g: Gender) -> u8 {
    match g {
        Gender::Male => 0,
        Gender::Female => 1,
    }
}

/// The bytes of an optional price: a tag byte, then the amount in 16 bytes.
pub open spec fn price_bytes(p: Option<u128>) -> Seq<u8> {
    match p {
        None => seq![0u8],
        Some(v) => seq![1u8] + le_bytes(v as nat, 16),
    }
}

/// The byte layout of a kitty record: genetic data, price, gender, owner.
pub open spec fn encode_kitty(k: Kitty) -> Seq<u8> {
    k.dna@ + price_bytes(k.price) + seq![gender_byte(k.gender)] + le_bytes(k.owner as nat, 8)
}

/// The identifier of a kitty record: the 256-bit digest of its bytes.
pub open spec fn kitty_id_of(k: Kitty) -> [u8; 32] {
    blake2_256_of(encode_kitty(k))
}

/// The bytes hashed to generate genetic data: the random seed, then the
/// block number in 4 bytes.
pub open spec fn dna_payload(seed: Seq<u8>, block_number: u32) -> Seq<u8> {
    seed + le_bytes(block_number as nat, 4)
}

/// Appends the `n` least significant bytes of `v`, least significant first.
pub fn push_le(out: &mut Vec<u8>, v: u128, n: usize)
    ensures
        final(out)@ == old(out)@ + le_bytes(v as nat, n as nat),
{
    let mut x: u128 = v;
    let mut i: usize = 0;
    while i < n
        invariant
            i <= n,
            old(out)@ + le_bytes(v as nat, n as nat) == out@ + le_bytes(x as nat, (n - i) as nat),
        decreases n - i,
    {
        let b: u8 = (x % 256) as u8;
        proof {
            let rest = le_bytes((x / 256) as nat, (n - i - 1) as nat);
            assert(le_bytes(x as nat, (n - i) as nat) == seq![b] + rest);
            assert(out@.push(b) + rest =~= out@ + (seq![b] + rest));
        }
        out.push(b);
        x = x / 256;
        i = i + 1;
    }
    assert(out@ + le_bytes(x as nat, 0) =~= out@);
}

/// Appends every byte of `bytes`.
pub fn push_bytes(out: &mut Vec<u8>, bytes: &[u8])
    ensures
        final(out)@ == old(out)@ + bytes@,
{
    let mut i: usize = 0;
    while i < bytes.len()
        invariant
            i <= bytes@.len(),
            out@ == old(out)@ + bytes@.subrange(0, i as int),
        decreases bytes@.len() - i,
    {
        out.push(bytes[i]);
        i = i + 1;
        assert(out@ =~= old(out)@ + bytes@.subrange(0, i as int));
    }
    assert(bytes@.subrange(0, i as int) =~= bytes@);
}

/// The byte layout of a kitty record.
pub fn encode(k: &Kitty) -> (r: Vec<u8>)
    ensures
        r@ == encode_kitty(*k),
{
    let mut out: Vec<u8> = Vec::new();
    push_bytes(&mut out, k.dna.as_slice());
    match k.price {
        None => out.push(0u8),
        Some(v) => {
            out.push(1u8);
            push_le(&mut out, v, 16);
        },
    }
    let g: u8 = match k.gender {
        Gender::Male => 0u8,
        Gender::Female => 1u8,
    };
    out.push(g);
    push_le(&mut out, k.owner as u128, 8);
    assert(out@ =~= encode_kitty(*k));
    out
}

/// The identifier of a kitty record.
pub fn kitty_id(k: &Kitty) -> (r: [u8; 32])
    ensures
        r == kitty_id_of(*k),
{
    let bytes = encode(k);
    blake2_256(&bytes)
}

/// The bytes hashed to generate genetic data.
pub fn encode_dna_payload(seed: &[u8; 32], block_number: u32) -> (r: Vec<u8>)
    ensures
        r@ == dna_payload(seed@, block_number),
{
    let mut out: Vec<u8> = Vec::new();
    push_bytes(&mut out, seed.as_slice());
    push_le(&mut out, block_number as u128, 4);
    out
}

} // verus!
