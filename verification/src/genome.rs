//! How a genome is drawn for a new kitty, and how two genomes are combined.

use crate::types::AccountId;
use vstd::bytes::{spec_u32_to_le_bytes, spec_u64_to_le_bytes};
use vstd::prelude::*;

verus! {

/// The 128-bit BLAKE2b digest of `data`.
pub uninterp spec fn blake2_128_digest(data: Seq<u8>) -> [u8; 16];

/// `sp_io::hashing::blake2_128`. The digest depends on the bytes alone; what it
/// is for given bytes is not stated here.
#[verifier::external_body]
fn blake2_128(data: &[u8]) -> (digest: [u8; 16])
    ensures
        digest == blake2_128_digest(data@),
{
    sp_io::hashing::blake2_128(data)
}

/// The bytes that are hashed into a genome: the seed as it is, the sender as
/// eight bytes with the lowest first, then either a zero byte, or a one byte
/// and the index as four bytes with the lowest first.
pub open spec fn payload(seed: Seq<u8>, sender: AccountId, extrinsic_index: Option<u32>) -> Seq<
    u8,
> {
    seed + spec_u64_to_le_bytes(sender) + match extrinsic_index {
        None => seq![0u8],
        Some(index) => seq![1u8] + spec_u32_to_le_bytes(index),
    }
}

/// `parity_scale_codec::Encode::encode` on the triple of seed, sender and
/// index. The codec writes a tuple as its parts one after the other, an array
/// of bytes as those bytes, an integer with its lowest byte first, and an
/// `Option` as a byte that tells whether a value follows.
#[verifier::external_body]
fn encode_payload(seed: &[u8; 32], sender: AccountId, extrinsic_index: Option<u32>) -> (bytes:
    Vec<u8>)
    ensures
        bytes@ == payload(seed@, sender, extrinsic_index),
{
    parity_scale_codec::Encode::encode(&(seed, sender, extrinsic_index))
}

/// The genome that `sender` draws from the host's `seed` in the transaction
/// with index `extrinsic_index`.
pub open spec fn genome_of(seed: Seq<u8>, sender: AccountId, extrinsic_index: Option<u32>) -> Seq<
    u8,
> {
    blake2_128_digest(payload(seed, sender, extrinsic_index))@
}

/// Draws sixteen bytes for `sender`: the digest of the seed, the sender and
/// the index of the running transaction.
pub fn random_value(seed: &[u8; 32], sender: AccountId, extrinsic_index: Option<u32>) -> (dna: [u8;
    16])
    ensures
        dna@ == genome_of(seed@, sender, extrinsic_index),
{
    let bytes = encode_payload(seed, sender, extrinsic_index);
    blake2_128(bytes.as_slice())
}

/// One byte of a child: each bit comes from `a` where `selector` has a one,
/// and from `b` where it has a zero.
pub open spec fn select_byte(a: u8, b: u8, selector: u8) -> u8 {
    (selector & a) | (!selector & b)
}

/// The child of two genomes under a selector, byte by byte.
pub open spec fn combine_spec(dna_1: Seq<u8>, dna_2: Seq<u8>, selector: Seq<u8>) -> Seq<u8> {
    Seq::new(16, |i: int| select_byte(dna_1[i], dna_2[i], selector[i]))
}

/// Combines two genomes: every bit of the child is the bit of `dna_1` where
/// `selector` has a one, and the bit of `dna_2` where it has a zero.
pub fn combine(dna_1: &[u8; 16], dna_2: &[u8; 16], selector: &[u8; 16]) -> (child: [u8; 16])
    ensures
        child@ == combine_spec(dna_1@, dna_2@, selector@),
{
    let mut new_dna = [0u8; 16];
    let mut i: usize = 0;
    while i < 16
        invariant
            i <= 16,
            forall|j: int|
                0 <= j < i ==> new_dna@[j] == select_byte(dna_1@[j], dna_2@[j], selector@[j]),
        decreases 16 - i,
    {
        new_dna[i] = (selector[i] & dna_1[i]) | (!selector[i] & dna_2[i]);
        i += 1;
    }
    assert(new_dna@ =~= combine_spec(dna_1@, dna_2@, selector@));
    new_dna
}

} // verus!
