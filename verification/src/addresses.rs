//! The address deriver's seed tuples. Every record's address is derived
//! from a fixed domain tag plus its key material: the configuration from
//! the tag alone, a mint record from the tag, the recipient's bytes and the
//! nonce in little-endian — the derivation is what enforces one record per
//! key.

use vstd::prelude::*;
use vstd::bytes::{spec_u64_to_le_bytes, u64_to_le_bytes};
use vstd::slice::slice_to_vec;
use crate::keys::Pubkey;

verus! {

/// The domain tag of the configuration record's address.
pub open spec fn config_tag() -> Seq<u8> {
    seq![99u8, 111u8, 110u8, 102u8, 105u8, 103u8]
}

/// The domain tag of a mint record's address.
pub open spec fn record_tag() -> Seq<u8> {
    seq![114u8, 101u8, 99u8, 111u8, 114u8, 100u8]
}

/// The views of a sequence of seed byte-strings.
pub open spec fn seeds_view(s: Seq<Vec<u8>>) -> Seq<Seq<u8>> {
    s.map_values(|v: Vec<u8>| v@)
}

/// The seed tuple of the configuration record: the fixed tag alone.
pub open spec fn config_seeds_view() -> Seq<Seq<u8>> {
    seq![config_tag()]
}

/// The seed tuple of the mint record keyed by `(recipient, nonce)`: the
/// fixed tag, then the recipient's 32 bytes, then the nonce as eight
/// little-endian bytes.
pub open spec fn record_seeds_view(recipient: Seq<u8>, client_nonce: u64) -> Seq<Seq<u8>> {
    seq![record_tag(), recipient, spec_u64_to_le_bytes(client_nonce)]
}

fn config_tag_bytes() -> (r: Vec<u8>)
    ensures
        r@ == config_tag(),
{
    let mut v: Vec<u8> = Vec::new();
    v.push(99u8);
    v.push(111u8);
    v.push(110u8);
    v.push(102u8);
    v.push(105u8);
    v.push(103u8);
    proof {
        assert(v@ =~= config_tag());
    }
    v
}

fn record_tag_bytes() -> (r: Vec<u8>)
    ensures
        r@ == record_tag(),
{
    let mut v: Vec<u8> = Vec::new();
    v.push(114u8);
    v.push(101u8);
    v.push(99u8);
    v.push(111u8);
    v.push(114u8);
    v.push(100u8);
    proof {
        assert(v@ =~= record_tag());
    }
    v
}

/// The seeds from which the configuration record's address is derived.
pub fn config_seeds() -> (r: Vec<Vec<u8>>)
    ensures
        seeds_view(r@) == config_seeds_view(),
{
    let mut seeds: Vec<Vec<u8>> = Vec::new();
    seeds.push(config_tag_bytes());
    proof {
        assert(seeds_view(seeds@) =~= config_seeds_view());
    }
    seeds
}

/// The seeds from which the address of the mint record keyed by
/// `(recipient, client_nonce)` is derived.
pub fn record_seeds(recipient: &Pubkey, client_nonce: u64) -> (r: Vec<Vec<u8>>)
    ensures
        seeds_view(r@) == record_seeds_view(recipient@, client_nonce),
{
    let mut seeds: Vec<Vec<u8>> = Vec::new();
    seeds.push(record_tag_bytes());
    seeds.push(slice_to_vec(recipient.bytes.as_slice()));
    seeds.push(u64_to_le_bytes(client_nonce));
    proof {
        assert(seeds_view(seeds@) =~= record_seeds_view(recipient@, client_nonce));
    }
    seeds
}

/// What the ledger's derivation service returns for a program identity and
/// a seed tuple: the derived address and its bump seed, or nothing when no
/// bump yields a valid address or the seeds break the derivation's limits.
/// The derivation is a deterministic function of these inputs alone.
pub uninterp spec fn derived_address_of(program: Seq<u8>, seeds: Seq<Seq<u8>>) -> Option<
    (Seq<u8>, u8),
>;

/// Relies on solana_pubkey::Pubkey::try_find_program_address: the derived
/// address and bump seed are a deterministic function of the seed tuple and
/// the program identity alone (a hash-based search over bump seeds), and
/// the call returns `None` exactly when that search finds no valid address.
#[verifier::external_body]
fn find_program_address(seeds: &Vec<Vec<u8>>, program_id: &Pubkey) -> (r: Option<(Pubkey, u8)>)
    ensures
        (match r {
            Some((address, bump)) => derived_address_of(program_id@, seeds_view(seeds@)) == Some(
                (address@, bump),
            ),
            None => derived_address_of(program_id@, seeds_view(seeds@)) is None,
        }),
{
    let seed_slices: Vec<&[u8]> = seeds.iter().map(|s| s.as_slice()).collect();
    let program = solana_pubkey::Pubkey::new_from_array(program_id.bytes);
    solana_pubkey::Pubkey::try_find_program_address(&seed_slices, &program)
        .map(|(address, bump)| (Pubkey { bytes: address.to_bytes() }, bump))
}

/// The derived address of the configuration record under the given
/// program, with its bump seed: always the same for the same program.
pub fn config_address(program_id: &Pubkey) -> (r: Option<(Pubkey, u8)>)
    ensures
        (match r {
            Some((address, bump)) => derived_address_of(program_id@, config_seeds_view()) == Some(
                (address@, bump),
            ),
            None => derived_address_of(program_id@, config_seeds_view()) is None,
        }),
{
    let seeds = config_seeds();
    find_program_address(&seeds, program_id)
}

/// The derived address of the mint record keyed by `(recipient,
/// client_nonce)` under the given program, with its bump seed: always the
/// same for the same inputs.
pub fn record_address(program_id: &Pubkey, recipient: &Pubkey, client_nonce: u64) -> (r: Option<
    (Pubkey, u8),
>)
    ensures
        (match r {
            Some((address, bump)) => derived_address_of(
                program_id@,
                record_seeds_view(recipient@, client_nonce),
            ) == Some((address@, bump)),
            None => derived_address_of(
                program_id@,
                record_seeds_view(recipient@, client_nonce),
            ) is None,
        }),
{
    let seeds = record_seeds(recipient, client_nonce);
    find_program_address(&seeds, program_id)
}

/// Law: distinct record keys never share a seed tuple, and no record's
/// seed tuple is the configuration's — so the derived addresses separate
/// the records exactly as the `(recipient, nonce)` keys do, as far as the
/// derivation itself is collision-free.
pub proof fn lemma_seed_tuples_separate_keys(
    recipient1: Seq<u8>,
    nonce1: u64,
    recipient2: Seq<u8>,
    nonce2: u64,
)
    ensures
        record_seeds_view(recipient1, nonce1) == record_seeds_view(recipient2, nonce2)
            ==> recipient1 == recipient2 && nonce1 == nonce2,
        record_seeds_view(recipient1, nonce1) != config_seeds_view(),
{
    vstd::bytes::lemma_auto_spec_u64_to_from_le_bytes();
    if record_seeds_view(recipient1, nonce1) == record_seeds_view(recipient2, nonce2) {
        assert(record_seeds_view(recipient1, nonce1)[1] == recipient1);
        assert(record_seeds_view(recipient2, nonce2)[1] == recipient2);
        assert(record_seeds_view(recipient1, nonce1)[2] == spec_u64_to_le_bytes(nonce1));
        assert(record_seeds_view(recipient2, nonce2)[2] == spec_u64_to_le_bytes(nonce2));
    }
    assert(record_seeds_view(recipient1, nonce1).len() != config_seeds_view().len());
}

} // verus!
