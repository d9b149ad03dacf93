//! Derivation of the pool's withdrawal authority.
//!
//! The deposit leg of a swap is authorized by the trader; the withdrawal
//! leg is authorized by a credential that only the pool holds, rebuilt
//! deterministically on every call from the pool's identifying seed and its
//! stored bump byte. This module only assembles the seed material; deriving
//! a key from it and verifying signatures belong to the hosting runtime.

use vstd::prelude::*;
use vstd::bytes::{spec_u64_to_le_bytes, u64_to_le_bytes};

verus! {

/// The fixed tag that opens every pool authority derivation: the ASCII
/// bytes of `config`, the name of the pool's configuration record.
pub open spec fn spec_credential_tag() -> Seq<u8> {
    seq![99u8, 111u8, 110u8, 102u8, 105u8, 103u8]
}

/// Seed material of the pool's withdrawal authority: the fixed tag, then
/// the pool seed in little-endian byte order, then the stored bump byte.
pub open spec fn spec_credential_seeds(pool_seed: u64, bump: u8) -> Seq<u8> {
    spec_credential_tag() + spec_u64_to_le_bytes(pool_seed) + seq![bump]
}

/// Credential that authorizes withdrawals on the pool's behalf. It is a
/// pure function of the pool's seed and bump and is never cached as pool
/// state.
#[derive(Debug)]
pub struct Credential {
    pub seeds: Vec<u8>,
}

/// Rebuilds the pool's withdrawal authority from its identifying seed and
/// stored bump: fifteen bytes of seed material, fixed tag first, bump last.
pub fn authority_credential(pool_seed: u64, bump: u8) -> (c: Credential)
    ensures
        c.seeds@ == spec_credential_seeds(pool_seed, bump),
        c.seeds@.len() == 15,
{
    let mut seeds: Vec<u8> = Vec::new();
    seeds.push(99u8);
    seeds.push(111u8);
    seeds.push(110u8);
    seeds.push(102u8);
    seeds.push(105u8);
    seeds.push(103u8);
    let mut le = u64_to_le_bytes(pool_seed);
    seeds.append(&mut le);
    seeds.push(bump);
    proof {
        assert(seeds@ =~= spec_credential_seeds(pool_seed, bump));
    }
    Credential { seeds }
}

} // verus!
