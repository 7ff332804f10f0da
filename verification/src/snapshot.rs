//! Snapshots of on-chain accounts, as plain values.

use vstd::prelude::*;

verus! {

/// Number of bytes in a proof hash.
pub const HASH_BYTES: usize = 32;

/// Global protocol state at a point in time, in raw token units.
#[derive(Clone, Copy, Debug, PartialEq, Eq)]
pub struct Treasury {
    /// Lifetime rewards claimed by all miners.
    pub total_claimed_rewards: u64,
    /// Reward paid for one valid hash.
    pub reward_rate: u64,
}

/// A miner's account state at a point in time.
///
/// The hash is the snapshot's identity: a different hash means that a new
/// mining epoch has begun.
#[derive(Clone, Copy, Debug, PartialEq, Eq)]
pub struct Proof {
    pub hash: [u8; 32],
    /// Rewards that the miner may withdraw, in raw token units.
    pub claimable_rewards: u64,
}

/// Total token supply as the chain's token-account decoder reports it.
#[derive(Clone, Debug, PartialEq, Eq)]
pub struct TokenSupply {
    /// The supply in whole tokens, as decimal text; absent when the decoder
    /// could not express it.
    pub ui_amount: Option<String>,
}

/// Whether two hashes are the same bytes.
pub fn same_hash(a: &[u8; 32], b: &[u8; 32]) -> (same: bool)
    ensures
        same == (a@ == b@),
{
    let mut i: usize = 0;
    while i < 32
        invariant
            i <= 32,
            forall|k: int| 0 <= k < i ==> a@[k] == b@[k],
        decreases 32 - i,
    {
        if a[i] != b[i] {
            return false;
        }
        i += 1;
    }
    assert(a@ =~= b@);
    true
}

impl Proof {
    /// Whether `self` and `other` belong to the same mining epoch.
    pub open spec fn same_epoch(self, other: Proof) -> bool {
        self.hash@ == other.hash@
    }
}

} // verus!
