//! Identifiers shared by every component.

use vstd::prelude::*;

verus! {

/// An account identity.
pub type AccountId = u64;

/// An amount of currency or of ownership tokens.
pub type Balance = u64;

/// A block height: the discrete time of the ledger.
pub type BlockNumber = u64;

/// The fixed number of ownership tokens minted for every asset.
pub const TOKEN_SUPPLY: Balance = 1000;

/// The identity of an asset: an item of a collection.
#[derive(Clone, Copy, PartialEq, Eq, Structural, Debug)]
pub struct AssetKey {
    pub collection: u32,
    pub item: u32,
}

impl AssetKey {
    /// The key under which the asset is filed: `collection * 2^32 + item`.
    pub open spec fn spec_index(self) -> u64 {
        (self.collection as u64 * 0x1_0000_0000 + self.item as u64) as u64
    }

    /// The key under which the asset is filed; distinct assets have distinct keys.
    #[verifier::when_used_as_spec(spec_index)]
    pub fn index(self) -> (k: u64)
        ensures
            k == self.spec_index(),
            k == self.collection as int * 0x1_0000_0000 + self.item as int,
    {
        self.collection as u64 * 0x1_0000_0000 + self.item as u64
    }

    /// The asset filed under `k`.
    pub open spec fn spec_from_index(k: u64) -> AssetKey {
        AssetKey { collection: (k / 0x1_0000_0000) as u32, item: (k % 0x1_0000_0000) as u32 }
    }

    /// The asset filed under `k`: the inverse of [`AssetKey::index`].
    #[verifier::when_used_as_spec(spec_from_index)]
    pub fn from_index(k: u64) -> (a: AssetKey)
        ensures
            a == AssetKey::spec_from_index(k),
            a.spec_index() == k,
    {
        AssetKey { collection: (k / 0x1_0000_0000) as u32, item: (k % 0x1_0000_0000) as u32 }
    }
}

/// Two assets filed under the same key are the same asset.
pub proof fn lemma_index_injective(a: AssetKey, b: AssetKey)
    ensures
        a.spec_index() == b.spec_index() <==> a == b,
        AssetKey::spec_from_index(a.spec_index()) == a,
{
}

} // verus!
