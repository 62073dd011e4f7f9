//! The actions that a vote can approve, and their byte encoding.
//!
//! An action is encoded as one tag byte followed by its fields, each as a
//! little-endian integer of fixed width. A proposal carries the encoded action;
//! the action is decoded again when the proposal is enacted.

use crate::hashing::blake2_256;
use crate::hashing::blake2_256_digest;
use crate::types::{AccountId, AssetKey};
use vstd::bytes::*;
use vstd::prelude::*;
use vstd::slice::slice_subrange;

verus! {

/// What a proposal asks for.
#[derive(Clone, Copy, PartialEq, Eq, Structural, Debug)]
pub enum Action {
    /// Buy the asset with the pooled funds.
    AcquireAsset { asset: AssetKey },
    /// Make `candidate` the representative of the owners of `asset`.
    ApproveRepresentative { candidate: AccountId, asset: AssetKey },
    /// Accept `tenant` as a tenant of `asset`.
    ApproveTenant { tenant: AccountId, asset: AssetKey },
}

/// The encoding of an asset key: collection, then item.
pub open spec fn asset_encoding(asset: AssetKey) -> Seq<u8> {
    spec_u32_to_le_bytes(asset.collection) + spec_u32_to_le_bytes(asset.item)
}

/// The asset key that eight bytes encode.
pub open spec fn asset_decoding(bytes: Seq<u8>) -> AssetKey {
    AssetKey {
        collection: spec_u32_from_le_bytes(bytes.subrange(0, 4)),
        item: spec_u32_from_le_bytes(bytes.subrange(4, 8)),
    }
}

impl Action {
    /// The asset that the action is about.
    pub open spec fn spec_asset(&self) -> AssetKey {
        match *self {
            Action::AcquireAsset { asset } => asset,
            Action::ApproveRepresentative { asset, .. } => asset,
            Action::ApproveTenant { asset, .. } => asset,
        }
    }

    /// The asset that the action is about.
    #[verifier::when_used_as_spec(spec_asset)]
    pub fn asset(&self) -> (asset: AssetKey)
        ensures
            asset == self.spec_asset(),
    {
        match self {
            Action::AcquireAsset { asset } => *asset,
            Action::ApproveRepresentative { asset, .. } => *asset,
            Action::ApproveTenant { asset, .. } => *asset,
        }
    }

    /// The bytes that stand for the action.
    pub open spec fn encoding(self) -> Seq<u8> {
        match self {
            Action::AcquireAsset { asset } => seq![0u8] + asset_encoding(asset),
            Action::ApproveRepresentative { candidate, asset } => seq![1u8]
                + spec_u64_to_le_bytes(candidate) + asset_encoding(asset),
            Action::ApproveTenant { tenant, asset } => seq![2u8] + spec_u64_to_le_bytes(tenant)
                + asset_encoding(asset),
        }
    }

    /// The action that `bytes` stand for, if any.
    pub open spec fn decoding(bytes: Seq<u8>) -> Option<Action> {
        if bytes.len() == 9 && bytes[0] == 0 {
            Some(Action::AcquireAsset { asset: asset_decoding(bytes.subrange(1, 9)) })
        } else if bytes.len() == 17 && bytes[0] == 1 {
            Some(
                Action::ApproveRepresentative {
                    candidate: spec_u64_from_le_bytes(bytes.subrange(1, 9)),
                    asset: asset_decoding(bytes.subrange(9, 17)),
                },
            )
        } else if bytes.len() == 17 && bytes[0] == 2 {
            Some(
                Action::ApproveTenant {
                    tenant: spec_u64_from_le_bytes(bytes.subrange(1, 9)),
                    asset: asset_decoding(bytes.subrange(9, 17)),
                },
            )
        } else {
            None
        }
    }

    /// Encodes the action.
    pub fn encode(&self) -> (bytes: Vec<u8>)
        ensures
            bytes@ == self.encoding(),
    {
        let mut bytes: Vec<u8> = Vec::new();
        match self {
            Action::AcquireAsset { asset } => {
                bytes.push(0u8);
                push_asset(&mut bytes, *asset);
                assert(bytes@ =~= self.encoding());
            },
            Action::ApproveRepresentative { candidate, asset } => {
                bytes.push(1u8);
                let mut who = u64_to_le_bytes(*candidate);
                bytes.append(&mut who);
                push_asset(&mut bytes, *asset);
                assert(bytes@ =~= self.encoding());
            },
            Action::ApproveTenant { tenant, asset } => {
                bytes.push(2u8);
                let mut who = u64_to_le_bytes(*tenant);
                bytes.append(&mut who);
                push_asset(&mut bytes, *asset);
                assert(bytes@ =~= self.encoding());
            },
        }
        bytes
    }

    /// Decodes an action: `Some` exactly for the bytes that [`Action::encode`]
    /// produces.
    pub fn decode(bytes: &Vec<u8>) -> (action: Option<Action>)
        ensures
            action == Action::decoding(bytes@),
            action matches Some(a) ==> a.encoding() == bytes@,
            action is None ==> forall|a: Action| a.encoding() != bytes@,
    {
        proof {
            lemma_decoding_inverts(bytes@);
            assert forall|a: Action| a.encoding() == bytes@ implies Action::decoding(
                bytes@,
            ) is Some by {
                lemma_encoding_inverts(a);
            }
        }
        let n = bytes.len();
        if n == 0 {
            return None;
        }
        let tag = bytes[0];
        let all = bytes.as_slice();
        if n == 9 && tag == 0 {
            let asset = read_asset(slice_subrange(all, 1, 9));
            Some(Action::AcquireAsset { asset })
        } else if n == 17 && tag == 1 {
            let candidate = u64_from_le_bytes(slice_subrange(all, 1, 9));
            let asset = read_asset(slice_subrange(all, 9, 17));
            Some(Action::ApproveRepresentative { candidate, asset })
        } else if n == 17 && tag == 2 {
            let tenant = u64_from_le_bytes(slice_subrange(all, 1, 9));
            let asset = read_asset(slice_subrange(all, 9, 17));
            Some(Action::ApproveTenant { tenant, asset })
        } else {
            None
        }
    }

    /// The digest of the encoded action: the key by which proposals are told
    /// apart.
    pub fn hash(&self) -> (digest: Vec<u8>)
        ensures
            digest@ == blake2_256_digest(self.encoding()),
            digest@.len() == 32,
    {
        let bytes = self.encode();
        blake2_256(&bytes)
    }
}

/// A copy of a byte string.
pub fn copy_bytes(bytes: &Vec<u8>) -> (copy: Vec<u8>)
    ensures
        copy@ == bytes@,
{
    let mut copy: Vec<u8> = Vec::new();
    let mut i: usize = 0;
    while i < bytes.len()
        invariant
            i <= bytes@.len(),
            copy@ == bytes@.subrange(0, i as int),
        decreases bytes@.len() - i,
    {
        copy.push(bytes[i]);
        assert(copy@ =~= bytes@.subrange(0, i + 1));
        i += 1;
    }
    assert(copy@ =~= bytes@);
    copy
}

fn push_asset(bytes: &mut Vec<u8>, asset: AssetKey)
    ensures
        final(bytes)@ == old(bytes)@ + asset_encoding(asset),
{
    let mut collection = u32_to_le_bytes(asset.collection);
    let mut item = u32_to_le_bytes(asset.item);
    bytes.append(&mut collection);
    bytes.append(&mut item);
    assert(bytes@ =~= old(bytes)@ + asset_encoding(asset));
}

fn read_asset(bytes: &[u8]) -> (asset: AssetKey)
    requires
        bytes@.len() == 8,
    ensures
        asset == asset_decoding(bytes@),
{
    let collection = u32_from_le_bytes(slice_subrange(bytes, 0, 4));
    let item = u32_from_le_bytes(slice_subrange(bytes, 4, 8));
    AssetKey { collection, item }
}

proof fn lemma_asset_encoding_inverts(asset: AssetKey)
    ensures
        asset_encoding(asset).len() == 8,
        asset_decoding(asset_encoding(asset)) == asset,
{
    lemma_auto_spec_u32_to_from_le_bytes();
    let bytes = asset_encoding(asset);
    assert(bytes.subrange(0, 4) =~= spec_u32_to_le_bytes(asset.collection));
    assert(bytes.subrange(4, 8) =~= spec_u32_to_le_bytes(asset.item));
}

proof fn lemma_asset_decoding_inverts(bytes: Seq<u8>)
    requires
        bytes.len() == 8,
    ensures
        asset_encoding(asset_decoding(bytes)) == bytes,
{
    lemma_auto_spec_u32_to_from_le_bytes();
    assert(bytes =~= bytes.subrange(0, 4) + bytes.subrange(4, 8));
}

/// Decoding what was encoded gives the action back.
pub proof fn lemma_encoding_inverts(a: Action)
    ensures
        Action::decoding(a.encoding()) == Some(a),
{
    lemma_auto_spec_u64_to_from_le_bytes();
    lemma_asset_encoding_inverts(a.spec_asset());
    let bytes = a.encoding();
    match a {
        Action::AcquireAsset { asset } => {
            assert(bytes.subrange(1, 9) =~= asset_encoding(asset));
        },
        Action::ApproveRepresentative { candidate, asset } => {
            assert(bytes.subrange(1, 9) =~= spec_u64_to_le_bytes(candidate));
            assert(bytes.subrange(9, 17) =~= asset_encoding(asset));
        },
        Action::ApproveTenant { tenant, asset } => {
            assert(bytes.subrange(1, 9) =~= spec_u64_to_le_bytes(tenant));
            assert(bytes.subrange(9, 17) =~= asset_encoding(asset));
        },
    }
}

/// Bytes that decode are the encoding of the action they decode to.
pub proof fn lemma_decoding_inverts(bytes: Seq<u8>)
    ensures
        Action::decoding(bytes) matches Some(a) ==> a.encoding() == bytes,
{
    lemma_auto_spec_u64_to_from_le_bytes();
    if bytes.len() == 9 && bytes[0] == 0 {
        lemma_asset_decoding_inverts(bytes.subrange(1, 9));
        assert(bytes =~= seq![0u8] + bytes.subrange(1, 9));
    } else if bytes.len() == 17 && (bytes[0] == 1 || bytes[0] == 2) {
        lemma_asset_decoding_inverts(bytes.subrange(9, 17));
        assert(bytes =~= seq![bytes[0]] + bytes.subrange(1, 9) + bytes.subrange(9, 17));
    }
}

/// Two actions with the same encoding are the same action, and so have the
/// same digest exactly when they are told apart by nothing else.
pub proof fn lemma_encoding_injective(a: Action, b: Action)
    requires
        a.encoding() == b.encoding(),
    ensures
        a == b,
{
    lemma_encoding_inverts(a);
    lemma_encoding_inverts(b);
}

} // verus!
