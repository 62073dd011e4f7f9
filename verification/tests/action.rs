use fairsquares::action::Action;
use fairsquares::types::AssetKey;

#[test]
fn acquire_asset_is_encoded_as_tag_collection_item() {
    let action = Action::AcquireAsset { asset: AssetKey { collection: 3, item: 7 } };
    assert_eq!(action.encode(), vec![0u8, 3, 0, 0, 0, 7, 0, 0, 0]);
}

#[test]
fn elections_are_encoded_with_the_candidate_first() {
    let asset = AssetKey { collection: 2, item: 0 };
    let representative = Action::ApproveRepresentative { candidate: 12, asset };
    assert_eq!(
        representative.encode(),
        vec![1u8, 12, 0, 0, 0, 0, 0, 0, 0, 2, 0, 0, 0, 0, 0, 0, 0]
    );
    let tenant = Action::ApproveTenant { tenant: 0x0102, asset };
    assert_eq!(tenant.encode(), vec![2u8, 2, 1, 0, 0, 0, 0, 0, 0, 2, 0, 0, 0, 0, 0, 0, 0]);
}

#[test]
fn digest_is_blake2b_256_of_the_encoding() {
    let action = Action::AcquireAsset { asset: AssetKey { collection: 3, item: 7 } };
    let digest = action.hash();
    assert_eq!(
        digest,
        vec![
            77, 71, 6, 51, 186, 252, 204, 110, 23, 111, 36, 28, 111, 236, 219, 174, 165, 194,
            147, 18, 134, 59, 162, 132, 128, 240, 103, 186, 59, 150, 72, 48
        ]
    );
    assert_ne!(digest, action.encode());
}

#[test]
fn decoding_inverts_encoding() {
    let asset = AssetKey { collection: 9, item: 4_000_000_000 };
    for action in [
        Action::AcquireAsset { asset },
        Action::ApproveRepresentative { candidate: u64::MAX, asset },
        Action::ApproveTenant { tenant: 77, asset },
    ] {
        assert_eq!(Action::decode(&action.encode()), Some(action));
        assert_eq!(action.asset(), asset);
    }
}

#[test]
fn bytes_that_encode_no_action_decode_to_nothing() {
    assert_eq!(Action::decode(&vec![]), None);
    assert_eq!(Action::decode(&vec![3u8, 0, 0, 0, 0, 0, 0, 0, 0]), None);
    assert_eq!(Action::decode(&vec![0u8, 0, 0, 0, 0, 0, 0, 0]), None);
    assert_eq!(Action::decode(&vec![1u8, 3, 0, 0, 0, 7, 0, 0, 0]), None);
    assert_eq!(Action::decode(&vec![0u8; 17]), None);
}

#[test]
fn different_actions_have_different_digests() {
    let asset = AssetKey { collection: 2, item: 0 };
    let first = Action::ApproveTenant { tenant: 13, asset };
    let second = Action::ApproveTenant { tenant: 14, asset };
    assert_ne!(first.hash(), second.hash());
    assert_eq!(first.hash(), Action::ApproveTenant { tenant: 13, asset }.hash());
}
