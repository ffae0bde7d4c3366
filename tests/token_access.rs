use near_sdk::test_utils::test_env::setup;
use nft_access::{AccessRegistry, AccountId, NftError, NonFungibleTokenBasic, NEP4};

fn id(s: &str) -> AccountId {
    s.to_string()
}

fn fresh() -> NonFungibleTokenBasic {
    setup();
    NonFungibleTokenBasic::default()
}

const ALICE_DIGEST: [u8; 32] = [
    45, 213, 221, 165, 64, 118, 123, 58, 26, 163, 53, 68, 188, 186, 56, 4, 47, 77, 246, 222, 155, 221, 180, 103,
    152, 178, 148, 129, 200, 66, 197, 88,
];

const BOB_DIGEST: [u8; 32] = [
    36, 52, 20, 40, 85, 50, 133, 225, 14, 116, 165, 242, 111, 70, 56, 172, 83, 175, 178, 140, 3, 42, 255, 26, 4,
    144, 14, 110, 177, 21, 164, 4,
];

#[test]
fn it_works() {
    let result = 2 + 2;
    assert_eq!(result, 4);
}

#[test]
fn mint_then_owner_is_known() {
    let mut c = fresh();
    assert_eq!(c.mint_token(id("alice.near"), 7), Ok(()));
    assert_eq!(c.get_token_owner(7), Ok(id("alice.near")));
}

#[test]
fn mint_twice_fails_and_keeps_first_owner() {
    let mut c = fresh();
    assert_eq!(c.mint_token(id("alice.near"), 1), Ok(()));
    assert_eq!(c.mint_token(id("bob.near"), 1), Err(NftError::DuplicateToken));
    assert_eq!(c.get_token_owner(1), Ok(id("alice.near")));
}

#[test]
fn token_zero_and_largest_identifier() {
    let mut c = fresh();
    assert_eq!(c.mint_token(id("alice.near"), 0), Ok(()));
    assert_eq!(c.mint_token(id("bob.near"), u64::MAX), Ok(()));
    assert_eq!(c.get_token_owner(0), Ok(id("alice.near")));
    assert_eq!(c.get_token_owner(u64::MAX), Ok(id("bob.near")));
}

#[test]
fn self_access_without_any_grant() {
    let c = fresh();
    assert_eq!(c.check_access(&id("alice.near"), id("alice.near")), Ok(true));
    assert_eq!(c.check_access(&id("bob.near"), id("alice.near")), Ok(false));
}

#[test]
fn self_access_after_revoking_oneself() {
    let mut c = fresh();
    c.grant_access(&id("alice.near"), id("alice.near")).unwrap();
    assert_eq!(c.revoke_access(&id("alice.near"), id("alice.near")), Ok(()));
    assert_eq!(c.check_access(&id("alice.near"), id("alice.near")), Ok(true));
}

#[test]
fn grant_then_revoke_round_trip() {
    let mut c = fresh();
    c.grant_access(&id("alice.near"), id("bob.near")).unwrap();
    assert_eq!(c.check_access(&id("bob.near"), id("alice.near")), Ok(true));
    assert_eq!(c.revoke_access(&id("alice.near"), id("bob.near")), Ok(()));
    assert_eq!(c.check_access(&id("bob.near"), id("alice.near")), Ok(false));
}

#[test]
fn grant_is_one_way() {
    let mut c = fresh();
    c.grant_access(&id("alice.near"), id("bob.near")).unwrap();
    assert_eq!(c.check_access(&id("alice.near"), id("bob.near")), Ok(false));
    assert_eq!(c.check_access(&id("carol.near"), id("alice.near")), Ok(false));
}

#[test]
fn revoke_without_grant_fails() {
    let mut c = fresh();
    assert_eq!(c.revoke_access(&id("alice.near"), id("bob.near")), Err(NftError::NoAccessRecord));
}

#[test]
fn revoke_by_other_grantor_fails() {
    let mut c = fresh();
    c.grant_access(&id("alice.near"), id("bob.near")).unwrap();
    assert_eq!(c.revoke_access(&id("carol.near"), id("bob.near")), Err(NftError::NoAccessRecord));
    assert_eq!(c.check_access(&id("bob.near"), id("alice.near")), Ok(true));
}

#[test]
fn revoke_unknown_grantee_fails_and_keeps_grant() {
    let mut c = fresh();
    c.grant_access(&id("alice.near"), id("bob.near")).unwrap();
    assert_eq!(c.revoke_access(&id("alice.near"), id("carol.near")), Err(NftError::GranteeNotFound));
    assert_eq!(c.check_access(&id("bob.near"), id("alice.near")), Ok(true));
}

#[test]
fn emptied_record_is_not_missing() {
    let mut c = fresh();
    c.grant_access(&id("alice.near"), id("bob.near")).unwrap();
    assert_eq!(c.revoke_access(&id("alice.near"), id("bob.near")), Ok(()));
    assert_eq!(c.revoke_access(&id("alice.near"), id("bob.near")), Err(NftError::GranteeNotFound));
}

#[test]
fn grant_twice_keeps_access() {
    let mut c = fresh();
    c.grant_access(&id("alice.near"), id("bob.near")).unwrap();
    c.grant_access(&id("alice.near"), id("bob.near")).unwrap();
    assert_eq!(c.check_access(&id("bob.near"), id("alice.near")), Ok(true));
    assert_eq!(c.revoke_access(&id("alice.near"), id("bob.near")), Ok(()));
    assert_eq!(c.check_access(&id("bob.near"), id("alice.near")), Ok(false));
}

#[test]
fn grants_of_two_grantors_are_separate() {
    let mut c = fresh();
    c.grant_access(&id("alice.near"), id("carol.near")).unwrap();
    c.grant_access(&id("bob.near"), id("dave.near")).unwrap();
    assert_eq!(c.check_access(&id("carol.near"), id("alice.near")), Ok(true));
    assert_eq!(c.check_access(&id("carol.near"), id("bob.near")), Ok(false));
    assert_eq!(c.check_access(&id("dave.near"), id("bob.near")), Ok(true));
    assert_eq!(c.check_access(&id("dave.near"), id("alice.near")), Ok(false));
}

#[test]
fn registry_holds_digests_not_names() {
    let mut c = fresh();
    c.grant_access(&id("alice.near"), id("bob.near")).unwrap();
    assert!(c.account_gives_access.has_access(&ALICE_DIGEST.to_vec(), &BOB_DIGEST.to_vec()));
    assert!(!c.account_gives_access.has_access(&b"alice.near".to_vec(), &b"bob.near".to_vec()));
    assert!(!c.account_gives_access.has_access(&BOB_DIGEST.to_vec(), &ALICE_DIGEST.to_vec()));
}

#[test]
fn transfer_by_non_owner_fails() {
    let mut c = fresh();
    c.mint_token(id("alice.near"), 3).unwrap();
    assert_eq!(c.transfer(&id("bob.near"), id("bob.near"), 3), Err(NftError::NotOwner));
    assert_eq!(c.get_token_owner(3), Ok(id("alice.near")));
}

#[test]
fn transfer_by_owner_succeeds() {
    let mut c = fresh();
    c.mint_token(id("alice.near"), 3).unwrap();
    assert_eq!(c.transfer(&id("alice.near"), id("bob.near"), 3), Ok(()));
    assert_eq!(c.get_token_owner(3), Ok(id("bob.near")));
    assert_eq!(c.transfer(&id("alice.near"), id("carol.near"), 3), Err(NftError::NotOwner));
}

#[test]
fn transfer_to_current_owner_succeeds() {
    let mut c = fresh();
    c.mint_token(id("alice.near"), 3).unwrap();
    assert_eq!(c.transfer(&id("alice.near"), id("alice.near"), 3), Ok(()));
    assert_eq!(c.get_token_owner(3), Ok(id("alice.near")));
}

#[test]
fn escrow_may_not_call_transfer() {
    let mut c = fresh();
    c.mint_token(id("alice.near"), 3).unwrap();
    c.grant_access(&id("alice.near"), id("bob.near")).unwrap();
    assert_eq!(c.transfer(&id("bob.near"), id("bob.near"), 3), Err(NftError::NotOwner));
    assert_eq!(c.get_token_owner(3), Ok(id("alice.near")));
}

#[test]
fn unknown_token_queries_fail() {
    let mut c = fresh();
    assert_eq!(c.get_token_owner(9), Err(NftError::UnknownToken));
    assert_eq!(c.transfer(&id("alice.near"), id("bob.near"), 9), Err(NftError::UnknownToken));
    assert_eq!(c.transfer_from(&id("alice.near"), id("alice.near"), id("bob.near"), 9), Err(NftError::UnknownToken));
}

#[test]
fn transfer_from_by_escrow_succeeds() {
    let mut c = fresh();
    c.mint_token(id("alice.near"), 5).unwrap();
    c.grant_access(&id("alice.near"), id("bob.near")).unwrap();
    assert_eq!(c.transfer_from(&id("bob.near"), id("alice.near"), id("carol.near"), 5), Ok(()));
    assert_eq!(c.get_token_owner(5), Ok(id("carol.near")));
}

#[test]
fn transfer_from_by_owner_succeeds() {
    let mut c = fresh();
    c.mint_token(id("alice.near"), 5).unwrap();
    assert_eq!(c.transfer_from(&id("alice.near"), id("alice.near"), id("carol.near"), 5), Ok(()));
    assert_eq!(c.get_token_owner(5), Ok(id("carol.near")));
}

#[test]
fn transfer_from_without_access_fails() {
    let mut c = fresh();
    c.mint_token(id("alice.near"), 5).unwrap();
    assert_eq!(c.transfer_from(&id("bob.near"), id("alice.near"), id("bob.near"), 5), Err(NftError::AccessDenied));
    assert_eq!(c.get_token_owner(5), Ok(id("alice.near")));
}

#[test]
fn transfer_from_with_wrong_owner_fails() {
    let mut c = fresh();
    c.mint_token(id("alice.near"), 5).unwrap();
    c.grant_access(&id("carol.near"), id("bob.near")).unwrap();
    assert_eq!(c.transfer_from(&id("bob.near"), id("carol.near"), id("bob.near"), 5), Err(NftError::NotOwner));
    assert_eq!(c.get_token_owner(5), Ok(id("alice.near")));
}

#[test]
fn transfer_from_after_revoke_fails() {
    let mut c = fresh();
    c.mint_token(id("alice.near"), 5).unwrap();
    c.grant_access(&id("alice.near"), id("bob.near")).unwrap();
    c.revoke_access(&id("alice.near"), id("bob.near")).unwrap();
    assert_eq!(c.transfer_from(&id("bob.near"), id("alice.near"), id("bob.near"), 5), Err(NftError::AccessDenied));
}

#[test]
fn error_messages() {
    assert_eq!(NftError::DuplicateToken.message(), "Token ID already exists.");
    assert_eq!(NftError::UnknownToken.message(), "No owner of the token ID specified");
    assert_eq!(NftError::NoAccessRecord.message(), "Access does not exist.");
    assert_eq!(NftError::GranteeNotFound.message(), "Did not find access for escrow ID.");
    assert_eq!(
        NftError::NotOwner.message(),
        "Attempt to call transfer on tokens belonging to another account."
    );
    assert_eq!(NftError::AccessDenied.message(), "Caller has no access on behalf of the owner.");
    assert_eq!(NftError::HostUnavailable.message(), "Blockchain interface not set.");
}

#[test]
fn without_host_hashing_operations_fail_and_change_nothing() {
    let mut c = NonFungibleTokenBasic::default();
    assert_eq!(c.mint_token(id("alice.near"), 1), Ok(()));
    assert_eq!(c.grant_access(&id("alice.near"), id("bob.near")), Err(NftError::HostUnavailable));
    assert_eq!(c.revoke_access(&id("alice.near"), id("bob.near")), Err(NftError::HostUnavailable));
    assert_eq!(c.check_access(&id("bob.near"), id("alice.near")), Err(NftError::HostUnavailable));
    assert_eq!(
        c.transfer_from(&id("bob.near"), id("alice.near"), id("bob.near"), 1),
        Err(NftError::HostUnavailable)
    );
    assert_eq!(c.get_token_owner(1), Ok(id("alice.near")));
    assert!(c.account_gives_access.grantors().is_empty());
}

#[test]
fn without_host_hash_free_operations_succeed() {
    let mut c = NonFungibleTokenBasic::default();
    assert_eq!(c.mint_token(id("alice.near"), 1), Ok(()));
    assert_eq!(c.check_access(&id("alice.near"), id("alice.near")), Ok(true));
    assert_eq!(c.transfer_from(&id("alice.near"), id("alice.near"), id("bob.near"), 1), Ok(()));
    assert_eq!(c.transfer(&id("bob.near"), id("carol.near"), 1), Ok(()));
    assert_eq!(c.transfer_from(&id("bob.near"), id("alice.near"), id("bob.near"), 1), Err(NftError::NotOwner));
    assert_eq!(c.get_token_owner(1), Ok(id("carol.near")));
}

#[test]
fn registry_grant_and_revoke_by_digest() {
    let mut r = AccessRegistry::new();
    assert!(!r.has_access(&vec![1u8], &vec![2u8]));
    assert_eq!(r.revoke(&vec![1u8], &vec![2u8]), Err(NftError::NoAccessRecord));
    r.grant(vec![1u8], vec![2u8]);
    r.grant(vec![1u8], vec![3u8]);
    assert!(r.has_access(&vec![1u8], &vec![2u8]));
    assert!(r.has_access(&vec![1u8], &vec![3u8]));
    assert!(!r.has_access(&vec![2u8], &vec![1u8]));
    assert_eq!(r.revoke(&vec![1u8], &vec![4u8]), Err(NftError::GranteeNotFound));
    assert_eq!(r.revoke(&vec![1u8], &vec![2u8]), Ok(()));
    assert!(!r.has_access(&vec![1u8], &vec![2u8]));
    assert!(r.has_access(&vec![1u8], &vec![3u8]));
    assert_eq!(r.grants().len(), 1);
    assert_eq!(r.grantors().len(), 1);
}

#[test]
fn registry_open_record_is_empty() {
    let mut r = AccessRegistry::new();
    r.open_record(&vec![7u8]);
    r.open_record(&vec![7u8]);
    assert_eq!(r.grantors().len(), 1);
    assert!(!r.has_access(&vec![7u8], &vec![7u8]));
    assert_eq!(r.revoke(&vec![7u8], &vec![8u8]), Err(NftError::GranteeNotFound));
}

#[test]
fn registry_empty_byte_strings() {
    let mut r = AccessRegistry::new();
    r.grant(Vec::new(), Vec::new());
    assert!(r.has_access(&Vec::new(), &Vec::new()));
    assert!(!r.has_access(&Vec::new(), &vec![0u8]));
}
