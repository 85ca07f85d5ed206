//! The payout-gated transfer and the transfer guards.

use nft_registry::contract::Contract;
use nft_registry::errors::TokenError;
use nft_registry::metadata::ContractMetadata;
use nft_registry::metadata::TokenMetadata;

const COST_PER_UNIT: u128 = 10_000_000_000_000_000_000;
const MINT_DEPOSIT: u128 = 10_000_000_000_000_000_000_000;

fn alice() -> String {
    "alice".to_string()
}

fn bob() -> String {
    "bob".to_string()
}

fn carol() -> String {
    "carol".to_string()
}

fn plain_metadata() -> TokenMetadata {
    TokenMetadata {
        title: Some("Olympus Mons".into()),
        description: None,
        media: None,
        media_hash: None,
        copies: None,
        issued_at: None,
        expires_at: None,
        starts_at: None,
        updated_at: None,
        extra: None,
        reference: None,
        reference_hash: None,
    }
}

fn registry_with_token() -> Contract {
    let mut c = Contract::new_default_meta(alice());
    c.nft_mint(
        "t".to_string(),
        alice(),
        plain_metadata(),
        None,
        Some(vec![(bob(), 2000u32)]),
        alice(),
        0,
        MINT_DEPOSIT,
        COST_PER_UNIT,
    )
    .unwrap();
    c
}

#[test]
fn transfer_requires_unit_payment() {
    let mut c = registry_with_token();
    let r = c.nft_transfer(bob(), "t".to_string(), None, None, alice(), 0);
    assert_eq!(r.unwrap_err(), TokenError::Unauthorized);
    let r = c.nft_transfer(bob(), "t".to_string(), None, None, alice(), 2);
    assert_eq!(r.unwrap_err(), TokenError::Unauthorized);
    assert_eq!(
        c.nft_token("t".to_string(), alice(), 0).unwrap().owner_id,
        alice()
    );
}

#[test]
fn transfer_rejects_strangers_and_self_transfer() {
    let mut c = registry_with_token();
    let r = c.nft_transfer(carol(), "t".to_string(), None, None, bob(), 1);
    assert_eq!(r.unwrap_err(), TokenError::Unauthorized);
    let r = c.nft_transfer(alice(), "t".to_string(), None, None, alice(), 1);
    assert_eq!(r.unwrap_err(), TokenError::Validation);
    let r = c.nft_transfer(bob(), "missing".to_string(), None, None, alice(), 1);
    assert_eq!(r.unwrap_err(), TokenError::NotFound);
}

#[test]
fn approved_account_can_transfer_with_matching_id() {
    let mut c = registry_with_token();
    let (approval_id, _refund) = c
        .nft_approve(
            "t".to_string(),
            bob(),
            alice(),
            150000000000000000000,
            COST_PER_UNIT,
        )
        .unwrap();
    // A mismatched sequence number is refused.
    let r = c.nft_transfer(
        carol(),
        "t".to_string(),
        Some(approval_id + 1),
        None,
        bob(),
        1,
    );
    assert_eq!(r.unwrap_err(), TokenError::Unauthorized);
    // The matching one moves the token and clears the approvals.
    c.nft_transfer(carol(), "t".to_string(), Some(approval_id), None, bob(), 1)
        .unwrap();
    let token = c.nft_token("t".to_string(), carol(), 0).unwrap();
    assert_eq!(token.owner_id, carol());
    assert_eq!(token.approved_account_ids.unwrap(), Vec::new());
}

#[test]
fn transfer_payout_splits_then_moves() {
    let mut c = registry_with_token();
    let (approval_id, _refund) = c
        .nft_approve(
            "t".to_string(),
            bob(),
            alice(),
            150000000000000000000,
            COST_PER_UNIT,
        )
        .unwrap();
    let payout = c
        .nft_transfer_payout(
            carol(),
            "t".to_string(),
            approval_id,
            None,
            10000,
            10,
            bob(),
            1,
        )
        .unwrap();
    assert_eq!(payout.payout, vec![(bob(), 2000u128), (alice(), 8000u128)]);
    assert_eq!(
        c.nft_token("t".to_string(), carol(), 0).unwrap().owner_id,
        carol()
    );
}

#[test]
fn transfer_payout_requires_unit_payment() {
    let mut c = registry_with_token();
    let r = c.nft_transfer_payout(carol(), "t".to_string(), 1, None, 10000, 10, alice(), 0);
    assert_eq!(r.unwrap_err(), TokenError::Unauthorized);
}

#[test]
fn transfer_payout_blocked_by_unprocessable_breakdown() {
    let mut c = registry_with_token();
    // The stored table holds one beneficiary; a cap of zero cannot take
    // the breakdown, so the token must not move.
    let r = c.nft_transfer_payout(carol(), "t".to_string(), 1, None, 10000, 0, alice(), 1);
    assert_eq!(r.unwrap_err(), TokenError::CapacityExceeded);
    assert_eq!(
        c.nft_token("t".to_string(), alice(), 0).unwrap().owner_id,
        alice()
    );
}

#[test]
fn new_rejects_unknown_schema() {
    let metadata = ContractMetadata {
        spec: "nft-2.0.0".to_string(),
        name: "Example".to_string(),
        symbol: "EX".to_string(),
        icon: None,
        base_uri: None,
        reference: None,
        reference_hash: None,
    };
    assert!(matches!(
        Contract::new(alice(), metadata),
        Err(TokenError::Validation)
    ));
    let metadata = ContractMetadata {
        spec: "nft-1.0.0".to_string(),
        name: "Example".to_string(),
        symbol: "EX".to_string(),
        icon: None,
        base_uri: None,
        reference: None,
        reference_hash: None,
    };
    assert!(Contract::new(alice(), metadata).is_ok());
}

#[test]
fn new_requires_reference_and_hash_together() {
    let metadata = ContractMetadata {
        spec: "nft-1.0.0".to_string(),
        name: "Example".to_string(),
        symbol: "EX".to_string(),
        icon: None,
        base_uri: None,
        reference: Some("https://example.test/meta.json".to_string()),
        reference_hash: None,
    };
    assert!(matches!(
        Contract::new(alice(), metadata),
        Err(TokenError::Validation)
    ));
    let metadata = ContractMetadata {
        spec: "nft-1.0.0".to_string(),
        name: "Example".to_string(),
        symbol: "EX".to_string(),
        icon: None,
        base_uri: None,
        reference: Some("https://example.test/meta.json".to_string()),
        reference_hash: Some(vec![7u8; 32]),
    };
    assert!(Contract::new(alice(), metadata).is_ok());
}
