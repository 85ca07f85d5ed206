//! Scenario coverage for the stated properties: the duration grammar, the
//! conflict rule, the visibility filter and its enumeration asymmetry, the
//! payout split with its rounding behaviour, the capacity limits, and the
//! storage-metered refund.

use nft_registry::contract::Contract;
use nft_registry::duration::parse_time;
use nft_registry::errors::TokenError;
use nft_registry::metadata::TokenMetadata;

const COST_PER_UNIT: u128 = 10_000_000_000_000_000_000;
const MINT_DEPOSIT: u128 = 10_000_000_000_000_000_000_000;

fn alice() -> String {
    "alice".to_string()
}

fn bob() -> String {
    "bob".to_string()
}

fn plain_metadata() -> TokenMetadata {
    TokenMetadata {
        title: Some("Olympus Mons".into()),
        description: None,
        media: None,
        media_hash: None,
        copies: None,
        issued_at: None,
        expires_at: None,
        starts_at: None,
        updated_at: None,
        extra: None,
        reference: None,
        reference_hash: None,
    }
}

#[test]
fn parse_time_accepts_each_unit() {
    assert_eq!(parse_time("2s").unwrap(), 2_000_000_000);
    assert_eq!(parse_time("5m").unwrap(), 300_000_000_000);
    assert_eq!(parse_time("1h").unwrap(), 3_600_000_000_000);
    assert_eq!(parse_time("2d").unwrap(), 172_800_000_000_000);
    assert_eq!(parse_time("0s").unwrap(), 0);
    assert_eq!(parse_time("10m").unwrap(), 600_000_000_000);
}

#[test]
fn parse_time_rejects_malformed_text() {
    assert_eq!(parse_time("1x"), Err(TokenError::Validation));
    assert_eq!(parse_time("abc"), Err(TokenError::Validation));
    assert_eq!(parse_time(""), Err(TokenError::Validation));
    assert_eq!(parse_time("s"), Err(TokenError::Validation));
    assert_eq!(parse_time("5"), Err(TokenError::Validation));
    assert_eq!(parse_time("-5s"), Err(TokenError::Validation));
    assert_eq!(parse_time("5.5s"), Err(TokenError::Validation));
    assert_eq!(parse_time(" 5s"), Err(TokenError::Validation));
    assert_eq!(parse_time("5m "), Err(TokenError::Validation));
    assert_eq!(parse_time("1m30s"), Err(TokenError::Validation));
}

#[test]
fn parse_time_rejects_overflow() {
    // Ten times more digits than u64 can carry.
    assert_eq!(
        parse_time("99999999999999999999s"),
        Err(TokenError::Validation)
    );
    // The digits fit, the unit multiplication does not.
    assert_eq!(parse_time("18446744073709551615d"), Err(TokenError::Validation));
}

#[test]
fn mint_same_id_twice_fails_conflict() {
    let mut c = Contract::new_default_meta(alice());
    let (first, _) = c
        .nft_mint(
            "t1".to_string(),
            alice(),
            plain_metadata(),
            None,
            None,
            alice(),
            0,
            MINT_DEPOSIT,
            COST_PER_UNIT,
        )
        .unwrap();
    let second = c.nft_mint(
        "t1".to_string(),
        bob(),
        TokenMetadata {
            title: Some("Another".into()),
            description: None,
            media: None,
            media_hash: None,
            copies: None,
            issued_at: None,
            expires_at: None,
            starts_at: None,
            updated_at: None,
            extra: None,
            reference: None,
            reference_hash: None,
        },
        None,
        None,
        alice(),
        0,
        MINT_DEPOSIT,
        COST_PER_UNIT,
    );
    assert_eq!(second.unwrap_err(), TokenError::Conflict);
    // The first token's data is unchanged afterward.
    let seen = c.nft_token("t1".to_string(), alice(), 0).unwrap();
    assert_eq!(seen, first);
}

#[test]
fn expired_token_visibility_by_caller() {
    let mut c = Contract::new_default_meta("registry".to_string());
    let (minted, _) = c
        .nft_mint(
            "t1".to_string(),
            alice(),
            plain_metadata(),
            Some("5m".to_string()),
            None,
            "registry".to_string(),
            0,
            MINT_DEPOSIT,
            COST_PER_UNIT,
        )
        .unwrap();
    assert_eq!(minted.expiration_date, Some(300_000_000_000));

    let t_expired: u64 = 301_000_000_000;
    // The owner sees the full record, metadata included, before and past
    // expiry.
    let at_zero = c.nft_token("t1".to_string(), alice(), 0).unwrap();
    assert!(at_zero.metadata.is_some());
    let at_end = c.nft_token("t1".to_string(), alice(), t_expired).unwrap();
    assert!(at_end.metadata.is_some());
    // The contract itself does too.
    let by_self = c
        .nft_token("t1".to_string(), "registry".to_string(), t_expired)
        .unwrap();
    assert!(by_self.metadata.is_some());
    // Any other caller sees the record with metadata suppressed before
    // expiry, and nothing at all after it.
    let by_other = c.nft_token("t1".to_string(), bob(), 0).unwrap();
    assert_eq!(by_other.metadata, None);
    assert_eq!(by_other.owner_id, alice());
    assert_eq!(c.nft_token("t1".to_string(), bob(), t_expired), None);
}

#[test]
fn enumeration_excludes_expired_for_everyone() {
    let mut c = Contract::new_default_meta("registry".to_string());
    c.nft_mint(
        "t1".to_string(),
        alice(),
        plain_metadata(),
        Some("5m".to_string()),
        None,
        "registry".to_string(),
        0,
        MINT_DEPOSIT,
        COST_PER_UNIT,
    )
    .unwrap();
    let t_expired: u64 = 301_000_000_000;
    // The single lookup still succeeds for the owner ...
    assert!(c.nft_token("t1".to_string(), alice(), t_expired).is_some());
    // ... yet every enumeration path excludes the token, with no caller
    // distinction to make: the listing carries no caller at all.
    assert_eq!(c.nft_tokens(None, None, t_expired).unwrap(), Vec::new());
    assert_eq!(
        c.nft_tokens_for_owner(alice(), None, None, t_expired).unwrap(),
        Vec::new()
    );
    // Before expiry the token is listed.
    assert_eq!(c.nft_tokens(None, None, 0).unwrap().len(), 1);
    assert_eq!(
        c.nft_tokens_for_owner(alice(), None, None, 0).unwrap().len(),
        1
    );
}

#[test]
fn enumeration_pagination() {
    let mut c = Contract::new_default_meta("registry".to_string());
    for id in ["a", "b", "c"] {
        c.nft_mint(
            id.to_string(),
            alice(),
            plain_metadata(),
            None,
            None,
            "registry".to_string(),
            0,
            MINT_DEPOSIT,
            COST_PER_UNIT,
        )
        .unwrap();
    }
    let page = c.nft_tokens(Some(1), Some(1), 0).unwrap();
    assert_eq!(page.len(), 1);
    assert_eq!(page[0].token_id, "b".to_string());
    // A zero limit is an error; so is a start beyond the collection.
    assert_eq!(c.nft_tokens(None, Some(0), 0), Err(TokenError::Validation));
    assert_eq!(c.nft_tokens(Some(4), None, 0), Err(TokenError::Validation));
    // A start exactly at the collection size yields an empty page.
    assert_eq!(c.nft_tokens(Some(3), None, 0).unwrap(), Vec::new());
}

#[test]
fn payout_splits_round_sale_exactly() {
    let mut c = Contract::new_default_meta(alice());
    c.nft_mint(
        "t".to_string(),
        alice(),
        plain_metadata(),
        None,
        Some(vec![(bob(), 2000u32)]),
        alice(),
        0,
        MINT_DEPOSIT,
        COST_PER_UNIT,
    )
    .unwrap();
    let payout = c.nft_payout("t".to_string(), 10000, 10).unwrap();
    assert_eq!(payout.payout, vec![(bob(), 2000u128), (alice(), 8000u128)]);
    let total: u128 = payout.payout.iter().map(|p| p.1).sum();
    assert_eq!(total, 10000);
}

#[test]
fn payout_floors_small_sale() {
    let mut c = Contract::new_default_meta(alice());
    c.nft_mint(
        "t".to_string(),
        alice(),
        plain_metadata(),
        None,
        Some(vec![(bob(), 2000u32)]),
        alice(),
        0,
        MINT_DEPOSIT,
        COST_PER_UNIT,
    )
    .unwrap();
    // Sale amount 10: bob's share floors to 2, alice's to 8; the total
    // happens to equal 10 here, with no exactness promised in general.
    let payout = c.nft_payout("t".to_string(), 10, 10).unwrap();
    assert_eq!(payout.payout, vec![(bob(), 2u128), (alice(), 8u128)]);
}

#[test]
fn payout_rounding_dust_stays_unaccounted() {
    let mut c = Contract::new_default_meta(alice());
    c.nft_mint(
        "t".to_string(),
        alice(),
        plain_metadata(),
        None,
        Some(vec![(bob(), 3333u32)]),
        alice(),
        0,
        MINT_DEPOSIT,
        COST_PER_UNIT,
    )
    .unwrap();
    // 3333 bp of 101 floors to 33; the owner's 6667 bp floor to 67;
    // one unit of dust is lost to rounding.
    let payout = c.nft_payout("t".to_string(), 101, 10).unwrap();
    assert_eq!(payout.payout, vec![(bob(), 33u128), (alice(), 67u128)]);
    let total: u128 = payout.payout.iter().map(|p| p.1).sum();
    assert_eq!(total, 100);
}

#[test]
fn payout_skips_owner_as_beneficiary() {
    let mut c = Contract::new_default_meta(alice());
    c.nft_mint(
        "t".to_string(),
        alice(),
        plain_metadata(),
        None,
        Some(vec![(alice(), 2000u32), (bob(), 1000u32)]),
        alice(),
        0,
        MINT_DEPOSIT,
        COST_PER_UNIT,
    )
    .unwrap();
    // The owner's listed share is not paid on top: the owner's entry is
    // the residual of the non-owner basis points alone.
    let payout = c.nft_payout("t".to_string(), 10000, 10).unwrap();
    assert_eq!(payout.payout, vec![(bob(), 1000u128), (alice(), 9000u128)]);
}

#[test]
fn payout_requires_royalty_table() {
    let mut c = Contract::new_default_meta(alice());
    c.nft_mint(
        "t".to_string(),
        alice(),
        plain_metadata(),
        None,
        None,
        alice(),
        0,
        MINT_DEPOSIT,
        COST_PER_UNIT,
    )
    .unwrap();
    assert_eq!(
        c.nft_payout("t".to_string(), 10000, 10),
        Err(TokenError::NotFound)
    );
    assert_eq!(
        c.nft_payout("missing".to_string(), 10000, 10),
        Err(TokenError::NotFound)
    );
}

#[test]
fn royalty_capacity_limits() {
    let mut c = Contract::new_default_meta(alice());
    let seven: Vec<(String, u32)> = (0..7).map(|i| (format!("acct{}", i), 100u32)).collect();
    let r = c.nft_mint(
        "t".to_string(),
        alice(),
        plain_metadata(),
        None,
        Some(seven),
        alice(),
        0,
        MINT_DEPOSIT,
        COST_PER_UNIT,
    );
    assert_eq!(r.unwrap_err(), TokenError::CapacityExceeded);

    // Six beneficiaries pass; a payout cap below the stored count fails.
    let six: Vec<(String, u32)> = (0..6).map(|i| (format!("acct{}", i), 100u32)).collect();
    c.nft_mint(
        "t".to_string(),
        alice(),
        plain_metadata(),
        None,
        Some(six),
        alice(),
        0,
        MINT_DEPOSIT,
        COST_PER_UNIT,
    )
    .unwrap();
    assert_eq!(
        c.nft_payout("t".to_string(), 10000, 5),
        Err(TokenError::CapacityExceeded)
    );
    assert!(c.nft_payout("t".to_string(), 10000, 6).is_ok());
}

#[test]
fn royalty_values_are_validated() {
    let mut c = Contract::new_default_meta(alice());
    // One share over the whole.
    let r = c.nft_mint(
        "t".to_string(),
        alice(),
        plain_metadata(),
        None,
        Some(vec![(bob(), 10001u32)]),
        alice(),
        0,
        MINT_DEPOSIT,
        COST_PER_UNIT,
    );
    assert_eq!(r.unwrap_err(), TokenError::Validation);
    // Shares totalling over the whole.
    let r = c.nft_mint(
        "t".to_string(),
        alice(),
        plain_metadata(),
        None,
        Some(vec![(bob(), 6000u32), ("carol".to_string(), 6000u32)]),
        alice(),
        0,
        MINT_DEPOSIT,
        COST_PER_UNIT,
    );
    assert_eq!(r.unwrap_err(), TokenError::Validation);
    // A repeated beneficiary.
    let r = c.nft_mint(
        "t".to_string(),
        alice(),
        plain_metadata(),
        None,
        Some(vec![(bob(), 100u32), (bob(), 200u32)]),
        alice(),
        0,
        MINT_DEPOSIT,
        COST_PER_UNIT,
    );
    assert_eq!(r.unwrap_err(), TokenError::Validation);
}

#[test]
fn mint_refunds_exact_storage_surplus() {
    let mut c = Contract::new_default_meta(alice());
    let before = c.storage_units();
    let attached = MINT_DEPOSIT;
    let (_token, refund) = c
        .nft_mint(
            "t1".to_string(),
            bob(),
            plain_metadata(),
            Some("2s".to_string()),
            None,
            alice(),
            0,
            attached,
            COST_PER_UNIT,
        )
        .unwrap();
    let after = c.storage_units();
    let actual_cost = (after - before) * COST_PER_UNIT;
    assert!(attached > actual_cost);
    assert_eq!(refund, attached - actual_cost);
}

#[test]
fn mint_underpayment_leaves_no_trace() {
    let mut c = Contract::new_default_meta(alice());
    let r = c.nft_mint(
        "t1".to_string(),
        bob(),
        plain_metadata(),
        None,
        None,
        alice(),
        0,
        1,
        COST_PER_UNIT,
    );
    assert_eq!(r.unwrap_err(), TokenError::Underpayment);
    assert_eq!(c.storage_units(), 0);
    assert_eq!(c.nft_token("t1".to_string(), alice(), 0), None);
}

#[test]
fn mint_rejects_bad_duration_and_caller() {
    let mut c = Contract::new_default_meta(alice());
    let r = c.nft_mint(
        "t1".to_string(),
        bob(),
        plain_metadata(),
        Some("soon".to_string()),
        None,
        alice(),
        0,
        MINT_DEPOSIT,
        COST_PER_UNIT,
    );
    assert_eq!(r.unwrap_err(), TokenError::Validation);
    let r = c.nft_mint(
        "t1".to_string(),
        bob(),
        plain_metadata(),
        None,
        None,
        bob(),
        0,
        MINT_DEPOSIT,
        COST_PER_UNIT,
    );
    assert_eq!(r.unwrap_err(), TokenError::Unauthorized);
}
