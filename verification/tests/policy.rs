//! Exercises the policy gate: compliance modes, the exact expiry
//! boundary, whitelist membership, pausing, and the bookkeeping laws on
//! concrete values.

use rwa_ledger::AssetMetadata;
use rwa_ledger::ComplianceData;
use rwa_ledger::ComplianceMode;
use rwa_ledger::Error;
use rwa_ledger::RealWorldAssetContract;

const ADMIN: u64 = 1;
const USER: u64 = 2;

fn metadata() -> AssetMetadata {
    AssetMetadata {
        name: String::from("Grain Silo"),
        symbol: String::from("SILO"),
        description: String::from("Tokenized storage capacity"),
        asset_type: String::from("commodity"),
        legal_doc_hash: String::from("QmSilo"),
        valuation: 500_000,
        last_valuation_date: 1600000000,
    }
}

fn record(kyc: bool, expiry: u64) -> ComplianceData {
    ComplianceData {
        kyc_verified: kyc,
        accredited_investor: true,
        jurisdiction: String::from("US"),
        compliance_expiry: expiry,
    }
}

#[test]
fn strict_mint_without_record_fails_then_skip_mode_succeeds() {
    let mut c = RealWorldAssetContract::new();
    c.initialize(ADMIN, metadata(), 1000).unwrap();
    let r = c.mint(ADMIN, ADMIN, 500, ComplianceMode::Strict, 0);
    assert_eq!(r, Err(Error::ComplianceMissing));
    assert_eq!(c.get_total_supply(), 1000);
    c.mint(ADMIN, ADMIN, 500, ComplianceMode::Skip, 0).unwrap();
    assert_eq!(c.get_total_supply(), 1500);
}

#[test]
fn compliant_whitelisted_recipient_receives_transfer() {
    let mut c = RealWorldAssetContract::new();
    c.initialize(ADMIN, metadata(), 1000).unwrap();
    let expiry = 5000u64;
    c.add_compliance(ADMIN, USER, record(true, expiry)).unwrap();
    c.add_to_whitelist(ADMIN, USER).unwrap();
    c.transfer(ADMIN, USER, 100, expiry).unwrap();
    assert_eq!(c.balance(USER), 100);
    assert_eq!(c.balance(ADMIN), 900);
}

#[test]
fn removed_recipient_fails_not_whitelisted() {
    let mut c = RealWorldAssetContract::new();
    c.initialize(ADMIN, metadata(), 1000).unwrap();
    c.add_compliance(ADMIN, USER, record(true, 5000)).unwrap();
    c.add_to_whitelist(ADMIN, USER).unwrap();
    c.remove_from_whitelist(ADMIN, USER).unwrap();
    let r = c.transfer(ADMIN, USER, 1, 0);
    assert_eq!(r, Err(Error::NotWhitelisted));
    assert_eq!(c.balance(USER), 0);
}

#[test]
fn compliant_but_unlisted_recipient_fails_not_whitelisted() {
    let mut c = RealWorldAssetContract::new();
    c.initialize(ADMIN, metadata(), 1000).unwrap();
    c.add_compliance(ADMIN, USER, record(true, 5000)).unwrap();
    let r = c.transfer(ADMIN, USER, 10, 0);
    assert_eq!(r, Err(Error::NotWhitelisted));
}

#[test]
fn expiry_boundary_is_exact() {
    let mut c = RealWorldAssetContract::new();
    c.initialize(ADMIN, metadata(), 1000).unwrap();
    let now = 4000u64;
    c.add_compliance(ADMIN, USER, record(true, now)).unwrap();
    c.add_to_whitelist(ADMIN, USER).unwrap();
    c.transfer(ADMIN, USER, 100, now).unwrap();
    assert_eq!(c.balance(USER), 100);

    c.add_compliance(ADMIN, USER, record(true, now - 1)).unwrap();
    let r = c.transfer(ADMIN, USER, 100, now);
    assert_eq!(r, Err(Error::ComplianceExpired));
    assert_eq!(c.balance(USER), 100);
}

#[test]
fn pause_gates_only_balance_operations() {
    let mut c = RealWorldAssetContract::new();
    c.initialize(ADMIN, metadata(), 1000).unwrap();
    c.add_compliance(ADMIN, USER, record(true, 5000)).unwrap();
    c.add_to_whitelist(ADMIN, USER).unwrap();
    c.set_paused(ADMIN, true).unwrap();

    assert_eq!(c.mint(ADMIN, USER, 10, ComplianceMode::Skip, 0), Err(Error::Paused));
    assert_eq!(c.burn(ADMIN, ADMIN, 10), Err(Error::Paused));
    assert_eq!(c.transfer(ADMIN, USER, 10, 0), Err(Error::Paused));

    assert_eq!(c.get_admin().unwrap(), ADMIN);
    assert!(c.is_whitelisted(USER));
    c.add_to_whitelist(ADMIN, 3).unwrap();
    c.add_compliance(ADMIN, 3, record(true, 5000)).unwrap();

    c.set_paused(ADMIN, false).unwrap();
    c.mint(ADMIN, USER, 10, ComplianceMode::Skip, 0).unwrap();
    assert_eq!(c.get_total_supply(), 1010);
}

#[test]
fn mint_mode_matrix_missing_record() {
    let mut c = RealWorldAssetContract::new();
    c.initialize(ADMIN, metadata(), 0).unwrap();
    assert_eq!(c.mint(ADMIN, USER, 5, ComplianceMode::Strict, 0), Err(Error::ComplianceMissing));
    assert_eq!(
        c.mint(ADMIN, USER, 5, ComplianceMode::VerifyOnly, 0),
        Err(Error::ComplianceMissing)
    );
    c.mint(ADMIN, USER, 5, ComplianceMode::Skip, 0).unwrap();
    assert_eq!(c.balance(USER), 5);
}

#[test]
fn mint_mode_matrix_unverified_record() {
    let mut c = RealWorldAssetContract::new();
    c.initialize(ADMIN, metadata(), 0).unwrap();
    c.add_compliance(ADMIN, USER, record(false, 5000)).unwrap();
    assert_eq!(c.mint(ADMIN, USER, 5, ComplianceMode::Strict, 0), Err(Error::KycNotVerified));
    assert_eq!(c.mint(ADMIN, USER, 5, ComplianceMode::VerifyOnly, 0), Err(Error::KycNotVerified));
    c.mint(ADMIN, USER, 5, ComplianceMode::Skip, 0).unwrap();
    assert_eq!(c.balance(USER), 5);
}

#[test]
fn mint_mode_matrix_expired_record() {
    let mut c = RealWorldAssetContract::new();
    c.initialize(ADMIN, metadata(), 0).unwrap();
    c.add_compliance(ADMIN, USER, record(true, 99)).unwrap();
    assert_eq!(c.mint(ADMIN, USER, 5, ComplianceMode::Strict, 100), Err(Error::ComplianceExpired));
    c.mint(ADMIN, USER, 5, ComplianceMode::VerifyOnly, 100).unwrap();
    c.mint(ADMIN, USER, 5, ComplianceMode::Strict, 99).unwrap();
    assert_eq!(c.balance(USER), 10);
}

#[test]
fn mint_aliases_match_their_modes() {
    let mut c = RealWorldAssetContract::new();
    c.initialize(ADMIN, metadata(), 0).unwrap();
    c.mint_simple(ADMIN, USER, 5).unwrap();
    c.mint_no_compliance(ADMIN, USER, 5).unwrap();
    assert_eq!(c.mint_simple_compliance(ADMIN, USER, 5), Err(Error::ComplianceMissing));
    c.add_compliance(ADMIN, USER, record(true, 0)).unwrap();
    c.mint_simple_compliance(ADMIN, USER, 5).unwrap();
    assert_eq!(c.balance(USER), 15);
}

#[test]
fn mint_then_burn_restores_balance_and_supply() {
    let mut c = RealWorldAssetContract::new();
    c.initialize(ADMIN, metadata(), 1000).unwrap();
    let before_balance = c.balance(ADMIN);
    let before_supply = c.get_total_supply();
    c.mint(ADMIN, ADMIN, 250, ComplianceMode::Skip, 0).unwrap();
    c.burn(ADMIN, ADMIN, 250).unwrap();
    assert_eq!(c.balance(ADMIN), before_balance);
    assert_eq!(c.get_total_supply(), before_supply);
}

#[test]
fn transfer_conserves_sum_and_supply() {
    let mut c = RealWorldAssetContract::new();
    c.initialize(ADMIN, metadata(), 1000).unwrap();
    c.add_compliance(ADMIN, USER, record(true, 5000)).unwrap();
    c.add_to_whitelist(ADMIN, USER).unwrap();
    let before_sum = c.balance(ADMIN) + c.balance(USER);
    let before_supply = c.get_total_supply();
    c.transfer(ADMIN, USER, 400, 0).unwrap();
    assert_eq!(c.balance(ADMIN) + c.balance(USER), before_sum);
    assert_eq!(c.get_total_supply(), before_supply);
}

#[test]
fn whitelist_add_is_idempotent() {
    let mut c = RealWorldAssetContract::new();
    c.initialize(ADMIN, metadata(), 0).unwrap();
    c.add_to_whitelist(ADMIN, USER).unwrap();
    c.add_to_whitelist(ADMIN, USER).unwrap();
    assert!(c.is_whitelisted(USER));
    c.remove_from_whitelist(ADMIN, USER).unwrap();
    assert!(!c.is_whitelisted(USER));
    c.remove_from_whitelist(ADMIN, USER).unwrap();
    assert!(!c.is_whitelisted(USER));
}

#[test]
fn supply_tracks_sum_of_balances_across_operations() {
    let mut c = RealWorldAssetContract::new();
    c.initialize(ADMIN, metadata(), 700).unwrap();
    c.add_compliance(ADMIN, USER, record(true, 5000)).unwrap();
    c.add_to_whitelist(ADMIN, USER).unwrap();
    c.mint(ADMIN, USER, 300, ComplianceMode::Strict, 0).unwrap();
    c.transfer(ADMIN, USER, 200, 0).unwrap();
    c.burn(ADMIN, USER, 100).unwrap();
    let sum = c.balance(ADMIN) + c.balance(USER);
    assert_eq!(c.get_total_supply(), sum);
    assert_eq!(c.balance(ADMIN), 500);
    assert_eq!(c.balance(USER), 400);
    assert_eq!(c.get_total_supply(), 900);
}
