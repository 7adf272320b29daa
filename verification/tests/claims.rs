use msc_contracts::error::MscError;
use msc_contracts::ledger::Ledger;
use msc_contracts::ownership::{create_claim, generate_transaction_id, get_claim, validate_file_hash};
use msc_contracts::service::{pay_and_create_claim, CLAIM_PRICE};
use msc_contracts::state::{OwnershipClaim, TokenAccount, PAYMENT_STATUS_COMPLETED};

const USER: u64 = 7;
const TREASURY_OWNER: u64 = 9;
const NOW: i64 = 1_700_000_000;

fn hex_hash() -> String {
    "0123456789abcdef0123456789abcdef0123456789abcdef0123456789abcdef".to_string()
}

#[test]
fn file_hash_validator_accepts_hex() {
    assert!(validate_file_hash(&hex_hash()));
    assert!(validate_file_hash(
        "ABCDEF0123456789ABCDEF0123456789ABCDEF0123456789ABCDEF0123456789"
    ));
}

#[test]
fn file_hash_validator_rejects_short() {
    assert!(!validate_file_hash("abc"));
    assert!(!validate_file_hash(""));
    assert!(!validate_file_hash(
        "0123456789abcdef0123456789abcdef0123456789abcdef0123456789abcde"
    ));
}

#[test]
fn file_hash_validator_rejects_non_hex() {
    assert!(!validate_file_hash(
        "g123456789abcdef0123456789abcdef0123456789abcdef0123456789abcdef"
    ));
    assert!(!validate_file_hash(
        "0123456789abcdef0123456789abcdef0123456789abcdef0123456789abcdeg"
    ));
}

#[test]
fn transaction_id_renders_owner_and_time() {
    assert_eq!(generate_transaction_id(5, 7), "5-7");
}

#[test]
fn create_claim_records_and_counts() {
    let mut ledger = Ledger::new();
    create_claim(&mut ledger, USER, hex_hash(), NOW).unwrap();
    assert_eq!(ledger.claims.len(), 1);
    let claim = &ledger.claims[0];
    assert_eq!(claim.owner, USER);
    assert_eq!(claim.file_hash, hex_hash());
    assert_eq!(claim.timestamp, NOW);
    assert!(claim.is_active);
    assert_eq!(ledger.stats.len(), 1);
    assert_eq!(ledger.stats[0].total_claims, 1);
    assert_eq!(ledger.stats[0].last_activity, NOW);
}

#[test]
fn create_claim_rejects_duplicate() {
    let mut ledger = Ledger::new();
    create_claim(&mut ledger, USER, hex_hash(), NOW).unwrap();
    let r = create_claim(&mut ledger, USER, hex_hash(), NOW + 1);
    assert_eq!(r, Err(MscError::ClaimAlreadyExists));
    assert_eq!(ledger.claims.len(), 1);
    assert_eq!(ledger.stats[0].total_claims, 1);
}

#[test]
fn create_claim_same_hash_other_owner_allowed() {
    let mut ledger = Ledger::new();
    create_claim(&mut ledger, USER, hex_hash(), NOW).unwrap();
    create_claim(&mut ledger, USER + 1, hex_hash(), NOW).unwrap();
    assert_eq!(ledger.claims.len(), 2);
}

#[test]
fn create_claim_rejects_bad_hash() {
    let mut ledger = Ledger::new();
    let r = create_claim(&mut ledger, USER, "abc".to_string(), NOW);
    assert_eq!(r, Err(MscError::InvalidFileHash));
    assert_eq!(ledger.claims.len(), 0);
    assert_eq!(ledger.stats.len(), 0);
}

#[test]
fn get_claim_checks_state_and_owner() {
    let claim = OwnershipClaim {
        owner: USER,
        file_hash: hex_hash(),
        timestamp: NOW,
        transaction_id: generate_transaction_id(USER, NOW),
        is_active: true,
    };
    assert_eq!(get_claim(&claim, USER), Ok(()));
    assert_eq!(get_claim(&claim, USER + 1), Err(MscError::InvalidAccountOwner));
    let inactive = OwnershipClaim { is_active: false, ..claim };
    assert_eq!(get_claim(&inactive, USER), Err(MscError::ClaimNotFound));
}

struct PayAccounts {
    user: TokenAccount,
    treasury: TokenAccount,
}

fn pay_accounts() -> PayAccounts {
    PayAccounts {
        user: TokenAccount { owner: USER, amount: 50_000_000 },
        treasury: TokenAccount { owner: TREASURY_OWNER, amount: 0 },
    }
}

fn run_pay_and_claim(
    ledger: &mut Ledger,
    accounts: &mut PayAccounts,
    amount: u64,
    file_hash: String,
) -> Result<(), MscError> {
    pay_and_create_claim(
        ledger,
        USER,
        &mut accounts.user,
        &mut accounts.treasury,
        amount,
        file_hash,
        NOW,
    )
}

#[test]
fn pay_and_claim_settles_atomically() {
    let mut ledger = Ledger::new();
    let mut accounts = pay_accounts();
    run_pay_and_claim(&mut ledger, &mut accounts, CLAIM_PRICE, hex_hash()).unwrap();
    assert_eq!(accounts.user.amount, 40_000_000);
    assert_eq!(accounts.treasury.amount, 10_000_000);
    assert_eq!(ledger.payments.len(), 1);
    let payment = &ledger.payments[0];
    assert_eq!(payment.payer, USER);
    assert_eq!(payment.amount, CLAIM_PRICE);
    assert_eq!(payment.status, PAYMENT_STATUS_COMPLETED);
    assert!(payment.is_used);
    assert_eq!(ledger.claims.len(), 1);
    assert_eq!(ledger.claims[0].owner, USER);
    assert_eq!(ledger.claims[0].file_hash, hex_hash());
    assert!(ledger.claims[0].is_active);
    assert_eq!(ledger.stats.len(), 1);
    assert_eq!(ledger.stats[0].total_claims, 1);
    assert_eq!(ledger.stats[0].total_payments, CLAIM_PRICE);
    assert_eq!(ledger.stats[0].last_activity, NOW);
}

#[test]
fn pay_and_claim_replay_rejected() {
    let mut ledger = Ledger::new();
    let mut accounts = pay_accounts();
    run_pay_and_claim(&mut ledger, &mut accounts, CLAIM_PRICE, hex_hash()).unwrap();
    let r = run_pay_and_claim(&mut ledger, &mut accounts, CLAIM_PRICE, hex_hash());
    assert_eq!(r, Err(MscError::ClaimAlreadyExists));
    // Nothing was duplicated and no further value moved.
    assert_eq!(ledger.claims.len(), 1);
    assert_eq!(ledger.payments.len(), 1);
    assert_eq!(ledger.stats[0].total_claims, 1);
    assert_eq!(ledger.stats[0].total_payments, CLAIM_PRICE);
    assert_eq!(accounts.user.amount, 40_000_000);
    assert_eq!(accounts.treasury.amount, 10_000_000);
}

#[test]
fn pay_and_claim_rejects_bad_hash_before_movement() {
    let mut ledger = Ledger::new();
    let mut accounts = pay_accounts();
    let r = run_pay_and_claim(&mut ledger, &mut accounts, CLAIM_PRICE, "abc".to_string());
    assert_eq!(r, Err(MscError::InvalidFileHash));
    let with_g =
        "g123456789abcdef0123456789abcdef0123456789abcdef0123456789abcdef".to_string();
    let r = run_pay_and_claim(&mut ledger, &mut accounts, CLAIM_PRICE, with_g);
    assert_eq!(r, Err(MscError::InvalidFileHash));
    assert_eq!(accounts.user.amount, 50_000_000);
    assert_eq!(accounts.treasury.amount, 0);
    assert_eq!(ledger.claims.len(), 0);
    assert_eq!(ledger.payments.len(), 0);
}

#[test]
fn pay_and_claim_rejects_low_amount() {
    let mut ledger = Ledger::new();
    let mut accounts = pay_accounts();
    let r = run_pay_and_claim(&mut ledger, &mut accounts, CLAIM_PRICE - 1, hex_hash());
    assert_eq!(r, Err(MscError::PaymentAmountTooLow));
    assert_eq!(accounts.user.amount, 50_000_000);
}

#[test]
fn pay_and_claim_rejects_poor_balance() {
    let mut ledger = Ledger::new();
    let mut accounts = pay_accounts();
    accounts.user.amount = CLAIM_PRICE - 1;
    let r = run_pay_and_claim(&mut ledger, &mut accounts, CLAIM_PRICE, hex_hash());
    assert_eq!(r, Err(MscError::InsufficientBalance));
    assert_eq!(ledger.claims.len(), 0);
}
