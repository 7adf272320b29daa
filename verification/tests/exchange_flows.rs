use msc_contracts::error::MscError;
use msc_contracts::exchange::{
    initialize_exchange_pool, swap_msc_to_usdc, update_exchange_rate, DEFAULT_EXCHANGE_RATE,
    DEFAULT_FEE_RATE,
};
use msc_contracts::ledger::Ledger;
use msc_contracts::state::{ExchangePool, TokenAccount};

const ADMIN: u64 = 1;
const USER: u64 = 2;
const POOL_AUTHORITY: u64 = 3;

fn pool_ledger() -> Ledger {
    let mut ledger = Ledger::new();
    initialize_exchange_pool(&mut ledger, ADMIN, 10, 11, 12, 13).unwrap();
    ledger
}

#[test]
fn initialize_pool_defaults() {
    let ledger = pool_ledger();
    let pool = ledger.pool.unwrap();
    assert_eq!(pool.authority, ADMIN);
    assert_eq!(pool.msc_mint, 10);
    assert_eq!(pool.usdc_mint, 11);
    assert_eq!(pool.msc_vault, 12);
    assert_eq!(pool.usdc_vault, 13);
    assert_eq!(pool.exchange_rate, DEFAULT_EXCHANGE_RATE);
    assert_eq!(pool.fee_rate, DEFAULT_FEE_RATE);
    assert_eq!(pool.total_volume, 0);
    assert!(pool.is_active);
}

#[test]
fn initialize_pool_is_once_only() {
    let mut ledger = pool_ledger();
    let r = initialize_exchange_pool(&mut ledger, ADMIN, 20, 21, 22, 23);
    assert_eq!(r, Err(MscError::OperationNotAllowed));
    assert_eq!(ledger.pool.unwrap().msc_mint, 10);
}

#[test]
fn rate_update_by_administrator() {
    let mut ledger = pool_ledger();
    update_exchange_rate(&mut ledger, ADMIN, 2_000_000).unwrap();
    assert_eq!(ledger.pool.unwrap().exchange_rate, 2_000_000);
}

#[test]
fn rate_update_by_stranger_rejected() {
    let mut ledger = pool_ledger();
    let r = update_exchange_rate(&mut ledger, USER, 2_000_000);
    assert_eq!(r, Err(MscError::InvalidAuthority));
    assert_eq!(ledger.pool.unwrap().exchange_rate, DEFAULT_EXCHANGE_RATE);
}

#[test]
fn rate_update_zero_rejected() {
    let mut ledger = pool_ledger();
    let r = update_exchange_rate(&mut ledger, ADMIN, 0);
    assert_eq!(r, Err(MscError::InvalidExchangeRate));
    assert_eq!(ledger.pool.unwrap().exchange_rate, DEFAULT_EXCHANGE_RATE);
}

#[test]
fn rate_update_without_pool_rejected() {
    let mut ledger = Ledger::new();
    let r = update_exchange_rate(&mut ledger, ADMIN, 2_000_000);
    assert_eq!(r, Err(MscError::AccountNotInitialized));
}

struct SwapAccounts {
    user_msc: TokenAccount,
    user_usdc: TokenAccount,
    msc_vault: TokenAccount,
    usdc_vault: TokenAccount,
}

fn swap_accounts() -> SwapAccounts {
    SwapAccounts {
        user_msc: TokenAccount { owner: USER, amount: 10_000_000 },
        user_usdc: TokenAccount { owner: USER, amount: 0 },
        msc_vault: TokenAccount { owner: POOL_AUTHORITY, amount: 500_000 },
        usdc_vault: TokenAccount { owner: POOL_AUTHORITY, amount: 5_000_000 },
    }
}

fn run_swap(ledger: &mut Ledger, accounts: &mut SwapAccounts, amount: u64) -> Result<(), MscError> {
    swap_msc_to_usdc(
        ledger,
        USER,
        &mut accounts.user_msc,
        &mut accounts.user_usdc,
        &mut accounts.msc_vault,
        &mut accounts.usdc_vault,
        POOL_AUTHORITY,
        amount,
        1_700_000_000,
    )
}

#[test]
fn swap_settles_both_legs_and_records() {
    let mut ledger = pool_ledger();
    let mut accounts = swap_accounts();
    run_swap(&mut ledger, &mut accounts, 1_000_000).unwrap();
    // Input leg: 1_000_000 moves from the user to the pool's input vault.
    assert_eq!(accounts.user_msc.amount, 9_000_000);
    assert_eq!(accounts.msc_vault.amount, 1_500_000);
    // Output leg: the net output moves to the user; the fee stays behind.
    assert_eq!(accounts.user_usdc.amount, 990_000);
    assert_eq!(accounts.usdc_vault.amount, 4_010_000);
    assert_eq!(ledger.pool.unwrap().total_volume, 1_000_000);
    assert_eq!(ledger.swaps.len(), 1);
    let record = ledger.swaps[0];
    assert_eq!(record.user, USER);
    assert_eq!(record.msc_amount, 1_000_000);
    assert_eq!(record.usdc_amount, 990_000);
    assert_eq!(record.fee_amount, 10_000);
    assert_eq!(record.exchange_rate, DEFAULT_EXCHANGE_RATE);
    assert_eq!(record.timestamp, 1_700_000_000);
    assert_eq!(ledger.stats.len(), 1);
    assert_eq!(ledger.stats[0].user, USER);
    assert_eq!(ledger.stats[0].total_swaps, 1);
    assert_eq!(ledger.stats[0].last_activity, 1_700_000_000);
}

#[test]
fn swap_below_minimum_rejected_without_state_change() {
    let mut ledger = pool_ledger();
    let mut accounts = swap_accounts();
    let r = run_swap(&mut ledger, &mut accounts, 999_999);
    assert_eq!(r, Err(MscError::SwapAmountTooSmall));
    assert_eq!(accounts.user_msc.amount, 10_000_000);
    assert_eq!(accounts.user_usdc.amount, 0);
    assert_eq!(accounts.msc_vault.amount, 500_000);
    assert_eq!(accounts.usdc_vault.amount, 5_000_000);
    assert_eq!(ledger.pool.unwrap().total_volume, 0);
    assert_eq!(ledger.swaps.len(), 0);
    assert_eq!(ledger.stats.len(), 0);
}

#[test]
fn swap_above_maximum_rejected() {
    let mut ledger = pool_ledger();
    let mut accounts = swap_accounts();
    let r = run_swap(&mut ledger, &mut accounts, 1_000_000_000_001);
    assert_eq!(r, Err(MscError::SwapAmountTooLarge));
    assert_eq!(ledger.swaps.len(), 0);
}

#[test]
fn swap_insufficient_balance_rejected() {
    let mut ledger = pool_ledger();
    let mut accounts = swap_accounts();
    accounts.user_msc.amount = 999_999;
    let r = run_swap(&mut ledger, &mut accounts, 1_000_000);
    assert_eq!(r, Err(MscError::InsufficientBalance));
    assert_eq!(accounts.user_msc.amount, 999_999);
}

#[test]
fn swap_insufficient_liquidity_rejected() {
    let mut ledger = pool_ledger();
    let mut accounts = swap_accounts();
    accounts.usdc_vault.amount = 989_999;
    let r = run_swap(&mut ledger, &mut accounts, 1_000_000);
    assert_eq!(r, Err(MscError::InsufficientLiquidity));
    assert_eq!(accounts.usdc_vault.amount, 989_999);
}

#[test]
fn swap_on_inactive_pool_rejected() {
    let mut ledger = Ledger::new();
    ledger.pool = Some(ExchangePool {
        authority: ADMIN,
        msc_mint: 10,
        usdc_mint: 11,
        msc_vault: 12,
        usdc_vault: 13,
        exchange_rate: DEFAULT_EXCHANGE_RATE,
        fee_rate: DEFAULT_FEE_RATE,
        total_volume: 0,
        is_active: false,
    });
    let mut accounts = swap_accounts();
    let r = run_swap(&mut ledger, &mut accounts, 1_000_000);
    assert_eq!(r, Err(MscError::ExchangePoolNotActive));
    assert_eq!(ledger.swaps.len(), 0);
}

#[test]
fn swap_without_pool_rejected() {
    let mut ledger = Ledger::new();
    let mut accounts = swap_accounts();
    let r = run_swap(&mut ledger, &mut accounts, 1_000_000);
    assert_eq!(r, Err(MscError::AccountNotInitialized));
}

#[test]
fn swap_wrong_payer_rejected() {
    let mut ledger = pool_ledger();
    let mut accounts = swap_accounts();
    accounts.user_msc.owner = ADMIN;
    let r = run_swap(&mut ledger, &mut accounts, 1_000_000);
    assert_eq!(r, Err(MscError::InvalidAccountOwner));
}

#[test]
fn total_volume_sums_swap_inputs() {
    let mut ledger = pool_ledger();
    let mut accounts = swap_accounts();
    accounts.user_msc.amount = 100_000_000;
    accounts.usdc_vault.amount = 200_000_000;
    let inputs = [1_000_000u64, 2_000_000, 3_000_000, 5_000_000];
    for &amount in inputs.iter() {
        run_swap(&mut ledger, &mut accounts, amount).unwrap();
    }
    let expected: u64 = inputs.iter().sum();
    assert_eq!(ledger.pool.unwrap().total_volume, expected);
    let recorded: u64 = ledger.swaps.iter().map(|s| s.msc_amount).sum();
    assert_eq!(recorded, expected);
    assert_eq!(ledger.stats.len(), 1);
    assert_eq!(ledger.stats[0].total_swaps, inputs.len() as u32);
}

#[test]
fn swap_uses_rate_at_settlement_time() {
    let mut ledger = pool_ledger();
    let mut accounts = swap_accounts();
    update_exchange_rate(&mut ledger, ADMIN, 2_000_000).unwrap();
    run_swap(&mut ledger, &mut accounts, 1_000_000).unwrap();
    // Gross 2_000_000 at the doubled rate, 1% fee of 20_000.
    assert_eq!(accounts.user_usdc.amount, 1_980_000);
    assert_eq!(ledger.swaps[0].exchange_rate, 2_000_000);
}
