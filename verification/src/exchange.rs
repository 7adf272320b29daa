//! Fee/rate arithmetic and the exchange settlement engine.
//!
//! The arithmetic converts an input quantity into a (net output, fee) pair
//! under a fixed-point exchange rate and a basis-point fee. All scaling is
//! fixed-point integer arithmetic with truncating division; every
//! multiplication is overflow-checked.

use vstd::prelude::*;
use vstd::arithmetic::div_mod::{lemma_div_is_ordered, lemma_div_pos_is_pos, lemma_div_by_multiple};
use vstd::arithmetic::mul::{lemma_mul_inequality, lemma_mul_nonnegative};
use crate::error::MscError;
use crate::ledger::{lemma_sum_swap_inputs_push, stats_base, stats_upserted, Ledger};
use crate::state::{
    spec_swap_record, AccountId, ExchangePool, SwapRecord, TokenAccount, UserStats,
};

verus! {

/// Fixed-point scale of the exchange rate: a rate equal to the scale is 1:1.
pub const RATE_SCALE: u64 = 1_000_000;

/// Basis-point denominator: a fee rate equal to it would be 100%.
pub const BPS_DENOMINATOR: u64 = 10_000;

/// Exchange rate a fresh pool starts with (1:1 at the fixed-point scale).
pub const DEFAULT_EXCHANGE_RATE: u64 = 1_000_000;

/// Fee rate a fresh pool starts with, in basis points (1%).
pub const DEFAULT_FEE_RATE: u16 = 100;

/// Smallest accepted swap input.
pub const MIN_SWAP_AMOUNT: u64 = 1_000_000;

/// Largest accepted swap input.
pub const MAX_SWAP_AMOUNT: u64 = 1_000_000_000_000;

/// Output before the fee: the input scaled by the fixed-point rate,
/// truncated toward zero.
pub open spec fn spec_gross_output(input_amount: u64, exchange_rate: u64) -> int {
    (input_amount * exchange_rate) / (RATE_SCALE as int)
}

/// Fee retained from a gross output under a basis-point fee rate,
/// truncated toward zero.
pub open spec fn spec_fee_amount(gross: int, fee_rate: u16) -> int {
    (gross * fee_rate) / (BPS_DENOMINATOR as int)
}

/// The exact outcome of the swap arithmetic: either the (net output, fee)
/// pair, or the first arithmetic failure. The result is a function of the
/// three arguments alone.
pub open spec fn spec_swap_output(input_amount: u64, exchange_rate: u64, fee_rate: u16) -> Result<
    (u64, u64),
    MscError,
> {
    if input_amount * exchange_rate > u64::MAX {
        Err(MscError::MathOverflow)
    } else {
        let gross = spec_gross_output(input_amount, exchange_rate);
        if gross * fee_rate > u64::MAX {
            Err(MscError::MathOverflow)
        } else {
            let fee = spec_fee_amount(gross, fee_rate);
            if fee > gross {
                Err(MscError::MathUnderflow)
            } else {
                Ok(((gross - fee) as u64, fee as u64))
            }
        }
    }
}

/// Converts a swap input into the (net output, fee) pair under the given
/// fixed-point rate and basis-point fee rate.
///
/// Pure and deterministic: the exact result, success or failure, is pinned
/// to [`spec_swap_output`], a function of the three arguments alone.
/// Fails with `MathOverflow` if either multiplication exceeds the 64-bit
/// unsigned range, and with `MathUnderflow` if the fee exceeds the gross
/// output (possible only for fee rates above the basis-point denominator).
pub fn calculate_swap_output(input_amount: u64, exchange_rate: u64, fee_rate: u16) -> (r: Result<
    (u64, u64),
    MscError,
>)
    ensures
        r == spec_swap_output(input_amount, exchange_rate, fee_rate),
{
    let gross = match input_amount.checked_mul(exchange_rate) {
        Some(product) => product / RATE_SCALE,
        None => {
            return Err(MscError::MathOverflow);
        },
    };
    let fee = match gross.checked_mul(fee_rate as u64) {
        Some(product) => product / BPS_DENOMINATOR,
        None => {
            return Err(MscError::MathOverflow);
        },
    };
    if fee > gross {
        return Err(MscError::MathUnderflow);
    }
    Ok((gross - fee, fee))
}

/// Value conservation of the swap arithmetic: for every fee rate within the
/// basis-point range, the computation cannot underflow, and on success the
/// net output and the fee partition the gross output exactly, so the net
/// output never exceeds the gross output.
pub proof fn lemma_swap_output_conserves_value(input_amount: u64, exchange_rate: u64, fee_rate: u16)
    requires
        fee_rate <= BPS_DENOMINATOR,
    ensures
        spec_swap_output(input_amount, exchange_rate, fee_rate) != Err::<(u64, u64), MscError>(
            MscError::MathUnderflow,
        ),
        (spec_swap_output(input_amount, exchange_rate, fee_rate) matches Ok(pair) ==> {
            &&& pair.0 + pair.1 == spec_gross_output(input_amount, exchange_rate)
            &&& pair.0 <= spec_gross_output(input_amount, exchange_rate)
            &&& pair.1 <= spec_gross_output(input_amount, exchange_rate)
        }),
{
    if input_amount * exchange_rate <= u64::MAX {
        let gross = spec_gross_output(input_amount, exchange_rate);
        lemma_mul_nonnegative(input_amount as int, exchange_rate as int);
        lemma_div_pos_is_pos(input_amount * exchange_rate, RATE_SCALE as int);
        if gross * fee_rate <= u64::MAX {
            let fee = spec_fee_amount(gross, fee_rate);
            lemma_mul_inequality(fee_rate as int, BPS_DENOMINATOR as int, gross);
            assert(gross * fee_rate == fee_rate * gross) by (nonlinear_arith);
            assert(gross * (BPS_DENOMINATOR as int) == (BPS_DENOMINATOR as int) * gross)
                by (nonlinear_arith);
            lemma_div_is_ordered(gross * fee_rate, gross * (BPS_DENOMINATOR as int),
                BPS_DENOMINATOR as int);
            lemma_div_by_multiple(gross, BPS_DENOMINATOR as int);
            lemma_mul_nonnegative(gross, fee_rate as int);
            lemma_div_pos_is_pos(gross * fee_rate, BPS_DENOMINATOR as int);
        }
    }
}

/// Creates the exchange pool singleton with the default rate (1:1), the
/// default fee (1%), zero volume, and the active gate open.
///
/// Fails with `OperationNotAllowed`, changing nothing, if the pool was
/// already initialized; the pool is a deterministically addressed singleton
/// that cannot be created twice.
pub fn initialize_exchange_pool(
    ledger: &mut Ledger,
    authority: AccountId,
    msc_mint: AccountId,
    usdc_mint: AccountId,
    msc_vault: AccountId,
    usdc_vault: AccountId,
) -> (r: Result<(), MscError>)
    requires
        old(ledger).wf(),
    ensures
        final(ledger).wf(),
        old(ledger).pool is Some ==> r == Err::<(), MscError>(MscError::OperationNotAllowed)
            && *final(ledger) == *old(ledger),
        old(ledger).pool is None ==> r == Ok::<(), MscError>(()) && final(ledger).pool == Some(
            ExchangePool {
                authority,
                msc_mint,
                usdc_mint,
                msc_vault,
                usdc_vault,
                exchange_rate: DEFAULT_EXCHANGE_RATE,
                fee_rate: DEFAULT_FEE_RATE,
                total_volume: 0,
                is_active: true,
            },
        ),
        final(ledger).claims == old(ledger).claims,
        final(ledger).payments == old(ledger).payments,
        final(ledger).swaps == old(ledger).swaps,
        final(ledger).stats == old(ledger).stats,
{
    if ledger.pool.is_some() {
        return Err(MscError::OperationNotAllowed);
    }
    ledger.pool = Some(
        ExchangePool {
            authority,
            msc_mint,
            usdc_mint,
            msc_vault,
            usdc_vault,
            exchange_rate: DEFAULT_EXCHANGE_RATE,
            fee_rate: DEFAULT_FEE_RATE,
            total_volume: 0,
            is_active: true,
        },
    );
    Ok(())
}

/// Replaces the pool's exchange rate in a single write.
///
/// Only the recorded administrator may update the rate, and only to a
/// positive value; any failure leaves the rate — and everything else —
/// unchanged.
pub fn update_exchange_rate(ledger: &mut Ledger, authority: AccountId, new_rate: u64) -> (r: Result<
    (),
    MscError,
>)
    requires
        old(ledger).wf(),
    ensures
        final(ledger).wf(),
        r is Err ==> *final(ledger) == *old(ledger),
        old(ledger).pool is None ==> r == Err::<(), MscError>(MscError::AccountNotInitialized),
        (old(ledger).pool matches Some(p) ==> (authority != p.authority ==> r == Err::<
            (),
            MscError,
        >(MscError::InvalidAuthority))),
        (old(ledger).pool matches Some(p) ==> (authority == p.authority && new_rate == 0 ==> r
            == Err::<(), MscError>(MscError::InvalidExchangeRate))),
        (old(ledger).pool matches Some(p) ==> (authority == p.authority && new_rate > 0 ==> r
            == Ok::<(), MscError>(()) && final(ledger).pool == Some(p.with_rate(new_rate)))),
        final(ledger).claims == old(ledger).claims,
        final(ledger).payments == old(ledger).payments,
        final(ledger).swaps == old(ledger).swaps,
        final(ledger).stats == old(ledger).stats,
{
    let pool = match &ledger.pool {
        Some(p) => *p,
        None => {
            return Err(MscError::AccountNotInitialized);
        },
    };
    if authority != pool.authority {
        return Err(MscError::InvalidAuthority);
    }
    if new_rate == 0 {
        return Err(MscError::InvalidExchangeRate);
    }
    ledger.pool = Some(ExchangePool { exchange_rate: new_rate, ..pool });
    Ok(())
}

/// First failing precondition of a swap, or `None` if the swap must
/// succeed. The checks run in order: pool present and active, input within
/// bounds, payer balance, swap arithmetic, pool liquidity, then the custody
/// preconditions of the two transfer legs and the bookkeeping counters.
pub open spec fn spec_swap_error(
    pool: Option<ExchangePool>,
    user: AccountId,
    user_msc: TokenAccount,
    user_usdc: TokenAccount,
    msc_vault: TokenAccount,
    usdc_vault: TokenAccount,
    pool_authority: AccountId,
    stats: Seq<UserStats>,
    msc_amount: u64,
) -> Option<MscError> {
    match pool {
        None => Some(MscError::AccountNotInitialized),
        Some(p) => {
            if !p.is_active {
                Some(MscError::ExchangePoolNotActive)
            } else if msc_amount < MIN_SWAP_AMOUNT {
                Some(MscError::SwapAmountTooSmall)
            } else if msc_amount > MAX_SWAP_AMOUNT {
                Some(MscError::SwapAmountTooLarge)
            } else if user_msc.amount < msc_amount {
                Some(MscError::InsufficientBalance)
            } else {
                match spec_swap_output(msc_amount, p.exchange_rate, p.fee_rate) {
                    Err(e) => Some(e),
                    Ok(quote) => {
                        if usdc_vault.amount < quote.0 {
                            Some(MscError::InsufficientLiquidity)
                        } else if user_msc.owner != user {
                            Some(MscError::InvalidAccountOwner)
                        } else if msc_vault.amount + msc_amount > u64::MAX {
                            Some(MscError::MathOverflow)
                        } else if usdc_vault.owner != pool_authority {
                            Some(MscError::InvalidAccountOwner)
                        } else if user_usdc.amount + quote.0 > u64::MAX {
                            Some(MscError::MathOverflow)
                        } else if p.total_volume + msc_amount > u64::MAX {
                            Some(MscError::MathOverflow)
                        } else if stats_base(stats, user).total_swaps == u32::MAX {
                            Some(MscError::MathOverflow)
                        } else {
                            None
                        }
                    },
                }
            }
        },
    }
}

/// Settles one swap of the input token against the pool's output token.
///
/// All preconditions — pool state, bounds, balances, arithmetic, custody —
/// are validated before any mutation, so the settlement is all-or-nothing:
/// either both transfer legs, the swap receipt, the pool volume and the
/// user's counters all commit, or nothing changes and the first failing
/// check's error is returned. The fee stays in the pool's output vault: the
/// user receives the gross output minus the fee, and the receipt snapshots
/// the rate at settlement time.
pub fn swap_msc_to_usdc(
    ledger: &mut Ledger,
    user: AccountId,
    user_msc_account: &mut TokenAccount,
    user_usdc_account: &mut TokenAccount,
    pool_msc_vault: &mut TokenAccount,
    pool_usdc_vault: &mut TokenAccount,
    pool_authority: AccountId,
    msc_amount: u64,
    now: i64,
) -> (r: Result<(), MscError>)
    requires
        old(ledger).wf(),
    ensures
        final(ledger).wf(),
        ({
            let verdict = spec_swap_error(
                old(ledger).pool,
                user,
                *old(user_msc_account),
                *old(user_usdc_account),
                *old(pool_msc_vault),
                *old(pool_usdc_vault),
                pool_authority,
                old(ledger).stats@,
                msc_amount,
            );
            match verdict {
                Some(e) => r == Err::<(), MscError>(e),
                None => r == Ok::<(), MscError>(()),
            }
        }),
        r is Err ==> *final(ledger) == *old(ledger) && *final(user_msc_account) == *old(
            user_msc_account,
        ) && *final(user_usdc_account) == *old(user_usdc_account) && *final(pool_msc_vault) == *old(
            pool_msc_vault,
        ) && *final(pool_usdc_vault) == *old(pool_usdc_vault),
        r is Ok ==> (old(ledger).pool matches Some(p) ==> (spec_swap_output(
            msc_amount,
            p.exchange_rate,
            p.fee_rate,
        ) matches Ok(quote) ==> {
            &&& *final(user_msc_account) == old(user_msc_account).with_amount(
                (old(user_msc_account).amount - msc_amount) as u64,
            )
            &&& *final(pool_msc_vault) == old(pool_msc_vault).with_amount(
                (old(pool_msc_vault).amount + msc_amount) as u64,
            )
            &&& *final(pool_usdc_vault) == old(pool_usdc_vault).with_amount(
                (old(pool_usdc_vault).amount - quote.0) as u64,
            )
            &&& *final(user_usdc_account) == old(user_usdc_account).with_amount(
                (old(user_usdc_account).amount + quote.0) as u64,
            )
            &&& final(ledger).pool == Some(p.with_volume((p.total_volume + msc_amount) as u64))
            &&& final(ledger).swaps@ == old(ledger).swaps@.push(
                spec_swap_record(user, msc_amount, quote, p.exchange_rate, now),
            )
            &&& stats_upserted(
                old(ledger).stats@,
                final(ledger).stats@,
                stats_base(old(ledger).stats@, user).after_swap(now),
            )
        })),
        final(ledger).claims == old(ledger).claims,
        final(ledger).payments == old(ledger).payments,
{
    let pool = match &ledger.pool {
        Some(p) => *p,
        None => {
            return Err(MscError::AccountNotInitialized);
        },
    };
    if !pool.is_active {
        return Err(MscError::ExchangePoolNotActive);
    }
    if msc_amount < MIN_SWAP_AMOUNT {
        return Err(MscError::SwapAmountTooSmall);
    }
    if msc_amount > MAX_SWAP_AMOUNT {
        return Err(MscError::SwapAmountTooLarge);
    }
    if user_msc_account.amount < msc_amount {
        return Err(MscError::InsufficientBalance);
    }
    let (usdc_amount, fee_amount) = match calculate_swap_output(
        msc_amount,
        pool.exchange_rate,
        pool.fee_rate,
    ) {
        Ok(quote) => quote,
        Err(e) => {
            return Err(e);
        },
    };
    if pool_usdc_vault.amount < usdc_amount {
        return Err(MscError::InsufficientLiquidity);
    }
    if user_msc_account.owner != user {
        return Err(MscError::InvalidAccountOwner);
    }
    let new_msc_vault_amount = match pool_msc_vault.amount.checked_add(msc_amount) {
        Some(v) => v,
        None => {
            return Err(MscError::MathOverflow);
        },
    };
    if pool_usdc_vault.owner != pool_authority {
        return Err(MscError::InvalidAccountOwner);
    }
    let new_user_usdc_amount = match user_usdc_account.amount.checked_add(usdc_amount) {
        Some(v) => v,
        None => {
            return Err(MscError::MathOverflow);
        },
    };
    let new_total_volume = match pool.total_volume.checked_add(msc_amount) {
        Some(v) => v,
        None => {
            return Err(MscError::MathOverflow);
        },
    };
    let base = ledger.stats_base_of(user);
    let total_swaps = match base.total_swaps.checked_add(1) {
        Some(v) => v,
        None => {
            return Err(MscError::MathOverflow);
        },
    };
    user_msc_account.amount = user_msc_account.amount - msc_amount;
    pool_msc_vault.amount = new_msc_vault_amount;
    pool_usdc_vault.amount = pool_usdc_vault.amount - usdc_amount;
    user_usdc_account.amount = new_user_usdc_amount;
    ledger.pool = Some(ExchangePool { total_volume: new_total_volume, ..pool });
    let record = SwapRecord {
        user,
        msc_amount,
        usdc_amount,
        fee_amount,
        exchange_rate: pool.exchange_rate,
        timestamp: now,
    };
    ledger.swaps.push(record);
    ledger.put_stats(
        UserStats {
            user,
            total_claims: base.total_claims,
            total_payments: base.total_payments,
            total_swaps,
            last_activity: now,
        },
    );
    proof {
        lemma_sum_swap_inputs_push(old(ledger).swaps@, record);
    }
    Ok(())
}

} // verus!
