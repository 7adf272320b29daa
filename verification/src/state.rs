//! The persisted entity types of the ledger record store and the custody
//! accounts they settle against.
//!
//! Identities (signers, mints, vaults, record owners) are plain numeric
//! account identifiers: the engine only ever compares them for equality.

use vstd::prelude::*;

verus! {

/// Identity of a signer, mint, vault or record owner.
pub type AccountId = u64;

/// A custody account holding token balances on behalf of a user, a pool or
/// a treasury. Value moves between custody accounts only through the
/// custody transfer primitive, authorized by the recorded owner.
#[derive(Clone, Copy, Debug, PartialEq, Eq, Structural)]
pub struct TokenAccount {
    /// Identity allowed to move value out of this account.
    pub owner: AccountId,
    /// Current balance.
    pub amount: u64,
}

impl TokenAccount {
    /// The same account with a new balance.
    pub open spec fn with_amount(self, amount: u64) -> TokenAccount {
        TokenAccount { owner: self.owner, amount }
    }
}

/// Configuration of the token itself: set once, then immutable but for the
/// initialization flag.
#[derive(Clone, Copy, Debug, PartialEq, Eq, Structural)]
pub struct MscTokenConfig {
    /// Identity allowed to mint and to airdrop.
    pub authority: AccountId,
    /// Identity of the token mint.
    pub mint: AccountId,
    /// Supply minted at initialization.
    pub total_supply: u64,
    /// Decimal places of the token.
    pub decimals: u8,
    /// Whether the configuration has been initialized.
    pub is_initialized: bool,
}

impl Default for MscTokenConfig {
    /// A fresh, uninitialized configuration, as a newly allocated record
    /// slot holds it.
    fn default() -> (r: MscTokenConfig)
        ensures
            r == (MscTokenConfig {
                authority: 0,
                mint: 0,
                total_supply: 0,
                decimals: 0,
                is_initialized: false,
            }),
    {
        MscTokenConfig { authority: 0, mint: 0, total_supply: 0, decimals: 0, is_initialized: false }
    }
}

/// A claim binding an owner to a content fingerprint. Created at most once
/// per (owner, fingerprint) pair; immutable after creation.
#[derive(Clone, Debug)]
pub struct OwnershipClaim {
    /// Identity the claim belongs to.
    pub owner: AccountId,
    /// 64-character hexadecimal content fingerprint.
    pub file_hash: String,
    /// Settlement time the claim was created at.
    pub timestamp: i64,
    /// Opaque reference to the settling transaction.
    pub transaction_id: String,
    /// Whether the claim is in force.
    pub is_active: bool,
}

/// Payment status: the payment is still pending.
pub const PAYMENT_STATUS_PENDING: u8 = 0;

/// Payment status: the payment has completed.
pub const PAYMENT_STATUS_COMPLETED: u8 = 1;

/// Payment status: the payment has been refunded.
pub const PAYMENT_STATUS_REFUNDED: u8 = 2;

/// A receipt for a service payment. Created at payment time; the `is_used`
/// flag flips at most once, when claim creation consumes the payment.
#[derive(Clone, Debug)]
pub struct PaymentRecord {
    /// Identity that paid.
    pub payer: AccountId,
    /// Amount paid.
    pub amount: u64,
    /// Settlement time of the payment.
    pub timestamp: i64,
    /// Opaque reference to the settling transaction.
    pub transaction_id: String,
    /// One of the `PAYMENT_STATUS` values.
    pub status: u8,
    /// Whether claim creation has already consumed this payment.
    pub is_used: bool,
}

/// The exchange pool: a singleton configured by its administrator, mutated
/// by swaps and rate updates, never deleted.
#[derive(Clone, Copy, Debug, PartialEq, Eq, Structural)]
pub struct ExchangePool {
    /// Identity allowed to update the exchange rate.
    pub authority: AccountId,
    /// Mint of the input token.
    pub msc_mint: AccountId,
    /// Mint of the output token.
    pub usdc_mint: AccountId,
    /// Custody vault accumulating the input token.
    pub msc_vault: AccountId,
    /// Custody vault the output token is paid from.
    pub usdc_vault: AccountId,
    /// Fixed-point exchange rate (scaled by [`crate::exchange::RATE_SCALE`]).
    pub exchange_rate: u64,
    /// Fee in basis points.
    pub fee_rate: u16,
    /// Cumulative input-token volume over all successful swaps.
    pub total_volume: u64,
    /// Whether the pool accepts swaps.
    pub is_active: bool,
}

impl ExchangePool {
    /// Well-formedness of a pool: a positive exchange rate and a fee within
    /// the basis-point range.
    pub open spec fn wf(self) -> bool {
        &&& self.exchange_rate > 0
        &&& self.fee_rate <= 10_000
    }

    /// The same pool under a new exchange rate.
    pub open spec fn with_rate(self, exchange_rate: u64) -> ExchangePool {
        ExchangePool {
            authority: self.authority,
            msc_mint: self.msc_mint,
            usdc_mint: self.usdc_mint,
            msc_vault: self.msc_vault,
            usdc_vault: self.usdc_vault,
            exchange_rate,
            fee_rate: self.fee_rate,
            total_volume: self.total_volume,
            is_active: self.is_active,
        }
    }

    /// The same pool with a new cumulative volume.
    pub open spec fn with_volume(self, total_volume: u64) -> ExchangePool {
        ExchangePool {
            authority: self.authority,
            msc_mint: self.msc_mint,
            usdc_mint: self.usdc_mint,
            msc_vault: self.msc_vault,
            usdc_vault: self.usdc_vault,
            exchange_rate: self.exchange_rate,
            fee_rate: self.fee_rate,
            total_volume,
            is_active: self.is_active,
        }
    }
}

/// An immutable receipt of one successful swap.
#[derive(Clone, Copy, Debug, PartialEq, Eq, Structural)]
pub struct SwapRecord {
    /// Identity that swapped.
    pub user: AccountId,
    /// Input-token amount paid in.
    pub msc_amount: u64,
    /// Output-token amount paid out, net of the fee.
    pub usdc_amount: u64,
    /// Fee retained in the pool's output vault.
    pub fee_amount: u64,
    /// Exchange rate at settlement time.
    pub exchange_rate: u64,
    /// Settlement time.
    pub timestamp: i64,
}

/// A swap receipt with the given settlement data.
pub open spec fn spec_swap_record(
    user: AccountId,
    msc_amount: u64,
    quote: (u64, u64),
    exchange_rate: u64,
    timestamp: i64,
) -> SwapRecord {
    SwapRecord {
        user,
        msc_amount,
        usdc_amount: quote.0,
        fee_amount: quote.1,
        exchange_rate,
        timestamp,
    }
}

/// Per-user running counters, upserted by every settlement operation that
/// touches the user. All counters are monotonic; the timestamp tracks the
/// latest activity.
#[derive(Clone, Copy, Debug, PartialEq, Eq, Structural)]
pub struct UserStats {
    /// Identity the counters belong to.
    pub user: AccountId,
    /// Number of claims created.
    pub total_claims: u32,
    /// Cumulative amount paid.
    pub total_payments: u64,
    /// Number of swaps settled.
    pub total_swaps: u32,
    /// Settlement time of the latest activity.
    pub last_activity: i64,
}

impl UserStats {
    /// Counters after one more claim at settlement time `now`.
    pub open spec fn after_claim(self, now: i64) -> UserStats {
        UserStats {
            user: self.user,
            total_claims: (self.total_claims + 1) as u32,
            total_payments: self.total_payments,
            total_swaps: self.total_swaps,
            last_activity: now,
        }
    }

    /// Counters after one more payment of `amount` at settlement time `now`.
    pub open spec fn after_payment(self, amount: u64, now: i64) -> UserStats {
        UserStats {
            user: self.user,
            total_claims: self.total_claims,
            total_payments: (self.total_payments + amount) as u64,
            total_swaps: self.total_swaps,
            last_activity: now,
        }
    }

    /// Counters after one more swap at settlement time `now`.
    pub open spec fn after_swap(self, now: i64) -> UserStats {
        UserStats {
            user: self.user,
            total_claims: self.total_claims,
            total_payments: self.total_payments,
            total_swaps: (self.total_swaps + 1) as u32,
            last_activity: now,
        }
    }
}

} // verus!
