//! Service payment processor and the atomic pay-and-claim flow.
//!
//! A service payment validates a tiered service price, charges it, and
//! records the payment. The pay-and-claim flow combines a payment and a
//! claim creation into one all-or-nothing settlement keyed by the
//! deterministic (user, fingerprint) record address, which rejects a
//! replayed submission before any business logic runs.

use vstd::prelude::*;
use crate::error::MscError;
use crate::ledger::{claim_exists, stats_base, stats_upserted, Ledger};
use crate::ownership::{
    generate_transaction_id, spec_transaction_id, spec_valid_file_hash, validate_file_hash,
};
use crate::state::{
    AccountId, OwnershipClaim, PaymentRecord, TokenAccount, UserStats, PAYMENT_STATUS_COMPLETED,
};

verus! {

/// Service tier: a basic ownership claim.
pub const SERVICE_BASIC_CLAIM: u8 = 0;

/// Service tier: a premium ownership claim.
pub const SERVICE_PREMIUM_CLAIM: u8 = 1;

/// Service tier: a bulk ownership claim.
pub const SERVICE_BULK_CLAIM: u8 = 2;

/// Price of the basic claim service, in token base units.
pub const BASIC_CLAIM_PRICE: u64 = 10_000_000;

/// Price of the premium claim service, in token base units.
pub const PREMIUM_CLAIM_PRICE: u64 = 50_000_000;

/// Price of the bulk claim service, in token base units.
pub const BULK_CLAIM_PRICE: u64 = 100_000_000;

/// Least amount the pay-and-claim flow accepts, in token base units.
pub const CLAIM_PRICE: u64 = 10_000_000;

/// The fixed price table: the price of each known service tier, and
/// nothing for an unknown one.
pub open spec fn spec_service_price(service_type: u8) -> Option<u64> {
    if service_type == SERVICE_BASIC_CLAIM {
        Some(BASIC_CLAIM_PRICE)
    } else if service_type == SERVICE_PREMIUM_CLAIM {
        Some(PREMIUM_CLAIM_PRICE)
    } else if service_type == SERVICE_BULK_CLAIM {
        Some(BULK_CLAIM_PRICE)
    } else {
        None
    }
}

/// Looks the service tier up in the fixed price table.
pub fn get_service_price(service_type: u8) -> (r: Result<u64, MscError>)
    ensures
        (spec_service_price(service_type) matches Some(price) ==> r == Ok::<u64, MscError>(price)),
        spec_service_price(service_type) is None ==> r == Err::<u64, MscError>(
            MscError::InvalidServiceType,
        ),
{
    if service_type == SERVICE_BASIC_CLAIM {
        Ok(BASIC_CLAIM_PRICE)
    } else if service_type == SERVICE_PREMIUM_CLAIM {
        Ok(PREMIUM_CLAIM_PRICE)
    } else if service_type == SERVICE_BULK_CLAIM {
        Ok(BULK_CLAIM_PRICE)
    } else {
        Err(MscError::InvalidServiceType)
    }
}

/// Whether the service tier is in the price table.
pub fn is_valid_service_type(service_type: u8) -> (r: bool)
    ensures
        r == (service_type <= SERVICE_BULK_CLAIM),
        r == (spec_service_price(service_type) is Some),
{
    service_type <= SERVICE_BULK_CLAIM
}

/// The display name of a service tier.
pub fn get_service_name(service_type: u8) -> (r: &'static str)
    ensures
        service_type == SERVICE_BASIC_CLAIM ==> r@ == "Basic Claim"@,
        service_type == SERVICE_PREMIUM_CLAIM ==> r@ == "Premium Claim"@,
        service_type == SERVICE_BULK_CLAIM ==> r@ == "Bulk Claim"@,
        service_type > SERVICE_BULK_CLAIM ==> r@ == "Unknown Service"@,
{
    if service_type == SERVICE_BASIC_CLAIM {
        "Basic Claim"
    } else if service_type == SERVICE_PREMIUM_CLAIM {
        "Premium Claim"
    } else if service_type == SERVICE_BULK_CLAIM {
        "Bulk Claim"
    } else {
        "Unknown Service"
    }
}

/// First failing precondition of a service payment, or `None` if the
/// payment must succeed. Checks run in order: service tier, offered
/// amount against the price, payer balance, then the custody
/// preconditions of the charge and the payer's payment counter.
pub open spec fn spec_payment_error(
    user: AccountId,
    user_acct: TokenAccount,
    service_acct: TokenAccount,
    stats: Seq<UserStats>,
    amount: u64,
    service_type: u8,
) -> Option<MscError> {
    match spec_service_price(service_type) {
        None => Some(MscError::InvalidServiceType),
        Some(price) => {
            if amount < price {
                Some(MscError::PaymentAmountTooLow)
            } else if user_acct.amount < amount {
                Some(MscError::InsufficientBalance)
            } else if user_acct.owner != user {
                Some(MscError::InvalidAccountOwner)
            } else if service_acct.amount + amount > u64::MAX {
                Some(MscError::MathOverflow)
            } else if stats_base(stats, user).total_payments + amount > u64::MAX {
                Some(MscError::MathOverflow)
            } else {
                None
            }
        },
    }
}

/// Charges a tiered service: validates the tier and the offered amount,
/// moves the amount to the service custody account, records a completed
/// payment receipt, and bumps the payer's counters — all-or-nothing.
pub fn pay_with_msc(
    ledger: &mut Ledger,
    user: AccountId,
    user_token_account: &mut TokenAccount,
    service_token_account: &mut TokenAccount,
    amount: u64,
    service_type: u8,
    now: i64,
) -> (r: Result<(), MscError>)
    requires
        old(ledger).wf(),
    ensures
        final(ledger).wf(),
        ({
            let verdict = spec_payment_error(
                user,
                *old(user_token_account),
                *old(service_token_account),
                old(ledger).stats@,
                amount,
                service_type,
            );
            match verdict {
                Some(e) => r == Err::<(), MscError>(e),
                None => r == Ok::<(), MscError>(()),
            }
        }),
        r is Err ==> *final(ledger) == *old(ledger) && *final(user_token_account) == *old(
            user_token_account,
        ) && *final(service_token_account) == *old(service_token_account),
        r is Ok ==> ({
            let payment = final(ledger).payments@.last();
            &&& *final(user_token_account) == old(user_token_account).with_amount(
                (old(user_token_account).amount - amount) as u64,
            )
            &&& *final(service_token_account) == old(service_token_account).with_amount(
                (old(service_token_account).amount + amount) as u64,
            )
            &&& final(ledger).payments@.len() == old(ledger).payments@.len() + 1
            &&& final(ledger).payments@.drop_last() =~= old(ledger).payments@
            &&& payment.payer == user
            &&& payment.amount == amount
            &&& payment.timestamp == now
            &&& payment.transaction_id@ == spec_transaction_id(user, now)
            &&& payment.status == PAYMENT_STATUS_COMPLETED
            &&& !payment.is_used
            &&& stats_upserted(
                old(ledger).stats@,
                final(ledger).stats@,
                stats_base(old(ledger).stats@, user).after_payment(amount, now),
            )
        }),
        final(ledger).pool == old(ledger).pool,
        final(ledger).claims == old(ledger).claims,
        final(ledger).swaps == old(ledger).swaps,
{
    let required_amount = match get_service_price(service_type) {
        Ok(price) => price,
        Err(e) => {
            return Err(e);
        },
    };
    if amount < required_amount {
        return Err(MscError::PaymentAmountTooLow);
    }
    if user_token_account.amount < amount {
        return Err(MscError::InsufficientBalance);
    }
    if user_token_account.owner != user {
        return Err(MscError::InvalidAccountOwner);
    }
    let new_service_amount = match service_token_account.amount.checked_add(amount) {
        Some(v) => v,
        None => {
            return Err(MscError::MathOverflow);
        },
    };
    let base = ledger.stats_base_of(user);
    let total_payments = match base.total_payments.checked_add(amount) {
        Some(v) => v,
        None => {
            return Err(MscError::MathOverflow);
        },
    };
    user_token_account.amount = user_token_account.amount - amount;
    service_token_account.amount = new_service_amount;
    let transaction_id = generate_transaction_id(user, now);
    ledger.payments.push(
        PaymentRecord {
            payer: user,
            amount,
            timestamp: now,
            transaction_id,
            status: PAYMENT_STATUS_COMPLETED,
            is_used: false,
        },
    );
    ledger.put_stats(
        UserStats {
            user,
            total_claims: base.total_claims,
            total_payments,
            total_swaps: base.total_swaps,
            last_activity: now,
        },
    );
    Ok(())
}

/// First failing precondition of a pay-and-claim settlement, or `None` if
/// it must succeed. The occupied-address check runs first — a replayed
/// (user, fingerprint) submission fails before any business logic — then
/// the fingerprint format, the offered amount, the payer balance, and the
/// custody and counter preconditions.
pub open spec fn spec_pay_and_claim_error(
    claims: Seq<OwnershipClaim>,
    user: AccountId,
    user_acct: TokenAccount,
    treasury: TokenAccount,
    stats: Seq<UserStats>,
    amount: u64,
    file_hash: Seq<char>,
) -> Option<MscError> {
    if claim_exists(claims, user, file_hash) {
        Some(MscError::ClaimAlreadyExists)
    } else if !spec_valid_file_hash(file_hash) {
        Some(MscError::InvalidFileHash)
    } else if amount < CLAIM_PRICE {
        Some(MscError::PaymentAmountTooLow)
    } else if user_acct.amount < amount {
        Some(MscError::InsufficientBalance)
    } else if user_acct.owner != user {
        Some(MscError::InvalidAccountOwner)
    } else if treasury.amount + amount > u64::MAX {
        Some(MscError::MathOverflow)
    } else if stats_base(stats, user).total_payments + amount > u64::MAX {
        Some(MscError::MathOverflow)
    } else if stats_base(stats, user).total_claims == u32::MAX {
        Some(MscError::MathOverflow)
    } else {
        None
    }
}

/// Pays for and creates an ownership claim in one all-or-nothing
/// settlement.
///
/// The claim's deterministic (user, fingerprint) address is checked first:
/// a second submission with the same pair fails with `ClaimAlreadyExists`
/// and duplicates neither the claim, nor the payment, nor any counter.
/// On success the amount moves to the treasury, a completed and already
/// consumed payment receipt and an active claim are recorded, and the
/// user's counters are bumped. Any failure leaves every account and every
/// record unchanged.
pub fn pay_and_create_claim(
    ledger: &mut Ledger,
    user: AccountId,
    user_token_account: &mut TokenAccount,
    treasury_token_account: &mut TokenAccount,
    amount: u64,
    file_hash: String,
    now: i64,
) -> (r: Result<(), MscError>)
    requires
        old(ledger).wf(),
    ensures
        final(ledger).wf(),
        ({
            let verdict = spec_pay_and_claim_error(
                old(ledger).claims@,
                user,
                *old(user_token_account),
                *old(treasury_token_account),
                old(ledger).stats@,
                amount,
                file_hash@,
            );
            match verdict {
                Some(e) => r == Err::<(), MscError>(e),
                None => r == Ok::<(), MscError>(()),
            }
        }),
        r is Err ==> *final(ledger) == *old(ledger) && *final(user_token_account) == *old(
            user_token_account,
        ) && *final(treasury_token_account) == *old(treasury_token_account),
        r is Ok ==> ({
            let payment = final(ledger).payments@.last();
            let claim = final(ledger).claims@.last();
            &&& *final(user_token_account) == old(user_token_account).with_amount(
                (old(user_token_account).amount - amount) as u64,
            )
            &&& *final(treasury_token_account) == old(treasury_token_account).with_amount(
                (old(treasury_token_account).amount + amount) as u64,
            )
            &&& final(ledger).payments@.len() == old(ledger).payments@.len() + 1
            &&& final(ledger).payments@.drop_last() =~= old(ledger).payments@
            &&& payment.payer == user
            &&& payment.amount == amount
            &&& payment.timestamp == now
            &&& payment.transaction_id@ == spec_transaction_id(user, now)
            &&& payment.status == PAYMENT_STATUS_COMPLETED
            &&& payment.is_used
            &&& final(ledger).claims@.len() == old(ledger).claims@.len() + 1
            &&& final(ledger).claims@.drop_last() =~= old(ledger).claims@
            &&& claim.owner == user
            &&& claim.file_hash@ == file_hash@
            &&& claim.timestamp == now
            &&& claim.transaction_id@ == spec_transaction_id(user, now)
            &&& claim.is_active
            &&& stats_upserted(
                old(ledger).stats@,
                final(ledger).stats@,
                stats_base(old(ledger).stats@, user).after_payment(amount, now).after_claim(now),
            )
        }),
        r is Ok ==> claim_exists(final(ledger).claims@, user, file_hash@),
        final(ledger).pool == old(ledger).pool,
        final(ledger).swaps == old(ledger).swaps,
{
    if ledger.has_claim(user, &file_hash) {
        return Err(MscError::ClaimAlreadyExists);
    }
    if !validate_file_hash(file_hash.as_str()) {
        return Err(MscError::InvalidFileHash);
    }
    if amount < CLAIM_PRICE {
        return Err(MscError::PaymentAmountTooLow);
    }
    if user_token_account.amount < amount {
        return Err(MscError::InsufficientBalance);
    }
    if user_token_account.owner != user {
        return Err(MscError::InvalidAccountOwner);
    }
    let new_treasury_amount = match treasury_token_account.amount.checked_add(amount) {
        Some(v) => v,
        None => {
            return Err(MscError::MathOverflow);
        },
    };
    let base = ledger.stats_base_of(user);
    let total_payments = match base.total_payments.checked_add(amount) {
        Some(v) => v,
        None => {
            return Err(MscError::MathOverflow);
        },
    };
    let total_claims = match base.total_claims.checked_add(1) {
        Some(v) => v,
        None => {
            return Err(MscError::MathOverflow);
        },
    };
    user_token_account.amount = user_token_account.amount - amount;
    treasury_token_account.amount = new_treasury_amount;
    let payment_transaction_id = generate_transaction_id(user, now);
    ledger.payments.push(
        PaymentRecord {
            payer: user,
            amount,
            timestamp: now,
            transaction_id: payment_transaction_id,
            status: PAYMENT_STATUS_COMPLETED,
            is_used: true,
        },
    );
    let claim_transaction_id = generate_transaction_id(user, now);
    let claim = OwnershipClaim {
        owner: user,
        file_hash,
        timestamp: now,
        transaction_id: claim_transaction_id,
        is_active: true,
    };
    ledger.push_claim(claim);
    ledger.put_stats(
        UserStats {
            user,
            total_claims,
            total_payments,
            total_swaps: base.total_swaps,
            last_activity: now,
        },
    );
    proof {
        assert(ledger.claims@.last() == claim);
    }
    Ok(())
}

/// Queries a payment receipt on behalf of an identity.
///
/// Succeeds exactly when the receipt was paid by `user`; fails with
/// `InvalidAccountOwner` when someone else's receipt is queried.
pub fn get_payment_history(
    payment_record: &PaymentRecord,
    user_stats: &UserStats,
    user: AccountId,
) -> (r: Result<(), MscError>)
    ensures
        payment_record.payer == user ==> r == Ok::<(), MscError>(()),
        payment_record.payer != user ==> r == Err::<(), MscError>(MscError::InvalidAccountOwner),
{
    if payment_record.payer != user {
        return Err(MscError::InvalidAccountOwner);
    }
    let _ = user_stats;
    Ok(())
}

} // verus!
