//! Token ledger module: initialization of the token configuration, minting,
//! transfers, and the bounded batch airdrop.
//!
//! Every operation validates all its preconditions before the first
//! mutation, so each is all-or-nothing over the custody accounts it
//! touches.

use vstd::prelude::*;
use crate::error::MscError;
use crate::state::{AccountId, MscTokenConfig, TokenAccount};

verus! {

/// Total supply minted at token initialization.
pub const MSC_TOTAL_SUPPLY: u64 = 10_000_000_000_000;

/// The only accepted decimal configuration of the token.
pub const MSC_DECIMALS: u8 = 6;

/// Most recipients one airdrop batch may list.
pub const MAX_AIRDROP_RECIPIENTS: usize = 10;

/// Total of a list of airdrop amounts.
pub open spec fn sum_amounts(amounts: Seq<u64>) -> int
    decreases amounts.len(),
{
    if amounts.len() == 0 {
        0
    } else {
        sum_amounts(amounts.drop_last()) + amounts.last()
    }
}

/// Every prefix total is bounded by the full total.
pub proof fn lemma_sum_amounts_prefix(amounts: Seq<u64>, i: int)
    requires
        0 <= i <= amounts.len(),
    ensures
        sum_amounts(amounts.subrange(0, i)) <= sum_amounts(amounts),
    decreases amounts.len() - i,
{
    if i < amounts.len() {
        assert(amounts.subrange(0, i + 1).drop_last() =~= amounts.subrange(0, i));
        assert(amounts.subrange(0, i + 1).last() == amounts[i]);
        lemma_sum_amounts_prefix(amounts, i + 1);
    } else {
        assert(amounts.subrange(0, i) =~= amounts);
    }
}

/// Initializes the token configuration and mints the full supply to the
/// administrator's custody account.
///
/// Fails, in this order and with no state change: with `InvalidAuthority`
/// on any decimal configuration other than the accepted one, with
/// `TokenAlreadyInitialized` if the configuration was already set, and
/// with `MathOverflow` if the supply cannot be credited.
pub fn initialize_msc_token(
    config: &mut MscTokenConfig,
    authority: AccountId,
    mint: AccountId,
    authority_token_account: &mut TokenAccount,
    decimals: u8,
) -> (r: Result<(), MscError>)
    ensures
        decimals != MSC_DECIMALS ==> r == Err::<(), MscError>(MscError::InvalidAuthority),
        decimals == MSC_DECIMALS && old(config).is_initialized ==> r == Err::<(), MscError>(
            MscError::TokenAlreadyInitialized,
        ),
        decimals == MSC_DECIMALS && !old(config).is_initialized && old(
            authority_token_account,
        ).amount + MSC_TOTAL_SUPPLY > u64::MAX ==> r == Err::<(), MscError>(MscError::MathOverflow),
        decimals == MSC_DECIMALS && !old(config).is_initialized && old(
            authority_token_account,
        ).amount + MSC_TOTAL_SUPPLY <= u64::MAX ==> r == Ok::<(), MscError>(()),
        r is Err ==> *final(config) == *old(config) && *final(authority_token_account) == *old(
            authority_token_account,
        ),
        r is Ok ==> *final(config) == (MscTokenConfig {
            authority,
            mint,
            total_supply: MSC_TOTAL_SUPPLY,
            decimals,
            is_initialized: true,
        }),
        r is Ok ==> *final(authority_token_account) == old(authority_token_account).with_amount(
            (old(authority_token_account).amount + MSC_TOTAL_SUPPLY) as u64,
        ),
{
    if decimals != MSC_DECIMALS {
        return Err(MscError::InvalidAuthority);
    }
    if config.is_initialized {
        return Err(MscError::TokenAlreadyInitialized);
    }
    let new_amount = match authority_token_account.amount.checked_add(MSC_TOTAL_SUPPLY) {
        Some(v) => v,
        None => {
            return Err(MscError::MathOverflow);
        },
    };
    config.authority = authority;
    config.mint = mint;
    config.total_supply = MSC_TOTAL_SUPPLY;
    config.decimals = decimals;
    config.is_initialized = true;
    authority_token_account.amount = new_amount;
    Ok(())
}

/// Mints `amount` new tokens into `to`, on the administrator's authority.
///
/// Fails, in this order and with no state change: with
/// `AccountNotInitialized` before the configuration is set, with
/// `InvalidAuthority` for any caller but the recorded administrator, and
/// with `MathOverflow` if the recipient balance cannot grow.
pub fn mint_msc(
    config: &MscTokenConfig,
    to: &mut TokenAccount,
    authority: AccountId,
    amount: u64,
) -> (r: Result<(), MscError>)
    ensures
        !config.is_initialized ==> r == Err::<(), MscError>(MscError::AccountNotInitialized),
        config.is_initialized && authority != config.authority ==> r == Err::<(), MscError>(
            MscError::InvalidAuthority,
        ),
        config.is_initialized && authority == config.authority && old(to).amount + amount
            > u64::MAX ==> r == Err::<(), MscError>(MscError::MathOverflow),
        config.is_initialized && authority == config.authority && old(to).amount + amount
            <= u64::MAX ==> r == Ok::<(), MscError>(()),
        r is Err ==> *final(to) == *old(to),
        r is Ok ==> *final(to) == old(to).with_amount((old(to).amount + amount) as u64),
{
    if !config.is_initialized {
        return Err(MscError::AccountNotInitialized);
    }
    if authority != config.authority {
        return Err(MscError::InvalidAuthority);
    }
    let new_amount = match to.amount.checked_add(amount) {
        Some(v) => v,
        None => {
            return Err(MscError::MathOverflow);
        },
    };
    to.amount = new_amount;
    Ok(())
}

/// Moves `amount` tokens between two custody accounts on the owner's
/// authority: the custody transfer primitive.
///
/// Fails, in this order and with no state change: with
/// `InsufficientBalance` if `from` cannot cover the amount, with
/// `InvalidAccountOwner` if `authority` is not the recorded owner of
/// `from`, and with `MathOverflow` if the recipient balance cannot grow.
pub fn transfer_msc(
    from: &mut TokenAccount,
    to: &mut TokenAccount,
    authority: AccountId,
    amount: u64,
) -> (r: Result<(), MscError>)
    ensures
        old(from).amount < amount ==> r == Err::<(), MscError>(MscError::InsufficientBalance),
        old(from).amount >= amount && old(from).owner != authority ==> r == Err::<(), MscError>(
            MscError::InvalidAccountOwner,
        ),
        old(from).amount >= amount && old(from).owner == authority && old(to).amount + amount
            > u64::MAX ==> r == Err::<(), MscError>(MscError::MathOverflow),
        old(from).amount >= amount && old(from).owner == authority && old(to).amount + amount
            <= u64::MAX ==> r == Ok::<(), MscError>(()),
        r is Err ==> *final(from) == *old(from) && *final(to) == *old(to),
        r is Ok ==> *final(from) == old(from).with_amount((old(from).amount - amount) as u64)
            && *final(to) == old(to).with_amount((old(to).amount + amount) as u64),
{
    if from.amount < amount {
        return Err(MscError::InsufficientBalance);
    }
    if from.owner != authority {
        return Err(MscError::InvalidAccountOwner);
    }
    let new_to_amount = match to.amount.checked_add(amount) {
        Some(v) => v,
        None => {
            return Err(MscError::MathOverflow);
        },
    };
    from.amount = from.amount - amount;
    to.amount = new_to_amount;
    Ok(())
}

/// First failing precondition of a batch airdrop, or `None` if the batch
/// must succeed. Checks run in order: batch bound, configuration,
/// authority, recipient pairing, total, source balance, source ownership,
/// then each recipient balance.
pub open spec fn spec_airdrop_error(
    config: MscTokenConfig,
    from: TokenAccount,
    recipients: Seq<TokenAccount>,
    authority: AccountId,
    amounts: Seq<u64>,
) -> Option<MscError> {
    if amounts.len() > MAX_AIRDROP_RECIPIENTS {
        Some(MscError::AirdropLimitExceeded)
    } else if !config.is_initialized {
        Some(MscError::AccountNotInitialized)
    } else if authority != config.authority {
        Some(MscError::InvalidAuthority)
    } else if recipients.len() != amounts.len() {
        Some(MscError::InvalidRecipient)
    } else if sum_amounts(amounts) > u64::MAX {
        Some(MscError::MathOverflow)
    } else if from.amount < sum_amounts(amounts) {
        Some(MscError::InsufficientBalance)
    } else if from.owner != authority {
        Some(MscError::InvalidAccountOwner)
    } else if exists|i: int|
        0 <= i < amounts.len() && (#[trigger] recipients[i]).amount + amounts[i] > u64::MAX {
        Some(MscError::MathOverflow)
    } else {
        None
    }
}

/// Airdrops each listed amount to its paired recipient, on the
/// administrator's authority.
///
/// The whole batch fails — with no transfer at all — if it lists more than
/// the bounded number of recipients, if the amounts are not paired one to
/// one with the recipients, or if the combined total exceeds the source
/// balance; otherwise every recipient is credited and the source is
/// debited by the total, all-or-nothing.
pub fn batch_airdrop(
    config: &MscTokenConfig,
    from: &mut TokenAccount,
    recipients: &mut Vec<TokenAccount>,
    authority: AccountId,
    amounts: &Vec<u64>,
) -> (r: Result<(), MscError>)
    ensures
        ({
            let verdict = spec_airdrop_error(
                *config,
                *old(from),
                old(recipients)@,
                authority,
                amounts@,
            );
            match verdict {
                Some(e) => r == Err::<(), MscError>(e),
                None => r == Ok::<(), MscError>(()),
            }
        }),
        r is Err ==> *final(from) == *old(from) && *final(recipients) == *old(recipients),
        r is Ok ==> *final(from) == old(from).with_amount(
            (old(from).amount - sum_amounts(amounts@)) as u64,
        ),
        r is Ok ==> final(recipients)@.len() == old(recipients)@.len() && (forall|i: int|
            0 <= i < old(recipients)@.len() ==> final(recipients)@[i] == (#[trigger] old(
                recipients,
            )@[i]).with_amount((old(recipients)@[i].amount + amounts@[i]) as u64)),
{
    let n = amounts.len();
    if n > MAX_AIRDROP_RECIPIENTS {
        return Err(MscError::AirdropLimitExceeded);
    }
    if !config.is_initialized {
        return Err(MscError::AccountNotInitialized);
    }
    if authority != config.authority {
        return Err(MscError::InvalidAuthority);
    }
    if recipients.len() != n {
        return Err(MscError::InvalidRecipient);
    }
    let mut total: u64 = 0;
    let mut i: usize = 0;
    while i < n
        invariant
            n == amounts@.len(),
            n <= MAX_AIRDROP_RECIPIENTS,
            config.is_initialized,
            authority == config.authority,
            recipients@.len() == n,
            *from == *old(from),
            *recipients == *old(recipients),
            i <= n,
            total == sum_amounts(amounts@.subrange(0, i as int)),
        decreases n - i,
    {
        proof {
            assert(amounts@.subrange(0, i + 1 as int).drop_last() =~= amounts@.subrange(
                0,
                i as int,
            ));
            assert(amounts@.subrange(0, i + 1 as int).last() == amounts@[i as int]);
        }
        total = match total.checked_add(amounts[i]) {
            Some(v) => v,
            None => {
                proof {
                    lemma_sum_amounts_prefix(amounts@, i + 1 as int);
                }
                return Err(MscError::MathOverflow);
            },
        };
        i = i + 1;
    }
    proof {
        assert(amounts@.subrange(0, n as int) =~= amounts@);
    }
    if from.amount < total {
        return Err(MscError::InsufficientBalance);
    }
    if from.owner != authority {
        return Err(MscError::InvalidAccountOwner);
    }
    let mut i: usize = 0;
    while i < n
        invariant
            n == amounts@.len(),
            n <= MAX_AIRDROP_RECIPIENTS,
            config.is_initialized,
            authority == config.authority,
            recipients@.len() == n,
            *from == *old(from),
            *recipients == *old(recipients),
            total == sum_amounts(amounts@),
            from.amount >= total,
            from.owner == authority,
            i <= n,
            forall|k: int|
                0 <= k < i ==> (#[trigger] recipients@[k]).amount + amounts@[k] <= u64::MAX,
        decreases n - i,
    {
        match recipients[i].amount.checked_add(amounts[i]) {
            Some(_) => {},
            None => {
                return Err(MscError::MathOverflow);
            },
        };
        i = i + 1;
    }
    from.amount = from.amount - total;
    let mut i: usize = 0;
    while i < n
        invariant
            n == amounts@.len(),
            n <= MAX_AIRDROP_RECIPIENTS,
            config.is_initialized,
            authority == config.authority,
            recipients@.len() == n,
            total == sum_amounts(amounts@),
            old(from).amount >= total,
            old(from).owner == authority,
            *from == old(from).with_amount((old(from).amount - total) as u64),
            i <= n,
            forall|k: int|
                0 <= k < i ==> recipients@[k] == (#[trigger] old(recipients)@[k]).with_amount(
                    (old(recipients)@[k].amount + amounts@[k]) as u64,
                ),
            forall|k: int| i <= k < n ==> #[trigger] recipients@[k] == old(recipients)@[k],
            forall|k: int|
                0 <= k < n ==> (#[trigger] old(recipients)@[k]).amount + amounts@[k] <= u64::MAX,
        decreases n - i,
    {
        let owner = recipients[i].owner;
        let current = recipients[i].amount;
        recipients[i] = TokenAccount { owner, amount: current + amounts[i] };
        i = i + 1;
    }
    Ok(())
}

} // verus!
