//! Ownership claim registry: creating and querying claims that bind an
//! owner to a content fingerprint.
//!
//! A fingerprint is the 64-character hexadecimal rendering of a content
//! digest; it must pass the strict format validator before any claim is
//! created. At most one claim exists per (owner, fingerprint) pair: the
//! claim's deterministic address rejects a second creation.

use vstd::prelude::*;
use vstd::string::StrSliceExecFns;
use crate::error::MscError;
use crate::ledger::{claim_exists, stats_base, stats_upserted, Ledger};
use crate::state::{AccountId, OwnershipClaim, UserStats};

verus! {

/// Length of a hexadecimal content fingerprint (a SHA-256 digest rendered
/// as hexadecimal characters).
pub const FILE_HASH_LEN: usize = 64;

/// Whether the character is an ASCII hexadecimal digit.
pub open spec fn spec_is_hex_digit(c: char) -> bool {
    ('0' <= c && c <= '9') || ('a' <= c && c <= 'f') || ('A' <= c && c <= 'F')
}

/// A well-formed content fingerprint: exactly 64 characters, all of them
/// ASCII hexadecimal digits.
pub open spec fn spec_valid_file_hash(s: Seq<char>) -> bool {
    s.len() == FILE_HASH_LEN && forall|i: int|
        0 <= i < s.len() ==> spec_is_hex_digit(#[trigger] s[i])
}

/// Checks that a fingerprint is a 64-character hexadecimal string.
pub fn validate_file_hash(hash: &str) -> (r: bool)
    ensures
        r == spec_valid_file_hash(hash@),
{
    let n = hash.unicode_len();
    if n != FILE_HASH_LEN {
        return false;
    }
    let mut i: usize = 0;
    while i < n
        invariant
            n == hash@.len(),
            i <= n,
            forall|k: int| 0 <= k < i ==> spec_is_hex_digit(#[trigger] hash@[k]),
        decreases n - i,
    {
        let c = hash.get_char(i);
        if !(('0' <= c && c <= '9') || ('a' <= c && c <= 'f') || ('A' <= c && c <= 'F')) {
            return false;
        }
        i = i + 1;
    }
    true
}

/// The transaction reference rendered for an owner and a timestamp; it
/// depends on the two arguments alone.
pub uninterp spec fn spec_transaction_id(owner: AccountId, timestamp: i64) -> Seq<char>;

/// Renders the opaque transaction reference stored in settlement records.
///
/// Relies on std's `format!` integer rendering: the result is a pure
/// function of the owner identity and the timestamp.
#[verifier::external_body]
pub fn generate_transaction_id(owner: AccountId, timestamp: i64) -> (r: String)
    ensures
        r@ == spec_transaction_id(owner, timestamp),
{
    format!("{}-{}", owner, timestamp)
}

/// Creates an ownership claim binding `owner` to `file_hash` and bumps the
/// owner's claim counter.
///
/// Fails, in this order and with no state change: with `ClaimAlreadyExists`
/// if the (owner, fingerprint) address is already occupied, with
/// `InvalidFileHash` if the fingerprint fails the format validator, and
/// with `MathOverflow` if the owner's claim counter cannot grow. Succeeds
/// on every other input.
pub fn create_claim(ledger: &mut Ledger, owner: AccountId, file_hash: String, now: i64) -> (r:
    Result<(), MscError>)
    requires
        old(ledger).wf(),
    ensures
        final(ledger).wf(),
        r is Err ==> *final(ledger) == *old(ledger),
        claim_exists(old(ledger).claims@, owner, file_hash@) ==> r == Err::<(), MscError>(
            MscError::ClaimAlreadyExists,
        ),
        !claim_exists(old(ledger).claims@, owner, file_hash@) && !spec_valid_file_hash(file_hash@)
            ==> r == Err::<(), MscError>(MscError::InvalidFileHash),
        !claim_exists(old(ledger).claims@, owner, file_hash@) && spec_valid_file_hash(file_hash@)
            && stats_base(old(ledger).stats@, owner).total_claims == u32::MAX ==> r == Err::<
            (),
            MscError,
        >(MscError::MathOverflow),
        !claim_exists(old(ledger).claims@, owner, file_hash@) && spec_valid_file_hash(file_hash@)
            && stats_base(old(ledger).stats@, owner).total_claims < u32::MAX ==> r == Ok::<
            (),
            MscError,
        >(()),
        r is Ok ==> ({
            let claim = final(ledger).claims@.last();
            &&& final(ledger).claims@.len() == old(ledger).claims@.len() + 1
            &&& final(ledger).claims@.drop_last() =~= old(ledger).claims@
            &&& claim.owner == owner
            &&& claim.file_hash@ == file_hash@
            &&& claim.timestamp == now
            &&& claim.transaction_id@ == spec_transaction_id(owner, now)
            &&& claim.is_active
        }),
        r is Ok ==> ({
            let base = stats_base(old(ledger).stats@, owner);
            stats_upserted(
                old(ledger).stats@,
                final(ledger).stats@,
                UserStats {
                    user: owner,
                    total_claims: (base.total_claims + 1) as u32,
                    total_payments: base.total_payments,
                    total_swaps: base.total_swaps,
                    last_activity: now,
                },
            )
        }),
        r is Ok ==> claim_exists(final(ledger).claims@, owner, file_hash@),
        final(ledger).pool == old(ledger).pool,
        final(ledger).payments == old(ledger).payments,
        final(ledger).swaps == old(ledger).swaps,
{
    if ledger.has_claim(owner, &file_hash) {
        return Err(MscError::ClaimAlreadyExists);
    }
    if !validate_file_hash(file_hash.as_str()) {
        return Err(MscError::InvalidFileHash);
    }
    let base = ledger.stats_base_of(owner);
    let total_claims = match base.total_claims.checked_add(1) {
        Some(v) => v,
        None => {
            return Err(MscError::MathOverflow);
        },
    };
    let transaction_id = generate_transaction_id(owner, now);
    let claim = OwnershipClaim { owner, file_hash, timestamp: now, transaction_id, is_active: true };
    ledger.push_claim(claim);
    ledger.put_stats(
        UserStats {
            user: owner,
            total_claims,
            total_payments: base.total_payments,
            total_swaps: base.total_swaps,
            last_activity: now,
        },
    );
    proof {
        assert(ledger.claims@.last() == claim);
    }
    Ok(())
}

/// Queries a claim record on behalf of an identity.
///
/// Succeeds exactly when the claim is active and owned by `owner`; fails
/// with `ClaimNotFound` on an inactive claim and with `InvalidAccountOwner`
/// when someone else's active claim is queried.
pub fn get_claim(claim: &OwnershipClaim, owner: AccountId) -> (r: Result<(), MscError>)
    ensures
        !claim.is_active ==> r == Err::<(), MscError>(MscError::ClaimNotFound),
        claim.is_active && claim.owner != owner ==> r == Err::<(), MscError>(
            MscError::InvalidAccountOwner,
        ),
        claim.is_active && claim.owner == owner ==> r == Ok::<(), MscError>(()),
{
    if !claim.is_active {
        return Err(MscError::ClaimNotFound);
    }
    if claim.owner != owner {
        return Err(MscError::InvalidAccountOwner);
    }
    Ok(())
}

} // verus!
