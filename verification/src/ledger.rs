//! The ledger record store: the persisted records of all settlement
//! operations, together with the uniqueness and bookkeeping invariants the
//! settlement engine maintains.
//!
//! Freshly created records (claims, payments, swaps) occupy deterministic
//! addresses derived from their participants; creating a record at an
//! address that already holds one fails the whole operation before any
//! mutation. The store realizes that rule as a uniqueness invariant over
//! the claim arena, checked before any state change.

use vstd::prelude::*;
use crate::state::{AccountId, ExchangePool, OwnershipClaim, PaymentRecord, SwapRecord, UserStats};

verus! {

/// Whether a claim binds the given owner to the given fingerprint.
pub open spec fn claim_matches(claim: OwnershipClaim, owner: AccountId, file_hash: Seq<char>) -> bool {
    claim.owner == owner && claim.file_hash@ == file_hash
}

/// Whether the arena already holds a claim for the (owner, fingerprint)
/// pair, i.e. whether its deterministic address is occupied.
pub open spec fn claim_exists(claims: Seq<OwnershipClaim>, owner: AccountId, file_hash: Seq<char>) -> bool {
    exists|i: int| 0 <= i < claims.len() && claim_matches(#[trigger] claims[i], owner, file_hash)
}

/// At most one claim per (owner, fingerprint) pair.
pub open spec fn claims_unique(claims: Seq<OwnershipClaim>) -> bool {
    forall|i: int, j: int|
        #![trigger claims[i], claims[j]]
        0 <= i < claims.len() && 0 <= j < claims.len() && i != j ==> !(claims[i].owner
            == claims[j].owner && claims[i].file_hash@ == claims[j].file_hash@)
}

/// Whether a statistics record for the user exists.
pub open spec fn stats_has(stats: Seq<UserStats>, user: AccountId) -> bool {
    exists|i: int| 0 <= i < stats.len() && (#[trigger] stats[i]).user == user
}

/// At most one statistics record per user.
pub open spec fn stats_unique(stats: Seq<UserStats>) -> bool {
    forall|i: int, j: int|
        #![trigger stats[i], stats[j]]
        0 <= i < stats.len() && 0 <= j < stats.len() && i != j ==> stats[i].user != stats[j].user
}

/// A fresh statistics record, as an operation creates it for a user it has
/// not seen before.
pub open spec fn fresh_stats(user: AccountId) -> UserStats {
    UserStats { user, total_claims: 0, total_payments: 0, total_swaps: 0, last_activity: 0 }
}

/// The statistics record of the user, assuming one exists.
pub open spec fn stats_entry(stats: Seq<UserStats>, user: AccountId) -> UserStats
    recommends
        stats_has(stats, user),
{
    stats[choose|i: int| 0 <= i < stats.len() && (#[trigger] stats[i]).user == user]
}

/// The record an operation starts its counter updates from: the user's
/// existing statistics record, or a fresh one.
pub open spec fn stats_base(stats: Seq<UserStats>, user: AccountId) -> UserStats {
    if stats_has(stats, user) {
        stats_entry(stats, user)
    } else {
        fresh_stats(user)
    }
}

/// Exact shape of a statistics upsert: the user's record is replaced in
/// place, or a fresh record is appended; nothing else moves.
pub open spec fn stats_upserted(
    old_stats: Seq<UserStats>,
    new_stats: Seq<UserStats>,
    entry: UserStats,
) -> bool {
    if stats_has(old_stats, entry.user) {
        &&& new_stats.len() == old_stats.len()
        &&& forall|j: int|
            0 <= j < old_stats.len() ==> new_stats[j] == (if (#[trigger] old_stats[j]).user
                == entry.user {
                entry
            } else {
                old_stats[j]
            })
    } else {
        new_stats == old_stats.push(entry)
    }
}

/// Total input-token volume recorded by a sequence of swap receipts.
pub open spec fn sum_swap_inputs(swaps: Seq<SwapRecord>) -> int
    decreases swaps.len(),
{
    if swaps.len() == 0 {
        0
    } else {
        sum_swap_inputs(swaps.drop_last()) + swaps.last().msc_amount
    }
}

/// Appending one receipt grows the recorded volume by exactly its input.
pub proof fn lemma_sum_swap_inputs_push(swaps: Seq<SwapRecord>, record: SwapRecord)
    ensures
        sum_swap_inputs(swaps.push(record)) == sum_swap_inputs(swaps) + record.msc_amount,
{
    assert(swaps.push(record).drop_last() =~= swaps);
}

/// The volume bookkeeping law, spelled out: in every well-formed store
/// with an initialized pool, the pool's cumulative volume equals the sum
/// of the inputs of the recorded swaps — however many swaps there were and
/// in whatever order they settled.
pub proof fn lemma_total_volume_accounts_for_swaps(ledger: Ledger)
    requires
        ledger.wf(),
    ensures
        ledger.pool matches Some(p) ==> p.total_volume == sum_swap_inputs(ledger.swaps@),
{
}

/// The ledger record store: the exchange pool singleton and the arenas of
/// persisted records.
pub struct Ledger {
    /// The exchange pool, once initialized.
    pub pool: Option<ExchangePool>,
    /// Ownership claims, at most one per (owner, fingerprint) pair.
    pub claims: Vec<OwnershipClaim>,
    /// Payment receipts, in settlement order.
    pub payments: Vec<PaymentRecord>,
    /// Swap receipts, in settlement order.
    pub swaps: Vec<SwapRecord>,
    /// Per-user running counters, at most one record per user.
    pub stats: Vec<UserStats>,
}

impl Ledger {
    /// Well-formedness: record uniqueness, a well-formed pool, and the
    /// volume bookkeeping law — the pool's cumulative volume equals the sum
    /// of the inputs of all recorded swaps, over any number of swaps in any
    /// order.
    pub open spec fn wf(self) -> bool {
        &&& claims_unique(self.claims@)
        &&& stats_unique(self.stats@)
        &&& (self.pool is None ==> self.swaps@.len() == 0)
        &&& (self.pool matches Some(p) ==> p.wf() && p.total_volume == sum_swap_inputs(self.swaps@))
    }

    /// An empty store, as a fresh deployment starts with.
    pub fn new() -> (r: Ledger)
        ensures
            r.pool is None,
            r.claims@.len() == 0,
            r.payments@.len() == 0,
            r.swaps@.len() == 0,
            r.stats@.len() == 0,
            r.wf(),
    {
        Ledger {
            pool: None,
            claims: Vec::new(),
            payments: Vec::new(),
            swaps: Vec::new(),
            stats: Vec::new(),
        }
    }

    /// Whether the deterministic address of the (owner, fingerprint) pair
    /// is already occupied by a claim.
    pub fn has_claim(&self, owner: AccountId, file_hash: &String) -> (r: bool)
        ensures
            r == claim_exists(self.claims@, owner, file_hash@),
    {
        let n = self.claims.len();
        let mut i: usize = 0;
        while i < n
            invariant
                n == self.claims@.len(),
                i <= n,
                forall|k: int| 0 <= k < i ==> !claim_matches(#[trigger] self.claims@[k], owner, file_hash@),
            decreases n - i,
        {
            let c = &self.claims[i];
            if c.owner == owner && c.file_hash == *file_hash {
                return true;
            }
            i = i + 1;
        }
        false
    }

    /// The statistics record of the user, if one exists.
    pub fn find_stats(&self, user: AccountId) -> (r: Option<UserStats>)
        requires
            stats_unique(self.stats@),
        ensures
            r is Some <==> stats_has(self.stats@, user),
            (r matches Some(s) ==> s.user == user && (forall|j: int|
                0 <= j < self.stats@.len() && (#[trigger] self.stats@[j]).user == user
                    ==> self.stats@[j] == s)),
    {
        let n = self.stats.len();
        let mut i: usize = 0;
        while i < n
            invariant
                stats_unique(self.stats@),
                n == self.stats@.len(),
                i <= n,
                forall|k: int| 0 <= k < i ==> (#[trigger] self.stats@[k]).user != user,
            decreases n - i,
        {
            if self.stats[i].user == user {
                let found = self.stats[i];
                proof {
                    assert forall|j: int|
                        0 <= j < self.stats@.len() && (#[trigger] self.stats@[j]).user == user
                            implies self.stats@[j] == found by {
                        if j != i {
                            assert(self.stats@[i as int].user != self.stats@[j].user);
                        }
                    }
                }
                return Some(found);
            }
            i = i + 1;
        }
        None
    }

    /// The record counter updates start from: the user's statistics record,
    /// or a fresh zeroed one if the user has none yet.
    pub fn stats_base_of(&self, user: AccountId) -> (r: UserStats)
        requires
            stats_unique(self.stats@),
        ensures
            r == stats_base(self.stats@, user),
    {
        match self.find_stats(user) {
            Some(s) => {
                proof {
                    let w = choose|i: int|
                        0 <= i < self.stats@.len() && (#[trigger] self.stats@[i]).user == user;
                    assert(self.stats@[w] == s);
                }
                s
            },
            None => UserStats {
                user,
                total_claims: 0,
                total_payments: 0,
                total_swaps: 0,
                last_activity: 0,
            },
        }
    }

    /// Creates the claim record at its deterministic address; the address
    /// must be free. Touches nothing else.
    pub fn push_claim(&mut self, claim: OwnershipClaim)
        requires
            claims_unique(old(self).claims@),
            !claim_exists(old(self).claims@, claim.owner, claim.file_hash@),
        ensures
            final(self).pool == old(self).pool,
            final(self).payments == old(self).payments,
            final(self).swaps == old(self).swaps,
            final(self).stats == old(self).stats,
            final(self).claims@ == old(self).claims@.push(claim),
            claims_unique(final(self).claims@),
    {
        self.claims.push(claim);
        proof {
            let m = old(self).claims@.len() as int;
            assert forall|a: int, b: int|
                0 <= a < self.claims@.len() && 0 <= b < self.claims@.len() && a != b
                    implies !(self.claims@[a].owner == self.claims@[b].owner
                    && self.claims@[a].file_hash@ == self.claims@[b].file_hash@) by {
                if a < m && b < m {
                    assert(!(old(self).claims@[a].owner == old(self).claims@[b].owner && old(
                        self,
                    ).claims@[a].file_hash@ == old(self).claims@[b].file_hash@));
                } else if a == m {
                    assert(!claim_matches(old(self).claims@[b], claim.owner, claim.file_hash@));
                } else {
                    assert(!claim_matches(old(self).claims@[a], claim.owner, claim.file_hash@));
                }
            }
        }
    }

    /// Writes the statistics record of `entry.user`: replaces the existing
    /// record of that user, or appends a fresh one. Touches nothing else.
    pub fn put_stats(&mut self, entry: UserStats)
        requires
            stats_unique(old(self).stats@),
        ensures
            final(self).pool == old(self).pool,
            final(self).claims == old(self).claims,
            final(self).payments == old(self).payments,
            final(self).swaps == old(self).swaps,
            stats_unique(final(self).stats@),
            stats_has(final(self).stats@, entry.user),
            stats_upserted(old(self).stats@, final(self).stats@, entry),
    {
        let n = self.stats.len();
        let mut i: usize = 0;
        while i < n
            invariant
                stats_unique(old(self).stats@),
                n == self.stats@.len(),
                i <= n,
                *self == *old(self),
                forall|k: int| 0 <= k < i ==> (#[trigger] self.stats@[k]).user != entry.user,
            decreases n - i,
        {
            if self.stats[i].user == entry.user {
                self.stats[i] = entry;
                proof {
                    assert(self.stats@ =~= old(self).stats@.update(i as int, entry));
                    assert forall|j: int|
                        0 <= j < old(self).stats@.len() implies self.stats@[j] == (
                        if old(self).stats@[j].user == entry.user {
                            entry
                        } else {
                            old(self).stats@[j]
                        }) by {
                        if j != i && old(self).stats@[j].user == entry.user {
                            assert(old(self).stats@[i as int].user != old(self).stats@[j].user);
                        }
                    }
                }
                return ;
            }
            i = i + 1;
        }
        self.stats.push(entry);
        proof {
            assert(self.stats@[self.stats@.len() - 1] == entry);
            assert forall|a: int, b: int|
                0 <= a < self.stats@.len() && 0 <= b < self.stats@.len() && a != b
                    implies self.stats@[a].user != self.stats@[b].user by {
                let m = old(self).stats@.len() as int;
                if a < m && b < m {
                    assert(old(self).stats@[a].user != old(self).stats@[b].user);
                } else if a == m {
                    assert(old(self).stats@[b].user != entry.user);
                } else {
                    assert(old(self).stats@[a].user != entry.user);
                }
            }
        }
    }
}

} // verus!
