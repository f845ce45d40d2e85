//! The vesting ledger: per-user, append-ordered time-locked reward entries,
//! and the claim engine that unlocks matured entries against a requested
//! withdrawal.

use vstd::prelude::*;

use crate::error::{EarliestUnlock, ProxyError};

verus! {

pub const NANOS_PER_SECOND: u64 = 1_000_000_000;

/// One time-locked reward credit owed to a user.  A start timestamp of 0
/// means the lock begins only at the configured swap-opening time, resolved
/// lazily when a claim inspects the entry.
#[derive(Clone, Debug, PartialEq, Eq)]
pub struct BondedRewardEntry {
    pub user_address: String,
    pub bonded_amount: u128,
    /// Lock duration in seconds.
    pub bonding_period: u64,
    /// When the lock began, in nanoseconds since the epoch; 0 means unset.
    pub bonding_start_timestamp_nanos: u64,
}

/// When the entry's lock began: its own start if set, else the swap-opening
/// time.
pub open spec fn effective_start_nanos(e: BondedRewardEntry, opening_nanos: u64) -> u64 {
    if e.bonding_start_timestamp_nanos != 0 {
        e.bonding_start_timestamp_nanos
    } else {
        opening_nanos
    }
}

/// When the entry unlocks, in whole seconds since the epoch.
pub open spec fn unlock_time_secs(e: BondedRewardEntry, opening_nanos: u64) -> int {
    effective_start_nanos(e, opening_nanos) as int / (NANOS_PER_SECOND as int)
        + e.bonding_period as int
}

/// An entry is matured exactly when its unlock time lies strictly before the
/// current time.
pub open spec fn is_matured(e: BondedRewardEntry, opening_nanos: u64, now_nanos: u64) -> bool {
    unlock_time_secs(e, opening_nanos) < now_nanos as int / (NANOS_PER_SECOND as int)
}

/// Sum of the bonded amounts: what the ledger currently owes the user.
pub open spec fn total_bonded(s: Seq<BondedRewardEntry>) -> int
    decreases s.len(),
{
    if s.len() == 0 {
        0
    } else {
        s[0].bonded_amount + total_bonded(s.subrange(1, s.len() as int))
    }
}

/// Sum of the bonded amounts of the matured entries: what a claim could
/// unlock right now.
pub open spec fn matured_total(s: Seq<BondedRewardEntry>, opening_nanos: u64, now_nanos: u64) -> int
    decreases s.len(),
{
    if s.len() == 0 {
        0
    } else {
        (if is_matured(s[0], opening_nanos, now_nanos) {
            s[0].bonded_amount as int
        } else {
            0
        }) + matured_total(s.subrange(1, s.len() as int), opening_nanos, now_nanos)
    }
}

pub open spec fn min_int(a: int, b: int) -> int {
    if a < b {
        a
    } else {
        b
    }
}

/// What survives of one entry when `rem` is still to be consumed: exhausted
/// (zero) entries are dropped on rewrite, unmatured entries are kept
/// untouched, a matured entry is consumed whole if it fits in `rem` and
/// reduced in place if it more than covers it.
pub open spec fn claim_step_kept(
    e: BondedRewardEntry,
    rem: int,
    opening_nanos: u64,
    now_nanos: u64,
) -> Seq<BondedRewardEntry> {
    if e.bonded_amount == 0 {
        Seq::empty()
    } else if !is_matured(e, opening_nanos, now_nanos) {
        seq![e]
    } else if e.bonded_amount as int <= rem {
        Seq::empty()
    } else if rem > 0 {
        seq![
            BondedRewardEntry { bonded_amount: (e.bonded_amount - rem) as u128, ..e },
        ]
    } else {
        seq![e]
    }
}

/// How much of `rem` one entry absorbs: nothing unless it is matured, and
/// never more than it holds.
pub open spec fn claim_step_consumed(
    e: BondedRewardEntry,
    rem: int,
    opening_nanos: u64,
    now_nanos: u64,
) -> int {
    if is_matured(e, opening_nanos, now_nanos) {
        min_int(rem, e.bonded_amount as int)
    } else {
        0
    }
}

/// The entry list a claim of `rem` rewrites `s` to: entries are walked in
/// insertion order, matured ones are consumed greedily toward `rem`,
/// unmatured ones are never touched, exhausted ones are dropped.
pub open spec fn surviving(
    s: Seq<BondedRewardEntry>,
    rem: int,
    opening_nanos: u64,
    now_nanos: u64,
) -> Seq<BondedRewardEntry>
    decreases s.len(),
{
    if s.len() == 0 {
        Seq::empty()
    } else {
        claim_step_kept(s[0], rem, opening_nanos, now_nanos) + surviving(
            s.subrange(1, s.len() as int),
            rem - claim_step_consumed(s[0], rem, opening_nanos, now_nanos),
            opening_nanos,
            now_nanos,
        )
    }
}

/// The earliest unlock time over the entries and the amount of the first
/// entry that attains it; meaningful only for a non-empty sequence.
pub open spec fn earliest_unlock_scan(s: Seq<BondedRewardEntry>, opening_nanos: u64) -> (int, u128)
    decreases s.len(),
{
    if s.len() == 0 {
        (0, 0)
    } else if s.len() == 1 {
        (unlock_time_secs(s[0], opening_nanos), s[0].bonded_amount)
    } else {
        let prev = earliest_unlock_scan(s.drop_last(), opening_nanos);
        if unlock_time_secs(s.last(), opening_nanos) < prev.0 {
            (unlock_time_secs(s.last(), opening_nanos), s.last().bonded_amount)
        } else {
            prev
        }
    }
}

/// The diagnostic a claim that unlocked nothing fails with: the earliest
/// unlock ahead, when the user has any entry at all.
pub open spec fn no_claim_error(s: Seq<BondedRewardEntry>, opening_nanos: u64) -> ProxyError {
    if s.len() == 0 {
        ProxyError::NoClaimableRewards { earliest: None }
    } else {
        ProxyError::NoClaimableRewards {
            earliest: Some(
                EarliestUnlock {
                    amount: earliest_unlock_scan(s, opening_nanos).1,
                    unlock_time_secs: earliest_unlock_scan(s, opening_nanos).0 as u64,
                },
            ),
        }
    }
}

/// When the lock of a contribution made now begins: now, once the opening
/// time has passed; otherwise unset, so that it resolves to the opening time.
pub open spec fn spec_bonding_start(now_nanos: u64, opening_nanos: u64) -> u64 {
    if opening_nanos < now_nanos {
        now_nanos
    } else {
        0
    }
}

/// Executable counterpart of [`spec_bonding_start`].
pub fn bonding_start(now_nanos: u64, opening_nanos: u64) -> (start: u64)
    ensures
        start == spec_bonding_start(now_nanos, opening_nanos),
{
    if opening_nanos < now_nanos {
        now_nanos
    } else {
        0
    }
}

/// Appends a reward entry to a user's list.  Only a reward-earning
/// contribution calls this; a claim never creates entries.
pub fn record_bond(
    entries: &mut Vec<BondedRewardEntry>,
    user_address: String,
    bonded_amount: u128,
    bonding_period: u64,
    bonding_start_timestamp_nanos: u64,
)
    ensures
        final(entries)@ == old(entries)@.push(
            (BondedRewardEntry {
                user_address,
                bonded_amount,
                bonding_period,
                bonding_start_timestamp_nanos,
            }),
        ),
{
    entries.push(
        BondedRewardEntry { user_address, bonded_amount, bonding_period, bonding_start_timestamp_nanos },
    );
}

/// The sums are non-negative, and no more can have matured than is owed in
/// total.
pub proof fn lemma_matured_total_bounds(s: Seq<BondedRewardEntry>, opening_nanos: u64, now_nanos: u64)
    ensures
        0 <= matured_total(s, opening_nanos, now_nanos) <= total_bonded(s),
    decreases s.len(),
{
    if s.len() > 0 {
        lemma_matured_total_bounds(s.subrange(1, s.len() as int), opening_nanos, now_nanos);
    }
}

/// A claim consumes exactly the requested amount from the matured prefix of
/// the ledger: the surviving entries are worth the prior total minus what was
/// consumed.
pub proof fn lemma_surviving_sum(
    s: Seq<BondedRewardEntry>,
    rem: int,
    opening_nanos: u64,
    now_nanos: u64,
)
    requires
        rem >= 0,
    ensures
        total_bonded(surviving(s, rem, opening_nanos, now_nanos)) == total_bonded(s) - min_int(
            rem,
            matured_total(s, opening_nanos, now_nanos),
        ),
    decreases s.len(),
{
    if s.len() == 0 {
    } else {
        let e = s[0];
        let rest = s.subrange(1, s.len() as int);
        let c = claim_step_consumed(e, rem, opening_nanos, now_nanos);
        let kept = claim_step_kept(e, rem, opening_nanos, now_nanos);
        let tail = surviving(rest, rem - c, opening_nanos, now_nanos);
        lemma_surviving_sum(rest, rem - c, opening_nanos, now_nanos);
        lemma_matured_total_bounds(rest, opening_nanos, now_nanos);
        if kept.len() == 0 {
            assert(kept + tail =~= tail);
        } else {
            assert((kept + tail)[0] == kept[0]);
            assert((kept + tail).subrange(1, (kept + tail).len() as int) =~= tail);
        }
    }
}

/// Unlocks matured entries against `requested`, all or nothing.
///
/// Entries are walked in insertion order; matured ones are consumed greedily
/// until the request is covered, unmatured ones are never touched, exhausted
/// ones are dropped from the rewrite.  On full satisfaction the list is
/// rewritten and the transferred amount equals the request exactly; on any
/// failure the list is left untouched.  A claim that unlocks nothing fails
/// with the earliest-unlock diagnostic; one that unlocks too little fails
/// with the total that was available.
pub fn claim(
    entries: &mut Vec<BondedRewardEntry>,
    opening_nanos: u64,
    now_nanos: u64,
    requested: u128,
) -> (r: Result<u128, ProxyError>)
    requires
        total_bonded(old(entries)@) <= u128::MAX,
        forall|k: int|
            0 <= k < old(entries)@.len() ==> #[trigger] unlock_time_secs(
                old(entries)@[k],
                opening_nanos,
            ) <= u64::MAX,
    ensures
        ({
            let s = old(entries)@;
            let mt = matured_total(s, opening_nanos, now_nanos);
            &&& ((r is Ok) <==> (requested > 0 && requested as int <= mt))
            &&& (r matches Ok(t) ==> t == requested && final(entries)@ == surviving(
                s,
                requested as int,
                opening_nanos,
                now_nanos,
            ) && total_bonded(final(entries)@) == total_bonded(s) - requested)
            &&& (r is Err ==> final(entries)@ == s)
            &&& (r matches Err(e) ==> e == (if requested == 0 || mt == 0 {
                no_claim_error(s, opening_nanos)
            } else {
                ProxyError::InsufficientClaimable { available: mt as u128 }
            }))
        }),
{
    let ghost s = entries@;
    let now_secs = now_nanos / NANOS_PER_SECOND;
    let n = entries.len();
    let mut updated: Vec<BondedRewardEntry> = Vec::new();
    let mut rem: u128 = requested;
    let mut unbonded: u128 = 0;
    let mut best: Option<EarliestUnlock> = None;
    let mut i: usize = 0;
    proof {
        assert(s.subrange(0, n as int) =~= s);
        assert(updated@ + surviving(s, requested as int, opening_nanos, now_nanos) =~= surviving(
            s,
            requested as int,
            opening_nanos,
            now_nanos,
        ));
    }
    while i < n
        invariant
            0 <= i <= n,
            n == s.len(),
            s == old(entries)@,
            entries@ == s,
            now_secs == now_nanos as int / (NANOS_PER_SECOND as int),
            total_bonded(s) <= u128::MAX,
            forall|k: int|
                0 <= k < s.len() ==> #[trigger] unlock_time_secs(s[k], opening_nanos) <= u64::MAX,
            rem <= requested,
            unbonded as int == requested - rem,
            requested - rem == min_int(
                requested as int,
                matured_total(s, opening_nanos, now_nanos),
            ) - min_int(
                rem as int,
                matured_total(s.subrange(i as int, n as int), opening_nanos, now_nanos),
            ),
            surviving(s, requested as int, opening_nanos, now_nanos) == updated@ + surviving(
                s.subrange(i as int, n as int),
                rem as int,
                opening_nanos,
                now_nanos,
            ),
            i == 0 ==> best is None,
            i > 0 ==> (best matches Some(b) && b.unlock_time_secs as int == earliest_unlock_scan(
                s.take(i as int),
                opening_nanos,
            ).0 && b.amount == earliest_unlock_scan(s.take(i as int), opening_nanos).1),
        decreases n - i,
    {
        let ghost suf = s.subrange(i as int, n as int);
        let ghost c = claim_step_consumed(s[i as int], rem as int, opening_nanos, now_nanos);
        proof {
            assert(suf[0] == s[i as int]);
            assert(suf.subrange(1, suf.len() as int) =~= s.subrange(i as int + 1, n as int));
            lemma_matured_total_bounds(
                s.subrange(i as int + 1, n as int),
                opening_nanos,
                now_nanos,
            );
        }
        let e_start = entries[i].bonding_start_timestamp_nanos;
        let e_period = entries[i].bonding_period;
        let e_amount = entries[i].bonded_amount;
        let eff_start = if e_start != 0 {
            e_start
        } else {
            opening_nanos
        };
        proof {
            assert(unlock_time_secs(s[i as int], opening_nanos) <= u64::MAX);
        }
        let unlock = eff_start / NANOS_PER_SECOND + e_period;
        proof {
            assert(unlock as int == unlock_time_secs(s[i as int], opening_nanos));
        }

        // Track the globally earliest unlock for the failure diagnostic; only
        // a strictly earlier entry displaces the current one.
        let improves = match &best {
            Option::None => true,
            Option::Some(b) => unlock < b.unlock_time_secs,
        };
        if improves {
            best = Some(EarliestUnlock { amount: e_amount, unlock_time_secs: unlock });
        }
        proof {
            assert(s.take(i as int + 1).drop_last() =~= s.take(i as int));
            assert(s.take(i as int + 1).last() == s[i as int]);
        }

        let matured = unlock < now_secs;
        proof {
            assert(matured == is_matured(s[i as int], opening_nanos, now_nanos));
        }
        if e_amount == 0 {
            // Exhausted entry: dropped on rewrite.
        } else if !matured {
            updated.push(
                BondedRewardEntry {
                    user_address: entries[i].user_address.clone(),
                    bonded_amount: e_amount,
                    bonding_period: e_period,
                    bonding_start_timestamp_nanos: e_start,
                },
            );
        } else if e_amount <= rem {
            // Fully consumed toward the request and dropped.
            unbonded = unbonded + e_amount;
            rem = rem - e_amount;
        } else if rem > 0 {
            // Covers the remainder: reduced in place, request satisfied.
            updated.push(
                BondedRewardEntry {
                    user_address: entries[i].user_address.clone(),
                    bonded_amount: e_amount - rem,
                    bonding_period: e_period,
                    bonding_start_timestamp_nanos: e_start,
                },
            );
            unbonded = unbonded + rem;
            rem = 0;
        } else {
            updated.push(
                BondedRewardEntry {
                    user_address: entries[i].user_address.clone(),
                    bonded_amount: e_amount,
                    bonding_period: e_period,
                    bonding_start_timestamp_nanos: e_start,
                },
            );
        }
        proof {
            let kept = claim_step_kept(s[i as int], rem as int + c, opening_nanos, now_nanos);
            let tail = surviving(
                s.subrange(i as int + 1, n as int),
                rem as int,
                opening_nanos,
                now_nanos,
            );
            if kept.len() == 0 {
                assert(kept + tail =~= tail);
            } else {
                assert(updated@.drop_last() + (kept + tail) =~= updated@ + tail);
            }
        }
        i = i + 1;
    }
    proof {
        assert(s.subrange(n as int, n as int) =~= Seq::<BondedRewardEntry>::empty());
        assert(updated@ + surviving(
            Seq::<BondedRewardEntry>::empty(),
            rem as int,
            opening_nanos,
            now_nanos,
        ) =~= updated@);
        assert(s.take(n as int) =~= s);
        lemma_matured_total_bounds(s, opening_nanos, now_nanos);
    }
    if unbonded == 0 {
        if entries.len() == 0 {
            return Err(ProxyError::NoClaimableRewards { earliest: None });
        }
        return Err(ProxyError::NoClaimableRewards { earliest: best });
    }
    if rem > 0 {
        return Err(ProxyError::InsufficientClaimable { available: unbonded });
    }
    proof {
        lemma_surviving_sum(s, requested as int, opening_nanos, now_nanos);
    }
    *entries = updated;
    Ok(requested)
}

/// The unmatured, still-live entries of a list, in order.
pub open spec fn live_unmatured(
    s: Seq<BondedRewardEntry>,
    opening_nanos: u64,
    now_nanos: u64,
) -> Seq<BondedRewardEntry>
    decreases s.len(),
{
    if s.len() == 0 {
        Seq::empty()
    } else {
        (if !is_matured(s[0], opening_nanos, now_nanos) && s[0].bonded_amount > 0 {
            seq![s[0]]
        } else {
            Seq::<BondedRewardEntry>::empty()
        }) + live_unmatured(s.subrange(1, s.len() as int), opening_nanos, now_nanos)
    }
}

/// Maturity gating: no claim, of any size, ever touches an entry whose unlock
/// time has not passed — the unmatured live entries survive a claim rewrite
/// unchanged and in order.
pub proof fn lemma_claim_never_touches_unmatured(
    s: Seq<BondedRewardEntry>,
    rem: int,
    opening_nanos: u64,
    now_nanos: u64,
)
    ensures
        live_unmatured(surviving(s, rem, opening_nanos, now_nanos), opening_nanos, now_nanos)
            == live_unmatured(s, opening_nanos, now_nanos),
    decreases s.len(),
{
    if s.len() == 0 {
    } else {
        let e = s[0];
        let rest = s.subrange(1, s.len() as int);
        let c = claim_step_consumed(e, rem, opening_nanos, now_nanos);
        let kept = claim_step_kept(e, rem, opening_nanos, now_nanos);
        let tail = surviving(rest, rem - c, opening_nanos, now_nanos);
        lemma_claim_never_touches_unmatured(rest, rem - c, opening_nanos, now_nanos);
        if kept.len() == 0 {
            assert(kept + tail =~= tail);
        } else {
            assert((kept + tail)[0] == kept[0]);
            assert((kept + tail).subrange(1, (kept + tail).len() as int) =~= tail);
            assert(live_unmatured(kept + tail, opening_nanos, now_nanos) == (if !is_matured(
                kept[0],
                opening_nanos,
                now_nanos,
            ) && kept[0].bonded_amount > 0 {
                seq![kept[0]]
            } else {
                Seq::<BondedRewardEntry>::empty()
            }) + live_unmatured(tail, opening_nanos, now_nanos));
        }
    }
}

} // verus!
