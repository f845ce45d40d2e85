//! The continuation ledger: pending multi-step operations keyed by request
//! id, written immediately before a sub-operation is dispatched and consumed
//! at most once by the matching completion notification.

use vstd::prelude::*;

use crate::types::{AssetPair, Coin, FixedDec};

verus! {

/// What to do once the sub-operation a continuation was stored for has
/// completed.
#[derive(Clone, Copy, Debug, PartialEq, Eq, Structural)]
pub enum NextAction {
    /// Grant the pool an allowance over the tokens just pulled in.
    IncreaseAllowance,
    /// Forward the provide-liquidity call to the pool.
    ProvideLiquidity,
    /// Send the leftover native funds to the configured receive wallet.
    TransferToRewardWallet,
    /// Pull the reward-equivalent custom tokens from the funds-owner wallet.
    TransferFromFundsOwner,
}

/// The provide-liquidity call a continuation chain works toward, carried
/// along the chain as a typed payload.
#[derive(Clone, Debug, PartialEq, Eq)]
pub struct LiquidityParams {
    pub assets: AssetPair,
    pub slippage_tolerance: Option<FixedDec>,
    pub auto_stake: Option<bool>,
    pub receiver: Option<String>,
}

/// A pending multi-step operation: what to do when the sub-operation
/// dispatched under `request_id` completes.
#[derive(Clone, Debug, PartialEq, Eq)]
pub struct ContinuationRecord {
    /// Correlation id of the dispatched sub-operation.
    pub request_id: u64,
    /// The step to take on completion.
    pub next_action: NextAction,
    /// The liquidity call the chain is working toward.
    pub payload: LiquidityParams,
    /// Native funds attached to the user action that started the chain.
    pub funds: Vec<Coin>,
    /// The user the chain acts for.
    pub user_address: String,
    /// Whether the user provided the custom token themselves (a pair
    /// contribution) or the chain is funded from a reward wallet.
    pub is_fury_provided: bool,
}

/// No two records share a request id.
pub open spec fn unique_ids(s: Seq<ContinuationRecord>) -> bool {
    forall|i: int, j: int|
        0 <= i < j < s.len() ==> #[trigger] s[i].request_id != #[trigger] s[j].request_id
}

/// Some record carries `id`.
pub open spec fn contains_id(s: Seq<ContinuationRecord>, id: u64) -> bool {
    exists|i: int| 0 <= i < s.len() && #[trigger] s[i].request_id == id
}

/// The position of the record carrying `id`; meaningful only when
/// `contains_id(s, id)` holds, and unique when ids are unique.
pub open spec fn index_of_id(s: Seq<ContinuationRecord>, id: u64) -> int {
    choose|i: int| 0 <= i < s.len() && #[trigger] s[i].request_id == id
}

/// The record stored under `id`; meaningful only when `contains_id(s, id)`.
pub open spec fn record_for(s: Seq<ContinuationRecord>, id: u64) -> ContinuationRecord {
    s[index_of_id(s, id)]
}

/// The ledger after the record carrying `id` has been consumed.
pub open spec fn ledger_without(s: Seq<ContinuationRecord>, id: u64) -> Seq<ContinuationRecord> {
    s.remove(index_of_id(s, id))
}

/// The persisted continuation ledger.
pub struct ContinuationLedger {
    pub records: Vec<ContinuationRecord>,
}

impl ContinuationLedger {
    /// All stored request ids are distinct, so a lookup by id is unambiguous.
    pub open spec fn wf(&self) -> bool {
        unique_ids(self.records@)
    }

    /// An empty ledger.
    pub fn new() -> (l: ContinuationLedger)
        ensures
            l.records@ == Seq::<ContinuationRecord>::empty(),
            l.wf(),
    {
        ContinuationLedger { records: Vec::new() }
    }

    /// Stores a record under a fresh request id.
    pub fn store(&mut self, rec: ContinuationRecord)
        requires
            old(self).wf(),
            !contains_id(old(self).records@, rec.request_id),
        ensures
            final(self).records@ == old(self).records@.push(rec),
            final(self).wf(),
    {
        proof {
            let s = self.records@;
            assert forall|i: int, j: int| 0 <= i < j < s.push(rec).len() implies #[trigger] s.push(
                rec,
            )[i].request_id != #[trigger] s.push(rec)[j].request_id by {
                if j == s.len() {
                    assert(s[i].request_id != rec.request_id);
                }
            }
        }
        self.records.push(rec);
    }

    /// Loads and removes the record stored under `id`.  A duplicate or
    /// unknown id finds nothing and changes nothing: the caller passes the
    /// notification through.
    pub fn take(&mut self, id: u64) -> (r: Option<ContinuationRecord>)
        requires
            old(self).wf(),
        ensures
            final(self).wf(),
            !contains_id(old(self).records@, id) ==> r is None && *final(self) == *old(self),
            contains_id(old(self).records@, id) ==> r == Some(record_for(old(self).records@, id))
                && final(self).records@ == ledger_without(old(self).records@, id),
    {
        let ghost s = self.records@;
        let n = self.records.len();
        let mut i: usize = 0;
        while i < n
            invariant
                0 <= i <= n,
                n == s.len(),
                s == old(self).records@,
                self.records@ == s,
                unique_ids(s),
                *self == *old(self),
                forall|k: int| 0 <= k < i ==> #[trigger] s[k].request_id != id,
            decreases n - i,
        {
            if self.records[i].request_id == id {
                proof {
                    assert(contains_id(s, id));
                    assert(index_of_id(s, id) == i) by {
                        let w = index_of_id(s, id);
                        if w != i {
                            assert(s[w].request_id == s[i as int].request_id);
                        }
                    }
                }
                let rec = self.records.remove(i);
                proof {
                    let t = self.records@;
                    assert forall|p: int, q: int| 0 <= p < q < t.len() implies #[trigger] t[p].request_id
                        != #[trigger] t[q].request_id by {
                        let pp: int = if p < i { p } else { p + 1 };
                        let qq: int = if q < i { q } else { q + 1 };
                        assert(t[p] == s[pp] && t[q] == s[qq]);
                    }
                }
                return Some(rec);
            }
            i = i + 1;
        }
        proof {
            if contains_id(s, id) {
                let w = index_of_id(s, id);
                assert(s[w].request_id == id);
            }
        }
        None
    }
}

/// At-most-once consumption: the record for `id` leaves the ledger when it is
/// taken, so any later `take` of the same `id` finds nothing and, by `take`'s
/// contract, returns `None` and changes nothing.
pub proof fn lemma_take_at_most_once(s: Seq<ContinuationRecord>, id: u64)
    requires
        unique_ids(s),
        contains_id(s, id),
    ensures
        !contains_id(ledger_without(s, id), id),
{
    let k = index_of_id(s, id);
    let t = ledger_without(s, id);
    assert forall|j: int| 0 <= j < t.len() implies #[trigger] t[j].request_id != id by {
        let jj: int = if j < k { j } else { j + 1 };
        assert(t[j] == s[jj]);
        if jj != k {
            assert(s[jj].request_id != s[k].request_id);
        }
    }
}

} // verus!
