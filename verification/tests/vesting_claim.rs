use amm_proxy::error::{EarliestUnlock, ProxyError};
use amm_proxy::ids::RequestIdCounter;
use amm_proxy::vesting::{bonding_start, claim, record_bond, BondedRewardEntry};

const NANOS_PER_SECOND: u64 = 1_000_000_000;

fn entry(amount: u128, period_secs: u64, start_nanos: u64) -> BondedRewardEntry {
    BondedRewardEntry {
        user_address: "user".to_string(),
        bonded_amount: amount,
        bonding_period: period_secs,
        bonding_start_timestamp_nanos: start_nanos,
    }
}

#[test]
fn allocator_issues_distinct_increasing_ids() {
    let mut counter = RequestIdCounter::new();
    let mut seen = Vec::new();
    for _ in 0..5 {
        seen.push(counter.next_id());
    }
    assert_eq!(seen, vec![1, 2, 3, 4, 5]);
    for i in 0..seen.len() {
        for j in (i + 1)..seen.len() {
            assert!(seen[i] < seen[j]);
        }
    }
}

#[test]
fn matured_entry_fully_covers_claim() {
    // Entry started at 1s, locked 1s, so it unlocked at 2s; now is 10s.
    let mut v = vec![entry(500, 1, NANOS_PER_SECOND)];
    let r = claim(&mut v, 0, 10 * NANOS_PER_SECOND, 200);
    assert_eq!(r, Ok(200));
    assert_eq!(v.len(), 1);
    assert_eq!(v[0].bonded_amount, 300);
}

#[test]
fn claim_conservation_across_entries() {
    // [100 matured, 500 matured], claim 400: the first entry is consumed
    // whole, the second reduced in place; the survivors are worth exactly
    // the prior total minus the transfer.
    let mut v = vec![entry(100, 1, NANOS_PER_SECOND), entry(500, 1, NANOS_PER_SECOND)];
    let prior: u128 = v.iter().map(|e| e.bonded_amount).sum();
    let r = claim(&mut v, 0, 10 * NANOS_PER_SECOND, 400);
    assert_eq!(r, Ok(400));
    let after: u128 = v.iter().map(|e| e.bonded_amount).sum();
    assert_eq!(after, prior - 400);
    assert_eq!(v.len(), 1);
    assert_eq!(v[0].bonded_amount, 200);
}

#[test]
fn insufficient_claim_fails_whole_and_preserves_ledger() {
    // User has [500 matured, 700 unmatured]; claim 600 must fail with the
    // matured 500 reported, and the ledger must be unchanged: unmatured funds
    // are never borrowed to satisfy a request.
    let now = 10 * NANOS_PER_SECOND;
    let matured = entry(500, 1, NANOS_PER_SECOND);
    let unmatured = entry(700, 1_000_000, NANOS_PER_SECOND);
    let mut v = vec![matured.clone(), unmatured.clone()];
    let r = claim(&mut v, 0, now, 600);
    assert_eq!(r, Err(ProxyError::InsufficientClaimable { available: 500 }));
    assert_eq!(v, vec![matured, unmatured]);
}

#[test]
fn claim_with_no_entries_has_no_diagnostic() {
    let mut v: Vec<BondedRewardEntry> = Vec::new();
    let r = claim(&mut v, 0, 10 * NANOS_PER_SECOND, 1);
    assert_eq!(r, Err(ProxyError::NoClaimableRewards { earliest: None }));
    assert!(v.is_empty());
}

#[test]
fn claim_before_maturity_reports_earliest_unlock() {
    // Two unmatured entries; the diagnostic names the earliest unlock and the
    // amount of the first entry attaining it.
    let now = 10 * NANOS_PER_SECOND;
    let later = entry(700, 500, NANOS_PER_SECOND); // unlocks at 501s
    let sooner = entry(300, 90, NANOS_PER_SECOND); // unlocks at 91s
    let mut v = vec![later.clone(), sooner.clone()];
    let r = claim(&mut v, 0, now, 100);
    assert_eq!(
        r,
        Err(ProxyError::NoClaimableRewards {
            earliest: Some(EarliestUnlock { amount: 300, unlock_time_secs: 91 })
        })
    );
    assert_eq!(v, vec![later, sooner]);
}

#[test]
fn unmatured_entries_survive_any_claim_untouched() {
    // A matured and an unmatured entry; a successful claim consumes only the
    // matured one and leaves the unmatured entry exactly as it was.
    let now = 10 * NANOS_PER_SECOND;
    let unmatured = entry(700, 1_000_000, NANOS_PER_SECOND);
    let mut v = vec![entry(500, 1, NANOS_PER_SECOND), unmatured.clone()];
    let r = claim(&mut v, 0, now, 500);
    assert_eq!(r, Ok(500));
    assert_eq!(v, vec![unmatured]);
}

#[test]
fn entry_unlocking_exactly_now_is_not_matured() {
    // Unlock time equals the current second: maturity requires it to lie
    // strictly before now, so nothing is claimable.
    let now = 10 * NANOS_PER_SECOND;
    let mut v = vec![entry(500, 9, NANOS_PER_SECOND)]; // unlocks at 10s
    let r = claim(&mut v, 0, now, 1);
    assert_eq!(
        r,
        Err(ProxyError::NoClaimableRewards {
            earliest: Some(EarliestUnlock { amount: 500, unlock_time_secs: 10 })
        })
    );
}

#[test]
fn unset_start_resolves_to_opening_time() {
    // Start timestamp 0 means the lock began at the swap-opening time.
    let opening = 5 * NANOS_PER_SECOND;
    let mut v = vec![entry(400, 2, 0)]; // unlocks at 5 + 2 = 7s
    // At 8s the entry is matured.
    let r = claim(&mut v, opening, 8 * NANOS_PER_SECOND, 400);
    assert_eq!(r, Ok(400));
    assert!(v.is_empty());
    // At 7s it is not.
    let mut w = vec![entry(400, 2, 0)];
    let r2 = claim(&mut w, opening, 7 * NANOS_PER_SECOND, 400);
    assert!(matches!(r2, Err(ProxyError::NoClaimableRewards { .. })));
}

#[test]
fn exhausted_entries_are_dropped_on_rewrite() {
    let now = 10 * NANOS_PER_SECOND;
    let mut v = vec![entry(0, 1, NANOS_PER_SECOND), entry(50, 1, NANOS_PER_SECOND)];
    let r = claim(&mut v, 0, now, 50);
    assert_eq!(r, Ok(50));
    assert!(v.is_empty());
}

#[test]
fn zero_request_unlocks_nothing() {
    let now = 10 * NANOS_PER_SECOND;
    let e = entry(500, 1, NANOS_PER_SECOND);
    let mut v = vec![e.clone()];
    let r = claim(&mut v, 0, now, 0);
    assert!(matches!(r, Err(ProxyError::NoClaimableRewards { earliest: Some(_) })));
    assert_eq!(v, vec![e]);
}

#[test]
fn record_bond_appends_in_order() {
    let mut v = Vec::new();
    record_bond(&mut v, "user".to_string(), 10, 60, 0);
    record_bond(&mut v, "user".to_string(), 20, 60, 7);
    assert_eq!(v.len(), 2);
    assert_eq!(v[0].bonded_amount, 10);
    assert_eq!(v[1].bonded_amount, 20);
    assert_eq!(v[1].bonding_start_timestamp_nanos, 7);
}

#[test]
fn bonding_start_is_now_only_after_opening() {
    assert_eq!(bonding_start(10, 5), 10);
    assert_eq!(bonding_start(5, 5), 0);
    assert_eq!(bonding_start(4, 5), 0);
}
