//! Saturating-to-zero integer helpers shared by the reward computation, and
//! the per-coin tax netting applied before funds are forwarded.

use vstd::prelude::*;

use crate::types::Coin;

verus! {

/// `a * b / c`, or 0 when the product overflows or `c` is zero.  This is the
/// lenient form the reward computation uses: a degenerate pool or rate yields
/// a zero reward instead of an abort.
pub open spec fn spec_mul_div_or_zero(a: u128, b: u128, c: u128) -> u128 {
    if a * b > u128::MAX {
        0
    } else if c == 0 {
        0
    } else {
        ((a * b) / (c as int)) as u128
    }
}

/// Executable counterpart of [`spec_mul_div_or_zero`].
pub fn mul_div_or_zero(a: u128, b: u128, c: u128) -> (r: u128)
    ensures
        r == spec_mul_div_or_zero(a, b, c),
{
    match a.checked_mul(b) {
        Some(p) => match p.checked_div(c) {
            Some(q) => q,
            None => 0,
        },
        None => 0,
    }
}

/// The smaller of two amounts.
pub open spec fn spec_min_u128(a: u128, b: u128) -> u128 {
    if a < b {
        a
    } else {
        b
    }
}

/// Each coin reduced by its tax, denominations kept.  Meaningful only when
/// `taxes` aligns with `funds` and no tax exceeds its coin.
pub open spec fn spec_net_funds(funds: Seq<Coin>, taxes: Seq<u128>) -> Seq<Coin> {
    Seq::new(funds.len(), |i: int| Coin { denom: funds[i].denom, amount: (funds[i].amount - taxes[i]) as u128 })
}

/// Subtracts from every attached coin the tax the host computed for it, as
/// the surrounding chain charges it on forwarded funds.
pub fn net_funds(funds: &Vec<Coin>, taxes: &Vec<u128>) -> (r: Vec<Coin>)
    requires
        taxes@.len() == funds@.len(),
        forall|i: int| 0 <= i < funds@.len() ==> #[trigger] taxes@[i] <= funds@[i].amount,
    ensures
        r@ == spec_net_funds(funds@, taxes@),
{
    let n = funds.len();
    let mut r: Vec<Coin> = Vec::new();
    let mut i: usize = 0;
    while i < n
        invariant
            0 <= i <= n,
            n == funds@.len(),
            taxes@.len() == funds@.len(),
            forall|k: int| 0 <= k < funds@.len() ==> #[trigger] taxes@[k] <= funds@[k].amount,
            r@ =~= spec_net_funds(funds@, taxes@).take(i as int),
        decreases n - i,
    {
        let c = Coin { denom: funds[i].denom.clone(), amount: funds[i].amount - taxes[i] };
        r.push(c);
        i = i + 1;
    }
    proof {
        assert(r@ =~= spec_net_funds(funds@, taxes@));
    }
    r
}

} // verus!
