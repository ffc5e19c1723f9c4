use crate::error::ErrorCode;
use vstd::prelude::*;

verus! {

/// One whole, in basis points.
pub const BPS_TOTAL: u64 = 10000;

/// The sum of the shares.
pub open spec fn total_bps(shares: Seq<u16>) -> int
    decreases shares.len(),
{
    if shares.len() == 0 {
        0
    } else {
        total_bps(shares.drop_last()) + shares.last() as int
    }
}

/// Whether the shares add up to one whole.
pub open spec fn is_whole(shares: Seq<u16>) -> bool {
    total_bps(shares) == BPS_TOTAL as int
}

/// What a share of `bps` basis points receives of `amount`: the product over
/// one whole, rounded down.
pub open spec fn share_of(amount: u64, bps: u16) -> int {
    (amount as int * bps as int) / (BPS_TOTAL as int)
}

/// What the shares receive of `amount`, all together.
pub open spec fn payout_total(amount: u64, shares: Seq<u16>) -> int
    decreases shares.len(),
{
    if shares.len() == 0 {
        0
    } else {
        payout_total(amount, shares.drop_last()) + share_of(amount, shares.last())
    }
}

/// The sum of a prefix grows by the share that follows it.
pub proof fn lemma_total_bps_step(shares: Seq<u16>, n: int)
    requires
        0 <= n < shares.len(),
    ensures
        total_bps(shares.take(n + 1)) == total_bps(shares.take(n)) + shares[n] as int,
{
    assert(shares.take(n + 1).drop_last() =~= shares.take(n));
}

/// The payouts of a prefix grow by the payout of the share that follows it.
pub proof fn lemma_payout_total_step(amount: u64, shares: Seq<u16>, n: int)
    requires
        0 <= n < shares.len(),
    ensures
        payout_total(amount, shares.take(n + 1)) == payout_total(amount, shares.take(n)) + share_of(
            amount,
            shares[n],
        ),
{
    assert(shares.take(n + 1).drop_last() =~= shares.take(n));
}

/// No share is larger than the sum of the shares, and the sum is at most
/// 65535 for each share.
pub proof fn lemma_total_bps_bounds(shares: Seq<u16>)
    ensures
        0 <= total_bps(shares) <= 65535 * shares.len(),
        forall|i: int| 0 <= i < shares.len() ==> shares[i] as int <= total_bps(shares),
    decreases shares.len(),
{
    if shares.len() > 0 {
        let front = shares.drop_last();
        lemma_total_bps_bounds(front);
        assert forall|i: int| 0 <= i < shares.len() implies shares[i] as int <= total_bps(shares) by {
            if i < shares.len() - 1 {
                assert(front[i] == shares[i]);
            }
        }
    }
}

/// A payout is never negative, and never more than the amount times the
/// share over one whole.
pub proof fn lemma_share_of_bounds(amount: u64, bps: u16)
    ensures
        0 <= share_of(amount, bps),
        share_of(amount, bps) * 10000 <= amount as int * bps as int,
        amount as int * bps as int - share_of(amount, bps) * 10000 < 10000,
        bps as int <= 10000 ==> share_of(amount, bps) <= amount as int,
{
    let product = amount as int * bps as int;
    assert(0 <= product) by (nonlinear_arith)
        requires
            product == amount as int * bps as int,
    ;
    assert(product == 10000 * (product / 10000) + product % 10000) by {
        vstd::arithmetic::div_mod::lemma_fundamental_div_mod(product, 10000);
    }
    assert(0 <= product % 10000 < 10000);
    if bps as int <= 10000 {
        assert(product <= amount as int * 10000) by (nonlinear_arith)
            requires
                product == amount as int * bps as int,
                0 <= bps as int <= 10000,
                0 <= amount as int,
        ;
    }
}

/// The payouts of shares that add up to at most one whole never exceed the
/// amount: what rounding takes from each stays undistributed.
pub proof fn lemma_payout_total_bounds(amount: u64, shares: Seq<u16>)
    ensures
        0 <= payout_total(amount, shares),
        payout_total(amount, shares) * 10000 <= amount as int * total_bps(shares),
        amount as int * total_bps(shares) - payout_total(amount, shares) * 10000 <= 9999
            * shares.len(),
    decreases shares.len(),
{
    if shares.len() > 0 {
        let front = shares.drop_last();
        let last = shares.last();
        lemma_payout_total_bounds(amount, front);
        lemma_share_of_bounds(amount, last);
        assert(amount as int * total_bps(shares) == amount as int * total_bps(front) + amount as int
            * last as int) by (nonlinear_arith)
            requires
                total_bps(shares) == total_bps(front) + last as int,
        ;
    } else {
        assert(amount as int * total_bps(shares) == 0) by (nonlinear_arith)
            requires
                total_bps(shares) == 0,
        ;
    }
}

/// Adds up the shares.
pub fn sum_shares(shares: &Vec<u16>) -> (total: u128)
    ensures
        total == total_bps(shares@),
{
    let mut total: u128 = 0;
    let mut i: usize = 0;
    while i < shares.len()
        invariant
            i <= shares.len(),
            total == total_bps(shares@.take(i as int)),
            total <= 65535 * i,
        decreases shares.len() - i,
    {
        proof {
            lemma_total_bps_step(shares@, i as int);
        }
        total = total + shares[i] as u128;
        i += 1;
    }
    assert(shares@.take(shares.len() as int) =~= shares@);
    total
}

/// The part of `amount` that goes to a share of `share_bps` basis points,
/// computed in 128 bits. Fails where the part does not fit 64 bits, which can
/// only happen to a share of more than one whole.
pub fn share_amount(amount: u64, share_bps: u16) -> (part: Result<u64, ErrorCode>)
    ensures
        match part {
            Ok(p) => p as int == share_of(amount, share_bps),
            Err(e) => e == ErrorCode::MathError && share_of(amount, share_bps) > u64::MAX,
        },
{
    assert(amount as int * share_bps as int <= 0xffff_ffff_ffff_ffff * 0xffff) by (nonlinear_arith)
        requires
            0 <= amount as int <= 0xffff_ffff_ffff_ffff,
            0 <= share_bps as int <= 0xffff,
    ;
    let product: u128 = (amount as u128) * (share_bps as u128);
    let part: u128 = product / (BPS_TOTAL as u128);
    if part > u64::MAX as u128 {
        Err(ErrorCode::MathError)
    } else {
        Ok(part as u64)
    }
}

} // verus!
