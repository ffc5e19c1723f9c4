use crate::address::{associated_token_address, get_associated_token_address};
use crate::custody::{transfers_total, TokenAccount, TokenTransfer, TrackSigner};
use crate::error::ErrorCode;
use crate::pubkey::{contains_key, Pubkey};
use crate::shares::{
    is_whole, lemma_payout_total_bounds, lemma_payout_total_step, lemma_share_of_bounds,
    lemma_total_bps_bounds, payout_total, share_amount, share_of, sum_shares, BPS_TOTAL,
};
use crate::track::Track;
use vstd::prelude::*;

verus! {

/// The accounts of `escrow_distribute`.
#[derive(Clone, Debug, PartialEq, Eq)]
pub struct EscrowDistribute {
    /// The signer.
    pub authority: Pubkey,
    /// The address of the track's record, which is the track's derived
    /// identity.
    pub track_key: Pubkey,
    /// The track.
    pub track: Track,
    /// The escrow that pays.
    pub escrow_token_account: TokenAccount,
    /// The addresses of the token accounts that the caller supplied for the
    /// contributors, in any order.
    pub remaining_accounts: Vec<Pubkey>,
}

impl EscrowDistribute {
    /// What contributor `i` receives of `amount`.
    pub open spec fn payout(self, amount: u64, i: int) -> int {
        share_of(amount, self.track.shares@[i])
    }

    /// The address of the token account that holds the escrow's asset for
    /// contributor `i`.
    pub open spec fn destination(self, i: int) -> Option<Pubkey> {
        associated_token_address(self.track.contributors@[i], self.escrow_token_account.mint)
    }

    /// Whether contributor `i` is owed a transfer that cannot be made: the
    /// payout is not zero, and the contributor's token account is not among
    /// those supplied.
    pub open spec fn recipient_missing(self, amount: u64, i: int) -> bool {
        self.payout(amount, i) > 0 && match self.destination(i) {
            Some(address) => !self.remaining_accounts@.contains(address),
            None => true,
        }
    }

    /// The authority of the track's derived identity over the escrow.
    pub open spec fn signer(self) -> TrackSigner {
        TrackSigner {
            authority: self.track.authority,
            track_id: self.track.track_id,
            bump: self.track.bump,
        }
    }

    /// The transfers that pay the first `n` contributors out of `amount`, in
    /// the contributors' order. A contributor whose payout rounds down to
    /// zero gets none.
    pub open spec fn planned_transfers(self, amount: u64, n: int) -> Seq<TokenTransfer>
        decreases n,
    {
        if n <= 0 {
            Seq::empty()
        } else {
            let before = self.planned_transfers(amount, n - 1);
            match self.destination(n - 1) {
                Some(to) if self.payout(amount, n - 1) > 0 => before.push(
                    TokenTransfer {
                        from: self.escrow_token_account.key,
                        to,
                        authority: self.track_key,
                        amount: self.payout(amount, n - 1) as u64,
                        signer: Some(self.signer()),
                    },
                ),
                _ => before,
            }
        }
    }
}

/// Why `escrow_distribute` rejects its input before it looks for the
/// contributors' accounts, if it does.
pub open spec fn escrow_distribute_refusal(ctx: EscrowDistribute, amount: u64, track_id: u64) -> Option<
    ErrorCode,
> {
    if ctx.authority != ctx.track.authority {
        Some(ErrorCode::Unauthorized)
    } else if amount == 0 {
        Some(ErrorCode::InvalidAmount)
    } else if ctx.track.track_id != track_id {
        Some(ErrorCode::InvalidArguments)
    } else if ctx.escrow_token_account.owner != ctx.track_key {
        Some(ErrorCode::InvalidTokenAccountOwner)
    } else if ctx.track.shares@.len() != ctx.track.contributors@.len() {
        Some(ErrorCode::InvalidRecipientCount)
    } else if !is_whole(ctx.track.shares@) {
        Some(ErrorCode::InvalidShareTotal)
    } else {
        None
    }
}

/// Why `escrow_distribute` rejects its input, if it does.
pub open spec fn escrow_distribute_error(ctx: EscrowDistribute, amount: u64, track_id: u64) -> Option<
    ErrorCode,
> {
    if escrow_distribute_refusal(ctx, amount, track_id) is Some {
        escrow_distribute_refusal(ctx, amount, track_id)
    } else if exists|i: int|
        0 <= i < ctx.track.contributors@.len() && #[trigger] ctx.recipient_missing(amount, i) {
        Some(ErrorCode::RecipientNotFound)
    } else {
        None
    }
}

/// The transfers add up to what the contributors paid so far receive.
pub proof fn lemma_planned_total(ctx: EscrowDistribute, amount: u64, n: int)
    requires
        0 <= n <= ctx.track.shares@.len(),
        is_whole(ctx.track.shares@),
        forall|i: int| 0 <= i < n ==> !#[trigger] ctx.recipient_missing(amount, i),
    ensures
        transfers_total(ctx.planned_transfers(amount, n)) == payout_total(
            amount,
            ctx.track.shares@.take(n),
        ),
    decreases n,
{
    if n > 0 {
        lemma_planned_total(ctx, amount, n - 1);
        lemma_payout_total_step(amount, ctx.track.shares@, n - 1);
        lemma_total_bps_bounds(ctx.track.shares@);
        lemma_share_of_bounds(amount, ctx.track.shares@[n - 1]);
        assert(!ctx.recipient_missing(amount, n - 1));
        let before = ctx.planned_transfers(amount, n - 1);
        let after = ctx.planned_transfers(amount, n);
        if ctx.payout(amount, n - 1) > 0 {
            assert(after.drop_last() =~= before);
        }
    }
}

/// Splits `amount` of a track's escrow among the contributors by their
/// shares, and says which transfers pay them.
///
/// Each contributor receives the amount times the share over one whole,
/// rounded down; one whose payout is zero receives no transfer and needs no
/// account. What rounding leaves stays in the escrow. Every other contributor
/// is paid into the token account derived for the contributor and the
/// escrow's asset, which the caller must have supplied: where one is missing
/// the distribution fails as a whole, and no transfer is asked for.
pub fn escrow_distribute(ctx: &EscrowDistribute, amount: u64, track_id: u64) -> (outcome: Result<
    Vec<TokenTransfer>,
    ErrorCode,
>)
    ensures
        match outcome {
            Err(e) => escrow_distribute_error(*ctx, amount, track_id) == Some(e),
            Ok(transfers) => {
                &&& escrow_distribute_error(*ctx, amount, track_id) is None
                &&& transfers@ == ctx.planned_transfers(amount, ctx.track.contributors@.len() as int)
                &&& transfers_total(transfers@) == payout_total(amount, ctx.track.shares@)
                &&& transfers_total(transfers@) <= amount
                &&& amount - transfers_total(transfers@) < ctx.track.contributors@.len()
            },
        },
{
    if ctx.authority != ctx.track.authority {
        return Err(ErrorCode::Unauthorized);
    }
    if amount == 0 {
        return Err(ErrorCode::InvalidAmount);
    }
    if ctx.track.track_id != track_id {
        return Err(ErrorCode::InvalidArguments);
    }
    if ctx.escrow_token_account.owner != ctx.track_key {
        return Err(ErrorCode::InvalidTokenAccountOwner);
    }
    if ctx.track.shares.len() != ctx.track.contributors.len() {
        return Err(ErrorCode::InvalidRecipientCount);
    }
    if sum_shares(&ctx.track.shares) != BPS_TOTAL as u128 {
        return Err(ErrorCode::InvalidShareTotal);
    }
    let signer = TrackSigner {
        authority: ctx.track.authority,
        track_id: ctx.track.track_id,
        bump: ctx.track.bump,
    };
    let count = ctx.track.contributors.len();
    let mut transfers: Vec<TokenTransfer> = Vec::new();
    let mut i: usize = 0;
    while i < count
        invariant
            i <= count,
            count == ctx.track.contributors@.len(),
            count == ctx.track.shares@.len(),
            escrow_distribute_refusal(*ctx, amount, track_id) is None,
            signer == ctx.signer(),
            transfers@ == ctx.planned_transfers(amount, i as int),
            forall|j: int| 0 <= j < i ==> !#[trigger] ctx.recipient_missing(amount, j),
        decreases count - i,
    {
        proof {
            lemma_total_bps_bounds(ctx.track.shares@);
            lemma_share_of_bounds(amount, ctx.track.shares@[i as int]);
        }
        let payout = match share_amount(amount, ctx.track.shares[i]) {
            Ok(part) => part,
            Err(e) => {
                // No share of a whole is more than the whole: the part fits.
                return Err(e);
            },
        };
        if payout > 0 {
            let to = match get_associated_token_address(
                &ctx.track.contributors[i],
                &ctx.escrow_token_account.mint,
            ) {
                Some(address) => address,
                None => {
                    assert(ctx.recipient_missing(amount, i as int));
                    return Err(ErrorCode::RecipientNotFound);
                },
            };
            if !contains_key(&ctx.remaining_accounts, &to) {
                assert(ctx.recipient_missing(amount, i as int));
                return Err(ErrorCode::RecipientNotFound);
            }
            transfers.push(
                TokenTransfer {
                    from: ctx.escrow_token_account.key,
                    to,
                    authority: ctx.track_key,
                    amount: payout,
                    signer: Some(signer),
                },
            );
        }
        i += 1;
    }
    proof {
        lemma_planned_total(*ctx, amount, count as int);
        assert(ctx.track.shares@.take(count as int) =~= ctx.track.shares@);
        lemma_payout_total_bounds(amount, ctx.track.shares@);
    }
    Ok(transfers)
}

} // verus!
