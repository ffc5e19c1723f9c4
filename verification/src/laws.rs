use crate::credential::{mint_stem_nft_error, StemMintNFT};
use crate::custody::{transfers_total, TokenTransfer};
use crate::distribute::{escrow_distribute_error, lemma_planned_total, EscrowDistribute};
use crate::error::ErrorCode;
use crate::pubkey::{is_first_position, lemma_first_position, Pubkey};
use crate::registry::{
    initialize_track_error, stem_mint_error, update_shares_error, InitializeTrack, StemMint,
    UpdateShares,
};
use crate::shares::{is_whole, lemma_payout_total_bounds, payout_total, total_bps};
use crate::track::MAX_STEM_MINTS;
use vstd::prelude::*;

verus! {

/// A track is only created with shares that add up to one whole.
pub proof fn lemma_created_shares_are_whole(
    ctx: InitializeTrack,
    title: Seq<char>,
    cid: Seq<char>,
    contributors: Seq<Pubkey>,
    shares_bps: Seq<u16>,
)
    requires
        initialize_track_error(ctx, title, cid, contributors, shares_bps) is None,
    ensures
        total_bps(shares_bps) == 10000,
        shares_bps.len() == contributors.len(),
        1 <= contributors.len() <= 16,
{
}

/// The shares of a track are only replaced by shares that add up to one
/// whole.
pub proof fn lemma_updated_shares_are_whole(
    ctx: UpdateShares,
    track_id: u64,
    new_shares_bps: Seq<u16>,
    contributors: Seq<Pubkey>,
)
    requires
        update_shares_error(ctx, track_id, new_shares_bps, contributors) is None,
    ensures
        total_bps(new_shares_bps) == 10000,
        new_shares_bps.len() == contributors.len(),
        ctx.track.royalty_version < u32::MAX,
{
}

/// A distribution never asks for more than the amount to be transferred, and
/// what rounding leaves in the escrow is less than one unit for each
/// contributor.
pub proof fn lemma_distribution_within_amount(ctx: EscrowDistribute, amount: u64, track_id: u64)
    requires
        escrow_distribute_error(ctx, amount, track_id) is None,
    ensures
        0 <= transfers_total(ctx.planned_transfers(amount, ctx.track.contributors@.len() as int))
            <= amount,
        transfers_total(ctx.planned_transfers(amount, ctx.track.contributors@.len() as int))
            == payout_total(amount, ctx.track.shares@),
        ctx.track.contributors@.len() > 0,
        amount - payout_total(amount, ctx.track.shares@) < ctx.track.contributors@.len(),
{
    let shares = ctx.track.shares@;
    let count = shares.len() as int;
    assert forall|i: int| 0 <= i < count implies !#[trigger] ctx.recipient_missing(amount, i) by {
        if ctx.recipient_missing(amount, i) {
            assert(0 <= i < ctx.track.contributors@.len() && ctx.recipient_missing(amount, i));
        }
    }
    lemma_planned_total(ctx, amount, count);
    assert(shares.take(count) =~= shares);
    lemma_payout_total_bounds(amount, shares);
    assert(is_whole(shares));
    if count == 0 {
        assert(total_bps(shares) == 0);
    }
}

/// A contributor whose payout rounds down to zero receives no transfer, and
/// is never the reason why a distribution fails: the contributor's token
/// account need not be supplied.
pub proof fn lemma_zero_payout_is_skipped(ctx: EscrowDistribute, amount: u64, i: int)
    requires
        0 <= i < ctx.track.contributors@.len(),
        ctx.payout(amount, i) == 0,
    ensures
        ctx.planned_transfers(amount, i + 1) == ctx.planned_transfers(amount, i),
        !ctx.recipient_missing(amount, i),
{
}

/// Where no payout is more than zero, a distribution that passes the checks
/// on its arguments succeeds with no transfer at all, whichever accounts were
/// supplied.
pub proof fn lemma_all_zero_payouts(ctx: EscrowDistribute, amount: u64, n: int)
    requires
        0 <= n <= ctx.track.contributors@.len(),
        forall|i: int| 0 <= i < n ==> #[trigger] ctx.payout(amount, i) == 0,
    ensures
        ctx.planned_transfers(amount, n) == Seq::<TokenTransfer>::empty(),
        forall|i: int| 0 <= i < n ==> !#[trigger] ctx.recipient_missing(amount, i),
    decreases n,
{
    if n > 0 {
        lemma_all_zero_payouts(ctx, amount, n - 1);
        assert(ctx.payout(amount, n - 1) == 0);
    }
}

/// A signer that is not among the contributors is refused a stem credential
/// as no contributor, whatever else was given.
pub proof fn lemma_non_contributor_cannot_mint(ctx: StemMintNFT, track_id: u64, nft_index: u64)
    requires
        !ctx.track.contributors@.contains(ctx.authority),
    ensures
        mint_stem_nft_error(ctx, track_id, nft_index) == Some(ErrorCode::NotAContributor),
{
}

/// A contributor that claims another position than the first at which the
/// contributor stands is refused for the argument, also where the contributor
/// stands at the claimed position too, or where another contributor does.
pub proof fn lemma_wrong_index_cannot_mint(
    ctx: StemMintNFT,
    track_id: u64,
    nft_index: u64,
    position: int,
)
    requires
        is_first_position(ctx.track.contributors@, ctx.authority, position),
        nft_index != position,
    ensures
        mint_stem_nft_error(ctx, track_id, nft_index) == Some(ErrorCode::InvalidArguments),
{
    lemma_first_position(ctx.track.contributors@, ctx.authority, position);
}

/// A track that holds 64 stem credentials takes no more.
pub proof fn lemma_full_stem_list_is_closed(ctx: StemMint, track_id: u64)
    requires
        ctx.track.stem_mints@.len() >= MAX_STEM_MINTS,
        ctx.authority == ctx.track.authority,
        ctx.track.track_id == track_id,
    ensures
        stem_mint_error(ctx, track_id) == Some(ErrorCode::TooManyStems),
{
}

} // verus!
