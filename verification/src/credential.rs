use crate::address::{associated_token_address, get_associated_token_address};
use crate::custody::{MintAuthorityChange, TokenMint, TrackSigner};
use crate::error::ErrorCode;
use crate::events::StemNFTMinted;
use crate::pubkey::{first_position, position_of, Pubkey};
use crate::track::{Track, TrackView, MAX_STEM_MINTS};
use vstd::prelude::*;

verus! {

/// The accounts of `mint_stem_nft`.
#[derive(Clone, Debug, PartialEq, Eq)]
pub struct StemMintNFT {
    /// The signer that holds the right to mint the credential's asset when
    /// the instruction starts.
    pub payer: Pubkey,
    /// The signer that claims the credential: a contributor of the track.
    pub authority: Pubkey,
    /// The address of the track's record, which is the track's derived
    /// identity.
    pub track_key: Pubkey,
    /// The track.
    pub track: Track,
    /// The credential's asset.
    pub mint: Pubkey,
}

/// What is to be done to issue a stem credential, in this order.
#[derive(Clone, Copy, Debug, PartialEq, Eq)]
pub struct StemIssue {
    /// Hands the right to mint the asset to the track's derived identity.
    pub authority_change: MintAuthorityChange,
    /// Mints the one unit of the asset to the contributor.
    pub mint_to: TokenMint,
    /// What to emit once both are done.
    pub event: StemNFTMinted,
}

/// Why `mint_stem_nft` rejects its input, if it does.
pub open spec fn mint_stem_nft_error(ctx: StemMintNFT, track_id: u64, nft_index: u64) -> Option<
    ErrorCode,
> {
    if !ctx.track.contributors@.contains(ctx.authority) {
        Some(ErrorCode::NotAContributor)
    } else if nft_index as int != first_position(ctx.track.contributors@, ctx.authority) {
        Some(ErrorCode::InvalidArguments)
    } else if ctx.track.track_id != track_id {
        Some(ErrorCode::InvalidArguments)
    } else if ctx.track.stem_mints@.len() >= MAX_STEM_MINTS {
        Some(ErrorCode::TooManyStems)
    } else if associated_token_address(ctx.authority, ctx.mint) is None {
        Some(ErrorCode::RecipientNotFound)
    } else {
        None
    }
}

/// Issues the stem credential of the contributor that signed: one unit of
/// `ctx.mint`, minted to the contributor's token account for it, after the
/// right to mint has gone to the track's derived identity. The asset is added
/// to the end of the track's list of stem credentials.
///
/// The signer must be a contributor, and `nft_index` the first position at
/// which the signer stands among the contributors. Nothing changes where the
/// input is rejected.
pub fn mint_stem_nft(ctx: &mut StemMintNFT, track_id: u64, nft_index: u64) -> (outcome: Result<
    StemIssue,
    ErrorCode,
>)
    ensures
        match outcome {
            Err(e) => {
                &&& mint_stem_nft_error(*old(ctx), track_id, nft_index) == Some(e)
                &&& *final(ctx) == *old(ctx)
            },
            Ok(issue) => {
                &&& mint_stem_nft_error(*old(ctx), track_id, nft_index) is None
                &&& final(ctx).payer == old(ctx).payer
                &&& final(ctx).authority == old(ctx).authority
                &&& final(ctx).track_key == old(ctx).track_key
                &&& final(ctx).mint == old(ctx).mint
                &&& final(ctx).track@ == (TrackView {
                    stem_mints: old(ctx).track.stem_mints@.push(old(ctx).mint),
                    ..old(ctx).track@
                })
                &&& old(ctx).track.wf() ==> final(ctx).track.wf()
                &&& issue.authority_change == (MintAuthorityChange {
                    mint: old(ctx).mint,
                    current_authority: old(ctx).payer,
                    new_authority: old(ctx).track_key,
                })
                &&& Some(issue.mint_to.to) == associated_token_address(
                    old(ctx).authority,
                    old(ctx).mint,
                )
                &&& issue.mint_to == (TokenMint {
                    mint: old(ctx).mint,
                    to: issue.mint_to.to,
                    authority: old(ctx).track_key,
                    amount: 1,
                    signer: TrackSigner {
                        authority: old(ctx).track.authority,
                        track_id: old(ctx).track.track_id,
                        bump: old(ctx).track.bump,
                    },
                })
                &&& issue.event == (StemNFTMinted {
                    track_id,
                    mint: old(ctx).mint,
                    recipient: old(ctx).authority,
                })
            },
        },
{
    let actual_index = match position_of(&ctx.track.contributors, &ctx.authority) {
        Some(at) => at,
        None => {
            return Err(ErrorCode::NotAContributor);
        },
    };
    if nft_index != actual_index as u64 {
        return Err(ErrorCode::InvalidArguments);
    }
    if ctx.track.track_id != track_id {
        return Err(ErrorCode::InvalidArguments);
    }
    if ctx.track.stem_mints.len() >= MAX_STEM_MINTS {
        return Err(ErrorCode::TooManyStems);
    }
    let to = match get_associated_token_address(&ctx.authority, &ctx.mint) {
        Some(address) => address,
        None => {
            return Err(ErrorCode::RecipientNotFound);
        },
    };
    let issue = StemIssue {
        authority_change: MintAuthorityChange {
            mint: ctx.mint,
            current_authority: ctx.payer,
            new_authority: ctx.track_key,
        },
        mint_to: TokenMint {
            mint: ctx.mint,
            to,
            authority: ctx.track_key,
            amount: 1,
            signer: TrackSigner {
                authority: ctx.track.authority,
                track_id: ctx.track.track_id,
                bump: ctx.track.bump,
            },
        },
        event: StemNFTMinted { track_id: ctx.track.track_id, mint: ctx.mint, recipient: ctx.authority },
    };
    ctx.track.stem_mints.push(ctx.mint);
    Ok(issue)
}

} // verus!
