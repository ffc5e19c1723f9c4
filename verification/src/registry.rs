use crate::error::ErrorCode;
use crate::events::{SharesUpdated, TrackInitialized};
use crate::pubkey::Pubkey;
use crate::shares::{is_whole, sum_shares, BPS_TOTAL};
use crate::track::{
    byte_len, utf8_len, Track, TrackView, MAX_CID_LEN, MAX_CONTRIBUTORS, MAX_STEM_MINTS, MAX_TITLE_LEN,
};
use vstd::prelude::*;

verus! {

/// The accounts of `initialize_track`.
#[derive(Clone, Debug, PartialEq, Eq)]
pub struct InitializeTrack {
    /// The signer, who becomes the track's authority.
    pub authority: Pubkey,
    /// What the address derived for the authority and the track's number
    /// holds: `None` as long as no track was created there.
    pub track: Option<Track>,
    /// The bump seed of that address.
    pub track_bump: u8,
}

/// The accounts of `update_shares`.
#[derive(Clone, Debug, PartialEq, Eq)]
pub struct UpdateShares {
    /// The signer.
    pub authority: Pubkey,
    /// The track whose shares are replaced.
    pub track: Track,
}

/// The accounts of `stem_mint`.
#[derive(Clone, Debug, PartialEq, Eq)]
pub struct StemMint {
    /// The signer.
    pub authority: Pubkey,
    /// The track to which the stem credential is added.
    pub track: Track,
}

/// Why `initialize_track` rejects its input, if it does.
pub open spec fn initialize_track_error(
    ctx: InitializeTrack,
    title: Seq<char>,
    cid: Seq<char>,
    contributors: Seq<Pubkey>,
    shares_bps: Seq<u16>,
) -> Option<ErrorCode> {
    if ctx.track is Some {
        Some(ErrorCode::AlreadyExists)
    } else if utf8_len(title) > MAX_TITLE_LEN {
        Some(ErrorCode::TitleTooLong)
    } else if utf8_len(cid) > MAX_CID_LEN {
        Some(ErrorCode::CidTooLong)
    } else if contributors.len() != shares_bps.len() {
        Some(ErrorCode::InvalidArguments)
    } else if contributors.len() == 0 {
        Some(ErrorCode::NoContributors)
    } else if contributors.len() > MAX_CONTRIBUTORS {
        Some(ErrorCode::TooManyContributors)
    } else if !is_whole(shares_bps) {
        Some(ErrorCode::InvalidShareTotal)
    } else {
        None
    }
}

/// Creates the track of `ctx.authority` with the number `track_id`.
///
/// The track starts at royalty version 0 with no stem credentials. Nothing
/// changes where the input is rejected.
pub fn initialize_track(
    ctx: &mut InitializeTrack,
    track_id: u64,
    title: String,
    cid: String,
    master_hash: [u8; 32],
    contributors: Vec<Pubkey>,
    shares_bps: Vec<u16>,
) -> (outcome: Result<TrackInitialized, ErrorCode>)
    ensures
        match outcome {
            Err(e) => {
                &&& initialize_track_error(*old(ctx), title@, cid@, contributors@, shares_bps@)
                    == Some(e)
                &&& *final(ctx) == *old(ctx)
            },
            Ok(event) => {
                &&& initialize_track_error(*old(ctx), title@, cid@, contributors@, shares_bps@)
                    is None
                &&& final(ctx).authority == old(ctx).authority
                &&& final(ctx).track_bump == old(ctx).track_bump
                &&& final(ctx).track matches Some(track)
                &&& track@ == (TrackView {
                    authority: old(ctx).authority,
                    track_id,
                    title: title@,
                    cid: cid@,
                    master_hash: master_hash@,
                    contributors: contributors@,
                    shares: shares_bps@,
                    stem_mints: Seq::empty(),
                    royalty_version: 0,
                    bump: old(ctx).track_bump,
                })
                &&& track.wf()
                &&& event.track_id == track_id
                &&& event.authority == old(ctx).authority
                &&& event.contributors@ == contributors@
                &&& event.shares@ == shares_bps@
            },
        },
{
    if ctx.track.is_some() {
        return Err(ErrorCode::AlreadyExists);
    }
    if byte_len(&title) > MAX_TITLE_LEN {
        return Err(ErrorCode::TitleTooLong);
    }
    if byte_len(&cid) > MAX_CID_LEN {
        return Err(ErrorCode::CidTooLong);
    }
    if contributors.len() != shares_bps.len() {
        return Err(ErrorCode::InvalidArguments);
    }
    if contributors.len() == 0 {
        return Err(ErrorCode::NoContributors);
    }
    if contributors.len() > MAX_CONTRIBUTORS {
        return Err(ErrorCode::TooManyContributors);
    }
    if sum_shares(&shares_bps) != BPS_TOTAL as u128 {
        return Err(ErrorCode::InvalidShareTotal);
    }
    let event = TrackInitialized {
        track_id,
        authority: ctx.authority,
        contributors: contributors.clone(),
        shares: shares_bps.clone(),
    };
    ctx.track = Some(
        Track {
            authority: ctx.authority,
            track_id,
            title,
            cid,
            master_hash,
            contributors,
            shares: shares_bps,
            stem_mints: Vec::new(),
            royalty_version: 0,
            bump: ctx.track_bump,
        },
    );
    Ok(event)
}

/// Why `update_shares` rejects its input, if it does.
pub open spec fn update_shares_error(
    ctx: UpdateShares,
    track_id: u64,
    new_shares_bps: Seq<u16>,
    contributors: Seq<Pubkey>,
) -> Option<ErrorCode> {
    if ctx.authority != ctx.track.authority {
        Some(ErrorCode::Unauthorized)
    } else if ctx.track.track_id != track_id {
        Some(ErrorCode::InvalidArguments)
    } else if new_shares_bps.len() != contributors.len() {
        Some(ErrorCode::InvalidRecipientCount)
    } else if !is_whole(new_shares_bps) {
        Some(ErrorCode::InvalidShareTotal)
    } else if ctx.track.royalty_version == u32::MAX {
        Some(ErrorCode::VersionOverflow)
    } else {
        None
    }
}

/// Replaces the contributors of a track and their shares, and moves the
/// track's royalty version on by one.
///
/// Only the track's authority may do so. Nothing changes where the input is
/// rejected; there is no way to replace a part of the shares.
pub fn update_shares(
    ctx: &mut UpdateShares,
    track_id: u64,
    new_shares_bps: Vec<u16>,
    contributors: Vec<Pubkey>,
) -> (outcome: Result<SharesUpdated, ErrorCode>)
    ensures
        match outcome {
            Err(e) => {
                &&& update_shares_error(*old(ctx), track_id, new_shares_bps@, contributors@)
                    == Some(e)
                &&& *final(ctx) == *old(ctx)
            },
            Ok(event) => {
                &&& update_shares_error(*old(ctx), track_id, new_shares_bps@, contributors@)
                    is None
                &&& final(ctx).authority == old(ctx).authority
                &&& final(ctx).track@ == (TrackView {
                    contributors: contributors@,
                    shares: new_shares_bps@,
                    royalty_version: (old(ctx).track.royalty_version + 1) as u32,
                    ..old(ctx).track@
                })
                &&& final(ctx).track.royalty_version == old(ctx).track.royalty_version + 1
                &&& is_whole(final(ctx).track.shares@)
                &&& old(ctx).track.wf() ==> final(ctx).track.wf()
                &&& event.track_id == track_id
                &&& event.new_shares@ == new_shares_bps@
                &&& event.old_version == old(ctx).track.royalty_version
                &&& event.new_version == old(ctx).track.royalty_version + 1
            },
        },
{
    if ctx.authority != ctx.track.authority {
        return Err(ErrorCode::Unauthorized);
    }
    if ctx.track.track_id != track_id {
        return Err(ErrorCode::InvalidArguments);
    }
    if new_shares_bps.len() != contributors.len() {
        return Err(ErrorCode::InvalidRecipientCount);
    }
    if sum_shares(&new_shares_bps) != BPS_TOTAL as u128 {
        return Err(ErrorCode::InvalidShareTotal);
    }
    let old_version = ctx.track.royalty_version;
    if old_version == u32::MAX {
        return Err(ErrorCode::VersionOverflow);
    }
    let new_version = old_version + 1;
    let event = SharesUpdated {
        track_id,
        new_shares: new_shares_bps.clone(),
        old_version,
        new_version,
    };
    ctx.track.contributors = contributors;
    ctx.track.shares = new_shares_bps;
    ctx.track.royalty_version = new_version;
    Ok(event)
}

/// Why `stem_mint` rejects its input, if it does.
pub open spec fn stem_mint_error(ctx: StemMint, track_id: u64) -> Option<ErrorCode> {
    if ctx.authority != ctx.track.authority {
        Some(ErrorCode::Unauthorized)
    } else if ctx.track.track_id != track_id {
        Some(ErrorCode::InvalidArguments)
    } else if ctx.track.stem_mints@.len() >= MAX_STEM_MINTS {
        Some(ErrorCode::TooManyStems)
    } else {
        None
    }
}

/// Adds a stem credential to the end of a track's list.
///
/// Only the track's authority may do so, and only while the list holds fewer
/// than 64. Nothing changes where the input is rejected.
pub fn stem_mint(ctx: &mut StemMint, track_id: u64, mint: Pubkey) -> (outcome: Result<
    (),
    ErrorCode,
>)
    ensures
        match outcome {
            Err(e) => {
                &&& stem_mint_error(*old(ctx), track_id) == Some(e)
                &&& *final(ctx) == *old(ctx)
            },
            Ok(_) => {
                &&& stem_mint_error(*old(ctx), track_id) is None
                &&& final(ctx).authority == old(ctx).authority
                &&& final(ctx).track@ == (TrackView {
                    stem_mints: old(ctx).track.stem_mints@.push(mint),
                    ..old(ctx).track@
                })
                &&& old(ctx).track.wf() ==> final(ctx).track.wf()
            },
        },
{
    if ctx.authority != ctx.track.authority {
        return Err(ErrorCode::Unauthorized);
    }
    if ctx.track.track_id != track_id {
        return Err(ErrorCode::InvalidArguments);
    }
    if ctx.track.stem_mints.len() >= MAX_STEM_MINTS {
        return Err(ErrorCode::TooManyStems);
    }
    ctx.track.stem_mints.push(mint);
    Ok(())
}

} // verus!
