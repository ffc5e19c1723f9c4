use crate::pubkey::Pubkey;
use vstd::prelude::*;

verus! {

/// Emitted when a track has been created.
#[derive(Clone, Debug, PartialEq, Eq)]
pub struct TrackInitialized {
    pub track_id: u64,
    pub authority: Pubkey,
    pub contributors: Vec<Pubkey>,
    pub shares: Vec<u16>,
}

/// Emitted when the shares of a track have been replaced.
#[derive(Clone, Debug, PartialEq, Eq)]
pub struct SharesUpdated {
    pub track_id: u64,
    pub new_shares: Vec<u16>,
    pub old_version: u32,
    pub new_version: u32,
}

/// Emitted when an amount has been moved into a track's escrow.
#[derive(Clone, Copy, Debug, PartialEq, Eq)]
pub struct EscrowDeposited {
    pub track_id: u64,
    pub depositor: Pubkey,
    pub amount: u64,
    pub mint: Pubkey,
}

/// Emitted when a stem credential has been issued to a contributor.
#[derive(Clone, Copy, Debug, PartialEq, Eq)]
pub struct StemNFTMinted {
    pub track_id: u64,
    pub mint: Pubkey,
    pub recipient: Pubkey,
}

} // verus!
