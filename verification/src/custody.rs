use crate::pubkey::Pubkey;
use vstd::bytes::{spec_u64_to_le_bytes, u64_to_le_bytes};
use vstd::prelude::*;

verus! {

/// The first seed of every address derived for a track: the bytes of `track`.
pub const TRACK_SEED: [u8; 5] = [116, 114, 97, 99, 107];

/// A token account, as far as the instructions read it.
#[derive(Clone, Copy, Debug, PartialEq, Eq)]
pub struct TokenAccount {
    /// The account's address.
    pub key: Pubkey,
    /// The asset that the account holds.
    pub mint: Pubkey,
    /// The identity that may move what the account holds.
    pub owner: Pubkey,
}

/// The authority that a track's derived identity has over its escrow and its
/// stem credentials. It holds no secret: the custody service accepts the seeds
/// from which the identity was derived in place of a signature.
#[derive(Clone, Copy, Debug, PartialEq, Eq)]
pub struct TrackSigner {
    /// The track's recorded authority.
    pub authority: Pubkey,
    /// The track's number.
    pub track_id: u64,
    /// The bump seed fixed when the track was created.
    pub bump: u8,
}

impl TrackSigner {
    /// The seeds that stand for the signature: the namespace, the authority,
    /// the track's number in little-endian bytes, and the bump seed.
    pub open spec fn seeds_view(self) -> Seq<Seq<u8>> {
        seq![
            TRACK_SEED@,
            self.authority@,
            spec_u64_to_le_bytes(self.track_id),
            seq![self.bump],
        ]
    }

    /// Writes out the seeds that stand for the signature.
    pub fn seeds(&self) -> (seeds: Vec<Vec<u8>>)
        ensures
            seeds.deep_view() == self.seeds_view(),
    {
        let mut namespace: Vec<u8> = Vec::new();
        let mut i: usize = 0;
        while i < 5
            invariant
                i <= 5,
                namespace@ == TRACK_SEED@.take(i as int),
            decreases 5 - i,
        {
            namespace.push(TRACK_SEED[i]);
            assert(TRACK_SEED@.take(i + 1) =~= TRACK_SEED@.take(i as int).push(TRACK_SEED@[i as int]));
            i += 1;
        }
        assert(TRACK_SEED@.take(5) =~= TRACK_SEED@);
        let mut bump: Vec<u8> = Vec::new();
        bump.push(self.bump);
        assert(bump@ =~= seq![self.bump]);
        let mut seeds: Vec<Vec<u8>> = Vec::new();
        seeds.push(namespace);
        seeds.push(self.authority.to_vec());
        seeds.push(u64_to_le_bytes(self.track_id));
        seeds.push(bump);
        assert(seeds.deep_view() =~~= self.seeds_view());
        seeds
    }
}

/// A request to move an amount from one token account to another.
#[derive(Clone, Copy, Debug, PartialEq, Eq)]
pub struct TokenTransfer {
    /// The account that gives.
    pub from: Pubkey,
    /// The account that receives.
    pub to: Pubkey,
    /// The identity that authorises the transfer.
    pub authority: Pubkey,
    /// How much is moved.
    pub amount: u64,
    /// The seeds that authorise it, where the authority is a track's derived
    /// identity; `None` where the authority signs for itself.
    pub signer: Option<TrackSigner>,
}

/// A request to mint an amount of an asset to a token account, authorised by
/// a track's derived identity.
#[derive(Clone, Copy, Debug, PartialEq, Eq)]
pub struct TokenMint {
    /// The asset.
    pub mint: Pubkey,
    /// The account that receives.
    pub to: Pubkey,
    /// The identity that authorises the mint.
    pub authority: Pubkey,
    /// How much is minted.
    pub amount: u64,
    /// The seeds that authorise it.
    pub signer: TrackSigner,
}

/// A request to hand the right to mint an asset to another identity.
#[derive(Clone, Copy, Debug, PartialEq, Eq)]
pub struct MintAuthorityChange {
    /// The asset.
    pub mint: Pubkey,
    /// The identity that holds the right now, and signs the request.
    pub current_authority: Pubkey,
    /// The identity that is to hold it.
    pub new_authority: Pubkey,
}

/// A request to create the token account that holds an asset for an
/// identity, at the address derived for the two.
#[derive(Clone, Copy, Debug, PartialEq, Eq)]
pub struct EscrowCreation {
    /// Who pays for the account.
    pub payer: Pubkey,
    /// The address at which the account is created.
    pub associated_token: Pubkey,
    /// The identity that is to own the account.
    pub authority: Pubkey,
    /// The asset that the account is to hold.
    pub mint: Pubkey,
}

/// The sum of the amounts of the transfers.
pub open spec fn transfers_total(transfers: Seq<TokenTransfer>) -> int
    decreases transfers.len(),
{
    if transfers.len() == 0 {
        0
    } else {
        transfers_total(transfers.drop_last()) + transfers.last().amount as int
    }
}

} // verus!
