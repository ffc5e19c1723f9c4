use crate::pubkey::Pubkey;
use crate::shares::is_whole;
use vstd::prelude::*;

verus! {

/// The longest title, in bytes.
pub const MAX_TITLE_LEN: usize = 64;

/// The longest content identifier, in bytes.
pub const MAX_CID_LEN: usize = 128;

/// The most contributors that a track is created with.
pub const MAX_CONTRIBUTORS: usize = 16;

/// The most stem credentials that a track records.
pub const MAX_STEM_MINTS: usize = 64;

/// The number of bytes that a text takes when stored.
pub open spec fn utf8_len(text: Seq<char>) -> nat {
    vstd::utf8::encode_utf8(text).len()
}

/// Counts the bytes that a text takes when stored.
pub fn byte_len(text: &String) -> (len: usize)
    ensures
        len == utf8_len(text@),
{
    text.as_str().as_bytes().len()
}

/// The registry record of one track: what it is, who contributed to it, and
/// the share of each contributor.
#[derive(Clone, Debug, PartialEq, Eq)]
pub struct Track {
    /// The account that may change the record.
    pub authority: Pubkey,
    /// The track's number, unique among the tracks of its authority.
    pub track_id: u64,
    /// The track's title.
    pub title: String,
    /// The identifier of the track's content, stored elsewhere.
    pub cid: String,
    /// The digest of the master recording.
    pub master_hash: [u8; 32],
    /// The contributors, in the order in which they are paid.
    pub contributors: Vec<Pubkey>,
    /// The share of each contributor, in basis points.
    pub shares: Vec<u16>,
    /// The stem credentials issued for the track, oldest first.
    pub stem_mints: Vec<Pubkey>,
    /// How often the shares have been replaced.
    pub royalty_version: u32,
    /// The bump seed of the address derived for the track.
    pub bump: u8,
}

/// A track as a mathematical value.
pub struct TrackView {
    pub authority: Pubkey,
    pub track_id: u64,
    pub title: Seq<char>,
    pub cid: Seq<char>,
    pub master_hash: Seq<u8>,
    pub contributors: Seq<Pubkey>,
    pub shares: Seq<u16>,
    pub stem_mints: Seq<Pubkey>,
    pub royalty_version: u32,
    pub bump: u8,
}

impl View for Track {
    type V = TrackView;

    open spec fn view(&self) -> TrackView {
        TrackView {
            authority: self.authority,
            track_id: self.track_id,
            title: self.title@,
            cid: self.cid@,
            master_hash: self.master_hash@,
            contributors: self.contributors@,
            shares: self.shares@,
            stem_mints: self.stem_mints@,
            royalty_version: self.royalty_version,
            bump: self.bump,
        }
    }
}

impl TrackView {
    /// What holds of every track that the registry has created or changed:
    /// the texts fit their limits, each contributor has a share, the shares
    /// add up to one whole, and the list of stem credentials is within its
    /// limit.
    pub open spec fn wf(self) -> bool {
        &&& utf8_len(self.title) <= MAX_TITLE_LEN
        &&& utf8_len(self.cid) <= MAX_CID_LEN
        &&& self.shares.len() == self.contributors.len()
        &&& is_whole(self.shares)
        &&& self.stem_mints.len() <= MAX_STEM_MINTS
    }
}

impl Track {
    /// Whether the record is one that the registry could have produced.
    pub open spec fn wf(&self) -> bool {
        self@.wf()
    }
}

} // verus!
