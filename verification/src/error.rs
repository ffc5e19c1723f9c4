use vstd::prelude::*;

verus! {

/// Why an instruction was rejected.
#[derive(Clone, Copy, Debug, PartialEq, Eq, Structural)]
pub enum ErrorCode {
    /// An argument does not fit the accounts it came with.
    InvalidArguments,
    /// The shares do not add up to one whole.
    InvalidShareTotal,
    /// More contributors than a track can hold.
    TooManyContributors,
    /// A payout does not fit the amount type.
    MathError,
    /// The track's list of stem credentials is full.
    TooManyStems,
    /// The title is longer than the limit.
    TitleTooLong,
    /// The content identifier is longer than the limit.
    CidTooLong,
    /// A track needs at least one contributor.
    NoContributors,
    /// The amount must be greater than zero.
    InvalidAmount,
    /// The escrow account is not owned by the track's derived identity.
    InvalidTokenAccountOwner,
    /// The number of shares differs from the number of contributors.
    InvalidRecipientCount,
    /// The signer is not a contributor of the track.
    NotAContributor,
    /// The address to be initialised is already occupied.
    AlreadyExists,
    /// The royalty version counter cannot be incremented any further.
    VersionOverflow,
    /// A contributor's destination account was not supplied.
    RecipientNotFound,
    /// The signer is not the track's recorded authority.
    Unauthorized,
}

impl ErrorCode {
    /// The text that `message` returns for this error.
    pub open spec fn message_text(self) -> Seq<char> {
        match self {
            ErrorCode::InvalidArguments => "Invalid arguments provided"@,
            ErrorCode::InvalidShareTotal => "Sum of shares must equal 10000 (100%)"@,
            ErrorCode::TooManyContributors => "Too many contributors provided"@,
            ErrorCode::MathError => "Math overflow or division error"@,
            ErrorCode::TooManyStems => "Too many stems"@,
            ErrorCode::TitleTooLong => "Title exceeds maximum length"@,
            ErrorCode::CidTooLong => "CID exceeds maximum length"@,
            ErrorCode::NoContributors => "At least one contributor is required"@,
            ErrorCode::InvalidAmount => "Invalid amount: must be greater than 0"@,
            ErrorCode::InvalidTokenAccountOwner => "Token account owner must be the track PDA"@,
            ErrorCode::InvalidRecipientCount => "Recipient count must match contributor count"@,
            ErrorCode::NotAContributor => "The signer is not a contributor to this track"@,
            ErrorCode::AlreadyExists => "An account already exists at the derived address"@,
            ErrorCode::VersionOverflow => "Royalty version counter is exhausted"@,
            ErrorCode::RecipientNotFound => "A recipient token account was not supplied"@,
            ErrorCode::Unauthorized => "The signer is not the authority of this track"@,
        }
    }

    /// A sentence that describes the error to a user.
    pub fn message(&self) -> (text: &'static str)
        ensures
            text@ == self.message_text(),
    {
        match self {
            ErrorCode::InvalidArguments => "Invalid arguments provided",
            ErrorCode::InvalidShareTotal => "Sum of shares must equal 10000 (100%)",
            ErrorCode::TooManyContributors => "Too many contributors provided",
            ErrorCode::MathError => "Math overflow or division error",
            ErrorCode::TooManyStems => "Too many stems",
            ErrorCode::TitleTooLong => "Title exceeds maximum length",
            ErrorCode::CidTooLong => "CID exceeds maximum length",
            ErrorCode::NoContributors => "At least one contributor is required",
            ErrorCode::InvalidAmount => "Invalid amount: must be greater than 0",
            ErrorCode::InvalidTokenAccountOwner => "Token account owner must be the track PDA",
            ErrorCode::InvalidRecipientCount => "Recipient count must match contributor count",
            ErrorCode::NotAContributor => "The signer is not a contributor to this track",
            ErrorCode::AlreadyExists => "An account already exists at the derived address",
            ErrorCode::VersionOverflow => "Royalty version counter is exhausted",
            ErrorCode::RecipientNotFound => "A recipient token account was not supplied",
            ErrorCode::Unauthorized => "The signer is not the authority of this track",
        }
    }
}

} // verus!
