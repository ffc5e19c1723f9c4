use muzica::error::ErrorCode;

#[test]
fn messages_say_what_went_wrong() {
    assert_eq!(ErrorCode::InvalidArguments.message(), "Invalid arguments provided");
    assert_eq!(ErrorCode::InvalidShareTotal.message(), "Sum of shares must equal 10000 (100%)");
    assert_eq!(ErrorCode::TooManyContributors.message(), "Too many contributors provided");
    assert_eq!(ErrorCode::MathError.message(), "Math overflow or division error");
    assert_eq!(ErrorCode::TooManyStems.message(), "Too many stems");
    assert_eq!(ErrorCode::TitleTooLong.message(), "Title exceeds maximum length");
    assert_eq!(ErrorCode::CidTooLong.message(), "CID exceeds maximum length");
    assert_eq!(ErrorCode::NoContributors.message(), "At least one contributor is required");
    assert_eq!(ErrorCode::InvalidAmount.message(), "Invalid amount: must be greater than 0");
    assert_eq!(
        ErrorCode::InvalidTokenAccountOwner.message(),
        "Token account owner must be the track PDA"
    );
    assert_eq!(
        ErrorCode::InvalidRecipientCount.message(),
        "Recipient count must match contributor count"
    );
    assert_eq!(
        ErrorCode::NotAContributor.message(),
        "The signer is not a contributor to this track"
    );
}

#[test]
fn every_error_has_its_own_message() {
    let all = [
        ErrorCode::InvalidArguments,
        ErrorCode::InvalidShareTotal,
        ErrorCode::TooManyContributors,
        ErrorCode::MathError,
        ErrorCode::TooManyStems,
        ErrorCode::TitleTooLong,
        ErrorCode::CidTooLong,
        ErrorCode::NoContributors,
        ErrorCode::InvalidAmount,
        ErrorCode::InvalidTokenAccountOwner,
        ErrorCode::InvalidRecipientCount,
        ErrorCode::NotAContributor,
        ErrorCode::AlreadyExists,
        ErrorCode::VersionOverflow,
        ErrorCode::RecipientNotFound,
        ErrorCode::Unauthorized,
    ];
    for (i, a) in all.iter().enumerate() {
        assert!(!a.message().is_empty());
        for b in all.iter().skip(i + 1) {
            assert_ne!(a, b);
            assert_ne!(a.message(), b.message());
        }
    }
}
