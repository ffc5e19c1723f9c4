use muzica::error::ErrorCode;
use muzica::events::{SharesUpdated, TrackInitialized};
use muzica::pubkey::Pubkey;
use muzica::registry::{
    initialize_track, stem_mint, update_shares, InitializeTrack, StemMint, UpdateShares,
};
use muzica::track::{Track, MAX_CID_LEN, MAX_CONTRIBUTORS, MAX_STEM_MINTS, MAX_TITLE_LEN};

fn key(seed: u8) -> Pubkey {
    Pubkey::new_from_array([seed; 32])
}

fn vacant(authority: Pubkey) -> InitializeTrack {
    InitializeTrack { authority, track: None, track_bump: 253 }
}

fn create(
    ctx: &mut InitializeTrack,
    contributors: Vec<Pubkey>,
    shares: Vec<u16>,
) -> Result<TrackInitialized, ErrorCode> {
    initialize_track(ctx, 1, "Song".to_string(), "bafy".to_string(), [5u8; 32], contributors, shares)
}

fn track(owner: Pubkey) -> Track {
    let mut ctx = vacant(owner);
    create(&mut ctx, vec![key(10), key(11)], vec![6000, 4000]).unwrap();
    ctx.track.unwrap()
}

#[test]
fn limits_are_those_of_the_record() {
    assert_eq!(MAX_TITLE_LEN, 64);
    assert_eq!(MAX_CID_LEN, 128);
    assert_eq!(MAX_CONTRIBUTORS, 16);
    assert_eq!(MAX_STEM_MINTS, 64);
}

#[test]
fn create_track_with_whole_shares_succeeds() {
    let owner = key(1);
    let mut ctx = vacant(owner);
    let event = create(&mut ctx, vec![key(10), key(11)], vec![6000, 4000]).unwrap();
    assert_eq!(
        event,
        TrackInitialized {
            track_id: 1,
            authority: owner,
            contributors: vec![key(10), key(11)],
            shares: vec![6000, 4000],
        }
    );
    assert_eq!(
        ctx.track,
        Some(Track {
            authority: owner,
            track_id: 1,
            title: "Song".to_string(),
            cid: "bafy".to_string(),
            master_hash: [5u8; 32],
            contributors: vec![key(10), key(11)],
            shares: vec![6000, 4000],
            stem_mints: vec![],
            royalty_version: 0,
            bump: 253,
        })
    );
    assert_eq!(ctx.authority, owner);
    assert_eq!(ctx.track_bump, 253);
}

#[test]
fn create_track_with_short_shares_fails() {
    let mut ctx = vacant(key(1));
    assert_eq!(
        create(&mut ctx, vec![key(10), key(11)], vec![6000, 3000]),
        Err(ErrorCode::InvalidShareTotal)
    );
    assert_eq!(ctx, vacant(key(1)));
}

#[test]
fn create_track_with_excess_shares_fails() {
    let mut ctx = vacant(key(1));
    assert_eq!(
        create(&mut ctx, vec![key(10), key(11)], vec![6000, 4001]),
        Err(ErrorCode::InvalidShareTotal)
    );
    assert_eq!(ctx.track, None);
}

#[test]
fn create_track_at_an_occupied_address_fails() {
    let mut ctx = vacant(key(1));
    create(&mut ctx, vec![key(10)], vec![10000]).unwrap();
    let before = ctx.clone();
    assert_eq!(create(&mut ctx, vec![key(12)], vec![10000]), Err(ErrorCode::AlreadyExists));
    assert_eq!(ctx, before);
    // The occupied address is reported before anything else.
    assert_eq!(create(&mut ctx, vec![], vec![]), Err(ErrorCode::AlreadyExists));
}

#[test]
fn create_track_checks_the_title_in_bytes() {
    let mut ctx = vacant(key(1));
    let fits = "a".repeat(64);
    assert!(initialize_track(&mut ctx, 1, fits, String::new(), [0u8; 32], vec![key(2)], vec![10000])
        .is_ok());
    let mut ctx = vacant(key(1));
    let long = "a".repeat(65);
    assert_eq!(
        initialize_track(&mut ctx, 1, long, String::new(), [0u8; 32], vec![key(2)], vec![10000]),
        Err(ErrorCode::TitleTooLong)
    );
    // 33 letters of two bytes each: 33 characters, 66 bytes.
    let wide = "é".repeat(33);
    assert_eq!(
        initialize_track(&mut ctx, 1, wide, String::new(), [0u8; 32], vec![key(2)], vec![10000]),
        Err(ErrorCode::TitleTooLong)
    );
    let wide_fits = "é".repeat(32);
    assert!(initialize_track(
        &mut ctx,
        1,
        wide_fits,
        String::new(),
        [0u8; 32],
        vec![key(2)],
        vec![10000]
    )
    .is_ok());
}

#[test]
fn create_track_checks_the_content_identifier() {
    let mut ctx = vacant(key(1));
    let long = "c".repeat(129);
    assert_eq!(
        initialize_track(&mut ctx, 1, String::new(), long, [0u8; 32], vec![key(2)], vec![10000]),
        Err(ErrorCode::CidTooLong)
    );
    assert_eq!(ctx.track, None);
    let fits = "c".repeat(128);
    assert!(initialize_track(&mut ctx, 1, String::new(), fits, [0u8; 32], vec![key(2)], vec![10000])
        .is_ok());
}

#[test]
fn create_track_reports_the_title_before_the_content_identifier() {
    let mut ctx = vacant(key(1));
    assert_eq!(
        initialize_track(
            &mut ctx,
            1,
            "t".repeat(65),
            "c".repeat(129),
            [0u8; 32],
            vec![key(2)],
            vec![1]
        ),
        Err(ErrorCode::TitleTooLong)
    );
}

#[test]
fn create_track_needs_a_share_for_each_contributor() {
    let mut ctx = vacant(key(1));
    assert_eq!(
        create(&mut ctx, vec![key(10), key(11)], vec![10000]),
        Err(ErrorCode::InvalidArguments)
    );
    assert_eq!(create(&mut ctx, vec![], vec![10000]), Err(ErrorCode::InvalidArguments));
    assert_eq!(ctx.track, None);
}

#[test]
fn create_track_needs_a_contributor() {
    let mut ctx = vacant(key(1));
    assert_eq!(create(&mut ctx, vec![], vec![]), Err(ErrorCode::NoContributors));
    assert_eq!(ctx.track, None);
}

#[test]
fn create_track_takes_sixteen_contributors_and_no_more() {
    let sixteen: Vec<Pubkey> = (0u8..16).map(key).collect();
    let mut ctx = vacant(key(1));
    assert!(create(&mut ctx, sixteen, vec![625; 16]).is_ok());
    assert_eq!(ctx.track.unwrap().contributors.len(), 16);

    let seventeen: Vec<Pubkey> = (0u8..17).map(key).collect();
    let mut shares: Vec<u16> = vec![625; 16];
    shares[0] = 600;
    shares.push(25);
    let mut ctx = vacant(key(1));
    assert_eq!(create(&mut ctx, seventeen, shares), Err(ErrorCode::TooManyContributors));
    assert_eq!(ctx.track, None);
}

#[test]
fn update_shares_replaces_the_table_and_counts_the_version() {
    let owner = key(1);
    let mut ctx = UpdateShares { authority: owner, track: track(owner) };
    let event = update_shares(&mut ctx, 1, vec![2500, 2500, 5000], vec![key(20), key(21), key(22)])
        .unwrap();
    assert_eq!(
        event,
        SharesUpdated { track_id: 1, new_shares: vec![2500, 2500, 5000], old_version: 0, new_version: 1 }
    );
    let mut expected = track(owner);
    expected.contributors = vec![key(20), key(21), key(22)];
    expected.shares = vec![2500, 2500, 5000];
    expected.royalty_version = 1;
    assert_eq!(ctx.track, expected);

    let event = update_shares(&mut ctx, 1, vec![10000], vec![key(20)]).unwrap();
    assert_eq!(event.old_version, 1);
    assert_eq!(event.new_version, 2);
    assert_eq!(ctx.track.royalty_version, 2);
    assert_eq!(ctx.track.shares, vec![10000]);
    assert_eq!(ctx.track.contributors, vec![key(20)]);
}

#[test]
fn update_shares_leaves_the_track_alone_when_it_fails() {
    let owner = key(1);
    let mut ctx = UpdateShares { authority: owner, track: track(owner) };
    let before = ctx.clone();
    assert_eq!(
        update_shares(&mut ctx, 1, vec![6000, 3000], vec![key(20), key(21)]),
        Err(ErrorCode::InvalidShareTotal)
    );
    assert_eq!(ctx, before);
    assert_eq!(
        update_shares(&mut ctx, 1, vec![10000], vec![key(20), key(21)]),
        Err(ErrorCode::InvalidRecipientCount)
    );
    assert_eq!(ctx, before);
    assert_eq!(
        update_shares(&mut ctx, 2, vec![10000], vec![key(20)]),
        Err(ErrorCode::InvalidArguments)
    );
    assert_eq!(ctx, before);
    assert_eq!(update_shares(&mut ctx, 1, vec![], vec![]), Err(ErrorCode::InvalidShareTotal));
    assert_eq!(ctx, before);
    assert_eq!(ctx.track.royalty_version, 0);
}

#[test]
fn update_shares_is_for_the_authority_alone() {
    let owner = key(1);
    let mut ctx = UpdateShares { authority: key(10), track: track(owner) };
    let before = ctx.clone();
    assert_eq!(
        update_shares(&mut ctx, 1, vec![10000], vec![key(10)]),
        Err(ErrorCode::Unauthorized)
    );
    assert_eq!(ctx, before);
}

#[test]
fn update_shares_stops_at_the_last_version() {
    let owner = key(1);
    let mut exhausted = track(owner);
    exhausted.royalty_version = u32::MAX;
    let mut ctx = UpdateShares { authority: owner, track: exhausted };
    let before = ctx.clone();
    assert_eq!(
        update_shares(&mut ctx, 1, vec![10000], vec![key(20)]),
        Err(ErrorCode::VersionOverflow)
    );
    assert_eq!(ctx, before);

    let mut last = track(owner);
    last.royalty_version = u32::MAX - 1;
    let mut ctx = UpdateShares { authority: owner, track: last };
    let event = update_shares(&mut ctx, 1, vec![10000], vec![key(20)]).unwrap();
    assert_eq!(event.new_version, u32::MAX);
    assert_eq!(ctx.track.royalty_version, u32::MAX);
}

#[test]
fn stem_mint_appends_in_order() {
    let owner = key(1);
    let mut ctx = StemMint { authority: owner, track: track(owner) };
    assert_eq!(stem_mint(&mut ctx, 1, key(30)), Ok(()));
    assert_eq!(stem_mint(&mut ctx, 1, key(31)), Ok(()));
    let mut expected = track(owner);
    expected.stem_mints = vec![key(30), key(31)];
    assert_eq!(ctx.track, expected);
}

#[test]
fn stem_mint_beyond_sixty_four_fails() {
    let owner = key(1);
    let mut ctx = StemMint { authority: owner, track: track(owner) };
    for i in 0u8..64 {
        assert_eq!(stem_mint(&mut ctx, 1, key(i)), Ok(()));
    }
    assert_eq!(ctx.track.stem_mints.len(), 64);
    let before = ctx.clone();
    assert_eq!(stem_mint(&mut ctx, 1, key(64)), Err(ErrorCode::TooManyStems));
    assert_eq!(ctx, before);
    assert_eq!(ctx.track.stem_mints, (0u8..64).map(key).collect::<Vec<Pubkey>>());
}

#[test]
fn stem_mint_checks_signer_and_number() {
    let owner = key(1);
    let mut ctx = StemMint { authority: key(2), track: track(owner) };
    assert_eq!(stem_mint(&mut ctx, 1, key(30)), Err(ErrorCode::Unauthorized));
    assert!(ctx.track.stem_mints.is_empty());
    let mut ctx = StemMint { authority: owner, track: track(owner) };
    assert_eq!(stem_mint(&mut ctx, 9, key(30)), Err(ErrorCode::InvalidArguments));
    assert!(ctx.track.stem_mints.is_empty());
}

#[test]
fn shares_of_a_track_always_add_up_to_one_whole() {
    let owner = key(1);
    let mut ctx = vacant(owner);
    create(&mut ctx, vec![key(10), key(11), key(12)], vec![3334, 3333, 3333]).unwrap();
    let created = ctx.track.unwrap();
    assert_eq!(created.shares.iter().map(|s| *s as u32).sum::<u32>(), 10000);
    assert_eq!(created.shares.len(), created.contributors.len());

    let mut ctx = UpdateShares { authority: owner, track: created };
    for shares in [vec![1u16, 9999], vec![10000], vec![2500, 2500, 2500, 2500], vec![0, 0, 10000]] {
        let contributors: Vec<Pubkey> = (0..shares.len()).map(|i| key(20 + i as u8)).collect();
        update_shares(&mut ctx, 1, shares, contributors).unwrap();
        assert_eq!(ctx.track.shares.iter().map(|s| *s as u32).sum::<u32>(), 10000);
        assert_eq!(ctx.track.shares.len(), ctx.track.contributors.len());
    }
    assert_eq!(ctx.track.royalty_version, 4);
    for shares in [vec![1u16, 9998], vec![10001], vec![65535, 10001], vec![]] {
        let contributors: Vec<Pubkey> = (0..shares.len()).map(|i| key(20 + i as u8)).collect();
        assert_eq!(
            update_shares(&mut ctx, 1, shares, contributors),
            Err(ErrorCode::InvalidShareTotal)
        );
        assert_eq!(ctx.track.shares, vec![0, 0, 10000]);
    }
    assert_eq!(ctx.track.royalty_version, 4);
}

#[test]
fn update_shares_does_not_wrap_the_sum() {
    // 65535 + 10001 is 10000 in sixteen bits.
    let owner = key(1);
    let mut ctx = UpdateShares { authority: owner, track: track(owner) };
    assert_eq!(
        update_shares(&mut ctx, 1, vec![65535, 10001], vec![key(20), key(21)]),
        Err(ErrorCode::InvalidShareTotal)
    );
}
