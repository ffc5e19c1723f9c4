use crate::address::{associated_token_address, get_associated_token_address};
use crate::custody::{EscrowCreation, TokenAccount, TokenTransfer};
use crate::error::ErrorCode;
use crate::events::EscrowDeposited;
use crate::pubkey::Pubkey;
use crate::track::Track;
use vstd::prelude::*;

verus! {

/// The accounts of `create_escrow_ata`.
#[derive(Clone, Debug, PartialEq, Eq)]
pub struct CreateEscrowAta {
    /// The signer that pays for the new account.
    pub payer: Pubkey,
    /// The address of the track's record, which is the track's derived
    /// identity.
    pub track_key: Pubkey,
    /// The track.
    pub track: Track,
    /// The address at which the escrow account is to be created.
    pub escrow_token_account: Pubkey,
    /// Whether that address holds an account already.
    pub escrow_exists: bool,
    /// The asset that the escrow is to hold.
    pub mint: Pubkey,
}

/// The accounts of `escrow_deposit`.
#[derive(Clone, Debug, PartialEq, Eq)]
pub struct EscrowDeposit {
    /// The signer, who owns the account that gives.
    pub payer: Pubkey,
    /// The address of the track's record, which is the track's derived
    /// identity.
    pub track_key: Pubkey,
    /// The track.
    pub track: Track,
    /// The track's escrow for the asset.
    pub escrow_token_account: TokenAccount,
    /// The account that gives.
    pub payer_token_account: TokenAccount,
}

/// Why `create_escrow_ata` rejects its input, if it does.
pub open spec fn create_escrow_ata_error(ctx: CreateEscrowAta, track_id: u64, authority: Pubkey) -> Option<
    ErrorCode,
> {
    if ctx.track.track_id != track_id {
        Some(ErrorCode::InvalidArguments)
    } else if ctx.track.authority != authority {
        Some(ErrorCode::InvalidArguments)
    } else if associated_token_address(ctx.track_key, ctx.mint) != Some(ctx.escrow_token_account) {
        Some(ErrorCode::InvalidArguments)
    } else if ctx.escrow_exists {
        Some(ErrorCode::AlreadyExists)
    } else {
        None
    }
}

/// Asks for the escrow of a track to be opened for an asset: a token account
/// owned by the track's derived identity, at the address derived for that
/// identity and the asset, paid for by `ctx.payer`.
///
/// Anyone may pay. A second call for the same track and asset is rejected,
/// since the account exists by then.
pub fn create_escrow_ata(ctx: &CreateEscrowAta, track_id: u64, authority: Pubkey) -> (outcome: Result<
    EscrowCreation,
    ErrorCode,
>)
    ensures
        match outcome {
            Err(e) => create_escrow_ata_error(*ctx, track_id, authority) == Some(e),
            Ok(request) => {
                &&& create_escrow_ata_error(*ctx, track_id, authority) is None
                &&& request == (EscrowCreation {
                    payer: ctx.payer,
                    associated_token: ctx.escrow_token_account,
                    authority: ctx.track_key,
                    mint: ctx.mint,
                })
                &&& associated_token_address(ctx.track_key, ctx.mint) == Some(
                    request.associated_token,
                )
            },
        },
{
    if ctx.track.track_id != track_id {
        return Err(ErrorCode::InvalidArguments);
    }
    if ctx.track.authority != authority {
        return Err(ErrorCode::InvalidArguments);
    }
    match get_associated_token_address(&ctx.track_key, &ctx.mint) {
        Some(address) => {
            if address != ctx.escrow_token_account {
                return Err(ErrorCode::InvalidArguments);
            }
        },
        None => {
            return Err(ErrorCode::InvalidArguments);
        },
    }
    if ctx.escrow_exists {
        return Err(ErrorCode::AlreadyExists);
    }
    Ok(
        EscrowCreation {
            payer: ctx.payer,
            associated_token: ctx.escrow_token_account,
            authority: ctx.track_key,
            mint: ctx.mint,
        },
    )
}

/// Why `escrow_deposit` rejects its input, if it does.
pub open spec fn escrow_deposit_error(
    ctx: EscrowDeposit,
    amount: u64,
    track_id: u64,
    authority: Pubkey,
) -> Option<ErrorCode> {
    if amount == 0 {
        Some(ErrorCode::InvalidAmount)
    } else if ctx.track.track_id != track_id {
        Some(ErrorCode::InvalidArguments)
    } else if ctx.track.authority != authority {
        Some(ErrorCode::InvalidArguments)
    } else if ctx.escrow_token_account.owner != ctx.track_key {
        Some(ErrorCode::InvalidTokenAccountOwner)
    } else {
        None
    }
}

/// Asks for `amount` to be moved from the payer's token account into the
/// track's escrow, and says what to emit once that is done.
///
/// The escrow must be owned by the track's derived identity. Who deposited
/// how much is not recorded: what the escrow holds is one undivided balance.
pub fn escrow_deposit(ctx: &EscrowDeposit, amount: u64, track_id: u64, authority: Pubkey) -> (outcome:
    Result<(TokenTransfer, EscrowDeposited), ErrorCode>)
    ensures
        match outcome {
            Err(e) => escrow_deposit_error(*ctx, amount, track_id, authority) == Some(e),
            Ok((transfer, event)) => {
                &&& escrow_deposit_error(*ctx, amount, track_id, authority) is None
                &&& transfer == (TokenTransfer {
                    from: ctx.payer_token_account.key,
                    to: ctx.escrow_token_account.key,
                    authority: ctx.payer,
                    amount,
                    signer: None,
                })
                &&& event == (EscrowDeposited {
                    track_id,
                    depositor: ctx.payer,
                    amount,
                    mint: ctx.escrow_token_account.mint,
                })
            },
        },
{
    if amount == 0 {
        return Err(ErrorCode::InvalidAmount);
    }
    if ctx.track.track_id != track_id {
        return Err(ErrorCode::InvalidArguments);
    }
    if ctx.track.authority != authority {
        return Err(ErrorCode::InvalidArguments);
    }
    if ctx.escrow_token_account.owner != ctx.track_key {
        return Err(ErrorCode::InvalidTokenAccountOwner);
    }
    let transfer = TokenTransfer {
        from: ctx.payer_token_account.key,
        to: ctx.escrow_token_account.key,
        authority: ctx.payer,
        amount,
        signer: None,
    };
    let event = EscrowDeposited {
        track_id: ctx.track.track_id,
        depositor: ctx.payer,
        amount,
        mint: ctx.escrow_token_account.mint,
    };
    Ok((transfer, event))
}

} // verus!
