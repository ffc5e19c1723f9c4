use crate::pubkey::Pubkey;
use vstd::prelude::*;

verus! {

/// The token program's address, `TokenkegQfeZyiNwAJbNbGKPFXCWuBvf9Ss623VQ5DA`.
pub const TOKEN_PROGRAM_ID: [u8; 32] = [
    6, 221, 246, 225, 215, 101, 161, 147, 217, 203, 225, 70, 206, 235, 121, 172,
    28, 180, 133, 237, 95, 91, 55, 145, 58, 140, 245, 133, 126, 255, 0, 169,
];

/// The associated token account program's address,
/// `ATokenGPvbdGVxr1b2hvZbsiqW5xWH25efTNsLJA8knL`.
pub const ASSOCIATED_TOKEN_PROGRAM_ID: [u8; 32] = [
    140, 151, 37, 143, 78, 36, 137, 241, 187, 61, 16, 41, 20, 142, 13, 131,
    11, 90, 19, 153, 218, 255, 16, 132, 4, 142, 123, 216, 219, 233, 248, 89,
];

/// The address that the program at `program_id` derives from `seeds`, and
/// the bump seed that was appended to the seeds to reach it: what
/// `Pubkey::try_find_program_address` of `solana_program` returns for them.
/// It is `None` where that search finds no address.
pub uninterp spec fn program_address(seeds: Seq<Seq<u8>>, program_id: Seq<u8>) -> Option<(Seq<u8>, u8)>;

/// Calls `Pubkey::try_find_program_address` of `solana_program`, as
/// `anchor_lang` hands it on. That function tries the bump seeds from 255
/// downwards, hashes the seeds, the bump seed and the program's address, and
/// returns the first hash that is no point of the curve, with its bump seed;
/// it returns `None` where it finds none, or where there are too many seeds or
/// a seed is too long.
///
/// The contract is believed, not proved. It claims that the result depends on
/// the seeds and the program's address alone, and gives it the name
/// `program_address`.
#[verifier::external_body]
fn try_find_program_address(seeds: &Vec<Vec<u8>>, program_id: &Pubkey) -> (found: Option<(Pubkey, u8)>)
    ensures
        match found {
            Some((address, bump)) => program_address(seeds.deep_view(), program_id@) == Some((address@, bump)),
            None => program_address(seeds.deep_view(), program_id@) is None,
        },
{
    let parts: Vec<&[u8]> = seeds.iter().map(|seed| seed.as_slice()).collect();
    let id = anchor_lang::prelude::Pubkey::new_from_array(program_id.0);
    match anchor_lang::prelude::Pubkey::try_find_program_address(&parts, &id) {
        Some((address, bump)) => Some((Pubkey(address.to_bytes()), bump)),
        None => None,
    }
}

/// The seeds from which the address of a wallet's token account for a mint is
/// derived.
pub open spec fn associated_token_seeds(wallet: Pubkey, mint: Pubkey) -> Seq<Seq<u8>> {
    seq![wallet@, TOKEN_PROGRAM_ID@, mint@]
}

/// The address of the token account that holds `mint` for `wallet`: the one
/// that the associated token account program derives from the wallet, the
/// token program and the mint.
pub open spec fn associated_token_address(wallet: Pubkey, mint: Pubkey) -> Option<Pubkey> {
    match program_address(associated_token_seeds(wallet, mint), ASSOCIATED_TOKEN_PROGRAM_ID@) {
        Some((address, _)) => Some(Pubkey::with_bytes(address)),
        None => None,
    }
}

/// Derives the address of the token account that holds `mint` for `wallet`.
/// It is `None` where the derivation finds no address.
pub fn get_associated_token_address(wallet: &Pubkey, mint: &Pubkey) -> (address: Option<Pubkey>)
    ensures
        address == associated_token_address(*wallet, *mint),
{
    let token_program = Pubkey(TOKEN_PROGRAM_ID);
    let program = Pubkey(ASSOCIATED_TOKEN_PROGRAM_ID);
    let mut seeds: Vec<Vec<u8>> = Vec::new();
    seeds.push(wallet.to_vec());
    seeds.push(token_program.to_vec());
    seeds.push(mint.to_vec());
    assert(seeds.deep_view() =~~= associated_token_seeds(*wallet, *mint));
    match try_find_program_address(&seeds, &program) {
        Some((address, _)) => {
            proof {
                Pubkey::lemma_with_bytes(address);
            }
            Some(address)
        },
        None => None,
    }
}

} // verus!
