use vstd::prelude::*;

use crate::pubkey::Pubkey;
use crate::state::account::{MintAccount, TokenAccount};

verus! {

/// A token transfer that an instruction asks the token program to make.
/// `signer_seeds` are the seeds of the program-derived authority, when the
/// authority is an account of this program rather than a signer.
#[derive(Debug, PartialEq, Eq)]
pub struct TokenTransfer {
    pub from: Pubkey,
    pub to: Pubkey,
    pub authority: Pubkey,
    pub mint: Pubkey,
    pub decimals: u8,
    pub amount: u64,
    pub signer_seeds: Option<Vec<Vec<u8>>>,
}

/// A token account once the token program has made transfer `t`: the source
/// loses the amount, the destination gains it, any other account keeps its
/// balance.
pub open spec fn after_transfer(t: TokenTransfer, account: TokenAccount) -> TokenAccount {
    if account.key == t.from && account.key != t.to {
        TokenAccount { amount: (account.amount - t.amount) as u64, ..account }
    } else if account.key == t.to && account.key != t.from {
        TokenAccount { amount: (account.amount + t.amount) as u64, ..account }
    } else {
        account
    }
}

/// A token transfer from `from` to `to` of `amount` tokens of `mint`,
/// authorised by `authority`, signed with `seeds` when `seeds` is given.
pub open spec fn transfer_of(
    t: TokenTransfer,
    from: Pubkey,
    to: Pubkey,
    authority: Pubkey,
    amount: u64,
    seeds: Option<Seq<Seq<u8>>>,
    mint: MintAccount,
) -> bool {
    &&& t.from == from
    &&& t.mint == mint.key
    &&& t.decimals == mint.decimals
    &&& t.to == to
    &&& t.authority == authority
    &&& t.amount == amount
    &&& match seeds {
        None => t.signer_seeds is None,
        Some(s) => t.signer_seeds is Some && t.signer_seeds->0.deep_view() == s,
    }
}

} // verus!

verus! {

/// A mint of `amount` tokens of `mint` into the token account `to`,
/// authorised by `authority`.
#[derive(Debug, PartialEq, Eq)]
pub struct MintRequest {
    pub mint: Pubkey,
    pub to: Pubkey,
    pub authority: Pubkey,
    pub amount: u64,
    pub signer_seeds: Option<Vec<Vec<u8>>>,
}

/// A creator listed in a token's metadata, with its share of the royalties.
#[derive(Debug, PartialEq, Eq)]
pub struct Creator {
    pub address: Pubkey,
    pub verified: bool,
    pub share: u8,
}

/// The collection a token belongs to.
#[derive(Debug, PartialEq, Eq)]
pub struct Collection {
    pub verified: bool,
    pub key: Pubkey,
}

/// How a token may be used up.
#[derive(Debug, PartialEq, Eq)]
pub enum UseMethod {
    Burn,
    Multiple,
    Single,
}

/// The uses a token allows.
#[derive(Debug, PartialEq, Eq)]
pub struct Uses {
    pub use_method: UseMethod,
    pub remaining: u64,
    pub total: u64,
}

/// The details of a collection's parent token.
#[derive(Debug, PartialEq, Eq)]
pub enum CollectionDetails {
    V1 { size: u64 },
    V2 { padding: [u8; 8] },
}

/// The metadata account to create for a mint.
#[derive(Debug, PartialEq, Eq)]
pub struct MetadataRequest {
    pub metadata: Pubkey,
    pub mint: Pubkey,
    pub mint_authority: Pubkey,
    pub update_authority: Pubkey,
    pub payer: Pubkey,
    pub name: String,
    pub symbol: String,
    pub uri: String,
    pub seller_fee_basis_points: u16,
    pub creators: Option<Vec<Creator>>,
    pub collection: Option<Collection>,
    pub uses: Option<Uses>,
    pub collection_details: Option<CollectionDetails>,
    pub is_mutable: bool,
    pub update_authority_is_signer: bool,
    pub signer_seeds: Vec<Vec<u8>>,
}

/// The master edition to create for a mint, with the number of prints it allows.
#[derive(Debug, PartialEq, Eq)]
pub struct MasterEditionRequest {
    pub edition: Pubkey,
    pub metadata: Pubkey,
    pub mint: Pubkey,
    pub authority: Pubkey,
    pub payer: Pubkey,
    pub max_supply: Option<u64>,
    pub signer_seeds: Vec<Vec<u8>>,
}

/// A print of edition number `edition` of a master edition into a new mint,
/// paid for by `payer`, with the master token shown by `token_account`, which
/// `token_account_owner` holds.
#[derive(Debug, PartialEq, Eq)]
pub struct EditionRequest {
    pub master_mint: Pubkey,
    pub master_edition: Pubkey,
    pub metadata: Pubkey,
    pub edition_mark_pda: Pubkey,
    pub token_account: Pubkey,
    pub token_account_owner: Pubkey,
    pub new_mint: Pubkey,
    pub new_metadata: Pubkey,
    pub new_edition: Pubkey,
    pub new_mint_authority: Pubkey,
    pub new_metadata_update_authority: Pubkey,
    pub payer: Pubkey,
    pub edition: u64,
}

} // verus!
