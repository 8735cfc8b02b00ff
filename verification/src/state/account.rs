use vstd::prelude::*;

use crate::pubkey::Pubkey;

verus! {

/// An account as an instruction sees it: its address and its decoded data.
#[derive(Debug, PartialEq, Eq)]
pub struct Account<T> {
    pub key: Pubkey,
    pub data: T,
}

/// A token account: its address and the number of tokens it holds.
#[derive(Debug, Clone, Copy, PartialEq, Eq)]
pub struct TokenAccount {
    pub key: Pubkey,
    pub amount: u64,
}

/// A token mint: its address and the number of decimals of its tokens.
#[derive(Debug, Clone, Copy, PartialEq, Eq)]
pub struct MintAccount {
    pub key: Pubkey,
    pub decimals: u8,
}

/// An account handed to an instruction without a declared type, by its
/// address and its lamport balance.
#[derive(Debug, Clone, Copy, PartialEq, Eq)]
pub struct LamportAccount {
    pub key: Pubkey,
    pub lamports: u64,
}

} // verus!
