use vstd::prelude::*;

use crate::pubkey::Pubkey;

verus! {

/// The running total of the expenses an artist recorded for one wall.
#[derive(Debug, Clone, Copy, PartialEq, Eq)]
pub struct Expenses {
    pub bump: u8,
    /// The number of receipts recorded so far; receipt `i` lives at the
    /// address derived from `i`.
    pub seeds: u16,
    pub wall: Pubkey,
    pub artist: Pubkey,
    pub total: u64,
}

/// One recorded expense.
#[derive(Debug, Clone, Copy, PartialEq, Eq)]
pub struct Receipt {
    pub bump: u8,
    pub amount: u64,
    pub created_at: i64,
}

} // verus!
