use vstd::prelude::*;

use crate::pubkey::Pubkey;
use crate::state::wall_state::Status;

verus! {

/// The price an artist asks for painting a wall.
#[derive(Debug, Clone, Copy, PartialEq, Eq, Structural)]
pub struct OfferPrice {
    /// The most the artist may spend on materials.
    pub cost: u64,
    /// What the artist earns on top of the expenses.
    pub profit: u64,
}

/// An artist's offer for one wall.
#[derive(Debug, Clone, Copy, PartialEq, Eq)]
pub struct Proposal {
    pub bump: u8,
    pub proposal_seed: u64,
    pub artist: Pubkey,
    pub wall: Pubkey,
    pub offer_price: OfferPrice,
    pub status: Status,
}

} // verus!
