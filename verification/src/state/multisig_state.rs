use vstd::prelude::*;

use crate::pubkey::Pubkey;

verus! {

/// The two signatures (wall owner and artist) that start and settle a project.
#[derive(Debug, Clone, Copy, PartialEq, Eq)]
pub struct Multisig {
    pub bump: u8,
    pub wall: Pubkey,
    pub wall_owner: Pubkey,
    pub artist: Pubkey,
    pub is_wall_owner_signed: bool,
    pub is_artist_signed: bool,
    pub is_kick_off: bool,
    pub is_settled: bool,
}

} // verus!
