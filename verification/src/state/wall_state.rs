use vstd::prelude::*;

use crate::pubkey::Pubkey;

verus! {

/// Where a wall's project stands.
#[allow(non_camel_case_types)]
#[derive(Debug, Clone, Copy, PartialEq, Eq, Structural)]
pub enum Status {
    PENDING,
    DRAFT,
    ACTIVE,
    DONE,
}

impl Status {
    /// The status of a new wall or proposal.
    pub fn default_status() -> (r: Status)
        ensures
            r == Status::PENDING,
    {
        Status::PENDING
    }
}

/// A wall registered by its owner, and the project painted on it.
#[derive(Debug, Clone, Copy, PartialEq, Eq)]
pub struct Wall {
    pub bump: u8,
    pub wall_seed: u16,
    pub wall_owner: Pubkey,
    pub wall_owner_user_account: Pubkey,
    pub artist: Option<Pubkey>,
    pub proposal: Option<Pubkey>,
    pub project_ata: Pubkey,
    /// The most the wall owner will pay for the project (cost plus profit).
    pub budget: u64,
    pub status: Status,
    pub proposal_seeds: u64,
    pub nft_bump: Option<u8>,
}

} // verus!
