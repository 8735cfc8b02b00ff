use vstd::prelude::*;

use crate::errors::WallStreetsError;
use crate::pubkey::Pubkey;
use crate::state::account::{Account, TokenAccount};
use crate::state::user_state::User;
use crate::state::wall_state::{Status, Wall};

verus! {

/// The bump seed found for the new wall account.
#[derive(Debug, Clone, Copy, PartialEq, Eq)]
pub struct InitializeWallBumps {
    pub wall: u8,
}

/// Registers a wall of a wall owner, with the token account that will hold
/// the project's budget.
pub struct InitializeWall {
    pub wall_owner: Pubkey,
    pub user_account: Account<User>,
    pub wall: Account<Wall>,
    pub project_ata: TokenAccount,
}

/// The wall a wall owner registers: its seed is the owner's wall count, it
/// records the owner's budget, and it starts pending, with no artist, no
/// proposal and no NFT.
pub open spec fn new_wall(
    bump: u8,
    wall_seed: u16,
    wall_owner: Pubkey,
    wall_owner_user_account: Pubkey,
    project_ata: Pubkey,
    budget: u64,
) -> Wall {
    Wall {
        bump,
        wall_seed,
        wall_owner,
        wall_owner_user_account,
        artist: None,
        proposal: None,
        project_ata,
        budget,
        status: Status::PENDING,
        proposal_seeds: 0,
        nft_bump: None,
    }
}

impl InitializeWall {
    /// Fills in the new wall with the owner's budget and counts it in the
    /// owner's user account.
    pub fn initialize_wall(&mut self, budget: u64, bumps: &InitializeWallBumps) -> (r: Result<
        (),
        WallStreetsError,
    >)
        requires
            old(self).user_account.data.wall_seeds < u16::MAX,
        ensures
            r is Ok,
            final(self).wall.data == new_wall(
                bumps.wall,
                old(self).user_account.data.wall_seeds,
                old(self).wall_owner,
                old(self).user_account.key,
                old(self).project_ata.key,
                budget,
            ),
            final(self).user_account.data == (User {
                wall_seeds: (old(self).user_account.data.wall_seeds + 1) as u16,
                ..old(self).user_account.data
            }),
            final(self).user_account.key == old(self).user_account.key,
            final(self).wall.key == old(self).wall.key,
            final(self).wall_owner == old(self).wall_owner,
            final(self).project_ata == old(self).project_ata,
    {
        let wall_seed = self.user_account.data.wall_seeds;
        self.wall.data = Wall {
            bump: bumps.wall,
            wall_seed,
            wall_owner: self.wall_owner,
            wall_owner_user_account: self.user_account.key,
            artist: None,
            proposal: None,
            project_ata: self.project_ata.key,
            budget,
            status: Status::PENDING,
            proposal_seeds: 0,
            nft_bump: None,
        };
        self.user_account.data.wall_seeds = self.user_account.data.wall_seeds + 1;
        Ok(())
    }
}

} // verus!
