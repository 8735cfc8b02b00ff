use vstd::prelude::*;

use crate::pubkey::Pubkey;

verus! {

/// How many contract NFTs a user account can remember.
pub const MAP_TABLE_SIZE: usize = 30;

/// How many offers an artist can have out at once.
pub const MAX_LIFE_PROJECTS: usize = 15;

/// What a user does on the platform.
#[derive(Debug, Clone, Copy, PartialEq, Eq, Structural)]
pub enum Role {
    Fun,
    Artist,
    WallOwner,
}

impl Role {
    /// The number that stands for the role (0, 1 or 2).
    pub open spec fn spec_number(self) -> u8 {
        match self {
            Role::Fun => 0,
            Role::Artist => 1,
            Role::WallOwner => 2,
        }
    }

    /// The role a number stands for, if any.
    pub open spec fn spec_from_number(n: u8) -> Option<Role> {
        if n == 0 {
            Some(Role::Fun)
        } else if n == 1 {
            Some(Role::Artist)
        } else if n == 2 {
            Some(Role::WallOwner)
        } else {
            None
        }
    }

    /// The number that stands for the role.
    pub fn number(&self) -> (r: u8)
        ensures
            r == self.spec_number(),
    {
        match self {
            Role::Fun => 0,
            Role::Artist => 1,
            Role::WallOwner => 2,
        }
    }

    /// The role a number stands for: 0 a fan, 1 an artist, 2 a wall owner.
    pub fn from_number(n: u8) -> (r: Option<Role>)
        ensures
            r == Role::spec_from_number(n),
    {
        match n {
            0 => Some(Role::Fun),
            1 => Some(Role::Artist),
            2 => Some(Role::WallOwner),
            _ => None,
        }
    }
}

/// A platform user.
#[derive(Debug, PartialEq, Eq)]
pub struct User {
    pub bump: u8,
    pub name: String,
    /// The contract NFTs of the user's projects; a zero address is a free slot.
    pub wall_mints: [Pubkey; MAP_TABLE_SIZE],
    pub role: Role,
    pub is_artist: bool,
    /// How many walls the user has registered; the next wall is derived from it.
    pub wall_seeds: u16,
}

/// What an artist has offered.
#[derive(Debug, PartialEq, Eq)]
pub struct ArtistFeature {
    pub bump: u8,
    /// The proposals the artist has made; a zero address is a free slot.
    pub offer_wall: [Pubkey; MAX_LIFE_PROJECTS],
}

} // verus!
