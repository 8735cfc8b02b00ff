use vstd::prelude::*;

use crate::errors::WallStreetsError;
use crate::pubkey::Pubkey;
use crate::state::account::Account;
use crate::state::user_state::{ArtistFeature, User};

verus! {

/// The bump seed found for the new artist feature account.
#[derive(Debug, Clone, Copy, PartialEq, Eq)]
pub struct InitializeArtistBumps {
    pub artist_feature: u8,
}

/// Opens the artist feature of a user whose role is artist.
pub struct InitializeArtist {
    pub artist: Pubkey,
    pub user_account: Account<User>,
    pub artist_feature: Account<ArtistFeature>,
}

impl InitializeArtist {
    /// Records the bump of the artist feature and marks the user as an artist.
    pub fn initialize_artist(&mut self, bumps: &InitializeArtistBumps) -> (r: Result<
        (),
        WallStreetsError,
    >)
        ensures
            r is Ok,
            final(self).artist_feature.data.bump == bumps.artist_feature,
            final(self).artist_feature.data.offer_wall == old(self).artist_feature.data.offer_wall,
            final(self).artist_feature.key == old(self).artist_feature.key,
            final(self).user_account.data == (User {
                is_artist: true,
                ..old(self).user_account.data
            }),
            final(self).user_account.key == old(self).user_account.key,
            final(self).artist == old(self).artist,
    {
        self.artist_feature.data.bump = bumps.artist_feature;
        self.user_account.data.is_artist = true;
        Ok(())
    }
}

} // verus!
