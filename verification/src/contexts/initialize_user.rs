use vstd::prelude::*;

use crate::errors::{UserError, WallStreetsError};
use crate::pubkey::Pubkey;
use crate::state::account::Account;
use crate::state::user_state::{Role, User};

verus! {

/// The number of bytes of the UTF-8 encoding of a name, as `str::len`
/// reports it.
pub open spec fn name_byte_len(name: Seq<char>) -> usize {
    vstd::utf8::encode_utf8(name).len() as usize
}

/// A name is accepted when its UTF-8 encoding holds 1 to 32 bytes.
pub open spec fn valid_name(name: Seq<char>) -> bool {
    0 < name_byte_len(name) < 33
}

/// The bump seed found for the new user account.
#[derive(Debug, Clone, Copy, PartialEq, Eq)]
pub struct InitializeUserBumps {
    pub user_account: u8,
}

/// Registers a user: the signer and the user account created for it.
pub struct InitializeUser {
    pub signer: Pubkey,
    pub user_account: Account<User>,
}

impl InitializeUser {
    /// Fills in the new user account with the name, the role given by its
    /// number and the bump; the user starts without an artist feature.
    pub fn initialize_user(
        &mut self,
        name: String,
        role_number: u8,
        bumps: &InitializeUserBumps,
    ) -> (r: Result<(), WallStreetsError>)
        ensures
            !valid_name(name@) ==> r == Err::<(), WallStreetsError>(
                WallStreetsError::User(UserError::NameTooLong),
            ),
            valid_name(name@) && role_number > 2 ==> r == Err::<(), WallStreetsError>(
                WallStreetsError::User(UserError::InvalidRole),
            ),
            valid_name(name@) && role_number <= 2 ==> r is Ok,
            r is Err ==> final(self).user_account == old(self).user_account,
            r is Ok ==> final(self).user_account.data == (User {
                bump: bumps.user_account,
                name: name,
                wall_mints: old(self).user_account.data.wall_mints,
                role: Role::spec_from_number(role_number).unwrap(),
                is_artist: false,
                wall_seeds: old(self).user_account.data.wall_seeds,
            }),
            final(self).user_account.key == old(self).user_account.key,
            final(self).signer == old(self).signer,
    {
        let len = name.as_str().len();
        if !(len > 0 && len < 33) {
            return Err(WallStreetsError::User(UserError::NameTooLong));
        }
        let role = match Role::from_number(role_number) {
            Some(role) => role,
            None => {
                return Err(WallStreetsError::User(UserError::InvalidRole));
            },
        };
        let user = &mut self.user_account.data;
        user.bump = bumps.user_account;
        user.name = name;
        user.role = role;
        user.is_artist = false;
        Ok(())
    }
}

} // verus!
