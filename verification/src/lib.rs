//! Escrow logic of a mural-project marketplace: walls, proposals, a two-party
//! multisig, expense receipts, settlement and contract-NFT bookkeeping.

pub mod actions;
pub mod contexts;
pub mod errors;
pub mod laws;
pub mod pda;
pub mod pubkey;
pub mod slots;
pub mod state;

use vstd::prelude::*;

use crate::contexts::multisig::{sign_for_wall, sign_multisig};
use crate::errors::{MultisigError, WallStreetsError};
use crate::pubkey::Pubkey;
use crate::state::account::Account;
use crate::state::multisig_state::Multisig;
use crate::state::wall_state::Wall;

verus! {

/// Records the signer's signature in the project's multisig, after checking
/// that the signer is the artist or the owner of the wall as both the multisig
/// and the wall record them.
pub fn signed_project(signer: &Pubkey, multisig: &mut Account<Multisig>, wall: &Account<Wall>) -> (r:
    Result<(), WallStreetsError>)
    requires
        *signer == old(multisig).data.artist ==> wall.data.artist is Some,
    ensures
        match sign_for_wall(*signer, old(multisig).data, wall.data) {
            Ok(m) => r is Ok && final(multisig).data == m,
            Err(e) => r == Err::<(), WallStreetsError>(e) && final(multisig).data == old(multisig).data,
        },
        final(multisig).key == old(multisig).key,
{
    let artist_ok = *signer == multisig.data.artist && *signer == wall.data.artist.unwrap();
    let owner_ok = *signer == multisig.data.wall_owner && *signer == wall.data.wall_owner;
    if !(artist_ok || owner_ok) {
        return Err(WallStreetsError::Multisig(MultisigError::InvalidMultisigSigners));
    }
    sign_multisig(signer, &mut multisig.data)
}

} // verus!
