use vstd::prelude::*;

use crate::actions::{transfer_of, TokenTransfer};
use crate::errors::{MultisigError, WallStreetsError};
use crate::pda::{wall_signer_seeds, wall_signer_seeds_spec};
use crate::pubkey::Pubkey;
use crate::state::account::{Account, MintAccount, TokenAccount};
use crate::state::multisig_state::Multisig;
use crate::state::proposal_state::Proposal;
use crate::state::user_state::User;
use crate::state::wall_state::{Status, Wall};

verus! {

/// The signer is one of the two parties of the project, as both the multisig
/// and the wall record it.
pub open spec fn signer_authorized(signer: Pubkey, multisig: Multisig, wall: Wall) -> bool {
    ||| signer == multisig.artist && wall.artist == Some(signer)
    ||| signer == multisig.wall_owner && signer == wall.wall_owner
}

/// The multisig after `signer` signs it: each party signs once, and nobody
/// else can sign.
pub open spec fn sign(signer: Pubkey, multisig: Multisig) -> Result<Multisig, WallStreetsError> {
    if signer == multisig.wall_owner {
        if multisig.is_wall_owner_signed {
            Err(WallStreetsError::Multisig(MultisigError::AlreadySigned))
        } else {
            Ok(Multisig { is_wall_owner_signed: true, ..multisig })
        }
    } else if signer == multisig.artist {
        if multisig.is_artist_signed {
            Err(WallStreetsError::Multisig(MultisigError::AlreadySigned))
        } else {
            Ok(Multisig { is_artist_signed: true, ..multisig })
        }
    } else {
        Err(WallStreetsError::Multisig(MultisigError::InvalidMultisigSigners))
    }
}

/// A signature checked against the wall first: an outsider is refused, a
/// party signs as `sign` says.
pub open spec fn sign_for_wall(signer: Pubkey, multisig: Multisig, wall: Wall) -> Result<
    Multisig,
    WallStreetsError,
> {
    if !signer_authorized(signer, multisig, wall) {
        Err(WallStreetsError::Multisig(MultisigError::InvalidMultisigSigners))
    } else {
        sign(signer, multisig)
    }
}

/// Both parties have signed.
pub open spec fn fully_signed(multisig: Multisig) -> bool {
    multisig.is_wall_owner_signed && multisig.is_artist_signed
}

/// Signs `multisig` for `signer`, as `sign` says.
pub fn sign_multisig(signer: &Pubkey, multisig: &mut Multisig) -> (r: Result<(), WallStreetsError>)
    ensures
        match sign(*signer, *old(multisig)) {
            Ok(m) => r is Ok && *final(multisig) == m,
            Err(e) => r == Err::<(), WallStreetsError>(e) && *final(multisig) == *old(multisig),
        },
{
    if *signer == multisig.wall_owner {
        if multisig.is_wall_owner_signed {
            return Err(WallStreetsError::Multisig(MultisigError::AlreadySigned));
        }
        multisig.is_wall_owner_signed = true;
    } else if *signer == multisig.artist {
        if multisig.is_artist_signed {
            return Err(WallStreetsError::Multisig(MultisigError::AlreadySigned));
        }
        multisig.is_artist_signed = true;
    } else {
        return Err(WallStreetsError::Multisig(MultisigError::InvalidMultisigSigners));
    }
    Ok(())
}

/// A party of the project signs to start it.
pub struct KickOffProject {
    pub signer: Pubkey,
    pub artist: Pubkey,
    pub multisig: Account<Multisig>,
    pub wall_owner: Pubkey,
    pub wall_owner_user_account: Account<User>,
    pub wall: Account<Wall>,
}

/// The wall and multisig once a kick-off signature went through: when both
/// parties have signed, the project is active, the multisig records the
/// kick-off and the signatures are cleared for the settlement.
pub open spec fn after_kick_off(signed: Multisig, wall: Wall) -> (Multisig, Wall) {
    if fully_signed(signed) {
        (
            Multisig {
                is_kick_off: true,
                is_wall_owner_signed: false,
                is_artist_signed: false,
                ..signed
            },
            Wall { status: Status::ACTIVE, ..wall },
        )
    } else {
        (signed, wall)
    }
}

impl KickOffProject {
    /// Takes the signer's kick-off signature; once both parties have signed
    /// the project becomes active.
    pub fn kick_off_project(&mut self) -> (r: Result<(), WallStreetsError>)
        requires
            old(self).signer == old(self).multisig.data.artist ==> old(self).wall.data.artist is Some,
        ensures
            match sign_for_wall(old(self).signer, old(self).multisig.data, old(self).wall.data) {
                Ok(m) => {
                    &&& r is Ok
                    &&& final(self).multisig.data == after_kick_off(m, old(self).wall.data).0
                    &&& final(self).wall.data == after_kick_off(m, old(self).wall.data).1
                },
                Err(e) => r == Err::<(), WallStreetsError>(e) && *final(self) == *old(self),
            },
            final(self).multisig.key == old(self).multisig.key,
            final(self).wall.key == old(self).wall.key,
            final(self).wall_owner_user_account == old(self).wall_owner_user_account,
            final(self).signer == old(self).signer,
            final(self).artist == old(self).artist,
            final(self).wall_owner == old(self).wall_owner,
    {
        let signer = self.signer;
        let artist_ok = signer == self.multisig.data.artist && signer == self.wall.data.artist.unwrap();
        let owner_ok = signer == self.multisig.data.wall_owner && signer == self.wall.data.wall_owner;
        if !(artist_ok || owner_ok) {
            return Err(WallStreetsError::Multisig(MultisigError::InvalidMultisigSigners));
        }
        self.signed_project()?;
        if self.multisig.data.is_wall_owner_signed && self.multisig.data.is_artist_signed {
            self.wall.data.status = Status::ACTIVE;
            self.multisig.data.is_kick_off = true;
            self.multisig.data.is_wall_owner_signed = false;
            self.multisig.data.is_artist_signed = false;
        }
        Ok(())
    }

    /// Records the signer's signature in the multisig: the wall owner and the
    /// artist each sign once; anyone else is refused.
    pub fn signed_project(&mut self) -> (r: Result<(), WallStreetsError>)
        ensures
            match sign(old(self).signer, old(self).multisig.data) {
                Ok(m) => r is Ok && final(self).multisig.data == m,
                Err(e) => r == Err::<(), WallStreetsError>(e) && final(self).multisig.data
                    == old(self).multisig.data,
            },
            final(self).multisig.key == old(self).multisig.key,
            final(self).wall == old(self).wall,
            final(self).wall_owner_user_account == old(self).wall_owner_user_account,
            final(self).signer == old(self).signer,
            final(self).artist == old(self).artist,
            final(self).wall_owner == old(self).wall_owner,
    {
        let signer = self.signer;
        sign_multisig(&signer, &mut self.multisig.data)
    }
}

/// The wall owner calls off a project that has not been fully signed, and
/// takes the escrowed budget back.
pub struct CancelProject {
    pub signer: Pubkey,
    pub artist: Pubkey,
    pub multisig: Account<Multisig>,
    pub wall_owner: Pubkey,
    pub wall_owner_user_account: Account<User>,
    pub wall: Account<Wall>,
    pub usdc_mint: MintAccount,
    pub project_ata: TokenAccount,
    pub wall_owner_ata: TokenAccount,
    pub proposal: Account<Proposal>,
}

/// The error `cancel_project` answers, if any: only the wall owner may cancel,
/// and not once both parties have signed.
pub open spec fn cancel_error(signer: Pubkey, wall: Wall, multisig: Multisig) -> Option<WallStreetsError> {
    if !(signer == wall.wall_owner && signer == multisig.wall_owner) {
        Some(WallStreetsError::Multisig(MultisigError::UnauthorizedSigner))
    } else if fully_signed(multisig) {
        Some(WallStreetsError::Multisig(MultisigError::NotCancelBool))
    } else {
        None
    }
}

/// The wall once its project is called off: no artist, no proposal, pending.
pub open spec fn cancelled_wall(wall: Wall) -> Wall {
    Wall { artist: None, proposal: None, status: Status::PENDING, ..wall }
}

impl CancelProject {
    /// Calls the project off: the wall forgets the artist and the proposal and
    /// waits for proposals again.
    pub fn cancel_project(&mut self) -> (r: Result<(), WallStreetsError>)
        ensures
            match cancel_error(old(self).signer, old(self).wall.data, old(self).multisig.data) {
                Some(e) => r == Err::<(), WallStreetsError>(e) && *final(self) == *old(self),
                None => {
                    &&& r is Ok
                    &&& final(self).wall.data == cancelled_wall(old(self).wall.data)
                    &&& final(self).wall.key == old(self).wall.key
                    &&& final(self).multisig == old(self).multisig
                    &&& final(self).proposal == old(self).proposal
                    &&& final(self).wall_owner_user_account == old(self).wall_owner_user_account
                    &&& final(self).project_ata == old(self).project_ata
                    &&& final(self).usdc_mint == old(self).usdc_mint
                    &&& final(self).wall_owner_ata == old(self).wall_owner_ata
                    &&& final(self).signer == old(self).signer
                    &&& final(self).artist == old(self).artist
                    &&& final(self).wall_owner == old(self).wall_owner
                },
            },
    {
        if !(self.signer == self.wall.data.wall_owner && self.signer == self.multisig.data.wall_owner) {
            return Err(WallStreetsError::Multisig(MultisigError::UnauthorizedSigner));
        }
        if self.multisig.data.is_wall_owner_signed && self.multisig.data.is_artist_signed {
            return Err(WallStreetsError::Multisig(MultisigError::NotCancelBool));
        }
        self.wall.data.artist = None;
        self.wall.data.proposal = None;
        self.wall.data.status = Status::PENDING;
        Ok(())
    }

    /// Asks for the whole balance of the project's token account to go back to
    /// the wall owner, signed by the wall.
    pub fn refund_project_deposit(&mut self) -> (r: Result<TokenTransfer, WallStreetsError>)
        ensures
            *final(self) == *old(self),
            r is Ok,
            transfer_of(
                r->Ok_0,
                old(self).project_ata.key,
                old(self).wall_owner_ata.key,
                old(self).wall.key,
                old(self).project_ata.amount,
                Some(
                    wall_signer_seeds_spec(
                        old(self).wall_owner_user_account.key,
                        old(self).wall.data.wall_seed,
                        old(self).wall.data.bump,
                    ),
                ),
                old(self).usdc_mint,
            ),
    {
        let amount = self.project_ata.amount;
        let seeds = wall_signer_seeds(
            &self.wall_owner_user_account.key,
            self.wall.data.wall_seed,
            self.wall.data.bump,
        );
        Ok(TokenTransfer {
            from: self.project_ata.key,
            to: self.wall_owner_ata.key,
            authority: self.wall.key,
            mint: self.usdc_mint.key,
            decimals: self.usdc_mint.decimals,
            amount,
            signer_seeds: Some(seeds),
        })
    }
}

} // verus!
