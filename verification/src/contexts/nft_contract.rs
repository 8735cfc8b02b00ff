use vstd::prelude::*;

use crate::actions::{EditionRequest, MasterEditionRequest, MetadataRequest, MintRequest};
use crate::errors::{ContractError, WallError, WallStreetsError};
use crate::pda::{wall_signer_seeds, wall_signer_seeds_spec};
use crate::pubkey::Pubkey;
use crate::slots::{has_free_slot, placed_in_first_free, place_in_first_free};
use crate::state::account::{Account, TokenAccount};
use crate::state::user_state::User;
use crate::state::wall_state::{Status, Wall};

verus! {

/// How many prints the master edition of a contract NFT allows: one for the
/// wall owner and one for the artist.
pub const CONTRACT_MAX_SUPPLY: u64 = 2;

/// The bump seed found for the contract NFT's mint.
#[derive(Debug, Clone, Copy, PartialEq, Eq)]
pub struct InitContractNftBumps {
    pub nft_mint: u8,
}

/// Mints the contract NFT of a settled wall into the archive (the admin's
/// token account) and records it in the parties' user accounts.
pub struct InitContractNft {
    pub admin: Pubkey,
    pub wall: Account<Wall>,
    pub nft_mint: Pubkey,
    pub metadata: Pubkey,
    pub edition: Pubkey,
    pub admin_ata: TokenAccount,
    pub wall_owner_user_account: Account<User>,
    pub artist_user_account: Account<User>,
}

/// The seeds with which the wall of a contract NFT signs.
pub open spec fn nft_seeds(wall: Wall) -> Seq<Seq<u8>> {
    wall_signer_seeds_spec(wall.wall_owner_user_account, wall.wall_seed, wall.bump)
}

/// The error every contract-NFT step answers for a wall whose project is not
/// settled.
pub open spec fn not_settled() -> WallStreetsError {
    WallStreetsError::Wall(WallError::UnexpectedStatus)
}

impl InitContractNft {
    /// Asks for the NFT's metadata in the context's metadata account (named "test", symbol "CTR", uri "image",
    /// no seller fee, no creators, collection or uses, immutable), with the
    /// wall as mint and update authority, and records the mint's bump in the
    /// wall. Only a settled (done) project gets its contract NFT.
    pub fn create_metadata(&mut self, bumps: &InitContractNftBumps) -> (r: Result<
        MetadataRequest,
        WallStreetsError,
    >)
        ensures
            old(self).wall.data.status != Status::DONE ==> r == Err::<MetadataRequest, WallStreetsError>(
                not_settled(),
            ) && *final(self) == *old(self),
            old(self).wall.data.status == Status::DONE ==> {
                &&& r is Ok
                &&& r->Ok_0.metadata == old(self).metadata
                &&& r->Ok_0.mint == old(self).nft_mint
                &&& r->Ok_0.mint_authority == old(self).wall.key
                &&& r->Ok_0.update_authority == old(self).wall.key
                &&& r->Ok_0.payer == old(self).admin
                &&& r->Ok_0.name@ == "test"@
                &&& r->Ok_0.symbol@ == "CTR"@
                &&& r->Ok_0.uri@ == "image"@
                &&& r->Ok_0.seller_fee_basis_points == 0
                &&& r->Ok_0.creators is None
                &&& r->Ok_0.collection is None
                &&& r->Ok_0.uses is None
                &&& r->Ok_0.collection_details is None
                &&& !r->Ok_0.is_mutable
                &&& r->Ok_0.update_authority_is_signer
                &&& r->Ok_0.signer_seeds.deep_view() == nft_seeds(old(self).wall.data)
                &&& final(self).wall.data == (Wall { nft_bump: Some(bumps.nft_mint), ..old(self).wall.data })
                &&& final(self).wall.key == old(self).wall.key
                &&& final(self).wall_owner_user_account == old(self).wall_owner_user_account
                &&& final(self).artist_user_account == old(self).artist_user_account
                &&& final(self).admin == old(self).admin
                &&& final(self).nft_mint == old(self).nft_mint
                &&& final(self).metadata == old(self).metadata
                &&& final(self).edition == old(self).edition
                &&& final(self).admin_ata == old(self).admin_ata
            },
    {
        if !(self.wall.data.status == Status::DONE) {
            return Err(WallStreetsError::Wall(WallError::UnexpectedStatus));
        }
        let seeds = wall_signer_seeds(
            &self.wall.data.wall_owner_user_account,
            self.wall.data.wall_seed,
            self.wall.data.bump,
        );
        let request = MetadataRequest {
            metadata: self.metadata,
            mint: self.nft_mint,
            mint_authority: self.wall.key,
            update_authority: self.wall.key,
            payer: self.admin,
            name: String::from_str("test"),
            symbol: String::from_str("CTR"),
            uri: String::from_str("image"),
            seller_fee_basis_points: 0,
            creators: None,
            collection: None,
            uses: None,
            collection_details: None,
            is_mutable: false,
            update_authority_is_signer: true,
            signer_seeds: seeds,
        };
        self.wall.data.nft_bump = Some(bumps.nft_mint);
        Ok(request)
    }

    /// Asks for the master edition of the NFT in the context's edition
    /// account, for its metadata account, allowing two prints, with the wall as
    /// authority. Only for a settled project.
    pub fn create_master_edition(&mut self) -> (r: Result<MasterEditionRequest, WallStreetsError>)
        ensures
            *final(self) == *old(self),
            old(self).wall.data.status != Status::DONE ==> r == Err::<MasterEditionRequest, WallStreetsError>(
                not_settled(),
            ),
            old(self).wall.data.status == Status::DONE ==> {
                &&& r is Ok
                &&& r->Ok_0.edition == old(self).edition
                &&& r->Ok_0.metadata == old(self).metadata
                &&& r->Ok_0.mint == old(self).nft_mint
                &&& r->Ok_0.authority == old(self).wall.key
                &&& r->Ok_0.payer == old(self).admin
                &&& r->Ok_0.max_supply == Some(CONTRACT_MAX_SUPPLY)
                &&& r->Ok_0.signer_seeds.deep_view() == nft_seeds(old(self).wall.data)
            },
    {
        if !(self.wall.data.status == Status::DONE) {
            return Err(WallStreetsError::Wall(WallError::UnexpectedStatus));
        }
        let seeds = wall_signer_seeds(
            &self.wall.data.wall_owner_user_account,
            self.wall.data.wall_seed,
            self.wall.data.bump,
        );
        Ok(MasterEditionRequest {
            edition: self.edition,
            metadata: self.metadata,
            mint: self.nft_mint,
            authority: self.wall.key,
            payer: self.admin,
            max_supply: Some(CONTRACT_MAX_SUPPLY),
            signer_seeds: seeds,
        })
    }

    /// Asks for the one token of the NFT to be minted into the admin's token
    /// account, signed by the wall. Only for a settled project.
    pub fn mint_to_admin(&mut self) -> (r: Result<MintRequest, WallStreetsError>)
        ensures
            *final(self) == *old(self),
            old(self).wall.data.status != Status::DONE ==> r == Err::<MintRequest, WallStreetsError>(
                not_settled(),
            ),
            old(self).wall.data.status == Status::DONE ==> {
                &&& r is Ok
                &&& r->Ok_0.mint == old(self).nft_mint
                &&& r->Ok_0.to == old(self).admin_ata.key
                &&& r->Ok_0.authority == old(self).wall.key
                &&& r->Ok_0.amount == 1
                &&& r->Ok_0.signer_seeds is Some
                &&& r->Ok_0.signer_seeds->0.deep_view() == nft_seeds(old(self).wall.data)
            },
    {
        if !(self.wall.data.status == Status::DONE) {
            return Err(WallStreetsError::Wall(WallError::UnexpectedStatus));
        }
        let seeds = wall_signer_seeds(
            &self.wall.data.wall_owner_user_account,
            self.wall.data.wall_seed,
            self.wall.data.bump,
        );
        Ok(MintRequest {
            mint: self.nft_mint,
            to: self.admin_ata.key,
            authority: self.wall.key,
            amount: 1,
            signer_seeds: Some(seeds),
        })
    }

    /// Records the NFT's mint in the first free slot of both the wall owner's
    /// and the artist's user accounts, for a settled project; fails, recording
    /// nothing, when either has no free slot.
    pub fn push_wall_mint(&mut self) -> (r: Result<(), WallStreetsError>)
        ensures
            old(self).wall.data.status != Status::DONE ==> r == Err::<(), WallStreetsError>(not_settled()),
            old(self).wall.data.status == Status::DONE && !(has_free_slot(
                old(self).wall_owner_user_account.data.wall_mints@,
            ) && has_free_slot(old(self).artist_user_account.data.wall_mints@)) ==> r == Err::<
                (),
                WallStreetsError,
            >(WallStreetsError::Wall(WallError::NoSpaceAvailable)),
            (old(self).wall.data.status == Status::DONE && has_free_slot(
                old(self).wall_owner_user_account.data.wall_mints@,
            ) && has_free_slot(old(self).artist_user_account.data.wall_mints@)) <==> r is Ok,
            r is Err ==> *final(self) == *old(self),
            r is Ok ==> {
                &&& placed_in_first_free(
                    old(self).wall_owner_user_account.data.wall_mints@,
                    final(self).wall_owner_user_account.data.wall_mints@,
                    old(self).nft_mint,
                )
                &&& placed_in_first_free(
                    old(self).artist_user_account.data.wall_mints@,
                    final(self).artist_user_account.data.wall_mints@,
                    old(self).nft_mint,
                )
                &&& final(self).wall_owner_user_account.data == (User {
                    wall_mints: final(self).wall_owner_user_account.data.wall_mints,
                    ..old(self).wall_owner_user_account.data
                })
                &&& final(self).artist_user_account.data == (User {
                    wall_mints: final(self).artist_user_account.data.wall_mints,
                    ..old(self).artist_user_account.data
                })
                &&& final(self).wall_owner_user_account.key == old(self).wall_owner_user_account.key
                &&& final(self).artist_user_account.key == old(self).artist_user_account.key
                &&& final(self).wall == old(self).wall
                &&& final(self).admin == old(self).admin
                &&& final(self).nft_mint == old(self).nft_mint
                &&& final(self).metadata == old(self).metadata
                &&& final(self).edition == old(self).edition
                &&& final(self).admin_ata == old(self).admin_ata
            },
    {
        if !(self.wall.data.status == Status::DONE) {
            return Err(WallStreetsError::Wall(WallError::UnexpectedStatus));
        }
        let mut owner_mints = self.wall_owner_user_account.data.wall_mints;
        let mut artist_mints = self.artist_user_account.data.wall_mints;
        let key = self.nft_mint;
        let owner_ok = place_in_first_free(&mut owner_mints, key);
        let artist_ok = place_in_first_free(&mut artist_mints, key);
        if !(owner_ok && artist_ok) {
            return Err(WallStreetsError::Wall(WallError::NoSpaceAvailable));
        }
        self.wall_owner_user_account.data.wall_mints = owner_mints;
        self.artist_user_account.data.wall_mints = artist_mints;
        Ok(())
    }
}

/// What a master edition records of its prints: how many were made and how
/// many it allows.
#[derive(Debug, Clone, Copy, PartialEq, Eq)]
pub struct MasterEdition {
    pub supply: u64,
    pub max_supply: Option<u64>,
}

/// The master edition allows one more print.
pub open spec fn has_edition_left(master: MasterEdition) -> bool {
    &&& master.supply < u64::MAX
    &&& match master.max_supply {
        Some(max) => master.supply < max,
        None => true,
    }
}

/// The number of the next print of a master edition.
pub open spec fn next_edition(master: MasterEdition) -> u64 {
    (master.supply + 1) as u64
}

/// A party of the settled project prints its own edition of the contract NFT.
pub struct MintContract {
    pub signer: Pubkey,
    pub wall: Account<Wall>,
    pub edition_mark_pda: Pubkey,
    pub metadata_mint: Pubkey,
    pub metadata: Pubkey,
    pub master_edition: Account<MasterEdition>,
    pub admin_ata: TokenAccount,
    pub admin: Pubkey,
    pub new_mint: Pubkey,
    pub new_mint_ata: TokenAccount,
    pub new_metadata: Pubkey,
    pub new_edition: Pubkey,
}

/// The error `mint_nft` answers, if any: the archive must hold the master
/// token, and the master edition must allow another print.
pub open spec fn print_error(archive_amount: u64, master: MasterEdition) -> Option<WallStreetsError> {
    if archive_amount != 1 {
        Some(WallStreetsError::Contract(ContractError::InvalidTokenBalance))
    } else if !has_edition_left(master) {
        Some(WallStreetsError::Contract(ContractError::EditionsExhausted))
    } else {
        None
    }
}

impl MintContract {
    /// Asks for one token of the signer's new mint to go into the signer's
    /// token account, authorised by the signer.
    pub fn mint_new_mint(&mut self) -> (r: Result<MintRequest, WallStreetsError>)
        ensures
            *final(self) == *old(self),
            r is Ok,
            r->Ok_0.mint == old(self).new_mint,
            r->Ok_0.to == old(self).new_mint_ata.key,
            r->Ok_0.authority == old(self).signer,
            r->Ok_0.amount == 1,
            r->Ok_0.signer_seeds is None,
    {
        Ok(MintRequest {
            mint: self.new_mint,
            to: self.new_mint_ata.key,
            authority: self.signer,
            amount: 1,
            signer_seeds: None,
        })
    }

    /// Asks for the next edition of the master edition (its supply plus one)
    /// to be printed into the signer's new mint: the archive's token account
    /// shows the master token, the signer pays and becomes the new mint and
    /// metadata authority.
    pub fn mint_nft(&mut self) -> (r: Result<EditionRequest, WallStreetsError>)
        ensures
            *final(self) == *old(self),
            match print_error(old(self).admin_ata.amount, old(self).master_edition.data) {
                Some(e) => r == Err::<EditionRequest, WallStreetsError>(e),
                None => r == Ok::<EditionRequest, WallStreetsError>(
                    EditionRequest {
                        master_mint: old(self).metadata_mint,
                        master_edition: old(self).master_edition.key,
                        metadata: old(self).metadata,
                        edition_mark_pda: old(self).edition_mark_pda,
                        token_account: old(self).admin_ata.key,
                        token_account_owner: old(self).admin,
                        new_mint: old(self).new_mint,
                        new_metadata: old(self).new_metadata,
                        new_edition: old(self).new_edition,
                        new_mint_authority: old(self).signer,
                        new_metadata_update_authority: old(self).signer,
                        payer: old(self).signer,
                        edition: next_edition(old(self).master_edition.data),
                    },
                ),
            },
    {
        if !(self.admin_ata.amount == 1) {
            return Err(WallStreetsError::Contract(ContractError::InvalidTokenBalance));
        }
        let supply = self.master_edition.data.supply;
        let left = supply < u64::MAX && match self.master_edition.data.max_supply {
            Some(max) => supply < max,
            None => true,
        };
        if !left {
            return Err(WallStreetsError::Contract(ContractError::EditionsExhausted));
        }
        Ok(EditionRequest {
            master_mint: self.metadata_mint,
            master_edition: self.master_edition.key,
            metadata: self.metadata,
            edition_mark_pda: self.edition_mark_pda,
            token_account: self.admin_ata.key,
            token_account_owner: self.admin,
            new_mint: self.new_mint,
            new_metadata: self.new_metadata,
            new_edition: self.new_edition,
            new_mint_authority: self.signer,
            new_metadata_update_authority: self.signer,
            payer: self.signer,
            edition: supply + 1,
        })
    }
}

} // verus!
