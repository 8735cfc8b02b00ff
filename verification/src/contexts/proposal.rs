use vstd::prelude::*;

use crate::actions::{transfer_of, TokenTransfer};
use crate::errors::{ExpensesError, UserError, WallError, WallStreetsError};
use crate::pubkey::Pubkey;
use crate::slots::{has_free_slot, placed_in_first_free, place_in_first_free};
use crate::state::account::{Account, MintAccount, TokenAccount};
use crate::state::multisig_state::Multisig;
use crate::state::proposal_state::{OfferPrice, Proposal};
use crate::state::user_state::{ArtistFeature, User};
use crate::state::wall_state::{Status, Wall};

verus! {

/// The bump seed found for the new proposal account.
#[derive(Debug, Clone, Copy, PartialEq, Eq)]
pub struct InitializeProposalBumps {
    pub proposal: u8,
}

/// An artist offers to paint a wall.
pub struct InitializeProposal {
    pub artist: Pubkey,
    pub wall_owner: Pubkey,
    pub artist_user_account: Account<User>,
    pub wall_owner_user_account: Account<User>,
    pub artist_feature: Account<ArtistFeature>,
    pub wall: Account<Wall>,
    pub proposal: Account<Proposal>,
}

/// The proposal an artist makes: numbered by the wall's proposal count, made
/// by the artist's user account, pending.
pub open spec fn new_proposal(
    bump: u8,
    proposal_seed: u64,
    artist_user_account: Pubkey,
    wall: Pubkey,
    offer_price: OfferPrice,
) -> Proposal {
    Proposal {
        bump,
        proposal_seed,
        artist: artist_user_account,
        wall,
        offer_price,
        status: Status::PENDING,
    }
}

impl InitializeProposal {
    /// Fills in the new proposal, lists it among the artist's offers and counts
    /// it in the wall. Fails when the offer (cost plus profit) exceeds the
    /// wall's budget, or when the artist has no free offer slot.
    pub fn initialize_proposal(
        &mut self,
        offer_price: OfferPrice,
        bumps: &InitializeProposalBumps,
    ) -> (r: Result<(), WallStreetsError>)
        requires
            within_budget(offer_price, old(self).wall.data) && has_free_slot(
                old(self).artist_feature.data.offer_wall@,
            ) ==> old(self).wall.data.proposal_seeds < u64::MAX,
        ensures
            !within_budget(offer_price, old(self).wall.data) ==> r == Err::<(), WallStreetsError>(
                WallStreetsError::Wall(WallError::OfferExceedsBudget),
            ),
            within_budget(offer_price, old(self).wall.data) && !has_free_slot(
                old(self).artist_feature.data.offer_wall@,
            ) ==> r == Err::<(), WallStreetsError>(WallStreetsError::Wall(WallError::NoSpaceAvailable)),
            within_budget(offer_price, old(self).wall.data) && has_free_slot(
                old(self).artist_feature.data.offer_wall@,
            ) <==> r is Ok,
            r is Err ==> *final(self) == *old(self),
            r is Ok ==> {
                &&& final(self).proposal.data == new_proposal(
                    bumps.proposal,
                    old(self).wall.data.proposal_seeds,
                    old(self).artist_user_account.key,
                    old(self).wall.key,
                    offer_price,
                )
                &&& placed_in_first_free(
                    old(self).artist_feature.data.offer_wall@,
                    final(self).artist_feature.data.offer_wall@,
                    old(self).proposal.key,
                )
                &&& final(self).artist_feature.data.bump == old(self).artist_feature.data.bump
                &&& final(self).wall.data == (Wall {
                    proposal_seeds: (old(self).wall.data.proposal_seeds + 1) as u64,
                    ..old(self).wall.data
                })
                &&& final(self).artist_feature.key == old(self).artist_feature.key
                &&& final(self).proposal.key == old(self).proposal.key
                &&& final(self).wall.key == old(self).wall.key
                &&& final(self).artist_user_account == old(self).artist_user_account
                &&& final(self).wall_owner_user_account == old(self).wall_owner_user_account
                &&& final(self).artist == old(self).artist
                &&& final(self).wall_owner == old(self).wall_owner
            },
    {
        let within = match offer_price.cost.checked_add(offer_price.profit) {
            Some(total) => total <= self.wall.data.budget,
            None => false,
        };
        if !within {
            return Err(WallStreetsError::Wall(WallError::OfferExceedsBudget));
        }
        self.push_offer_wall()?;
        self.proposal.data = Proposal {
            bump: bumps.proposal,
            proposal_seed: self.wall.data.proposal_seeds,
            artist: self.artist_user_account.key,
            wall: self.wall.key,
            offer_price,
            status: Status::default_status(),
        };
        self.wall.data.proposal_seeds = self.wall.data.proposal_seeds + 1;
        Ok(())
    }

    /// Writes the proposal's address into the artist's first free offer slot;
    /// fails when every slot is taken.
    pub fn push_offer_wall(&mut self) -> (r: Result<(), WallStreetsError>)
        ensures
            has_free_slot(old(self).artist_feature.data.offer_wall@) <==> r is Ok,
            r is Err ==> r == Err::<(), WallStreetsError>(
                WallStreetsError::Wall(WallError::NoSpaceAvailable),
            ) && *final(self) == *old(self),
            r is Ok ==> placed_in_first_free(
                old(self).artist_feature.data.offer_wall@,
                final(self).artist_feature.data.offer_wall@,
                old(self).proposal.key,
            ),
            final(self).artist_feature.data.bump == old(self).artist_feature.data.bump,
            final(self).artist_feature.key == old(self).artist_feature.key,
            final(self).proposal == old(self).proposal,
            final(self).wall == old(self).wall,
            final(self).artist_user_account == old(self).artist_user_account,
            final(self).wall_owner_user_account == old(self).wall_owner_user_account,
            final(self).artist == old(self).artist,
            final(self).wall_owner == old(self).wall_owner,
    {
        let key = self.proposal.key;
        if place_in_first_free(&mut self.artist_feature.data.offer_wall, key) {
            Ok(())
        } else {
            assert(self.artist_feature.data.offer_wall =~= old(self).artist_feature.data.offer_wall);
            Err(WallStreetsError::Wall(WallError::NoSpaceAvailable))
        }
    }
}

/// The bump seed found for the new multisig account.
#[derive(Debug, Clone, Copy, PartialEq, Eq)]
pub struct ApproveProposalBumps {
    pub multisig: u8,
}

/// A wall owner accepts an artist's proposal and escrows its price.
pub struct ApproveProposal {
    pub wall_owner: Pubkey,
    pub artist: Pubkey,
    pub artist_user_account: Account<User>,
    pub wall_owner_user_account: Account<User>,
    pub wall: Account<Wall>,
    pub proposal: Account<Proposal>,
    pub usdc_mint: MintAccount,
    pub project_ata: TokenAccount,
    pub wall_owner_ata: TokenAccount,
    pub multisig: Account<Multisig>,
}

/// The error `approve_proposal` answers, if any: the proposal must come from
/// the given artist, the wall must be pending and have no approved proposal.
pub open spec fn approve_error(
    artist_user_account: Pubkey,
    wall: Wall,
    proposal: Proposal,
) -> Option<WallStreetsError> {
    if artist_user_account != proposal.artist {
        Some(WallStreetsError::User(UserError::InvalidArtist))
    } else if wall.status != Status::PENDING {
        Some(WallStreetsError::Wall(WallError::UnexpectedStatus))
    } else if wall.proposal is Some {
        Some(WallStreetsError::Wall(WallError::ProposalExsits))
    } else {
        None
    }
}

/// The wall once a proposal is approved: it has the artist (the wallet that
/// signs for it) and the proposal, and is a draft.
pub open spec fn approved_wall(wall: Wall, artist: Pubkey, proposal: Pubkey) -> Wall {
    Wall { artist: Some(artist), proposal: Some(proposal), status: Status::DRAFT, ..wall }
}

/// What a proposal costs the wall owner: its cost and its profit.
pub open spec fn offer_total(offer: OfferPrice) -> int {
    offer.cost + offer.profit
}

/// The offer fits in the wall's budget.
pub open spec fn within_budget(offer: OfferPrice, wall: Wall) -> bool {
    offer_total(offer) <= wall.budget
}

/// The multisig of a newly approved project: the wall, its owner and the
/// artist, nobody has signed, not kicked off, not settled.
pub open spec fn new_multisig(bump: u8, wall: Pubkey, wall_owner: Pubkey, artist: Pubkey) -> Multisig {
    Multisig {
        bump,
        wall,
        wall_owner,
        artist,
        is_wall_owner_signed: false,
        is_artist_signed: false,
        is_kick_off: false,
        is_settled: false,
    }
}

impl ApproveProposal {
    /// Accepts the proposal: the wall takes the artist's wallet and the
    /// proposal, and both become drafts.
    pub fn approve_proposal(&mut self) -> (r: Result<(), WallStreetsError>)
        ensures
            match approve_error(
                old(self).artist_user_account.key,
                old(self).wall.data,
                old(self).proposal.data,
            ) {
                Some(e) => r == Err::<(), WallStreetsError>(e) && *final(self) == *old(self),
                None => {
                    &&& r is Ok
                    &&& final(self).wall.data == approved_wall(
                        old(self).wall.data,
                        old(self).artist,
                        old(self).proposal.key,
                    )
                    &&& final(self).proposal.data == (Proposal {
                        status: Status::DRAFT,
                        ..old(self).proposal.data
                    })
                    &&& final(self).wall.key == old(self).wall.key
                    &&& final(self).proposal.key == old(self).proposal.key
                    &&& final(self).artist_user_account == old(self).artist_user_account
                    &&& final(self).wall_owner_user_account == old(self).wall_owner_user_account
                    &&& final(self).project_ata == old(self).project_ata
                    &&& final(self).usdc_mint == old(self).usdc_mint
                    &&& final(self).wall_owner_ata == old(self).wall_owner_ata
                    &&& final(self).multisig == old(self).multisig
                    &&& final(self).wall_owner == old(self).wall_owner
                    &&& final(self).artist == old(self).artist
                },
            },
    {
        if !(self.artist_user_account.key == self.proposal.data.artist) {
            return Err(WallStreetsError::User(UserError::InvalidArtist));
        }
        if !(self.wall.data.status == Status::PENDING) {
            return Err(WallStreetsError::Wall(WallError::UnexpectedStatus));
        }
        if self.wall.data.proposal.is_some() {
            return Err(WallStreetsError::Wall(WallError::ProposalExsits));
        }
        let artist = self.artist;
        let proposal = self.proposal.key;
        self.wall.data.artist = Some(artist);
        self.wall.data.proposal = Some(proposal);
        self.wall.data.status = Status::DRAFT;
        self.proposal.data.status = Status::DRAFT;
        Ok(())
    }

    /// Checks the deposit against the offer and the wall owner's balance, and
    /// asks for the transfer of `amount` from the wall owner's token account to
    /// the project's, authorised by the wall owner.
    pub fn deposit_expenses(&mut self, amount: u64) -> (r: Result<TokenTransfer, WallStreetsError>)
        requires
            offer_total(old(self).proposal.data.offer_price) <= u64::MAX,
        ensures
            *final(self) == *old(self),
            amount < offer_total(old(self).proposal.data.offer_price) ==> r
                == Err::<TokenTransfer, WallStreetsError>(
                WallStreetsError::Expenses(ExpensesError::InsufficientDeposit),
            ),
            amount >= offer_total(old(self).proposal.data.offer_price)
                && old(self).wall_owner_ata.amount < amount ==> r
                == Err::<TokenTransfer, WallStreetsError>(
                WallStreetsError::Expenses(ExpensesError::InsufficientTokenBalance),
            ),
            amount >= offer_total(old(self).proposal.data.offer_price)
                && old(self).wall_owner_ata.amount >= amount ==> r is Ok && transfer_of(
                r->Ok_0,
                old(self).wall_owner_ata.key,
                old(self).project_ata.key,
                old(self).wall_owner,
                amount,
                None,
                old(self).usdc_mint,
            ),
    {
        let offer_price = self.proposal.data.offer_price.cost + self.proposal.data.offer_price.profit;
        if !(amount >= offer_price) {
            return Err(WallStreetsError::Expenses(ExpensesError::InsufficientDeposit));
        }
        if !(self.wall_owner_ata.amount >= amount) {
            return Err(WallStreetsError::Expenses(ExpensesError::InsufficientTokenBalance));
        }
        Ok(TokenTransfer {
            from: self.wall_owner_ata.key,
            to: self.project_ata.key,
            authority: self.wall_owner,
            mint: self.usdc_mint.key,
            decimals: self.usdc_mint.decimals,
            amount,
            signer_seeds: None,
        })
    }

    /// Opens the multisig of the project: the wall, the wall owner and the
    /// artist, with no signature yet.
    pub fn initialize_multising_account(&mut self, bumps: &ApproveProposalBumps) -> (r: Result<
        (),
        WallStreetsError,
    >)
        ensures
            r is Ok,
            final(self).multisig.data == new_multisig(
                bumps.multisig,
                old(self).wall.key,
                old(self).wall_owner,
                old(self).artist,
            ),
            final(self).multisig.key == old(self).multisig.key,
            final(self).wall == old(self).wall,
            final(self).proposal == old(self).proposal,
            final(self).artist_user_account == old(self).artist_user_account,
            final(self).wall_owner_user_account == old(self).wall_owner_user_account,
            final(self).project_ata == old(self).project_ata,
            final(self).usdc_mint == old(self).usdc_mint,
            final(self).wall_owner_ata == old(self).wall_owner_ata,
            final(self).wall_owner == old(self).wall_owner,
            final(self).artist == old(self).artist,
    {
        self.multisig.data = Multisig {
            bump: bumps.multisig,
            wall: self.wall.key,
            wall_owner: self.wall_owner,
            artist: self.artist,
            is_wall_owner_signed: false,
            is_artist_signed: false,
            is_kick_off: false,
            is_settled: false,
        };
        Ok(())
    }
}

} // verus!
