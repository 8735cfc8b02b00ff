use vstd::prelude::*;

use crate::actions::{transfer_of, TokenTransfer};
use crate::contexts::multisig::{fully_signed, sign_for_wall};
use crate::errors::{ExpensesError, MultisigError, WallError, WallStreetsError};
use crate::pda::{wall_signer_seeds, wall_signer_seeds_spec};
use crate::pubkey::Pubkey;
use crate::signed_project;
use crate::state::account::{Account, MintAccount, TokenAccount};
use crate::state::expenses_state::Expenses;
use crate::state::multisig_state::Multisig;
use crate::state::proposal_state::Proposal;
use crate::state::user_state::User;
use crate::state::wall_state::{Status, Wall};

verus! {

/// Both parties sign off the finished project; the second signature pays the
/// artist and refunds what was not spent.
pub struct SettleProject {
    pub signer: Pubkey,
    pub artist: Pubkey,
    pub wall_owner: Pubkey,
    pub multisig: Account<Multisig>,
    pub wall_owner_user_account: Account<User>,
    pub wall: Account<Wall>,
    pub expenses: Account<Expenses>,
    pub proposal: Account<Proposal>,
    pub usdc_mint: MintAccount,
    pub project_ata: TokenAccount,
    pub wall_owner_ata: TokenAccount,
    pub artist_ata: TokenAccount,
}

/// How the escrow is split: the vault must hold exactly the proposal's cost
/// plus profit; the cost not spent goes back to the wall owner and the artist
/// gets the profit plus the expenses.
pub open spec fn settlement_amounts(proposal: Proposal, expenses: Expenses, vault: u64) -> Result<
    (u64, u64),
    WallStreetsError,
> {
    if proposal.offer_price.cost + proposal.offer_price.profit != vault {
        Err(WallStreetsError::Wall(WallError::InvalidBudget))
    } else {
        Ok(
            (
                (proposal.offer_price.cost - expenses.total) as u64,
                (proposal.offer_price.profit + expenses.total) as u64,
            ),
        )
    }
}

/// The inputs on which the settlement arithmetic does not overflow: cost plus
/// profit fits, and when it matches the vault the expenses are within the cost.
pub open spec fn amounts_in_range(proposal: Proposal, expenses: Expenses, vault: u64) -> bool {
    &&& proposal.offer_price.cost + proposal.offer_price.profit <= u64::MAX
    &&& proposal.offer_price.cost + proposal.offer_price.profit == vault ==> expenses.total
        <= proposal.offer_price.cost
}

/// The signature goes through and it is the second one.
pub open spec fn completes_settlement(s: SettleProject) -> bool {
    &&& s.multisig.data.is_kick_off
    &&& sign_for_wall(s.signer, s.multisig.data, s.wall.data) is Ok
    &&& fully_signed(sign_for_wall(s.signer, s.multisig.data, s.wall.data)->Ok_0)
}

/// The inputs `settle_project` handles without a panic.
pub open spec fn settle_in_range(s: SettleProject) -> bool {
    &&& s.multisig.data.is_kick_off && s.signer == s.multisig.data.artist ==> s.wall.data.artist is Some
    &&& completes_settlement(s) ==> amounts_in_range(s.proposal.data, s.expenses.data, s.project_ata.amount)
    &&& completes_settlement(s) && settlement_amounts(s.proposal.data, s.expenses.data, s.project_ata.amount) is Ok
        ==> s.wall.data.proposal is Some
}

/// The seeds with which the wall of a settlement signs.
pub open spec fn settle_seeds(s: SettleProject) -> Seq<Seq<u8>> {
    wall_signer_seeds_spec(s.wall_owner_user_account.key, s.wall.data.wall_seed, s.wall.data.bump)
}

impl SettleProject {
    /// Takes the signer's settlement signature. After the second one the wall
    /// is done, the multisig settled, and two transfers are asked for, both
    /// from the project's token account and signed by the wall: the unused cost
    /// to the wall owner, then the profit and expenses to the artist. Before
    /// the second one no transfer is asked for.
    pub fn settle_project(&mut self) -> (r: Result<Vec<TokenTransfer>, WallStreetsError>)
        requires
            settle_in_range(*old(self)),
        ensures
            !old(self).multisig.data.is_kick_off ==> r == Err::<Vec<TokenTransfer>, WallStreetsError>(
                WallStreetsError::Multisig(MultisigError::RequireKickOffStatus),
            ) && *final(self) == *old(self),
            old(self).multisig.data.is_kick_off ==> match sign_for_wall(
                old(self).signer,
                old(self).multisig.data,
                old(self).wall.data,
            ) {
                Err(e) => r == Err::<Vec<TokenTransfer>, WallStreetsError>(e) && *final(self)
                    == *old(self),
                Ok(m) => if !fully_signed(m) {
                    &&& r is Ok
                    &&& r->Ok_0@.len() == 0
                    &&& final(self).multisig.data == m
                    &&& final(self).multisig.key == old(self).multisig.key
                    &&& final(self).wall == old(self).wall
                } else {
                    match settlement_amounts(
                        old(self).proposal.data,
                        old(self).expenses.data,
                        old(self).project_ata.amount,
                    ) {
                        Err(e) => r == Err::<Vec<TokenTransfer>, WallStreetsError>(e) && *final(self)
                            == *old(self),
                        Ok(amounts) => if old(self).wall.data.proposal->0 != old(self).proposal.key {
                            r == Err::<Vec<TokenTransfer>, WallStreetsError>(
                                WallStreetsError::Wall(WallError::UnmuchedProposal),
                            ) && *final(self) == *old(self)
                        } else {
                            &&& r is Ok
                            &&& r->Ok_0@.len() == 2
                            &&& transfer_of(
                                r->Ok_0@[0],
                                old(self).project_ata.key,
                                old(self).wall_owner_ata.key,
                                old(self).wall.key,
                                amounts.0,
                                Some(settle_seeds(*old(self))),
                                old(self).usdc_mint,
                            )
                            &&& transfer_of(
                                r->Ok_0@[1],
                                old(self).project_ata.key,
                                old(self).artist_ata.key,
                                old(self).wall.key,
                                amounts.1,
                                Some(settle_seeds(*old(self))),
                                old(self).usdc_mint,
                            )
                            &&& final(self).wall.data == (Wall { status: Status::DONE, ..old(self).wall.data })
                            &&& final(self).wall.key == old(self).wall.key
                            &&& final(self).multisig.data == (Multisig { is_settled: true, ..m })
                            &&& final(self).multisig.key == old(self).multisig.key
                        },
                    }
                },
            },
            final(self).signer == old(self).signer,
            final(self).artist == old(self).artist,
            final(self).wall_owner == old(self).wall_owner,
            final(self).wall_owner_user_account == old(self).wall_owner_user_account,
            final(self).expenses == old(self).expenses,
            final(self).proposal == old(self).proposal,
            final(self).project_ata == old(self).project_ata,
            final(self).usdc_mint == old(self).usdc_mint,
            final(self).wall_owner_ata == old(self).wall_owner_ata,
            final(self).artist_ata == old(self).artist_ata,
    {
        if !self.multisig.data.is_kick_off {
            return Err(WallStreetsError::Multisig(MultisigError::RequireKickOffStatus));
        }
        let saved = self.multisig.data;
        signed_project(&self.signer, &mut self.multisig, &self.wall)?;
        if self.multisig.data.is_wall_owner_signed && self.multisig.data.is_artist_signed {
            let (unused_cost, artist_payment) = match self.calulate_amounts() {
                Ok(amounts) => amounts,
                Err(e) => {
                    self.multisig.data = saved;
                    return Err(e);
                },
            };
            let refund = match self.refund_unused_cost(unused_cost) {
                Ok(t) => t,
                Err(e) => {
                    self.multisig.data = saved;
                    return Err(e);
                },
            };
            let payment = match self.send_budghet_to_artist(artist_payment) {
                Ok(t) => t,
                Err(e) => {
                    self.multisig.data = saved;
                    return Err(e);
                },
            };
            self.wall.data.status = Status::DONE;
            self.multisig.data.is_settled = true;
            let mut transfers: Vec<TokenTransfer> = Vec::new();
            transfers.push(refund);
            transfers.push(payment);
            Ok(transfers)
        } else {
            Ok(Vec::new())
        }
    }

    /// Splits the escrow as `settlement_amounts` says: (unused cost, artist
    /// payment).
    pub fn calulate_amounts(&self) -> (r: Result<(u64, u64), WallStreetsError>)
        requires
            amounts_in_range(self.proposal.data, self.expenses.data, self.project_ata.amount),
        ensures
            r == settlement_amounts(self.proposal.data, self.expenses.data, self.project_ata.amount),
    {
        let budget = self.proposal.data.offer_price.cost + self.proposal.data.offer_price.profit;
        if !(budget == self.project_ata.amount) {
            return Err(WallStreetsError::Wall(WallError::InvalidBudget));
        }
        let unused_cost = self.proposal.data.offer_price.cost - self.expenses.data.total;
        let artist_payment = self.proposal.data.offer_price.profit + self.expenses.data.total;
        Ok((unused_cost, artist_payment))
    }

    /// Asks for the unused cost to go back from the project's token account to
    /// the wall owner's, signed by the wall, after checking that the proposal is
    /// the one the wall approved and that the expenses are within its cost.
    pub fn refund_unused_cost(&mut self, unused_cost: u64) -> (r: Result<TokenTransfer, WallStreetsError>)
        requires
            old(self).wall.data.proposal is Some,
        ensures
            *final(self) == *old(self),
            old(self).wall.data.proposal->0 != old(self).proposal.key ==> r == Err::<
                TokenTransfer,
                WallStreetsError,
            >(WallStreetsError::Wall(WallError::UnmuchedProposal)),
            old(self).wall.data.proposal->0 == old(self).proposal.key && old(self).expenses.data.total
                > old(self).proposal.data.offer_price.cost ==> r == Err::<TokenTransfer, WallStreetsError>(
                WallStreetsError::Expenses(ExpensesError::ExceedsBudget),
            ),
            old(self).wall.data.proposal->0 == old(self).proposal.key && old(self).expenses.data.total
                <= old(self).proposal.data.offer_price.cost ==> r is Ok && transfer_of(
                r->Ok_0,
                old(self).project_ata.key,
                old(self).wall_owner_ata.key,
                old(self).wall.key,
                unused_cost,
                Some(settle_seeds(*old(self))),
                old(self).usdc_mint,
            ),
    {
        if !(self.wall.data.proposal.unwrap() == self.proposal.key) {
            return Err(WallStreetsError::Wall(WallError::UnmuchedProposal));
        }
        if !(self.expenses.data.total <= self.proposal.data.offer_price.cost) {
            return Err(WallStreetsError::Expenses(ExpensesError::ExceedsBudget));
        }
        let seeds = wall_signer_seeds(
            &self.wall_owner_user_account.key,
            self.wall.data.wall_seed,
            self.wall.data.bump,
        );
        Ok(TokenTransfer {
            from: self.project_ata.key,
            to: self.wall_owner_ata.key,
            authority: self.wall.key,
            mint: self.usdc_mint.key,
            decimals: self.usdc_mint.decimals,
            amount: unused_cost,
            signer_seeds: Some(seeds),
        })
    }

    /// Asks for the artist's payment to go from the project's token account to
    /// the artist's, signed by the wall.
    pub fn send_budghet_to_artist(&mut self, artist_payment: u64) -> (r: Result<
        TokenTransfer,
        WallStreetsError,
    >)
        ensures
            *final(self) == *old(self),
            r is Ok,
            transfer_of(
                r->Ok_0,
                old(self).project_ata.key,
                old(self).artist_ata.key,
                old(self).wall.key,
                artist_payment,
                Some(settle_seeds(*old(self))),
                old(self).usdc_mint,
            ),
    {
        let seeds = wall_signer_seeds(
            &self.wall_owner_user_account.key,
            self.wall.data.wall_seed,
            self.wall.data.bump,
        );
        Ok(TokenTransfer {
            from: self.project_ata.key,
            to: self.artist_ata.key,
            authority: self.wall.key,
            mint: self.usdc_mint.key,
            decimals: self.usdc_mint.decimals,
            amount: artist_payment,
            signer_seeds: Some(seeds),
        })
    }
}

} // verus!
