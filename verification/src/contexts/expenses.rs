use anchor_lang::prelude::SolanaSysvar;
use vstd::prelude::*;

use crate::errors::{ExpensesError, UserError, WallError, WallStreetsError};
use crate::pubkey::Pubkey;
use crate::state::account::Account;
use crate::state::expenses_state::{Expenses, Receipt};
use crate::state::proposal_state::Proposal;
use crate::state::user_state::User;
use crate::state::wall_state::{Status, Wall};

verus! {

/// Calls `Clock::get` (the `Sysvar` trait of solana-program, through
/// anchor-lang) and picks the `unix_timestamp` of the clock it returns; an
/// error is handed on as the `u64` code of its `ProgramError`, which
/// solana-program's `From<u64>` turns back into the error. Nothing is claimed
/// of the result: it is the time at which the instruction runs, or the error
/// the runtime answers when it cannot provide the clock (off-chain it always
/// answers `UnsupportedSysvar`).
#[verifier::external_body]
fn clock_unix_timestamp() -> (r: Result<i64, u64>) {
    anchor_lang::prelude::Clock::get().map(|clock| clock.unix_timestamp).map_err(u64::from)
}

/// The bump seed found for the new expenses account.
#[derive(Debug, Clone, Copy, PartialEq, Eq)]
pub struct InitializeExpensesBumps {
    pub expenses: u8,
}

/// The artist of a wall opens the account where its expenses add up.
pub struct InitializeExpenses {
    pub signer: Pubkey,
    pub wall_owner: Pubkey,
    pub wall_owner_user_account: Account<User>,
    pub wall: Account<Wall>,
    pub expenses: Account<Expenses>,
}

impl InitializeExpenses {
    /// Opens the expenses of the wall for its artist, empty. Only the wall's
    /// artist may do so.
    pub fn initialize_expenses(&mut self, bumps: &InitializeExpensesBumps) -> (r: Result<
        (),
        WallStreetsError,
    >)
        requires
            old(self).wall.data.artist is Some,
        ensures
            old(self).signer != old(self).wall.data.artist->0 ==> r == Err::<(), WallStreetsError>(
                WallStreetsError::User(UserError::InvalidArtist),
            ) && *final(self) == *old(self),
            old(self).signer == old(self).wall.data.artist->0 ==> {
                &&& r is Ok
                &&& final(self).expenses.data == (Expenses {
                    bump: bumps.expenses,
                    seeds: 0,
                    wall: old(self).wall.key,
                    artist: old(self).signer,
                    total: 0,
                })
                &&& final(self).expenses.key == old(self).expenses.key
                &&& final(self).wall == old(self).wall
                &&& final(self).wall_owner_user_account == old(self).wall_owner_user_account
                &&& final(self).signer == old(self).signer
                &&& final(self).wall_owner == old(self).wall_owner
            },
    {
        if !(self.signer == self.wall.data.artist.unwrap()) {
            return Err(WallStreetsError::User(UserError::InvalidArtist));
        }
        self.expenses.data = Expenses {
            bump: bumps.expenses,
            seeds: 0,
            wall: self.wall.key,
            artist: self.signer,
            total: 0,
        };
        Ok(())
    }
}

/// The bump seed found for the new receipt account.
#[derive(Debug, Clone, Copy, PartialEq, Eq)]
pub struct RecordReciptBumps {
    pub receipt: u8,
}

/// The artist records one expense of the project.
pub struct RecordRecipt {
    pub signer: Pubkey,
    pub wall_owner: Pubkey,
    pub wall_owner_user_account: Account<User>,
    pub receipt: Account<Receipt>,
    pub expenses: Account<Expenses>,
    pub wall: Account<Wall>,
    pub proposal: Account<Proposal>,
}

/// The signer is the artist of both the wall and the expenses.
pub open spec fn is_project_artist(signer: Pubkey, wall: Wall, expenses: Expenses) -> bool {
    wall.artist == Some(signer) && signer == expenses.artist
}

/// The error recording an expense of `amount` answers, if any: only the
/// project's artist records, only while the project is active (kicked off and
/// not settled), and the expenses may not exceed the proposal's cost.
pub open spec fn receipt_error(
    signer: Pubkey,
    wall: Wall,
    expenses: Expenses,
    proposal: Proposal,
    amount: u64,
) -> Option<WallStreetsError> {
    if !is_project_artist(signer, wall, expenses) {
        Some(WallStreetsError::User(UserError::InvalidArtist))
    } else if wall.status != Status::ACTIVE {
        Some(WallStreetsError::Wall(WallError::UnexpectedStatus))
    } else if expenses.total + amount > proposal.offer_price.cost {
        Some(WallStreetsError::Expenses(ExpensesError::ExceedsBudget))
    } else {
        None
    }
}

/// The inputs on which recording an expense does not overflow: the wall has an
/// artist, the new total fits when the artist is right and the project active,
/// and the receipt count fits when the expense is accepted.
pub open spec fn receipt_in_range(r: RecordRecipt, amount: u64) -> bool {
    &&& r.wall.data.artist is Some
    &&& is_project_artist(r.signer, r.wall.data, r.expenses.data) && r.wall.data.status == Status::ACTIVE
        ==> r.expenses.data.total + amount <= u64::MAX
    &&& receipt_error(r.signer, r.wall.data, r.expenses.data, r.proposal.data, amount) is None
        ==> r.expenses.data.seeds < u16::MAX
}

/// The accounts once an expense of `amount` is recorded at time `created_at`:
/// the receipt holds it, the total grows by it and the receipt count by one.
pub open spec fn recorded(
    old_r: RecordRecipt,
    new_r: RecordRecipt,
    amount: u64,
    bump: u8,
    created_at: i64,
) -> bool {
    &&& new_r.receipt.data == (Receipt { bump, amount, created_at })
    &&& new_r.expenses.data == (Expenses {
        total: (old_r.expenses.data.total + amount) as u64,
        seeds: (old_r.expenses.data.seeds + 1) as u16,
        ..old_r.expenses.data
    })
    &&& new_r.receipt.key == old_r.receipt.key
    &&& new_r.expenses.key == old_r.expenses.key
    &&& new_r.wall == old_r.wall
    &&& new_r.proposal == old_r.proposal
    &&& new_r.wall_owner_user_account == old_r.wall_owner_user_account
    &&& new_r.signer == old_r.signer
    &&& new_r.wall_owner == old_r.wall_owner
}

impl RecordRecipt {
    /// Checks the signer, the project's status and the budget; answers the
    /// error, or the new total.
    fn check_receipt(&self, amount: u64) -> (r: Result<u64, WallStreetsError>)
        requires
            receipt_in_range(*self, amount),
        ensures
            match receipt_error(self.signer, self.wall.data, self.expenses.data, self.proposal.data, amount) {
                Some(e) => r == Err::<u64, WallStreetsError>(e),
                None => r == Ok::<u64, WallStreetsError>((self.expenses.data.total + amount) as u64),
            },
    {
        if !(self.signer == self.wall.data.artist.unwrap() && self.signer == self.expenses.data.artist) {
            return Err(WallStreetsError::User(UserError::InvalidArtist));
        }
        if !(self.wall.data.status == Status::ACTIVE) {
            return Err(WallStreetsError::Wall(WallError::UnexpectedStatus));
        }
        let new_total = self.expenses.data.total + amount;
        if !(new_total <= self.proposal.data.offer_price.cost) {
            return Err(WallStreetsError::Expenses(ExpensesError::ExceedsBudget));
        }
        Ok(new_total)
    }

    /// Records an expense of `amount` made at `created_at` while the project is
    /// active: the receipt holds it and the expenses add it up, never beyond
    /// the proposal's cost.
    pub fn record_receipt_at(
        &mut self,
        amount: u64,
        bumps: &RecordReciptBumps,
        created_at: i64,
    ) -> (r: Result<(), WallStreetsError>)
        requires
            receipt_in_range(*old(self), amount),
        ensures
            match receipt_error(
                old(self).signer,
                old(self).wall.data,
                old(self).expenses.data,
                old(self).proposal.data,
                amount,
            ) {
                Some(e) => r == Err::<(), WallStreetsError>(e) && *final(self) == *old(self),
                None => r is Ok && recorded(*old(self), *final(self), amount, bumps.receipt, created_at),
            },
            r is Ok ==> final(self).expenses.data.total <= final(self).proposal.data.offer_price.cost,
    {
        let new_total = self.check_receipt(amount)?;
        self.receipt.data = Receipt { bump: bumps.receipt, amount, created_at };
        self.expenses.data.total = new_total;
        self.expenses.data.seeds = self.expenses.data.seeds + 1;
        Ok(())
    }

    /// Records an expense of `amount`, stamped with the time the clock sysvar
    /// gives. When the checks pass but the clock cannot be read, nothing is
    /// recorded and the answer is the runtime's error.
    pub fn record_receipt(&mut self, amount: u64, bumps: &RecordReciptBumps) -> (r: Result<
        (),
        WallStreetsError,
    >)
        requires
            receipt_in_range(*old(self), amount),
        ensures
            match receipt_error(
                old(self).signer,
                old(self).wall.data,
                old(self).expenses.data,
                old(self).proposal.data,
                amount,
            ) {
                Some(e) => r == Err::<(), WallStreetsError>(e) && *final(self) == *old(self),
                None => {
                    ||| r matches Err(WallStreetsError::Runtime(_)) && *final(self) == *old(self)
                    ||| r is Ok && recorded(
                        *old(self),
                        *final(self),
                        amount,
                        bumps.receipt,
                        final(self).receipt.data.created_at,
                    )
                },
            },
            r is Ok ==> final(self).expenses.data.total <= final(self).proposal.data.offer_price.cost,
    {
        let _new_total = self.check_receipt(amount)?;
        let created_at = match clock_unix_timestamp() {
            Ok(t) => t,
            Err(code) => {
                return Err(WallStreetsError::Runtime(code));
            },
        };
        self.record_receipt_at(amount, bumps, created_at)
    }
}

} // verus!
