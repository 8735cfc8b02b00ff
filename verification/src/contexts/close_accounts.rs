use vstd::prelude::*;

use crate::errors::{WallError, WallStreetsError};
use crate::pda::{find_receipt_address, receipt_address};
use crate::pubkey::Pubkey;
use crate::state::account::{Account, LamportAccount};
use crate::state::expenses_state::Expenses;
use crate::state::multisig_state::Multisig;
use crate::state::proposal_state::Proposal;
use crate::state::wall_state::{Status, Wall};

verus! {

/// Closes the accounts of a finished project and sweeps its receipts.
pub struct CloseAccounts {
    pub signer: LamportAccount,
    pub wall: Account<Wall>,
    pub proposal: Account<Proposal>,
    pub expenses: Account<Expenses>,
    pub multisig: Account<Multisig>,
}

/// `key` is the address of one of the first `count` receipts of the wall.
pub open spec fn is_receipt_of(wall: Pubkey, program_id: Pubkey, count: u16, key: Pubkey) -> bool {
    exists|i: u16| i < count && #[trigger] receipt_address(wall, program_id, i) == Some(key)
}

/// Entry `j` is the first listing of its account: no earlier entry has its key.
/// An account may be listed more than once; its listings share one balance.
pub open spec fn first_listed(accounts: Seq<LamportAccount>, j: int) -> bool {
    forall|k: int| 0 <= k < j ==> #[trigger] accounts[k].key != accounts[j].key
}

/// The listings are a faithful view of the accounts: listings of one account
/// show one balance.
pub open spec fn consistent(accounts: Seq<LamportAccount>) -> bool {
    forall|j: int, k: int|
        0 <= j < accounts.len() && 0 <= k < accounts.len() && #[trigger] accounts[j].key
            == #[trigger] accounts[k].key ==> accounts[j].lamports == accounts[k].lamports
}

/// Listings of one account carry one flag.
pub open spec fn flags_follow_keys(accounts: Seq<LamportAccount>, flags: Seq<bool>) -> bool {
    forall|j: int, k: int|
        0 <= j < accounts.len() && 0 <= k < accounts.len() && #[trigger] accounts[j].key
            == #[trigger] accounts[k].key ==> flags[j] == flags[k]
}

/// The lamports of the flagged accounts among the first `n` listings, each
/// account counted once.
pub open spec fn flagged_lamports(accounts: Seq<LamportAccount>, flags: Seq<bool>, n: int) -> int
    decreases n,
{
    if n <= 0 {
        0
    } else {
        flagged_lamports(accounts, flags, n - 1) + if flags[n - 1] && first_listed(accounts, n - 1) {
            accounts[n - 1].lamports as int
        } else {
            0
        }
    }
}

/// The lamports of the accounts among the first `n` listings, each account
/// counted once.
pub open spec fn total_lamports(accounts: Seq<LamportAccount>, n: int) -> int
    decreases n,
{
    if n <= 0 {
        0
    } else {
        total_lamports(accounts, n - 1) + if first_listed(accounts, n - 1) {
            accounts[n - 1].lamports as int
        } else {
            0
        }
    }
}

/// The listings after the flagged accounts were emptied.
pub open spec fn emptied(old_accounts: Seq<LamportAccount>, new_accounts: Seq<LamportAccount>, flags: Seq<bool>) -> bool {
    &&& new_accounts.len() == old_accounts.len()
    &&& forall|j: int|
        0 <= j < old_accounts.len() ==> #[trigger] new_accounts[j] == if flags[j] {
            LamportAccount { lamports: 0, ..old_accounts[j] }
        } else {
            old_accounts[j]
        }
}

proof fn lemma_flagged_monotone(accounts: Seq<LamportAccount>, flags: Seq<bool>, m: int, n: int)
    requires
        0 <= m <= n,
    ensures
        flagged_lamports(accounts, flags, m) <= flagged_lamports(accounts, flags, n),
    decreases n - m,
{
    if m < n {
        lemma_flagged_monotone(accounts, flags, m, n - 1);
    }
}

/// Sums over a prefix only look at that prefix.
proof fn lemma_prefix_sums_agree(a: Seq<LamportAccount>, b: Seq<LamportAccount>, flags: Seq<bool>, n: int)
    requires
        0 <= n <= a.len(),
        n <= b.len(),
        forall|j: int| 0 <= j < n ==> a[j] == b[j],
    ensures
        flagged_lamports(a, flags, n) == flagged_lamports(b, flags, n),
        total_lamports(a, n) == total_lamports(b, n),
    decreases n,
{
    if n > 0 {
        assert forall|j: int| 0 <= j < n implies first_listed(a, j) == first_listed(b, j) by {
            if first_listed(a, j) {
                assert forall|k: int| 0 <= k < j implies #[trigger] b[k].key != b[j].key by {
                    assert(a[k].key != a[j].key);
                }
            }
            if first_listed(b, j) {
                assert forall|k: int| 0 <= k < j implies #[trigger] a[k].key != a[j].key by {
                    assert(b[k].key != b[j].key);
                }
            }
        }
        lemma_prefix_sums_agree(a, b, flags, n - 1);
    }
}

/// Listings with the same keys agree on which are first listings.
proof fn lemma_first_listed_by_keys(a: Seq<LamportAccount>, b: Seq<LamportAccount>, j: int)
    requires
        0 <= j < a.len(),
        j < b.len(),
        forall|k: int| 0 <= k <= j ==> a[k].key == b[k].key,
    ensures
        first_listed(a, j) == first_listed(b, j),
{
    if first_listed(a, j) {
        assert forall|k: int| 0 <= k < j implies #[trigger] b[k].key != b[j].key by {
            assert(a[k].key != a[j].key);
        }
    }
    if first_listed(b, j) {
        assert forall|k: int| 0 <= k < j implies #[trigger] a[k].key != a[j].key by {
            assert(b[k].key != b[j].key);
        }
    }
}

impl CloseAccounts {
    /// Only a finished project is closed.
    pub fn close_accounts(&mut self) -> (r: Result<(), WallStreetsError>)
        ensures
            *final(self) == *old(self),
            old(self).wall.data.status != Status::DONE ==> r == Err::<(), WallStreetsError>(
                WallStreetsError::Wall(WallError::UnexpectedStatus),
            ),
            old(self).wall.data.status == Status::DONE ==> r is Ok,
    {
        if !(self.wall.data.status == Status::DONE) {
            return Err(WallStreetsError::Wall(WallError::UnexpectedStatus));
        }
        Ok(())
    }

    /// Tells, for each account handed over, whether it is one of the receipts
    /// recorded for the wall: the address derived under `program_id` from
    /// `"receipt"`, the wall and an index below the expenses' receipt count.
    pub fn receipt_accounts(&self, program_id: &Pubkey, remaining: &Vec<LamportAccount>) -> (r: Vec<bool>)
        ensures
            r@.len() == remaining@.len(),
            forall|j: int|
                0 <= j < remaining@.len() ==> #[trigger] r@[j] == is_receipt_of(
                    self.wall.key,
                    *program_id,
                    self.expenses.data.seeds,
                    remaining@[j].key,
                ),
            flags_follow_keys(remaining@, r@),
    {
        let count = self.expenses.data.seeds;
        let mut flags: Vec<bool> = Vec::new();
        let mut j: usize = 0;
        while j < remaining.len()
            invariant
                0 <= j <= remaining@.len(),
                flags@.len() == j,
                count == self.expenses.data.seeds,
                forall|k: int|
                    0 <= k < j ==> #[trigger] flags@[k] == is_receipt_of(
                        self.wall.key,
                        *program_id,
                        count,
                        remaining@[k].key,
                    ),
            decreases remaining@.len() - j,
        {
            let key = remaining[j].key;
            let mut found = false;
            let mut i: u16 = 0;
            while i < count
                invariant_except_break
                    0 <= i <= count,
                    !found,
                    forall|k: u16| k < i ==> #[trigger] receipt_address(self.wall.key, *program_id, k) != Some(key),
                ensures
                    found ==> is_receipt_of(self.wall.key, *program_id, count, key),
                    !found ==> forall|k: u16|
                        k < count ==> #[trigger] receipt_address(self.wall.key, *program_id, k) != Some(key),
                decreases count - i,
            {
                match find_receipt_address(&self.wall.key, program_id, i) {
                    Some(address) => {
                        if address == key {
                            found = true;
                            assert(receipt_address(self.wall.key, *program_id, i) == Some(key));
                            break;
                        }
                    },
                    None => {},
                }
                i = i + 1;
            }
            flags.push(found);
            j = j + 1;
        }
        flags
    }

    /// Whether the signer's balance can take the lamports of the flagged
    /// accounts, each account counted once.
    pub fn sweep_fits(&self, remaining: &Vec<LamportAccount>, is_receipt: &Vec<bool>) -> (r: bool)
        requires
            is_receipt@.len() == remaining@.len(),
        ensures
            r == (self.signer.lamports + flagged_lamports(remaining@, is_receipt@, remaining@.len() as int)
                <= u64::MAX),
    {
        let n = remaining.len();
        let mut sum: u64 = self.signer.lamports;
        let mut j: usize = 0;
        while j < n
            invariant
                0 <= j <= n,
                n == remaining@.len(),
                is_receipt@.len() == n,
                sum == self.signer.lamports + flagged_lamports(remaining@, is_receipt@, j as int),
            decreases n - j,
        {
            proof {
                lemma_flagged_monotone(remaining@, is_receipt@, j as int + 1, n as int);
            }
            if is_receipt[j] && Self::first_listing(remaining, j) {
                let lamports = remaining[j].lamports;
                if lamports > u64::MAX - sum {
                    return false;
                }
                sum = sum + lamports;
            }
            j = j + 1;
        }
        true
    }

    /// Whether entry `j` is the first listing of its account.
    fn first_listing(accounts: &Vec<LamportAccount>, j: usize) -> (r: bool)
        requires
            j < accounts@.len(),
        ensures
            r == first_listed(accounts@, j as int),
    {
        let key = accounts[j].key;
        let mut k: usize = 0;
        while k < j
            invariant
                0 <= k <= j,
                j < accounts@.len(),
                key == accounts@[j as int].key,
                forall|m: int| 0 <= m < k ==> #[trigger] accounts@[m].key != key,
            decreases j - k,
        {
            if accounts[k].key == key {
                return false;
            }
            k = k + 1;
        }
        true
    }

    /// Moves the lamports of every flagged account to the signer and empties
    /// all its listings; an account listed twice is paid out once. Returns what
    /// the signer received. The lamports of the signer and of the accounts,
    /// each counted once, are conserved.
    pub fn sweep_receipts(&mut self, remaining: &mut Vec<LamportAccount>, is_receipt: &Vec<bool>) -> (r: u64)
        requires
            is_receipt@.len() == old(remaining)@.len(),
            consistent(old(remaining)@),
            flags_follow_keys(old(remaining)@, is_receipt@),
            old(self).signer.lamports + flagged_lamports(
                old(remaining)@,
                is_receipt@,
                old(remaining)@.len() as int,
            ) <= u64::MAX,
        ensures
            r == flagged_lamports(old(remaining)@, is_receipt@, old(remaining)@.len() as int),
            final(self).signer.lamports == old(self).signer.lamports + r,
            final(self).signer.key == old(self).signer.key,
            final(self).wall == old(self).wall,
            final(self).proposal == old(self).proposal,
            final(self).expenses == old(self).expenses,
            final(self).multisig == old(self).multisig,
            emptied(old(remaining)@, final(remaining)@, is_receipt@),
            consistent(final(remaining)@),
            final(self).signer.lamports + total_lamports(final(remaining)@, final(remaining)@.len() as int)
                == old(self).signer.lamports + total_lamports(old(remaining)@, old(remaining)@.len() as int),
    {
        let ghost before = remaining@;
        let ghost n = remaining@.len() as int;
        let mut received: u64 = 0;
        let mut j: usize = 0;
        while j < remaining.len()
            invariant
                0 <= j <= n,
                n == before.len(),
                remaining@.len() == n,
                is_receipt@.len() == n,
                received == flagged_lamports(before, is_receipt@, j as int),
                self.signer.lamports == old(self).signer.lamports + received,
                old(self).signer.lamports + flagged_lamports(before, is_receipt@, n) <= u64::MAX,
                self.signer.key == old(self).signer.key,
                self.wall == old(self).wall,
                self.proposal == old(self).proposal,
                self.expenses == old(self).expenses,
                self.multisig == old(self).multisig,
                forall|k: int| j <= k < n ==> remaining@[k] == before[k],
                forall|k: int|
                    0 <= k < j ==> #[trigger] remaining@[k] == if is_receipt@[k] {
                        LamportAccount { lamports: 0, ..before[k] }
                    } else {
                        before[k]
                    },
                total_lamports(remaining@, j as int) + flagged_lamports(before, is_receipt@, j as int)
                    == total_lamports(before, j as int),
            decreases n - j,
        {
            proof {
                lemma_flagged_monotone(before, is_receipt@, j as int + 1, n);
                assert forall|k: int| 0 <= k <= j implies remaining@[k].key == before[k].key by {}
                lemma_first_listed_by_keys(remaining@, before, j as int);
            }
            let ghost prev = remaining@;
            if is_receipt[j] {
                let first = Self::first_listing(remaining, j);
                let lamports = remaining[j].lamports;
                let key = remaining[j].key;
                if first {
                    received = received + lamports;
                    self.signer.lamports = self.signer.lamports + lamports;
                }
                remaining.set(j, LamportAccount { key, lamports: 0 });
            }
            proof {
                lemma_prefix_sums_agree(remaining@, prev, is_receipt@, j as int);
                assert forall|k: int| 0 <= k <= j implies remaining@[k].key == before[k].key by {}
                lemma_first_listed_by_keys(remaining@, before, j as int);
            }
            j = j + 1;
        }
        proof {
            assert(emptied(before, remaining@, is_receipt@));
            assert forall|a: int, b: int|
                0 <= a < n && 0 <= b < n && #[trigger] remaining@[a].key == #[trigger] remaining@[b].key
                implies remaining@[a].lamports == remaining@[b].lamports by {
                assert(before[a].key == before[b].key);
            }
        }
        received
    }
}

} // verus!
