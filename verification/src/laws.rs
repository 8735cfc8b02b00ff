use vstd::prelude::*;

use crate::contexts::close_accounts::is_receipt_of;
use crate::contexts::expenses::{receipt_error, receipt_in_range, recorded, RecordRecipt};
use crate::contexts::initialize_wall::new_wall;
use crate::actions::{after_transfer, transfer_of, TokenTransfer};
use crate::contexts::multisig::{after_kick_off, cancel_error, cancelled_wall, fully_signed, sign, sign_for_wall, signer_authorized};
use crate::contexts::proposal::{approved_wall, new_multisig, within_budget};
use crate::contexts::settle::{amounts_in_range, settlement_amounts};
use crate::contexts::nft_contract::{next_edition, print_error, MasterEdition, CONTRACT_MAX_SUPPLY};
use crate::errors::{ContractError, ExpensesError, MultisigError, UserError, WallError, WallStreetsError};
use crate::pda::{receipt_address, wall_signer_seeds_spec};
use crate::pubkey::Pubkey;
use crate::slots::{has_free_slot, is_first_free, placed_in_first_free};
use crate::state::account::{MintAccount, TokenAccount};
use crate::state::expenses_state::Expenses;
use crate::state::multisig_state::Multisig;
use crate::state::proposal_state::{OfferPrice, Proposal};
use crate::state::wall_state::{Status, Wall};

verus! {

/// Settlement empties the escrow exactly: it goes through exactly when the
/// vault holds the offer's cost plus profit; then the wall owner gets back the
/// cost not spent on expenses and the artist the profit plus the expenses, and
/// the two add up to what the vault holds.
pub proof fn lemma_settlement_splits_vault(proposal: Proposal, expenses: Expenses, vault: u64)
    requires
        amounts_in_range(proposal, expenses, vault),
    ensures
        settlement_amounts(proposal, expenses, vault) is Ok <==> proposal.offer_price.cost
            + proposal.offer_price.profit == vault,
        settlement_amounts(proposal, expenses, vault) is Err ==> settlement_amounts(proposal, expenses, vault)
            == Err::<(u64, u64), WallStreetsError>(WallStreetsError::Wall(WallError::InvalidBudget)),
        settlement_amounts(proposal, expenses, vault) is Ok ==> {
            let (refund, payment) = settlement_amounts(proposal, expenses, vault)->Ok_0;
            &&& refund + expenses.total == proposal.offer_price.cost
            &&& payment == proposal.offer_price.profit + expenses.total
            &&& refund + payment == vault
        },
{
}

/// Each party signs a multisig once: a second signature by the same signer is
/// refused as already signed.
pub proof fn lemma_sign_once(signer: Pubkey, multisig: Multisig)
    requires
        sign(signer, multisig) is Ok,
    ensures
        sign(signer, sign(signer, multisig)->Ok_0) == Err::<Multisig, WallStreetsError>(
            WallStreetsError::Multisig(MultisigError::AlreadySigned),
        ),
{
}

/// One signature never completes a multisig that nobody has signed: both
/// parties are needed to kick off (or settle) a project, so the wall keeps its
/// status after the first kick-off signature.
pub proof fn lemma_one_signature_is_not_enough(signer: Pubkey, multisig: Multisig, wall: Wall)
    requires
        !multisig.is_wall_owner_signed,
        !multisig.is_artist_signed,
        sign(signer, multisig) is Ok,
    ensures
        !fully_signed(sign(signer, multisig)->Ok_0),
        after_kick_off(sign(signer, multisig)->Ok_0, wall).1 == wall,
{
}

/// The wall owner and then the artist (two different parties) signing a fresh
/// multisig completes it, and the kick-off makes the project active, records
/// the kick-off and clears both signatures for the settlement.
pub proof fn lemma_two_signatures_kick_off(multisig: Multisig, wall: Wall)
    requires
        !multisig.is_wall_owner_signed,
        !multisig.is_artist_signed,
        multisig.wall_owner != multisig.artist,
    ensures
        sign(multisig.wall_owner, multisig) is Ok,
        sign(multisig.artist, sign(multisig.wall_owner, multisig)->Ok_0) is Ok,
        ({
            let signed = sign(multisig.artist, sign(multisig.wall_owner, multisig)->Ok_0)->Ok_0;
            let (m, w) = after_kick_off(signed, wall);
            &&& fully_signed(signed)
            &&& w.status == Status::ACTIVE
            &&& m.is_kick_off
            &&& !m.is_wall_owner_signed
            &&& !m.is_artist_signed
        }),
{
}

/// An approved project can be kicked off: when the wall owner approves a
/// proposal of an artist (another party), the multisig opened with the approval
/// takes the wall owner's signature and then the artist's, checked against the
/// approved wall, and the project becomes active.
pub proof fn lemma_approved_project_kicks_off(
    wall: Wall,
    wall_key: Pubkey,
    artist: Pubkey,
    proposal: Pubkey,
    bump: u8,
)
    requires
        artist != wall.wall_owner,
    ensures
        ({
            let approved = approved_wall(wall, artist, proposal);
            let multisig = new_multisig(bump, wall_key, wall.wall_owner, artist);
            &&& sign_for_wall(wall.wall_owner, multisig, approved) is Ok
            &&& sign_for_wall(artist, sign_for_wall(wall.wall_owner, multisig, approved)->Ok_0, approved) is Ok
            &&& after_kick_off(
                sign_for_wall(artist, sign_for_wall(wall.wall_owner, multisig, approved)->Ok_0, approved)->Ok_0,
                approved,
            ).1.status == Status::ACTIVE
        }),
{
}

/// The budget is paid out at most once: once both parties have signed the
/// settlement (as a completed settlement leaves the multisig), every further
/// signature is refused, so no further transfer is asked for: a party of the
/// project is told it already signed, anybody else that it cannot sign.
pub proof fn lemma_settlement_pays_once(signer: Pubkey, multisig: Multisig, wall: Wall)
    requires
        fully_signed(multisig),
    ensures
        sign_for_wall(signer, multisig, wall) == if signer_authorized(signer, multisig, wall) {
            Err::<Multisig, WallStreetsError>(WallStreetsError::Multisig(MultisigError::AlreadySigned))
        } else {
            Err::<Multisig, WallStreetsError>(WallStreetsError::Multisig(MultisigError::InvalidMultisigSigners))
        },
{
}

/// The contract NFT is printed twice, once per party, as editions 1 and 2 of
/// its master edition: a fresh master edition allows a first and a second
/// print, with different numbers, and refuses a third.
pub proof fn lemma_two_editions()
    ensures
        ({
            let first = MasterEdition { supply: 0, max_supply: Some(CONTRACT_MAX_SUPPLY) };
            let second = MasterEdition { supply: 1, max_supply: Some(CONTRACT_MAX_SUPPLY) };
            let third = MasterEdition { supply: 2, max_supply: Some(CONTRACT_MAX_SUPPLY) };
            &&& print_error(1, first) is None
            &&& print_error(1, second) is None
            &&& next_edition(first) == 1
            &&& next_edition(second) == 2
            &&& print_error(1, third) == Some(
                WallStreetsError::Contract(ContractError::EditionsExhausted),
            )
        }),
{
}

/// Cancelling undoes an approval: a pending wall without artist or proposal
/// comes back unchanged after it approves a proposal and then cancels it.
pub proof fn lemma_cancel_undoes_approve(wall: Wall, artist: Pubkey, proposal: Pubkey)
    requires
        wall.status == Status::PENDING,
        wall.artist is None,
        wall.proposal is None,
    ensures
        cancelled_wall(approved_wall(wall, artist, proposal)) == wall,
{
}

/// Cancelling right after an approval is a round trip: the wall owner may
/// cancel (nobody has signed yet), the wall comes back as it was, and the
/// refund of the whole vault gives the wall owner back the deposit, leaving
/// both token accounts with the balances they had before the approval.
pub proof fn lemma_cancel_refunds_deposit(
    wall: Wall,
    wall_key: Pubkey,
    owner_user_account: Pubkey,
    artist: Pubkey,
    proposal: Pubkey,
    bump: u8,
    mint: MintAccount,
    owner_ata: TokenAccount,
    project_ata: TokenAccount,
    amount: u64,
    deposit: TokenTransfer,
    refund: TokenTransfer,
)
    requires
        wall.status == Status::PENDING,
        wall.artist is None,
        wall.proposal is None,
        owner_ata.key != project_ata.key,
        project_ata.amount == 0,
        amount <= owner_ata.amount,
        transfer_of(deposit, owner_ata.key, project_ata.key, wall.wall_owner, amount, None, mint),
        transfer_of(
            refund,
            project_ata.key,
            owner_ata.key,
            wall_key,
            after_transfer(deposit, project_ata).amount,
            Some(wall_signer_seeds_spec(owner_user_account, wall.wall_seed, wall.bump)),
            mint,
        ),
    ensures
        cancel_error(
            wall.wall_owner,
            approved_wall(wall, artist, proposal),
            new_multisig(bump, wall_key, wall.wall_owner, artist),
        ) is None,
        cancelled_wall(approved_wall(wall, artist, proposal)) == wall,
        after_transfer(deposit, project_ata).amount == amount,
        after_transfer(refund, after_transfer(deposit, owner_ata)) == owner_ata,
        after_transfer(refund, after_transfer(deposit, project_ata)) == project_ata,
{
}

/// The project's artist records an expense on an active project exactly when
/// the new total stays within the proposal's cost, however the amount compares
/// with anything else; otherwise the answer is that the budget is exceeded.
pub proof fn lemma_expense_accepted_within_cost(
    signer: Pubkey,
    wall: Wall,
    expenses: Expenses,
    proposal: Proposal,
    amount: u64,
)
    requires
        wall.artist == Some(signer),
        expenses.artist == signer,
        wall.status == Status::ACTIVE,
    ensures
        receipt_error(signer, wall, expenses, proposal, amount) is None <==> expenses.total + amount
            <= proposal.offer_price.cost,
        expenses.total + amount > proposal.offer_price.cost ==> receipt_error(
            signer,
            wall,
            expenses,
            proposal,
            amount,
        ) == Some(WallStreetsError::Expenses(ExpensesError::ExceedsBudget)),
{
}

/// Only the project's artist records expenses, and only while the project is
/// active: anyone else is told they are not the artist, and the artist of a
/// project that is not active is told the status is wrong.
pub proof fn lemma_expenses_only_by_artist_while_active(
    signer: Pubkey,
    wall: Wall,
    expenses: Expenses,
    proposal: Proposal,
    amount: u64,
)
    ensures
        !(wall.artist == Some(signer) && expenses.artist == signer) ==> receipt_error(
            signer,
            wall,
            expenses,
            proposal,
            amount,
        ) == Some(WallStreetsError::User(UserError::InvalidArtist)),
        wall.artist == Some(signer) && expenses.artist == signer && wall.status != Status::ACTIVE
            ==> receipt_error(signer, wall, expenses, proposal, amount) == Some(
            WallStreetsError::Wall(WallError::UnexpectedStatus),
        ),
{
}

/// Recording an expense adds exactly its amount to the total and one to the
/// receipt count, and the receipt holds the amount and its time.
pub proof fn lemma_recording_adds_the_amount(
    before: RecordRecipt,
    after: RecordRecipt,
    amount: u64,
    bump: u8,
    created_at: i64,
)
    requires
        recorded(before, after, amount, bump, created_at),
        receipt_in_range(before, amount),
        receipt_error(before.signer, before.wall.data, before.expenses.data, before.proposal.data, amount)
            is None,
    ensures
        after.expenses.data.total == before.expenses.data.total + amount,
        after.expenses.data.seeds == before.expenses.data.seeds + 1,
        after.expenses.data.total <= after.proposal.data.offer_price.cost,
        after.receipt.data.amount == amount,
        after.receipt.data.created_at == created_at,
{
}

/// A kick-off signature that leaves one party unsigned changes nothing but the
/// signature itself: the multisig is not kicked off any more than before, and
/// the wall keeps its status.
pub proof fn lemma_lone_kick_off_signature(signer: Pubkey, multisig: Multisig, wall: Wall)
    requires
        sign_for_wall(signer, multisig, wall) is Ok,
        !(sign_for_wall(signer, multisig, wall)->Ok_0.is_wall_owner_signed && sign_for_wall(
            signer,
            multisig,
            wall,
        )->Ok_0.is_artist_signed),
    ensures
        ({
            let signed = sign_for_wall(signer, multisig, wall)->Ok_0;
            &&& after_kick_off(signed, wall).0 == signed
            &&& after_kick_off(signed, wall).0.is_kick_off == multisig.is_kick_off
            &&& after_kick_off(signed, wall).1 == wall
        }),
{
}

/// The wall owner may call off a project unless both parties have signed:
/// with at most one signature the cancel goes through, with both it is refused.
pub proof fn lemma_cancel_until_both_signed(signer: Pubkey, wall: Wall, multisig: Multisig)
    requires
        signer == wall.wall_owner,
        signer == multisig.wall_owner,
    ensures
        !(multisig.is_wall_owner_signed && multisig.is_artist_signed) ==> cancel_error(
            signer,
            wall,
            multisig,
        ) is None,
        multisig.is_wall_owner_signed && multisig.is_artist_signed ==> cancel_error(signer, wall, multisig)
            == Some(WallStreetsError::Multisig(MultisigError::NotCancelBool)),
{
}

/// An offer fits the wall exactly when its cost plus its profit is at most the
/// wall's budget, whatever the split between cost and profit.
pub proof fn lemma_offer_within_budget(offer: OfferPrice, wall: Wall)
    ensures
        within_budget(offer, wall) <==> offer.cost + offer.profit <= wall.budget,
{
}

/// Expenses never exceed the proposal's cost: an expense is accepted only when
/// the new total stays within the cost, and the total never shrinks.
pub proof fn lemma_expenses_stay_within_cost(
    signer: Pubkey,
    wall: Wall,
    expenses: Expenses,
    proposal: Proposal,
    amount: u64,
)
    ensures
        receipt_error(signer, wall, expenses, proposal, amount) is None ==> expenses.total <= expenses.total
            + amount <= proposal.offer_price.cost,
{
}

/// Two walls registered one after the other by the same owner get different
/// seeds, so different addresses.
pub proof fn lemma_wall_seeds_differ(
    bump1: u8,
    bump2: u8,
    seeds: u16,
    owner: Pubkey,
    owner_user_account: Pubkey,
    ata1: Pubkey,
    ata2: Pubkey,
    budget1: u64,
    budget2: u64,
)
    requires
        seeds < u16::MAX,
    ensures
        new_wall(bump1, seeds, owner, owner_user_account, ata1, budget1).wall_seed != new_wall(
            bump2,
            (seeds + 1) as u16,
            owner,
            owner_user_account,
            ata2,
            budget2,
        ).wall_seed,
{
}

/// Placing a key in the first free slot keeps every filled slot, stores the
/// key, and uses up one free slot.
pub proof fn lemma_placing_keeps_filled_slots(old_slots: Seq<Pubkey>, new_slots: Seq<Pubkey>, key: Pubkey)
    requires
        placed_in_first_free(old_slots, new_slots, key),
    ensures
        new_slots.len() == old_slots.len(),
        forall|j: int| 0 <= j < old_slots.len() && !old_slots[j].is_zero() ==> new_slots[j] == old_slots[j],
        new_slots.contains(key),
        has_free_slot(old_slots),
{
    let i = choose|i: int| is_first_free(old_slots, i) && new_slots == old_slots.update(i, key);
    assert(new_slots[i] == key);
    assert(old_slots[i].is_zero());
}

/// A receipt recorded while the expenses count `k` receipts lives at the
/// address derived from `k`; once the count is `k + 1` the sweep at closing
/// recognises that address as a receipt.
pub proof fn lemma_recorded_receipt_is_swept(wall: Pubkey, program_id: Pubkey, k: u16)
    requires
        k < u16::MAX,
        receipt_address(wall, program_id, k) is Some,
    ensures
        is_receipt_of(wall, program_id, (k + 1) as u16, receipt_address(wall, program_id, k)->0),
{
    assert(receipt_address(wall, program_id, k) == Some(receipt_address(wall, program_id, k)->0));
}

} // verus!
