use wall_streets::contexts::close_accounts::CloseAccounts;
use wall_streets::contexts::expenses::{
    InitializeExpenses, InitializeExpensesBumps, RecordRecipt, RecordReciptBumps,
};
use wall_streets::contexts::multisig::{CancelProject, KickOffProject};
use wall_streets::contexts::nft_contract::{InitContractNft, InitContractNftBumps, MasterEdition, MintContract};
use wall_streets::contexts::settle::SettleProject;
use wall_streets::errors::{
    ContractError, ExpensesError, MultisigError, UserError, WallError, WallStreetsError,
};
use wall_streets::pda::wall_signer_seeds;
use wall_streets::pubkey::Pubkey;
use wall_streets::signed_project;
use wall_streets::state::account::{Account, LamportAccount, MintAccount, TokenAccount};
use wall_streets::state::expenses_state::{Expenses, Receipt};
use wall_streets::state::multisig_state::Multisig;
use wall_streets::state::proposal_state::{OfferPrice, Proposal};
use wall_streets::state::user_state::{Role, User, MAP_TABLE_SIZE};
use wall_streets::state::wall_state::{Status, Wall};

const OWNER: u8 = 1;
const ARTIST: u8 = 2;

fn key(n: u8) -> Pubkey {
    Pubkey([n; 32])
}

fn zero() -> Pubkey {
    Pubkey([0; 32])
}

fn owner_user() -> User {
    User {
        bump: 3,
        name: "owner".to_string(),
        wall_mints: [zero(); MAP_TABLE_SIZE],
        role: Role::WallOwner,
        is_artist: false,
        wall_seeds: 1,
    }
}

fn draft_wall() -> Wall {
    Wall {
        bump: 250,
        wall_seed: 0x0102,
        wall_owner: key(OWNER),
        wall_owner_user_account: key(11),
        artist: Some(key(ARTIST)),
        proposal: Some(key(51)),
        project_ata: key(21),
        budget: 200,
        status: Status::DRAFT,
        proposal_seeds: 1,
        nft_bump: None,
    }
}

fn fresh_multisig() -> Multisig {
    Multisig {
        bump: 9,
        wall: key(41),
        wall_owner: key(OWNER),
        artist: key(ARTIST),
        is_wall_owner_signed: false,
        is_artist_signed: false,
        is_kick_off: false,
        is_settled: false,
    }
}

fn kick_off_ctx(signer: Pubkey, multisig: Multisig) -> KickOffProject {
    KickOffProject {
        signer,
        artist: key(ARTIST),
        multisig: Account { key: key(61), data: multisig },
        wall_owner: key(OWNER),
        wall_owner_user_account: Account { key: key(11), data: owner_user() },
        wall: Account { key: key(41), data: draft_wall() },
    }
}

fn expected_wall_seeds() -> Vec<Vec<u8>> {
    vec![b"wall".to_vec(), key(11).0.to_vec(), 0x0102u16.to_le_bytes().to_vec(), vec![250]]
}

#[test]
fn wall_signer_seeds_match_the_wall_address_seeds() {
    assert_eq!(wall_signer_seeds(&key(11), 0x0102, 250), expected_wall_seeds());
}

#[test]
fn kick_off_needs_both_parties() {
    let mut ctx = kick_off_ctx(key(OWNER), fresh_multisig());
    assert_eq!(ctx.kick_off_project(), Ok(()));
    assert!(ctx.multisig.data.is_wall_owner_signed);
    assert_eq!(ctx.wall.data.status, Status::DRAFT);

    let mut ctx = kick_off_ctx(key(ARTIST), ctx.multisig.data);
    assert_eq!(ctx.kick_off_project(), Ok(()));
    assert_eq!(ctx.wall.data.status, Status::ACTIVE);
    assert!(ctx.multisig.data.is_kick_off);
    assert!(!ctx.multisig.data.is_wall_owner_signed);
    assert!(!ctx.multisig.data.is_artist_signed);
}

#[test]
fn kick_off_refuses_second_signature_and_outsiders() {
    let mut signed = fresh_multisig();
    signed.is_wall_owner_signed = true;
    let mut ctx = kick_off_ctx(key(OWNER), signed);
    assert_eq!(ctx.kick_off_project(), Err(WallStreetsError::Multisig(MultisigError::AlreadySigned)));
    assert_eq!(ctx.multisig.data, signed);

    let mut ctx = kick_off_ctx(key(7), fresh_multisig());
    assert_eq!(ctx.kick_off_project(), Err(WallStreetsError::Multisig(MultisigError::InvalidMultisigSigners)));

    // The multisig's artist is refused when the wall names another artist.
    let mut ctx = kick_off_ctx(key(ARTIST), fresh_multisig());
    ctx.wall.data.artist = Some(key(12));
    assert_eq!(ctx.kick_off_project(), Err(WallStreetsError::Multisig(MultisigError::InvalidMultisigSigners)));
}

#[test]
fn signed_project_method_signs_each_party_once() {
    let mut ctx = kick_off_ctx(key(ARTIST), fresh_multisig());
    assert_eq!(ctx.signed_project(), Ok(()));
    assert!(ctx.multisig.data.is_artist_signed);
    assert_eq!(ctx.signed_project(), Err(WallStreetsError::Multisig(MultisigError::AlreadySigned)));
}

#[test]
fn signed_project_checks_the_wall() {
    let mut multisig = Account { key: key(61), data: fresh_multisig() };
    let wall = Account { key: key(41), data: draft_wall() };
    assert_eq!(signed_project(&key(OWNER), &mut multisig, &wall), Ok(()));
    assert!(multisig.data.is_wall_owner_signed);
    assert_eq!(
        signed_project(&key(OWNER), &mut multisig, &wall),
        Err(WallStreetsError::Multisig(MultisigError::AlreadySigned))
    );
    let mut other_wall = draft_wall();
    other_wall.wall_owner = key(9);
    let other = Account { key: key(41), data: other_wall };
    let mut fresh = Account { key: key(61), data: fresh_multisig() };
    assert_eq!(
        signed_project(&key(OWNER), &mut fresh, &other),
        Err(WallStreetsError::Multisig(MultisigError::InvalidMultisigSigners))
    );
    assert_eq!(fresh.data, fresh_multisig());
}

fn cancel_ctx(signer: Pubkey, multisig: Multisig) -> CancelProject {
    CancelProject {
        signer,
        artist: key(ARTIST),
        multisig: Account { key: key(61), data: multisig },
        wall_owner: key(OWNER),
        wall_owner_user_account: Account { key: key(11), data: owner_user() },
        wall: Account { key: key(41), data: draft_wall() },
        usdc_mint: MintAccount { key: key(25), decimals: 6 },
        project_ata: TokenAccount { key: key(21), amount: 150 },
        wall_owner_ata: TokenAccount { key: key(22), amount: 0 },
        proposal: Account {
            key: key(51),
            data: Proposal {
                bump: 5,
                proposal_seed: 0,
                artist: key(12),
                wall: key(41),
                offer_price: OfferPrice { cost: 100, profit: 50 },
                status: Status::DRAFT,
            },
        },
    }
}

#[test]
fn cancel_project_resets_wall() {
    let mut ctx = cancel_ctx(key(OWNER), fresh_multisig());
    assert_eq!(ctx.cancel_project(), Ok(()));
    assert_eq!(ctx.wall.data.artist, None);
    assert_eq!(ctx.wall.data.proposal, None);
    assert_eq!(ctx.wall.data.status, Status::PENDING);
    let t = ctx.refund_project_deposit().unwrap();
    assert_eq!((t.from, t.to, t.authority, t.amount), (key(21), key(22), key(41), 150));
    assert_eq!((t.mint, t.decimals), (key(25), 6));
    assert_eq!(t.signer_seeds, Some(expected_wall_seeds()));
}

#[test]
fn cancel_project_errors() {
    let mut ctx = cancel_ctx(key(ARTIST), fresh_multisig());
    assert_eq!(ctx.cancel_project(), Err(WallStreetsError::Multisig(MultisigError::UnauthorizedSigner)));
    let mut both = fresh_multisig();
    both.is_wall_owner_signed = true;
    both.is_artist_signed = true;
    let mut ctx = cancel_ctx(key(OWNER), both);
    assert_eq!(ctx.cancel_project(), Err(WallStreetsError::Multisig(MultisigError::NotCancelBool)));
    assert_eq!(ctx.wall.data, draft_wall());
}

#[test]
fn initialize_expenses_for_the_artist_only() {
    let blank = Expenses { bump: 0, seeds: 0, wall: zero(), artist: zero(), total: 0 };
    let mut ctx = InitializeExpenses {
        signer: key(7),
        wall_owner: key(OWNER),
        wall_owner_user_account: Account { key: key(11), data: owner_user() },
        wall: Account { key: key(41), data: draft_wall() },
        expenses: Account { key: key(71), data: blank },
    };
    assert_eq!(
        ctx.initialize_expenses(&InitializeExpensesBumps { expenses: 4 }),
        Err(WallStreetsError::User(UserError::InvalidArtist))
    );
    ctx.signer = key(ARTIST);
    assert_eq!(ctx.initialize_expenses(&InitializeExpensesBumps { expenses: 4 }), Ok(()));
    assert_eq!(ctx.expenses.data, Expenses { bump: 4, seeds: 0, wall: key(41), artist: key(ARTIST), total: 0 });
}

fn record_ctx(signer: Pubkey, total: u64) -> RecordRecipt {
    RecordRecipt {
        signer,
        wall_owner: key(OWNER),
        wall_owner_user_account: Account { key: key(11), data: owner_user() },
        receipt: Account { key: key(81), data: Receipt { bump: 0, amount: 0, created_at: 0 } },
        expenses: Account { key: key(71), data: Expenses { bump: 4, seeds: 2, wall: key(41), artist: key(ARTIST), total } },
        wall: Account { key: key(41), data: Wall { status: Status::ACTIVE, ..draft_wall() } },
        proposal: Account {
            key: key(51),
            data: Proposal {
                bump: 5,
                proposal_seed: 0,
                artist: key(12),
                wall: key(41),
                offer_price: OfferPrice { cost: 100, profit: 50 },
                status: Status::DRAFT,
            },
        },
    }
}

#[test]
fn record_receipt_adds_up_within_cost() {
    let mut ctx = record_ctx(key(ARTIST), 60);
    assert_eq!(ctx.record_receipt_at(40, &RecordReciptBumps { receipt: 8 }, 1_700_000_000), Ok(()));
    assert_eq!(ctx.receipt.data, Receipt { bump: 8, amount: 40, created_at: 1_700_000_000 });
    assert_eq!(ctx.expenses.data.total, 100);
    assert_eq!(ctx.expenses.data.seeds, 3);
    assert_eq!(
        ctx.record_receipt_at(1, &RecordReciptBumps { receipt: 8 }, 1_700_000_001),
        Err(WallStreetsError::Expenses(ExpensesError::ExceedsBudget))
    );
    assert_eq!(ctx.expenses.data.total, 100);
    assert_eq!(ctx.expenses.data.seeds, 3);
}

#[test]
fn record_receipt_for_the_artist_only() {
    let mut ctx = record_ctx(key(7), 0);
    assert_eq!(
        ctx.record_receipt_at(1, &RecordReciptBumps { receipt: 8 }, 0),
        Err(WallStreetsError::User(UserError::InvalidArtist))
    );
    assert_eq!(ctx.expenses.data.total, 0);
}

#[test]
fn record_receipt_only_while_active() {
    for status in [Status::PENDING, Status::DRAFT, Status::DONE] {
        let mut ctx = record_ctx(key(ARTIST), 0);
        ctx.wall.data.status = status;
        assert_eq!(
            ctx.record_receipt_at(10, &RecordReciptBumps { receipt: 8 }, 0),
            Err(WallStreetsError::Wall(WallError::UnexpectedStatus))
        );
        assert_eq!(ctx.expenses.data.total, 0);
        assert_eq!(ctx.expenses.data.seeds, 2);
    }
}

#[test]
fn record_receipt_needs_the_clock() {
    // Off-chain the runtime has no clock sysvar.
    let mut ctx = record_ctx(key(ARTIST), 0);
    assert_eq!(
        ctx.record_receipt(10, &RecordReciptBumps { receipt: 8 }),
        Err(WallStreetsError::Runtime(u64::from(anchor_lang::prelude::ProgramError::UnsupportedSysvar)))
    );
    assert_eq!(ctx.expenses.data.total, 0);
    let mut ctx = record_ctx(key(7), 0);
    assert_eq!(
        ctx.record_receipt(10, &RecordReciptBumps { receipt: 8 }),
        Err(WallStreetsError::User(UserError::InvalidArtist))
    );
}

fn settle_ctx(signer: Pubkey, multisig: Multisig, total: u64, vault: u64) -> SettleProject {
    SettleProject {
        signer,
        artist: key(ARTIST),
        wall_owner: key(OWNER),
        multisig: Account { key: key(61), data: multisig },
        wall_owner_user_account: Account { key: key(11), data: owner_user() },
        wall: Account { key: key(41), data: Wall { status: Status::ACTIVE, ..draft_wall() } },
        expenses: Account { key: key(71), data: Expenses { bump: 4, seeds: 2, wall: key(41), artist: key(ARTIST), total } },
        proposal: Account {
            key: key(51),
            data: Proposal {
                bump: 5,
                proposal_seed: 0,
                artist: key(12),
                wall: key(41),
                offer_price: OfferPrice { cost: 100, profit: 50 },
                status: Status::DRAFT,
            },
        },
        usdc_mint: MintAccount { key: key(25), decimals: 6 },
        project_ata: TokenAccount { key: key(21), amount: vault },
        wall_owner_ata: TokenAccount { key: key(22), amount: 0 },
        artist_ata: TokenAccount { key: key(23), amount: 0 },
    }
}

fn kicked_off() -> Multisig {
    Multisig { is_kick_off: true, ..fresh_multisig() }
}

#[test]
fn settle_requires_kick_off() {
    let mut ctx = settle_ctx(key(OWNER), fresh_multisig(), 30, 150);
    assert_eq!(ctx.settle_project(), Err(WallStreetsError::Multisig(MultisigError::RequireKickOffStatus)));
}

#[test]
fn settle_pays_out_after_both_signatures() {
    let mut ctx = settle_ctx(key(OWNER), kicked_off(), 30, 150);
    assert_eq!(ctx.settle_project(), Ok(vec![]));
    assert!(ctx.multisig.data.is_wall_owner_signed);
    assert_eq!(ctx.wall.data.status, Status::ACTIVE);

    let mut ctx = settle_ctx(key(ARTIST), ctx.multisig.data, 30, 150);
    let transfers = ctx.settle_project().unwrap();
    assert_eq!(transfers.len(), 2);
    assert_eq!((transfers[0].from, transfers[0].to, transfers[0].amount), (key(21), key(22), 70));
    assert_eq!((transfers[1].from, transfers[1].to, transfers[1].amount), (key(21), key(23), 80));
    assert_eq!(transfers[0].authority, key(41));
    assert_eq!((transfers[1].mint, transfers[1].decimals), (key(25), 6));
    assert_eq!(transfers[1].signer_seeds, Some(expected_wall_seeds()));
    assert_eq!(transfers[0].amount + transfers[1].amount, 150);
    assert_eq!(ctx.wall.data.status, Status::DONE);
    assert!(ctx.multisig.data.is_settled);

    // The budget is paid out once.
    let settled = ctx.multisig.data;
    for signer in [key(OWNER), key(ARTIST)] {
        let mut again = settle_ctx(signer, settled, 30, 0);
        assert_eq!(again.settle_project(), Err(WallStreetsError::Multisig(MultisigError::AlreadySigned)));
        assert_eq!(again.multisig.data, settled);
    }
    let mut stranger = settle_ctx(key(77), settled, 30, 0);
    assert_eq!(stranger.settle_project(), Err(WallStreetsError::Multisig(MultisigError::InvalidMultisigSigners)));
    assert_eq!(stranger.multisig.data, settled);
}

#[test]
fn settle_checks_budget_and_proposal() {
    let mut signed = kicked_off();
    signed.is_wall_owner_signed = true;
    let mut ctx = settle_ctx(key(ARTIST), signed, 30, 149);
    assert_eq!(ctx.settle_project(), Err(WallStreetsError::Wall(WallError::InvalidBudget)));
    assert_eq!(ctx.multisig.data, signed);
    assert_eq!(ctx.wall.data.status, Status::ACTIVE);

    let mut ctx = settle_ctx(key(ARTIST), signed, 30, 150);
    ctx.wall.data.proposal = Some(key(52));
    assert_eq!(ctx.settle_project(), Err(WallStreetsError::Wall(WallError::UnmuchedProposal)));
    assert_eq!(ctx.multisig.data, signed);
}

#[test]
fn calulate_amounts_splits_the_escrow() {
    let ctx = settle_ctx(key(OWNER), kicked_off(), 0, 150);
    assert_eq!(ctx.calulate_amounts(), Ok((100, 50)));
    let ctx = settle_ctx(key(OWNER), kicked_off(), 100, 150);
    assert_eq!(ctx.calulate_amounts(), Ok((0, 150)));
    let ctx = settle_ctx(key(OWNER), kicked_off(), 10, 151);
    assert_eq!(ctx.calulate_amounts(), Err(WallStreetsError::Wall(WallError::InvalidBudget)));
}

#[test]
fn refund_unused_cost_checks_expenses() {
    let mut ctx = settle_ctx(key(OWNER), kicked_off(), 120, 150);
    assert_eq!(ctx.refund_unused_cost(0), Err(WallStreetsError::Expenses(ExpensesError::ExceedsBudget)));
    let mut ctx = settle_ctx(key(OWNER), kicked_off(), 20, 150);
    let t = ctx.refund_unused_cost(80).unwrap();
    assert_eq!((t.from, t.to, t.amount), (key(21), key(22), 80));
    let t = ctx.send_budghet_to_artist(70).unwrap();
    assert_eq!((t.from, t.to, t.amount), (key(21), key(23), 70));
}

fn close_ctx(status: Status, receipts: u16) -> CloseAccounts {
    CloseAccounts {
        signer: LamportAccount { key: key(90), lamports: 1_000 },
        wall: Account { key: key(41), data: Wall { status, nft_bump: Some(33), ..draft_wall() } },
        proposal: Account {
            key: key(51),
            data: Proposal {
                bump: 5,
                proposal_seed: 0,
                artist: key(12),
                wall: key(41),
                offer_price: OfferPrice { cost: 100, profit: 50 },
                status: Status::DRAFT,
            },
        },
        expenses: Account { key: key(71), data: Expenses { bump: 4, seeds: receipts, wall: key(41), artist: key(ARTIST), total: 0 } },
        multisig: Account { key: key(61), data: kicked_off() },
    }
}

#[test]
fn close_accounts_only_when_done() {
    let mut ctx = close_ctx(Status::ACTIVE, 0);
    assert_eq!(ctx.close_accounts(), Err(WallStreetsError::Wall(WallError::UnexpectedStatus)));
    let mut ctx = close_ctx(Status::DONE, 0);
    assert_eq!(ctx.close_accounts(), Ok(()));
    ctx.wall.data.nft_bump = None;
    assert_eq!(ctx.close_accounts(), Ok(()));
}

fn receipt_key(program: &anchor_lang::prelude::Pubkey, wall: Pubkey, i: u16) -> Pubkey {
    let (address, _) = anchor_lang::prelude::Pubkey::find_program_address(
        &[b"receipt".as_ref(), wall.0.as_ref(), i.to_le_bytes().as_ref()],
        program,
    );
    Pubkey(address.to_bytes())
}

#[test]
fn receipt_accounts_recognises_recorded_receipts() {
    let program = anchor_lang::prelude::Pubkey::new_from_array([5; 32]);
    let program_id = Pubkey(program.to_bytes());
    let ctx = close_ctx(Status::DONE, 2);
    let remaining = vec![
        LamportAccount { key: receipt_key(&program, key(41), 1), lamports: 10 },
        LamportAccount { key: key(41), lamports: 20 },
        LamportAccount { key: receipt_key(&program, key(41), 2), lamports: 30 },
        LamportAccount { key: receipt_key(&program, key(41), 0), lamports: 40 },
        LamportAccount { key: receipt_key(&program, key(42), 0), lamports: 50 },
    ];
    let flags = ctx.receipt_accounts(&program_id, &remaining);
    assert_eq!(flags, vec![true, false, false, true, false]);
}

#[test]
fn sweep_receipts_moves_lamports_to_signer() {
    let mut ctx = close_ctx(Status::DONE, 2);
    let mut remaining = vec![
        LamportAccount { key: key(100), lamports: 10 },
        LamportAccount { key: key(101), lamports: 20 },
        LamportAccount { key: key(102), lamports: 40 },
    ];
    let received = ctx.sweep_receipts(&mut remaining, &vec![true, false, true]);
    assert_eq!(received, 50);
    assert_eq!(ctx.signer.lamports, 1_050);
    assert_eq!(remaining[0].lamports, 0);
    assert_eq!(remaining[1].lamports, 20);
    assert_eq!(remaining[2].lamports, 0);
    assert_eq!(remaining[2].key, key(102));
}

#[test]
fn sweep_receipts_pays_an_account_listed_twice_once() {
    let mut ctx = close_ctx(Status::DONE, 2);
    let mut remaining = vec![
        LamportAccount { key: key(100), lamports: 10 },
        LamportAccount { key: key(101), lamports: 20 },
        LamportAccount { key: key(100), lamports: 10 },
    ];
    let flags = vec![true, false, true];
    assert!(ctx.sweep_fits(&remaining, &flags));
    let received = ctx.sweep_receipts(&mut remaining, &flags);
    assert_eq!(received, 10);
    assert_eq!(ctx.signer.lamports, 1_010);
    assert_eq!(remaining[0].lamports, 0);
    assert_eq!(remaining[1].lamports, 20);
    assert_eq!(remaining[2].lamports, 0);
}

#[test]
fn sweep_fits_detects_overflow() {
    let mut ctx = close_ctx(Status::DONE, 2);
    ctx.signer.lamports = u64::MAX - 5;
    let remaining = vec![
        LamportAccount { key: key(100), lamports: 5 },
        LamportAccount { key: key(100), lamports: 5 },
    ];
    assert!(ctx.sweep_fits(&remaining, &vec![true, true]));
    let remaining = vec![
        LamportAccount { key: key(100), lamports: 5 },
        LamportAccount { key: key(101), lamports: 1 },
    ];
    assert!(!ctx.sweep_fits(&remaining, &vec![true, true]));
    assert!(ctx.sweep_fits(&remaining, &vec![true, false]));
}

fn nft_ctx() -> InitContractNft {
    InitContractNft {
        admin: key(95),
        wall: Account { key: key(41), data: Wall { status: Status::DONE, ..draft_wall() } },
        nft_mint: key(96),
        metadata: key(97),
        edition: key(98),
        admin_ata: TokenAccount { key: key(99), amount: 0 },
        wall_owner_user_account: Account { key: key(11), data: owner_user() },
        artist_user_account: Account { key: key(12), data: User { role: Role::Artist, ..owner_user() } },
    }
}

#[test]
fn init_nft_requests() {
    let mut ctx = nft_ctx();
    let m = ctx.create_metadata(&InitContractNftBumps { nft_mint: 33 }).unwrap();
    assert_eq!((m.name.as_str(), m.symbol.as_str(), m.uri.as_str()), ("test", "CTR", "image"));
    assert_eq!(m.seller_fee_basis_points, 0);
    assert!(!m.is_mutable);
    assert!(m.update_authority_is_signer);
    assert_eq!((m.creators, m.collection, m.uses, m.collection_details), (None, None, None, None));
    assert_eq!((m.metadata, m.mint, m.payer), (key(97), key(96), key(95)));
    assert_eq!(m.update_authority, key(41));
    assert_eq!(m.signer_seeds, expected_wall_seeds());
    assert_eq!(ctx.wall.data.nft_bump, Some(33));
    let e = ctx.create_master_edition().unwrap();
    assert_eq!(e.max_supply, Some(2));
    assert_eq!((e.edition, e.metadata, e.mint, e.authority, e.payer), (key(98), key(97), key(96), key(41), key(95)));
    assert_eq!(e.signer_seeds, expected_wall_seeds());
    let t = ctx.mint_to_admin().unwrap();
    assert_eq!((t.mint, t.to, t.authority, t.amount), (key(96), key(99), key(41), 1));
}

#[test]
fn init_nft_only_after_settlement() {
    for status in [Status::PENDING, Status::DRAFT, Status::ACTIVE] {
        let mut ctx = nft_ctx();
        ctx.wall.data.status = status;
        let unsettled = WallStreetsError::Wall(WallError::UnexpectedStatus);
        assert_eq!(ctx.create_metadata(&InitContractNftBumps { nft_mint: 33 }), Err(unsettled));
        assert_eq!(ctx.wall.data.nft_bump, None);
        assert_eq!(ctx.create_master_edition(), Err(unsettled));
        assert_eq!(ctx.mint_to_admin(), Err(unsettled));
        assert_eq!(ctx.push_wall_mint(), Err(unsettled));
    }
}

#[test]
fn push_wall_mint_records_nft_for_both_parties() {
    let mut ctx = nft_ctx();
    ctx.wall_owner_user_account.data.wall_mints[0] = key(120);
    assert_eq!(ctx.push_wall_mint(), Ok(()));
    assert_eq!(ctx.wall_owner_user_account.data.wall_mints[0], key(120));
    assert_eq!(ctx.wall_owner_user_account.data.wall_mints[1], key(96));
    assert_eq!(ctx.artist_user_account.data.wall_mints[0], key(96));

    let mut ctx = nft_ctx();
    ctx.artist_user_account.data.wall_mints = [key(120); MAP_TABLE_SIZE];
    assert_eq!(ctx.push_wall_mint(), Err(WallStreetsError::Wall(WallError::NoSpaceAvailable)));
    assert_eq!(ctx.wall_owner_user_account.data.wall_mints[0], zero());
}

fn mint_ctx(archive_amount: u64, supply: u64) -> MintContract {
    MintContract {
        signer: key(ARTIST),
        wall: Account { key: key(41), data: Wall { status: Status::DONE, ..draft_wall() } },
        edition_mark_pda: key(130),
        metadata_mint: key(96),
        metadata: key(97),
        master_edition: Account { key: key(98), data: MasterEdition { supply, max_supply: Some(2) } },
        admin_ata: TokenAccount { key: key(99), amount: archive_amount },
        admin: key(95),
        new_mint: key(131),
        new_mint_ata: TokenAccount { key: key(132), amount: 0 },
        new_metadata: key(133),
        new_edition: key(134),
    }
}

#[test]
fn mint_nft_prints_the_next_edition() {
    let mut ctx = mint_ctx(0, 0);
    assert_eq!(ctx.mint_nft(), Err(WallStreetsError::Contract(ContractError::InvalidTokenBalance)));
    let mut ctx = mint_ctx(1, 0);
    let e = ctx.mint_nft().unwrap();
    assert_eq!((e.master_mint, e.master_edition, e.new_mint, e.edition), (key(96), key(98), key(131), 1));
    assert_eq!((e.token_account, e.token_account_owner), (key(99), key(95)));
    assert_eq!((e.new_mint_authority, e.new_metadata_update_authority, e.payer), (key(ARTIST), key(ARTIST), key(ARTIST)));
    assert_eq!((e.metadata, e.edition_mark_pda, e.new_metadata, e.new_edition), (key(97), key(130), key(133), key(134)));
    let m = ctx.mint_new_mint().unwrap();
    assert_eq!((m.mint, m.to, m.authority, m.amount), (key(131), key(132), key(ARTIST), 1));
    assert_eq!(m.signer_seeds, None);

    let mut second = mint_ctx(1, 1);
    assert_eq!(second.mint_nft().unwrap().edition, 2);
    let mut third = mint_ctx(1, 2);
    assert_eq!(third.mint_nft(), Err(WallStreetsError::Contract(ContractError::EditionsExhausted)));
}

#[test]
fn mint_nft_on_any_status() {
    let mut ctx = mint_ctx(1, 0);
    ctx.wall.data.status = Status::ACTIVE;
    assert_eq!(ctx.mint_nft().unwrap().edition, 1);
    assert_eq!(ctx.mint_new_mint().unwrap().amount, 1);
    let mut ctx = mint_ctx(0, 0);
    ctx.wall.data.status = Status::PENDING;
    assert_eq!(ctx.mint_nft(), Err(WallStreetsError::Contract(ContractError::InvalidTokenBalance)));
}

#[test]
fn error_messages() {
    assert_eq!(UserError::NameTooLong.message(), "Name must be between 1 and 32 characters");
    assert_eq!(UserError::InvalidRole.message(), "Role numbers must be 0, 1 and 2");
    assert_eq!(WallError::NoSpaceAvailable.message(), "Not space available");
    assert_eq!(ExpensesError::InsufficientDeposit.message(), "The deposit amount must meet the offer_price");
    assert_eq!(MultisigError::AlreadySigned.message(), "already signed");
    assert_eq!(ContractError::InvalidTokenBalance.message(), "The master token is not held by the archive");
}

#[test]
fn pubkey_equality_and_default() {
    assert!(key(3) == key(3));
    assert!(key(3) != key(4));
    assert!(Pubkey::zeroed().is_default());
    assert!(!key(1).is_default());
    let mut bytes = [0u8; 32];
    bytes[31] = 1;
    assert!(!Pubkey::new_from_array(bytes).is_default());
    assert_eq!(Pubkey::new_from_array(bytes).to_bytes(), bytes);
}
