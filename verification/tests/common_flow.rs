use wall_streets::contexts::initialize_artist::{InitializeArtist, InitializeArtistBumps};
use wall_streets::contexts::initialize_user::{InitializeUser, InitializeUserBumps};
use wall_streets::contexts::initialize_wall::{InitializeWall, InitializeWallBumps};
use wall_streets::contexts::multisig::{CancelProject, KickOffProject};
use wall_streets::contexts::proposal::{
    ApproveProposal, ApproveProposalBumps, InitializeProposal, InitializeProposalBumps,
};
use wall_streets::errors::{ExpensesError, UserError, WallError, WallStreetsError};
use wall_streets::pubkey::Pubkey;
use wall_streets::state::account::{Account, MintAccount, TokenAccount};
use wall_streets::state::multisig_state::Multisig;
use wall_streets::state::proposal_state::{OfferPrice, Proposal};
use wall_streets::state::user_state::{ArtistFeature, Role, User, MAP_TABLE_SIZE, MAX_LIFE_PROJECTS};
use wall_streets::state::wall_state::{Status, Wall};

fn key(n: u8) -> Pubkey {
    Pubkey([n; 32])
}

fn zero() -> Pubkey {
    Pubkey([0; 32])
}

fn blank_user() -> User {
    User {
        bump: 0,
        name: String::new(),
        wall_mints: [zero(); MAP_TABLE_SIZE],
        role: Role::Fun,
        is_artist: false,
        wall_seeds: 0,
    }
}

fn pending_wall() -> Wall {
    Wall {
        bump: 250,
        wall_seed: 0,
        wall_owner: key(1),
        wall_owner_user_account: key(11),
        artist: None,
        proposal: None,
        project_ata: key(21),
        budget: 200,
        status: Status::PENDING,
        proposal_seeds: 0,
        nft_bump: None,
    }
}

fn user_ctx() -> InitializeUser {
    InitializeUser { signer: key(1), user_account: Account { key: key(11), data: blank_user() } }
}

#[test]
fn initialize_user_sets_name_and_role() {
    let mut ctx = user_ctx();
    let r = ctx.initialize_user("alice".to_string(), 2, &InitializeUserBumps { user_account: 254 });
    assert_eq!(r, Ok(()));
    assert_eq!(ctx.user_account.data.name, "alice");
    assert_eq!(ctx.user_account.data.role, Role::WallOwner);
    assert_eq!(ctx.user_account.data.bump, 254);
    assert!(!ctx.user_account.data.is_artist);
    assert_eq!(ctx.user_account.data.wall_seeds, 0);
}

#[test]
fn initialize_user_maps_each_role_number() {
    for (n, role) in [(0u8, Role::Fun), (1, Role::Artist), (2, Role::WallOwner)] {
        let mut ctx = user_ctx();
        assert_eq!(ctx.initialize_user("bob".to_string(), n, &InitializeUserBumps { user_account: 1 }), Ok(()));
        assert_eq!(ctx.user_account.data.role, role);
        assert_eq!(role.number(), n);
    }
    assert_eq!(Role::from_number(3), None);
}

#[test]
fn initialize_user_rejects_empty_and_long_names() {
    let mut ctx = user_ctx();
    assert_eq!(
        ctx.initialize_user(String::new(), 1, &InitializeUserBumps { user_account: 1 }),
        Err(WallStreetsError::User(UserError::NameTooLong))
    );
    assert_eq!(
        ctx.initialize_user("a".repeat(33), 1, &InitializeUserBumps { user_account: 1 }),
        Err(WallStreetsError::User(UserError::NameTooLong))
    );
    assert_eq!(ctx.user_account.data, blank_user());
    assert_eq!(ctx.initialize_user("a".repeat(32), 1, &InitializeUserBumps { user_account: 1 }), Ok(()));
}

#[test]
fn initialize_user_counts_name_bytes_not_chars() {
    let mut ctx = user_ctx();
    // 17 two-byte characters are 34 bytes.
    assert_eq!(
        ctx.initialize_user("é".repeat(17), 1, &InitializeUserBumps { user_account: 1 }),
        Err(WallStreetsError::User(UserError::NameTooLong))
    );
    assert_eq!(ctx.initialize_user("é".repeat(16), 1, &InitializeUserBumps { user_account: 1 }), Ok(()));
}

#[test]
fn initialize_user_rejects_unknown_role() {
    let mut ctx = user_ctx();
    assert_eq!(
        ctx.initialize_user("carol".to_string(), 3, &InitializeUserBumps { user_account: 1 }),
        Err(WallStreetsError::User(UserError::InvalidRole))
    );
    assert_eq!(ctx.user_account.data, blank_user());
}

#[test]
fn initialize_artist_marks_user() {
    let mut user = blank_user();
    user.role = Role::Artist;
    let mut ctx = InitializeArtist {
        artist: key(2),
        user_account: Account { key: key(12), data: user },
        artist_feature: Account { key: key(32), data: ArtistFeature { bump: 0, offer_wall: [zero(); MAX_LIFE_PROJECTS] } },
    };
    assert_eq!(ctx.initialize_artist(&InitializeArtistBumps { artist_feature: 200 }), Ok(()));
    assert!(ctx.user_account.data.is_artist);
    assert_eq!(ctx.artist_feature.data.bump, 200);
}

#[test]
fn initialize_wall_uses_and_counts_wall_seed() {
    let mut owner = blank_user();
    owner.role = Role::WallOwner;
    owner.wall_seeds = 4;
    let mut ctx = InitializeWall {
        wall_owner: key(1),
        user_account: Account { key: key(11), data: owner },
        wall: Account { key: key(41), data: pending_wall() },
        project_ata: TokenAccount { key: key(21), amount: 0 },
    };
    assert_eq!(ctx.initialize_wall(300, &InitializeWallBumps { wall: 99 }), Ok(()));
    assert_eq!(
        ctx.wall.data,
        Wall {
            bump: 99,
            wall_seed: 4,
            wall_owner: key(1),
            wall_owner_user_account: key(11),
            artist: None,
            proposal: None,
            project_ata: key(21),
            budget: 300,
            status: Status::PENDING,
            proposal_seeds: 0,
            nft_bump: None,
        }
    );
    assert_eq!(ctx.user_account.data.wall_seeds, 5);
    assert_eq!(ctx.initialize_wall(50, &InitializeWallBumps { wall: 98 }), Ok(()));
    assert_eq!(ctx.wall.data.wall_seed, 5);
    assert_eq!(ctx.wall.data.budget, 50);
    assert_eq!(ctx.user_account.data.wall_seeds, 6);
}

fn proposal_ctx() -> InitializeProposal {
    let mut artist = blank_user();
    artist.role = Role::Artist;
    let mut owner = blank_user();
    owner.role = Role::WallOwner;
    InitializeProposal {
        artist: key(2),
        wall_owner: key(1),
        artist_user_account: Account { key: key(12), data: artist },
        wall_owner_user_account: Account { key: key(11), data: owner },
        artist_feature: Account { key: key(32), data: ArtistFeature { bump: 7, offer_wall: [zero(); MAX_LIFE_PROJECTS] } },
        wall: Account { key: key(41), data: pending_wall() },
        proposal: Account {
            key: key(51),
            data: Proposal {
                bump: 0,
                proposal_seed: 0,
                artist: zero(),
                wall: zero(),
                offer_price: OfferPrice { cost: 0, profit: 0 },
                status: Status::PENDING,
            },
        },
    }
}

#[test]
fn initialize_proposal_records_offer() {
    let mut ctx = proposal_ctx();
    ctx.wall.data.proposal_seeds = 3;
    let price = OfferPrice { cost: 100, profit: 50 };
    assert_eq!(ctx.initialize_proposal(price, &InitializeProposalBumps { proposal: 77 }), Ok(()));
    assert_eq!(
        ctx.proposal.data,
        Proposal { bump: 77, proposal_seed: 3, artist: key(12), wall: key(41), offer_price: price, status: Status::PENDING }
    );
    assert_eq!(ctx.artist_feature.data.offer_wall[0], key(51));
    assert_eq!(ctx.artist_feature.data.offer_wall[1], zero());
    assert_eq!(ctx.wall.data.proposal_seeds, 4);
}

#[test]
fn initialize_proposal_refuses_offers_above_budget() {
    let mut ctx = proposal_ctx();
    let r = ctx.initialize_proposal(OfferPrice { cost: 150, profit: 51 }, &InitializeProposalBumps { proposal: 77 });
    assert_eq!(r, Err(WallStreetsError::Wall(WallError::OfferExceedsBudget)));
    assert_eq!(ctx.wall.data, pending_wall());
    assert_eq!(ctx.artist_feature.data.offer_wall, [zero(); MAX_LIFE_PROJECTS]);
    let r = ctx.initialize_proposal(OfferPrice { cost: u64::MAX, profit: 1 }, &InitializeProposalBumps { proposal: 77 });
    assert_eq!(r, Err(WallStreetsError::Wall(WallError::OfferExceedsBudget)));
    let r = ctx.initialize_proposal(OfferPrice { cost: 150, profit: 50 }, &InitializeProposalBumps { proposal: 77 });
    assert_eq!(r, Ok(()));
}

#[test]
fn push_offer_wall_fills_first_free_slot_and_keeps_others() {
    let mut ctx = proposal_ctx();
    ctx.artist_feature.data.offer_wall[0] = key(60);
    ctx.artist_feature.data.offer_wall[2] = key(62);
    assert_eq!(ctx.push_offer_wall(), Ok(()));
    assert_eq!(ctx.artist_feature.data.offer_wall[0], key(60));
    assert_eq!(ctx.artist_feature.data.offer_wall[1], key(51));
    assert_eq!(ctx.artist_feature.data.offer_wall[2], key(62));
    assert_eq!(ctx.artist_feature.data.offer_wall[3], zero());
}

#[test]
fn initialize_proposal_fails_without_free_slot() {
    let mut ctx = proposal_ctx();
    ctx.artist_feature.data.offer_wall = [key(60); MAX_LIFE_PROJECTS];
    let r = ctx.initialize_proposal(OfferPrice { cost: 1, profit: 1 }, &InitializeProposalBumps { proposal: 1 });
    assert_eq!(r, Err(WallStreetsError::Wall(WallError::NoSpaceAvailable)));
    assert_eq!(ctx.wall.data.proposal_seeds, 0);
    assert_eq!(ctx.proposal.data.bump, 0);
    assert_eq!(ctx.artist_feature.data.offer_wall, [key(60); MAX_LIFE_PROJECTS]);
}

fn approve_ctx() -> ApproveProposal {
    let mut artist = blank_user();
    artist.role = Role::Artist;
    let mut owner = blank_user();
    owner.role = Role::WallOwner;
    ApproveProposal {
        wall_owner: key(1),
        artist: key(2),
        artist_user_account: Account { key: key(12), data: artist },
        wall_owner_user_account: Account { key: key(11), data: owner },
        wall: Account { key: key(41), data: pending_wall() },
        proposal: Account {
            key: key(51),
            data: Proposal {
                bump: 5,
                proposal_seed: 0,
                artist: key(12),
                wall: key(41),
                offer_price: OfferPrice { cost: 100, profit: 50 },
                status: Status::PENDING,
            },
        },
        usdc_mint: MintAccount { key: key(25), decimals: 6 },
        project_ata: TokenAccount { key: key(21), amount: 0 },
        wall_owner_ata: TokenAccount { key: key(22), amount: 1000 },
        multisig: Account {
            key: key(61),
            data: Multisig {
                bump: 0,
                wall: zero(),
                wall_owner: zero(),
                artist: zero(),
                is_wall_owner_signed: false,
                is_artist_signed: false,
                is_kick_off: false,
                is_settled: false,
            },
        },
    }
}

#[test]
fn approve_proposal_makes_draft() {
    let mut ctx = approve_ctx();
    assert_eq!(ctx.approve_proposal(), Ok(()));
    assert_eq!(ctx.wall.data.artist, Some(key(2)));
    assert_eq!(ctx.wall.data.proposal, Some(key(51)));
    assert_eq!(ctx.wall.data.status, Status::DRAFT);
    assert_eq!(ctx.proposal.data.status, Status::DRAFT);
}

#[test]
fn approve_proposal_errors() {
    let mut ctx = approve_ctx();
    ctx.proposal.data.artist = key(13);
    assert_eq!(ctx.approve_proposal(), Err(WallStreetsError::User(UserError::InvalidArtist)));
    assert_eq!(ctx.wall.data, pending_wall());

    let mut ctx = approve_ctx();
    ctx.wall.data.status = Status::ACTIVE;
    assert_eq!(ctx.approve_proposal(), Err(WallStreetsError::Wall(WallError::UnexpectedStatus)));

    let mut ctx = approve_ctx();
    ctx.wall.data.proposal = Some(key(52));
    assert_eq!(ctx.approve_proposal(), Err(WallStreetsError::Wall(WallError::ProposalExsits)));
    assert_eq!(ctx.proposal.data.status, Status::PENDING);
}

#[test]
fn deposit_expenses_checks_offer_and_balance() {
    let mut ctx = approve_ctx();
    assert_eq!(
        ctx.deposit_expenses(149),
        Err(WallStreetsError::Expenses(ExpensesError::InsufficientDeposit))
    );
    ctx.wall_owner_ata.amount = 160;
    assert_eq!(
        ctx.deposit_expenses(170),
        Err(WallStreetsError::Expenses(ExpensesError::InsufficientTokenBalance))
    );
    let t = ctx.deposit_expenses(150).unwrap();
    assert_eq!(t.from, key(22));
    assert_eq!(t.to, key(21));
    assert_eq!(t.authority, key(1));
    assert_eq!(t.amount, 150);
    assert_eq!((t.mint, t.decimals), (key(25), 6));
    assert_eq!(t.signer_seeds, None);
}

#[test]
fn initialize_multisig_starts_unsigned() {
    let mut ctx = approve_ctx();
    assert_eq!(ctx.initialize_multising_account(&ApproveProposalBumps { multisig: 9 }), Ok(()));
    assert_eq!(
        ctx.multisig.data,
        Multisig {
            bump: 9,
            wall: key(41),
            wall_owner: key(1),
            artist: key(2),
            is_wall_owner_signed: false,
            is_artist_signed: false,
            is_kick_off: false,
            is_settled: false,
        }
    );
}

#[test]
fn cancel_after_approve_restores_the_wall() {
    let mut approve = approve_ctx();
    assert_eq!(approve.approve_proposal(), Ok(()));
    let deposit = approve.deposit_expenses(150).unwrap();
    assert_eq!(approve.initialize_multising_account(&ApproveProposalBumps { multisig: 9 }), Ok(()));
    // The token program makes the deposit.
    assert_eq!((deposit.from, deposit.to), (key(22), key(21)));
    let owner_after_deposit = approve.wall_owner_ata.amount - deposit.amount;
    let vault_after_deposit = approve.project_ata.amount + deposit.amount;
    let mut cancel = CancelProject {
        signer: key(1),
        artist: key(2),
        multisig: approve.multisig,
        wall_owner: key(1),
        usdc_mint: MintAccount { key: key(25), decimals: 6 },
        wall_owner_user_account: approve.wall_owner_user_account,
        wall: approve.wall,
        project_ata: TokenAccount { key: key(21), amount: vault_after_deposit },
        wall_owner_ata: TokenAccount { key: key(22), amount: owner_after_deposit },
        proposal: approve.proposal,
    };
    assert_eq!(cancel.cancel_project(), Ok(()));
    assert_eq!(cancel.wall.data, pending_wall());
    // The refund gives the whole deposit back.
    let refund = cancel.refund_project_deposit().unwrap();
    assert_eq!((refund.from, refund.to), (key(21), key(22)));
    assert_eq!(vault_after_deposit - refund.amount, 0);
    assert_eq!(owner_after_deposit + refund.amount, 1000);
}

#[test]
fn approved_project_can_be_kicked_off_by_both_parties() {
    let mut approve = approve_ctx();
    assert_eq!(approve.approve_proposal(), Ok(()));
    assert_eq!(approve.initialize_multising_account(&ApproveProposalBumps { multisig: 9 }), Ok(()));
    let mut kick = KickOffProject {
        signer: key(1),
        artist: key(2),
        multisig: approve.multisig,
        wall_owner: key(1),
        wall_owner_user_account: approve.wall_owner_user_account,
        wall: approve.wall,
    };
    assert_eq!(kick.kick_off_project(), Ok(()));
    assert_eq!(kick.wall.data.status, Status::DRAFT);
    kick.signer = key(2);
    assert_eq!(kick.kick_off_project(), Ok(()));
    assert_eq!(kick.wall.data.status, Status::ACTIVE);
    assert!(kick.multisig.data.is_kick_off);
}
