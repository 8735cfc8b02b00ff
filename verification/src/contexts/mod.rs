pub mod close_accounts;
pub mod expenses;
pub mod initialize_artist;
pub mod initialize_user;
pub mod initialize_wall;
pub mod multisig;
pub mod nft_contract;
pub mod proposal;
pub mod settle;
