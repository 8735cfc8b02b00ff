pub mod account;
pub mod expenses_state;
pub mod multisig_state;
pub mod proposal_state;
pub mod user_state;
pub mod wall_state;
