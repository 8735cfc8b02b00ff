use vstd::prelude::*;

verus! {

/// Errors about user accounts and roles.
#[derive(Debug, Clone, Copy, PartialEq, Eq, Structural)]
pub enum UserError {
    NameTooLong,
    InvalidRole,
    UnauthorizedRole,
    InvalidArtist,
}

/// Errors about walls and their offers.
#[derive(Debug, Clone, Copy, PartialEq, Eq, Structural)]
pub enum WallError {
    NoSpaceAvailable,
    UnexpectedStatus,
    ProposalExsits,
    InvalidBudget,
    UnmuchedProposal,
    OfferExceedsBudget,
}

/// Errors about the escrowed budget and the recorded expenses.
#[derive(Debug, Clone, Copy, PartialEq, Eq, Structural)]
pub enum ExpensesError {
    InsufficientDeposit,
    InsufficientTokenBalance,
    ExceedsBudget,
}

/// Errors about the two-party signature account.
#[derive(Debug, Clone, Copy, PartialEq, Eq, Structural)]
pub enum MultisigError {
    InvalidMultisigSigners,
    NotEnoughtSigners,
    AlreadySigned,
    UnauthorizedSigner,
    NotCancelBool,
    RequireKickOffStatus,
}

/// Errors about the contract NFT.
#[derive(Debug, Clone, Copy, PartialEq, Eq, Structural)]
pub enum ContractError {
    InvalidTokenBalance,
    EditionsExhausted,
}

/// Every way an instruction of the program can fail.
#[derive(Debug, Clone, Copy, PartialEq, Eq, Structural)]
pub enum WallStreetsError {
    User(UserError),
    Wall(WallError),
    Expenses(ExpensesError),
    Multisig(MultisigError),
    Contract(ContractError),
    /// The runtime answered an error of its own (by its `ProgramError` code),
    /// such as when it cannot provide the clock sysvar.
    Runtime(u64),
}

impl UserError {
    /// The message shown to clients for this error.
    pub fn message(&self) -> (r: &'static str)
        ensures
            r@ == (match self {
                UserError::NameTooLong => "Name must be between 1 and 32 characters"@,
                UserError::InvalidRole => "Role numbers must be 0, 1 and 2"@,
                UserError::UnauthorizedRole => "Unauthorized role"@,
                UserError::InvalidArtist => "Invalid artist"@,
            }),
    {
        match self {
            UserError::NameTooLong => "Name must be between 1 and 32 characters",
            UserError::InvalidRole => "Role numbers must be 0, 1 and 2",
            UserError::UnauthorizedRole => "Unauthorized role",
            UserError::InvalidArtist => "Invalid artist",
        }
    }
}

impl WallError {
    /// The message shown to clients for this error.
    pub fn message(&self) -> (r: &'static str)
        ensures
            r@ == (match self {
                WallError::NoSpaceAvailable => "Not space available"@,
                WallError::UnexpectedStatus => "Unexpected status"@,
                WallError::ProposalExsits => "Wall already has an arrpvoed proposal"@,
                WallError::InvalidBudget => "Invalid budget"@,
                WallError::UnmuchedProposal => "Unmatched proposal"@,
                WallError::OfferExceedsBudget => "The offer exceeds the wall's budget"@,
            }),
    {
        match self {
            WallError::NoSpaceAvailable => "Not space available",
            WallError::UnexpectedStatus => "Unexpected status",
            WallError::ProposalExsits => "Wall already has an arrpvoed proposal",
            WallError::InvalidBudget => "Invalid budget",
            WallError::UnmuchedProposal => "Unmatched proposal",
            WallError::OfferExceedsBudget => "The offer exceeds the wall's budget",
        }
    }
}

impl ExpensesError {
    /// The message shown to clients for this error.
    pub fn message(&self) -> (r: &'static str)
        ensures
            r@ == (match self {
                ExpensesError::InsufficientDeposit => "The deposit amount must meet the offer_price"@,
                ExpensesError::InsufficientTokenBalance => "insufficient token amount"@,
                ExpensesError::ExceedsBudget => "Expenses exceed the budget"@,
            }),
    {
        match self {
            ExpensesError::InsufficientDeposit => "The deposit amount must meet the offer_price",
            ExpensesError::InsufficientTokenBalance => "insufficient token amount",
            ExpensesError::ExceedsBudget => "Expenses exceed the budget",
        }
    }
}

impl MultisigError {
    /// The message shown to clients for this error.
    pub fn message(&self) -> (r: &'static str)
        ensures
            r@ == (match self {
                MultisigError::InvalidMultisigSigners => "Invalid multisig signers"@,
                MultisigError::NotEnoughtSigners => "not enought signers"@,
                MultisigError::AlreadySigned => "already signed"@,
                MultisigError::UnauthorizedSigner => "UnauthorizedSigner"@,
                MultisigError::NotCancelBool => "multisig not cancel bool"@,
                MultisigError::RequireKickOffStatus => "The project has not been kicked off"@,
            }),
    {
        match self {
            MultisigError::InvalidMultisigSigners => "Invalid multisig signers",
            MultisigError::NotEnoughtSigners => "not enought signers",
            MultisigError::AlreadySigned => "already signed",
            MultisigError::UnauthorizedSigner => "UnauthorizedSigner",
            MultisigError::NotCancelBool => "multisig not cancel bool",
            MultisigError::RequireKickOffStatus => "The project has not been kicked off",
        }
    }
}

impl ContractError {
    /// The message shown to clients for this error.
    pub fn message(&self) -> (r: &'static str)
        ensures
            r@ == (match self {
                ContractError::InvalidTokenBalance => "The master token is not held by the archive"@,
                ContractError::EditionsExhausted => "Every edition of the contract has been printed"@,
            }),
    {
        match self {
            ContractError::InvalidTokenBalance => "The master token is not held by the archive",
            ContractError::EditionsExhausted => "Every edition of the contract has been printed",
        }
    }
}

} // verus!
