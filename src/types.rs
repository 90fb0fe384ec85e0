use vstd::prelude::*;

verus! {

/// A token-holding account of the ledger: which asset it holds, who may
/// spend from it, and its balance.
#[derive(Clone, Copy, Debug, PartialEq, Eq)]
pub struct TokenAccount {
    pub mint: u64,
    pub owner: u64,
    pub amount: u64,
}

/// The persistent record of one escrow.
#[derive(Clone, Copy, Debug, PartialEq, Eq)]
pub struct Escrow {
    pub initializer: u64,
    pub initializer_token_account: u64,
    pub expected_taker_amount: u64,
    pub seed: u64,
    pub is_completed: bool,
    pub created_at: i64,
    pub bump: u8,
}

/// An escrow record together with the vault it controls. The vault's
/// spending authority is the escrow record itself, so the two are created
/// and closed together.
#[derive(Clone, Copy, Debug, PartialEq, Eq)]
pub struct EscrowEntry {
    pub escrow: Escrow,
    pub vault_mint: u64,
    pub vault_amount: u64,
}

/// Failures of the escrow operations and of the ledger transfers they make.
#[derive(Clone, Copy, Debug, PartialEq, Eq)]
pub enum EscrowError {
    /// A deposit or an expected amount of zero.
    InvalidAmount,
    /// The escrow is not open any more.
    EscrowAlreadyCompleted,
    /// The signer is not the party the operation requires.
    Unauthorized,
    /// An escrow (or an account) already stands at that address.
    AlreadyExists,
    /// No escrow or account stands at that address.
    NotFound,
    /// The source account holds less than the amount to move.
    InsufficientFunds,
    /// The two sides of a transfer hold different assets.
    MintMismatch,
    /// A credit would take a balance past `u64::MAX`.
    Overflow,
}

/// The accounts handed to `initialize_escrow`.
#[derive(Clone, Copy, Debug, PartialEq, Eq)]
pub struct InitializeEscrow {
    /// The signing party that deposits.
    pub initializer: u64,
    /// The asset deposited.
    pub mint: u64,
    /// The account the deposit is drawn from.
    pub initializer_deposit_token_account: u64,
    /// The clock's current unix timestamp.
    pub unix_timestamp: i64,
}

/// The accounts handed to `cancel_escrow`.
#[derive(Clone, Copy, Debug, PartialEq, Eq)]
pub struct CancelEscrow {
    /// The signing party.
    pub initializer: u64,
    /// The address of the escrow to cancel.
    pub escrow: u128,
    /// The account that receives the vault's balance; it must be the one
    /// the escrow recorded at creation.
    pub initializer_deposit_token_account: u64,
}

/// The accounts handed to `exchange`.
#[derive(Clone, Copy, Debug, PartialEq, Eq)]
pub struct Exchange {
    /// The signing party that takes the trade.
    pub taker: u64,
    /// The taker's account of the counter-asset, debited.
    pub taker_deposit_token_account: u64,
    /// The taker's account that receives the vault's balance.
    pub taker_receive_token_account: u64,
    /// The escrow's initializer.
    pub initializer: u64,
    /// The initializer's account that receives the counter-asset; it must be
    /// owned by the escrow's initializer.
    pub initializer_receive_token_account: u64,
    /// The address of the escrow to fulfil.
    pub escrow: u128,
}

} // verus!
