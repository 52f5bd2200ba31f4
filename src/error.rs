use vstd::prelude::*;

verus! {

/// Every way an operation of the distributor can fail.
#[derive(Clone, Copy, Debug, PartialEq, Eq, Structural)]
pub enum ErrorCode {
    /// The nonce does not derive the claimed vault authority at initialization.
    InvalidNonce,
    /// The escrow holds fewer contract units than asked for.
    InsufficientContractUnits,
    /// The escrow holds less settlement currency than asked for.
    InsufficientSettlementBalance,
    /// The escrow holds less reward currency than asked for.
    InsufficientRewardBalance,
    /// A transfer debits more than the source account holds.
    InsufficientBalance,
    /// An amount does not fit in 64 bits.
    ArithmeticOverflow,
    /// A missing signature, a non-admin caller, an escrow account other than the one the entry
    /// records, or an account owned by the wrong authority.
    Unauthorized,
    /// A transfer between accounts of two different assets.
    MintMismatch,
    /// The storage slot of a new entry already holds one.
    AlreadyInitialized,
}

impl ErrorCode {
    /// A human-readable description of the error.
    pub fn message(&self) -> (r: &'static str) {
        match self {
            ErrorCode::InvalidNonce => "Given nonce is invalid",
            ErrorCode::InsufficientContractUnits => "Insufficient no of contracts in the distributor",
            ErrorCode::InsufficientSettlementBalance => "Insufficient amount of usdc in distributor",
            ErrorCode::InsufficientRewardBalance => "Insufficient amount of ftr in distributor",
            ErrorCode::InsufficientBalance => "Insufficient funds in the source account",
            ErrorCode::ArithmeticOverflow => "Amount overflows a 64-bit integer",
            ErrorCode::Unauthorized => "Unauthorized",
            ErrorCode::MintMismatch => "Accounts hold different assets",
            ErrorCode::AlreadyInitialized => "Distributor account is already initialized",
        }
    }
}

} // verus!
