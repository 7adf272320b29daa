//! Error taxonomy of the settlement engine.
//!
//! Every settlement operation validates its inputs eagerly, front-loaded
//! before any value movement; the first failing check aborts the whole
//! operation with one of these errors and no partial effect.

use vstd::prelude::*;

verus! {

/// The errors a settlement operation can abort with.
#[derive(Clone, Copy, Debug, PartialEq, Eq, Structural)]
pub enum MscError {
    /// The token configuration was already initialized.
    TokenAlreadyInitialized,
    /// A custody account holds less than the amount to be moved.
    InsufficientBalance,
    /// The acting identity is not the recorded administrator.
    InvalidAuthority,
    /// The mint identity does not match the recorded one.
    InvalidMint,
    /// A claim for this content fingerprint already exists.
    FileHashExists,
    /// The content fingerprint is not a 64-character hexadecimal string.
    InvalidFileHash,
    /// No active claim was found.
    ClaimNotFound,
    /// A claim record for this (owner, fingerprint) pair already occupies
    /// its deterministic address.
    ClaimAlreadyExists,
    /// The service type is outside the fixed price table.
    InvalidServiceType,
    /// The offered amount is below the price of the requested service.
    PaymentAmountTooLow,
    /// A payment record already occupies its deterministic address.
    PaymentAlreadyProcessed,
    /// The exchange pool is not accepting swaps.
    ExchangePoolNotActive,
    /// A new exchange rate must be positive.
    InvalidExchangeRate,
    /// The realized output fell outside the accepted slippage bound.
    SlippageExceeded,
    /// The pool's output-token vault cannot cover the computed output.
    InsufficientLiquidity,
    /// A fee rate must stay within the basis-point range.
    InvalidFeeRate,
    /// The swap input is below the minimum swap amount.
    SwapAmountTooSmall,
    /// The swap input is above the maximum swap amount.
    SwapAmountTooLarge,
    /// The price feed could not be read.
    OraclePriceFeedError,
    /// A checked addition or multiplication exceeded the 64-bit range.
    MathOverflow,
    /// A checked subtraction went below zero.
    MathUnderflow,
    /// A checked division had a zero divisor.
    DivisionByZero,
    /// The supplied timestamp is not acceptable.
    InvalidTimestamp,
    /// The operation is not permitted in the current state.
    OperationNotAllowed,
    /// A required record has not been initialized.
    AccountNotInitialized,
    /// The record is not owned by the acting identity.
    InvalidAccountOwner,
    /// The custody transfer primitive failed.
    TokenTransferFailed,
    /// The recipient is not acceptable for this operation.
    InvalidRecipient,
    /// A batch airdrop listed more recipients than the bound allows.
    AirdropLimitExceeded,
}

} // verus!
