//! Error taxonomy of the issuance and governance operations.

use vstd::prelude::*;

verus! {

/// Every way an issuance or governance unit can be rejected.  A rejected
/// unit has no effect: the caller sees exactly one of these codes.
#[derive(Clone, Copy, Debug, PartialEq, Eq, Structural)]
pub enum ErrorCode {
    /// The governance record already exists.
    AlreadyInitialized,
    /// The caller is not the stored administrator.
    UnauthorizedSigner,
    /// The supplied treasury account is not the configured treasury.
    UnauthorizedTreasury,
    /// The payer cannot cover the issuance fee.
    InsufficientFunds,
    /// The fee discounts underflow the base fee.
    InvalidFeeCalculation,
    /// The derived holding account is already occupied.
    TokenAccountAlreadyInitialized,
    /// The holding account is owned by the wrong authority.
    InvalidTokenAccountOwner,
    /// The supplied metadata account does not match its derivation,
    /// or no valid derivation exists for the seed set.
    InvalidMetadataAccount,
    /// The token name is empty or longer than 32 characters.
    InvalidTokenName,
    /// The token symbol is empty or longer than 10 characters.
    InvalidTokenSymbol,
    /// The decimal precision exceeds 18.
    InvalidDecimals,
    /// The content URI is empty.
    InvalidUri,
    /// The initial supply is zero, or overflows when scaled by precision.
    InvalidInitialSupply,
    /// The disclosure text exceeds 1000 characters.
    ContentTooLong,
    /// A unit re-entered itself.
    ReentrancyDetected,
    /// The asset is not a fungible token.
    InvalidTokenStandard,
    /// A capability was asked to transition out of an already revoked state.
    AlreadyRevoked,
}

} // verus!
