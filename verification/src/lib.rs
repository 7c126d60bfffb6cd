//! Verified core of a fungible-asset issuance program.
//!
//! The library models the accounts an issuance touches, computes the fee
//! schedule, validates the token parameters, derives the deterministic
//! holding-account and metadata addresses, and sequences the external
//! invocations of one atomic issuance unit.  A small governance component
//! manages an admin-gated disclosure record.

mod addresses;
mod config;
mod errors;
mod fees;
mod governance;
mod instructions;
mod issuance;
mod records;
mod validation;

pub use addresses::{
    address_eq, base58_decoded, derive_governance_address, derive_holding_address,
    derive_metadata_address, governance_tag, holding_tag,
    lemma_holding_derivation_deterministic, metadata_tag, pda_of, seeds_view,
    spec_governance_address, spec_holding_address, spec_metadata_address, Address,
};
pub use config::{Config, BASE_FEE, REVOKE_DISCOUNT};
pub use errors::ErrorCode;
pub use governance::{
    default_security_text, initialize_security, update_security, InitializeSecurity,
    ProgramSecurity, ReentrancyGuard, UpdateSecurity, MAX_SECURITY_TEXT,
};
pub use instructions::{build_call, compile_calls, AuthorityKind};
pub use issuance::{
    call_desc_wf, call_wf, create_token, issuance_calls, issuance_error, issuance_success,
    lemma_decimals_rejected, lemma_issuance_all_revocations, lemma_issuance_no_revocations,
    lemma_issuance_succeeds, lemma_reissuance_rejected, lemma_supply_overflow_rejected,
    pre_holding_steps_pass, AssetHandle, CallDesc, CreateToken, ExternalCall,
};
pub use records::{held_by, AssetRecord, Capability, HoldingAccount, MetadataRecord};
pub use validation::{
    decimals_ok, lemma_pow10_mono, lemma_pow10_pos, name_ok, pow10, pow10_u64, scale_supply,
    scaled_supply, supply_fits, supply_ok, symbol_ok, uri_ok, validate_token_params,
    validation_result,
};
pub use fees::{
    compute_fee, discount_total, fee_ok, fee_value, lemma_fee_monotonic,
    lemma_fee_never_underflows,
};
