//! Fee schedule for an issuance: a base fee, discounted once for every
//! capability the issuer asks to revoke.  The subtraction is checked; an
//! underflow is a hard error, never a silent clamp.

use vstd::prelude::*;

use crate::errors::ErrorCode;

verus! {

/// Lamports discounted from the base fee, given the three revocation flags.
/// A discount applies exactly to each capability whose revocation is
/// requested (the issuer pays less for a token with fewer retained powers).
pub open spec fn discount_total(discount: u64, revoke_mint: bool, revoke_freeze: bool, revoke_update: bool) -> int {
    (if revoke_mint { discount as int } else { 0 })
        + (if revoke_freeze { discount as int } else { 0 })
        + (if revoke_update { discount as int } else { 0 })
}

/// The fee schedule admits a flag combination iff the discounts do not
/// exceed the base fee.
pub open spec fn fee_ok(base_fee: u64, discount: u64, revoke_mint: bool, revoke_freeze: bool, revoke_update: bool) -> bool {
    discount_total(discount, revoke_mint, revoke_freeze, revoke_update) <= base_fee
}

/// The lamports charged for an issuance with the given flags.
pub open spec fn fee_value(base_fee: u64, discount: u64, revoke_mint: bool, revoke_freeze: bool, revoke_update: bool) -> int {
    base_fee - discount_total(discount, revoke_mint, revoke_freeze, revoke_update)
}

/// Computes the issuance fee with checked subtraction.
///
/// Returns the exact scheduled fee, or `InvalidFeeCalculation` iff the
/// discounts for the requested revocations underflow the base fee.
pub fn compute_fee(base_fee: u64, discount: u64, revoke_mint: bool, revoke_freeze: bool, revoke_update: bool) -> (r: Result<u64, ErrorCode>)
    ensures
        fee_ok(base_fee, discount, revoke_mint, revoke_freeze, revoke_update) <==> r is Ok,
        r is Ok ==> r->Ok_0 == fee_value(base_fee, discount, revoke_mint, revoke_freeze, revoke_update),
        r is Err ==> r->Err_0 == ErrorCode::InvalidFeeCalculation,
{
    let d1: u64 = if revoke_mint { discount } else { 0 };
    let d2: u64 = if revoke_freeze { discount } else { 0 };
    let d3: u64 = if revoke_update { discount } else { 0 };
    let step1 = match base_fee.checked_sub(d1) {
        Some(v) => v,
        None => { return Err(ErrorCode::InvalidFeeCalculation); },
    };
    let step2 = match step1.checked_sub(d2) {
        Some(v) => v,
        None => { return Err(ErrorCode::InvalidFeeCalculation); },
    };
    match step2.checked_sub(d3) {
        Some(v) => Ok(v),
        None => Err(ErrorCode::InvalidFeeCalculation),
    }
}

/// Law: the fee never rises when more revocations are requested.  If the
/// first flag set is pointwise below the second, any flag combination the
/// schedule admits for the second it also admits for the first, and the
/// second fee is no larger than the first.
pub proof fn lemma_fee_monotonic(
    base_fee: u64,
    discount: u64,
    m1: bool, f1: bool, u1: bool,
    m2: bool, f2: bool, u2: bool,
)
    requires
        m1 ==> m2,
        f1 ==> f2,
        u1 ==> u2,
    ensures
        fee_ok(base_fee, discount, m2, f2, u2) ==> fee_ok(base_fee, discount, m1, f1, u1),
        fee_ok(base_fee, discount, m2, f2, u2) ==> fee_value(base_fee, discount, m2, f2, u2) <= fee_value(base_fee, discount, m1, f1, u1),
{
}

/// Law: whenever the base fee covers all three discounts, every flag
/// combination is admitted; the schedule can never underflow.
pub proof fn lemma_fee_never_underflows(base_fee: u64, discount: u64)
    requires
        3 * (discount as int) <= base_fee,
    ensures
        forall|m: bool, f: bool, u: bool| fee_ok(base_fee, discount, m, f, u),
{
}

} // verus!
