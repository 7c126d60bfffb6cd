//! Input validation for an issuance, and the checked scaling of the
//! initial supply by the decimal precision.

use vstd::prelude::*;

use crate::errors::ErrorCode;
use vstd::string::StrSliceExecFns;

verus! {

/// A token name holds between 1 and 32 characters.
pub open spec fn name_ok(name: Seq<char>) -> bool {
    1 <= name.len() <= 32
}

/// A token symbol holds between 1 and 10 characters.
pub open spec fn symbol_ok(symbol: Seq<char>) -> bool {
    1 <= symbol.len() <= 10
}

/// Decimal precision is at most 18.
pub open spec fn decimals_ok(decimals: u8) -> bool {
    decimals <= 18
}

/// A content URI is non-empty.
pub open spec fn uri_ok(uri: Seq<char>) -> bool {
    uri.len() >= 1
}

/// The initial supply is positive.
pub open spec fn supply_ok(initial_supply: u64) -> bool {
    initial_supply > 0
}

/// What validation decides, with the first failing constraint naming the
/// error: name, then symbol, then decimals, then URI, then supply.
pub open spec fn validation_result(
    name: Seq<char>,
    symbol: Seq<char>,
    decimals: u8,
    uri: Seq<char>,
    initial_supply: u64,
) -> Result<(), ErrorCode> {
    if !name_ok(name) {
        Err(ErrorCode::InvalidTokenName)
    } else if !symbol_ok(symbol) {
        Err(ErrorCode::InvalidTokenSymbol)
    } else if !decimals_ok(decimals) {
        Err(ErrorCode::InvalidDecimals)
    } else if !uri_ok(uri) {
        Err(ErrorCode::InvalidUri)
    } else if !supply_ok(initial_supply) {
        Err(ErrorCode::InvalidInitialSupply)
    } else {
        Ok(())
    }
}

/// Validates the issuance parameters.  Passes iff every constraint holds;
/// otherwise reports the first failing constraint's error.
pub fn validate_token_params(
    name: &str,
    symbol: &str,
    decimals: u8,
    uri: &str,
    initial_supply: u64,
) -> (r: Result<(), ErrorCode>)
    ensures
        r == validation_result(name@, symbol@, decimals, uri@, initial_supply),
        r is Ok <==> name_ok(name@) && symbol_ok(symbol@) && decimals_ok(decimals) && uri_ok(uri@)
            && supply_ok(initial_supply),
{
    let name_len = name.unicode_len();
    if name_len < 1 || name_len > 32 {
        return Err(ErrorCode::InvalidTokenName);
    }
    let symbol_len = symbol.unicode_len();
    if symbol_len < 1 || symbol_len > 10 {
        return Err(ErrorCode::InvalidTokenSymbol);
    }
    if decimals > 18 {
        return Err(ErrorCode::InvalidDecimals);
    }
    if uri.unicode_len() < 1 {
        return Err(ErrorCode::InvalidUri);
    }
    if initial_supply == 0 {
        return Err(ErrorCode::InvalidInitialSupply);
    }
    Ok(())
}

/// Ten to the given power.
pub open spec fn pow10(n: nat) -> nat
    decreases n,
{
    if n == 0 {
        1
    } else {
        10 * pow10((n - 1) as nat)
    }
}

/// The balance units an issuance mints: the supply scaled by precision.
pub open spec fn scaled_supply(initial_supply: u64, decimals: u8) -> int {
    initial_supply * pow10(decimals as nat)
}

/// Whether the scaled supply fits the platform's unsigned 64-bit balance.
pub open spec fn supply_fits(initial_supply: u64, decimals: u8) -> bool {
    scaled_supply(initial_supply, decimals) <= u64::MAX
}

pub proof fn lemma_pow10_pos(n: nat)
    ensures
        pow10(n) >= 1,
    decreases n,
{
    if n > 0 {
        lemma_pow10_pos((n - 1) as nat);
    }
}

pub proof fn lemma_pow10_mono(a: nat, b: nat)
    requires
        a <= b,
    ensures
        pow10(a) <= pow10(b),
    decreases b,
{
    if a < b {
        lemma_pow10_mono(a, (b - 1) as nat);
        lemma_pow10_pos((b - 1) as nat);
    }
}

proof fn lemma_pow10_18()
    ensures
        pow10(18) == 1_000_000_000_000_000_000,
{
    reveal_with_fuel(pow10, 19);
}

/// Computes ten to the given power, which fits a `u64` for precision up
/// to 18.
pub fn pow10_u64(decimals: u8) -> (r: u64)
    requires
        decimals <= 18,
    ensures
        r == pow10(decimals as nat),
{
    let mut r: u64 = 1;
    let mut i: u8 = 0;
    while i < decimals
        invariant
            i <= decimals <= 18,
            r == pow10(i as nat),
        decreases decimals - i,
    {
        proof {
            lemma_pow10_mono((i + 1) as nat, 18);
            lemma_pow10_18();
        }
        r = r * 10;
        i = i + 1;
    }
    r
}

/// Scales the initial supply by the decimal precision with checked
/// multiplication: the exact product, or `None` iff it overflows the
/// 64-bit balance representation.
pub fn scale_supply(initial_supply: u64, decimals: u8) -> (r: Option<u64>)
    requires
        decimals <= 18,
    ensures
        supply_fits(initial_supply, decimals) <==> r is Some,
        r is Some ==> r->0 == scaled_supply(initial_supply, decimals),
{
    let factor = pow10_u64(decimals);
    initial_supply.checked_mul(factor)
}

} // verus!
