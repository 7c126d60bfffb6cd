//! The governance ledger: one admin-gated disclosure record, created once
//! and updated only by the stored administrator.

use vstd::prelude::*;

use crate::addresses::{address_eq, Address};
use crate::errors::ErrorCode;
use vstd::string::{StrSliceExecFns, StringExecFns};

verus! {

/// The longest disclosure text accepted, in characters.
pub const MAX_SECURITY_TEXT: usize = 1000;

/// The governance record: administrator, disclosure text, a version
/// counter that grows by one per successful update, and the time of the
/// last change.
#[derive(Debug)]
pub struct ProgramSecurity {
    pub admin: Address,
    pub security_txt: String,
    pub version: u32,
    pub last_updated: i64,
}

/// A reentrancy stamp: the time a unit last ran under the guard's
/// account.  Reserved account layout; no issuance or governance unit
/// reads it.
#[derive(Debug)]
pub struct ReentrancyGuard {
    pub last_execution: i64,
}

/// The accounts an initialization touches: the record slot at the
/// well-known governance address, and the calling authority.
#[derive(Debug)]
pub struct InitializeSecurity {
    pub security: Option<ProgramSecurity>,
    pub authority: Address,
}

/// The accounts an update touches: the existing record and the calling
/// authority.
#[derive(Debug)]
pub struct UpdateSecurity {
    pub security: ProgramSecurity,
    pub authority: Address,
}

/// The disclosure text a fresh record carries.
pub fn default_security_text() -> (s: String)
    ensures
        s@ == "Contact: support@swapforge.app\nWebsite: https://swapforge.app/\nTwitter: https://x.com/SwapForgeApp\nPolicy: https://swapforge.app/security\nEncryption: https://swapforge.app/pgp-key.txt"@,
{
    String::from_str(
        "Contact: support@swapforge.app\nWebsite: https://swapforge.app/\nTwitter: https://x.com/SwapForgeApp\nPolicy: https://swapforge.app/security\nEncryption: https://swapforge.app/pgp-key.txt",
    )
}

/// Creates the governance record exactly once.
///
/// The first call installs the caller as administrator, with the default
/// disclosure text, version 0 and the given time.  Any call that finds a
/// record in place fails with `AlreadyInitialized` and changes nothing:
/// the first call's administrator and content survive.
pub fn initialize_security(accounts: &mut InitializeSecurity, now: i64) -> (r: Result<
    (),
    ErrorCode,
>)
    ensures
        final(accounts).authority == old(accounts).authority,
        r is Ok <==> old(accounts).security is None,
        match r {
            Ok(()) => final(accounts).security matches Some(rec)
                && rec.admin@ == old(accounts).authority@ && rec.security_txt@
                == "Contact: support@swapforge.app\nWebsite: https://swapforge.app/\nTwitter: https://x.com/SwapForgeApp\nPolicy: https://swapforge.app/security\nEncryption: https://swapforge.app/pgp-key.txt"@
                && rec.version == 0 && rec.last_updated == now,
            Err(e) => e == ErrorCode::AlreadyInitialized && *final(accounts) == *old(accounts),
        },
{
    match accounts.security {
        Some(_) => Err(ErrorCode::AlreadyInitialized),
        None => {
            let admin = accounts.authority.dup();
            let txt = default_security_text();
            proof {
                assert(admin@ == accounts.authority@);
            }
            accounts.security = Some(
                ProgramSecurity { admin, security_txt: txt, version: 0, last_updated: now },
            );
            Ok(())
        },
    }
}

/// Replaces the disclosure text, administrator only.
///
/// Fails with `UnauthorizedSigner` iff the caller is not the stored
/// administrator, else with `ContentTooLong` iff the new text exceeds
/// 1000 characters; a failed call changes nothing.  A successful call
/// installs the new text, raises the version by exactly one and stamps
/// the given time; the administrator never changes.  Only a call that
/// would succeed needs headroom on the version counter; a rejected call
/// is in the contract whatever the counter holds.
pub fn update_security(accounts: &mut UpdateSecurity, new_content: String, now: i64) -> (r: Result<
    (),
    ErrorCode,
>)
    requires
        old(accounts).authority@ == old(accounts).security.admin@ && new_content@.len() <= 1000
            ==> old(accounts).security.version < u32::MAX,
    ensures
        final(accounts).authority == old(accounts).authority,
        final(accounts).security.admin == old(accounts).security.admin,
        r is Ok <==> old(accounts).authority@ == old(accounts).security.admin@
            && new_content@.len() <= 1000,
        match r {
            Ok(()) => final(accounts).security.security_txt@ == new_content@
                && final(accounts).security.version == old(accounts).security.version + 1
                && final(accounts).security.last_updated == now,
            Err(e) => *final(accounts) == *old(accounts)
                && (e == ErrorCode::UnauthorizedSigner
                    <==> old(accounts).authority@ != old(accounts).security.admin@)
                && (e == ErrorCode::ContentTooLong
                    <==> old(accounts).authority@ == old(accounts).security.admin@
                        && new_content@.len() > 1000),
        },
{
    if !address_eq(&accounts.authority, &accounts.security.admin) {
        return Err(ErrorCode::UnauthorizedSigner);
    }
    if new_content.as_str().unicode_len() > MAX_SECURITY_TEXT {
        return Err(ErrorCode::ContentTooLong);
    }
    accounts.security.security_txt = new_content;
    accounts.security.version = accounts.security.version + 1;
    accounts.security.last_updated = now;
    Ok(())
}

} // verus!
