//! The records an issuance creates, and the one-way capability transition.

use vstd::prelude::*;

use crate::addresses::Address;
use crate::errors::ErrorCode;

verus! {

/// A revocable right over an asset or its metadata: held by exactly one
/// address, or permanently revoked.  No operation re-grants a revoked
/// capability.
#[derive(Debug)]
pub enum Capability {
    Held(Address),
    Revoked,
}

/// Whether a capability is held by the given address.
pub open spec fn held_by(c: Capability, owner: Seq<u8>) -> bool {
    c matches Capability::Held(a) && a@ == owner
}

impl Capability {
    /// The one-way transition: a held capability becomes revoked.
    /// Revoking twice is an explicit error, never a silent no-op, and
    /// leaves the capability revoked as it was.
    pub fn revoke(&mut self) -> (r: Result<(), ErrorCode>)
        ensures
            match r {
                Ok(()) => (*old(self)) is Held && (*final(self)) is Revoked,
                Err(e) => e == ErrorCode::AlreadyRevoked && (*old(self)) is Revoked
                    && *final(self) == *old(self),
            },
    {
        match self {
            Capability::Held(_) => {
                *self = Capability::Revoked;
                Ok(())
            },
            Capability::Revoked => Err(ErrorCode::AlreadyRevoked),
        }
    }
}

/// The asset record the issuance creates: precision, minted supply, and
/// the two asset-side capabilities.
#[derive(Debug)]
pub struct AssetRecord {
    pub address: Address,
    pub decimals: u8,
    pub supply: u64,
    pub mint_authority: Capability,
    pub freeze_authority: Capability,
}

/// The descriptive record attached to the asset in the metadata registry.
#[derive(Debug)]
pub struct MetadataRecord {
    pub address: Address,
    pub name: String,
    pub symbol: String,
    pub uri: String,
    pub is_mutable: bool,
    pub update_authority: Capability,
}

/// The deterministically derived account that custodies the issuer's
/// initial balance.
#[derive(Debug)]
pub struct HoldingAccount {
    pub address: Address,
    pub bump: u8,
    pub owner: Address,
    pub mint: Address,
    pub amount: u64,
}

} // verus!
