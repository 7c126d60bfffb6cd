//! The immutable configuration an orchestrator is constructed with: fee
//! constants and the well-known addresses.  The standard values are the
//! published external contract; tests may build alternates.

use vstd::prelude::*;

use crate::addresses::{base58_decoded, parse_address, Address};

verus! {

/// The standard base fee, in lamports.
pub const BASE_FEE: u64 = 200_000_000;

/// The standard per-capability discount, in lamports.
pub const REVOKE_DISCOUNT: u64 = 50_000_000;

/// The configuration of an issuance orchestrator.
#[derive(Debug)]
pub struct Config {
    /// The issuing program, under which holding accounts are derived.
    pub program_id: Address,
    /// Where collected fees go.
    pub treasury: Address,
    /// The metadata registry program.
    pub metadata_program: Address,
    /// The fee before discounts, in lamports.
    pub base_fee: u64,
    /// The discount per revoked capability, in lamports.
    pub revoke_discount: u64,
}

impl Config {
    /// A configuration is well formed when its three addresses are.
    pub open spec fn wf(&self) -> bool {
        self.program_id.wf() && self.treasury.wf() && self.metadata_program.wf()
    }

    /// Builds a configuration from its parts; rejects a malformed address.
    pub fn new(
        program_id: Address,
        treasury: Address,
        metadata_program: Address,
        base_fee: u64,
        revoke_discount: u64,
    ) -> (r: Option<Config>)
        ensures
            r is Some <==> program_id.wf() && treasury.wf() && metadata_program.wf(),
            r is Some ==> {
                let c = r->0;
                c.wf() && c.program_id@ == program_id@ && c.treasury@ == treasury@
                    && c.metadata_program@ == metadata_program@ && c.base_fee == base_fee
                    && c.revoke_discount == revoke_discount
            },
    {
        if program_id.bytes.len() == 32 && treasury.bytes.len() == 32
            && metadata_program.bytes.len() == 32 {
            Some(
                Config {
                    program_id,
                    treasury,
                    metadata_program,
                    base_fee,
                    revoke_discount,
                },
            )
        } else {
            None
        }
    }

    /// The published deployment: the issuing program's declared identity,
    /// its treasury, the metadata registry, and the standard fees.
    /// `None` exactly when an embedded address literal fails to parse.
    pub fn standard() -> (r: Option<Config>)
        ensures
            r is None <==> base58_decoded("AkugdJHDjDvBaxUGC6pjyrfqEpDfJ4Z9Ji9NED6Lmddg"@) is None
                || base58_decoded("DW69JZRd1j3Y2DsEhF2biwk3DPdn6BLeG51AFXg18ho2"@) is None
                || base58_decoded("metaqbxxUerdq28cj1RbAWkYQm3ybzjb6a8bt518x1s"@) is None,
            r is Some ==> {
                let c = r->0;
                c.wf() && c.base_fee == BASE_FEE && c.revoke_discount == REVOKE_DISCOUNT
                    && base58_decoded("AkugdJHDjDvBaxUGC6pjyrfqEpDfJ4Z9Ji9NED6Lmddg"@) == Some(
                    c.program_id@,
                ) && base58_decoded("DW69JZRd1j3Y2DsEhF2biwk3DPdn6BLeG51AFXg18ho2"@) == Some(
                    c.treasury@,
                ) && base58_decoded("metaqbxxUerdq28cj1RbAWkYQm3ybzjb6a8bt518x1s"@) == Some(
                    c.metadata_program@,
                )
            },
    {
        let program_id = match parse_address("AkugdJHDjDvBaxUGC6pjyrfqEpDfJ4Z9Ji9NED6Lmddg") {
            Some(a) => a,
            None => { return None; },
        };
        let treasury = match parse_address("DW69JZRd1j3Y2DsEhF2biwk3DPdn6BLeG51AFXg18ho2") {
            Some(a) => a,
            None => { return None; },
        };
        let metadata_program = match parse_address("metaqbxxUerdq28cj1RbAWkYQm3ybzjb6a8bt518x1s") {
            Some(a) => a,
            None => { return None; },
        };
        Some(
            Config {
                program_id,
                treasury,
                metadata_program,
                base_fee: BASE_FEE,
                revoke_discount: REVOKE_DISCOUNT,
            },
        )
    }
}

} // verus!
