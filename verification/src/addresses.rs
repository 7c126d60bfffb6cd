//! Ledger account addresses and their deterministic derivation.
//!
//! An address is 32 plain bytes.  Derived addresses ("program-derived
//! addresses") are a pure function of a namespace tag, seed values and the
//! deriving program; the hash behind that function lives in the outside
//! ledger SDK and is only named here, never restated.

use vstd::prelude::*;

verus! {

/// A 32-byte account address, held as plain bytes.
#[derive(Debug)]
pub struct Address {
    pub bytes: Vec<u8>,
}

impl View for Address {
    type V = Seq<u8>;

    open spec fn view(&self) -> Seq<u8> {
        self.bytes@
    }
}

impl Address {
    /// An address is well formed when it holds exactly 32 bytes.
    pub open spec fn wf(&self) -> bool {
        self.bytes@.len() == 32
    }

    /// Builds an address from its bytes; rejects any length but 32.
    pub fn from_bytes(bytes: Vec<u8>) -> (r: Option<Address>)
        ensures
            bytes@.len() == 32 <==> r is Some,
            r is Some ==> r->0@ == bytes@ && r->0.wf(),
    {
        if bytes.len() == 32 {
            Some(Address { bytes })
        } else {
            None
        }
    }

    /// Copies the address.
    pub fn dup(&self) -> (r: Address)
        ensures
            r@ == self@,
    {
        let mut bytes: Vec<u8> = Vec::new();
        let mut i: usize = 0;
        while i < self.bytes.len()
            invariant
                i <= self.bytes@.len(),
                bytes@ == self.bytes@.subrange(0, i as int),
            decreases self.bytes@.len() - i,
        {
            bytes.push(self.bytes[i]);
            i = i + 1;
            proof {
                assert(bytes@ =~= self.bytes@.subrange(0, i as int));
            }
        }
        proof {
            assert(bytes@ =~= self.bytes@);
        }
        Address { bytes }
    }
}

/// Whether two addresses hold the same bytes.
pub fn address_eq(a: &Address, b: &Address) -> (r: bool)
    ensures
        r == (a@ == b@),
{
    if a.bytes.len() != b.bytes.len() {
        return false;
    }
    let mut i: usize = 0;
    while i < a.bytes.len()
        invariant
            i <= a.bytes@.len(),
            a.bytes@.len() == b.bytes@.len(),
            forall|j: int| 0 <= j < i ==> a.bytes@[j] == b.bytes@[j],
        decreases a.bytes@.len() - i,
    {
        if a.bytes[i] != b.bytes[i] {
            return false;
        }
        i = i + 1;
    }
    proof {
        assert(a@ =~= b@);
    }
    true
}

/// What the ledger SDK's program-derived-address search returns for a seed
/// list and a deriving program: `None` when the discriminant space is
/// exhausted, else the unique address and its bump discriminant.
pub uninterp spec fn pda_of(seeds: Seq<Seq<u8>>, program: Seq<u8>) -> Option<(Seq<u8>, u8)>;

/// The byte sequences of a seed list.
pub open spec fn seeds_view(seeds: Seq<Vec<u8>>) -> Seq<Seq<u8>> {
    seeds.map_values(|s: Vec<u8>| s@)
}

/// Relies on `Pubkey::try_find_program_address`: the derivation depends on
/// the seeds and the deriving program alone, and a found address holds 32
/// bytes.  The search never panics; it returns `None` when no bump yields
/// a valid address.
#[verifier::external_body]
fn find_pda(seeds: &Vec<Vec<u8>>, program: &Address) -> (r: Option<(Address, u8)>)
    requires
        program.wf(),
    ensures
        match r {
            Some(found) => pda_of(seeds_view(seeds@), program@) == Some((found.0@, found.1))
                && found.0.wf(),
            None => pda_of(seeds_view(seeds@), program@) is None,
        },
{
    let pid = solana_program::pubkey::Pubkey::try_from(program.bytes.as_slice()).unwrap();
    let refs: Vec<&[u8]> = seeds.iter().map(|s| s.as_slice()).collect();
    let found = solana_program::pubkey::Pubkey::try_find_program_address(&refs, &pid);
    found.map(|(pk, bump)| (Address { bytes: pk.to_bytes().to_vec() }, bump))
}

/// What the ledger SDK's base58 parser returns for a string: `None` unless
/// the string decodes to exactly 32 bytes.
pub uninterp spec fn base58_decoded(s: Seq<char>) -> Option<Seq<u8>>;

/// Relies on `Pubkey::from_str`: parsing depends on the characters alone,
/// and a parsed address holds 32 bytes.
#[verifier::external_body]
pub(crate) fn parse_address(s: &str) -> (r: Option<Address>)
    ensures
        match r {
            Some(a) => base58_decoded(s@) == Some(a@) && a.wf(),
            None => base58_decoded(s@) is None,
        },
{
    match <solana_program::pubkey::Pubkey as core::str::FromStr>::from_str(s) {
        Ok(pk) => Some(Address { bytes: pk.to_bytes().to_vec() }),
        Err(_) => None,
    }
}

/// The namespace tag of holding accounts: the bytes of `token-account`.
pub open spec fn holding_tag() -> Seq<u8> {
    seq![116u8, 111u8, 107u8, 101u8, 110u8, 45u8, 97u8, 99u8, 99u8, 111u8, 117u8, 110u8, 116u8]
}

/// The namespace tag of metadata records: the bytes of `metadata`.
pub open spec fn metadata_tag() -> Seq<u8> {
    seq![109u8, 101u8, 116u8, 97u8, 100u8, 97u8, 116u8, 97u8]
}

/// The namespace tag of the governance record: the bytes of
/// `program-security`.
pub open spec fn governance_tag() -> Seq<u8> {
    seq![
        112u8, 114u8, 111u8, 103u8, 114u8, 97u8, 109u8, 45u8, 115u8, 101u8, 99u8, 117u8, 114u8,
        105u8, 116u8, 121u8,
    ]
}

fn holding_tag_bytes() -> (v: Vec<u8>)
    ensures
        v@ == holding_tag(),
{
    let v: Vec<u8> = vec![116u8, 111u8, 107u8, 101u8, 110u8, 45u8, 97u8, 99u8, 99u8, 111u8, 117u8, 110u8, 116u8];
    proof {
        assert(v@ =~= holding_tag());
    }
    v
}

fn metadata_tag_bytes() -> (v: Vec<u8>)
    ensures
        v@ == metadata_tag(),
{
    let v: Vec<u8> = vec![109u8, 101u8, 116u8, 97u8, 100u8, 97u8, 116u8, 97u8];
    proof {
        assert(v@ =~= metadata_tag());
    }
    v
}

fn governance_tag_bytes() -> (v: Vec<u8>)
    ensures
        v@ == governance_tag(),
{
    let v: Vec<u8> = vec![
        112u8, 114u8, 111u8, 103u8, 114u8, 97u8, 109u8, 45u8, 115u8, 101u8, 99u8, 117u8, 114u8,
        105u8, 116u8, 121u8,
    ];
    proof {
        assert(v@ =~= governance_tag());
    }
    v
}

/// The derivation of the holding account that custodies an issuer's initial
/// balance, from the payer and asset addresses under the issuing program.
pub open spec fn spec_holding_address(payer: Seq<u8>, mint: Seq<u8>, program: Seq<u8>) -> Option<
    (Seq<u8>, u8),
> {
    pda_of(seq![holding_tag(), payer, mint], program)
}

/// The derivation of an asset's metadata record under the metadata
/// registry program.
pub open spec fn spec_metadata_address(metadata_program: Seq<u8>, mint: Seq<u8>) -> Option<
    (Seq<u8>, u8),
> {
    pda_of(seq![metadata_tag(), metadata_program, mint], metadata_program)
}

/// Derives the holding account for a (payer, asset) pair: the unique
/// address, with its bump discriminant, or `None` when the discriminant
/// space is exhausted.
pub fn derive_holding_address(payer: &Address, mint: &Address, program_id: &Address) -> (r: Option<
    (Address, u8),
>)
    requires
        program_id.wf(),
    ensures
        match r {
            Some(found) => spec_holding_address(payer@, mint@, program_id@) == Some(
                (found.0@, found.1),
            ) && found.0.wf(),
            None => spec_holding_address(payer@, mint@, program_id@) is None,
        },
{
    let mut seeds: Vec<Vec<u8>> = Vec::new();
    seeds.push(holding_tag_bytes());
    seeds.push(payer.dup().bytes);
    seeds.push(mint.dup().bytes);
    proof {
        assert(seeds_view(seeds@) =~= seq![holding_tag(), payer@, mint@]);
    }
    find_pda(&seeds, program_id)
}

/// Derives the metadata record address for an asset under the metadata
/// registry program.
pub fn derive_metadata_address(metadata_program: &Address, mint: &Address) -> (r: Option<(
    Address,
    u8,
)>)
    requires
        metadata_program.wf(),
    ensures
        match r {
            Some(found) => spec_metadata_address(metadata_program@, mint@) == Some(
                (found.0@, found.1),
            ) && found.0.wf(),
            None => spec_metadata_address(metadata_program@, mint@) is None,
        },
{
    let mut seeds: Vec<Vec<u8>> = Vec::new();
    seeds.push(metadata_tag_bytes());
    seeds.push(metadata_program.dup().bytes);
    seeds.push(mint.dup().bytes);
    proof {
        assert(seeds_view(seeds@) =~= seq![metadata_tag(), metadata_program@, mint@]);
    }
    find_pda(&seeds, metadata_program)
}

/// The derivation of the well-known singleton governance record under
/// the issuing program.
pub open spec fn spec_governance_address(program: Seq<u8>) -> Option<(Seq<u8>, u8)> {
    pda_of(seq![governance_tag()], program)
}

/// Derives the governance record's well-known address under the issuing
/// program.
pub fn derive_governance_address(program_id: &Address) -> (r: Option<(Address, u8)>)
    requires
        program_id.wf(),
    ensures
        match r {
            Some(found) => spec_governance_address(program_id@) == Some((found.0@, found.1))
                && found.0.wf(),
            None => spec_governance_address(program_id@) is None,
        },
{
    let mut seeds: Vec<Vec<u8>> = Vec::new();
    seeds.push(governance_tag_bytes());
    proof {
        assert(seeds_view(seeds@) =~= seq![governance_tag()]);
    }
    find_pda(&seeds, program_id)
}

/// Law: address derivation is deterministic.  Two derivations from the
/// same (payer, asset) pair under the same program agree on the address
/// and on the bump discriminant.
pub proof fn lemma_holding_derivation_deterministic(
    payer: Seq<u8>,
    mint: Seq<u8>,
    program: Seq<u8>,
    r1: Option<(Seq<u8>, u8)>,
    r2: Option<(Seq<u8>, u8)>,
)
    requires
        r1 == spec_holding_address(payer, mint, program),
        r2 == spec_holding_address(payer, mint, program),
    ensures
        r1 == r2,
{
}

} // verus!
