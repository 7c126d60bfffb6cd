//! Turns the plan of a successful issuance into real ledger
//! instructions.  Each instruction value is built by the outside program
//! SDK that owns its format; the values are opaque here and are handed
//! to the ledger runtime by the caller.

use vstd::prelude::*;

use solana_program::instruction::Instruction;

use crate::addresses::Address;
use crate::issuance::{call_wf, ExternalCall};

verus! {

#[verifier::external_type_specification]
#[verifier::external_body]
pub struct ExInstruction(Instruction);

/// Relies on `solana_program::system_instruction::transfer`: the system
/// program's lamport transfer from the payer to the treasury.
#[verifier::external_body]
fn transfer_instruction(from: &Address, to: &Address, lamports: u64) -> Instruction
    requires
        from.wf(),
        to.wf(),
{
    let f = solana_program::pubkey::Pubkey::try_from(from.bytes.as_slice()).unwrap();
    let t = solana_program::pubkey::Pubkey::try_from(to.bytes.as_slice()).unwrap();
    solana_program::system_instruction::transfer(&f, &t, lamports)
}

/// Relies on `mpl_token_metadata::instructions::CreateV1Builder`: the
/// metadata registry's record creation for a fungible asset, with the
/// payer as update authority and the given mutability.
#[verifier::external_body]
fn create_metadata_instruction(
    metadata: &Address,
    mint: &Address,
    payer: &Address,
    name: &String,
    symbol: &String,
    uri: &String,
    is_mutable: bool,
) -> Instruction
    requires
        metadata.wf(),
        mint.wf(),
        payer.wf(),
{
    let md = solana_program::pubkey::Pubkey::try_from(metadata.bytes.as_slice()).unwrap();
    let mi = solana_program::pubkey::Pubkey::try_from(mint.bytes.as_slice()).unwrap();
    let pa = solana_program::pubkey::Pubkey::try_from(payer.bytes.as_slice()).unwrap();
    mpl_token_metadata::instructions::CreateV1Builder::new()
        .metadata(md).mint(mi, false).authority(pa).payer(pa)
        .update_authority(pa, is_mutable).is_mutable(is_mutable)
        .primary_sale_happened(false).name(name.clone()).symbol(symbol.clone())
        .uri(uri.clone()).seller_fee_basis_points(0)
        .token_standard(mpl_token_metadata::types::TokenStandard::Fungible)
        .instruction()
}

/// Relies on `mpl_token_metadata::instructions::UpdateV1Builder`: the
/// metadata registry's update that reassigns the update authority to the
/// null sentinel, making the record immutable in practice.
#[verifier::external_body]
fn clear_metadata_authority_instruction(metadata: &Address, mint: &Address, authority: &Address) -> Instruction
    requires
        metadata.wf(),
        mint.wf(),
        authority.wf(),
{
    let md = solana_program::pubkey::Pubkey::try_from(metadata.bytes.as_slice()).unwrap();
    let mi = solana_program::pubkey::Pubkey::try_from(mint.bytes.as_slice()).unwrap();
    let au = solana_program::pubkey::Pubkey::try_from(authority.bytes.as_slice()).unwrap();
    mpl_token_metadata::instructions::UpdateV1Builder::new()
        .metadata(md).mint(mi).authority(au).payer(au)
        .new_update_authority(solana_program::pubkey::Pubkey::default())
        .instruction()
}

/// Relies on `spl_token::instruction::initialize_account`: the asset
/// ledger's initialization of the holding account for the asset, owned
/// by the payer.
#[verifier::external_body]
fn initialize_holding_instruction(holding: &Address, mint: &Address, owner: &Address) -> Instruction
    requires
        holding.wf(),
        mint.wf(),
        owner.wf(),
{
    let ho = solana_program::pubkey::Pubkey::try_from(holding.bytes.as_slice()).unwrap();
    let mi = solana_program::pubkey::Pubkey::try_from(mint.bytes.as_slice()).unwrap();
    let ow = solana_program::pubkey::Pubkey::try_from(owner.bytes.as_slice()).unwrap();
    spl_token::instruction::initialize_account(&spl_token::id(), &ho, &mi, &ow).unwrap()
}

/// Relies on `spl_token::instruction::mint_to`: the asset ledger's mint
/// of the scaled supply into the holding account, signed by the mint
/// authority.
#[verifier::external_body]
fn mint_supply_instruction(mint: &Address, to: &Address, authority: &Address, amount: u64) -> Instruction
    requires
        mint.wf(),
        to.wf(),
        authority.wf(),
{
    let mi = solana_program::pubkey::Pubkey::try_from(mint.bytes.as_slice()).unwrap();
    let ac = solana_program::pubkey::Pubkey::try_from(to.bytes.as_slice()).unwrap();
    let au = solana_program::pubkey::Pubkey::try_from(authority.bytes.as_slice()).unwrap();
    spl_token::instruction::mint_to(&spl_token::id(), &mi, &ac, &au, &[], amount).unwrap()
}

/// The asset-side capability a revocation targets.
pub enum AuthorityKind {
    Mint,
    Freeze,
}

/// Relies on `spl_token::instruction::set_authority`: the asset ledger's
/// authority change on the mint or freeze capability, to no authority.
#[verifier::external_body]
fn revoke_authority_instruction(mint: &Address, authority: &Address, kind: &AuthorityKind) -> Instruction
    requires
        mint.wf(),
        authority.wf(),
{
    let at = match kind {
        AuthorityKind::Mint => spl_token::instruction::AuthorityType::MintTokens,
        AuthorityKind::Freeze => spl_token::instruction::AuthorityType::FreezeAccount,
    };
    let mi = solana_program::pubkey::Pubkey::try_from(mint.bytes.as_slice()).unwrap();
    let au = solana_program::pubkey::Pubkey::try_from(authority.bytes.as_slice()).unwrap();
    spl_token::instruction::set_authority(&spl_token::id(), &mi, None, at, &au, &[]).unwrap()
}

/// Builds the ledger instruction for one call of an issuance plan.
pub fn build_call(call: &ExternalCall) -> Instruction
    requires
        call_wf(*call),
{
    match call {
        ExternalCall::TransferFee { from, to, lamports } => transfer_instruction(
            from,
            to,
            *lamports,
        ),
        ExternalCall::CreateMetadata { metadata, mint, payer, name, symbol, uri, is_mutable } => create_metadata_instruction(
            metadata,
            mint,
            payer,
            name,
            symbol,
            uri,
            *is_mutable,
        ),
        ExternalCall::InitializeHolding { holding, mint, owner } => initialize_holding_instruction(
            holding,
            mint,
            owner,
        ),
        ExternalCall::MintSupply { mint, to, authority, amount } => mint_supply_instruction(
            mint,
            to,
            authority,
            *amount,
        ),
        ExternalCall::ClearMetadataAuthority { metadata, mint, authority } => clear_metadata_authority_instruction(
            metadata,
            mint,
            authority,
        ),
        ExternalCall::RevokeMintAuthority { mint, authority } => revoke_authority_instruction(
            mint,
            authority,
            &AuthorityKind::Mint,
        ),
        ExternalCall::RevokeFreezeAuthority { mint, authority } => revoke_authority_instruction(
            mint,
            authority,
            &AuthorityKind::Freeze,
        ),
    }
}

/// Builds the ledger instructions of a plan, one per call, in the
/// plan's order.
pub fn compile_calls(calls: &Vec<ExternalCall>) -> (r: Vec<Instruction>)
    requires
        forall|i: int| 0 <= i < calls@.len() ==> call_wf(#[trigger] calls@[i]),
    ensures
        r@.len() == calls@.len(),
{
    let mut out: Vec<Instruction> = Vec::new();
    let mut i: usize = 0;
    while i < calls.len()
        invariant
            i <= calls@.len(),
            out@.len() == i,
            forall|j: int| 0 <= j < calls@.len() ==> call_wf(#[trigger] calls@[j]),
        decreases calls@.len() - i,
    {
        let ins = build_call(&calls[i]);
        out.push(ins);
        i = i + 1;
    }
    out
}

} // verus!
