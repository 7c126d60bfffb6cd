//! The issuance orchestrator: one atomic unit that validates the
//! parameters, collects the fee, verifies the derived addresses, creates
//! the records, mints the initial balance into the holding account and
//! applies the requested authority revocations — in that order, so the
//! fee is the first irreversible external effect.  Any failure leaves
//! every account exactly as it was.

use vstd::prelude::*;

use crate::addresses::{
    address_eq, derive_holding_address, derive_metadata_address, spec_holding_address,
    spec_metadata_address, Address,
};
use crate::config::Config;
use crate::errors::ErrorCode;
use crate::fees::{compute_fee, fee_ok, fee_value};
use crate::records::{held_by, AssetRecord, Capability, HoldingAccount, MetadataRecord};
use crate::validation::{decimals_ok, name_ok, scale_supply, scaled_supply, supply_fits,
    symbol_ok, validate_token_params, validation_result};

verus! {

/// The accounts one issuance unit touches, as the ledger runtime hands
/// them over: the funding payer, the configured treasury, the fresh asset
/// address, the caller-supplied metadata account, whether the derived
/// holding address is already occupied, and the metadata registry the
/// caller named.
#[derive(Debug)]
pub struct CreateToken {
    pub payer: Address,
    pub payer_balance: u64,
    pub treasury: Address,
    pub treasury_balance: u64,
    pub mint: Address,
    pub metadata: Address,
    pub holding_occupied: bool,
    pub token_metadata_program: Address,
}

impl CreateToken {
    /// Every account address holds 32 bytes.
    pub open spec fn wf(&self) -> bool {
        self.payer.wf() && self.treasury.wf() && self.mint.wf() && self.metadata.wf()
            && self.token_metadata_program.wf()
    }
}

/// One external invocation of the issuance plan, in mathematical form:
/// addresses as byte sequences, text as character sequences.
pub enum CallDesc {
    TransferFee { from: Seq<u8>, to: Seq<u8>, lamports: u64 },
    CreateMetadata {
        metadata: Seq<u8>,
        mint: Seq<u8>,
        payer: Seq<u8>,
        name: Seq<char>,
        symbol: Seq<char>,
        uri: Seq<char>,
        is_mutable: bool,
    },
    InitializeHolding { holding: Seq<u8>, mint: Seq<u8>, owner: Seq<u8> },
    MintSupply { mint: Seq<u8>, to: Seq<u8>, authority: Seq<u8>, amount: u64 },
    ClearMetadataAuthority { metadata: Seq<u8>, mint: Seq<u8>, authority: Seq<u8> },
    RevokeMintAuthority { mint: Seq<u8>, authority: Seq<u8> },
    RevokeFreezeAuthority { mint: Seq<u8>, authority: Seq<u8> },
}

/// One external invocation of the issuance plan, as a value the caller
/// hands to the ledger runtime.
#[derive(Debug)]
pub enum ExternalCall {
    TransferFee { from: Address, to: Address, lamports: u64 },
    CreateMetadata {
        metadata: Address,
        mint: Address,
        payer: Address,
        name: String,
        symbol: String,
        uri: String,
        is_mutable: bool,
    },
    InitializeHolding { holding: Address, mint: Address, owner: Address },
    MintSupply { mint: Address, to: Address, authority: Address, amount: u64 },
    ClearMetadataAuthority { metadata: Address, mint: Address, authority: Address },
    RevokeMintAuthority { mint: Address, authority: Address },
    RevokeFreezeAuthority { mint: Address, authority: Address },
}

impl View for ExternalCall {
    type V = CallDesc;

    open spec fn view(&self) -> CallDesc {
        match *self {
            ExternalCall::TransferFee { from, to, lamports } => CallDesc::TransferFee {
                from: from@,
                to: to@,
                lamports,
            },
            ExternalCall::CreateMetadata { metadata, mint, payer, name, symbol, uri, is_mutable } => CallDesc::CreateMetadata {
                metadata: metadata@,
                mint: mint@,
                payer: payer@,
                name: name@,
                symbol: symbol@,
                uri: uri@,
                is_mutable,
            },
            ExternalCall::InitializeHolding { holding, mint, owner } => CallDesc::InitializeHolding {
                holding: holding@,
                mint: mint@,
                owner: owner@,
            },
            ExternalCall::MintSupply { mint, to, authority, amount } => CallDesc::MintSupply {
                mint: mint@,
                to: to@,
                authority: authority@,
                amount,
            },
            ExternalCall::ClearMetadataAuthority { metadata, mint, authority } => CallDesc::ClearMetadataAuthority {
                metadata: metadata@,
                mint: mint@,
                authority: authority@,
            },
            ExternalCall::RevokeMintAuthority { mint, authority } => CallDesc::RevokeMintAuthority {
                mint: mint@,
                authority: authority@,
            },
            ExternalCall::RevokeFreezeAuthority { mint, authority } => CallDesc::RevokeFreezeAuthority {
                mint: mint@,
                authority: authority@,
            },
        }
    }
}

/// Every address named by a call holds 32 bytes.
pub open spec fn call_desc_wf(c: CallDesc) -> bool {
    match c {
        CallDesc::TransferFee { from, to, .. } => from.len() == 32 && to.len() == 32,
        CallDesc::CreateMetadata { metadata, mint, payer, .. } => metadata.len() == 32
            && mint.len() == 32 && payer.len() == 32,
        CallDesc::InitializeHolding { holding, mint, owner } => holding.len() == 32 && mint.len()
            == 32 && owner.len() == 32,
        CallDesc::MintSupply { mint, to, authority, .. } => mint.len() == 32 && to.len() == 32
            && authority.len() == 32,
        CallDesc::ClearMetadataAuthority { metadata, mint, authority } => metadata.len() == 32
            && mint.len() == 32 && authority.len() == 32,
        CallDesc::RevokeMintAuthority { mint, authority } => mint.len() == 32 && authority.len()
            == 32,
        CallDesc::RevokeFreezeAuthority { mint, authority } => mint.len() == 32 && authority.len()
            == 32,
    }
}

/// Every address named by a call value holds 32 bytes.
pub open spec fn call_wf(c: ExternalCall) -> bool {
    call_desc_wf(c@)
}

/// The ordered external invocations of a successful issuance: the fee
/// transfer first, then metadata creation, holding-account
/// initialization, the mint, and finally the requested revocations —
/// metadata update authority, then mint, then freeze.
pub open spec fn issuance_calls(
    payer: Seq<u8>,
    treasury: Seq<u8>,
    mint: Seq<u8>,
    metadata_addr: Seq<u8>,
    holding_addr: Seq<u8>,
    name: Seq<char>,
    symbol: Seq<char>,
    uri: Seq<char>,
    fee: u64,
    amount: u64,
    revoke_mint: bool,
    revoke_freeze: bool,
    revoke_update: bool,
) -> Seq<CallDesc> {
    seq![
        CallDesc::TransferFee { from: payer, to: treasury, lamports: fee },
        CallDesc::CreateMetadata {
            metadata: metadata_addr,
            mint: mint,
            payer: payer,
            name: name,
            symbol: symbol,
            uri: uri,
            is_mutable: !revoke_update,
        },
        CallDesc::InitializeHolding { holding: holding_addr, mint: mint, owner: payer },
        CallDesc::MintSupply { mint: mint, to: holding_addr, authority: payer, amount: amount },
    ] + (if revoke_update {
        seq![CallDesc::ClearMetadataAuthority { metadata: metadata_addr, mint: mint, authority: payer }]
    } else {
        Seq::empty()
    }) + (if revoke_mint {
        seq![CallDesc::RevokeMintAuthority { mint: mint, authority: payer }]
    } else {
        Seq::empty()
    }) + (if revoke_freeze {
        seq![CallDesc::RevokeFreezeAuthority { mint: mint, authority: payer }]
    } else {
        Seq::empty()
    })
}

/// Which error an issuance unit reports, `None` when it succeeds.  The
/// order of the tests is the order of the unit's steps: the account
/// constraints, input validation, the fee schedule, the payer's balance,
/// the metadata derivation and its verification, the holding derivation,
/// the occupancy of the holding address, and last the defense-in-depth
/// overflow recheck of the scaled supply.
pub open spec fn issuance_error(
    cfg: Config,
    accounts: CreateToken,
    name: Seq<char>,
    symbol: Seq<char>,
    decimals: u8,
    uri: Seq<char>,
    initial_supply: u64,
    revoke_mint: bool,
    revoke_freeze: bool,
    revoke_update: bool,
) -> Option<ErrorCode> {
    if accounts.treasury@ != cfg.treasury@ {
        Some(ErrorCode::UnauthorizedTreasury)
    } else if accounts.token_metadata_program@ != cfg.metadata_program@ {
        Some(ErrorCode::InvalidMetadataAccount)
    } else if validation_result(name, symbol, decimals, uri, initial_supply) is Err {
        Some(validation_result(name, symbol, decimals, uri, initial_supply)->Err_0)
    } else if !fee_ok(cfg.base_fee, cfg.revoke_discount, revoke_mint, revoke_freeze, revoke_update) {
        Some(ErrorCode::InvalidFeeCalculation)
    } else if accounts.payer_balance < fee_value(
        cfg.base_fee,
        cfg.revoke_discount,
        revoke_mint,
        revoke_freeze,
        revoke_update,
    ) {
        Some(ErrorCode::InsufficientFunds)
    } else if spec_metadata_address(cfg.metadata_program@, accounts.mint@) is None {
        Some(ErrorCode::InvalidMetadataAccount)
    } else if accounts.metadata@ != (spec_metadata_address(cfg.metadata_program@, accounts.mint@)->0).0 {
        Some(ErrorCode::InvalidMetadataAccount)
    } else if spec_holding_address(accounts.payer@, accounts.mint@, cfg.program_id@) is None {
        Some(ErrorCode::InvalidMetadataAccount)
    } else if accounts.holding_occupied {
        Some(ErrorCode::TokenAccountAlreadyInitialized)
    } else if !supply_fits(initial_supply, decimals) {
        Some(ErrorCode::InvalidInitialSupply)
    } else {
        None
    }
}

/// The account constraints and every step before the holding-account
/// occupancy check pass: treasury and metadata registry match the
/// configuration, the inputs validate, the fee schedule admits the flags
/// and the payer covers the fee, and both derivations exist with the
/// supplied metadata account equal to its derivation.
pub open spec fn pre_holding_steps_pass(
    cfg: Config,
    accounts: CreateToken,
    name: Seq<char>,
    symbol: Seq<char>,
    decimals: u8,
    uri: Seq<char>,
    initial_supply: u64,
    revoke_mint: bool,
    revoke_freeze: bool,
    revoke_update: bool,
) -> bool {
    &&& accounts.treasury@ == cfg.treasury@
    &&& accounts.token_metadata_program@ == cfg.metadata_program@
    &&& validation_result(name, symbol, decimals, uri, initial_supply) is Ok
    &&& fee_ok(cfg.base_fee, cfg.revoke_discount, revoke_mint, revoke_freeze, revoke_update)
    &&& accounts.payer_balance >= fee_value(
        cfg.base_fee,
        cfg.revoke_discount,
        revoke_mint,
        revoke_freeze,
        revoke_update,
    )
    &&& spec_metadata_address(cfg.metadata_program@, accounts.mint@) is Some
    &&& accounts.metadata@ == (spec_metadata_address(cfg.metadata_program@, accounts.mint@)->0).0
    &&& spec_holding_address(accounts.payer@, accounts.mint@, cfg.program_id@) is Some
}

/// Law: a precision above 18 is always rejected with the decimals-range
/// error, whatever the other parameters, whenever the accounts match the
/// configuration and the name and symbol validate.  With
/// `create_token`'s contract, such a unit mutates nothing.
pub proof fn lemma_decimals_rejected(
    cfg: Config,
    accounts: CreateToken,
    name: Seq<char>,
    symbol: Seq<char>,
    decimals: u8,
    uri: Seq<char>,
    initial_supply: u64,
    revoke_mint: bool,
    revoke_freeze: bool,
    revoke_update: bool,
)
    requires
        accounts.treasury@ == cfg.treasury@,
        accounts.token_metadata_program@ == cfg.metadata_program@,
        name_ok(name),
        symbol_ok(symbol),
        !decimals_ok(decimals),
    ensures
        issuance_error(
            cfg,
            accounts,
            name,
            symbol,
            decimals,
            uri,
            initial_supply,
            revoke_mint,
            revoke_freeze,
            revoke_update,
        ) == Some(ErrorCode::InvalidDecimals),
{
}

/// Law: when every earlier step passes but the scaled supply overflows
/// the 64-bit balance representation, the unit fails with the supply
/// error.  With `create_token`'s contract, no partial mint occurs: the
/// accounts are untouched.
pub proof fn lemma_supply_overflow_rejected(
    cfg: Config,
    accounts: CreateToken,
    name: Seq<char>,
    symbol: Seq<char>,
    decimals: u8,
    uri: Seq<char>,
    initial_supply: u64,
    revoke_mint: bool,
    revoke_freeze: bool,
    revoke_update: bool,
)
    requires
        pre_holding_steps_pass(
            cfg,
            accounts,
            name,
            symbol,
            decimals,
            uri,
            initial_supply,
            revoke_mint,
            revoke_freeze,
            revoke_update,
        ),
        !accounts.holding_occupied,
        !supply_fits(initial_supply, decimals),
    ensures
        issuance_error(
            cfg,
            accounts,
            name,
            symbol,
            decimals,
            uri,
            initial_supply,
            revoke_mint,
            revoke_freeze,
            revoke_update,
        ) == Some(ErrorCode::InvalidInitialSupply),
{
}

/// Law: resubmitting an issuance whose holding address is already
/// occupied fails at the holding-account step, not at validation — every
/// earlier step passes and the error is the occupancy error.
pub proof fn lemma_reissuance_rejected(
    cfg: Config,
    accounts: CreateToken,
    name: Seq<char>,
    symbol: Seq<char>,
    decimals: u8,
    uri: Seq<char>,
    initial_supply: u64,
    revoke_mint: bool,
    revoke_freeze: bool,
    revoke_update: bool,
)
    requires
        pre_holding_steps_pass(
            cfg,
            accounts,
            name,
            symbol,
            decimals,
            uri,
            initial_supply,
            revoke_mint,
            revoke_freeze,
            revoke_update,
        ),
        accounts.holding_occupied,
    ensures
        issuance_error(
            cfg,
            accounts,
            name,
            symbol,
            decimals,
            uri,
            initial_supply,
            revoke_mint,
            revoke_freeze,
            revoke_update,
        ) == Some(ErrorCode::TokenAccountAlreadyInitialized),
{
}

/// Law: success is owed.  When every step passes — the holding address
/// is free and the scaled supply fits — the unit reports no error, so
/// `create_token` returns the handle.
pub proof fn lemma_issuance_succeeds(
    cfg: Config,
    accounts: CreateToken,
    name: Seq<char>,
    symbol: Seq<char>,
    decimals: u8,
    uri: Seq<char>,
    initial_supply: u64,
    revoke_mint: bool,
    revoke_freeze: bool,
    revoke_update: bool,
)
    requires
        pre_holding_steps_pass(
            cfg,
            accounts,
            name,
            symbol,
            decimals,
            uri,
            initial_supply,
            revoke_mint,
            revoke_freeze,
            revoke_update,
        ),
        !accounts.holding_occupied,
        supply_fits(initial_supply, decimals),
    ensures
        issuance_error(
            cfg,
            accounts,
            name,
            symbol,
            decimals,
            uri,
            initial_supply,
            revoke_mint,
            revoke_freeze,
            revoke_update,
        ) is None,
{
}

/// What a successful issuance returns: the fee that was charged, the
/// three records as created, and the ordered plan of external
/// invocations.
#[derive(Debug)]
pub struct AssetHandle {
    pub fee_paid: u64,
    pub asset: AssetRecord,
    pub metadata_record: MetadataRecord,
    pub holding: HoldingAccount,
    pub calls: Vec<ExternalCall>,
}

/// Everything a successful issuance establishes, relating the accounts
/// before (`pre`) and after (`post`) the unit and the returned handle.
pub open spec fn issuance_success(
    cfg: Config,
    pre: CreateToken,
    post: CreateToken,
    handle: AssetHandle,
    name: Seq<char>,
    symbol: Seq<char>,
    uri: Seq<char>,
    decimals: u8,
    initial_supply: u64,
    revoke_mint: bool,
    revoke_freeze: bool,
    revoke_update: bool,
) -> bool {
    let fee = fee_value(cfg.base_fee, cfg.revoke_discount, revoke_mint, revoke_freeze, revoke_update);
    let amount = scaled_supply(initial_supply, decimals);
    let md = spec_metadata_address(cfg.metadata_program@, pre.mint@)->0;
    let hold = spec_holding_address(pre.payer@, pre.mint@, cfg.program_id@)->0;
    // the only account mutations: the fee moves, the holding address fills
    &&& post.payer@ == pre.payer@
    &&& post.treasury@ == pre.treasury@
    &&& post.mint@ == pre.mint@
    &&& post.metadata@ == pre.metadata@
    &&& post.token_metadata_program@ == pre.token_metadata_program@
    &&& post.payer_balance == pre.payer_balance - fee
    &&& post.treasury_balance == pre.treasury_balance + fee
    &&& post.holding_occupied
    &&& handle.fee_paid == fee
    // the asset record
    &&& handle.asset.address@ == pre.mint@
    &&& handle.asset.decimals == decimals
    &&& handle.asset.supply == amount
    &&& (if revoke_mint {
        handle.asset.mint_authority is Revoked
    } else {
        held_by(handle.asset.mint_authority, pre.payer@)
    })
    &&& (if revoke_freeze {
        handle.asset.freeze_authority is Revoked
    } else {
        held_by(handle.asset.freeze_authority, pre.payer@)
    })
    // the metadata record, at its derived address
    &&& handle.metadata_record.address@ == md.0
    &&& handle.metadata_record.name@ == name
    &&& handle.metadata_record.symbol@ == symbol
    &&& handle.metadata_record.uri@ == uri
    &&& handle.metadata_record.is_mutable == !revoke_update
    &&& (if revoke_update {
        handle.metadata_record.update_authority is Revoked
    } else {
        held_by(handle.metadata_record.update_authority, pre.payer@)
    })
    // the holding account, at its derived address, with the scaled supply
    &&& handle.holding.address@ == hold.0
    &&& handle.holding.bump == hold.1
    &&& handle.holding.owner@ == pre.payer@
    &&& handle.holding.mint@ == pre.mint@
    &&& handle.holding.amount == amount
    // the ordered plan
    &&& handle.calls@.map_values(|c: ExternalCall| c@) == issuance_calls(
        pre.payer@,
        cfg.treasury@,
        pre.mint@,
        md.0,
        hold.0,
        name,
        symbol,
        uri,
        handle.fee_paid,
        handle.holding.amount,
        revoke_mint,
        revoke_freeze,
        revoke_update,
    )
    &&& (forall|i: int| 0 <= i < handle.calls@.len() ==> call_wf(#[trigger] handle.calls@[i]))
}

/// Runs one issuance unit over the given accounts.
///
/// On any error the unit has no effect: the accounts are exactly as
/// before, and the error is the one `issuance_error` names for the first
/// failing step.  On success the fee moves from payer to treasury, the
/// holding address becomes occupied, and the returned handle carries the
/// created records and the ordered external invocations.
pub fn create_token(
    cfg: &Config,
    accounts: &mut CreateToken,
    name: String,
    symbol: String,
    decimals: u8,
    uri: String,
    initial_supply: u64,
    revoke_mint: bool,
    revoke_freeze: bool,
    revoke_update: bool,
) -> (r: Result<AssetHandle, ErrorCode>)
    requires
        cfg.wf(),
        old(accounts).wf(),
        old(accounts).treasury_balance + cfg.base_fee <= u64::MAX,
    ensures
        r is Err <==> issuance_error(
            *cfg,
            *old(accounts),
            name@,
            symbol@,
            decimals,
            uri@,
            initial_supply,
            revoke_mint,
            revoke_freeze,
            revoke_update,
        ) is Some,
        r is Err ==> r->Err_0 == issuance_error(
            *cfg,
            *old(accounts),
            name@,
            symbol@,
            decimals,
            uri@,
            initial_supply,
            revoke_mint,
            revoke_freeze,
            revoke_update,
        )->0 && *final(accounts) == *old(accounts),
        r is Ok ==> issuance_success(
            *cfg,
            *old(accounts),
            *final(accounts),
            r->Ok_0,
            name@,
            symbol@,
            uri@,
            decimals,
            initial_supply,
            revoke_mint,
            revoke_freeze,
            revoke_update,
        ),
        final(accounts).wf(),
{
    // account constraints
    if !address_eq(&accounts.treasury, &cfg.treasury) {
        return Err(ErrorCode::UnauthorizedTreasury);
    }
    if !address_eq(&accounts.token_metadata_program, &cfg.metadata_program) {
        return Err(ErrorCode::InvalidMetadataAccount);
    }
    // input validation
    match validate_token_params(name.as_str(), symbol.as_str(), decimals, uri.as_str(), initial_supply) {
        Ok(()) => {},
        Err(e) => { return Err(e); },
    }
    // the fee schedule
    let fee = match compute_fee(cfg.base_fee, cfg.revoke_discount, revoke_mint, revoke_freeze, revoke_update) {
        Ok(f) => f,
        Err(e) => { return Err(e); },
    };
    // the payer must cover the fee
    if accounts.payer_balance < fee {
        return Err(ErrorCode::InsufficientFunds);
    }
    // the supplied metadata account must be its derivation
    let md_pair = match derive_metadata_address(&cfg.metadata_program, &accounts.mint) {
        Some(p) => p,
        None => { return Err(ErrorCode::InvalidMetadataAccount); },
    };
    let (md_addr, _md_bump) = md_pair;
    if !address_eq(&accounts.metadata, &md_addr) {
        return Err(ErrorCode::InvalidMetadataAccount);
    }
    // the holding-account derivation and its occupancy
    let hold_pair = match derive_holding_address(&accounts.payer, &accounts.mint, &cfg.program_id) {
        Some(p) => p,
        None => { return Err(ErrorCode::InvalidMetadataAccount); },
    };
    let (hold_addr, hold_bump) = hold_pair;
    if accounts.holding_occupied {
        return Err(ErrorCode::TokenAccountAlreadyInitialized);
    }
    // the scaled supply must fit the 64-bit balance
    let amount = match scale_supply(initial_supply, decimals) {
        Some(a) => a,
        None => { return Err(ErrorCode::InvalidInitialSupply); },
    };
    // the one-way capability transitions
    let mut update_authority = Capability::Held(accounts.payer.dup());
    if revoke_update {
        match update_authority.revoke() {
            Ok(()) => {},
            Err(e) => { return Err(e); },
        }
    }
    let mut mint_authority = Capability::Held(accounts.payer.dup());
    if revoke_mint {
        match mint_authority.revoke() {
            Ok(()) => {},
            Err(e) => { return Err(e); },
        }
    }
    let mut freeze_authority = Capability::Held(accounts.payer.dup());
    if revoke_freeze {
        match freeze_authority.revoke() {
            Ok(()) => {},
            Err(e) => { return Err(e); },
        }
    }
    // the ordered external invocations
    let mut calls: Vec<ExternalCall> = Vec::new();
    calls.push(ExternalCall::TransferFee {
        from: accounts.payer.dup(),
        to: cfg.treasury.dup(),
        lamports: fee,
    });
    calls.push(ExternalCall::CreateMetadata {
        metadata: md_addr.dup(),
        mint: accounts.mint.dup(),
        payer: accounts.payer.dup(),
        name: name.clone(),
        symbol: symbol.clone(),
        uri: uri.clone(),
        is_mutable: !revoke_update,
    });
    calls.push(ExternalCall::InitializeHolding {
        holding: hold_addr.dup(),
        mint: accounts.mint.dup(),
        owner: accounts.payer.dup(),
    });
    calls.push(ExternalCall::MintSupply {
        mint: accounts.mint.dup(),
        to: hold_addr.dup(),
        authority: accounts.payer.dup(),
        amount,
    });
    if revoke_update {
        calls.push(ExternalCall::ClearMetadataAuthority {
            metadata: md_addr.dup(),
            mint: accounts.mint.dup(),
            authority: accounts.payer.dup(),
        });
    }
    if revoke_mint {
        calls.push(ExternalCall::RevokeMintAuthority {
            mint: accounts.mint.dup(),
            authority: accounts.payer.dup(),
        });
    }
    if revoke_freeze {
        calls.push(ExternalCall::RevokeFreezeAuthority {
            mint: accounts.mint.dup(),
            authority: accounts.payer.dup(),
        });
    }
    proof {
        assert(calls@.map_values(|c: ExternalCall| c@) =~= issuance_calls(
            accounts.payer@,
            cfg.treasury@,
            accounts.mint@,
            md_addr@,
            hold_addr@,
            name@,
            symbol@,
            uri@,
            fee,
            amount,
            revoke_mint,
            revoke_freeze,
            revoke_update,
        ));
    }
    let handle = AssetHandle {
        fee_paid: fee,
        asset: AssetRecord {
            address: accounts.mint.dup(),
            decimals,
            supply: amount,
            mint_authority,
            freeze_authority,
        },
        metadata_record: MetadataRecord {
            address: md_addr,
            name,
            symbol,
            uri,
            is_mutable: !revoke_update,
            update_authority,
        },
        holding: HoldingAccount {
            address: hold_addr,
            bump: hold_bump,
            owner: accounts.payer.dup(),
            mint: accounts.mint.dup(),
            amount,
        },
        calls,
    };
    // the unit's own effects: the fee moves, the holding address fills
    accounts.payer_balance = accounts.payer_balance - fee;
    accounts.treasury_balance = accounts.treasury_balance + fee;
    accounts.holding_occupied = true;
    Ok(handle)
}

/// Law: the plain issuance scenario.  When no revocation is requested,
/// every pre-holding step passes, the holding address is free and the
/// scaled supply fits, the unit succeeds and charges exactly the base
/// fee, which moves from payer to treasury; the holding account receives
/// the scaled supply; all three capabilities stay held by the payer; and
/// the metadata record is mutable.
pub proof fn lemma_issuance_no_revocations(
    cfg: Config,
    pre: CreateToken,
    post: CreateToken,
    handle: AssetHandle,
    name: Seq<char>,
    symbol: Seq<char>,
    uri: Seq<char>,
    decimals: u8,
    initial_supply: u64,
)
    requires
        pre_holding_steps_pass(
            cfg,
            pre,
            name,
            symbol,
            decimals,
            uri,
            initial_supply,
            false,
            false,
            false,
        ),
        !pre.holding_occupied,
        supply_fits(initial_supply, decimals),
        issuance_success(
            cfg,
            pre,
            post,
            handle,
            name,
            symbol,
            uri,
            decimals,
            initial_supply,
            false,
            false,
            false,
        ),
    ensures
        issuance_error(
            cfg,
            pre,
            name,
            symbol,
            decimals,
            uri,
            initial_supply,
            false,
            false,
            false,
        ) is None,
        handle.fee_paid == cfg.base_fee,
        post.payer_balance == pre.payer_balance - cfg.base_fee,
        post.treasury_balance == pre.treasury_balance + cfg.base_fee,
        handle.holding.amount == scaled_supply(initial_supply, decimals),
        handle.asset.supply == scaled_supply(initial_supply, decimals),
        held_by(handle.asset.mint_authority, pre.payer@),
        held_by(handle.asset.freeze_authority, pre.payer@),
        held_by(handle.metadata_record.update_authority, pre.payer@),
        handle.metadata_record.is_mutable,
{
}

/// Law: the fully revoked issuance scenario.  When all three revocations
/// are requested and every step passes, the unit succeeds and charges
/// the base fee less three discounts, which moves from payer to
/// treasury; the mint, freeze and metadata-update capabilities all end
/// revoked — a transition `Capability::revoke` never reverses — and the
/// metadata record is immutable.
pub proof fn lemma_issuance_all_revocations(
    cfg: Config,
    pre: CreateToken,
    post: CreateToken,
    handle: AssetHandle,
    name: Seq<char>,
    symbol: Seq<char>,
    uri: Seq<char>,
    decimals: u8,
    initial_supply: u64,
)
    requires
        pre_holding_steps_pass(
            cfg,
            pre,
            name,
            symbol,
            decimals,
            uri,
            initial_supply,
            true,
            true,
            true,
        ),
        !pre.holding_occupied,
        supply_fits(initial_supply, decimals),
        issuance_success(
            cfg,
            pre,
            post,
            handle,
            name,
            symbol,
            uri,
            decimals,
            initial_supply,
            true,
            true,
            true,
        ),
    ensures
        issuance_error(
            cfg,
            pre,
            name,
            symbol,
            decimals,
            uri,
            initial_supply,
            true,
            true,
            true,
        ) is None,
        handle.fee_paid == cfg.base_fee - 3 * cfg.revoke_discount,
        post.payer_balance == pre.payer_balance - handle.fee_paid,
        post.treasury_balance == pre.treasury_balance + handle.fee_paid,
        handle.holding.amount == scaled_supply(initial_supply, decimals),
        handle.asset.mint_authority is Revoked,
        handle.asset.freeze_authority is Revoked,
        handle.metadata_record.update_authority is Revoked,
        !handle.metadata_record.is_mutable,
{
}

} // verus!
