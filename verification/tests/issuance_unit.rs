use token_contract::{
    create_token, derive_holding_address, derive_metadata_address, Address, Capability, Config,
    CreateToken, ErrorCode, ExternalCall,
};

fn addr(fill: u8) -> Address {
    Address { bytes: vec![fill; 32] }
}

fn test_config() -> Config {
    Config::new(
        addr(3),
        addr(2),
        Address { bytes: mpl_token_metadata::ID.to_bytes().to_vec() },
        200_000_000,
        50_000_000,
    )
    .unwrap()
}

fn test_accounts(cfg: &Config, payer_balance: u64) -> CreateToken {
    let mint = addr(9);
    let (metadata, _) = derive_metadata_address(&cfg.metadata_program, &mint).unwrap();
    CreateToken {
        payer: addr(7),
        payer_balance,
        treasury: addr(2),
        treasury_balance: 0,
        mint,
        metadata,
        holding_occupied: false,
        token_metadata_program: Address { bytes: cfg.metadata_program.bytes.clone() },
    }
}

fn demo_issue(
    cfg: &Config,
    accounts: &mut CreateToken,
    revoke_mint: bool,
    revoke_freeze: bool,
    revoke_update: bool,
) -> Result<token_contract::AssetHandle, ErrorCode> {
    create_token(
        cfg,
        accounts,
        String::from("Demo"),
        String::from("DEMO"),
        6,
        String::from("https://example.com/demo.json"),
        1_000_000,
        revoke_mint,
        revoke_freeze,
        revoke_update,
    )
}

#[test]
fn issuance_with_no_revocations_charges_base_fee() {
    let cfg = test_config();
    let mut accounts = test_accounts(&cfg, 300_000_000);
    let handle = demo_issue(&cfg, &mut accounts, false, false, false).unwrap();

    assert_eq!(handle.fee_paid, 200_000_000);
    assert_eq!(accounts.payer_balance, 100_000_000);
    assert_eq!(accounts.treasury_balance, 200_000_000);
    assert!(accounts.holding_occupied);

    assert_eq!(handle.holding.amount, 1_000_000u64 * 1_000_000);
    assert_eq!(handle.asset.supply, 1_000_000_000_000);
    assert_eq!(handle.asset.decimals, 6);
    assert_eq!(handle.asset.address.bytes, vec![9; 32]);

    match &handle.asset.mint_authority {
        Capability::Held(a) => assert_eq!(a.bytes, vec![7; 32]),
        Capability::Revoked => panic!("mint authority should stay held"),
    }
    match &handle.asset.freeze_authority {
        Capability::Held(a) => assert_eq!(a.bytes, vec![7; 32]),
        Capability::Revoked => panic!("freeze authority should stay held"),
    }
    match &handle.metadata_record.update_authority {
        Capability::Held(a) => assert_eq!(a.bytes, vec![7; 32]),
        Capability::Revoked => panic!("update authority should stay held"),
    }
    assert!(handle.metadata_record.is_mutable);
    assert_eq!(handle.metadata_record.name, "Demo");
    assert_eq!(handle.metadata_record.symbol, "DEMO");

    let (expected_holding, expected_bump) =
        derive_holding_address(&accounts.payer, &accounts.mint, &cfg.program_id).unwrap();
    assert_eq!(handle.holding.address.bytes, expected_holding.bytes);
    assert_eq!(handle.holding.bump, expected_bump);
    assert_eq!(handle.holding.owner.bytes, vec![7; 32]);

    assert_eq!(handle.calls.len(), 4);
    match &handle.calls[0] {
        ExternalCall::TransferFee { from, to, lamports } => {
            assert_eq!(from.bytes, vec![7; 32]);
            assert_eq!(to.bytes, vec![2; 32]);
            assert_eq!(*lamports, 200_000_000);
        }
        _ => panic!("the fee transfer must come first"),
    }
}

#[test]
fn issuance_with_all_revocations_discounts_and_revokes() {
    let cfg = test_config();
    let mut accounts = test_accounts(&cfg, 300_000_000);
    let handle = demo_issue(&cfg, &mut accounts, true, true, true).unwrap();

    assert_eq!(handle.fee_paid, 50_000_000);
    assert_eq!(accounts.payer_balance, 250_000_000);
    assert_eq!(accounts.treasury_balance, 50_000_000);

    assert!(matches!(handle.asset.mint_authority, Capability::Revoked));
    assert!(matches!(handle.asset.freeze_authority, Capability::Revoked));
    assert!(matches!(handle.metadata_record.update_authority, Capability::Revoked));
    assert!(!handle.metadata_record.is_mutable);

    assert_eq!(handle.calls.len(), 7);
    assert!(matches!(handle.calls[4], ExternalCall::ClearMetadataAuthority { .. }));
    assert!(matches!(handle.calls[5], ExternalCall::RevokeMintAuthority { .. }));
    assert!(matches!(handle.calls[6], ExternalCall::RevokeFreezeAuthority { .. }));
}

#[test]
fn decimals_nineteen_always_fails_without_effect() {
    let cfg = test_config();
    let mut accounts = test_accounts(&cfg, 300_000_000);
    let r = create_token(
        &cfg,
        &mut accounts,
        String::from("Demo"),
        String::from("DEMO"),
        19,
        String::from("u"),
        1_000_000,
        false,
        false,
        false,
    );
    assert_eq!(r.unwrap_err(), ErrorCode::InvalidDecimals);
    assert_eq!(accounts.payer_balance, 300_000_000);
    assert_eq!(accounts.treasury_balance, 0);
    assert!(!accounts.holding_occupied);
}

#[test]
fn scaled_supply_overflow_fails_without_partial_mint() {
    let cfg = test_config();
    let mut accounts = test_accounts(&cfg, 300_000_000);
    // 19 * 10^18 exceeds the 64-bit balance representation
    let r = create_token(
        &cfg,
        &mut accounts,
        String::from("Demo"),
        String::from("DEMO"),
        18,
        String::from("u"),
        19,
        false,
        false,
        false,
    );
    assert_eq!(r.unwrap_err(), ErrorCode::InvalidInitialSupply);
    assert_eq!(accounts.payer_balance, 300_000_000);
    assert_eq!(accounts.treasury_balance, 0);
    assert!(!accounts.holding_occupied);
}

#[test]
fn resubmission_fails_at_holding_account_not_validation() {
    let cfg = test_config();
    let mut accounts = test_accounts(&cfg, 600_000_000);
    demo_issue(&cfg, &mut accounts, false, false, false).unwrap();
    assert!(accounts.holding_occupied);

    let r = demo_issue(&cfg, &mut accounts, false, false, false);
    assert_eq!(r.unwrap_err(), ErrorCode::TokenAccountAlreadyInitialized);
    // the failed resubmission moved no lamports
    assert_eq!(accounts.payer_balance, 400_000_000);
    assert_eq!(accounts.treasury_balance, 200_000_000);
}

#[test]
fn wrong_treasury_is_rejected() {
    let cfg = test_config();
    let mut accounts = test_accounts(&cfg, 300_000_000);
    accounts.treasury = addr(8);
    let r = demo_issue(&cfg, &mut accounts, false, false, false);
    assert_eq!(r.unwrap_err(), ErrorCode::UnauthorizedTreasury);
}

#[test]
fn wrong_metadata_account_is_rejected() {
    let cfg = test_config();
    let mut accounts = test_accounts(&cfg, 300_000_000);
    accounts.metadata = addr(4);
    let r = demo_issue(&cfg, &mut accounts, false, false, false);
    assert_eq!(r.unwrap_err(), ErrorCode::InvalidMetadataAccount);
    assert_eq!(accounts.payer_balance, 300_000_000);
}

#[test]
fn insufficient_funds_is_reported_before_any_effect() {
    let cfg = test_config();
    let mut accounts = test_accounts(&cfg, 10);
    let r = demo_issue(&cfg, &mut accounts, false, false, false);
    assert_eq!(r.unwrap_err(), ErrorCode::InsufficientFunds);
    assert_eq!(accounts.payer_balance, 10);
    assert_eq!(accounts.treasury_balance, 0);
}

#[test]
fn fee_underflow_is_reported_for_a_small_base_fee() {
    let cfg = Config::new(
        addr(3),
        addr(2),
        Address { bytes: mpl_token_metadata::ID.to_bytes().to_vec() },
        100_000_000,
        60_000_000,
    )
    .unwrap();
    let mut accounts = test_accounts(&cfg, 300_000_000);
    let r = demo_issue(&cfg, &mut accounts, true, true, false);
    assert_eq!(r.unwrap_err(), ErrorCode::InvalidFeeCalculation);
    assert_eq!(accounts.payer_balance, 300_000_000);
}
