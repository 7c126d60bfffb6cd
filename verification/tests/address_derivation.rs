use solana_program::pubkey::Pubkey;
use token_contract::{
    address_eq, derive_governance_address, derive_holding_address, derive_metadata_address,
    Address, Config,
};

fn addr(fill: u8) -> Address {
    Address { bytes: vec![fill; 32] }
}

#[test]
fn holding_derivation_is_deterministic() {
    let payer = addr(7);
    let mint = addr(9);
    let program = addr(3);
    let (a1, b1) = derive_holding_address(&payer, &mint, &program).unwrap();
    let (a2, b2) = derive_holding_address(&payer, &mint, &program).unwrap();
    assert_eq!(a1.bytes, a2.bytes);
    assert_eq!(b1, b2);
}

#[test]
fn holding_derivation_matches_the_ledger_sdk() {
    let payer = addr(7);
    let mint = addr(9);
    let program = addr(3);
    let (a, bump) = derive_holding_address(&payer, &mint, &program).unwrap();
    let pid = Pubkey::try_from(program.bytes.as_slice()).unwrap();
    let (expected, expected_bump) = Pubkey::find_program_address(
        &[b"token-account", &payer.bytes, &mint.bytes],
        &pid,
    );
    assert_eq!(a.bytes, expected.to_bytes().to_vec());
    assert_eq!(bump, expected_bump);
}

#[test]
fn metadata_derivation_matches_the_ledger_sdk() {
    let mint = addr(9);
    let registry = Address { bytes: mpl_token_metadata::ID.to_bytes().to_vec() };
    let (a, bump) = derive_metadata_address(&registry, &mint).unwrap();
    let (expected, expected_bump) = Pubkey::find_program_address(
        &[b"metadata", &registry.bytes, &mint.bytes],
        &mpl_token_metadata::ID,
    );
    assert_eq!(a.bytes, expected.to_bytes().to_vec());
    assert_eq!(bump, expected_bump);
}

#[test]
fn governance_derivation_matches_the_ledger_sdk() {
    let program = addr(3);
    let (a, bump) = derive_governance_address(&program).unwrap();
    let pid = Pubkey::try_from(program.bytes.as_slice()).unwrap();
    let (expected, expected_bump) = Pubkey::find_program_address(&[b"program-security"], &pid);
    assert_eq!(a.bytes, expected.to_bytes().to_vec());
    assert_eq!(bump, expected_bump);

    let (again, again_bump) = derive_governance_address(&program).unwrap();
    assert_eq!(a.bytes, again.bytes);
    assert_eq!(bump, again_bump);
}

#[test]
fn different_payers_get_different_holding_accounts() {
    let mint = addr(9);
    let program = addr(3);
    let (a1, _) = derive_holding_address(&addr(1), &mint, &program).unwrap();
    let (a2, _) = derive_holding_address(&addr(2), &mint, &program).unwrap();
    assert_ne!(a1.bytes, a2.bytes);
}

#[test]
fn address_equality_is_byte_equality() {
    assert!(address_eq(&addr(5), &addr(5)));
    assert!(!address_eq(&addr(5), &addr(6)));
    let short = Address { bytes: vec![5; 31] };
    assert!(!address_eq(&addr(5), &short));
}

#[test]
fn from_bytes_demands_exactly_32() {
    assert!(Address::from_bytes(vec![0; 32]).is_some());
    assert!(Address::from_bytes(vec![0; 31]).is_none());
    assert!(Address::from_bytes(vec![0; 33]).is_none());
}

#[test]
fn standard_config_matches_the_published_addresses() {
    let cfg = Config::standard().unwrap();
    assert_eq!(cfg.base_fee, 200_000_000);
    assert_eq!(cfg.revoke_discount, 50_000_000);
    let treasury =
        <Pubkey as core::str::FromStr>::from_str("DW69JZRd1j3Y2DsEhF2biwk3DPdn6BLeG51AFXg18ho2")
            .unwrap();
    assert_eq!(cfg.treasury.bytes, treasury.to_bytes().to_vec());
    let program =
        <Pubkey as core::str::FromStr>::from_str("AkugdJHDjDvBaxUGC6pjyrfqEpDfJ4Z9Ji9NED6Lmddg")
            .unwrap();
    assert_eq!(cfg.program_id.bytes, program.to_bytes().to_vec());
    assert_eq!(cfg.metadata_program.bytes, mpl_token_metadata::ID.to_bytes().to_vec());
}
