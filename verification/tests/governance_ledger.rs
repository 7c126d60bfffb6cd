use token_contract::{
    initialize_security, update_security, Address, ErrorCode, InitializeSecurity, UpdateSecurity,
};

fn addr(fill: u8) -> Address {
    Address { bytes: vec![fill; 32] }
}

#[test]
fn first_initialization_succeeds() {
    let mut accounts = InitializeSecurity { security: None, authority: addr(1) };
    assert_eq!(initialize_security(&mut accounts, 1_700_000_000), Ok(()));
    let rec = accounts.security.unwrap();
    assert_eq!(rec.admin.bytes, vec![1; 32]);
    assert_eq!(rec.version, 0);
    assert_eq!(rec.last_updated, 1_700_000_000);
    assert_eq!(
        rec.security_txt,
        "Contact: support@swapforge.app\nWebsite: https://swapforge.app/\nTwitter: https://x.com/SwapForgeApp\nPolicy: https://swapforge.app/security\nEncryption: https://swapforge.app/pgp-key.txt"
    );
}

#[test]
fn second_initialization_fails_and_changes_nothing() {
    let mut accounts = InitializeSecurity { security: None, authority: addr(1) };
    assert_eq!(initialize_security(&mut accounts, 100), Ok(()));
    let first_txt = accounts.security.as_ref().unwrap().security_txt.clone();

    let mut again = InitializeSecurity {
        security: accounts.security,
        authority: addr(2),
    };
    assert_eq!(initialize_security(&mut again, 200), Err(ErrorCode::AlreadyInitialized));
    let rec = again.security.unwrap();
    assert_eq!(rec.admin.bytes, vec![1; 32]);
    assert_eq!(rec.security_txt, first_txt);
    assert_eq!(rec.last_updated, 100);
}

#[test]
fn update_by_stranger_fails_and_changes_nothing() {
    let mut init = InitializeSecurity { security: None, authority: addr(1) };
    initialize_security(&mut init, 100).unwrap();
    let rec = init.security.unwrap();
    let old_txt = rec.security_txt.clone();

    let mut accounts = UpdateSecurity { security: rec, authority: addr(2) };
    assert_eq!(
        update_security(&mut accounts, String::from("new text"), 200),
        Err(ErrorCode::UnauthorizedSigner)
    );
    assert_eq!(accounts.security.version, 0);
    assert_eq!(accounts.security.security_txt, old_txt);
    assert_eq!(accounts.security.last_updated, 100);
}

#[test]
fn update_with_long_content_fails() {
    let mut init = InitializeSecurity { security: None, authority: addr(1) };
    initialize_security(&mut init, 100).unwrap();
    let mut accounts = UpdateSecurity { security: init.security.unwrap(), authority: addr(1) };
    let long: String = "y".repeat(1001);
    assert_eq!(update_security(&mut accounts, long, 200), Err(ErrorCode::ContentTooLong));
    assert_eq!(accounts.security.version, 0);
}

#[test]
fn update_by_admin_bumps_version_once() {
    let mut init = InitializeSecurity { security: None, authority: addr(1) };
    initialize_security(&mut init, 100).unwrap();
    let mut accounts = UpdateSecurity { security: init.security.unwrap(), authority: addr(1) };

    let exactly_1000: String = "z".repeat(1000);
    assert_eq!(update_security(&mut accounts, exactly_1000.clone(), 200), Ok(()));
    assert_eq!(accounts.security.version, 1);
    assert_eq!(accounts.security.security_txt, exactly_1000);
    assert_eq!(accounts.security.last_updated, 200);
    assert_eq!(accounts.security.admin.bytes, vec![1; 32]);

    assert_eq!(update_security(&mut accounts, String::from("v2"), 300), Ok(()));
    assert_eq!(accounts.security.version, 2);
}
