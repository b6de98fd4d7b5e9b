use suipay::auth::{
    check_credential, issue_claims, wallet_login_claims, AuthError, Claims, LoginRequest,
    PresentedCredential, CREDENTIAL_LIFETIME_SECS,
};

#[test]
fn issued_claims_last_a_day() {
    let c = issue_claims("0xAB".to_string(), 1_000).unwrap();
    assert_eq!(c.sub, "0xAB");
    assert_eq!(c.exp, 1_000 + 86_400);
    assert_eq!(CREDENTIAL_LIFETIME_SECS, 86_400);
}

#[test]
fn issue_fails_when_expiry_overflows() {
    assert!(matches!(issue_claims("x".to_string(), usize::MAX - 10), Err(AuthError::InvalidToken)));
}

#[test]
fn credential_round_trip() {
    let c = issue_claims("0xAB".to_string(), 500).unwrap();
    let ok = check_credential(PresentedCredential::Signed(c), 501).unwrap();
    assert_eq!(ok.sub, "0xAB");
    let c = issue_claims("0xAB".to_string(), 500).unwrap();
    assert!(matches!(
        check_credential(PresentedCredential::Signed(c), 500 + 86_400),
        Err(AuthError::InvalidToken)
    ));
}

#[test]
fn auth_faults_are_distinct() {
    assert!(matches!(check_credential(PresentedCredential::Missing, 0), Err(AuthError::MissingCredentials)));
    assert!(matches!(check_credential(PresentedCredential::Unverified, 0), Err(AuthError::InvalidToken)));
    let expired = Claims { sub: "s".to_string(), exp: 10 };
    assert!(matches!(check_credential(PresentedCredential::Signed(expired), 10), Err(AuthError::InvalidToken)));
    assert_eq!(AuthError::MissingCredentials.status_code(), 400);
    assert_eq!(AuthError::InvalidToken.status_code(), 401);
    assert_eq!(AuthError::ZkLoginError("bad".to_string()).status_code(), 422);
    assert_eq!(AuthError::ZkLoginError(String::new()).status_code(), 422);
    assert_eq!(AuthError::InvalidToken.message(), "Invalid token");
    assert_eq!(AuthError::MissingCredentials.message(), "Missing credentials");
    assert_eq!(AuthError::ZkLoginError("bad".to_string()).message(), "bad");
}

#[test]
fn wallet_login_needs_verified_signature() {
    let req = || LoginRequest { address: "0xAB".to_string(), signature: "sig".to_string(), message: "m".to_string() };
    assert!(matches!(wallet_login_claims(req(), false, 0), Err(AuthError::InvalidToken)));
    let c = wallet_login_claims(req(), true, 7).unwrap();
    assert_eq!(c.sub, "0xAB");
    assert_eq!(c.exp, 7 + 86_400);
}
