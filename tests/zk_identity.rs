use sha2::Digest;
use suipay::auth::AuthError;
use suipay::identity::{derive_zk_address, zk_login_claims, IdentityAssertion};

fn assertion() -> IdentityAssertion {
    IdentityAssertion {
        subject: "1234".to_string(),
        issuer: "https://accounts.google.com".to_string(),
        audience: "client-a".to_string(),
    }
}

fn framed(out: &mut Vec<u8>, s: &str) {
    out.extend_from_slice(&(s.len() as u64).to_be_bytes());
    out.extend_from_slice(s.as_bytes());
}

#[test]
fn address_is_hex_digest_of_framed_fields() {
    let mut pre = Vec::new();
    framed(&mut pre, "1234");
    framed(&mut pre, "https://accounts.google.com");
    framed(&mut pre, "client-a");
    framed(&mut pre, "1234567890");
    let digest = sha2::Sha256::digest(&pre);
    let expected: String = std::iter::once("0x".to_string())
        .chain(digest.iter().map(|b| format!("{:02x}", b)))
        .collect();
    let got = derive_zk_address(&assertion(), "1234567890");
    assert_eq!(got, expected);
    assert_eq!(got.len(), 66);
}

#[test]
fn derivation_is_deterministic() {
    let a = derive_zk_address(&assertion(), "salt-1");
    let b = derive_zk_address(&assertion(), "salt-1");
    assert_eq!(a, b);
    let c = derive_zk_address(&assertion(), "salt-2");
    assert_ne!(a, c);
}

#[test]
fn zk_login_fails_closed() {
    assert!(matches!(zk_login_claims(None, Some("s".to_string()), 0), Err(AuthError::ZkLoginError(_))));
    assert!(matches!(zk_login_claims(Some(assertion()), None, 0), Err(AuthError::ZkLoginError(_))));
    let c = zk_login_claims(Some(assertion()), Some("s".to_string()), 100).unwrap();
    assert_eq!(c.sub, derive_zk_address(&assertion(), "s"));
    assert_eq!(c.exp, 100 + 86_400);
}
