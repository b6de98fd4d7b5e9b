use base64::Engine;
use blake2::Digest;
use ed25519_dalek::{Signer, SigningKey};
use suipay::auth::{AuthError, LoginRequest};
use suipay::wallet::{verify_wallet_signature, wallet_login};

type Blake2b256 = blake2::Blake2b<blake2::digest::consts::U32>;

fn address_of(key: &SigningKey) -> String {
    let mut flagged = vec![0u8];
    flagged.extend_from_slice(key.verifying_key().as_bytes());
    let digest = Blake2b256::digest(&flagged);
    let hex: String = digest.iter().map(|b| format!("{:02x}", b)).collect();
    format!("0x{}", hex)
}

fn uleb(mut n: usize, out: &mut Vec<u8>) {
    while n >= 128 {
        out.push((n % 128 + 128) as u8);
        n /= 128;
    }
    out.push(n as u8);
}

fn sign_personal(key: &SigningKey, message: &str) -> String {
    let mut intent = vec![3u8, 0, 0];
    uleb(message.len(), &mut intent);
    intent.extend_from_slice(message.as_bytes());
    let digest = Blake2b256::digest(&intent);
    let sig = key.sign(&digest);
    let mut serialized = vec![0u8];
    serialized.extend_from_slice(&sig.to_bytes());
    serialized.extend_from_slice(key.verifying_key().as_bytes());
    base64::engine::general_purpose::STANDARD.encode(serialized)
}

fn key() -> SigningKey {
    SigningKey::from_bytes(&[7u8; 32])
}

fn request(address: String, signature: String, message: &str) -> LoginRequest {
    LoginRequest { address, signature, message: message.to_string() }
}

#[test]
fn wallet_signature_accepted() {
    let k = key();
    let msg = "Sign in to SuiPay";
    let req = request(address_of(&k), sign_personal(&k, msg), msg);
    assert!(verify_wallet_signature(&req));
    let c = wallet_login(req, 10).unwrap();
    assert_eq!(c.sub, address_of(&k));
    assert_eq!(c.exp, 10 + 86_400);
}

#[test]
fn wallet_signature_long_message() {
    let k = key();
    let msg = "x".repeat(300);
    let req = request(address_of(&k), sign_personal(&k, &msg), &msg);
    assert!(verify_wallet_signature(&req));
}

#[test]
fn wallet_signature_rejected_for_other_message() {
    let k = key();
    let req = request(address_of(&k), sign_personal(&k, "hello"), "hullo");
    assert!(!verify_wallet_signature(&req));
    assert!(matches!(wallet_login(req, 0), Err(AuthError::InvalidToken)));
}

#[test]
fn wallet_signature_rejected_for_other_address() {
    let k = key();
    let other = SigningKey::from_bytes(&[9u8; 32]);
    let req = request(address_of(&other), sign_personal(&k, "hello"), "hello");
    assert!(!verify_wallet_signature(&req));
}

#[test]
fn wallet_signature_rejected_when_malformed() {
    let k = key();
    assert!(!verify_wallet_signature(&request(address_of(&k), "not base64!".to_string(), "hello")));
    assert!(!verify_wallet_signature(&request(address_of(&k), String::new(), "hello")));
    let mut raw = base64::engine::general_purpose::STANDARD.decode(sign_personal(&k, "hello")).unwrap();
    raw[0] = 1;
    let flagged = base64::engine::general_purpose::STANDARD.encode(&raw);
    assert!(!verify_wallet_signature(&request(address_of(&k), flagged, "hello")));
    raw.pop();
    raw[0] = 0;
    let short = base64::engine::general_purpose::STANDARD.encode(&raw);
    assert!(!verify_wallet_signature(&request(address_of(&k), short, "hello")));
}
