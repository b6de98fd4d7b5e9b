//! Wallet logins: checking a signed personal message against the address
//! that claims it.
//!
//! The signature arrives in base64 as a scheme flag (zero for Ed25519), the
//! 64-byte signature and the 32-byte public key. What is signed is the
//! Blake2b-256 digest of the personal-message intent: the bytes `3, 0, 0`,
//! the message length in ULEB128 and the message. The address of a key is
//! `0x` and the hex of the Blake2b-256 digest of the flag and the key.
use crate::auth::{issued_claims, wallet_login_claims, AuthError, Claims, LoginRequest};
use crate::identity::{hex_bytes, push_hex};
use vstd::prelude::*;
use vstd::utf8::encode_utf8;

verus! {

/// Length of a serialized Ed25519 signature: flag, signature, public key.
pub const SERIALIZED_SIGNATURE_LEN: usize = 97;

/// Standard base64 decoding of a text, if it is well formed.
pub uninterp spec fn base64_decoded(s: Seq<char>) -> Option<Seq<u8>>;

/// The 32-byte Blake2b digest of a byte sequence.
pub uninterp spec fn blake2b256_of(data: Seq<u8>) -> Seq<u8>;

/// Whether strict Ed25519 verification accepts a signature on a message
/// under a public key.
pub uninterp spec fn ed25519_accepts(public_key: Seq<u8>, message: Seq<u8>, signature: Seq<u8>) -> bool;

/// Relies on `base64::Engine::decode` with the standard padded alphabet:
/// the decoded bytes, or nothing for a malformed text.
#[verifier::external_body]
fn base64_decode(s: &str) -> (r: Option<Vec<u8>>)
    ensures
        match r {
            Some(b) => base64_decoded(s@) == Some(b@),
            None => base64_decoded(s@) is None,
        },
{
    base64::Engine::decode(&base64::engine::general_purpose::STANDARD, s).ok()
}

/// Relies on `blake2::Blake2b<U32>` through `Digest::digest`: the 32-byte
/// Blake2b digest of the input.
#[verifier::external_body]
fn blake2b256(data: &[u8]) -> (r: Vec<u8>)
    ensures
        r@ == blake2b256_of(data@),
        r@.len() == 32,
{
    <blake2::Blake2b<blake2::digest::consts::U32> as blake2::Digest>::digest(data).to_vec()
}

/// Relies on `ed25519_dalek::VerifyingKey::verify_strict`; a key that is not
/// a valid point, or a signature of the wrong length, is not accepted.
#[verifier::external_body]
fn ed25519_verify(public_key: &[u8], message: &[u8], signature: &[u8]) -> (r: bool)
    ensures
        r == ed25519_accepts(public_key@, message@, signature@),
{
    match (
        ed25519_dalek::VerifyingKey::try_from(public_key),
        ed25519_dalek::Signature::from_slice(signature),
    ) {
        (Ok(key), Ok(sig)) => key.verify_strict(message, &sig).is_ok(),
        _ => false,
    }
}

/// Unsigned LEB128: seven bits per byte, low bits first, the high bit set
/// on every byte but the last.
pub open spec fn uleb128(n: nat) -> Seq<u8>
    decreases n,
{
    if n < 128 {
        seq![n as u8]
    } else {
        seq![(n % 128 + 128) as u8] + uleb128(n / 128)
    }
}

/// The bytes a wallet signs for a personal message.
pub open spec fn personal_message_intent(message: Seq<u8>) -> Seq<u8> {
    seq![3u8, 0u8, 0u8] + uleb128(message.len()) + message
}

/// The address text, as bytes, of an Ed25519 public key.
pub open spec fn address_of_key(public_key: Seq<u8>) -> Seq<u8> {
    seq![48u8, 120u8] + hex_bytes(blake2b256_of(seq![0u8] + public_key))
}

/// The signature is a well-formed Ed25519 signature on the message, by the
/// key whose address is the one claimed.
pub open spec fn wallet_signature_valid(
    address: Seq<char>,
    signature: Seq<char>,
    message: Seq<char>,
) -> bool {
    match base64_decoded(signature) {
        None => false,
        Some(b) => {
            &&& b.len() == SERIALIZED_SIGNATURE_LEN
            &&& b[0] == 0u8
            &&& encode_utf8(address) == address_of_key(b.subrange(65, 97))
            &&& ed25519_accepts(
                b.subrange(65, 97),
                blake2b256_of(personal_message_intent(encode_utf8(message))),
                b.subrange(1, 65),
            )
        },
    }
}

fn push_uleb128(out: &mut Vec<u8>, n: u64)
    ensures
        final(out)@ == old(out)@ + uleb128(n as nat),
{
    let mut v: u64 = n;
    while v >= 128
        invariant
            out@ + uleb128(v as nat) == old(out)@ + uleb128(n as nat),
        decreases v,
    {
        let ghost before = out@;
        assert(uleb128(v as nat) == seq![(v % 128 + 128) as u8] + uleb128((v / 128) as nat));
        out.push((v % 128 + 128) as u8);
        v = v / 128;
        assert(out@ + uleb128(v as nat) =~= before + (seq![out@.last()] + uleb128(v as nat)));
    }
    out.push(v as u8);
    assert(out@ =~= old(out)@ + uleb128(n as nat));
}

fn copy_range(b: &Vec<u8>, start: usize, end: usize) -> (r: Vec<u8>)
    requires
        start <= end <= b@.len(),
    ensures
        r@ == b@.subrange(start as int, end as int),
{
    let mut r: Vec<u8> = Vec::new();
    let mut i: usize = start;
    while i < end
        invariant
            start <= i <= end,
            end <= b@.len(),
            r@ == b@.subrange(start as int, i as int),
        decreases end - i,
    {
        r.push(b[i]);
        i = i + 1;
        assert(r@ =~= b@.subrange(start as int, i as int));
    }
    r
}

fn bytes_equal(a: &[u8], b: &[u8]) -> (r: bool)
    ensures
        r == (a@ == b@),
{
    if a.len() != b.len() {
        return false;
    }
    let mut i: usize = 0;
    while i < a.len()
        invariant
            a@.len() == b@.len(),
            i <= a@.len(),
            forall|k: int| 0 <= k < i ==> a@[k] == b@[k],
        decreases a@.len() - i,
    {
        if a[i] != b[i] {
            return false;
        }
        i = i + 1;
    }
    assert(a@ =~= b@);
    true
}

/// Checks a wallet login's signature against its message and address.
pub fn verify_wallet_signature(req: &LoginRequest) -> (r: bool)
    ensures
        r == wallet_signature_valid(req.address@, req.signature@, req.message@),
{
    let decoded = base64_decode(req.signature.as_str());
    let b = match decoded {
        None => return false,
        Some(b) => b,
    };
    if b.len() != SERIALIZED_SIGNATURE_LEN || b[0] != 0u8 {
        return false;
    }
    let signature = copy_range(&b, 1, 65);
    let public_key = copy_range(&b, 65, 97);

    let mut flagged: Vec<u8> = Vec::new();
    flagged.push(0u8);
    let mut i: usize = 0;
    while i < public_key.len()
        invariant
            i <= public_key@.len(),
            flagged@ == seq![0u8] + public_key@.take(i as int),
        decreases public_key@.len() - i,
    {
        flagged.push(public_key[i]);
        i = i + 1;
        assert(flagged@ =~= seq![0u8] + public_key@.take(i as int));
    }
    assert(public_key@.take(public_key@.len() as int) =~= public_key@);
    let key_digest = blake2b256(flagged.as_slice());
    let mut expected: Vec<u8> = Vec::new();
    expected.push(48u8);
    expected.push(120u8);
    push_hex(&mut expected, &key_digest);
    assert(expected@ =~= address_of_key(public_key@));
    if !bytes_equal(req.address.as_str().as_bytes(), expected.as_slice()) {
        return false;
    }

    let message = req.message.as_str().as_bytes();
    let mut intent: Vec<u8> = Vec::new();
    intent.push(3u8);
    intent.push(0u8);
    intent.push(0u8);
    push_uleb128(&mut intent, message.len() as u64);
    let mut j: usize = 0;
    let ghost head = intent@;
    while j < message.len()
        invariant
            j <= message@.len(),
            intent@ == head + message@.take(j as int),
        decreases message@.len() - j,
    {
        intent.push(message[j]);
        j = j + 1;
        assert(intent@ =~= head + message@.take(j as int));
    }
    assert(message@.take(message@.len() as int) =~= message@);
    assert(intent@ =~= personal_message_intent(encode_utf8(req.message@)));
    let digest = blake2b256(intent.as_slice());
    ed25519_verify(public_key.as_slice(), digest.as_slice(), signature.as_slice())
}

/// Claims for a wallet login, issued only when its signature holds.
pub fn wallet_login(req: LoginRequest, now: usize) -> (r: Result<Claims, AuthError>)
    ensures
        wallet_signature_valid(req.address@, req.signature@, req.message@) ==> r == issued_claims(
            req.address,
            now,
        ),
        !wallet_signature_valid(req.address@, req.signature@, req.message@) ==> r == Err::<
            Claims,
            AuthError,
        >(AuthError::InvalidToken),
{
    let verified = verify_wallet_signature(&req);
    wallet_login_claims(req, verified, now)
}

} // verus!
