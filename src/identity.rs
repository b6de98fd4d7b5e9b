//! Stable addresses for logins through an external identity provider.
//!
//! The address is the SHA-256 digest of the assertion's subject, issuer and
//! audience and of a salt kept per identity, written `0x` and lower-case hex.
//! Each field is framed by its length, so that no two field lists share a
//! preimage.
use crate::auth::{issue_claims, AuthError, Claims, CREDENTIAL_LIFETIME_SECS};
use crate::indexer::string_from_utf8;
use vstd::prelude::*;
use vstd::utf8::{
    decode_utf8,
    encode_utf8,
    encode_utf8_decode_utf8,
    encode_utf8_valid_utf8,
    is_ascii_chars,
    is_ascii_chars_encode_utf8,
    valid_utf8,
};

verus! {

/// The fields of an external identity assertion that an address depends on.
#[derive(Debug)]
pub struct IdentityAssertion {
    pub subject: String,
    pub issuer: String,
    pub audience: String,
}

/// SHA-256 digest of a byte sequence.
pub uninterp spec fn sha256_of(data: Seq<u8>) -> Seq<u8>;

/// Relies on `sha2::Sha256` through `Digest::digest`: the SHA-256 digest of
/// the input, which is 32 bytes long.
#[verifier::external_body]
fn sha256(data: &[u8]) -> (r: Vec<u8>)
    ensures
        r@ == sha256_of(data@),
        r@.len() == 32,
{
    <sha2::Sha256 as sha2::Digest>::digest(data).to_vec()
}

/// A length as eight bytes, most significant first.
pub open spec fn length_prefix(n: u64) -> Seq<u8> {
    seq![
        (n / 0x100000000000000 % 256) as u8,
        (n / 0x1000000000000 % 256) as u8,
        (n / 0x10000000000 % 256) as u8,
        (n / 0x100000000 % 256) as u8,
        (n / 0x1000000 % 256) as u8,
        (n / 0x10000 % 256) as u8,
        (n / 0x100 % 256) as u8,
        (n % 256) as u8,
    ]
}

pub open spec fn framed(b: Seq<u8>) -> Seq<u8> {
    length_prefix(b.len() as u64) + b
}

/// The bytes hashed for an identity: its four fields, each framed.
pub open spec fn address_preimage(
    subject: Seq<char>,
    issuer: Seq<char>,
    audience: Seq<char>,
    salt: Seq<char>,
) -> Seq<u8> {
    framed(encode_utf8(subject)) + framed(encode_utf8(issuer)) + framed(encode_utf8(audience))
        + framed(encode_utf8(salt))
}

/// The ASCII code of a hex digit, lower case.
pub open spec fn hex_byte(d: u8) -> u8 {
    if d < 10 {
        (d + 48) as u8
    } else {
        (d + 87) as u8
    }
}

/// Each byte as two hex digits, high digit first.
pub open spec fn hex_bytes(b: Seq<u8>) -> Seq<u8>
    decreases b.len(),
{
    if b.len() == 0 {
        seq![]
    } else {
        hex_bytes(b.drop_last()) + seq![hex_byte(b.last() / 16), hex_byte(b.last() % 16)]
    }
}

/// The address text: `0x` and the digest of the preimage in hex.
pub open spec fn zk_address(
    subject: Seq<char>,
    issuer: Seq<char>,
    audience: Seq<char>,
    salt: Seq<char>,
) -> Seq<char> {
    (seq![48u8, 120u8] + hex_bytes(sha256_of(address_preimage(subject, issuer, audience, salt)))).map_values(
        |x: u8| x as char,
    )
}

fn push_framed(out: &mut Vec<u8>, s: &str)
    ensures
        final(out)@ == old(out)@ + framed(encode_utf8(s@)),
{
    let b = s.as_bytes();
    let n = b.len() as u64;
    out.push((n / 0x100000000000000 % 256) as u8);
    out.push((n / 0x1000000000000 % 256) as u8);
    out.push((n / 0x10000000000 % 256) as u8);
    out.push((n / 0x100000000 % 256) as u8);
    out.push((n / 0x1000000 % 256) as u8);
    out.push((n / 0x10000 % 256) as u8);
    out.push((n / 0x100 % 256) as u8);
    out.push((n % 256) as u8);
    assert(out@ =~= old(out)@ + length_prefix(n));
    let ghost start = out@;
    let mut i: usize = 0;
    while i < b.len()
        invariant
            i <= b@.len(),
            out@ == start + b@.take(i as int),
        decreases b@.len() - i,
    {
        out.push(b[i]);
        i = i + 1;
        assert(out@ =~= start + b@.take(i as int));
    }
    assert(b@.take(b@.len() as int) =~= b@);
    assert(out@ =~= old(out)@ + framed(encode_utf8(s@)));
}

pub(crate) fn push_hex(out: &mut Vec<u8>, b: &Vec<u8>)
    ensures
        final(out)@ == old(out)@ + hex_bytes(b@),
{
    let mut i: usize = 0;
    while i < b.len()
        invariant
            i <= b@.len(),
            out@ == old(out)@ + hex_bytes(b@.take(i as int)),
        decreases b@.len() - i,
    {
        let hi = b[i] / 16;
        let lo = b[i] % 16;
        out.push(if hi < 10 { hi + 48 } else { hi + 87 });
        out.push(if lo < 10 { lo + 48 } else { lo + 87 });
        i = i + 1;
        assert(b@.take(i as int).drop_last() =~= b@.take(i - 1));
        assert(out@ =~= old(out)@ + hex_bytes(b@.take(i as int)));
    }
    assert(b@.take(b@.len() as int) =~= b@);
}

proof fn lemma_hex_bytes_ascii(b: Seq<u8>)
    ensures
        forall|i: int| 0 <= i < hex_bytes(b).len() ==> #[trigger] hex_bytes(b)[i] < 128,
        hex_bytes(b).len() == 2 * b.len(),
    decreases b.len(),
{
    if b.len() > 0 {
        lemma_hex_bytes_ascii(b.drop_last());
    }
}

/// The address of an identity under a salt.
pub fn derive_zk_address(assertion: &IdentityAssertion, salt: &str) -> (r: String)
    ensures
        r@ == zk_address(assertion.subject@, assertion.issuer@, assertion.audience@, salt@),
{
    let mut preimage: Vec<u8> = Vec::new();
    push_framed(&mut preimage, assertion.subject.as_str());
    push_framed(&mut preimage, assertion.issuer.as_str());
    push_framed(&mut preimage, assertion.audience.as_str());
    push_framed(&mut preimage, salt);
    assert(preimage@ =~= address_preimage(
        assertion.subject@,
        assertion.issuer@,
        assertion.audience@,
        salt@,
    ));
    let digest = sha256(preimage.as_slice());
    let mut text: Vec<u8> = Vec::new();
    text.push(48u8);
    text.push(120u8);
    push_hex(&mut text, &digest);
    let ghost bytes = text@;
    let ghost chars = bytes.map_values(|x: u8| x as char);
    proof {
        lemma_hex_bytes_ascii(digest@);
        assert(bytes =~= seq![48u8, 120u8] + hex_bytes(digest@));
        assert(is_ascii_chars(chars)) by {
            assert forall|i: int| 0 <= i < chars.len() implies '\0' <= #[trigger] chars[i] <= '\u{7f}' by {
                if i >= 2 {
                    assert(bytes[i] == hex_bytes(digest@)[i - 2]);
                }
            }
        }
        is_ascii_chars_encode_utf8(chars);
        assert(encode_utf8(chars) =~= bytes);
        encode_utf8_valid_utf8(chars);
        encode_utf8_decode_utf8(chars);
    }
    match string_from_utf8(text) {
        Some(s) => s,
        None => String::new(),
    }
}

/// Under two different salts the hashed preimages of one assertion differ,
/// so the addresses differ unless SHA-256 collides on them. (That one
/// assertion and salt always give one address is the `ensures` of
/// `derive_zk_address`, which fixes the result from its arguments alone.)
pub proof fn law_salt_separates_preimages(
    subject: Seq<char>,
    issuer: Seq<char>,
    audience: Seq<char>,
    salt: Seq<char>,
    other_salt: Seq<char>,
)
    requires
        salt != other_salt,
    ensures
        address_preimage(subject, issuer, audience, salt) != address_preimage(
            subject,
            issuer,
            audience,
            other_salt,
        ),
{
    let e1 = encode_utf8(salt);
    let e2 = encode_utf8(other_salt);
    let head = framed(encode_utf8(subject)) + framed(encode_utf8(issuer)) + framed(
        encode_utf8(audience),
    );
    if address_preimage(subject, issuer, audience, salt) == address_preimage(
        subject,
        issuer,
        audience,
        other_salt,
    ) {
        lemma_framed_tail_injective(head, e1, e2);
        encode_utf8_decode_utf8(salt);
        encode_utf8_decode_utf8(other_salt);
    }
}

proof fn lemma_framed_tail_injective(head: Seq<u8>, a: Seq<u8>, b: Seq<u8>)
    requires
        head + framed(a) == head + framed(b),
    ensures
        a == b,
{
    let x = head + framed(a);
    let y = head + framed(b);
    assert(framed(a) =~= x.subrange(head.len() as int, x.len() as int));
    assert(framed(b) =~= y.subrange(head.len() as int, y.len() as int));
    assert(a =~= framed(a).subrange(8, framed(a).len() as int));
    assert(b =~= framed(b).subrange(8, framed(b).len() as int));
}

/// Claims for a login through an external identity: the subject is the
/// address derived from the assertion and the stored salt. An assertion
/// that could not be read, or an identity without a stored salt, is refused;
/// no salt is ever made up here.
pub fn zk_login_claims(assertion: Option<IdentityAssertion>, salt: Option<String>, now: usize) -> (r:
    Result<Claims, AuthError>)
    ensures
        assertion is None ==> r is Err && r->Err_0 is ZkLoginError,
        assertion is Some && salt is None ==> r is Err && r->Err_0 is ZkLoginError,
        assertion is Some && salt is Some ==> ({
            let a = assertion->Some_0;
            &&& r is Ok <==> now + CREDENTIAL_LIFETIME_SECS <= usize::MAX
            &&& r is Ok ==> r->Ok_0.sub@ == zk_address(
                a.subject@,
                a.issuer@,
                a.audience@,
                salt->Some_0@,
            ) && r->Ok_0.exp == now + CREDENTIAL_LIFETIME_SECS
            &&& r is Err ==> r->Err_0 is InvalidToken
        }),
{
    match assertion {
        None => Err(AuthError::ZkLoginError("malformed identity assertion".to_string())),
        Some(a) => match salt {
            None => Err(AuthError::ZkLoginError("no salt stored for this identity".to_string())),
            Some(salt) => {
                let address = derive_zk_address(&a, salt.as_str());
                issue_claims(address, now)
            },
        },
    }
}

} // verus!
