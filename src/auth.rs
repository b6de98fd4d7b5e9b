//! Bearer credentials: issuing claims for a proven subject and deciding
//! whether a presented credential admits its bearer.
//!
//! Signing and signature checking are done by the caller with the service's
//! secret; this module fixes the claims that get signed and judges what the
//! signature check handed back.
use vstd::prelude::*;

verus! {

/// How long a credential stays valid after it is issued, in seconds.
pub const CREDENTIAL_LIFETIME_SECS: usize = 86400;

/// The signed assertion: a subject and the second at which it stops holding.
#[derive(Debug)]
pub struct Claims {
    pub sub: String,
    pub exp: usize,
}

/// A wallet login: the address, and a signature over the message.
#[derive(Debug)]
pub struct LoginRequest {
    pub address: String,
    pub signature: String,
    pub message: String,
}

/// A login through an external identity provider's signed token.
#[derive(Debug)]
pub struct ZkLoginVerifyRequest {
    pub jwt: String,
}

#[derive(Debug)]
pub struct LoginResponse {
    pub token: String,
    pub sui_address: String,
}

#[derive(Debug)]
pub enum AuthError {
    /// A credential was presented but is unsigned, malformed, expired, or
    /// could not be issued.
    InvalidToken,
    /// No credential was presented.
    MissingCredentials,
    /// An external identity assertion could not be turned into an address.
    ZkLoginError(String),
}

/// What the request carried, after the caller checked any signature on it.
#[derive(Debug)]
pub enum PresentedCredential {
    /// No authorization header.
    Missing,
    /// A header that is not a bearer credential, or whose signature does not
    /// hold under the current secret.
    Unverified,
    /// A credential whose signature holds, with the claims it carries.
    Signed(Claims),
}

/// The claims issued at second `now` for `subject`.
pub open spec fn issued_claims(subject: String, now: usize) -> Result<Claims, AuthError> {
    if now + CREDENTIAL_LIFETIME_SECS <= usize::MAX {
        Ok(Claims { sub: subject, exp: (now + CREDENTIAL_LIFETIME_SECS) as usize })
    } else {
        Err(AuthError::InvalidToken)
    }
}

/// The verdict on a presented credential at second `now`.
pub open spec fn credential_outcome(p: PresentedCredential, now: usize) -> Result<Claims, AuthError> {
    match p {
        PresentedCredential::Missing => Err(AuthError::MissingCredentials),
        PresentedCredential::Unverified => Err(AuthError::InvalidToken),
        PresentedCredential::Signed(c) => if now < c.exp {
            Ok(c)
        } else {
            Err(AuthError::InvalidToken)
        },
    }
}

/// Claims for `subject`, valid for `CREDENTIAL_LIFETIME_SECS` from `now`.
/// Fails only where the expiry does not fit in a `usize`.
pub fn issue_claims(subject: String, now: usize) -> (r: Result<Claims, AuthError>)
    ensures
        r == issued_claims(subject, now),
{
    if now <= usize::MAX - CREDENTIAL_LIFETIME_SECS {
        Ok(Claims { sub: subject, exp: now + CREDENTIAL_LIFETIME_SECS })
    } else {
        Err(AuthError::InvalidToken)
    }
}

/// Claims for a wallet login, issued only when the signature over the
/// message was verified for the address.
pub fn wallet_login_claims(req: LoginRequest, signature_verified: bool, now: usize) -> (r: Result<
    Claims,
    AuthError,
>)
    ensures
        !signature_verified ==> r == Err::<Claims, AuthError>(AuthError::InvalidToken),
        signature_verified ==> r == issued_claims(req.address, now),
{
    if signature_verified {
        issue_claims(req.address, now)
    } else {
        Err(AuthError::InvalidToken)
    }
}

/// Admits the bearer of a signed, unexpired credential and yields its claims.
pub fn check_credential(p: PresentedCredential, now: usize) -> (r: Result<Claims, AuthError>)
    ensures
        r == credential_outcome(p, now),
{
    match p {
        PresentedCredential::Missing => Err(AuthError::MissingCredentials),
        PresentedCredential::Unverified => Err(AuthError::InvalidToken),
        PresentedCredential::Signed(c) => {
            if now < c.exp {
                Ok(c)
            } else {
                Err(AuthError::InvalidToken)
            }
        },
    }
}

/// A credential issued for a subject admits it, with that subject, until
/// its expiry; from then on it is refused as an invalid token.
pub proof fn law_credential_round_trip(subject: String, issued_at: usize, now: usize)
    requires
        issued_at + CREDENTIAL_LIFETIME_SECS <= usize::MAX,
    ensures
        issued_claims(subject, issued_at) is Ok,
        ({
            let c = issued_claims(subject, issued_at)->Ok_0;
            &&& c.sub == subject
            &&& now < issued_at + CREDENTIAL_LIFETIME_SECS ==> credential_outcome(
                PresentedCredential::Signed(c),
                now,
            ) == Ok::<Claims, AuthError>(c)
            &&& now >= issued_at + CREDENTIAL_LIFETIME_SECS ==> credential_outcome(
                PresentedCredential::Signed(c),
                now,
            ) == Err::<Claims, AuthError>(AuthError::InvalidToken)
        }),
{
}

/// A missing credential and an unusable one give different faults.
pub proof fn law_auth_faults_distinct(claims: Claims, now: usize)
    requires
        claims.exp <= now,
    ensures
        credential_outcome(PresentedCredential::Missing, now) == Err::<Claims, AuthError>(
            AuthError::MissingCredentials,
        ),
        credential_outcome(PresentedCredential::Unverified, now) == Err::<Claims, AuthError>(
            AuthError::InvalidToken,
        ),
        credential_outcome(PresentedCredential::Signed(claims), now) == Err::<Claims, AuthError>(
            AuthError::InvalidToken,
        ),
        AuthError::MissingCredentials != AuthError::InvalidToken,
{
}

impl AuthError {
    /// The HTTP status this fault is answered with: each kind of fault has
    /// its own, whatever its message.
    pub fn status_code(&self) -> (r: u16)
        ensures
            r == (match self {
                AuthError::InvalidToken => 401u16,
                AuthError::MissingCredentials => 400u16,
                AuthError::ZkLoginError(_) => 422u16,
            }),
    {
        match self {
            AuthError::InvalidToken => 401,
            AuthError::MissingCredentials => 400,
            AuthError::ZkLoginError(_) => 422,
        }
    }

    /// The message shown to the client.
    pub fn message(&self) -> (r: String)
        ensures
            r@ == (match self {
                AuthError::InvalidToken => "Invalid token"@,
                AuthError::MissingCredentials => "Missing credentials"@,
                AuthError::ZkLoginError(s) => s@,
            }),
    {
        match self {
            AuthError::InvalidToken => "Invalid token".to_string(),
            AuthError::MissingCredentials => "Missing credentials".to_string(),
            AuthError::ZkLoginError(s) => s.clone(),
        }
    }
}

} // verus!
