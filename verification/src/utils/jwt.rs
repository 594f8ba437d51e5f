//! Bearer tokens: signed claims that name a user and expire.
//!
//! A token is valid while the current time is before its expiry. Nothing is
//! kept on the server: validity is a function of signature and time alone.

use vstd::prelude::*;
use crate::error::AuthError;
use crate::text::{decimal, decimal_string};

verus! {

/// The lifetime of a token where none is configured, in seconds.
pub const DEFAULT_TOKEN_LIFETIME: usize = 86400;

/// The signed payload of a token.
#[derive(Debug)]
pub struct Claims {
    /// The user the token speaks for: the decimal numeral of the identifier.
    pub sub: String,
    /// When the token expires, in seconds since the epoch.
    pub exp: usize,
    /// When the token was issued, in seconds since the epoch.
    pub iat: usize,
}

/// What claims hold, as mathematical values.
pub struct ClaimsView {
    pub sub: Seq<char>,
    pub exp: usize,
    pub iat: usize,
}

impl View for Claims {
    type V = ClaimsView;

    open spec fn view(&self) -> ClaimsView {
        ClaimsView { sub: self.sub@, exp: self.exp, iat: self.iat }
    }
}

/// How tokens are signed and how long they live.
#[derive(Debug)]
pub struct TokenConfig {
    /// The symmetric secret tokens are signed with.
    pub secret: String,
    /// The lifetime of a token, in seconds.
    pub lifetime: usize,
}

impl TokenConfig {
    /// A configuration with the given secret; the lifetime is the given one,
    /// or the default of 86400 seconds where none is given.
    pub fn new(secret: String, lifetime: Option<usize>) -> (config: Self)
        ensures
            config.secret == secret,
            config.lifetime == match lifetime {
                Some(seconds) => seconds,
                None => DEFAULT_TOKEN_LIFETIME,
            },
    {
        let lifetime = match lifetime {
            Some(seconds) => seconds,
            None => DEFAULT_TOKEN_LIFETIME,
        };
        TokenConfig { secret, lifetime }
    }

    /// Whether a token issued at `now` has an expiry that fits the machine's
    /// word, which is what issuing a token asks for.
    pub fn expiry_fits(&self, now: usize) -> (fits: bool)
        ensures
            fits == (now + self.lifetime <= usize::MAX),
    {
        now <= usize::MAX - self.lifetime
    }
}

/// What a correctly signed token carries, as far as each claim could be read:
/// a claim that is missing or of the wrong type is `None`.
#[derive(Debug)]
pub struct TokenPayload {
    pub sub: Option<String>,
    pub exp: Option<usize>,
    pub iat: Option<usize>,
}

/// `jsonwebtoken::errors::Error`, the error of `jsonwebtoken::encode` and
/// `jsonwebtoken::decode`. Nothing is known of a value of it; it is only told
/// apart from success.
#[verifier::external_type_specification]
#[verifier::external_body]
pub struct ExJwtError(jsonwebtoken::errors::Error);

/// The token that `jsonwebtoken::encode` makes of the three claims under the
/// default header and a secret; `None` where it reports an error.
pub uninterp spec fn signed_token(
    sub: Seq<char>,
    exp: usize,
    iat: usize,
    secret: Seq<char>,
) -> Option<Seq<char>>;

/// The claims `sub`, `exp` and `iat` that `jsonwebtoken::decode` reads from a
/// token under a secret when the expiry is left unchecked; `None` where it
/// rejects the token.
pub uninterp spec fn decoded_token(token: Seq<char>, secret: Seq<char>) -> Option<
    (Option<Seq<char>>, Option<usize>, Option<usize>),
>;

/// Calls `jsonwebtoken::encode` with the default header (HS256) on the claims
/// `sub`, `exp`, `iat`, in this order. Trusted: the token depends on the
/// claims and the secret alone, and decoding it under the same secret gives
/// the three claims back.
#[verifier::external_body]
fn encode_claims(sub: &str, exp: usize, iat: usize, secret: &str) -> (signed: Result<
    String,
    jsonwebtoken::errors::Error,
>)
    ensures
        match signed {
            Ok(token) => signed_token(sub@, exp, iat, secret@) == Some(token@) && decoded_token(
                token@,
                secret@,
            ) == Some((Some(sub@), Some(exp), Some(iat))),
            Err(_) => signed_token(sub@, exp, iat, secret@) is None,
        },
{
    let mut claims = serde_json::Map::new();
    claims.insert("sub".to_string(), serde_json::Value::from(sub));
    claims.insert("exp".to_string(), serde_json::Value::from(exp));
    claims.insert("iat".to_string(), serde_json::Value::from(iat));
    let key = jsonwebtoken::EncodingKey::from_secret(secret.as_bytes());
    jsonwebtoken::encode(&jsonwebtoken::Header::default(), &claims, &key)
}

/// Calls `jsonwebtoken::decode` with the default validation (HS256, `exp`
/// required) but without its comparison of `exp` with the clock, and reads the
/// three claims. Trusted: the outcome depends on the token and the secret
/// alone.
#[verifier::external_body]
fn decode_claims(token: &str, secret: &str) -> (decoded: Result<
    TokenPayload,
    jsonwebtoken::errors::Error,
>)
    ensures
        match decoded {
            Ok(payload) => decoded_token(token@, secret@) == Some(payload@),
            Err(_) => decoded_token(token@, secret@) is None,
        },
{
    let mut validation = jsonwebtoken::Validation::default();
    validation.validate_exp = false;
    let key = jsonwebtoken::DecodingKey::from_secret(secret.as_bytes());
    let claims = jsonwebtoken::decode::<serde_json::Value>(token, &key, &validation)?.claims;
    Ok(TokenPayload {
        sub: serde_json::from_value(claims["sub"].clone()).ok(),
        exp: serde_json::from_value(claims["exp"].clone()).ok(),
        iat: serde_json::from_value(claims["iat"].clone()).ok(),
    })
}

impl View for TokenPayload {
    type V = (Option<Seq<char>>, Option<usize>, Option<usize>);

    open spec fn view(&self) -> Self::V {
        (
            match self.sub {
                Some(s) => Some(s@),
                None => None,
            },
            self.exp,
            self.iat,
        )
    }
}

/// The claims a payload stands for at a given time: all three claims must be
/// there, and the time must be before the expiry.
pub open spec fn current_claims(
    payload: (Option<Seq<char>>, Option<usize>, Option<usize>),
    now: usize,
) -> Option<ClaimsView> {
    match payload {
        (Some(sub), Some(exp), Some(iat)) => if now < exp {
            Some(ClaimsView { sub, exp, iat })
        } else {
            None
        },
        _ => None,
    }
}

/// The claims a token stands for under a secret at a given time.
pub open spec fn token_claims(token: Seq<char>, secret: Seq<char>, now: usize) -> Option<
    ClaimsView,
> {
    match decoded_token(token, secret) {
        Some(payload) => current_claims(payload, now),
        None => None,
    }
}

/// The claims issued to a user at a given time: the decimal numeral of the
/// identifier as subject, the time plus the lifetime as expiry, the time as
/// issue time.
pub open spec fn issued_claims(user_id: u64, lifetime: usize, now: usize) -> ClaimsView
    recommends
        now + lifetime <= usize::MAX,
{
    ClaimsView { sub: decimal(user_id as nat), exp: (now + lifetime) as usize, iat: now }
}

/// The token issued to a user at a given time: the signed form of the issued
/// claims, which reads back as those claims under the same secret. `None`
/// where signing fails.
pub open spec fn issued_token(user_id: u64, secret: Seq<char>, lifetime: usize, now: usize) -> Option<
    Seq<char>,
>
    recommends
        now + lifetime <= usize::MAX,
{
    let claims = issued_claims(user_id, lifetime, now);
    match signed_token(claims.sub, claims.exp, claims.iat, secret) {
        Some(token) => if decoded_token(token, secret) == Some(
            (Some(claims.sub), Some(claims.exp), Some(claims.iat)),
        ) {
            Some(token)
        } else {
            None
        },
        None => None,
    }
}

/// Turns the payload of a correctly signed token into claims, at a given
/// time. Fails with `InvalidToken` where a claim is missing or the token has
/// expired, that is where the time is not before the expiry.
pub fn accept_payload(payload: TokenPayload, now: usize) -> (accepted: Result<Claims, AuthError>)
    ensures
        match accepted {
            Ok(claims) => current_claims(payload@, now) == Some(claims@),
            Err(e) => e == AuthError::InvalidToken && current_claims(payload@, now) is None,
        },
{
    match (payload.sub, payload.exp, payload.iat) {
        (Some(sub), Some(exp), Some(iat)) => {
            if now < exp {
                Ok(Claims { sub, exp, iat })
            } else {
                Err(AuthError::InvalidToken)
            }
        },
        _ => Err(AuthError::InvalidToken),
    }
}

/// Issues a signed token for a user: the subject is the decimal numeral of the
/// identifier, the issue time is `now`, the expiry is `now` plus the
/// configured lifetime. Fails with `Internal` exactly where signing fails.
pub fn create_jwt_token(user_id: u64, config: &TokenConfig, now: usize) -> (issued: Result<
    String,
    AuthError,
>)
    requires
        now + config.lifetime <= usize::MAX,
    ensures
        match issued {
            Ok(token) => issued_token(user_id, config.secret@, config.lifetime, now) == Some(
                token@,
            ),
            Err(e) => e == AuthError::Internal && issued_token(
                user_id,
                config.secret@,
                config.lifetime,
                now,
            ) is None,
        },
{
    let sub = decimal_string(user_id);
    let exp = now + config.lifetime;
    match encode_claims(sub.as_str(), exp, now, config.secret.as_str()) {
        Ok(token) => Ok(token),
        Err(_) => Err(AuthError::Internal),
    }
}

/// Verifies a token at a given time and returns its claims. Every failure,
/// be it of structure, of signature or of expiry, is the one `InvalidToken`.
pub fn verify_jwt_token(token: &str, config: &TokenConfig, now: usize) -> (verified: Result<
    Claims,
    AuthError,
>)
    ensures
        match verified {
            Ok(claims) => token_claims(token@, config.secret@, now) == Some(claims@),
            Err(e) => e == AuthError::InvalidToken && token_claims(token@, config.secret@, now)
                is None,
        },
{
    match decode_claims(token, config.secret.as_str()) {
        Ok(payload) => accept_payload(payload, now),
        Err(_) => Err(AuthError::InvalidToken),
    }
}

} // verus!
