//! The token verifier: turns a bearer token into verified claims, or fails
//! closed.
//!
//! Decoding the token's header and payload and checking its signature are
//! the caller's outside work; this module's decision pipeline consumes
//! their outcomes, so every verdict below is verified for every possible
//! outcome of those calls.

use vstd::prelude::*;
use crate::keys::{KeyError, SigningKey};
use crate::strutil::str_eq;

verus! {

/// The decoded, unverified header of a token: the algorithm it declares and
/// the identifier of the key it claims to be signed with.
#[derive(Debug)]
pub struct TokenHeader {
    pub alg: String,
    pub kid: Option<String>,
}

/// The decoded but not yet validated payload of a token. Absent members
/// stand for fields that were missing or of the wrong type in the payload.
/// `is_client` carries the provider-specific marker that distinguishes a
/// service client's token from an end user's.
#[derive(Debug)]
pub struct RawClaims {
    pub sub: Option<String>,
    pub exp: Option<i64>,
    pub iat: Option<i64>,
    pub is_client: bool,
}

/// The verified payload of a token. Only constructed after the signature
/// and expiry checks have passed.
#[derive(Debug)]
pub struct Claims {
    pub sub: String,
    pub exp: i64,
    pub iat: i64,
}

/// The principal a verified token speaks for: an end user or a service
/// client, each carrying its identifier.
#[derive(Clone, Debug)]
pub enum Identity {
    User { id: String },
    Client { id: String },
}

impl Identity {
    /// The identifier carried by either variant.
    pub fn id(&self) -> (r: &String)
        ensures
            match *self {
                Identity::User { id } => *r == id,
                Identity::Client { id } => *r == id,
            },
    {
        match self {
            Identity::User { id } => id,
            Identity::Client { id } => id,
        }
    }
}

/// The result of a successful verification: claims, plus the identity
/// variant chosen from the token's principal kind.
#[derive(Debug)]
pub struct VerifiedToken {
    pub claims: Claims,
    pub identity: Identity,
}

/// How verification fails, fail-closed in every case.
#[derive(Clone, Copy, PartialEq, Eq, Structural, Debug)]
pub enum AuthError {
    /// The header could not be decoded, or names no key identifier.
    MalformedToken,
    /// The verification key could not be obtained (not in the provider's
    /// set, or the fetch failed).
    VerificationUnavailable,
    /// The signature does not check out, or the token declares an
    /// algorithm outside the allow-list.
    InvalidSignature,
    /// The token's expiry lies in the past.
    Expired,
    /// The payload lacks a required field or could not be decoded.
    MalformedClaims,
}

/// The algorithm allow-list: RS256 only, so a token cannot talk the
/// verifier into a weaker or different scheme.
pub open spec fn spec_algorithm_allowed(alg: Seq<char>) -> bool {
    alg == "RS256"@
}

/// Whether the declared algorithm is on the allow-list.
pub fn algorithm_allowed(alg: &str) -> (r: bool)
    ensures
        r == spec_algorithm_allowed(alg@),
{
    str_eq(alg, "RS256")
}

/// The verdict of the whole verification pipeline, as a function of the
/// outside outcomes it consumes:
/// an undecodable header or one without a key identifier is malformed; a
/// disallowed algorithm is rejected before the key or signature outcomes
/// are consulted; a key that could not be obtained makes verification
/// unavailable; then the signature, the expiry against `now`, and the
/// presence of the required claim fields are checked in that order.
pub open spec fn spec_verify(
    header: Option<TokenHeader>,
    key_outcome: Result<SigningKey, KeyError>,
    sig_valid: bool,
    raw: Option<RawClaims>,
    now: i64,
) -> Result<VerifiedToken, AuthError> {
    if header is None {
        Err(AuthError::MalformedToken)
    } else if header->Some_0.kid is None {
        Err(AuthError::MalformedToken)
    } else if !spec_algorithm_allowed(header->Some_0.alg@) {
        Err(AuthError::InvalidSignature)
    } else if key_outcome is Err {
        Err(AuthError::VerificationUnavailable)
    } else if !sig_valid {
        Err(AuthError::InvalidSignature)
    } else if raw is None {
        Err(AuthError::MalformedClaims)
    } else if raw->Some_0.exp is None {
        Err(AuthError::MalformedClaims)
    } else if raw->Some_0.exp->Some_0 < now {
        Err(AuthError::Expired)
    } else if raw->Some_0.sub is None || raw->Some_0.iat is None {
        Err(AuthError::MalformedClaims)
    } else {
        let rc = raw->Some_0;
        Ok(
            VerifiedToken {
                claims: Claims { sub: rc.sub->Some_0, exp: rc.exp->Some_0, iat: rc.iat->Some_0 },
                identity: if rc.is_client {
                    Identity::Client { id: rc.sub->Some_0 }
                } else {
                    Identity::User { id: rc.sub->Some_0 }
                },
            },
        )
    }
}

/// Step one of verification: read the declared algorithm and key
/// identifier out of the decoded header, or fail with `MalformedToken`.
pub fn check_header(header: Option<TokenHeader>) -> (r: Result<(String, String), AuthError>)
    ensures
        match header {
            None => r == Err::<(String, String), AuthError>(AuthError::MalformedToken),
            Some(h) => match h.kid {
                None => r == Err::<(String, String), AuthError>(AuthError::MalformedToken),
                Some(kid) => r == Ok::<(String, String), AuthError>((h.alg, kid)),
            },
        },
{
    match header {
        None => Err(AuthError::MalformedToken),
        Some(h) => match h.kid {
            None => Err(AuthError::MalformedToken),
            Some(kid) => Ok((h.alg, kid)),
        },
    }
}

/// The verification pipeline over the collected outside outcomes; returns
/// exactly the verdict `spec_verify` assigns to them.
pub fn verify_token(
    header: Option<TokenHeader>,
    key_outcome: Result<SigningKey, KeyError>,
    sig_valid: bool,
    raw: Option<RawClaims>,
    now: i64,
) -> (r: Result<VerifiedToken, AuthError>)
    ensures
        r == spec_verify(header, key_outcome, sig_valid, raw, now),
{
    let h = match header {
        None => {
            return Err(AuthError::MalformedToken);
        },
        Some(h) => h,
    };
    if h.kid.is_none() {
        return Err(AuthError::MalformedToken);
    }
    if !algorithm_allowed(h.alg.as_str()) {
        return Err(AuthError::InvalidSignature);
    }
    if key_outcome.is_err() {
        return Err(AuthError::VerificationUnavailable);
    }
    if !sig_valid {
        return Err(AuthError::InvalidSignature);
    }
    let rc = match raw {
        None => {
            return Err(AuthError::MalformedClaims);
        },
        Some(rc) => rc,
    };
    let exp = match rc.exp {
        None => {
            return Err(AuthError::MalformedClaims);
        },
        Some(exp) => exp,
    };
    if exp < now {
        return Err(AuthError::Expired);
    }
    let sub = match rc.sub {
        None => {
            return Err(AuthError::MalformedClaims);
        },
        Some(sub) => sub,
    };
    let iat = match rc.iat {
        None => {
            return Err(AuthError::MalformedClaims);
        },
        Some(iat) => iat,
    };
    let identity = if rc.is_client {
        Identity::Client { id: sub.clone() }
    } else {
        Identity::User { id: sub.clone() }
    };
    Ok(VerifiedToken { claims: Claims { sub, exp, iat }, identity })
}

/// A valid token — allow-listed algorithm, key obtained, signature good,
/// unexpired, all required fields present — verifies, and the claims'
/// subject is the token's own `sub`.
pub proof fn lemma_valid_token_accepted(
    header: Option<TokenHeader>,
    key: SigningKey,
    raw: Option<RawClaims>,
    now: i64,
)
    requires
        header matches Some(h) && h.kid is Some && spec_algorithm_allowed(h.alg@),
        raw matches Some(rc) && rc.sub is Some && rc.exp is Some && rc.iat is Some
            && rc.exp->Some_0 >= now,
    ensures
        spec_verify(header, Ok(key), true, raw, now) matches Ok(v) && v.claims.sub == raw
            ->Some_0.sub->Some_0 && v.claims.exp == raw->Some_0.exp->Some_0,
{
}

/// An expired token is rejected as `Expired` even when its signature is
/// valid and its key was obtained.
pub proof fn lemma_expired_token_rejected(
    header: Option<TokenHeader>,
    key: SigningKey,
    raw: Option<RawClaims>,
    now: i64,
)
    requires
        header matches Some(h) && h.kid is Some && spec_algorithm_allowed(h.alg@),
        raw matches Some(rc) && rc.exp is Some && rc.exp->Some_0 < now,
    ensures
        spec_verify(header, Ok(key), true, raw, now) == Err::<VerifiedToken, AuthError>(
            AuthError::Expired,
        ),
{
}

/// A token declaring an algorithm outside the allow-list is rejected no
/// matter what the key lookup, the signature check or the payload would
/// have said: the verdict is fixed before any of them is consulted.
pub proof fn lemma_disallowed_algorithm_rejected(
    header: Option<TokenHeader>,
    key_outcome: Result<SigningKey, KeyError>,
    sig_valid: bool,
    raw: Option<RawClaims>,
    now: i64,
)
    requires
        header matches Some(h) && h.kid is Some && !spec_algorithm_allowed(h.alg@),
    ensures
        spec_verify(header, key_outcome, sig_valid, raw, now) == Err::<VerifiedToken, AuthError>(
            AuthError::InvalidSignature,
        ),
{
}

} // verus!
