//! The per-request authentication checkpoint, as a state machine.
//!
//! A request walks `Start → HeaderExtracted → TokenVerified →
//! IdentityResolved → Attached`, or drops into the terminal `Rejected`
//! from any of them. The driver performs the outside work of each leg —
//! reading the header, verifying the token, resolving the user — and feeds
//! the outcome back in; the transitions themselves are pure and verified
//! for every outcome.

use vstd::prelude::*;
use vstd::string::StrSliceExecFns;
use crate::errors::CoreError;
use crate::models::User;
use crate::token::{AuthError, VerifiedToken};

verus! {

/// Whether a header value is of the `Bearer <token>` form.
pub open spec fn spec_has_bearer_prefix(s: Seq<char>) -> bool {
    s.len() >= 7 && s.subrange(0, 7) == "Bearer "@
}

/// The token part of a `Bearer <token>` header value.
pub open spec fn spec_bearer_token_of(s: Seq<char>) -> Seq<char> {
    s.subrange(7, s.len() as int)
}

/// Strips the `Bearer ` scheme off an authorization header value, or
/// returns nothing when the value does not carry that scheme.
pub fn extract_token_from_bearer(auth_header: &str) -> (r: Option<&str>)
    ensures
        match r {
            Some(t) => spec_has_bearer_prefix(auth_header@) && t@ == spec_bearer_token_of(
                auth_header@,
            ),
            None => !spec_has_bearer_prefix(auth_header@),
        },
{
    let len = auth_header.unicode_len();
    if len < 7 {
        return None;
    }
    let prefix = "Bearer ";
    proof {
        reveal_strlit("Bearer ");
    }
    let mut i: usize = 0;
    while i < 7
        invariant
            len == auth_header@.len(),
            len >= 7,
            i <= 7,
            prefix@ == "Bearer "@,
            prefix@.len() == 7,
            forall|j: int| 0 <= j < i ==> auth_header@[j] == prefix@[j],
        decreases 7 - i,
    {
        if auth_header.get_char(i) != prefix.get_char(i) {
            proof {
                assert(auth_header@.subrange(0, 7) != "Bearer "@) by {
                    assert(auth_header@.subrange(0, 7)[i as int] != "Bearer "@[i as int]);
                }
            }
            return None;
        }
        i += 1;
    }
    proof {
        assert(auth_header@.subrange(0, 7) =~= "Bearer "@);
    }
    Some(auth_header.substring_char(7, len))
}

/// Why a request was rejected: a credential problem, answered 401 with no
/// further detail, or an infrastructure problem while provisioning the
/// user, answered as an internal failure.
#[derive(Clone, Copy, PartialEq, Eq, Structural, Debug)]
pub enum Rejection {
    Unauthenticated,
    ProvisioningFailure,
}

/// The HTTP status a rejection answers with: 401 for a bad or missing
/// credential, 500 for a provisioning fault — the latter is not the
/// caller's fault and must not look like one.
pub fn rejection_status(r: &Rejection) -> (s: u16)
    ensures
        s == match *r {
            Rejection::Unauthenticated => 401int,
            Rejection::ProvisioningFailure => 500int,
        },
{
    match r {
        Rejection::Unauthenticated => 401,
        Rejection::ProvisioningFailure => 500,
    }
}

/// The states of the per-request flow.
pub enum AuthFlow {
    /// Nothing read yet.
    Start,
    /// The bearer token, stripped of its scheme.
    HeaderExtracted { token: String },
    /// The verifier accepted the token.
    TokenVerified { verified: VerifiedToken },
    /// The local user row was found or created for the token's subject.
    IdentityResolved { verified: VerifiedToken, user: User },
    /// Terminal success: claims, identity and user bound to the request.
    Attached { verified: VerifiedToken, user: User },
    /// Terminal failure.
    Rejected { rejection: Rejection },
}

/// The outcome of one leg of outside work, fed back into the machine.
pub enum AuthEvent {
    /// The token verifier finished.
    VerifierFinished { outcome: Result<VerifiedToken, AuthError> },
    /// The user store finished looking up or creating the subject's row.
    ResolverFinished { outcome: Result<User, CoreError> },
    /// Bind the verified identity and user to the request.
    Attach,
}

/// The transition relation of the flow. Verifier failures of every kind
/// collapse into `Unauthenticated`; a storage failure while provisioning is
/// a `ProvisioningFailure`; the two terminal states absorb every event; and
/// an event arriving in a state that does not expect it fails closed.
pub open spec fn spec_auth_step(state: AuthFlow, event: AuthEvent) -> AuthFlow {
    match state {
        AuthFlow::HeaderExtracted { token } => match event {
            AuthEvent::VerifierFinished { outcome } => match outcome {
                Ok(v) => AuthFlow::TokenVerified { verified: v },
                Err(_) => AuthFlow::Rejected { rejection: Rejection::Unauthenticated },
            },
            _ => AuthFlow::Rejected { rejection: Rejection::Unauthenticated },
        },
        AuthFlow::TokenVerified { verified } => match event {
            AuthEvent::ResolverFinished { outcome } => match outcome {
                Ok(user) => AuthFlow::IdentityResolved { verified, user },
                Err(_) => AuthFlow::Rejected { rejection: Rejection::ProvisioningFailure },
            },
            _ => AuthFlow::Rejected { rejection: Rejection::Unauthenticated },
        },
        AuthFlow::IdentityResolved { verified, user } => match event {
            AuthEvent::Attach => AuthFlow::Attached { verified, user },
            _ => AuthFlow::Rejected { rejection: Rejection::Unauthenticated },
        },
        AuthFlow::Attached { verified, user } => AuthFlow::Attached { verified, user },
        AuthFlow::Rejected { rejection } => AuthFlow::Rejected { rejection },
        AuthFlow::Start => AuthFlow::Rejected { rejection: Rejection::Unauthenticated },
    }
}

/// Enters the flow: reads the authorization header value. A missing header
/// or one without the bearer scheme rejects the request as
/// unauthenticated; otherwise the stripped token is held for verification.
pub fn begin_request(auth_header: Option<&str>) -> (r: AuthFlow)
    ensures
        match auth_header {
            None => r == (AuthFlow::Rejected { rejection: Rejection::Unauthenticated }),
            Some(h) => {
                if spec_has_bearer_prefix(h@) {
                    r matches AuthFlow::HeaderExtracted { token } && token@
                        == spec_bearer_token_of(h@)
                } else {
                    r == (AuthFlow::Rejected { rejection: Rejection::Unauthenticated })
                }
            },
        },
{
    match auth_header {
        None => AuthFlow::Rejected { rejection: Rejection::Unauthenticated },
        Some(h) => match extract_token_from_bearer(h) {
            Some(token) => AuthFlow::HeaderExtracted { token: token.to_owned() },
            None => AuthFlow::Rejected { rejection: Rejection::Unauthenticated },
        },
    }
}

/// Performs one transition of the flow.
pub fn auth_step(state: AuthFlow, event: AuthEvent) -> (r: AuthFlow)
    ensures
        r == spec_auth_step(state, event),
{
    match state {
        AuthFlow::HeaderExtracted { token: _ } => match event {
            AuthEvent::VerifierFinished { outcome } => match outcome {
                Ok(v) => AuthFlow::TokenVerified { verified: v },
                Err(_) => AuthFlow::Rejected { rejection: Rejection::Unauthenticated },
            },
            _ => AuthFlow::Rejected { rejection: Rejection::Unauthenticated },
        },
        AuthFlow::TokenVerified { verified } => match event {
            AuthEvent::ResolverFinished { outcome } => match outcome {
                Ok(user) => AuthFlow::IdentityResolved { verified, user },
                Err(_) => AuthFlow::Rejected { rejection: Rejection::ProvisioningFailure },
            },
            _ => AuthFlow::Rejected { rejection: Rejection::Unauthenticated },
        },
        AuthFlow::IdentityResolved { verified, user } => match event {
            AuthEvent::Attach => AuthFlow::Attached { verified, user },
            _ => AuthFlow::Rejected { rejection: Rejection::Unauthenticated },
        },
        AuthFlow::Attached { verified, user } => AuthFlow::Attached { verified, user },
        AuthFlow::Rejected { rejection } => AuthFlow::Rejected { rejection },
        AuthFlow::Start => AuthFlow::Rejected { rejection: Rejection::Unauthenticated },
    }
}

/// The happy path end to end: with the token verified and the user
/// resolved, the three transitions bind exactly that verified token and
/// that user to the request.
pub proof fn lemma_happy_path_attaches(token: String, verified: VerifiedToken, user: User)
    ensures
        ({
            let after_verify = spec_auth_step(
                AuthFlow::HeaderExtracted { token },
                AuthEvent::VerifierFinished { outcome: Ok(verified) },
            );
            let after_resolve = spec_auth_step(
                after_verify,
                AuthEvent::ResolverFinished { outcome: Ok(user) },
            );
            spec_auth_step(after_resolve, AuthEvent::Attach) == (AuthFlow::Attached {
                verified,
                user,
            })
        }),
{
}

/// Every verifier failure — malformed token, key unavailable, bad
/// signature, expired, malformed claims — rejects the request as
/// unauthenticated: the 401 answer never leaks which of them it was.
pub proof fn lemma_verifier_failure_is_unauthenticated(token: String, e: AuthError)
    ensures
        spec_auth_step(
            AuthFlow::HeaderExtracted { token },
            AuthEvent::VerifierFinished { outcome: Err(e) },
        ) == (AuthFlow::Rejected { rejection: Rejection::Unauthenticated }),
{
}

/// A storage failure while resolving the user is an infrastructure fault,
/// rejected as `ProvisioningFailure` — distinct from a credential problem.
pub proof fn lemma_storage_failure_is_provisioning_failure(verified: VerifiedToken, e: CoreError)
    ensures
        spec_auth_step(
            AuthFlow::TokenVerified { verified },
            AuthEvent::ResolverFinished { outcome: Err(e) },
        ) == (AuthFlow::Rejected { rejection: Rejection::ProvisioningFailure }),
{
}

/// The flow is strictly sequential: a step only reaches `TokenVerified`
/// through a successful verification, `IdentityResolved` through a
/// successful resolution from `TokenVerified`, and `Attached` from
/// `IdentityResolved` (or by staying there).
pub proof fn lemma_steps_are_sequential(state: AuthFlow, event: AuthEvent)
    ensures
        spec_auth_step(state, event) matches AuthFlow::TokenVerified { .. } ==> state matches
            AuthFlow::HeaderExtracted { .. } && event matches AuthEvent::VerifierFinished {
            outcome,
        } && outcome is Ok,
        spec_auth_step(state, event) matches AuthFlow::IdentityResolved { .. } ==> state matches
            AuthFlow::TokenVerified { .. } && event matches AuthEvent::ResolverFinished { outcome }
            && outcome is Ok,
        spec_auth_step(state, event) matches AuthFlow::Attached { .. } ==> (state matches
            AuthFlow::IdentityResolved { .. } && event is Attach) || state matches
            AuthFlow::Attached { .. },
{
}

} // verus!
