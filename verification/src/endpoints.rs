//! The identity provider's and content service's endpoint URLs, and the
//! fixed payload of a profile-picture upload request.

use vstd::prelude::*;
use vstd::string::StringExecFns;

verus! {

/// The provider's published-key-set endpoint for a realm.
pub fn certs_url(base_url: &str, realm: &str) -> (r: String)
    ensures
        r@ == base_url@ + "/realms/"@ + realm@ + "/protocol/openid-connect/certs"@,
{
    let mut url = String::from_str(base_url);
    url.append("/realms/");
    url.append(realm);
    url.append("/protocol/openid-connect/certs");
    url
}

/// The provider's token endpoint for a realm, where the admin token is
/// obtained with client credentials.
pub fn token_url(base_url: &str, realm: &str) -> (r: String)
    ensures
        r@ == base_url@ + "/realms/"@ + realm@ + "/protocol/openid-connect/token"@,
{
    let mut url = String::from_str(base_url);
    url.append("/realms/");
    url.append(realm);
    url.append("/protocol/openid-connect/token");
    url
}

/// The provider's admin endpoint for one user's record.
pub fn admin_user_url(base_url: &str, realm: &str, user_id: &str) -> (r: String)
    ensures
        r@ == base_url@ + "/admin/realms/"@ + realm@ + "/users/"@ + user_id@,
{
    let mut url = String::from_str(base_url);
    url.append("/admin/realms/");
    url.append(realm);
    url.append("/users/");
    url.append(user_id);
    url
}

/// The content service's endpoint for one user's profile picture.
pub fn profile_picture_url(base_url: &str, user_id: &str) -> (r: String)
    ensures
        r@ == base_url@ + "/profile_picture/"@ + user_id@,
{
    let mut url = String::from_str(base_url);
    url.append("/profile_picture/");
    url.append(user_id);
    url
}

/// What a profile-picture upload request asks the content service to
/// sign: the action, and for how long the signed request stays valid.
#[derive(Debug)]
pub struct ContentSigningPayload {
    pub action: String,
    pub expires_in: u64,
}

/// The payload of a profile-picture upload request: a `Put`, valid for a
/// week of seconds.
pub fn profile_picture_payload() -> (r: ContentSigningPayload)
    ensures
        r.action@ == "Put"@,
        r.expires_in == 604800,
{
    ContentSigningPayload { action: String::from_str("Put"), expires_in: 60 * 60 * 24 * 7 }
}

} // verus!
