//! Data model of the user-profile service.
//!
//! Subject identifiers are the opaque, provider-assigned strings that a
//! verified token asserts for its principal; timestamps are Unix seconds.

use vstd::prelude::*;

verus! {

/// A locally persisted user record: one row per distinct subject identifier.
#[derive(Debug)]
pub struct User {
    pub sub: String,
    pub display_name: String,
    pub profile_picture: String,
    pub description: String,
    pub created_at: i64,
    pub updated_at: i64,
}

impl Clone for User {
    fn clone(&self) -> (r: Self)
        ensures
            r == *self,
    {
        User {
            sub: self.sub.clone(),
            display_name: self.display_name.clone(),
            profile_picture: self.profile_picture.clone(),
            description: self.description.clone(),
            created_at: self.created_at,
            updated_at: self.updated_at,
        }
    }
}

/// Per-user settings row, keyed by the same subject identifier.
#[derive(Debug)]
pub struct Setting {
    pub sub: String,
    pub theme: Option<String>,
    pub lang: Option<String>,
    pub created_at: i64,
    pub updated_at: i64,
}

impl Clone for Setting {
    fn clone(&self) -> (r: Self)
        ensures
            r == *self,
    {
        Setting {
            sub: self.sub.clone(),
            theme: clone_opt_string(&self.theme),
            lang: clone_opt_string(&self.lang),
            created_at: self.created_at,
            updated_at: self.updated_at,
        }
    }
}

/// Clones an optional string, keeping the exact value.
pub fn clone_opt_string(s: &Option<String>) -> (r: Option<String>)
    ensures
        r == *s,
{
    match s {
        Some(v) => Some(v.clone()),
        None => None,
    }
}

/// The profile fields stored locally, without provider-side enrichment.
#[derive(Debug)]
pub struct UserBasicInfo {
    pub sub: String,
    pub display_name: String,
    pub profile_picture: String,
    pub description: String,
}

impl Clone for UserBasicInfo {
    fn clone(&self) -> (r: Self)
        ensures
            r == *self,
    {
        UserBasicInfo {
            sub: self.sub.clone(),
            display_name: self.display_name.clone(),
            profile_picture: self.profile_picture.clone(),
            description: self.description.clone(),
        }
    }
}

impl UserBasicInfo {
    /// The basic profile view of a user row.
    pub open spec fn spec_of_user(user: User) -> UserBasicInfo {
        UserBasicInfo {
            sub: user.sub,
            display_name: user.display_name,
            profile_picture: user.profile_picture,
            description: user.description,
        }
    }
}

impl From<User> for UserBasicInfo {
    fn from(user: User) -> (r: Self) {
        UserBasicInfo {
            sub: user.sub,
            display_name: user.display_name,
            profile_picture: user.profile_picture,
            description: user.description,
        }
    }
}

impl vstd::std_specs::convert::FromSpecImpl<User> for UserBasicInfo {
    open spec fn obeys_from_spec() -> bool {
        true
    }

    open spec fn from_spec(user: User) -> Self {
        UserBasicInfo::spec_of_user(user)
    }
}

/// The enrichment fields held by the identity provider's own user record.
#[derive(Debug)]
pub struct KeycloakUserInfo {
    pub username: String,
    pub email: String,
}

impl Clone for KeycloakUserInfo {
    fn clone(&self) -> (r: Self)
        ensures
            r == *self,
    {
        KeycloakUserInfo {
            username: self.username.clone(),
            email: self.email.clone(),
        }
    }
}

/// The local profile fields joined with the provider's enrichment fields.
#[derive(Debug)]
pub struct UserFullInfo {
    pub sub: String,
    pub display_name: String,
    pub profile_picture: String,
    pub description: String,
    pub username: String,
    pub email: String,
}

/// Request to create a user row for a subject identifier.
#[derive(Debug)]
pub struct CreateUserRequest {
    pub sub: String,
}

/// A partial profile update; absent fields are left unchanged.
///
/// The display name, picture and description live in the local store, while
/// the username and email live in the identity provider's record.
#[derive(Debug)]
pub struct UpdateUserRequest {
    pub display_name: Option<String>,
    pub profile_picture: Option<String>,
    pub description: Option<String>,
    pub username: Option<String>,
    pub email: Option<String>,
}

impl UpdateUserRequest {
    /// Whether the update touches any field of the local store.
    pub fn has_local_fields(&self) -> (r: bool)
        ensures
            r == (self.display_name is Some || self.profile_picture is Some
                || self.description is Some),
    {
        self.display_name.is_some() || self.profile_picture.is_some()
            || self.description.is_some()
    }

    /// Whether the update touches any field held by the identity provider.
    pub fn has_keycloak_fields(&self) -> (r: bool)
        ensures
            r == (self.username is Some || self.email is Some),
    {
        self.username.is_some() || self.email.is_some()
    }
}

/// The user row after a partial update: each present field of the request
/// replaces the stored one, absent fields stay, the update timestamp moves
/// to `now`.
pub open spec fn spec_applied_user_update(prev: User, req: UpdateUserRequest, now: i64) -> User {
    User {
        sub: prev.sub,
        display_name: if req.display_name is Some {
            req.display_name->Some_0
        } else {
            prev.display_name
        },
        profile_picture: if req.profile_picture is Some {
            req.profile_picture->Some_0
        } else {
            prev.profile_picture
        },
        description: if req.description is Some {
            req.description->Some_0
        } else {
            prev.description
        },
        created_at: prev.created_at,
        updated_at: now,
    }
}

/// A partial settings update; absent fields are left unchanged.
#[derive(Debug)]
pub struct UpdateSettingRequest {
    pub theme: Option<String>,
    pub lang: Option<String>,
}

/// The settings row after a partial update, in the manner of
/// `spec_applied_user_update`.
pub open spec fn spec_applied_setting_update(
    prev: Setting,
    req: UpdateSettingRequest,
    now: i64,
) -> Setting {
    Setting {
        sub: prev.sub,
        theme: if req.theme is Some {
            Some(req.theme->Some_0)
        } else {
            prev.theme
        },
        lang: if req.lang is Some {
            Some(req.lang->Some_0)
        } else {
            prev.lang
        },
        created_at: prev.created_at,
        updated_at: now,
    }
}

/// Query flag of the current-user endpoint: when set, the response includes
/// the provider-side fields as well.
#[derive(Debug)]
pub struct FullInfoQuery {
    pub full_info: bool,
}

} // verus!
