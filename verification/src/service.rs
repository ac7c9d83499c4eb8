//! The user service: profile and settings operations over the store, with
//! the identity provider's outcomes injected where an operation touches
//! provider-side fields.

use vstd::prelude::*;
use vstd::string::StringExecFns;
use crate::errors::CoreError;
use crate::models::{
    spec_applied_setting_update, spec_applied_user_update, KeycloakUserInfo, Setting,
    UpdateSettingRequest, UpdateUserRequest, User, UserBasicInfo, UserFullInfo,
};
use crate::store::UserStore;

verus! {

/// The basic views of a list of user rows, in order.
pub open spec fn spec_basic_infos(s: Seq<User>) -> Seq<UserBasicInfo>
    decreases s.len(),
{
    if s.len() == 0 {
        Seq::empty()
    } else {
        spec_basic_infos(s.drop_last()).push(UserBasicInfo::spec_of_user(s.last()))
    }
}

/// The current-user endpoint's payload: the local fields alone, or joined
/// with the provider's fields when the full view was asked for.
#[derive(Debug)]
pub enum CurrentUserInfo {
    Basic(UserBasicInfo),
    Full(UserFullInfo),
}

/// Looks a user up by subject and returns the basic view, or `NotFound`.
pub fn get_user_by_sub(store: &UserStore, sub: &str) -> (r: Result<UserBasicInfo, CoreError>)
    requires
        store.wf(),
    ensures
        match r {
            Ok(b) => store.user_map().dom().contains(sub@) && b == UserBasicInfo::spec_of_user(
                store.user_map()[sub@],
            ),
            Err(e) => !store.user_map().dom().contains(sub@) && (e matches CoreError::NotFound(m)
                && m@ == "User not found"@),
        },
{
    match store.get_user_by_sub(sub) {
        Some(u) => Ok(UserBasicInfo::from(u)),
        None => Err(CoreError::NotFound(String::from_str("User not found"))),
    }
}

/// Looks a user up by display name and returns the basic view of the
/// earliest matching row, or `NotFound` when no row matches.
pub fn get_user_by_display_name(store: &UserStore, name: &str) -> (r: Result<
    UserBasicInfo,
    CoreError,
>)
    requires
        store.wf(),
    ensures
        match r {
            Ok(b) => exists|u: User| #[trigger]
                store.user_map().contains_pair(u.sub@, u) && u.display_name@ == name@ && b
                    == UserBasicInfo::spec_of_user(u),
            Err(e) => (forall|k: Seq<char>|
                store.user_map().dom().contains(k) ==> #[trigger] store.user_map()[
                    k
                ].display_name@ != name@) && (e matches CoreError::NotFound(m) && m@
                == "User not found"@),
        },
{
    match store.get_user_by_display_name(name) {
        Some(u) => Ok(UserBasicInfo::from(u)),
        None => Err(CoreError::NotFound(String::from_str("User not found"))),
    }
}

/// The basic views of the rows of the given subjects, in the given order,
/// skipping subjects without a row.
pub fn get_users_by_subs(store: &UserStore, subs: &Vec<String>) -> (r: Vec<UserBasicInfo>)
    requires
        store.wf(),
    ensures
        r@ == spec_basic_infos(UserStore::spec_selected_users(store.user_map(), subs@)),
{
    let users = store.get_users_by_subs(subs);
    let mut out: Vec<UserBasicInfo> = Vec::new();
    let mut i: usize = 0;
    while i < users.len()
        invariant
            i <= users.len(),
            out@ == spec_basic_infos(users@.take(i as int)),
        decreases users.len() - i,
    {
        proof {
            assert(users@.take(i as int + 1).drop_last() =~= users@.take(i as int));
            assert(users@.take(i as int + 1).last() == users@[i as int]);
        }
        out.push(UserBasicInfo::from(users[i].clone()));
        i += 1;
    }
    proof {
        assert(users@.take(users@.len() as int) =~= users@);
    }
    out
}

/// The current-user payload. The basic view needs nothing from the
/// provider; the full view joins the provider's record, so a failed
/// provider call surfaces as `KeycloakError` — and only then.
pub fn get_current_user_info(
    user: &User,
    full_info: bool,
    keycloak_outcome: Result<KeycloakUserInfo, String>,
) -> (r: Result<CurrentUserInfo, CoreError>)
    ensures
        !full_info ==> (r matches Ok(info) && info matches CurrentUserInfo::Basic(b) && b
            == UserBasicInfo::spec_of_user(*user)),
        full_info ==> match keycloak_outcome {
            Err(e) => r matches Err(ce) && ce matches CoreError::KeycloakError(m) && m == e,
            Ok(ki) => r matches Ok(info) && info matches CurrentUserInfo::Full(f) && f == (
            UserFullInfo {
                sub: user.sub,
                display_name: user.display_name,
                profile_picture: user.profile_picture,
                description: user.description,
                username: ki.username,
                email: ki.email,
            }),
        },
{
    if full_info {
        match keycloak_outcome {
            Err(e) => Err(CoreError::KeycloakError(e)),
            Ok(ki) => Ok(
                CurrentUserInfo::Full(
                    UserFullInfo {
                        sub: user.sub.clone(),
                        display_name: user.display_name.clone(),
                        profile_picture: user.profile_picture.clone(),
                        description: user.description.clone(),
                        username: ki.username,
                        email: ki.email,
                    },
                ),
            ),
        }
    } else {
        Ok(
            CurrentUserInfo::Basic(
                UserBasicInfo {
                    sub: user.sub.clone(),
                    display_name: user.display_name.clone(),
                    profile_picture: user.profile_picture.clone(),
                    description: user.description.clone(),
                },
            ),
        )
    }
}

/// Applies a profile update. Provider-side fields go first: when the
/// request carries any and the provider call failed, nothing local is
/// touched and the failure surfaces as `KeycloakError`. Then the local
/// fields, if any, are applied to the store; a request with no local
/// fields returns the user's basic view unchanged without writing.
pub fn update_user(
    store: &mut UserStore,
    user: &User,
    req: &UpdateUserRequest,
    keycloak_outcome: Result<(), String>,
    now: i64,
) -> (r: Result<UserBasicInfo, CoreError>)
    requires
        old(store).wf(),
    ensures
        final(store).wf(),
        ({
            let kc_needed = req.username is Some || req.email is Some;
            let local = req.display_name is Some || req.profile_picture is Some
                || req.description is Some;
            if kc_needed && keycloak_outcome is Err {
                &&& *final(store) == *old(store)
                &&& r matches Err(e) && e matches CoreError::KeycloakError(m) && m
                    == keycloak_outcome->Err_0
            } else if !local {
                &&& *final(store) == *old(store)
                &&& r matches Ok(b) && b == UserBasicInfo::spec_of_user(*user)
            } else if old(store).user_map().dom().contains(user.sub@) {
                let u = spec_applied_user_update(old(store).user_map()[user.sub@], *req, now);
                &&& final(store).user_map() == old(store).user_map().insert(user.sub@, u)
                &&& final(store).setting_map() == old(store).setting_map()
                &&& r matches Ok(b) && b == UserBasicInfo::spec_of_user(u)
            } else {
                &&& *final(store) == *old(store)
                &&& r matches Err(e) && e matches CoreError::DatabaseError(m) && m@
                    == "row not found"@
            }
        }),
{
    if req.has_keycloak_fields() {
        if let Err(e) = keycloak_outcome {
            return Err(CoreError::KeycloakError(e));
        }
    }
    if req.has_local_fields() {
        match store.update_user(user.sub.as_str(), req, now) {
            Some(u) => Ok(UserBasicInfo::from(u)),
            None => Err(CoreError::DatabaseError(String::from_str("row not found"))),
        }
    } else {
        Ok(UserBasicInfo::from(user.clone()))
    }
}

/// The subject's settings row, or `NotFound` when none was created yet.
pub fn get_user_settings(store: &UserStore, sub: &str) -> (r: Result<Setting, CoreError>)
    requires
        store.wf(),
    ensures
        match r {
            Ok(s) => store.setting_map().contains_pair(sub@, s),
            Err(e) => !store.setting_map().dom().contains(sub@) && (e matches CoreError::NotFound(
                m,
            ) && m@ == "Settings not found"@),
        },
{
    match store.get_setting_by_sub(sub) {
        Some(s) => Ok(s),
        None => Err(CoreError::NotFound(String::from_str("Settings not found"))),
    }
}

/// Applies a settings update to the subject's row; a missing row is a
/// storage-level fault, as the production store's update-returning query
/// reports it.
pub fn update_user_settings(
    store: &mut UserStore,
    sub: &str,
    req: &UpdateSettingRequest,
    now: i64,
) -> (r: Result<Setting, CoreError>)
    requires
        old(store).wf(),
    ensures
        final(store).wf(),
        match r {
            Ok(s) => {
                &&& old(store).setting_map().dom().contains(sub@)
                &&& s == spec_applied_setting_update(old(store).setting_map()[sub@], *req, now)
                &&& final(store).setting_map() == old(store).setting_map().insert(sub@, s)
                &&& final(store).user_map() == old(store).user_map()
            },
            Err(e) => {
                &&& !old(store).setting_map().dom().contains(sub@)
                &&& *final(store) == *old(store)
                &&& e matches CoreError::DatabaseError(m) && m@ == "row not found"@
            },
        },
{
    match store.update_setting(sub, req, now) {
        Some(s) => Ok(s),
        None => Err(CoreError::DatabaseError(String::from_str("row not found"))),
    }
}

} // verus!
