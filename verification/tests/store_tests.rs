use user_core::errors::CoreError;
use user_core::models::{KeycloakUserInfo, UpdateSettingRequest, UpdateUserRequest, User};
use user_core::service::{
    get_current_user_info, get_user_by_sub, get_user_settings, get_users_by_subs, update_user,
    update_user_settings, CurrentUserInfo,
};
use user_core::store::UserStore;

fn seeded_user(store: &mut UserStore, sub: &str, name: &str, now: i64) -> User {
    let user = store.get_or_create_user(sub, now);
    let req = UpdateUserRequest {
        display_name: Some(name.to_string()),
        profile_picture: None,
        description: None,
        username: None,
        email: None,
    };
    store.update_user(sub, &req, now).unwrap();
    User { display_name: name.to_string(), updated_at: now, ..user }
}

#[test]
fn first_authentication_creates_an_empty_row() {
    // new subject "sub-123" authenticates for the first time
    let mut store = UserStore::new();
    let now: i64 = 1_700_000_000;
    let user = store.get_or_create_user("sub-123", now);
    assert_eq!(user.sub, "sub-123");
    assert_eq!(user.display_name, "");
    assert_eq!(user.profile_picture, "");
    assert_eq!(user.description, "");
    assert_eq!(user.created_at, now);
    assert_eq!(user.updated_at, now);
    assert_eq!(store.user_count(), 1);
    // the second request with the same subject returns the same row unchanged
    let again = store.get_or_create_user("sub-123", now + 50);
    assert_eq!(again.sub, user.sub);
    assert_eq!(again.display_name, user.display_name);
    assert_eq!(again.created_at, user.created_at);
    assert_eq!(again.updated_at, user.updated_at);
    assert_eq!(store.user_count(), 1);
}

#[test]
fn get_or_create_twice_persists_exactly_one_row() {
    let mut store = UserStore::new();
    let first = store.get_or_create_user("sub-777", 10);
    let second = store.get_or_create_user("sub-777", 20);
    assert_eq!(store.user_count(), 1);
    assert_eq!(first.sub, second.sub);
    assert_eq!(first.created_at, second.created_at);
    assert_eq!(first.updated_at, second.updated_at);
}

#[test]
fn get_user_by_sub_returns_basic_info_or_not_found() {
    let mut store = UserStore::new();
    seeded_user(&mut store, "sub-1", "Alice", 100);
    let found = get_user_by_sub(&store, "sub-1").unwrap();
    assert_eq!(found.sub, "sub-1");
    assert_eq!(found.display_name, "Alice");
    match get_user_by_sub(&store, "sub-2") {
        Err(CoreError::NotFound(m)) => assert_eq!(m, "User not found"),
        _ => panic!("an unknown subject must be NotFound"),
    }
}

#[test]
fn get_user_by_display_name_finds_matching_row() {
    let mut store = UserStore::new();
    seeded_user(&mut store, "sub-1", "Alice", 100);
    seeded_user(&mut store, "sub-2", "Bob", 100);
    let found = user_core::service::get_user_by_display_name(&store, "Bob").unwrap();
    assert_eq!(found.sub, "sub-2");
    match user_core::service::get_user_by_display_name(&store, "Carol") {
        Err(CoreError::NotFound(m)) => assert_eq!(m, "User not found"),
        _ => panic!("an unknown display name must be NotFound"),
    }
}

#[test]
fn get_users_by_subs_keeps_request_order_and_skips_missing() {
    let mut store = UserStore::new();
    seeded_user(&mut store, "sub-1", "Alice", 100);
    seeded_user(&mut store, "sub-2", "Bob", 100);
    let subs = vec!["sub-2".to_string(), "sub-9".to_string(), "sub-1".to_string()];
    let infos = get_users_by_subs(&store, &subs);
    assert_eq!(infos.len(), 2);
    assert_eq!(infos[0].display_name, "Bob");
    assert_eq!(infos[1].display_name, "Alice");
}

#[test]
fn current_user_info_basic_ignores_the_provider() {
    let mut store = UserStore::new();
    let user = seeded_user(&mut store, "sub-1", "Alice", 100);
    let info = get_current_user_info(&user, false, Err("unreachable".to_string())).unwrap();
    match info {
        CurrentUserInfo::Basic(b) => {
            assert_eq!(b.sub, "sub-1");
            assert_eq!(b.display_name, "Alice");
        },
        CurrentUserInfo::Full(_) => panic!("the basic view must not hold provider fields"),
    }
}

#[test]
fn current_user_info_full_joins_provider_fields() {
    let mut store = UserStore::new();
    let user = seeded_user(&mut store, "sub-1", "Alice", 100);
    let ki = KeycloakUserInfo { username: "alice01".to_string(), email: "a@example.com".to_string() };
    match get_current_user_info(&user, true, Ok(ki)).unwrap() {
        CurrentUserInfo::Full(f) => {
            assert_eq!(f.sub, "sub-1");
            assert_eq!(f.display_name, "Alice");
            assert_eq!(f.username, "alice01");
            assert_eq!(f.email, "a@example.com");
        },
        CurrentUserInfo::Basic(_) => panic!("the full view was asked for"),
    }
}

#[test]
fn current_user_info_full_surfaces_provider_failure() {
    let mut store = UserStore::new();
    let user = seeded_user(&mut store, "sub-1", "Alice", 100);
    match get_current_user_info(&user, true, Err("HTTP 502".to_string())) {
        Err(CoreError::KeycloakError(m)) => assert_eq!(m, "HTTP 502"),
        _ => panic!("a failed provider call must surface as KeycloakError"),
    }
}

#[test]
fn update_user_applies_present_fields_and_keeps_the_rest() {
    let mut store = UserStore::new();
    let user = seeded_user(&mut store, "sub-1", "Alice", 100);
    let req = UpdateUserRequest {
        display_name: Some("Alicia".to_string()),
        profile_picture: None,
        description: Some("hi".to_string()),
        username: None,
        email: None,
    };
    let updated = update_user(&mut store, &user, &req, Ok(()), 200).unwrap();
    assert_eq!(updated.display_name, "Alicia");
    assert_eq!(updated.profile_picture, "");
    assert_eq!(updated.description, "hi");
    let row = store.get_user_by_sub("sub-1").unwrap();
    assert_eq!(row.display_name, "Alicia");
    assert_eq!(row.created_at, 100);
    assert_eq!(row.updated_at, 200);
}

#[test]
fn update_user_with_failed_provider_call_writes_nothing() {
    let mut store = UserStore::new();
    let user = seeded_user(&mut store, "sub-1", "Alice", 100);
    let req = UpdateUserRequest {
        display_name: Some("Alicia".to_string()),
        profile_picture: None,
        description: None,
        username: Some("alicia01".to_string()),
        email: None,
    };
    match update_user(&mut store, &user, &req, Err("HTTP 409".to_string()), 200) {
        Err(CoreError::KeycloakError(m)) => assert_eq!(m, "HTTP 409"),
        _ => panic!("a failed provider update must fail the whole update"),
    }
    // the local row was not touched
    let row = store.get_user_by_sub("sub-1").unwrap();
    assert_eq!(row.display_name, "Alice");
    assert_eq!(row.updated_at, 100);
}

#[test]
fn update_user_without_local_fields_returns_user_unchanged() {
    let mut store = UserStore::new();
    let user = seeded_user(&mut store, "sub-1", "Alice", 100);
    let req = UpdateUserRequest {
        display_name: None,
        profile_picture: None,
        description: None,
        username: Some("alicia01".to_string()),
        email: None,
    };
    let info = update_user(&mut store, &user, &req, Ok(()), 200).unwrap();
    assert_eq!(info.display_name, "Alice");
    let row = store.get_user_by_sub("sub-1").unwrap();
    assert_eq!(row.updated_at, 100);
}

#[test]
fn settings_are_created_read_and_updated() {
    let mut store = UserStore::new();
    store.get_or_create_user("sub-1", 100);
    match get_user_settings(&store, "sub-1") {
        Err(CoreError::NotFound(m)) => assert_eq!(m, "Settings not found"),
        _ => panic!("settings do not exist until created"),
    }
    let created = store.create_setting("sub-1", 150);
    assert_eq!(created.sub, "sub-1");
    assert!(created.theme.is_none());
    assert!(created.lang.is_none());
    let req = UpdateSettingRequest { theme: Some("dark".to_string()), lang: None };
    let updated = update_user_settings(&mut store, "sub-1", &req, 200).unwrap();
    assert_eq!(updated.theme.as_deref(), Some("dark"));
    assert!(updated.lang.is_none());
    assert_eq!(updated.created_at, 150);
    assert_eq!(updated.updated_at, 200);
    let read = get_user_settings(&store, "sub-1").unwrap();
    assert_eq!(read.theme.as_deref(), Some("dark"));
}

#[test]
fn updating_settings_of_unknown_subject_is_a_storage_fault() {
    let mut store = UserStore::new();
    let req = UpdateSettingRequest { theme: Some("dark".to_string()), lang: None };
    match update_user_settings(&mut store, "sub-9", &req, 200) {
        Err(CoreError::DatabaseError(m)) => assert_eq!(m, "row not found"),
        _ => panic!("updating a missing settings row must be a storage fault"),
    }
}

#[test]
fn update_user_of_unknown_subject_is_a_storage_fault() {
    let mut store = UserStore::new();
    let unknown_user = User {
        sub: "sub-9".to_string(),
        display_name: String::new(),
        profile_picture: String::new(),
        description: String::new(),
        created_at: 0,
        updated_at: 0,
    };
    let req = UpdateUserRequest {
        display_name: Some("X".to_string()),
        profile_picture: None,
        description: None,
        username: None,
        email: None,
    };
    match update_user(&mut store, &unknown_user, &req, Ok(()), 10) {
        Err(CoreError::DatabaseError(m)) => assert_eq!(m, "row not found"),
        _ => panic!("updating a missing user row must be a storage fault"),
    }
}
