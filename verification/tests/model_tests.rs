use user_core::errors::CoreError;
use user_core::models::UpdateUserRequest;

#[test]
fn has_local_fields_returns_true_when_display_name_is_set() {
    let req = UpdateUserRequest {
        display_name: Some("John".to_string()),
        profile_picture: None,
        description: None,
        username: None,
        email: None,
    };
    assert!(req.has_local_fields());
}

#[test]
fn has_local_fields_returns_true_when_profile_picture_is_set() {
    let req = UpdateUserRequest {
        display_name: None,
        profile_picture: Some("https://example.com/pic.jpg".to_string()),
        description: None,
        username: None,
        email: None,
    };
    assert!(req.has_local_fields());
}

#[test]
fn has_local_fields_returns_true_when_description_is_set() {
    let req = UpdateUserRequest {
        display_name: None,
        profile_picture: None,
        description: Some("A description".to_string()),
        username: None,
        email: None,
    };
    assert!(req.has_local_fields());
}

#[test]
fn has_local_fields_returns_false_when_only_keycloak_fields_are_set() {
    let req = UpdateUserRequest {
        display_name: None,
        profile_picture: None,
        description: None,
        username: Some("john_doe".to_string()),
        email: Some("john@example.com".to_string()),
    };
    assert!(!req.has_local_fields());
}

#[test]
fn has_local_fields_returns_false_when_no_fields_are_set() {
    let req = UpdateUserRequest {
        display_name: None,
        profile_picture: None,
        description: None,
        username: None,
        email: None,
    };
    assert!(!req.has_local_fields());
}

#[test]
fn has_keycloak_fields_returns_true_when_username_is_set() {
    let req = UpdateUserRequest {
        display_name: None,
        profile_picture: None,
        description: None,
        username: Some("john_doe".to_string()),
        email: None,
    };
    assert!(req.has_keycloak_fields());
}

#[test]
fn has_keycloak_fields_returns_true_when_email_is_set() {
    let req = UpdateUserRequest {
        display_name: None,
        profile_picture: None,
        description: None,
        username: None,
        email: Some("john@example.com".to_string()),
    };
    assert!(req.has_keycloak_fields());
}

#[test]
fn has_keycloak_fields_returns_false_when_only_local_fields_are_set() {
    let req = UpdateUserRequest {
        display_name: Some("John".to_string()),
        profile_picture: Some("https://example.com/pic.jpg".to_string()),
        description: Some("A description".to_string()),
        username: None,
        email: None,
    };
    assert!(!req.has_keycloak_fields());
}

#[test]
fn has_keycloak_fields_returns_false_when_no_fields_are_set() {
    let req = UpdateUserRequest {
        display_name: None,
        profile_picture: None,
        description: None,
        username: None,
        email: None,
    };
    assert!(!req.has_keycloak_fields());
}

#[test]
fn has_both_local_and_keycloak_fields() {
    let req = UpdateUserRequest {
        display_name: Some("John".to_string()),
        profile_picture: None,
        description: None,
        username: Some("john_doe".to_string()),
        email: None,
    };
    assert!(req.has_local_fields());
    assert!(req.has_keycloak_fields());
}

#[test]
fn core_error_not_found_displays_correctly() {
    let err = CoreError::NotFound("User not found".to_string());
    assert_eq!(err.message(), "Not found: User not found");
}

#[test]
fn core_error_bad_request_displays_correctly() {
    let err = CoreError::BadRequest("Invalid input".to_string());
    assert_eq!(err.message(), "Bad request: Invalid input");
}

#[test]
fn core_error_unauthorized_displays_correctly() {
    let err = CoreError::Unauthorized("Invalid token".to_string());
    assert_eq!(err.message(), "Unauthorized: Invalid token");
}

#[test]
fn core_error_internal_error_displays_correctly() {
    let err = CoreError::InternalError("Something went wrong".to_string());
    assert_eq!(err.message(), "Internal error: Something went wrong");
}

#[test]
fn core_error_keycloak_error_displays_correctly() {
    let err = CoreError::KeycloakError("Connection failed".to_string());
    assert_eq!(err.message(), "Keycloak error: Connection failed");
}

#[test]
fn core_error_database_error_displays_correctly() {
    let err = CoreError::DatabaseError("connection refused".to_string());
    assert_eq!(err.message(), "Database error: connection refused");
}

#[test]
fn user_basic_info_from_user_copies_profile_fields() {
    let user = user_core::models::User {
        sub: "sub-9".to_string(),
        display_name: "John Doe".to_string(),
        profile_picture: "https://example.com/pic.jpg".to_string(),
        description: "A developer".to_string(),
        created_at: 100,
        updated_at: 200,
    };
    let info = user_core::models::UserBasicInfo::from(user);
    assert_eq!(info.sub, "sub-9");
    assert_eq!(info.display_name, "John Doe");
    assert_eq!(info.profile_picture, "https://example.com/pic.jpg");
    assert_eq!(info.description, "A developer");
}
