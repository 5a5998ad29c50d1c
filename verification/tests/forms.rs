use authgate::error::{AppError, DbError};
use authgate::form::{
    ensure_absent, CreateRoleRequest, CreateUserRequest, NewProfile, NewUser, Registration,
    UpdateUserRequest,
};
use authgate::hasher::{hash, verify_password};
use authgate::identity::UserIdentity;
use authgate::membership::{Permission, Role};
use authgate::serializer::{
    PermissionSerializer, RoleSerializer, UserProfile, UserProfileSerializer, UserSerializer,
    UserWithProfileSerializer,
};

fn request() -> CreateUserRequest {
    CreateUserRequest {
        name: "Ann Lee".to_string(),
        username: "annlee".to_string(),
        email: "ann@example.com".to_string(),
        password: "correct horse".to_string(),
        address: "1 Main St".to_string(),
        mobile_number: "555-0100".to_string(),
    }
}

fn stored() -> UserIdentity {
    UserIdentity {
        id: 7,
        name: "Ann".to_string(),
        username: "ann".to_string(),
        email: "ann@example.com".to_string(),
        password: hash("old password"),
        is_superadmin: true,
        date_created: 1_700_000_000,
        date_updated: Some(1_700_000_500),
    }
}

#[test]
fn new_user_stores_the_digest_not_the_password() {
    let user = request().into_new_user();
    assert_eq!(
        user,
        NewUser {
            name: "Ann Lee".to_string(),
            username: "annlee".to_string(),
            email: "ann@example.com".to_string(),
            password: hash("correct horse"),
        }
    );
    assert_ne!(user.password, "correct horse");
    assert_eq!(verify_password(&user.password, "correct horse"), Ok(true));
}

#[test]
fn registration_stores_user_and_profile() {
    assert_eq!(
        request().register(false),
        Ok(Registration {
            user: NewUser {
                name: "Ann Lee".to_string(),
                username: "annlee".to_string(),
                email: "ann@example.com".to_string(),
                password: hash("correct horse"),
            },
            profile: NewProfile {
                address: Some("1 Main St".to_string()),
                mobile_number: Some("555-0100".to_string()),
            },
        })
    );
}

#[test]
fn registration_of_a_taken_name_is_refused() {
    assert_eq!(
        request().register(true),
        Err(AppError::GenericError(
            "A user with this email or username already exists.".to_string()
        ))
    );
}

#[test]
fn update_without_password_leaves_the_digest() {
    let change = UpdateUserRequest {
        name: "Ann Lee".to_string(),
        username: "annlee".to_string(),
        email: "lee@example.com".to_string(),
        password: None,
    };
    let mut expected = stored();
    expected.name = "Ann Lee".to_string();
    expected.username = "annlee".to_string();
    expected.email = "lee@example.com".to_string();
    assert_eq!(change.apply_to(stored()), expected);
}

#[test]
fn update_with_password_stores_its_digest() {
    let change = UpdateUserRequest {
        name: "Ann".to_string(),
        username: "ann".to_string(),
        email: "ann@example.com".to_string(),
        password: Some("new password".to_string()),
    };
    let changed = change.apply_to(stored());
    assert_eq!(changed.password, hash("new password"));
    assert_eq!(verify_password(&changed.password, "new password"), Ok(true));
    assert_eq!(verify_password(&changed.password, "old password"), Ok(false));
    assert!(changed.is_superadmin);
    assert_eq!(changed.id, 7);
    assert_eq!(changed.date_created, 1_700_000_000);
    assert_eq!(changed.date_updated, Some(1_700_000_500));
}

#[test]
fn uniqueness_lookups_are_judged() {
    assert_eq!(ensure_absent(Ok(false), "taken"), Ok(()));
    assert_eq!(ensure_absent(Ok(true), "taken"), Err("taken".to_string()));
    assert_eq!(
        ensure_absent(Err(DbError::Other), "taken"),
        Err("Internal error during validation.".to_string())
    );
    assert_eq!(
        CreateRoleRequest::validate_role_exists(Ok(true)),
        Err("Role with the given name already exists.".to_string())
    );
    assert_eq!(CreateRoleRequest::validate_role_exists(Ok(false)), Ok(()));
    assert_eq!(
        CreateUserRequest::validate_username_exists(Ok(true)),
        Err("User with the given username already exists.".to_string())
    );
    assert_eq!(
        CreateUserRequest::validate_email_exists(Ok(true)),
        Err("User with the given email already exists.".to_string())
    );
    assert_eq!(
        CreateUserRequest::validate_email_exists(Err(DbError::RecordNotFound(String::new()))),
        Err("Internal error during validation.".to_string())
    );
}

#[test]
fn shown_user_has_no_digest() {
    assert_eq!(
        UserSerializer::from(stored()),
        UserSerializer {
            id: 7,
            name: "Ann".to_string(),
            username: "ann".to_string(),
            email: "ann@example.com".to_string(),
        }
    );
}

#[test]
fn shown_user_with_and_without_profile() {
    let profile = UserProfile {
        id: 2,
        user_id: 7,
        address: Some("1 Main St".to_string()),
        mobile_number: None,
    };
    assert_eq!(
        UserProfileSerializer::from(profile.clone()),
        UserProfileSerializer { id: 2, address: Some("1 Main St".to_string()), mobile_number: None }
    );
    assert_eq!(
        UserWithProfileSerializer::from((stored(), Some(profile))),
        UserWithProfileSerializer {
            id: 7,
            name: "Ann".to_string(),
            username: "ann".to_string(),
            email: "ann@example.com".to_string(),
            profile: Some(UserProfileSerializer {
                id: 2,
                address: Some("1 Main St".to_string()),
                mobile_number: None,
            }),
        }
    );
    assert_eq!(UserWithProfileSerializer::from((stored(), None)).profile, None);
}

#[test]
fn shown_roles_and_permissions() {
    assert_eq!(
        RoleSerializer::from(Role { id: 1, name: "editor".to_string() }),
        RoleSerializer { id: 1, name: "editor".to_string() }
    );
    assert_eq!(
        PermissionSerializer::from(Permission {
            id: 4,
            name: "Read users".to_string(),
            code_name: "read_users".to_string(),
        }),
        PermissionSerializer {
            id: 4,
            name: "Read users".to_string(),
            code_name: "read_users".to_string(),
        }
    );
}
