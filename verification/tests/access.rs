use authgate::authz::{count_matching, AccessStep, AuthService};
use authgate::text::{contains_bytes, contains_text};
use authgate::error::AppError;
use authgate::identity::UserIdentity;

fn user(is_superadmin: bool) -> UserIdentity {
    UserIdentity {
        id: 3,
        name: "Ed".to_string(),
        username: "ed".to_string(),
        email: "ed@example.com".to_string(),
        password: String::new(),
        is_superadmin,
        date_created: 0,
        date_updated: None,
    }
}

fn names(list: &[&str]) -> Vec<String> {
    list.iter().map(|name| name.to_string()).collect()
}

#[test]
fn superadmin_passes_without_a_query() {
    let admin = user(true);
    assert_eq!(AuthService::role_check(&admin, "no such role"), AccessStep::Allow);
    assert_eq!(AuthService::permission_check(&admin, "no such permission"), AccessStep::Allow);
    assert_eq!(AuthService::has_role(&admin, &names(&[]), "no such role"), Ok(()));
    assert_eq!(AuthService::has_permission(&admin, &names(&[]), "no such permission"), Ok(()));
    assert_eq!(AuthService::has_role(&admin, &names(&["editor"]), ""), Ok(()));
}

#[test]
fn anyone_else_needs_the_count() {
    let ed = user(false);
    assert_eq!(
        AuthService::role_check(&ed, "editor"),
        AccessStep::CountRoles { user_id: 3, containing: "editor".to_string() }
    );
    assert_eq!(
        AuthService::permission_check(&ed, "read_users"),
        AccessStep::CountPermissions { user_id: 3, containing: "read_users".to_string() }
    );
}

#[test]
fn no_matching_row_is_a_refusal() {
    assert_eq!(AuthService::settle(0), Err(AppError::Unauthorized));
    assert_eq!(AuthService::settle(1), Ok(()));
    assert_eq!(AuthService::settle(u64::MAX), Ok(()));
}

#[test]
fn role_names_match_by_containment() {
    let ed = user(false);
    let held = names(&["editor"]);
    assert_eq!(AuthService::has_role(&ed, &held, "edit"), Ok(()));
    assert_eq!(AuthService::has_role(&ed, &held, "editor"), Ok(()));
    assert_eq!(AuthService::has_role(&ed, &held, "dito"), Ok(()));
    assert_eq!(
        AuthService::has_role(&ed, &held, "editor-in-chief"),
        Err(AppError::Unauthorized)
    );
    assert_eq!(AuthService::has_role(&ed, &held, "Editor"), Err(AppError::Unauthorized));
}

#[test]
fn asking_for_admin_is_satisfied_by_a_longer_name() {
    let ed = user(false);
    let held = names(&["super-admin-team"]);
    assert_eq!(AuthService::has_role(&ed, &held, "admin"), Ok(()));
    assert_eq!(AuthService::has_permission(&ed, &held, "admin"), Ok(()));
}

#[test]
fn without_rows_nothing_is_held() {
    let ed = user(false);
    assert_eq!(AuthService::has_role(&ed, &names(&[]), "editor"), Err(AppError::Unauthorized));
    assert_eq!(AuthService::has_role(&ed, &names(&[]), ""), Err(AppError::Unauthorized));
    assert_eq!(
        AuthService::has_permission(&ed, &names(&[]), "read_users"),
        Err(AppError::Unauthorized)
    );
}

#[test]
fn permission_names_match_by_containment() {
    let ed = user(false);
    let held = names(&["read_users", "create_user"]);
    assert_eq!(AuthService::has_permission(&ed, &held, "read_user"), Ok(()));
    assert_eq!(AuthService::has_permission(&ed, &held, "user"), Ok(()));
    assert_eq!(
        AuthService::has_permission(&ed, &held, "delete_user"),
        Err(AppError::Unauthorized)
    );
}

#[test]
fn matching_rows_are_counted() {
    let held = names(&["editor", "chief editor", "viewer", "edit"]);
    assert_eq!(count_matching(&held, "edit"), 3);
    assert_eq!(count_matching(&held, "editor"), 2);
    assert_eq!(count_matching(&held, "view"), 1);
    assert_eq!(count_matching(&held, "admin"), 0);
    assert_eq!(count_matching(&held, ""), 4);
    assert_eq!(count_matching(&names(&[]), ""), 0);
}

#[test]
fn containment_of_byte_strings() {
    assert!(contains_bytes(b"", b""));
    assert!(contains_bytes(b"abc", b""));
    assert!(contains_bytes(b"abc", b"abc"));
    assert!(contains_bytes(b"abc", b"a"));
    assert!(contains_bytes(b"abc", b"c"));
    assert!(contains_bytes(b"abc", b"bc"));
    assert!(contains_bytes(b"aab", b"ab"));
    assert!(!contains_bytes(b"abc", b"ac"));
    assert!(!contains_bytes(b"abc", b"abcd"));
    assert!(!contains_bytes(b"", b"a"));
    assert!(contains_bytes("rôle".as_bytes(), "ô".as_bytes()));
}

#[test]
fn texts_contain_by_characters() {
    assert!(contains_text("editor", "edit"));
    assert!(contains_text("editor", ""));
    assert!(contains_text("", ""));
    assert!(contains_text("super-admin-team", "admin"));
    assert!(!contains_text("editor", "editor-in-chief"));
    assert!(!contains_text("editor", "EDIT"));
    assert!(contains_text("contrôleur", "rôle"));
    assert!(!contains_text("controleur", "rôle"));
    assert!(contains_text("日本語", "本"));
}
