use authgate::config::AppConfig;
use authgate::error::AppError;
use authgate::hasher::hash;
use authgate::identity::UserIdentity;
use authgate::login::{login, login_at};
use authgate::token::{verify_token, verify_token_at};

fn config() -> AppConfig {
    AppConfig {
        app_debug: false,
        server_address: "127.0.0.1:3000".to_string(),
        database_url: String::new(),
        per_page: 10,
        jwt_secret: "signing key".to_string(),
        access_token_expiration_minutes: 15,
        refresh_token_expiration_minutes: 10_080,
        smtp_host: String::new(),
        smtp_username: String::new(),
        smtp_password: String::new(),
        from_email: String::new(),
    }
}

fn ann() -> UserIdentity {
    UserIdentity {
        id: 7,
        name: "Ann".to_string(),
        username: "ann".to_string(),
        email: "ann@example.com".to_string(),
        password: hash("correct horse"),
        is_superadmin: false,
        date_created: 0,
        date_updated: None,
    }
}

fn failure(text: &str) -> AppError {
    AppError::GenericError(text.to_string())
}

#[test]
fn correct_password_yields_two_distinct_tokens_for_the_address() {
    let tokens = login(Some(ann()), "correct horse", &config()).unwrap();
    let refresh = tokens.refresh_token.unwrap();
    assert!(!tokens.access_token.is_empty());
    assert!(!refresh.is_empty());
    assert_ne!(tokens.access_token, refresh);
    assert_eq!(tokens.access_token.split('.').count(), 3);
    assert_eq!(refresh.split('.').count(), 3);
    let access_claims = verify_token(&tokens.access_token, "signing key").unwrap();
    let refresh_claims = verify_token(&refresh, "signing key").unwrap();
    assert_eq!(access_claims.sub, "ann@example.com");
    assert_eq!(refresh_claims.sub, "ann@example.com");
}

#[test]
fn each_token_has_its_own_lifetime() {
    let now = 1_700_000_000;
    let tokens = login_at(Some(ann()), "correct horse", &config(), now).unwrap();
    let access = verify_token_at(&tokens.access_token, "signing key", now).unwrap();
    let refresh = verify_token_at(&tokens.refresh_token.unwrap(), "signing key", now).unwrap();
    assert_eq!(access.iat, 1_700_000_000);
    assert_eq!(access.exp, 1_700_000_900);
    assert_eq!(refresh.iat, 1_700_000_000);
    assert_eq!(refresh.exp, 1_700_604_800);
}

#[test]
fn wrong_password_issues_nothing() {
    assert_eq!(login(Some(ann()), "wrong horse", &config()), Err(failure("Invalid user")));
    assert_eq!(login(Some(ann()), "", &config()), Err(failure("Invalid user")));
}

#[test]
fn unknown_user_issues_nothing() {
    assert_eq!(login(None, "correct horse", &config()), Err(failure("User not found.")));
}

#[test]
fn corrupt_digest_is_a_failure_of_its_own() {
    let mut broken = ann();
    broken.password = "not hexadecimal".to_string();
    let outcome = login(Some(broken), "correct horse", &config());
    assert!(matches!(outcome, Err(AppError::GenericError(_))));
    assert_ne!(outcome, Err(failure("Invalid user")));
}

#[test]
fn lifetime_that_does_not_fit_issues_nothing() {
    let mut settings = config();
    settings.refresh_token_expiration_minutes = i64::MAX;
    assert_eq!(
        login(Some(ann()), "correct horse", &settings),
        Err(failure("token lifetime out of range"))
    );
}

#[test]
fn equal_lifetimes_give_one_text_twice() {
    let mut settings = config();
    settings.refresh_token_expiration_minutes = settings.access_token_expiration_minutes;
    let tokens = login_at(Some(ann()), "correct horse", &settings, 1_700_000_000).unwrap();
    assert_eq!(Some(tokens.access_token), tokens.refresh_token);
}
