use authgate::config::AppConfig;
use authgate::error::{
    group_messages, AppError, DbError, ErrorDetail, ErrorEnvelope, FieldErrors,
};
use authgate::hasher::hash;
use authgate::identity::UserIdentity;
use authgate::login::login;

fn text(error: &str, status: u16, message: &str) -> ErrorEnvelope {
    ErrorEnvelope {
        status,
        error: ErrorDetail::Text(error.to_string()),
        message: message.to_string(),
    }
}

fn config() -> AppConfig {
    AppConfig {
        app_debug: false,
        server_address: "127.0.0.1:3000".to_string(),
        database_url: String::new(),
        per_page: 10,
        jwt_secret: "key".to_string(),
        access_token_expiration_minutes: 15,
        refresh_token_expiration_minutes: 60,
        smtp_host: String::new(),
        smtp_username: String::new(),
        smtp_password: String::new(),
        from_email: String::new(),
    }
}

#[test]
fn test_invalid_login() {
    let stored = UserIdentity {
        id: 1,
        name: "Anish".to_string(),
        username: "anish".to_string(),
        email: "anish@example.com".to_string(),
        password: hash("another password"),
        is_superadmin: false,
        date_created: 0,
        date_updated: None,
    };
    let error = login(Some(stored), "password", &config()).unwrap_err();
    let response = error.into_response();
    assert_eq!(response.status, 400);
    assert_eq!(response, text("Invalid user", 400, "Error"));
}

#[test]
fn plain_failure_shows_its_text() {
    assert_eq!(
        AppError::GenericError("Empty roles".to_string()).into_response(),
        text("Empty roles", 400, "Error")
    );
}

#[test]
fn missing_record_is_not_found() {
    let error = AppError::DatabaseError(DbError::RecordNotFound("User not found.".to_string()));
    assert_eq!(error.into_response(), text("User not found.", 404, "Database Error"));
}

#[test]
fn storage_failure_shows_no_detail() {
    assert_eq!(
        AppError::DatabaseError(DbError::Other).into_response(),
        text("Database operation failed", 500, "Database Error")
    );
}

#[test]
fn authentication_failures_are_unauthorised() {
    assert_eq!(
        AppError::Unauthorized.into_response(),
        text("Unauthorized access", 401, "Authentication Error")
    );
    assert_eq!(
        AppError::InvalidToken.into_response(),
        text("Invalid Token", 401, "Authentication Error")
    );
    assert_eq!(
        AppError::TokenExpired.into_response(),
        text("Token Expired.", 401, "Token Expired.")
    );
}

#[test]
fn missing_token_and_closed_resource_are_forbidden() {
    assert_eq!(
        AppError::EmptyToken.into_response(),
        text("Token Not Found", 403, "Empty Token")
    );
    assert_eq!(
        AppError::Forbidden.into_response(),
        text("You are not allowed to access the resource", 403, "Forbidden Access")
    );
}

#[test]
fn rejected_form_shows_its_fields() {
    let fields = vec![FieldErrors {
        field: "name".to_string(),
        messages: vec!["length is lower than 3".to_string()],
    }];
    let expected = ErrorEnvelope {
        status: 400,
        error: ErrorDetail::Fields(fields.clone()),
        message: "Validation Error".to_string(),
    };
    assert_eq!(AppError::Validation(fields.clone()).into_response(), expected);
    assert_eq!(AppError::GardeValidation(fields).into_response(), expected);
}

fn entry(field: &str, message: &str) -> (String, String) {
    (field.to_string(), message.to_string())
}

#[test]
fn messages_are_grouped_by_field_in_order_of_first_entry() {
    let fields = group_messages(vec![
        entry("name", "length is lower than 3"),
        entry("email", "not a valid email"),
        entry("name", "already exists"),
        entry("password", "length is lower than 8"),
        entry("email", "already exists"),
    ]);
    assert_eq!(
        fields,
        vec![
            FieldErrors {
                field: "name".to_string(),
                messages: vec!["length is lower than 3".to_string(), "already exists".to_string()],
            },
            FieldErrors {
                field: "email".to_string(),
                messages: vec!["not a valid email".to_string(), "already exists".to_string()],
            },
            FieldErrors {
                field: "password".to_string(),
                messages: vec!["length is lower than 8".to_string()],
            },
        ]
    );
}

#[test]
fn grouping_nothing_gives_nothing() {
    assert_eq!(group_messages(vec![]), vec![]);
    assert_eq!(
        group_messages(vec![entry("", "m"), entry("", "m")]),
        vec![FieldErrors { field: String::new(), messages: vec!["m".to_string(), "m".to_string()] }]
    );
}
