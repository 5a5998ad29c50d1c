use authgate::error::AppError;
use authgate::gate::{admit_at, auth_guard, auth_guard_at, bearer_token, Gate, GateEvent};
use authgate::identity::{resolve, UserIdentity};
use authgate::token::{create_user_token, create_user_token_at, TokenClaims};

const NOW: i64 = 1_700_000_000;

fn ann() -> UserIdentity {
    UserIdentity {
        id: 7,
        name: "Ann".to_string(),
        username: "ann".to_string(),
        email: "ann@example.com".to_string(),
        password: String::new(),
        is_superadmin: false,
        date_created: 0,
        date_updated: None,
    }
}

fn no_token() -> AppError {
    AppError::GenericError("No token found in header.".to_string())
}

fn header(text: &str) -> GateEvent {
    GateEvent::Header { authorization: Some(text.to_string()) }
}

#[test]
fn bearer_prefix_is_required_and_case_sensitive() {
    assert_eq!(bearer_token(Some("Bearer abc")), Ok("abc"));
    assert_eq!(bearer_token(Some("Bearer ")), Ok(""));
    assert_eq!(bearer_token(Some("Bearer  abc")), Ok(" abc"));
    assert_eq!(bearer_token(Some("bearer abc")), Err(no_token()));
    assert_eq!(bearer_token(Some("BEARER abc")), Err(no_token()));
    assert_eq!(bearer_token(Some("Bearer")), Err(no_token()));
    assert_eq!(bearer_token(Some(" Bearer abc")), Err(no_token()));
    assert_eq!(bearer_token(Some("Basic abc")), Err(no_token()));
    assert_eq!(bearer_token(Some("")), Err(no_token()));
    assert_eq!(bearer_token(None), Err(no_token()));
}

#[test]
fn admitting_a_header_validates_its_token() {
    let token = create_user_token_at("ann@example.com", 15, "key", NOW).unwrap();
    let value = format!("Bearer {}", token);
    let claims = admit_at(Some(&value), "key", NOW).unwrap();
    assert_eq!(claims.sub, "ann@example.com");
    assert_eq!(admit_at(Some(&token), "key", NOW), Err(no_token()));
    assert_eq!(admit_at(None, "key", NOW), Err(no_token()));
    assert_eq!(
        admit_at(Some(&value), "key", NOW + 901),
        Err(AppError::TokenExpired)
    );
    assert_eq!(
        admit_at(Some(&value), "other", NOW),
        Err(AppError::InvalidToken)
    );
}

#[test]
fn request_with_a_valid_token_reaches_the_handler() {
    let token = create_user_token("ann@example.com", 15, "key").unwrap();
    let state = auth_guard(Gate::AwaitingRequest, header(&format!("Bearer {}", token)), "key");
    let subject = match &state {
        Gate::AwaitingIdentity { claims } => claims.sub.clone(),
        other => panic!("unexpected state {:?}", other),
    };
    assert_eq!(subject, "ann@example.com");
    let state = auth_guard(state, GateEvent::Identity { found: Some(ann()) }, "key");
    assert_eq!(state, Gate::Attached { identity: ann() });
}

#[test]
fn garbage_token_never_reaches_the_handler() {
    let mut handler_runs = 0;
    let mut state = auth_guard(Gate::AwaitingRequest, header("Bearer garbage"), "key");
    assert_eq!(state, Gate::Rejected { error: AppError::InvalidToken });
    // No later event brings the request back.
    state = auth_guard(state, GateEvent::Identity { found: Some(ann()) }, "key");
    if let Gate::Attached { .. } = state {
        handler_runs += 1;
    }
    assert_eq!(state, Gate::Rejected { error: AppError::InvalidToken });
    assert_eq!(handler_runs, 0);
}

#[test]
fn lower_case_prefix_is_answered_as_no_token() {
    let state = auth_guard(Gate::AwaitingRequest, header("bearer abc.def.ghi"), "key");
    assert_eq!(state, Gate::Rejected { error: no_token() });
    assert_eq!(bearer_token(Some("bearer abc.def.ghi")), Err(no_token()));
}

#[test]
fn text_without_three_parts_is_invalid_whatever_the_key() {
    for text in ["Bearer garbage", "Bearer a.b", "Bearer a.b.c.d", "Bearer ", "Bearer ..."] {
        for key in ["key", "", "other"] {
            let state = auth_guard(Gate::AwaitingRequest, header(text), key);
            assert_eq!(state, Gate::Rejected { error: AppError::InvalidToken });
        }
    }
}

#[test]
fn missing_header_is_rejected_before_any_token_is_parsed() {
    let state = auth_guard(Gate::AwaitingRequest, GateEvent::Header { authorization: None }, "key");
    assert_eq!(state, Gate::Rejected { error: no_token() });
    let state = auth_guard(Gate::AwaitingRequest, header("Token abc"), "key");
    assert_eq!(state, Gate::Rejected { error: no_token() });
}

#[test]
fn expired_token_is_rejected() {
    let token = create_user_token_at("ann@example.com", 15, "key", NOW).unwrap();
    let state = auth_guard_at(
        Gate::AwaitingRequest,
        header(&format!("Bearer {}", token)),
        "key",
        NOW + 901,
    );
    assert_eq!(state, Gate::Rejected { error: AppError::TokenExpired });
}

#[test]
fn unknown_subject_is_rejected_like_an_invalid_token() {
    let claims = TokenClaims { sub: "ann@example.com".to_string(), iat: 0, exp: 10 };
    let state = auth_guard(
        Gate::AwaitingIdentity { claims: claims.clone() },
        GateEvent::Identity { found: None },
        "key",
    );
    assert_eq!(state, Gate::Rejected { error: AppError::InvalidToken });
    let mut other = ann();
    other.email = "Ann@example.com".to_string();
    let state = auth_guard(
        Gate::AwaitingIdentity { claims },
        GateEvent::Identity { found: Some(other) },
        "key",
    );
    assert_eq!(state, Gate::Rejected { error: AppError::InvalidToken });
}

#[test]
fn events_out_of_turn_are_rejected() {
    let state = auth_guard(Gate::AwaitingRequest, GateEvent::Identity { found: Some(ann()) }, "key");
    assert_eq!(state, Gate::Rejected { error: AppError::InvalidToken });
    let claims = TokenClaims { sub: "ann@example.com".to_string(), iat: 0, exp: 10 };
    let state = auth_guard(Gate::AwaitingIdentity { claims }, header("Bearer x"), "key");
    assert_eq!(state, Gate::Rejected { error: AppError::InvalidToken });
}

#[test]
fn terminal_states_stay() {
    let attached = Gate::Attached { identity: ann() };
    assert_eq!(auth_guard(attached.clone(), header("Bearer x"), "key"), attached);
    assert_eq!(
        auth_guard(attached.clone(), GateEvent::Identity { found: None }, "key"),
        attached
    );
    let rejected = Gate::Rejected { error: no_token() };
    assert_eq!(auth_guard(rejected.clone(), header("Bearer x"), "key"), rejected);
}

#[test]
fn subject_is_matched_against_the_address_exactly() {
    let claims = TokenClaims { sub: "ann@example.com".to_string(), iat: 0, exp: 10 };
    assert_eq!(resolve(&claims, Some(ann())), Ok(ann()));
    assert_eq!(resolve(&claims, None), Err(AppError::InvalidToken));
    let mut upper = ann();
    upper.email = "ANN@example.com".to_string();
    assert_eq!(resolve(&claims, Some(upper)), Err(AppError::InvalidToken));
    let mut by_name = ann();
    by_name.email = "other@example.com".to_string();
    by_name.username = "ann@example.com".to_string();
    assert_eq!(resolve(&claims, Some(by_name)), Err(AppError::InvalidToken));
}
