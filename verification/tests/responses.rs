use authgate::config::AppConfig;
use authgate::error::ErrorDetail;
use authgate::response::{
    total_pages, DataResponse, ErrorResponse, JsonResponse, JsonResponse2, JsonResponseKind,
    PaginatedResponse, ResponseMetadata, ResponseMetadata2, ValidJson,
};

fn config(per_page: i32) -> AppConfig {
    AppConfig {
        app_debug: false,
        server_address: String::new(),
        database_url: String::new(),
        per_page,
        jwt_secret: String::new(),
        access_token_expiration_minutes: 15,
        refresh_token_expiration_minutes: 60,
        smtp_host: String::new(),
        smtp_username: String::new(),
        smtp_password: String::new(),
        from_email: String::new(),
    }
}

#[test]
fn pages_round_up() {
    assert_eq!(total_pages(0, 10), 0);
    assert_eq!(total_pages(1, 10), 1);
    assert_eq!(total_pages(10, 10), 1);
    assert_eq!(total_pages(11, 10), 2);
    assert_eq!(total_pages(95, 10), 10);
    assert_eq!(total_pages(7, 1), 7);
    assert_eq!(total_pages(u64::MAX, 1), u64::MAX);
    assert_eq!(total_pages(u64::MAX, 2), 9_223_372_036_854_775_808);
    assert_eq!(total_pages(u64::MAX, u64::MAX), 1);
    assert_eq!(total_pages(5, u64::MAX), 1);
}

#[test]
fn metadata_counts_pages_at_the_configured_size() {
    let metadata = ResponseMetadata::new(&config(10), 95, "/api/users?page=2".to_string());
    assert_eq!(
        metadata,
        ResponseMetadata {
            count: 95,
            per_page: 10,
            total_page: 10,
            first_page_url: None,
            last_page_url: None,
            previous_url: None,
            current_url: "/api/users?page=2".to_string(),
            next_url: None,
        }
    );
}

#[test]
fn negative_page_size_is_read_as_unsigned() {
    let metadata = ResponseMetadata2::new(&config(-1), 95, "/".to_string());
    assert_eq!(metadata.per_page, u64::MAX);
    assert_eq!(metadata.total_pages, 1);
}

#[test]
fn links_are_set_one_by_one() {
    let metadata = ResponseMetadata2::new(&config(20), 41, "/api/users?page=2".to_string())
        .with_first_page_url("/api/users?page=1".to_string())
        .with_last_page_url("/api/users?page=3".to_string())
        .with_previous_url("/api/users?page=1".to_string())
        .with_next_url("/api/users?page=3".to_string());
    assert_eq!(
        metadata,
        ResponseMetadata2 {
            count: 41,
            per_page: 20,
            total_pages: 3,
            current_url: "/api/users?page=2".to_string(),
            first_page_url: Some("/api/users?page=1".to_string()),
            last_page_url: Some("/api/users?page=3".to_string()),
            previous_url: Some("/api/users?page=1".to_string()),
            next_url: Some("/api/users?page=3".to_string()),
        }
    );
}

#[test]
fn setting_a_link_leaves_the_others() {
    let plain = ResponseMetadata2::new(&config(20), 41, "/".to_string());
    let first = plain.clone().with_first_page_url("/1".to_string());
    assert_eq!(first.first_page_url, Some("/1".to_string()));
    assert_eq!(first.last_page_url, None);
    assert_eq!(first.previous_url, None);
    assert_eq!(first.next_url, None);
    let next = plain.clone().with_next_url("/2".to_string());
    assert_eq!(next.next_url, Some("/2".to_string()));
    assert_eq!(next.first_page_url, None);
    let last = plain.clone().with_last_page_url("/3".to_string());
    assert_eq!(last.last_page_url, Some("/3".to_string()));
    assert_eq!(last.next_url, None);
    let previous = plain.with_previous_url("/0".to_string());
    assert_eq!(previous.previous_url, Some("/0".to_string()));
    assert_eq!(previous.last_page_url, None);
    assert_eq!(previous.count, 41);
}

#[test]
fn answers_have_default_messages() {
    assert_eq!(
        JsonResponse::<()>::error(ErrorDetail::Text("no".to_string()), None),
        JsonResponse::Error(ErrorResponse {
            error: ErrorDetail::Text("no".to_string()),
            message: "An error occured.".to_string(),
        })
    );
    assert_eq!(
        JsonResponse::data(5, None),
        JsonResponse::Data(DataResponse {
            data: 5,
            message: "Data retrieved successfully.".to_string(),
        })
    );
    assert_eq!(
        JsonResponse::data(5, Some("Roles added successfully.".to_string())),
        JsonResponse::Data(DataResponse {
            data: 5,
            message: "Roles added successfully.".to_string(),
        })
    );
    let metadata = ResponseMetadata::new(&config(10), 1, "/".to_string());
    assert_eq!(
        JsonResponse::paginate(vec![1], metadata.clone(), None),
        JsonResponse::Paginate(PaginatedResponse {
            data: vec![1],
            _metadata: metadata,
            message: "Data retrieved successfully.".to_string(),
        })
    );
}

#[test]
fn answers_of_the_second_form() {
    let data = JsonResponse2::data(5);
    assert_eq!(data.kind, JsonResponseKind::Data { data: 5 });
    assert_eq!(data.message, "Data retrieved successfully");
    let renamed = data.with_message("Custom message".to_string());
    assert_eq!(renamed.kind, JsonResponseKind::Data { data: 5 });
    assert_eq!(renamed.message, "Custom message");
    let error = JsonResponse2::<()>::error(ErrorDetail::Text("no".to_string()));
    assert_eq!(error.kind, JsonResponseKind::Error { error: ErrorDetail::Text("no".to_string()) });
    assert_eq!(error.message, "An error occurred");
    let metadata = ResponseMetadata2::new(&config(10), 1, "/".to_string());
    let page = JsonResponse2::paginated(vec![1], metadata.clone());
    assert_eq!(page.kind, JsonResponseKind::Paginated { data: vec![1], metadata });
    assert_eq!(page.message, "Data retrieved successfully");
}

#[test]
fn unreadable_body_is_answered_with_the_reader_text() {
    assert_eq!(
        ValidJson::<()>::rejection("Failed to parse the request body as JSON".to_string()),
        JsonResponse::Error(ErrorResponse {
            error: ErrorDetail::Text("Failed to parse the request body as JSON".to_string()),
            message: "Invalid request data.".to_string(),
        })
    );
    assert_eq!(ValidJson(5).0, 5);
}
