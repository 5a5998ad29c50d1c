//! Response envelopes: what a handler hands back, with the page counts of
//! a paginated answer.

use vstd::prelude::*;
use crate::config::AppConfig;
use crate::error::ErrorDetail;

verus! {

/// The number of pages that `count` rows fill at `per_page` rows a page:
/// the quotient, rounded up.
pub open spec fn page_count(count: int, per_page: int) -> int
    recommends
        per_page > 0,
{
    if count % per_page == 0 {
        count / per_page
    } else {
        count / per_page + 1
    }
}

/// The page size as the unsigned number that the page count is taken by.
pub open spec fn page_size(config: AppConfig) -> u64 {
    config.per_page as u64
}

/// The number of pages that `count` rows fill.
pub fn total_pages(count: u64, per_page: u64) -> (pages: u64)
    requires
        per_page > 0,
    ensures
        pages == page_count(count as int, per_page as int),
        pages * per_page >= count,
        count > 0 ==> (pages - 1) * per_page < count,
{
    let full = count / per_page;
    let left = count % per_page;
    proof {
        assert(count == full * per_page + left) by (nonlinear_arith)
            requires
                per_page > 0,
                full == count / per_page,
                left == count % per_page,
        ;
        if left != 0 {
            assert(full < u64::MAX) by (nonlinear_arith)
                requires
                    per_page > 0,
                    count == full * per_page + left,
                    0 < left,
                    count <= u64::MAX,
                    full >= 0,
            ;
        }
        assert((full + 1) * per_page == full * per_page + per_page) by (nonlinear_arith);
        assert((full - 1) * per_page == full * per_page - per_page) by (nonlinear_arith);
    }
    if left == 0 {
        full
    } else {
        full + 1
    }
}

/// The counts and links of a paginated answer.
#[derive(Debug, Clone, PartialEq, Eq)]
pub struct ResponseMetadata {
    pub count: u64,
    pub per_page: u64,
    pub total_page: u64,
    pub first_page_url: Option<String>,
    pub last_page_url: Option<String>,
    pub previous_url: Option<String>,
    pub current_url: String,
    pub next_url: Option<String>,
}

impl ResponseMetadata {
    /// The metadata for `count` rows at the configured page size, with no
    /// link but the current one.
    pub fn new(config: &AppConfig, count: u64, url: String) -> (metadata: Self)
        requires
            config.per_page != 0,
        ensures
            metadata.count == count,
            metadata.per_page == page_size(*config),
            metadata.per_page > 0,
            metadata.total_page == page_count(count as int, metadata.per_page as int),
            metadata.current_url == url,
            metadata.first_page_url is None,
            metadata.last_page_url is None,
            metadata.previous_url is None,
            metadata.next_url is None,
    {
        let signed = config.per_page;
        let per_page = signed as u64;
        proof {
            assert(signed != 0 ==> signed as u64 != 0) by (bit_vector);
        }
        ResponseMetadata {
            count,
            per_page,
            total_page: total_pages(count, per_page),
            first_page_url: None,
            last_page_url: None,
            previous_url: None,
            current_url: url,
            next_url: None,
        }
    }
}

/// The counts and links of a paginated answer, built link by link.
#[derive(Debug, Clone, PartialEq, Eq)]
pub struct ResponseMetadata2 {
    pub count: u64,
    pub per_page: u64,
    pub total_pages: u64,
    pub current_url: String,
    pub first_page_url: Option<String>,
    pub last_page_url: Option<String>,
    pub previous_url: Option<String>,
    pub next_url: Option<String>,
}

impl ResponseMetadata2 {
    /// The metadata for `count` rows at the configured page size, with no
    /// link but the current one.
    pub fn new(config: &AppConfig, count: u64, current_url: String) -> (metadata: Self)
        requires
            config.per_page != 0,
        ensures
            metadata.count == count,
            metadata.per_page == page_size(*config),
            metadata.per_page > 0,
            metadata.total_pages == page_count(count as int, metadata.per_page as int),
            metadata.current_url == current_url,
            metadata.first_page_url is None,
            metadata.last_page_url is None,
            metadata.previous_url is None,
            metadata.next_url is None,
    {
        let signed = config.per_page;
        let per_page = signed as u64;
        proof {
            assert(signed != 0 ==> signed as u64 != 0) by (bit_vector);
        }
        ResponseMetadata2 {
            count,
            per_page,
            total_pages: total_pages(count, per_page),
            current_url,
            first_page_url: None,
            last_page_url: None,
            previous_url: None,
            next_url: None,
        }
    }

    /// The same metadata with the link to the first page set.
    pub fn with_first_page_url(self, url: String) -> (metadata: Self)
        ensures
            metadata == (ResponseMetadata2 { first_page_url: Some(url), ..self }),
    {
        let mut metadata = self;
        metadata.first_page_url = Some(url);
        metadata
    }

    /// The same metadata with the link to the last page set.
    pub fn with_last_page_url(self, url: String) -> (metadata: Self)
        ensures
            metadata == (ResponseMetadata2 { last_page_url: Some(url), ..self }),
    {
        let mut metadata = self;
        metadata.last_page_url = Some(url);
        metadata
    }

    /// The same metadata with the link to the previous page set.
    pub fn with_previous_url(self, url: String) -> (metadata: Self)
        ensures
            metadata == (ResponseMetadata2 { previous_url: Some(url), ..self }),
    {
        let mut metadata = self;
        metadata.previous_url = Some(url);
        metadata
    }

    /// The same metadata with the link to the next page set.
    pub fn with_next_url(self, url: String) -> (metadata: Self)
        ensures
            metadata == (ResponseMetadata2 { next_url: Some(url), ..self }),
    {
        let mut metadata = self;
        metadata.next_url = Some(url);
        metadata
    }
}

/// The body of an error answer.
#[derive(Debug, Clone, PartialEq, Eq)]
pub struct ErrorResponse {
    pub error: ErrorDetail,
    pub message: String,
}

/// The body of an answer that carries data.
#[derive(Debug, Clone, PartialEq, Eq)]
pub struct DataResponse<T> {
    pub data: T,
    pub message: String,
}

/// The body of an answer that carries one page of data.
#[derive(Debug, Clone, PartialEq, Eq)]
pub struct PaginatedResponse<T> {
    pub data: T,
    pub _metadata: ResponseMetadata,
    pub message: String,
}

/// The body of an answer.
#[derive(Debug, Clone, PartialEq, Eq)]
pub enum JsonResponse<T> {
    Data(DataResponse<T>),
    Error(ErrorResponse),
    Paginate(PaginatedResponse<T>),
}

/// The message of an answer: the one given, or the default.
pub open spec fn message_or(message: Option<String>, default_text: Seq<char>) -> Seq<char> {
    match message {
        Some(text) => text@,
        None => default_text,
    }
}

/// The message given, or the default.
fn or_default(message: Option<String>, default_text: &str) -> (text: String)
    ensures
        text@ == message_or(message, default_text@),
{
    match message {
        Some(text) => text,
        None => default_text.to_owned(),
    }
}

impl<T> JsonResponse<T> {
    /// An error answer. Without a message it says `An error occured.`.
    pub fn error(err: ErrorDetail, message: Option<String>) -> (response: Self)
        ensures
            response matches JsonResponse::Error(body) && body.error == err && body.message@
                == message_or(message, "An error occured."@),
    {
        JsonResponse::Error(
            ErrorResponse { error: err, message: or_default(message, "An error occured.") },
        )
    }

    /// A data answer. Without a message it says
    /// `Data retrieved successfully.`.
    pub fn data(data: T, message: Option<String>) -> (response: Self)
        ensures
            response matches JsonResponse::Data(body) && body.data == data && body.message@
                == message_or(message, "Data retrieved successfully."@),
    {
        JsonResponse::Data(
            DataResponse { data, message: or_default(message, "Data retrieved successfully.") },
        )
    }

    /// A paginated answer. Without a message it says
    /// `Data retrieved successfully.`.
    pub fn paginate(data: T, metadata: ResponseMetadata, message: Option<String>) -> (response:
        Self)
        ensures
            response matches JsonResponse::Paginate(body) && body.data == data && body._metadata
                == metadata && body.message@ == message_or(
                message,
                "Data retrieved successfully."@,
            ),
    {
        JsonResponse::Paginate(
            PaginatedResponse {
                data,
                _metadata: metadata,
                message: or_default(message, "Data retrieved successfully."),
            },
        )
    }
}

/// A request body that was read as JSON and found well-formed.
#[derive(Debug, Clone, PartialEq, Eq)]
pub struct ValidJson<T>(pub T);

impl<T> ValidJson<T> {
    /// The answer to a body that could not be read: the reader's own text
    /// under `error`, and the message `Invalid request data.`.
    pub fn rejection(body_text: String) -> (response: JsonResponse<T>)
        ensures
            response matches JsonResponse::Error(body) && body.error == ErrorDetail::Text(
                body_text,
            ) && body.message@ == "Invalid request data."@,
    {
        JsonResponse::error(ErrorDetail::Text(body_text), Some("Invalid request data.".to_owned()))
    }
}

/// What an answer of the second form carries.
#[derive(Debug, Clone, PartialEq, Eq)]
pub enum JsonResponseKind<T> {
    Data { data: T },
    Error { error: ErrorDetail },
    Paginated { data: T, metadata: ResponseMetadata2 },
}

/// An answer of the second form: what it carries, and a message.
#[derive(Debug, Clone, PartialEq, Eq)]
pub struct JsonResponse2<T> {
    pub kind: JsonResponseKind<T>,
    pub message: String,
}

impl<T> JsonResponse2<T> {
    /// A data answer with the message `Data retrieved successfully`.
    pub fn data(data: T) -> (response: Self)
        ensures
            response.kind == (JsonResponseKind::Data { data }),
            response.message@ == "Data retrieved successfully"@,
    {
        JsonResponse2 {
            kind: JsonResponseKind::Data { data },
            message: "Data retrieved successfully".to_owned(),
        }
    }

    /// An error answer with the message `An error occurred`.
    pub fn error(error: ErrorDetail) -> (response: Self)
        ensures
            response.kind == (JsonResponseKind::<T>::Error { error }),
            response.message@ == "An error occurred"@,
    {
        JsonResponse2 {
            kind: JsonResponseKind::Error { error },
            message: "An error occurred".to_owned(),
        }
    }

    /// A paginated answer with the message `Data retrieved successfully`.
    pub fn paginated(data: T, metadata: ResponseMetadata2) -> (response: Self)
        ensures
            response.kind == (JsonResponseKind::Paginated { data, metadata }),
            response.message@ == "Data retrieved successfully"@,
    {
        JsonResponse2 {
            kind: JsonResponseKind::Paginated { data, metadata },
            message: "Data retrieved successfully".to_owned(),
        }
    }

    /// The same answer under another message.
    pub fn with_message(self, message: String) -> (response: Self)
        ensures
            response.kind == self.kind,
            response.message == message,
    {
        JsonResponse2 { kind: self.kind, message }
    }
}

} // verus!
