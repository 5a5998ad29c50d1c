//! The error type shared by every component.

use vstd::prelude::*;
use crate::text::same_text;
use crate::text::texts;

verus! {

/// What a storage collaborator reported, reduced to what the library reads.
#[derive(Debug, Clone, PartialEq, Eq)]
pub enum DbError {
    /// A looked-up record does not exist; the text names it.
    RecordNotFound(String),
    /// Any other storage failure. Its details never reach a client.
    Other,
}

/// The messages collected for one field of a rejected form.
#[derive(Debug, Clone, PartialEq, Eq)]
pub struct FieldErrors {
    pub field: String,
    pub messages: Vec<String>,
}

/// Every failure the library reports.
#[derive(Debug, Clone, PartialEq, Eq)]
pub enum AppError {
    /// A failure described by its text alone.
    GenericError(String),
    /// The storage collaborator failed.
    DatabaseError(DbError),
    /// A form was rejected by the attribute-driven validator.
    Validation(Vec<FieldErrors>),
    /// A form was rejected by the rule-driven validator.
    GardeValidation(Vec<FieldErrors>),
    /// The identity lacks the required role or permission.
    Unauthorized,
    /// A token was expected and none was given. The request guard does not
    /// use it: it answers a missing header with a plain failure.
    EmptyToken,
    /// The token is malformed, wrongly signed, or names nobody.
    InvalidToken,
    /// The token's expiry lies in the past.
    TokenExpired,
    /// The resource is closed to the caller.
    Forbidden,
}

/// The mathematical content of `AppError`: a plain failure by its text,
/// every other failure as it is.
pub enum ErrorView {
    GenericError(Seq<char>),
    DatabaseError(DbError),
    Validation(Vec<FieldErrors>),
    GardeValidation(Vec<FieldErrors>),
    Unauthorized,
    EmptyToken,
    InvalidToken,
    TokenExpired,
    Forbidden,
}

impl View for AppError {
    type V = ErrorView;

    open spec fn view(&self) -> ErrorView {
        match *self {
            AppError::GenericError(text) => ErrorView::GenericError(text@),
            AppError::DatabaseError(failure) => ErrorView::DatabaseError(failure),
            AppError::Validation(fields) => ErrorView::Validation(fields),
            AppError::GardeValidation(fields) => ErrorView::GardeValidation(fields),
            AppError::Unauthorized => ErrorView::Unauthorized,
            AppError::EmptyToken => ErrorView::EmptyToken,
            AppError::InvalidToken => ErrorView::InvalidToken,
            AppError::TokenExpired => ErrorView::TokenExpired,
            AppError::Forbidden => ErrorView::Forbidden,
        }
    }
}

/// The `error` member of an error response: a text, or the messages per
/// field of a rejected form.
#[derive(Debug, Clone, PartialEq, Eq)]
pub enum ErrorDetail {
    Text(String),
    Fields(Vec<FieldErrors>),
}

/// An error as a client sees it: the HTTP status, the `error` member and
/// the category label under `message`.
#[derive(Debug, Clone, PartialEq, Eq)]
pub struct ErrorEnvelope {
    pub status: u16,
    pub error: ErrorDetail,
    pub message: String,
}

/// The HTTP status that answers an error. A plain failure, such as a
/// request without a bearer token, is a bad request (400); a bad or lapsed
/// token and a missing role or permission are unauthorised (401).
pub open spec fn status_of(error: AppError) -> u16 {
    match error {
        AppError::GenericError(_) => 400,
        AppError::DatabaseError(DbError::RecordNotFound(_)) => 404,
        AppError::DatabaseError(DbError::Other) => 500,
        AppError::Validation(_) => 400,
        AppError::GardeValidation(_) => 400,
        AppError::Unauthorized => 401,
        AppError::EmptyToken => 403,
        AppError::InvalidToken => 401,
        AppError::TokenExpired => 401,
        AppError::Forbidden => 403,
    }
}

/// The category label that answers an error.
pub open spec fn label_of(error: AppError) -> Seq<char> {
    match error {
        AppError::GenericError(_) => "Error"@,
        AppError::DatabaseError(_) => "Database Error"@,
        AppError::Validation(_) => "Validation Error"@,
        AppError::GardeValidation(_) => "Validation Error"@,
        AppError::Unauthorized => "Authentication Error"@,
        AppError::EmptyToken => "Empty Token"@,
        AppError::InvalidToken => "Authentication Error"@,
        AppError::TokenExpired => "Token Expired."@,
        AppError::Forbidden => "Forbidden Access"@,
    }
}

/// The text under `error` for an error that has one. A storage failure
/// other than a missing record shows a fixed text, never its own.
pub open spec fn text_of(error: AppError) -> Seq<char> {
    match error {
        AppError::GenericError(text) => text@,
        AppError::DatabaseError(DbError::RecordNotFound(text)) => text@,
        AppError::DatabaseError(DbError::Other) => "Database operation failed"@,
        AppError::Unauthorized => "Unauthorized access"@,
        AppError::EmptyToken => "Token Not Found"@,
        AppError::InvalidToken => "Invalid Token"@,
        AppError::TokenExpired => "Token Expired."@,
        AppError::Forbidden => "You are not allowed to access the resource"@,
        AppError::Validation(_) => Seq::empty(),
        AppError::GardeValidation(_) => Seq::empty(),
    }
}

/// Whether `detail` is the `error` member that answers `error`: the field
/// messages of a rejected form, the text of any other error.
pub open spec fn detail_of(error: AppError, detail: ErrorDetail) -> bool {
    match error {
        AppError::Validation(fields) => detail == ErrorDetail::Fields(fields),
        AppError::GardeValidation(fields) => detail == ErrorDetail::Fields(fields),
        _ => detail matches ErrorDetail::Text(text) && text@ == text_of(error),
    }
}

impl AppError {
    /// The response that answers this error.
    pub fn into_response(self) -> (envelope: ErrorEnvelope)
        ensures
            envelope.status == status_of(self),
            envelope.message@ == label_of(self),
            detail_of(self, envelope.error),
    {
        match self {
            AppError::GenericError(text) => ErrorEnvelope {
                status: 400,
                error: ErrorDetail::Text(text),
                message: "Error".to_owned(),
            },
            AppError::DatabaseError(DbError::RecordNotFound(text)) => ErrorEnvelope {
                status: 404,
                error: ErrorDetail::Text(text),
                message: "Database Error".to_owned(),
            },
            AppError::DatabaseError(DbError::Other) => ErrorEnvelope {
                status: 500,
                error: ErrorDetail::Text("Database operation failed".to_owned()),
                message: "Database Error".to_owned(),
            },
            AppError::Validation(fields) => ErrorEnvelope {
                status: 400,
                error: ErrorDetail::Fields(fields),
                message: "Validation Error".to_owned(),
            },
            AppError::Forbidden => ErrorEnvelope {
                status: 403,
                error: ErrorDetail::Text("You are not allowed to access the resource".to_owned()),
                message: "Forbidden Access".to_owned(),
            },
            AppError::Unauthorized => ErrorEnvelope {
                status: 401,
                error: ErrorDetail::Text("Unauthorized access".to_owned()),
                message: "Authentication Error".to_owned(),
            },
            AppError::EmptyToken => ErrorEnvelope {
                status: 403,
                error: ErrorDetail::Text("Token Not Found".to_owned()),
                message: "Empty Token".to_owned(),
            },
            AppError::InvalidToken => ErrorEnvelope {
                status: 401,
                error: ErrorDetail::Text("Invalid Token".to_owned()),
                message: "Authentication Error".to_owned(),
            },
            AppError::TokenExpired => ErrorEnvelope {
                status: 401,
                error: ErrorDetail::Text("Token Expired.".to_owned()),
                message: "Token Expired.".to_owned(),
            },
            AppError::GardeValidation(fields) => ErrorEnvelope {
                status: 400,
                error: ErrorDetail::Fields(fields),
                message: "Validation Error".to_owned(),
            },
        }
    }
}

/// No error is answered with a status of success; a bad or lapsed token
/// and a missing role or permission are answered with 401, a closed
/// resource with 403.
pub proof fn lemma_failures_are_refused(error: AppError)
    ensures
        400 <= status_of(error) < 600,
        (error is Unauthorized || error is InvalidToken || error is TokenExpired) ==> status_of(
            error,
        ) == 401,
        (error is EmptyToken || error is Forbidden) ==> status_of(error) == 403,
{
}

/// Whether one of the first `count` entries is for `field`.
pub open spec fn field_seen(entries: Seq<(String, String)>, count: int, field: Seq<char>) -> bool {
    exists|i: int| 0 <= i < count && i < entries.len() && (#[trigger] entries[i]).0@ == field
}

/// The fields of the first `count` entries, each once, in the order of
/// their first entry.
pub open spec fn grouped_fields(entries: Seq<(String, String)>, count: int) -> Seq<Seq<char>>
    decreases count,
{
    if count <= 0 || count > entries.len() {
        Seq::empty()
    } else {
        let rest = grouped_fields(entries, count - 1);
        let field = entries[count - 1].0@;
        if field_seen(entries, count - 1, field) {
            rest
        } else {
            rest.push(field)
        }
    }
}

/// The messages that the first `count` entries hold for `field`, in the
/// order of the entries.
pub open spec fn messages_for(entries: Seq<(String, String)>, field: Seq<char>, count: int) -> Seq<
    Seq<char>,
>
    decreases count,
{
    if count <= 0 || count > entries.len() {
        Seq::empty()
    } else {
        let rest = messages_for(entries, field, count - 1);
        if entries[count - 1].0@ == field {
            rest.push(entries[count - 1].1@)
        } else {
            rest
        }
    }
}

/// Whether `fields` holds the entries grouped: one element for each field,
/// in the order of first entry, with the messages of that field in the
/// order of the entries.
pub open spec fn grouped(entries: Seq<(String, String)>, fields: Seq<FieldErrors>) -> bool {
    let names = grouped_fields(entries, entries.len() as int);
    &&& fields.len() == names.len()
    &&& forall|i: int|
        0 <= i < fields.len() ==> (#[trigger] fields[i]).field@ == names[i] && texts(
            fields[i].messages@,
        ) == messages_for(entries, names[i], entries.len() as int)
}

/// Whether one of the first `count` entries is for `field`.
fn is_field_seen(entries: &Vec<(String, String)>, count: usize, field: &str) -> (seen: bool)
    requires
        count <= entries@.len(),
    ensures
        seen == field_seen(entries@, count as int, field@),
{
    let mut i: usize = 0;
    while i < count
        invariant
            i <= count <= entries@.len(),
            forall|k: int| 0 <= k < i ==> (#[trigger] entries@[k]).0@ != field@,
        decreases count - i,
    {
        if same_text(entries[i].0.as_str(), field) {
            return true;
        }
        i = i + 1;
    }
    false
}

/// The messages that the entries hold for `field`.
fn collect_messages(entries: &Vec<(String, String)>, field: &str) -> (messages: Vec<String>)
    ensures
        texts(messages@) == messages_for(entries@, field@, entries@.len() as int),
{
    let mut messages: Vec<String> = Vec::new();
    let mut i: usize = 0;
    while i < entries.len()
        invariant
            i <= entries@.len(),
            texts(messages@) == messages_for(entries@, field@, i as int),
        decreases entries@.len() - i,
    {
        if same_text(entries[i].0.as_str(), field) {
            let ghost before = messages@;
            messages.push(entries[i].1.as_str().to_owned());
            proof {
                assert(texts(messages@) =~= texts(before).push(entries@[i as int].1@));
            }
        }
        i = i + 1;
    }
    messages
}

/// Groups messages by the field they are for. Each field occurs once, in
/// the order of its first entry, with its messages in the order of the
/// entries.
pub fn group_messages(entries: Vec<(String, String)>) -> (fields: Vec<FieldErrors>)
    ensures
        grouped(entries@, fields@),
{
    let mut fields: Vec<FieldErrors> = Vec::new();
    let mut i: usize = 0;
    while i < entries.len()
        invariant
            i <= entries@.len(),
            fields@.len() == grouped_fields(entries@, i as int).len(),
            forall|k: int|
                0 <= k < fields@.len() ==> (#[trigger] fields@[k]).field@ == grouped_fields(
                    entries@,
                    i as int,
                )[k] && texts(fields@[k].messages@) == messages_for(
                    entries@,
                    fields@[k].field@,
                    entries@.len() as int,
                ),
        decreases entries@.len() - i,
    {
        let field = entries[i].0.as_str();
        if !is_field_seen(&entries, i, field) {
            let messages = collect_messages(&entries, field);
            fields.push(FieldErrors { field: field.to_owned(), messages });
        }
        i = i + 1;
    }
    fields
}

/// Every field of the entries occurs among the grouped fields, and none
/// occurs twice.
pub proof fn lemma_grouped_fields_once(entries: Seq<(String, String)>, count: int)
    requires
        0 <= count <= entries.len(),
    ensures
        forall|field: Seq<char>| #[trigger]
            grouped_fields(entries, count).contains(field) <==> field_seen(entries, count, field),
        grouped_fields(entries, count).no_duplicates(),
    decreases count,
{
    if count > 0 {
        lemma_grouped_fields_once(entries, count - 1);
        let rest = grouped_fields(entries, count - 1);
        let all = grouped_fields(entries, count);
        let last = entries[count - 1].0@;
        assert forall|field: Seq<char>| #[trigger]
            all.contains(field) <==> field_seen(entries, count, field) by {
            if field_seen(entries, count, field) {
                let i = choose|i: int|
                    0 <= i < count && i < entries.len() && (#[trigger] entries[i]).0@ == field;
                if i < count - 1 {
                    assert(field_seen(entries, count - 1, field));
                    assert(rest.contains(field));
                    let k = choose|k: int| 0 <= k < rest.len() && rest[k] == field;
                    assert(all[k] == field);
                } else if !field_seen(entries, count - 1, last) {
                    assert(all[all.len() - 1] == field);
                } else {
                    assert(rest.contains(field));
                    let k = choose|k: int| 0 <= k < rest.len() && rest[k] == field;
                    assert(all[k] == field);
                }
            }
            if all.contains(field) {
                let k = choose|k: int| 0 <= k < all.len() && all[k] == field;
                if k < rest.len() {
                    assert(rest[k] == field);
                    assert(rest.contains(field));
                    let i = choose|i: int|
                        0 <= i < count - 1 && i < entries.len() && (#[trigger] entries[i]).0@
                            == field;
                    assert(entries[i].0@ == field);
                } else {
                    assert(entries[count - 1].0@ == field);
                }
            }
        }
        if !field_seen(entries, count - 1, last) {
            assert(!rest.contains(last));
            assert forall|i: int, j: int| 0 <= i < all.len() && 0 <= j < all.len() && i != j implies all[i]
                != all[j] by {
                if i < rest.len() && j < rest.len() {
                } else if i < rest.len() {
                    assert(rest[i] == all[i]);
                } else {
                    assert(rest[j] == all[j]);
                }
            }
        }
    }
}

} // verus!
