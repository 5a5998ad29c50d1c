//! Request gate: from the `Authorization` header of a request to the
//! identity that the protected handler may read. The guard is a small state
//! machine; its caller reads the header, looks the subject up, and runs the
//! handler only once the guard has attached an identity.

use vstd::prelude::*;
use crate::error::AppError;
use crate::error::ErrorView;
use crate::identity::names_user;
use crate::identity::resolve;
use crate::identity::UserIdentity;
use crate::text::strip_prefix;
use crate::token::three_parts;
use crate::token::token_claims;
use crate::token::unix_now;
use crate::token::validated;
use crate::token::verify_token_at;
use crate::token::ClaimsView;
use crate::token::TokenClaims;

verus! {

/// The token that a header value carries: what follows the prefix
/// `Bearer `, matched case-sensitively. A missing header carries none.
pub open spec fn bearer_of(authorization: Option<Seq<char>>) -> Option<Seq<char>> {
    match authorization {
        Some(value) => if "Bearer "@.is_prefix_of(value) {
            Some(value.skip("Bearer "@.len() as int))
        } else {
            None
        },
        None => None,
    }
}

/// What a request without a bearer token is answered with.
pub open spec fn no_token() -> ErrorView {
    ErrorView::GenericError("No token found in header."@)
}

/// What admitting a header value at `now` yields: no token is a failure of
/// its own, and a token is judged by validation.
pub open spec fn admitted(authorization: Option<Seq<char>>, secret: Seq<char>, now: int) -> Result<
    ClaimsView,
    ErrorView,
> {
    match bearer_of(authorization) {
        None => Err(no_token()),
        Some(token) => match validated(token_claims(token, secret), now) {
            Ok(claims) => Ok(claims),
            Err(error) => Err(error@),
        },
    }
}

/// Whether an executable outcome is the one that `expected` names.
pub open spec fn admission_is(got: Result<TokenClaims, AppError>, expected: Result<
    ClaimsView,
    ErrorView,
>) -> bool {
    match expected {
        Ok(view) => got is Ok && got->Ok_0@ == view,
        Err(error) => got is Err && got->Err_0@ == error,
    }
}

/// The view of an optional header value.
pub open spec fn header_view(authorization: Option<&str>) -> Option<Seq<char>> {
    match authorization {
        Some(value) => Some(value@),
        None => None,
    }
}

/// Extracts the bearer token from a header value. Where the header or the
/// prefix is missing it fails, before any token is parsed.
pub fn bearer_token<'a>(authorization: Option<&'a str>) -> (token: Result<&'a str, AppError>)
    ensures
        bearer_of(header_view(authorization)) is Some ==> token is Ok && Some(token->Ok_0@)
            == bearer_of(header_view(authorization)),
        bearer_of(header_view(authorization)) is None ==> token is Err && token->Err_0@
            == no_token(),
{
    match authorization {
        None => Err(AppError::GenericError("No token found in header.".to_owned())),
        Some(value) => match strip_prefix(value, "Bearer ") {
            Some(rest) => Ok(rest),
            None => Err(AppError::GenericError("No token found in header.".to_owned())),
        },
    }
}

/// Where a request stands on its way through the guard.
#[derive(Debug, Clone, PartialEq, Eq)]
pub enum Gate {
    /// Nothing has been read yet.
    AwaitingRequest,
    /// The token is valid; the caller is to look up `claims.sub`.
    AwaitingIdentity { claims: TokenClaims },
    /// Terminal: the handler may run, with this identity.
    Attached { identity: UserIdentity },
    /// Terminal: the request is answered with this error; the handler does
    /// not run.
    Rejected { error: AppError },
}

/// The mathematical content of `Gate`.
pub enum GateView {
    AwaitingRequest,
    AwaitingIdentity { claims: ClaimsView },
    Attached { identity: UserIdentity },
    Rejected { error: ErrorView },
}

impl View for Gate {
    type V = GateView;

    open spec fn view(&self) -> GateView {
        match *self {
            Gate::AwaitingRequest => GateView::AwaitingRequest,
            Gate::AwaitingIdentity { claims } => GateView::AwaitingIdentity { claims: claims@ },
            Gate::Attached { identity } => GateView::Attached { identity },
            Gate::Rejected { error } => GateView::Rejected { error: error@ },
        }
    }
}

/// What the caller reports back to the guard.
#[derive(Debug, Clone, PartialEq, Eq)]
pub enum GateEvent {
    /// The value of the `Authorization` header, if the request has one.
    Header { authorization: Option<String> },
    /// The result of looking up the subject.
    Identity { found: Option<UserIdentity> },
}

/// The view of an optional owned header value.
pub open spec fn owned_header_view(authorization: Option<String>) -> Option<Seq<char>> {
    match authorization {
        Some(value) => Some(value@),
        None => None,
    }
}

/// The guard's transition at `now`. A header moves a fresh request on to the
/// lookup or rejects; a lookup result attaches the identity or rejects; an
/// event that does not fit rejects; terminal states stay as they are.
pub open spec fn gate_next(state: GateView, event: GateEvent, secret: Seq<char>, now: int) -> GateView {
    match state {
        GateView::AwaitingRequest => match event {
            GateEvent::Header { authorization } => match admitted(
                owned_header_view(authorization),
                secret,
                now,
            ) {
                Ok(claims) => GateView::AwaitingIdentity { claims },
                Err(error) => GateView::Rejected { error },
            },
            GateEvent::Identity { .. } => GateView::Rejected { error: ErrorView::InvalidToken },
        },
        GateView::AwaitingIdentity { claims } => match event {
            GateEvent::Identity { found } => if names_user(claims.sub, found) {
                GateView::Attached { identity: found->Some_0 }
            } else {
                GateView::Rejected { error: ErrorView::InvalidToken }
            },
            GateEvent::Header { .. } => GateView::Rejected { error: ErrorView::InvalidToken },
        },
        GateView::Attached { identity } => state,
        GateView::Rejected { error } => state,
    }
}

/// Admits a header value as of `now`: extracts the token and validates it.
/// No token is parsed where none is present.
pub fn admit_at(authorization: Option<&str>, jwt_secret: &str, now: i64) -> (claims: Result<
    TokenClaims,
    AppError,
>)
    ensures
        admission_is(claims, admitted(header_view(authorization), jwt_secret@, now as int)),
{
    match bearer_token(authorization) {
        Err(error) => Err(error),
        Ok(token) => verify_token_at(token, jwt_secret, now),
    }
}

/// One step of the guard as of `now`.
pub fn auth_guard_at(state: Gate, event: GateEvent, jwt_secret: &str, now: i64) -> (next: Gate)
    ensures
        next@ == gate_next(state@, event, jwt_secret@, now as int),
{
    match state {
        Gate::AwaitingRequest => match event {
            GateEvent::Header { authorization } => {
                let header: Option<&str> = match &authorization {
                    Some(value) => Some(value.as_str()),
                    None => None,
                };
                match admit_at(header, jwt_secret, now) {
                    Ok(claims) => Gate::AwaitingIdentity { claims },
                    Err(error) => Gate::Rejected { error },
                }
            },
            GateEvent::Identity { found } => Gate::Rejected { error: AppError::InvalidToken },
        },
        Gate::AwaitingIdentity { claims } => match event {
            GateEvent::Identity { found } => match resolve(&claims, found) {
                Ok(identity) => Gate::Attached { identity },
                Err(error) => Gate::Rejected { error },
            },
            GateEvent::Header { authorization } => Gate::Rejected { error: AppError::InvalidToken },
        },
        Gate::Attached { identity } => Gate::Attached { identity },
        Gate::Rejected { error } => Gate::Rejected { error },
    }
}

/// One step of the guard as of the current time. Whatever the clock read,
/// the step is the transition at some instant not before the epoch. So a
/// header without a bearer token, or with one that has not the shape of a
/// token, is rejected whatever the time.
pub fn auth_guard(state: Gate, event: GateEvent, jwt_secret: &str) -> (next: Gate)
    ensures
        exists|now: int| 0 <= now && next@ == #[trigger] gate_next(state@, event, jwt_secret@, now),
        state is AwaitingRequest && event is Header ==> (match bearer_of(
            owned_header_view(event->Header_authorization),
        ) {
            None => next@ == (GateView::Rejected { error: no_token() }),
            Some(token) => !three_parts(token) ==> next@ == (GateView::Rejected {
                error: ErrorView::InvalidToken,
            }),
        }),
{
    let now = unix_now();
    auth_guard_at(state, event, jwt_secret, now)
}

/// The handler runs only behind a validated token and a matching record:
/// the guard attaches an identity only from the lookup state, and only the
/// record whose address is the token's subject.
pub proof fn lemma_attached_only_after_lookup(
    state: GateView,
    event: GateEvent,
    secret: Seq<char>,
    now: int,
)
    requires
        !(state is Attached),
        gate_next(state, event, secret, now) is Attached,
    ensures
        state is AwaitingIdentity,
        event is Identity,
        names_user(state->AwaitingIdentity_claims.sub, event->Identity_found),
        gate_next(state, event, secret, now)->Attached_identity == event->Identity_found->Some_0,
{
}

/// A request without a bearer token is rejected whatever the secret and
/// the time: no token is parsed.
pub proof fn lemma_no_token_is_rejected(authorization: Option<String>, secret: Seq<char>, now: int)
    requires
        bearer_of(owned_header_view(authorization)) is None,
    ensures
        gate_next(GateView::AwaitingRequest, GateEvent::Header { authorization }, secret, now)
            == (GateView::Rejected { error: no_token() }),
{
}

/// A bearer token that has not the shape of a token is rejected as invalid
/// whatever the secret and the time, and the caller is asked for no
/// lookup.
pub proof fn lemma_shapeless_token_is_rejected(
    authorization: Option<String>,
    secret: Seq<char>,
    now: int,
)
    requires
        bearer_of(owned_header_view(authorization)) is Some,
        !three_parts(bearer_of(owned_header_view(authorization))->Some_0),
    ensures
        gate_next(GateView::AwaitingRequest, GateEvent::Header { authorization }, secret, now)
            == (GateView::Rejected { error: ErrorView::InvalidToken }),
{
}

/// A rejected request stays rejected: no later event reaches the handler.
pub proof fn lemma_rejection_is_final(error: ErrorView, event: GateEvent, secret: Seq<char>, now: int)
    ensures
        gate_next(GateView::Rejected { error }, event, secret, now) == (GateView::Rejected {
            error,
        }),
{
}

} // verus!
