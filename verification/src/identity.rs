//! Identity resolver: the user record behind a validated token.

use vstd::prelude::*;
use crate::error::AppError;
use crate::token::TokenClaims;

verus! {

/// A user as the storage collaborator returns it. Timestamps are seconds
/// since the Unix epoch.
#[derive(Debug, Clone, PartialEq, Eq)]
pub struct UserIdentity {
    pub id: i32,
    pub name: String,
    pub username: String,
    pub email: String,
    /// The stored password digest, never the password.
    pub password: String,
    /// Passes every role and permission check.
    pub is_superadmin: bool,
    pub date_created: i64,
    pub date_updated: Option<i64>,
}

/// Whether a looked-up record is the one the subject names: it exists and
/// its e-mail address equals the subject character for character.
pub open spec fn names_user(subject: Seq<char>, found: Option<UserIdentity>) -> bool {
    found is Some && found->Some_0.email@ == subject
}

/// Turns the result of looking up the claims' subject into an identity.
/// A missing record, or one with another address, is reported as an invalid
/// token, so that a caller cannot tell the two apart.
pub fn resolve(claims: &TokenClaims, found: Option<UserIdentity>) -> (resolved: Result<
    UserIdentity,
    AppError,
>)
    ensures
        names_user(claims.sub@, found) ==> resolved == Ok::<UserIdentity, AppError>(
            found->Some_0,
        ),
        !names_user(claims.sub@, found) ==> resolved == Err::<UserIdentity, AppError>(
            AppError::InvalidToken,
        ),
{
    match found {
        Some(user) => {
            if user.email == claims.sub {
                Ok(user)
            } else {
                Err(AppError::InvalidToken)
            }
        },
        None => Err(AppError::InvalidToken),
    }
}

} // verus!
