//! Login: from the record found for a user name and the password offered
//! to the pair of tokens, or to the reason for none.

use vstd::prelude::*;
use crate::config::AppConfig;
use crate::error::AppError;
use crate::hasher::check_outcome;
use crate::hasher::stored_key;
use crate::hasher::verify_password;
use crate::identity::UserIdentity;
use crate::token::create_user_token_at;
use crate::token::issued_as;
use crate::token::lemma_token_is_not_empty;
use crate::token::representable;
use crate::token::signed_token;
use crate::token::three_parts;
use crate::token::unix_now;
use crate::token::UserToken;

verus! {

/// Whether an outcome is the plain failure with this message.
pub open spec fn refused_with(got: Result<UserToken, AppError>, message: Seq<char>) -> bool {
    got matches Err(AppError::GenericError(text)) && text@ == message
}

/// Whether the password offered is the one behind the stored digest.
pub open spec fn password_accepted(user: UserIdentity, password: Seq<char>) -> bool {
    check_outcome(stored_key(), user.password@, password) == Some(true)
}

/// Whether both lifetimes of the configuration give timestamps that fit
/// when counted from `now`.
pub open spec fn lifetimes_fit(config: AppConfig, now: int) -> bool {
    representable(now, config.access_token_expiration_minutes as int) && representable(
        now,
        config.refresh_token_expiration_minutes as int,
    )
}

/// Whether `token` is the one issued to `user` at `now` with this
/// lifetime: the signed form of the claims that name the user's address,
/// three parts long, opening to those claims under the configured secret.
pub open spec fn issued_to(
    token: Seq<char>,
    user: UserIdentity,
    config: AppConfig,
    now: int,
    ttl_minutes: int,
) -> bool {
    &&& token == signed_token(
        user.email@,
        now as nat,
        (now + ttl_minutes * 60) as nat,
        config.jwt_secret@,
    )
    &&& three_parts(token)
    &&& issued_as(token, config.jwt_secret@, user.email@, now, ttl_minutes)
}

/// Whether `tokens` is the pair issued to `user` at `now`: an access and a
/// refresh token, signed separately under the configured secret, each
/// with its own lifetime.
pub open spec fn issued_pair(tokens: UserToken, user: UserIdentity, config: AppConfig, now: int) -> bool {
    &&& issued_to(
        tokens.access_token@,
        user,
        config,
        now,
        config.access_token_expiration_minutes as int,
    )
    &&& tokens.refresh_token is Some
    &&& issued_to(
        tokens.refresh_token->Some_0@,
        user,
        config,
        now,
        config.refresh_token_expiration_minutes as int,
    )
}

/// Whether a login with this record and password is owed its tokens at
/// `now`.
pub open spec fn login_succeeds(
    found: Option<UserIdentity>,
    password: Seq<char>,
    config: AppConfig,
    now: int,
) -> bool {
    found is Some && password_accepted(found->Some_0, password) && lifetimes_fit(config, now)
}

/// Whether `outcome` is what a login with this record and password comes
/// to at `now`. Tokens are issued exactly where the record exists, the
/// password verifies against its digest, and both lifetimes fit; every
/// other case names its reason and issues nothing.
pub open spec fn login_outcome(
    outcome: Result<UserToken, AppError>,
    found: Option<UserIdentity>,
    password: Seq<char>,
    config: AppConfig,
    now: int,
) -> bool {
    &&& outcome is Ok <==> login_succeeds(found, password, config, now)
    &&& outcome is Ok ==> issued_pair(outcome->Ok_0, found->Some_0, config, now)
    &&& found is None ==> refused_with(outcome, "User not found."@)
    &&& found is Some && check_outcome(stored_key(), found->Some_0.password@, password) == Some(
        false,
    ) ==> refused_with(outcome, "Invalid user"@)
    &&& found is Some && check_outcome(stored_key(), found->Some_0.password@, password) is None
        ==> (outcome matches Err(AppError::GenericError(_)))
    &&& found is Some && password_accepted(found->Some_0, password) && !lifetimes_fit(config, now)
        ==> refused_with(outcome, "token lifetime out of range"@)
}

/// Decides a login as of `now`. `found` is the record looked up by user
/// name.
pub fn login_at(found: Option<UserIdentity>, password: &str, config: &AppConfig, now: i64) -> (outcome:
    Result<UserToken, AppError>)
    ensures
        login_outcome(outcome, found, password@, *config, now as int),
{
    let user = match found {
        Some(user) => user,
        None => {
            return Err(AppError::GenericError("User not found.".to_owned()));
        },
    };
    match verify_password(user.password.as_str(), password) {
        Err(error) => {
            return Err(error);
        },
        Ok(false) => {
            return Err(AppError::GenericError("Invalid user".to_owned()));
        },
        Ok(true) => {},
    }
    let access_token = match create_user_token_at(
        user.email.as_str(),
        config.access_token_expiration_minutes,
        config.jwt_secret.as_str(),
        now,
    ) {
        Ok(token) => token,
        Err(text) => {
            return Err(AppError::GenericError(text));
        },
    };
    let refresh_token = match create_user_token_at(
        user.email.as_str(),
        config.refresh_token_expiration_minutes,
        config.jwt_secret.as_str(),
        now,
    ) {
        Ok(token) => token,
        Err(text) => {
            return Err(AppError::GenericError(text));
        },
    };
    Ok(UserToken { access_token, refresh_token: Some(refresh_token) })
}

/// Decides a login as of the current time. Whatever the clock read, the
/// outcome is that of a login at some instant not before the epoch: so
/// without a record, or with a password that does not verify, no token is
/// issued.
pub fn login(found: Option<UserIdentity>, password: &str, config: &AppConfig) -> (outcome: Result<
    UserToken,
    AppError,
>)
    ensures
        exists|now: int|
            0 <= now <= i64::MAX && #[trigger] login_outcome(
                outcome,
                found,
                password@,
                *config,
                now,
            ),
{
    let now = unix_now();
    login_at(found, password, config, now)
}

/// The two tokens of a login are not empty, and they are different texts
/// where the two lifetimes differ. With equal lifetimes they are one text.
pub proof fn lemma_pair_is_distinct(tokens: UserToken, user: UserIdentity, config: AppConfig, now: int)
    requires
        lifetimes_fit(config, now),
        issued_pair(tokens, user, config, now),
    ensures
        tokens.access_token@.len() >= 2,
        tokens.refresh_token->Some_0@.len() >= 2,
        config.access_token_expiration_minutes != config.refresh_token_expiration_minutes
            ==> tokens.access_token@ != tokens.refresh_token->Some_0@,
        config.access_token_expiration_minutes == config.refresh_token_expiration_minutes
            ==> tokens.access_token@ == tokens.refresh_token->Some_0@,
{
    lemma_token_is_not_empty(tokens.access_token@);
    lemma_token_is_not_empty(tokens.refresh_token->Some_0@);
}

} // verus!
