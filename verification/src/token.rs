//! Token codec: issues and validates signed, time-bounded bearer tokens
//! that carry a subject.

use vstd::prelude::*;
use jsonwebtoken::DecodingKey;
use jsonwebtoken::EncodingKey;
use jsonwebtoken::Header;
use jsonwebtoken::Validation;
use crate::error::AppError;

verus! {

/// The payload of a bearer token: whom it names, when it was issued and
/// when it lapses, both in seconds since the Unix epoch.
#[derive(Debug, Clone, PartialEq, Eq)]
pub struct TokenClaims {
    pub sub: String,
    pub iat: usize,
    pub exp: usize,
}

/// The mathematical content of `TokenClaims`.
pub struct ClaimsView {
    pub sub: Seq<char>,
    pub iat: nat,
    pub exp: nat,
}

impl View for TokenClaims {
    type V = ClaimsView;

    open spec fn view(&self) -> ClaimsView {
        ClaimsView { sub: self.sub@, iat: self.iat as nat, exp: self.exp as nat }
    }
}

/// The claims as a token carries them, before they are held to the sizes
/// of this machine.
#[derive(Debug, Clone, PartialEq, Eq)]
pub struct OpenedClaims {
    pub sub: String,
    pub iat: u64,
    pub exp: u64,
}

/// The pair of tokens handed out at login.
#[derive(Debug, Clone, PartialEq, Eq)]
pub struct UserToken {
    pub access_token: String,
    pub refresh_token: Option<String>,
}

/// The error of the `jsonwebtoken` crate, carried through unread.
#[verifier::external_type_specification]
#[verifier::external_body]
pub struct ExJwtError(jsonwebtoken::errors::Error);

/// The compact token that `jsonwebtoken::encode` produces for these claims
/// under the default header and the secret.
pub uninterp spec fn signed_token(sub: Seq<char>, iat: nat, exp: nat, secret: Seq<char>) -> Seq<
    char,
>;

/// What `jsonwebtoken::decode` reads from a token under the secret when the
/// expiry is left to the caller: the three claims, or nothing where the
/// shape, the signature or a claim is wrong.
pub uninterp spec fn opened_token(token: Seq<char>, secret: Seq<char>) -> Option<
    (Seq<char>, nat, nat),
>;

/// How many full stops a text holds.
pub open spec fn dot_count(text: Seq<char>) -> nat
    decreases text.len(),
{
    if text.len() == 0 {
        0
    } else if text.last() == '.' {
        dot_count(text.drop_last()) + 1
    } else {
        dot_count(text.drop_last())
    }
}

/// Whether a text has the shape of a token: three parts, set apart by two
/// full stops.
pub open spec fn three_parts(text: Seq<char>) -> bool {
    dot_count(text) == 2
}

/// What a text yields under the secret: nothing where it has not the shape
/// of a token, else what opening it yields.
pub open spec fn token_claims(token: Seq<char>, secret: Seq<char>) -> Option<
    (Seq<char>, nat, nat),
> {
    if three_parts(token) {
        opened_token(token, secret)
    } else {
        None
    }
}

/// The triple of an opened token, where there is one.
pub open spec fn opened_view(opened: Option<OpenedClaims>) -> Option<(Seq<char>, nat, nat)> {
    match opened {
        None => None,
        Some(claims) => Some((claims.sub@, claims.iat as nat, claims.exp as nat)),
    }
}

/// The claims as the triple that `opened_token` speaks of.
pub open spec fn as_triple(claims: ClaimsView) -> (Seq<char>, nat, nat) {
    (claims.sub, claims.iat, claims.exp)
}

/// Whether `seconds` is a timestamp that both the clock and a claim can
/// hold.
pub open spec fn is_timestamp(seconds: int) -> bool {
    0 <= seconds <= i64::MAX && seconds <= usize::MAX
}

/// Whether a token issued at `now` with this lifetime has timestamps that
/// fit.
pub open spec fn representable(now: int, ttl_minutes: int) -> bool {
    is_timestamp(now) && is_timestamp(now + ttl_minutes * 60)
}

/// The claims issued for `subject` at `now` with the given lifetime.
pub open spec fn issued_claims(subject: Seq<char>, now: int, ttl_minutes: int) -> ClaimsView {
    ClaimsView { sub: subject, iat: now as nat, exp: (now + ttl_minutes * 60) as nat }
}

/// What validation at `now` makes of an opened token: a token that did not
/// open, or whose timestamps do not fit, is invalid; one whose expiry lies
/// before `now` has expired; any other yields its claims.
pub open spec fn validated(opened: Option<(Seq<char>, nat, nat)>, now: int) -> Result<
    ClaimsView,
    AppError,
> {
    match opened {
        None => Err(AppError::InvalidToken),
        Some(triple) => if triple.1 > usize::MAX || triple.2 > usize::MAX {
            Err(AppError::InvalidToken)
        } else if triple.2 < now {
            Err(AppError::TokenExpired)
        } else {
            Ok(ClaimsView { sub: triple.0, iat: triple.1, exp: triple.2 })
        },
    }
}

/// Whether an executable outcome is the one that `expected` names.
pub open spec fn outcome_is(got: Result<TokenClaims, AppError>, expected: Result<
    ClaimsView,
    AppError,
>) -> bool {
    match expected {
        Ok(view) => got is Ok && got->Ok_0@ == view,
        Err(error) => got == Err::<TokenClaims, AppError>(error),
    }
}

/// Calls `chrono::Utc::now` and `DateTime::timestamp`. Trusted: the seconds
/// since the Unix epoch are not negative, since the crate measures them as
/// a duration from the epoch.
#[verifier::external_body]
pub(crate) fn unix_now() -> (seconds: i64)
    ensures
        0 <= seconds,
{
    chrono::Utc::now().timestamp()
}

/// Calls `jsonwebtoken::encode` with `Header::default()` and
/// `EncodingKey::from_secret`. Trusted: with an HMAC secret and the default
/// header the crate has no failing path; the text is a function of claims
/// and secret alone; it joins three parts in the URL-safe base64 alphabet
/// by two full stops; and `jsonwebtoken::decode` under the same secret
/// reads the same three claims back.
#[verifier::external_body]
fn jwt_encode(claims: &TokenClaims, secret: &str) -> (signed: Result<
    String,
    jsonwebtoken::errors::Error,
>)
    ensures
        signed is Ok,
        signed->Ok_0@ == signed_token(claims@.sub, claims@.iat, claims@.exp, secret@),
        three_parts(signed->Ok_0@),
        opened_token(signed->Ok_0@, secret@) == Some(as_triple(claims@)),
{
    let mut body = serde_json::Map::new();
    body.insert("sub".to_string(), serde_json::Value::from(claims.sub.as_str()));
    body.insert("iat".to_string(), serde_json::Value::from(claims.iat));
    body.insert("exp".to_string(), serde_json::Value::from(claims.exp));
    jsonwebtoken::encode(&Header::default(), &body, &EncodingKey::from_secret(secret.as_ref()))
}

/// Calls `jsonwebtoken::decode` with `DecodingKey::from_secret` and the
/// default validation, its expiry test switched off, and reads the three
/// claims from the payload. Trusted: the outcome is a function of token
/// and secret alone, the one that `opened_token` names; and a text that is
/// not three parts set apart by two full stops yields nothing, since the
/// crate splits at the last two full stops and a part that holds another
/// is not in the base64 alphabet.
#[verifier::external_body]
fn jwt_decode(token: &str, secret: &str) -> (opened: Option<OpenedClaims>)
    ensures
        opened_view(opened) == opened_token(token@, secret@),
        !three_parts(token@) ==> opened is None,
{
    let mut rules = Validation::default();
    rules.validate_exp = false;
    let key = DecodingKey::from_secret(secret.as_ref());
    let body = jsonwebtoken::decode::<serde_json::Value>(token, &key, &rules).ok()?.claims;
    Some(OpenedClaims {
        sub: body.get("sub")?.as_str()?.to_string(),
        iat: body.get("iat")?.as_u64()?,
        exp: body.get("exp")?.as_u64()?,
    })
}

/// Calls the `Display` impl of `jsonwebtoken::errors::Error`. Nothing is
/// claimed of the wording.
#[verifier::external_body]
fn jwt_error_text(err: &jsonwebtoken::errors::Error) -> (text: String) {
    err.to_string()
}

/// The claims for `subject` issued at `now`, or nothing where a timestamp
/// would not fit.
pub fn claims_at(subject: &str, expire_in_minutes: i64, now: i64) -> (claims: Option<TokenClaims>)
    ensures
        representable(now as int, expire_in_minutes as int) ==> claims is Some && claims->Some_0@
            == issued_claims(subject@, now as int, expire_in_minutes as int),
        !representable(now as int, expire_in_minutes as int) ==> claims is None,
{
    if now < 0 {
        return None;
    }
    let lifetime = match expire_in_minutes.checked_mul(60) {
        Some(seconds) => seconds,
        None => {
            return None;
        },
    };
    let expiry = match now.checked_add(lifetime) {
        Some(seconds) => seconds,
        None => {
            return None;
        },
    };
    if expiry < 0 || expiry as u64 > usize::MAX as u64 || now as u64 > usize::MAX as u64 {
        return None;
    }
    Some(TokenClaims { sub: subject.to_owned(), iat: now as usize, exp: expiry as usize })
}

/// Whether `token` opens under `secret` to the claims issued for `subject`
/// at `now` with the given lifetime.
pub open spec fn issued_as(
    token: Seq<char>,
    secret: Seq<char>,
    subject: Seq<char>,
    now: int,
    ttl_minutes: int,
) -> bool {
    token_claims(token, secret) == Some(as_triple(issued_claims(subject, now, ttl_minutes)))
}

/// Whether `issued` is the outcome of issuing a token for `subject` at
/// `now`: a token exactly where both timestamps fit, and then the signed
/// form of the issued claims, which opens to them under the same secret;
/// else the reason.
pub open spec fn issuance(
    issued: Result<String, String>,
    subject: Seq<char>,
    ttl_minutes: int,
    secret: Seq<char>,
    now: int,
) -> bool {
    &&& issued is Ok <==> representable(now, ttl_minutes)
    &&& issued is Ok ==> issued->Ok_0@ == signed_token(
        subject,
        now as nat,
        (now + ttl_minutes * 60) as nat,
        secret,
    )
    &&& issued is Ok ==> three_parts(issued->Ok_0@)
    &&& issued is Ok ==> issued_as(issued->Ok_0@, secret, subject, now, ttl_minutes)
    &&& issued is Err ==> issued->Err_0@ == "token lifetime out of range"@
}

/// Issues a token for `subject` as of `now`.
pub fn create_user_token_at(subject: &str, expire_in_minutes: i64, jwt_secret: &str, now: i64) -> (issued:
    Result<String, String>)
    ensures
        issuance(issued, subject@, expire_in_minutes as int, jwt_secret@, now as int),
{
    match claims_at(subject, expire_in_minutes, now) {
        None => Err("token lifetime out of range".to_owned()),
        Some(claims) => match jwt_encode(&claims, jwt_secret) {
            Ok(token) => Ok(token),
            Err(err) => Err(jwt_error_text(&err)),
        },
    }
}

/// Issues a token for `subject` as of the current time. Whatever the clock
/// read, the outcome is that of issuing at some instant not before the
/// epoch.
pub fn create_user_token(subject: &str, expire_in_minutes: i64, jwt_secret: &str) -> (issued:
    Result<String, String>)
    ensures
        exists|now: int|
            0 <= now <= i64::MAX && #[trigger] issuance(
                issued,
                subject@,
                expire_in_minutes as int,
                jwt_secret@,
                now,
            ),
{
    let now = unix_now();
    create_user_token_at(subject, expire_in_minutes, jwt_secret, now)
}

/// Judges an opened token at `now`: invalid where nothing opened or a
/// timestamp does not fit, expired where the expiry lies before `now`,
/// else the claims themselves.
pub fn check_claims(opened: Option<OpenedClaims>, now: i64) -> (checked: Result<
    TokenClaims,
    AppError,
>)
    ensures
        outcome_is(checked, validated(opened_view(opened), now as int)),
{
    match opened {
        None => Err(AppError::InvalidToken),
        Some(claims) => {
            if claims.iat > usize::MAX as u64 || claims.exp > usize::MAX as u64 {
                Err(AppError::InvalidToken)
            } else if now >= 0 && claims.exp < (now as u64) {
                Err(AppError::TokenExpired)
            } else {
                Ok(TokenClaims { sub: claims.sub, iat: claims.iat as usize, exp: claims.exp as usize })
            }
        },
    }
}

/// Validates `token` under `jwt_secret` as of `now`.
pub fn verify_token_at(token: &str, jwt_secret: &str, now: i64) -> (checked: Result<
    TokenClaims,
    AppError,
>)
    ensures
        outcome_is(checked, validated(token_claims(token@, jwt_secret@), now as int)),
{
    check_claims(jwt_decode(token, jwt_secret), now)
}

/// Validates `token` under `jwt_secret` as of the current time. Whatever
/// the clock read, the outcome is the validation at some instant not before
/// the epoch. A text that has not the shape of a token, or does not open,
/// is invalid at every instant.
pub fn verify_token(token: &str, jwt_secret: &str) -> (checked: Result<TokenClaims, AppError>)
    ensures
        exists|now: int|
            0 <= now && outcome_is(
                checked,
                #[trigger] validated(token_claims(token@, jwt_secret@), now),
            ),
        token_claims(token@, jwt_secret@) is None ==> checked == Err::<TokenClaims, AppError>(
            AppError::InvalidToken,
        ),
        !three_parts(token@) ==> checked == Err::<TokenClaims, AppError>(AppError::InvalidToken),
{
    let now = unix_now();
    verify_token_at(token, jwt_secret, now)
}

/// A token validates to the claims it was issued with, at every instant up
/// to and including its expiry. With a positive lifetime that covers the
/// instant of issuance.
pub proof fn lemma_issued_token_validates(
    token: Seq<char>,
    secret: Seq<char>,
    subject: Seq<char>,
    now: int,
    ttl_minutes: int,
    at: int,
)
    requires
        representable(now, ttl_minutes),
        issued_as(token, secret, subject, now, ttl_minutes),
        at <= now + ttl_minutes * 60,
    ensures
        validated(token_claims(token, secret), at) == Ok::<ClaimsView, AppError>(
            issued_claims(subject, now, ttl_minutes),
        ),
        validated(token_claims(token, secret), at)->Ok_0.sub == subject,
        ttl_minutes > 0 ==> validated(token_claims(token, secret), now) is Ok,
{
}

/// A token is rejected as expired at every instant after its expiry. With
/// a negative lifetime that covers the instant of issuance.
pub proof fn lemma_lapsed_token_is_rejected(
    token: Seq<char>,
    secret: Seq<char>,
    subject: Seq<char>,
    now: int,
    ttl_minutes: int,
    at: int,
)
    requires
        representable(now, ttl_minutes),
        issued_as(token, secret, subject, now, ttl_minutes),
        at > now + ttl_minutes * 60,
    ensures
        validated(token_claims(token, secret), at) == Err::<ClaimsView, AppError>(
            AppError::TokenExpired,
        ),
        ttl_minutes < 0 ==> validated(token_claims(token, secret), now) == Err::<
            ClaimsView,
            AppError,
        >(AppError::TokenExpired),
{
}

/// A text with the shape of a token is not empty: it holds at least its
/// two full stops.
pub proof fn lemma_token_is_not_empty(text: Seq<char>)
    ensures
        dot_count(text) <= text.len(),
        three_parts(text) ==> text.len() >= 2,
    decreases text.len(),
{
    if text.len() > 0 {
        lemma_token_is_not_empty(text.drop_last());
    }
}

/// Two tokens issued with lifetimes that differ are different texts, for
/// whomever and whenever they were issued.
pub proof fn lemma_lifetimes_tell_tokens_apart(
    first: Seq<char>,
    second: Seq<char>,
    secret: Seq<char>,
    subject: Seq<char>,
    now: int,
    first_ttl: int,
    second_ttl: int,
)
    requires
        representable(now, first_ttl),
        representable(now, second_ttl),
        issued_as(first, secret, subject, now, first_ttl),
        issued_as(second, secret, subject, now, second_ttl),
        first_ttl != second_ttl,
    ensures
        first != second,
{
}

} // verus!
