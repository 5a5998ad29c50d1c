//! Process-wide settings, read once at startup and never changed.

use vstd::prelude::*;

verus! {

/// The settings of the application. The secrets in it are never logged.
#[derive(Debug, Clone, PartialEq, Eq)]
pub struct AppConfig {
    pub app_debug: bool,
    pub server_address: String,
    pub database_url: String,
    /// Rows per page of a paginated answer.
    pub per_page: i32,
    /// The key under which tokens are signed and validated.
    pub jwt_secret: String,
    pub access_token_expiration_minutes: i64,
    pub refresh_token_expiration_minutes: i64,
    pub smtp_host: String,
    pub smtp_username: String,
    pub smtp_password: String,
    pub from_email: String,
}

} // verus!
