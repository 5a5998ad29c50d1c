//! Request bodies, and what is stored from them. A password leaves this
//! module only as its digest.

use vstd::prelude::*;
use crate::error::AppError;
use crate::error::DbError;
use crate::hasher::digest_text;
use crate::hasher::hash;
use crate::hasher::stored_key;
use crate::identity::UserIdentity;

verus! {

/// The body of a request that creates a permission.
#[derive(Debug, Clone, PartialEq, Eq)]
pub struct CreatePermissionRequest {
    pub name: String,
    pub code_name: String,
}

/// The body of a request that changes a permission.
#[derive(Debug, Clone, PartialEq, Eq)]
pub struct UpdatePermissionRequest {
    pub name: String,
    pub code_name: String,
}

/// The body of a request that creates a role.
#[derive(Debug, Clone, PartialEq, Eq)]
pub struct CreateRoleRequest {
    pub name: String,
}

/// The body of a request that changes a role.
#[derive(Debug, Clone, PartialEq, Eq)]
pub struct UpdateRoleRequest {
    pub name: String,
}

/// The body of a request that assigns or synchronises roles, by name.
#[derive(Debug, Clone, PartialEq, Eq)]
pub struct UpdateUserRolesRequest {
    pub roles: Vec<String>,
}

/// The body of a request that assigns or synchronises permissions, by code
/// name.
#[derive(Debug, Clone, PartialEq, Eq)]
pub struct UpdateUserPermissionRequest {
    pub permissions: Vec<String>,
}

/// The body of a request that creates a user.
#[derive(Debug, Clone, PartialEq, Eq)]
pub struct CreateUserRequest {
    pub name: String,
    pub username: String,
    pub email: String,
    pub password: String,
    pub address: String,
    pub mobile_number: String,
}

/// The body of a request that changes a user. Without a password the
/// stored one stays.
#[derive(Debug, Clone, PartialEq, Eq)]
pub struct UpdateUserRequest {
    pub name: String,
    pub username: String,
    pub email: String,
    pub password: Option<String>,
}

/// The body of a login request.
#[derive(Debug, Clone, PartialEq, Eq)]
pub struct UserLogin {
    pub username: String,
    pub password: String,
}

/// The body of a registration request.
#[derive(Debug, Clone, PartialEq, Eq)]
pub struct UserRegisterRequest {
    pub username: String,
    pub password: String,
}

/// The columns of a user that is about to be stored.
#[derive(Debug, Clone, PartialEq, Eq)]
pub struct NewUser {
    pub name: String,
    pub username: String,
    pub email: String,
    /// The digest of the password requested.
    pub password: String,
}

/// The columns of a profile that is about to be stored beside a user.
#[derive(Debug, Clone, PartialEq, Eq)]
pub struct NewProfile {
    pub address: Option<String>,
    pub mobile_number: Option<String>,
}

/// What a registration stores, in one transaction.
#[derive(Debug, Clone, PartialEq, Eq)]
pub struct Registration {
    pub user: NewUser,
    pub profile: NewProfile,
}

impl CreateUserRequest {
    /// The columns stored for the user requested: the password as its
    /// digest, the rest as given.
    pub fn into_new_user(self) -> (stored: NewUser)
        ensures
            stored.name == self.name,
            stored.username == self.username,
            stored.email == self.email,
            stored.password@ == digest_text(stored_key(), self.password@),
    {
        let password = hash(self.password.as_str());
        NewUser { name: self.name, username: self.username, email: self.email, password }
    }

    /// Plans a registration. `taken` says whether a user with this address
    /// or user name exists; such a request is refused.
    pub fn register(self, taken: bool) -> (planned: Result<Registration, AppError>)
        ensures
            taken ==> (planned matches Err(AppError::GenericError(text)) && text@
                == "A user with this email or username already exists."@),
            !taken ==> (planned matches Ok(registration) && registration.user.name == self.name
                && registration.user.username == self.username && registration.user.email
                == self.email && registration.user.password@ == digest_text(
                stored_key(),
                self.password@,
            ) && registration.profile.address == Some(self.address)
                && registration.profile.mobile_number == Some(self.mobile_number)),
    {
        if taken {
            return Err(
                AppError::GenericError(
                    "A user with this email or username already exists.".to_owned(),
                ),
            );
        }
        let password = hash(self.password.as_str());
        Ok(
            Registration {
                user: NewUser {
                    name: self.name,
                    username: self.username,
                    email: self.email,
                    password,
                },
                profile: NewProfile {
                    address: Some(self.address),
                    mobile_number: Some(self.mobile_number),
                },
            },
        )
    }
}

impl UpdateUserRequest {
    /// The user as stored after this change. Name, user name and address
    /// are replaced. The digest is replaced by that of a new password where
    /// one is given, and left untouched where none is. Nothing else
    /// changes.
    pub fn apply_to(self, user: UserIdentity) -> (changed: UserIdentity)
        ensures
            changed.id == user.id,
            changed.name == self.name,
            changed.username == self.username,
            changed.email == self.email,
            self.password is None ==> changed.password == user.password,
            self.password is Some ==> changed.password@ == digest_text(
                stored_key(),
                self.password->Some_0@,
            ),
            changed.is_superadmin == user.is_superadmin,
            changed.date_created == user.date_created,
            changed.date_updated == user.date_updated,
    {
        let password = match self.password {
            Some(plain) => hash(plain.as_str()),
            None => user.password,
        };
        UserIdentity {
            id: user.id,
            name: self.name,
            username: self.username,
            email: self.email,
            password,
            is_superadmin: user.is_superadmin,
            date_created: user.date_created,
            date_updated: user.date_updated,
        }
    }
}

/// Whether an outcome is the refusal with this message.
pub open spec fn refused(got: Result<(), String>, message: Seq<char>) -> bool {
    got is Err && got->Err_0@ == message
}

/// Judges a uniqueness lookup made while a form is validated: a record
/// found refuses the value with `taken`, a failed lookup refuses it without
/// showing why, and no record lets it pass.
pub fn ensure_absent(found: Result<bool, DbError>, taken: &str) -> (verdict: Result<(), String>)
    ensures
        found == Ok::<bool, DbError>(false) ==> verdict is Ok,
        found == Ok::<bool, DbError>(true) ==> refused(verdict, taken@),
        found is Err ==> refused(verdict, "Internal error during validation."@),
{
    match found {
        Ok(false) => Ok(()),
        Ok(true) => Err(taken.to_owned()),
        Err(_) => Err("Internal error during validation.".to_owned()),
    }
}

impl CreateRoleRequest {
    /// Refuses a role name that is taken.
    pub fn validate_role_exists(found: Result<bool, DbError>) -> (verdict: Result<(), String>)
        ensures
            found == Ok::<bool, DbError>(false) ==> verdict is Ok,
            found == Ok::<bool, DbError>(true) ==> refused(
                verdict,
                "Role with the given name already exists."@,
            ),
            found is Err ==> refused(verdict, "Internal error during validation."@),
    {
        ensure_absent(found, "Role with the given name already exists.")
    }
}

impl CreateUserRequest {
    /// Refuses a user name that is taken.
    pub fn validate_username_exists(found: Result<bool, DbError>) -> (verdict: Result<(), String>)
        ensures
            found == Ok::<bool, DbError>(false) ==> verdict is Ok,
            found == Ok::<bool, DbError>(true) ==> refused(
                verdict,
                "User with the given username already exists."@,
            ),
            found is Err ==> refused(verdict, "Internal error during validation."@),
    {
        ensure_absent(found, "User with the given username already exists.")
    }

    /// Refuses an address that is taken.
    pub fn validate_email_exists(found: Result<bool, DbError>) -> (verdict: Result<(), String>)
        ensures
            found == Ok::<bool, DbError>(false) ==> verdict is Ok,
            found == Ok::<bool, DbError>(true) ==> refused(
                verdict,
                "User with the given email already exists."@,
            ),
            found is Err ==> refused(verdict, "Internal error during validation."@),
    {
        ensure_absent(found, "User with the given email already exists.")
    }
}

} // verus!
