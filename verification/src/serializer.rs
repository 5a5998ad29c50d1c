//! What a client is shown of the stored records: never a password digest.

use vstd::prelude::*;
use vstd::std_specs::convert::FromSpecImpl;
use crate::identity::UserIdentity;
use crate::membership::Permission;
use crate::membership::Role;

verus! {

/// The profile stored beside a user.
#[derive(Debug, Clone, PartialEq, Eq)]
pub struct UserProfile {
    pub id: i32,
    pub user_id: i32,
    pub address: Option<String>,
    pub mobile_number: Option<String>,
}

/// A user as shown to a client.
#[derive(Debug, Clone, PartialEq, Eq)]
pub struct UserSerializer {
    pub id: i32,
    pub name: String,
    pub username: String,
    pub email: String,
}

impl From<UserIdentity> for UserSerializer {
    fn from(value: UserIdentity) -> (shown: Self) {
        UserSerializer {
            id: value.id,
            name: value.name,
            username: value.username,
            email: value.email,
        }
    }
}

impl FromSpecImpl<UserIdentity> for UserSerializer {
    open spec fn obeys_from_spec() -> bool {
        true
    }

    open spec fn from_spec(value: UserIdentity) -> Self {
        UserSerializer {
            id: value.id,
            name: value.name,
            username: value.username,
            email: value.email,
        }
    }
}

/// A profile as shown to a client.
#[derive(Debug, Clone, PartialEq, Eq)]
pub struct UserProfileSerializer {
    pub id: i32,
    pub address: Option<String>,
    pub mobile_number: Option<String>,
}

impl From<UserProfile> for UserProfileSerializer {
    fn from(value: UserProfile) -> (shown: Self) {
        UserProfileSerializer {
            id: value.id,
            address: value.address,
            mobile_number: value.mobile_number,
        }
    }
}

impl FromSpecImpl<UserProfile> for UserProfileSerializer {
    open spec fn obeys_from_spec() -> bool {
        true
    }

    open spec fn from_spec(value: UserProfile) -> Self {
        UserProfileSerializer {
            id: value.id,
            address: value.address,
            mobile_number: value.mobile_number,
        }
    }
}

/// The profile as shown, where there is one.
pub open spec fn shown_profile(profile: Option<UserProfile>) -> Option<UserProfileSerializer> {
    match profile {
        Some(stored) => Some(
            UserProfileSerializer {
                id: stored.id,
                address: stored.address,
                mobile_number: stored.mobile_number,
            },
        ),
        None => None,
    }
}

/// A user with the profile beside it, as shown to a client.
#[derive(Debug, Clone, PartialEq, Eq)]
pub struct UserWithProfileSerializer {
    pub id: i32,
    pub name: String,
    pub username: String,
    pub email: String,
    pub profile: Option<UserProfileSerializer>,
}

impl From<(UserIdentity, Option<UserProfile>)> for UserWithProfileSerializer {
    fn from(value: (UserIdentity, Option<UserProfile>)) -> (shown: Self) {
        let (user, profile) = value;
        let profile_serializer = match profile {
            Some(stored) => Some(UserProfileSerializer::from(stored)),
            None => None,
        };
        UserWithProfileSerializer {
            id: user.id,
            name: user.name,
            username: user.username,
            email: user.email,
            profile: profile_serializer,
        }
    }
}

impl FromSpecImpl<(UserIdentity, Option<UserProfile>)> for UserWithProfileSerializer {
    open spec fn obeys_from_spec() -> bool {
        true
    }

    open spec fn from_spec(value: (UserIdentity, Option<UserProfile>)) -> Self {
        UserWithProfileSerializer {
            id: value.0.id,
            name: value.0.name,
            username: value.0.username,
            email: value.0.email,
            profile: shown_profile(value.1),
        }
    }
}

/// A permission as shown to a client.
#[derive(Debug, Clone, PartialEq, Eq)]
pub struct PermissionSerializer {
    pub id: i32,
    pub name: String,
    pub code_name: String,
}

impl From<Permission> for PermissionSerializer {
    fn from(value: Permission) -> (shown: Self) {
        PermissionSerializer { id: value.id, name: value.name, code_name: value.code_name }
    }
}

impl FromSpecImpl<Permission> for PermissionSerializer {
    open spec fn obeys_from_spec() -> bool {
        true
    }

    open spec fn from_spec(value: Permission) -> Self {
        PermissionSerializer { id: value.id, name: value.name, code_name: value.code_name }
    }
}

/// A role as shown to a client.
#[derive(Debug, Clone, PartialEq, Eq)]
pub struct RoleSerializer {
    pub id: i32,
    pub name: String,
}

impl From<Role> for RoleSerializer {
    fn from(value: Role) -> (shown: Self) {
        RoleSerializer { id: value.id, name: value.name }
    }
}

impl FromSpecImpl<Role> for RoleSerializer {
    open spec fn obeys_from_spec() -> bool {
        true
    }

    open spec fn from_spec(value: Role) -> Self {
        RoleSerializer { id: value.id, name: value.name }
    }
}

} // verus!
