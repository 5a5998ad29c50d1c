//! Authorisation service: whether an identity holds a named role or
//! permission. A superadmin passes without a query. For anyone else the
//! membership rows whose name contains the wanted name are counted, and
//! none is a refusal. Containment, not equality, is the rule: asking for
//! `admin` is satisfied by a role named `super-admin-team`.

use vstd::prelude::*;
use crate::error::AppError;
use crate::identity::UserIdentity;
use crate::text::contains_text;
use crate::text::text_occurs_at;
use crate::text::text_occurs_in;

verus! {

/// Whether the stored name satisfies a check for `wanted`: the characters
/// of `wanted` stand somewhere in `stored` as a contiguous run.
pub open spec fn name_matches(stored: Seq<char>, wanted: Seq<char>) -> bool {
    text_occurs_in(wanted, stored)
}

/// How many of the names satisfy a check for `wanted`.
pub open spec fn matching_rows(names: Seq<String>, wanted: Seq<char>) -> nat
    decreases names.len(),
{
    if names.len() == 0 {
        0
    } else {
        let rest = matching_rows(names.drop_last(), wanted);
        if name_matches(names.last()@, wanted) {
            rest + 1
        } else {
            rest
        }
    }
}

/// What a check asks of its caller before it can be settled.
#[derive(Debug, Clone, PartialEq, Eq)]
pub enum AccessStep {
    /// Nothing: the identity passes without a query.
    Allow,
    /// Count the roles of `user_id` whose name contains `containing`.
    CountRoles { user_id: i32, containing: String },
    /// Count the permissions of `user_id` whose name contains `containing`.
    CountPermissions { user_id: i32, containing: String },
}

/// The role and permission checks.
#[derive(Debug, Clone, Copy, PartialEq, Eq)]
pub struct AuthService;

/// How many of the names satisfy a check for `wanted`.
pub fn count_matching(names: &Vec<String>, wanted: &str) -> (count: u64)
    ensures
        count == matching_rows(names@, wanted@),
{
    let mut count: u64 = 0;
    let mut i: usize = 0;
    while i < names.len()
        invariant
            i <= names@.len(),
            count == matching_rows(names@.take(i as int), wanted@),
            count <= i,
        decreases names@.len() - i,
    {
        proof {
            assert(names@.take(i + 1).drop_last() == names@.take(i as int));
            assert(names@.take(i + 1).last() == names@[i as int]);
        }
        if contains_text(names[i].as_str(), wanted) {
            count = count + 1;
        }
        i = i + 1;
    }
    proof {
        assert(names@.take(names@.len() as int) == names@);
    }
    count
}

impl AuthService {
    /// The first step of a role check: a superadmin is allowed at once,
    /// anyone else needs the count of matching roles.
    pub fn role_check(user: &UserIdentity, role: &str) -> (step: AccessStep)
        ensures
            user.is_superadmin ==> step == AccessStep::Allow,
            !user.is_superadmin ==> (step matches AccessStep::CountRoles { user_id, containing }
                && user_id == user.id && containing@ == role@),
    {
        if user.is_superadmin {
            AccessStep::Allow
        } else {
            AccessStep::CountRoles { user_id: user.id, containing: role.to_owned() }
        }
    }

    /// The first step of a permission check: a superadmin is allowed at
    /// once, anyone else needs the count of matching permissions.
    pub fn permission_check(user: &UserIdentity, permission: &str) -> (step: AccessStep)
        ensures
            user.is_superadmin ==> step == AccessStep::Allow,
            !user.is_superadmin ==> (step matches AccessStep::CountPermissions {
                user_id,
                containing,
            } && user_id == user.id && containing@ == permission@),
    {
        if user.is_superadmin {
            AccessStep::Allow
        } else {
            AccessStep::CountPermissions { user_id: user.id, containing: permission.to_owned() }
        }
    }

    /// Settles a check from the count of matching rows: none is a refusal.
    pub fn settle(count: u64) -> (verdict: Result<(), AppError>)
        ensures
            count == 0 ==> verdict == Err::<(), AppError>(AppError::Unauthorized),
            count > 0 ==> verdict == Ok::<(), AppError>(()),
    {
        if count == 0 {
            Err(AppError::Unauthorized)
        } else {
            Ok(())
        }
    }

    /// Whether `user`, whose roles are named by `role_names`, holds a role
    /// whose name contains `role`.
    pub fn has_role(user: &UserIdentity, role_names: &Vec<String>, role: &str) -> (verdict: Result<
        (),
        AppError,
    >)
        ensures
            allowed(user.is_superadmin, role_names@, role@) ==> verdict == Ok::<(), AppError>(()),
            !allowed(user.is_superadmin, role_names@, role@) ==> verdict == Err::<(), AppError>(
                AppError::Unauthorized,
            ),
    {
        match Self::role_check(user, role) {
            AccessStep::Allow => Ok(()),
            _ => Self::settle(count_matching(role_names, role)),
        }
    }

    /// Whether `user`, whose permissions are named by `permission_names`,
    /// holds a permission whose name contains `permission`.
    pub fn has_permission(
        user: &UserIdentity,
        permission_names: &Vec<String>,
        permission: &str,
    ) -> (verdict: Result<(), AppError>)
        ensures
            allowed(user.is_superadmin, permission_names@, permission@) ==> verdict == Ok::<
                (),
                AppError,
            >(()),
            !allowed(user.is_superadmin, permission_names@, permission@) ==> verdict == Err::<
                (),
                AppError,
            >(AppError::Unauthorized),
    {
        match Self::permission_check(user, permission) {
            AccessStep::Allow => Ok(()),
            _ => Self::settle(count_matching(permission_names, permission)),
        }
    }
}

/// Whether a check passes: the superadmin flag, or at least one matching
/// membership row.
pub open spec fn allowed(is_superadmin: bool, names: Seq<String>, wanted: Seq<char>) -> bool {
    is_superadmin || matching_rows(names, wanted) > 0
}

/// A superadmin passes every check, whatever is asked for and whatever the
/// membership rows hold.
pub proof fn lemma_superadmin_passes(names: Seq<String>, wanted: Seq<char>)
    ensures
        allowed(true, names, wanted),
{
}

/// There is a matching row exactly where some name contains the wanted one.
pub proof fn lemma_rows_match_some_name(names: Seq<String>, wanted: Seq<char>)
    ensures
        matching_rows(names, wanted) > 0 <==> exists|i: int|
            0 <= i < names.len() && name_matches(#[trigger] names[i]@, wanted),
    decreases names.len(),
{
    if names.len() > 0 {
        let head = names.drop_last();
        lemma_rows_match_some_name(head, wanted);
        if matching_rows(names, wanted) > 0 {
            if name_matches(names.last()@, wanted) {
                assert(name_matches(names[names.len() - 1]@, wanted));
            } else {
                let i = choose|i: int| 0 <= i < head.len() && name_matches(#[trigger] head[i]@, wanted);
                assert(name_matches(names[i]@, wanted));
            }
        }
        if exists|i: int| 0 <= i < names.len() && name_matches(#[trigger] names[i]@, wanted) {
            let i = choose|i: int| 0 <= i < names.len() && name_matches(#[trigger] names[i]@, wanted);
            if i < names.len() - 1 {
                assert(name_matches(head[i]@, wanted));
            }
        }
    }
}

/// Containment is reflexive and reaches into longer names: a name matches
/// itself, and whatever a part of a name matches, the name matches too.
pub proof fn lemma_containment(stored: Seq<char>, part: Seq<char>, wanted: Seq<char>)
    requires
        name_matches(stored, part),
        name_matches(part, wanted),
    ensures
        name_matches(stored, stored),
        name_matches(stored, wanted),
{
    assert(stored.subrange(0, stored.len() as int) =~= stored);
    assert(text_occurs_at(stored, stored, 0));
    let a = choose|a: int| text_occurs_at(part, stored, a);
    let b = choose|b: int| text_occurs_at(wanted, part, b);
    let inner = stored.subrange(a + b, a + b + wanted.len());
    assert forall|k: int| 0 <= k < wanted.len() implies #[trigger] inner[k] == wanted[k] by {
        assert(stored.subrange(a, a + part.len())[b + k] == part[b + k]);
        assert(part.subrange(b, b + wanted.len())[k] == wanted[k]);
    }
    assert(inner =~= wanted);
    assert(text_occurs_at(wanted, stored, a + b));
}

/// A longer name is never contained in a shorter one: asking for more
/// than the stored name holds is refused.
pub proof fn lemma_longer_never_matches(stored: Seq<char>, wanted: Seq<char>)
    requires
        wanted.len() > stored.len(),
    ensures
        !name_matches(stored, wanted),
{
}

} // verus!
