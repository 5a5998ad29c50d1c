//! Membership planning: which junction rows to insert and which to delete
//! when roles or permissions are assigned to a user or synchronised with a
//! requested list. The caller reads the rows, asks for a plan, and carries
//! the plan out in one transaction.

use vstd::prelude::*;
use crate::authz::allowed;
use crate::authz::AuthService;
use crate::error::AppError;
use crate::identity::UserIdentity;
use crate::text::same_text;
use crate::text::texts;

verus! {

/// A role as stored. Names are unique among roles.
#[derive(Debug, Clone, PartialEq, Eq)]
pub struct Role {
    pub id: i32,
    pub name: String,
}

/// A permission as stored. Names and code names are unique among
/// permissions.
#[derive(Debug, Clone, PartialEq, Eq)]
pub struct Permission {
    pub id: i32,
    pub name: String,
    pub code_name: String,
}

/// A stored row that a user can be a member of, read by its identifier and
/// by the key under which requests name it.
pub trait Member {
    /// The identifier of the row.
    spec fn member_id(&self) -> i32;

    /// The key under which a request names the row.
    spec fn member_key(&self) -> Seq<char>;

    fn id(&self) -> (id: i32)
        ensures
            id == self.member_id(),
    ;

    fn key(&self) -> (key: &str)
        ensures
            key@ == self.member_key(),
    ;
}

/// A role is requested by its name.
impl Member for Role {
    open spec fn member_id(&self) -> i32 {
        self.id
    }

    open spec fn member_key(&self) -> Seq<char> {
        self.name@
    }

    fn id(&self) -> (id: i32) {
        self.id
    }

    fn key(&self) -> (key: &str) {
        self.name.as_str()
    }
}

/// A permission is requested by its code name.
impl Member for Permission {
    open spec fn member_id(&self) -> i32 {
        self.id
    }

    open spec fn member_key(&self) -> Seq<char> {
        self.code_name@
    }

    fn id(&self) -> (id: i32) {
        self.id
    }

    fn key(&self) -> (key: &str) {
        self.code_name.as_str()
    }
}

/// Whether `name` is among the requested names.
pub open spec fn requested_has(requested: Seq<String>, name: Seq<char>) -> bool {
    exists|i: int| 0 <= i < requested.len() && #[trigger] requested[i]@ == name
}

/// Whether some row is keyed by `key`.
pub open spec fn rows_have<T: Member>(rows: Seq<T>, key: Seq<char>) -> bool {
    exists|i: int| 0 <= i < rows.len() && #[trigger] rows[i].member_key() == key
}

/// Whether a catalogue row is to be inserted for the user: it is requested
/// and the user holds no row of that key.
pub open spec fn to_insert<T: Member>(requested: Seq<String>, held: Seq<T>, row: T) -> bool {
    requested_has(requested, row.member_key()) && !rows_have(held, row.member_key())
}

/// Whether a held row is to be deleted: the catalogue has no requested row
/// of that key.
pub open spec fn to_delete<T: Member>(requested: Seq<String>, catalogue: Seq<T>, row: T) -> bool {
    !(requested_has(requested, row.member_key()) && rows_have(catalogue, row.member_key()))
}

/// The identifiers of the first `count` catalogue rows that are to be
/// inserted, in catalogue order.
pub open spec fn insert_ids<T: Member>(
    requested: Seq<String>,
    catalogue: Seq<T>,
    held: Seq<T>,
    count: int,
) -> Seq<i32>
    decreases count,
{
    if count <= 0 || count > catalogue.len() {
        Seq::empty()
    } else {
        let rest = insert_ids(requested, catalogue, held, count - 1);
        if to_insert(requested, held, catalogue[count - 1]) {
            rest.push(catalogue[count - 1].member_id())
        } else {
            rest
        }
    }
}

/// The identifiers of the first `count` held rows that are to be deleted,
/// in the order held.
pub open spec fn delete_ids<T: Member>(
    requested: Seq<String>,
    catalogue: Seq<T>,
    held: Seq<T>,
    count: int,
) -> Seq<i32>
    decreases count,
{
    if count <= 0 || count > held.len() {
        Seq::empty()
    } else {
        let rest = delete_ids(requested, catalogue, held, count - 1);
        if to_delete(requested, catalogue, held[count - 1]) {
            rest.push(held[count - 1].member_id())
        } else {
            rest
        }
    }
}

/// Whether no catalogue row is requested.
pub open spec fn nothing_valid<T: Member>(requested: Seq<String>, catalogue: Seq<T>) -> bool {
    forall|i: int|
        0 <= i < catalogue.len() ==> !requested_has(requested, #[trigger] catalogue[i].member_key())
}

/// Whether `name` is among the requested names.
pub fn is_requested(requested: &Vec<String>, name: &str) -> (found: bool)
    ensures
        found == requested_has(requested@, name@),
{
    let mut i: usize = 0;
    while i < requested.len()
        invariant
            i <= requested@.len(),
            forall|k: int| 0 <= k < i ==> requested@[k]@ != name@,
        decreases requested@.len() - i,
    {
        if same_text(requested[i].as_str(), name) {
            return true;
        }
        i = i + 1;
    }
    false
}

/// Whether some row is keyed by `key`.
pub fn has_row<T: Member>(rows: &Vec<T>, key: &str) -> (found: bool)
    ensures
        found == rows_have(rows@, key@),
{
    let mut i: usize = 0;
    while i < rows.len()
        invariant
            i <= rows@.len(),
            forall|k: int| 0 <= k < i ==> rows@[k].member_key() != key@,
        decreases rows@.len() - i,
    {
        if same_text(rows[i].key(), key) {
            return true;
        }
        i = i + 1;
    }
    false
}

/// What a synchronisation asks of the storage, in one transaction.
#[derive(Debug, Clone, PartialEq, Eq)]
pub enum SyncPlan {
    /// Nothing requested exists: delete every row of the user.
    ClearAll,
    /// The user holds exactly what was requested.
    NoChange,
    /// Insert a row for each of `insert`, delete the user's rows for each
    /// of `delete`.
    Apply { insert: Vec<i32>, delete: Vec<i32> },
}

/// The mathematical content of `SyncPlan`.
pub enum SyncPlanView {
    ClearAll,
    NoChange,
    Apply { insert: Seq<i32>, delete: Seq<i32> },
}

impl View for SyncPlan {
    type V = SyncPlanView;

    open spec fn view(&self) -> SyncPlanView {
        match *self {
            SyncPlan::ClearAll => SyncPlanView::ClearAll,
            SyncPlan::NoChange => SyncPlanView::NoChange,
            SyncPlan::Apply { insert, delete } => SyncPlanView::Apply {
                insert: insert@,
                delete: delete@,
            },
        }
    }
}

/// The plan that brings a user's rows to the requested ones.
pub open spec fn sync_plan<T: Member>(requested: Seq<String>, catalogue: Seq<T>, held: Seq<T>) -> SyncPlanView {
    let insert = insert_ids(requested, catalogue, held, catalogue.len() as int);
    let delete = delete_ids(requested, catalogue, held, held.len() as int);
    if nothing_valid(requested, catalogue) {
        SyncPlanView::ClearAll
    } else if insert.len() == 0 && delete.len() == 0 {
        SyncPlanView::NoChange
    } else {
        SyncPlanView::Apply { insert, delete }
    }
}

/// Whether any catalogue row is requested.
fn any_valid<T: Member>(requested: &Vec<String>, catalogue: &Vec<T>) -> (found: bool)
    ensures
        found == !nothing_valid(requested@, catalogue@),
{
    let mut i: usize = 0;
    while i < catalogue.len()
        invariant
            i <= catalogue@.len(),
            forall|k: int| 0 <= k < i ==> !requested_has(requested@, #[trigger] catalogue@[k].member_key()),
        decreases catalogue@.len() - i,
    {
        if is_requested(requested, catalogue[i].key()) {
            return true;
        }
        i = i + 1;
    }
    false
}

/// The identifiers of the catalogue rows to insert.
fn rows_to_insert<T: Member>(requested: &Vec<String>, catalogue: &Vec<T>, held: &Vec<T>) -> (ids: Vec<i32>)
    ensures
        ids@ == insert_ids(requested@, catalogue@, held@, catalogue@.len() as int),
{
    let mut ids: Vec<i32> = Vec::new();
    let mut i: usize = 0;
    while i < catalogue.len()
        invariant
            i <= catalogue@.len(),
            ids@ == insert_ids(requested@, catalogue@, held@, i as int),
        decreases catalogue@.len() - i,
    {
        let key = catalogue[i].key();
        if is_requested(requested, key) && !has_row(held, key) {
            ids.push(catalogue[i].id());
        }
        i = i + 1;
    }
    ids
}

/// The identifiers of the held rows to delete.
fn rows_to_delete<T: Member>(requested: &Vec<String>, catalogue: &Vec<T>, held: &Vec<T>) -> (ids: Vec<i32>)
    ensures
        ids@ == delete_ids(requested@, catalogue@, held@, held@.len() as int),
{
    let mut ids: Vec<i32> = Vec::new();
    let mut i: usize = 0;
    while i < held.len()
        invariant
            i <= held@.len(),
            ids@ == delete_ids(requested@, catalogue@, held@, i as int),
        decreases held@.len() - i,
    {
        let key = held[i].key();
        if !(is_requested(requested, key) && has_row(catalogue, key)) {
            ids.push(held[i].id());
        }
        i = i + 1;
    }
    ids
}

/// Plans the synchronisation of a user's rows with the requested keys.
/// `catalogue` holds the stored rows that the request may name, `held` the
/// rows the user is a member of.
pub fn plan_sync<T: Member>(requested: &Vec<String>, catalogue: &Vec<T>, held: &Vec<T>) -> (plan: SyncPlan)
    ensures
        plan@ == sync_plan(requested@, catalogue@, held@),
{
    if !any_valid(requested, catalogue) {
        return SyncPlan::ClearAll;
    }
    let insert = rows_to_insert(requested, catalogue, held);
    let delete = rows_to_delete(requested, catalogue, held);
    if insert.len() == 0 && delete.len() == 0 {
        SyncPlan::NoChange
    } else {
        SyncPlan::Apply { insert, delete }
    }
}

/// Whether `planned` is what a caller with these permissions is owed for
/// a synchronisation: a refusal without the permission `wanted`, else the
/// plan.
pub open spec fn sync_outcome<T: Member>(
    planned: Result<SyncPlan, AppError>,
    caller: UserIdentity,
    caller_permissions: Seq<String>,
    wanted: Seq<char>,
    requested: Seq<String>,
    catalogue: Seq<T>,
    held: Seq<T>,
) -> bool {
    if allowed(caller.is_superadmin, caller_permissions, wanted) {
        planned is Ok && planned->Ok_0@ == sync_plan(requested, catalogue, held)
    } else {
        planned == Err::<SyncPlan, AppError>(AppError::Unauthorized)
    }
}

/// Plans the synchronisation of a user's roles with the requested names,
/// for a caller who holds the permissions named. A caller without the
/// permission `sync_roles` is refused and gets no plan.
pub fn sync_roles(
    caller: &UserIdentity,
    caller_permissions: &Vec<String>,
    requested: &Vec<String>,
    catalogue: &Vec<Role>,
    held: &Vec<Role>,
) -> (planned: Result<SyncPlan, AppError>)
    ensures
        sync_outcome(
            planned,
            *caller,
            caller_permissions@,
            "sync_roles"@,
            requested@,
            catalogue@,
            held@,
        ),
{
    match AuthService::has_permission(caller, caller_permissions, "sync_roles") {
        Err(error) => Err(error),
        Ok(()) => Ok(plan_sync(requested, catalogue, held)),
    }
}

/// Plans the synchronisation of a user's permissions with the requested
/// code names, for a caller who holds the permissions named. A caller
/// without the permission `sync_permissions` is refused and gets no plan.
pub fn sync_permissions(
    caller: &UserIdentity,
    caller_permissions: &Vec<String>,
    requested: &Vec<String>,
    catalogue: &Vec<Permission>,
    held: &Vec<Permission>,
) -> (planned: Result<SyncPlan, AppError>)
    ensures
        sync_outcome(
            planned,
            *caller,
            caller_permissions@,
            "sync_permissions"@,
            requested@,
            catalogue@,
            held@,
        ),
{
    match AuthService::has_permission(caller, caller_permissions, "sync_permissions") {
        Err(error) => Err(error),
        Ok(()) => Ok(plan_sync(requested, catalogue, held)),
    }
}

/// The identifiers among the rows.
pub open spec fn id_set<T: Member>(rows: Seq<T>) -> Set<i32> {
    Set::new(|id: i32| exists|i: int| 0 <= i < rows.len() && #[trigger] rows[i].member_id() == id)
}

/// The identifiers of the catalogue rows that are requested: what the user
/// is to hold once the synchronisation is through.
pub open spec fn wanted_set<T: Member>(requested: Seq<String>, catalogue: Seq<T>) -> Set<i32> {
    Set::new(
        |id: i32|
            exists|i: int|
                0 <= i < catalogue.len() && #[trigger] catalogue[i].member_id() == id
                    && requested_has(requested, catalogue[i].member_key()),
    )
}

/// The identifiers that a user holds after `plan` was carried out on the
/// identifiers held `before`.
pub open spec fn after_plan(plan: SyncPlanView, before: Set<i32>) -> Set<i32> {
    match plan {
        SyncPlanView::ClearAll => Set::empty(),
        SyncPlanView::NoChange => before,
        SyncPlanView::Apply { insert, delete } => before.difference(delete.to_set()).union(
            insert.to_set(),
        ),
    }
}

/// What the storage guarantees of the rows: in the catalogue a key belongs
/// to one identifier and an identifier to one key, and every row a user
/// holds is a row of the catalogue.
pub open spec fn consistent<T: Member>(catalogue: Seq<T>, held: Seq<T>) -> bool {
    &&& forall|i: int, j: int|
        0 <= i < catalogue.len() && 0 <= j < catalogue.len() ==> ((
        #[trigger] catalogue[i].member_key() == #[trigger] catalogue[j].member_key())
            <==> catalogue[i].member_id() == catalogue[j].member_id())
    &&& forall|h: int|
        0 <= h < held.len() ==> exists|c: int|
            0 <= c < catalogue.len() && #[trigger] catalogue[c].member_id()
                == #[trigger] held[h].member_id() && catalogue[c].member_key()
                == held[h].member_key()
}

/// An identifier is planned for insertion exactly where a catalogue row
/// with it is to be inserted.
proof fn lemma_insert_ids<T: Member>(
    requested: Seq<String>,
    catalogue: Seq<T>,
    held: Seq<T>,
    count: int,
    id: i32,
)
    requires
        0 <= count <= catalogue.len(),
    ensures
        insert_ids(requested, catalogue, held, count).contains(id) <==> exists|i: int|
            0 <= i < count && #[trigger] catalogue[i].member_id() == id && to_insert(
                requested,
                held,
                catalogue[i],
            ),
    decreases count,
{
    if count > 0 {
        lemma_insert_ids(requested, catalogue, held, count - 1, id);
        let rest = insert_ids(requested, catalogue, held, count - 1);
        let all = insert_ids(requested, catalogue, held, count);
        let row = catalogue[count - 1];
        if to_insert(requested, held, row) {
            assert(all == rest.push(row.member_id()));
            assert(all.last() == row.member_id());
            assert(all.drop_last() == rest);
            if all.contains(id) {
                let k = choose|k: int| 0 <= k < all.len() && all[k] == id;
                if k < rest.len() {
                    assert(rest[k] == id);
                    assert(rest.contains(id));
                } else {
                    assert(catalogue[count - 1].member_id() == id);
                }
            }
            if rest.contains(id) {
                let k = choose|k: int| 0 <= k < rest.len() && rest[k] == id;
                assert(all[k] == id);
            }
            if row.member_id() == id {
                assert(all[all.len() - 1] == id);
            }
        }
    }
}

/// An identifier is planned for deletion exactly where a held row with it
/// is to be deleted.
proof fn lemma_delete_ids<T: Member>(
    requested: Seq<String>,
    catalogue: Seq<T>,
    held: Seq<T>,
    count: int,
    id: i32,
)
    requires
        0 <= count <= held.len(),
    ensures
        delete_ids(requested, catalogue, held, count).contains(id) <==> exists|i: int|
            0 <= i < count && #[trigger] held[i].member_id() == id && to_delete(
                requested,
                catalogue,
                held[i],
            ),
    decreases count,
{
    if count > 0 {
        lemma_delete_ids(requested, catalogue, held, count - 1, id);
        let rest = delete_ids(requested, catalogue, held, count - 1);
        let all = delete_ids(requested, catalogue, held, count);
        let row = held[count - 1];
        if to_delete(requested, catalogue, row) {
            assert(all == rest.push(row.member_id()));
            if all.contains(id) {
                let k = choose|k: int| 0 <= k < all.len() && all[k] == id;
                if k < rest.len() {
                    assert(rest[k] == id);
                    assert(rest.contains(id));
                } else {
                    assert(held[count - 1].member_id() == id);
                }
            }
            if rest.contains(id) {
                let k = choose|k: int| 0 <= k < rest.len() && rest[k] == id;
                assert(all[k] == id);
            }
            if row.member_id() == id {
                assert(all[all.len() - 1] == id);
            }
        }
    }
}

/// Carrying out the plan leaves the user with exactly the requested rows
/// of the catalogue, whatever was held before.
pub proof fn lemma_sync_reaches_requested<T: Member>(
    requested: Seq<String>,
    catalogue: Seq<T>,
    held: Seq<T>,
)
    requires
        consistent(catalogue, held),
    ensures
        after_plan(sync_plan(requested, catalogue, held), id_set(held)) == wanted_set(
            requested,
            catalogue,
        ),
{
    let insert = insert_ids(requested, catalogue, held, catalogue.len() as int);
    let delete = delete_ids(requested, catalogue, held, held.len() as int);
    let after = after_plan(sync_plan(requested, catalogue, held), id_set(held));
    let wanted = wanted_set(requested, catalogue);
    assert forall|id: i32| after.contains(id) <==> wanted.contains(id) by {
        lemma_insert_ids(requested, catalogue, held, catalogue.len() as int, id);
        lemma_delete_ids(requested, catalogue, held, held.len() as int, id);
        if nothing_valid(requested, catalogue) {
        } else {
            // Both directions go through the row of the catalogue that a
            // held row stands for.
            if wanted.contains(id) {
                let c = choose|c: int|
                    0 <= c < catalogue.len() && #[trigger] catalogue[c].member_id() == id
                        && requested_has(requested, catalogue[c].member_key());
                if rows_have(held, catalogue[c].member_key()) {
                    let h = choose|h: int|
                        0 <= h < held.len() && #[trigger] held[h].member_key()
                            == catalogue[c].member_key();
                    let c2 = choose|c2: int|
                        0 <= c2 < catalogue.len() && #[trigger] catalogue[c2].member_id()
                            == #[trigger] held[h].member_id() && catalogue[c2].member_key()
                            == held[h].member_key();
                    assert(catalogue[c2].member_id() == catalogue[c].member_id());
                    assert(held[h].member_id() == id);
                    assert(id_set(held).contains(id));
                    assert(!delete.contains(id)) by {
                        if delete.contains(id) {
                            let d = choose|d: int|
                                0 <= d < held.len() && #[trigger] held[d].member_id() == id
                                    && to_delete(requested, catalogue, held[d]);
                            let c3 = choose|c3: int|
                                0 <= c3 < catalogue.len() && #[trigger] catalogue[c3].member_id()
                                    == #[trigger] held[d].member_id()
                                    && catalogue[c3].member_key() == held[d].member_key();
                            assert(catalogue[c3].member_key() == catalogue[c].member_key());
                            assert(rows_have(catalogue, held[d].member_key()));
                        }
                    }
                } else {
                    assert(to_insert(requested, held, catalogue[c]));
                    assert(insert.contains(id));
                }
                assert(after.contains(id));
            }
            if after.contains(id) {
                if insert.contains(id) {
                    let c = choose|c: int|
                        0 <= c < catalogue.len() && #[trigger] catalogue[c].member_id() == id
                            && to_insert(requested, held, catalogue[c]);
                    assert(wanted.contains(id));
                } else {
                    assert(id_set(held).contains(id));
                    assert(!delete.contains(id));
                    let h = choose|h: int| 0 <= h < held.len() && #[trigger] held[h].member_id() == id;
                    assert(!to_delete(requested, catalogue, held[h]));
                    let c = choose|c: int|
                        0 <= c < catalogue.len() && #[trigger] catalogue[c].member_id()
                            == #[trigger] held[h].member_id() && catalogue[c].member_key()
                            == held[h].member_key();
                    assert(wanted.contains(id));
                }
            }
        }
    }
    assert(after =~= wanted);
}

/// A plan, of a synchronisation or of an assignment, touches nothing it
/// need not: it inserts only rows the user lacks and is to hold, and
/// deletes only rows the user holds and is not to hold. So carrying it out
/// never stores a membership twice.
pub proof fn lemma_plan_is_minimal<T: Member>(
    requested: Seq<String>,
    catalogue: Seq<T>,
    held: Seq<T>,
    id: i32,
)
    requires
        consistent(catalogue, held),
    ensures
        insert_ids(requested, catalogue, held, catalogue.len() as int).contains(id) ==> !id_set(
            held,
        ).contains(id) && wanted_set(requested, catalogue).contains(id),
        delete_ids(requested, catalogue, held, held.len() as int).contains(id) ==> id_set(
            held,
        ).contains(id) && !wanted_set(requested, catalogue).contains(id),
{
    lemma_insert_ids(requested, catalogue, held, catalogue.len() as int, id);
    lemma_delete_ids(requested, catalogue, held, held.len() as int, id);
    if insert_ids(requested, catalogue, held, catalogue.len() as int).contains(id) {
        let c = choose|c: int|
            0 <= c < catalogue.len() && #[trigger] catalogue[c].member_id() == id && to_insert(
                requested,
                held,
                catalogue[c],
            );
        if id_set(held).contains(id) {
            let h = choose|h: int| 0 <= h < held.len() && #[trigger] held[h].member_id() == id;
            let c2 = choose|c2: int|
                0 <= c2 < catalogue.len() && #[trigger] catalogue[c2].member_id()
                    == #[trigger] held[h].member_id() && catalogue[c2].member_key()
                    == held[h].member_key();
            assert(catalogue[c2].member_key() == catalogue[c].member_key());
            assert(rows_have(held, catalogue[c].member_key()));
        }
        assert(wanted_set(requested, catalogue).contains(id));
    }
    if delete_ids(requested, catalogue, held, held.len() as int).contains(id) {
        let h = choose|h: int|
            0 <= h < held.len() && #[trigger] held[h].member_id() == id && to_delete(
                requested,
                catalogue,
                held[h],
            );
        assert(id_set(held).contains(id));
        if wanted_set(requested, catalogue).contains(id) {
            let c = choose|c: int|
                0 <= c < catalogue.len() && #[trigger] catalogue[c].member_id() == id
                    && requested_has(requested, catalogue[c].member_key());
            let c2 = choose|c2: int|
                0 <= c2 < catalogue.len() && #[trigger] catalogue[c2].member_id()
                    == #[trigger] held[h].member_id() && catalogue[c2].member_key()
                    == held[h].member_key();
            assert(catalogue[c2].member_key() == catalogue[c].member_key());
            assert(rows_have(catalogue, held[h].member_key()));
        }
    }
}

/// What an assignment asks of the storage.
#[derive(Debug, Clone, PartialEq, Eq)]
pub enum AssignPlan {
    /// The user holds everything that was requested.
    AlreadyAssigned,
    /// `names` are the requested keys the user lacks; insert a row for each
    /// of `ids`, the stored rows among them.
    Insert { names: Vec<String>, ids: Vec<i32> },
}

/// Whether `name` is among the first `count` requested names.
pub open spec fn requested_before(requested: Seq<String>, count: int, name: Seq<char>) -> bool {
    exists|i: int| 0 <= i < count && i < requested.len() && #[trigger] requested[i]@ == name
}

/// The requested role names the user lacks, each once, in the order of
/// their first request, among the first `count` requested.
pub open spec fn lacking_roles(requested: Seq<String>, held: Seq<Role>, count: int) -> Seq<Seq<char>>
    decreases count,
{
    if count <= 0 || count > requested.len() {
        Seq::empty()
    } else {
        let rest = lacking_roles(requested, held, count - 1);
        let name = requested[count - 1]@;
        if !rows_have(held, name) && !requested_before(requested, count - 1, name) {
            rest.push(name)
        } else {
            rest
        }
    }
}

/// The requested permission codes the user lacks, in the order requested,
/// repeats kept, among the first `count` requested.
pub open spec fn lacking_permissions(requested: Seq<String>, held: Seq<Permission>, count: int) -> Seq<
    Seq<char>,
>
    decreases count,
{
    if count <= 0 || count > requested.len() {
        Seq::empty()
    } else {
        let rest = lacking_permissions(requested, held, count - 1);
        let code = requested[count - 1]@;
        if !rows_have(held, code) {
            rest.push(code)
        } else {
            rest
        }
    }
}

/// Whether an executable outcome is the assignment of these names and
/// identifiers, or the finding that nothing is lacking.
pub open spec fn assigns(got: Result<AssignPlan, AppError>, names: Seq<Seq<char>>, ids: Seq<i32>) -> bool {
    if names.len() == 0 {
        got == Ok::<AssignPlan, AppError>(AssignPlan::AlreadyAssigned)
    } else {
        got matches Ok(AssignPlan::Insert { names: got_names, ids: got_ids }) && texts(got_names@)
            == names && got_ids@ == ids
    }
}

/// Whether an executable outcome is the plain failure with this message.
pub open spec fn fails_with(got: Result<AssignPlan, AppError>, message: Seq<char>) -> bool {
    got matches Err(AppError::GenericError(text)) && text@ == message
}

/// Whether `name` is among the first `count` requested names.
fn is_requested_before(requested: &Vec<String>, count: usize, name: &str) -> (found: bool)
    requires
        count <= requested@.len(),
    ensures
        found == requested_before(requested@, count as int, name@),
{
    let mut i: usize = 0;
    while i < count
        invariant
            i <= count <= requested@.len(),
            forall|k: int| 0 <= k < i ==> requested@[k]@ != name@,
        decreases count - i,
    {
        if same_text(requested[i].as_str(), name) {
            return true;
        }
        i = i + 1;
    }
    false
}

/// Whether `planned` is what a caller with these permissions is owed for
/// an assignment: a refusal without the permission `wanted`; the failure
/// `empty` for an empty request; else the finding that nothing is lacking,
/// or the names lacking with the identifiers to insert.
pub open spec fn assign_outcome(
    planned: Result<AssignPlan, AppError>,
    caller: UserIdentity,
    caller_permissions: Seq<String>,
    wanted: Seq<char>,
    requested: Seq<String>,
    empty: Seq<char>,
    names: Seq<Seq<char>>,
    ids: Seq<i32>,
) -> bool {
    if !allowed(caller.is_superadmin, caller_permissions, wanted) {
        planned == Err::<AssignPlan, AppError>(AppError::Unauthorized)
    } else if requested.len() == 0 {
        fails_with(planned, empty)
    } else {
        assigns(planned, names, ids)
    }
}

/// Plans the assignment of the requested roles to a user who holds `held`,
/// for a caller who holds the permissions named. A caller without the
/// permission `assign_roles` is refused. An empty request is refused. A
/// name the user already holds, or one requested twice, is planned once at
/// most, so no membership is stored twice.
pub fn assign_roles(
    caller: &UserIdentity,
    caller_permissions: &Vec<String>,
    requested: &Vec<String>,
    catalogue: &Vec<Role>,
    held: &Vec<Role>,
) -> (planned: Result<AssignPlan, AppError>)
    ensures
        assign_outcome(
            planned,
            *caller,
            caller_permissions@,
            "assign_roles"@,
            requested@,
            "Empty roles"@,
            lacking_roles(requested@, held@, requested@.len() as int),
            insert_ids(requested@, catalogue@, held@, catalogue@.len() as int),
        ),
{
    match AuthService::has_permission(caller, caller_permissions, "assign_roles") {
        Err(error) => {
            return Err(error);
        },
        Ok(()) => {},
    }
    if requested.len() == 0 {
        return Err(AppError::GenericError("Empty roles".to_owned()));
    }
    let mut names: Vec<String> = Vec::new();
    let mut i: usize = 0;
    while i < requested.len()
        invariant
            i <= requested@.len(),
            texts(names@) == lacking_roles(requested@, held@, i as int),
        decreases requested@.len() - i,
    {
        let name = requested[i].as_str();
        if !has_row(held, name) && !is_requested_before(requested, i, name) {
            let ghost before = names@;
            names.push(name.to_owned());
            proof {
                assert(texts(names@) =~= texts(before).push(name@));
            }
        }
        i = i + 1;
    }
    if names.len() == 0 {
        return Ok(AssignPlan::AlreadyAssigned);
    }
    let ids = rows_to_insert(requested, catalogue, held);
    Ok(AssignPlan::Insert { names, ids })
}

/// Plans the assignment of the requested permission codes to a user who
/// holds `held`, for a caller who holds the permissions named. A caller
/// without the permission `assign_permissions` is refused. An empty request
/// is refused. A code the user already holds is not planned, so no
/// membership is stored twice.
pub fn assign_permissions(
    caller: &UserIdentity,
    caller_permissions: &Vec<String>,
    requested: &Vec<String>,
    catalogue: &Vec<Permission>,
    held: &Vec<Permission>,
) -> (planned: Result<AssignPlan, AppError>)
    ensures
        assign_outcome(
            planned,
            *caller,
            caller_permissions@,
            "assign_permissions"@,
            requested@,
            "Empty permission."@,
            lacking_permissions(requested@, held@, requested@.len() as int),
            insert_ids(requested@, catalogue@, held@, catalogue@.len() as int),
        ),
{
    match AuthService::has_permission(caller, caller_permissions, "assign_permissions") {
        Err(error) => {
            return Err(error);
        },
        Ok(()) => {},
    }
    if requested.len() == 0 {
        return Err(AppError::GenericError("Empty permission.".to_owned()));
    }
    let mut names: Vec<String> = Vec::new();
    let mut i: usize = 0;
    while i < requested.len()
        invariant
            i <= requested@.len(),
            texts(names@) == lacking_permissions(requested@, held@, i as int),
        decreases requested@.len() - i,
    {
        let code = requested[i].as_str();
        if !has_row(held, code) {
            let ghost before = names@;
            names.push(code.to_owned());
            proof {
                assert(texts(names@) =~= texts(before).push(code@));
            }
        }
        i = i + 1;
    }
    if names.len() == 0 {
        return Ok(AssignPlan::AlreadyAssigned);
    }
    let ids = rows_to_insert(requested, catalogue, held);
    Ok(AssignPlan::Insert { names, ids })
}

} // verus!
