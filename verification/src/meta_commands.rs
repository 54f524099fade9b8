//! What the metadata store answers to each write command, given what it
//! found under the command's keys: the checks, the refusal it sends, and
//! the values it stores.
use vstd::prelude::*;
use vstd::string::StringExecFns;

use crate::meta_store::schema_update_conflict;
use crate::privilege::{Oid, TenantRoleIdentifier};
use crate::text::{append_decimal, append_decimal_u128, decimal_chars, str_eq};
use crate::user::{UserDesc, UserOptions};

verus! {

/// The outcome codes of the metadata service's requests.
#[derive(Debug, Clone, Copy, PartialEq, Eq, Structural)]
pub enum MetaStatus {
    Success,
    Failed,
    DbExist,
    DbNotFound,
    TableExist,
    UserExist,
    UserNotFound,
    TenantExist,
    TenantNotFound,
    RoleExist,
    RoleNotFound,
}

/// An outcome code and its message.
#[derive(Debug, Clone, PartialEq, Eq)]
pub struct StatusResponse {
    pub code: MetaStatus,
    pub msg: String,
}

pub open spec fn status_is(r: StatusResponse, code: MetaStatus, msg: Seq<char>) -> bool {
    r.code == code && r.msg@ == msg
}

fn status(code: MetaStatus, msg: &str) -> (r: StatusResponse)
    ensures
        status_is(r, code, msg@),
{
    StatusResponse { code, msg: String::from_str(msg) }
}

/// Creating a database: it must not exist and its settings must be valid.
/// `None`: store it.
pub fn create_db_check(exists: bool, settings_valid: bool, db: &str) -> (r: Option<StatusResponse>)
    ensures
        exists ==> (r matches Some(s) && status_is(s, MetaStatus::DbExist, "database already exist"@)),
        !exists && !settings_valid ==> (r matches Some(s) && status_is(
            s,
            MetaStatus::Failed,
            "database "@ + db@ + " attribute invalid!"@,
        )),
        !exists && settings_valid ==> r is None,
{
    if exists {
        return Some(status(MetaStatus::DbExist, "database already exist"));
    }
    if !settings_valid {
        let mut msg = String::from_str("database ");
        msg.append(db);
        msg.append(" attribute invalid!");
        return Some(StatusResponse { code: MetaStatus::Failed, msg });
    }
    None
}

/// Altering a database: a missing one is reported, with a success code;
/// invalid settings fail. `None`: store it.
pub fn alter_db_check(exists: bool, settings_valid: bool, db: &str) -> (r: Option<StatusResponse>)
    ensures
        !exists ==> (r matches Some(s) && status_is(s, MetaStatus::Success, "db not found in meta"@)),
        exists && !settings_valid ==> (r matches Some(s) && status_is(
            s,
            MetaStatus::Failed,
            "database "@ + db@ + " attribute invalid!"@,
        )),
        exists && settings_valid ==> r is None,
{
    if !exists {
        return Some(status(MetaStatus::Success, "db not found in meta"));
    }
    create_db_check(false, settings_valid, db)
}

/// Creating a table: its database must exist and the table must not.
pub fn create_table_check(db_exists: bool, table_exists: bool) -> (r: Option<StatusResponse>)
    ensures
        !db_exists ==> (r matches Some(s) && status_is(s, MetaStatus::DbNotFound, "database not found"@)),
        db_exists && table_exists ==> (r matches Some(s) && status_is(
            s,
            MetaStatus::TableExist,
            "table already exist"@,
        )),
        db_exists && !table_exists ==> r is None,
{
    if !db_exists {
        return Some(status(MetaStatus::DbNotFound, "database not found"));
    }
    if table_exists {
        return Some(status(MetaStatus::TableExist, "table already exist"));
    }
    None
}

/// The table stored under a key, as an update reads it.
#[derive(Debug, Clone, Copy, PartialEq, Eq)]
pub enum StoredTable {
    /// A time-series table at a schema version.
    TsKv(u32),
    /// An external table.
    External,
}

/// Updating a table: a stored time-series table moves to the next schema
/// version only, the update being one too; an external table, or an
/// external update, is refused. `None`: store it.
pub fn update_table_check(stored: Option<StoredTable>, update: StoredTable) -> (r: Option<StatusResponse>)
    ensures
        match (stored, update) {
            (None, _) => r is None,
            (Some(StoredTable::TsKv(old)), StoredTable::TsKv(new)) => if old + 1 == new {
                r is None
            } else {
                r matches Some(s) && status_is(
                    s,
                    MetaStatus::Failed,
                    "update table schema conflict "@ + decimal_chars(old as nat) + "->"@
                        + decimal_chars(new as nat),
                )
            },
            _ => r matches Some(s) && status_is(
                s,
                MetaStatus::Failed,
                "not support update external table"@,
            ),
        },
{
    match (stored, update) {
        (None, _) => None,
        (Some(StoredTable::TsKv(old)), StoredTable::TsKv(new)) => match schema_update_conflict(
            old,
            new,
        ) {
            None => None,
            Some(msg) => Some(StatusResponse { code: MetaStatus::Failed, msg }),
        },
        _ => Some(status(MetaStatus::Failed, "not support update external table")),
    }
}

/// Creating a user or a tenant: the name must be free.
pub fn create_named_check(exists: bool, name: &str, taken: MetaStatus) -> (r: Option<StatusResponse>)
    ensures
        exists ==> (r matches Some(s) && status_is(s, taken, name@)),
        !exists ==> r is None,
{
    if exists {
        Some(status(taken, name))
    } else {
        None
    }
}

/// Altering a user or a tenant: it must exist.
pub fn alter_named_check(exists: bool, name: &str, missing: MetaStatus) -> (r: Option<StatusResponse>)
    ensures
        !exists ==> (r matches Some(s) && status_is(s, missing, name@)),
        exists ==> r is None,
{
    create_named_check(!exists, name, missing)
}

/// The member commands, each about a user of a tenant.
#[derive(Debug, Clone, Copy, PartialEq, Eq)]
pub enum MemberCommand {
    Add,
    Remove,
    Reassign,
}

/// A member command: adding needs the user not to be a member yet;
/// removing and reassigning need it to be one. The message is the user's
/// id.
pub fn member_check(cmd: MemberCommand, is_member: bool, user_id: Oid) -> (r: Option<StatusResponse>)
    ensures
        match cmd {
            MemberCommand::Add => if is_member {
                r matches Some(s) && status_is(s, MetaStatus::UserExist, decimal_chars(user_id as nat))
            } else {
                r is None
            },
            _ => if is_member {
                r is None
            } else {
                r matches Some(s) && status_is(
                    s,
                    MetaStatus::UserNotFound,
                    decimal_chars(user_id as nat),
                )
            },
        },
{
    let refused = match cmd {
        MemberCommand::Add => is_member,
        _ => !is_member,
    };
    if !refused {
        return None;
    }
    let mut msg = String::new();
    append_decimal_u128(&mut msg, user_id);
    proof {
        assert(msg@ =~= decimal_chars(user_id as nat));
    }
    let code = match cmd {
        MemberCommand::Add => MetaStatus::UserExist,
        _ => MetaStatus::UserNotFound,
    };
    Some(StatusResponse { code, msg })
}

/// A role command: creating needs the role to be free; granting and
/// revoking privileges need it to exist. The message names the role and
/// its tenant.
pub fn role_check(creating: bool, exists: bool, role: &str, tenant: &str) -> (r: Option<StatusResponse>)
    ensures
        creating && exists ==> (r matches Some(s) && status_is(
            s,
            MetaStatus::RoleExist,
            role@ + " of tenant "@ + tenant@,
        )),
        !creating && !exists ==> (r matches Some(s) && status_is(
            s,
            MetaStatus::RoleNotFound,
            role@ + " of tenant "@ + tenant@,
        )),
        creating != exists ==> r is None,
{
    if creating == exists {
        let mut msg = String::from_str(role);
        msg.append(" of tenant ");
        msg.append(tenant);
        let code = if creating {
            MetaStatus::RoleExist
        } else {
            MetaStatus::RoleNotFound
        };
        Some(StatusResponse { code, msg })
    } else {
        None
    }
}

/// Changing a replication set needs its bucket; the answer afterwards is
/// a success with no message.
pub fn repl_set_update_status(bucket_found: bool, bucket_id: u32) -> (r: StatusResponse)
    ensures
        !bucket_found ==> status_is(r, MetaStatus::Failed, "not found buckt: "@ + decimal_chars(bucket_id as nat)),
        bucket_found ==> status_is(r, MetaStatus::Success, Seq::empty()),
{
    if bucket_found {
        let r = StatusResponse { code: MetaStatus::Success, msg: String::new() };
        assert(r.msg@ =~= Seq::<char>::empty());
        r
    } else {
        let mut msg = String::from_str("not found buckt: ");
        append_decimal(&mut msg, bucket_id as u64);
        StatusResponse { code: MetaStatus::Failed, msg }
    }
}

/// Renaming a user or a tenant is not implemented.
pub fn rename_status() -> (r: StatusResponse)
    ensures
        status_is(r, MetaStatus::Failed, "Not implement"@),
{
    status(MetaStatus::Failed, "Not implement")
}

/// A user after its options are altered: the same id, the options merged
/// over the old ones, and the root flag set to whether the user was an
/// administrator of either kind.
pub fn altered_user(old: &UserDesc, name: String, options: UserOptions) -> (r: UserDesc)
    ensures
        r.spec_id() == old.spec_id(),
        r.spec_name() == name@,
        r.spec_options() == old.spec_options().merge(options@),
        r.spec_is_root_admin() == (old.spec_is_root_admin() || old.spec_is_granted_admin()),
{
    let merged = old.options().copied().merge(options);
    UserDesc::new(old.id(), name, merged, old.is_admin())
}

/// The name of the last user whose id, in decimal, is `id`.
pub open spec fn user_named_by_id(users: Seq<UserDesc>, id: Seq<char>) -> Option<Seq<char>>
    decreases users.len(),
{
    if users.len() == 0 {
        None
    } else if decimal_chars(users.last().spec_id() as nat) == id {
        Some(users.last().spec_name())
    } else {
        user_named_by_id(users.drop_last(), id)
    }
}

pub open spec fn role_view(r: TenantRoleIdentifier) -> TenantRoleIdentifierV {
    match r {
        TenantRoleIdentifier::System(s) => TenantRoleIdentifierV::System(s),
        TenantRoleIdentifier::Custom(n) => TenantRoleIdentifierV::Custom(n@),
    }
}

/// A role of a tenant, as a value.
pub ghost enum TenantRoleIdentifierV {
    System(crate::privilege::SystemTenantRole),
    Custom(Seq<char>),
}

/// The members of a tenant by user name: each member (a user id in
/// decimal, and its role) whose id is a user's, in order, with that
/// user's name.
pub open spec fn members_by_name(
    members: Seq<(String, TenantRoleIdentifier)>,
    users: Seq<UserDesc>,
) -> Seq<(Seq<char>, TenantRoleIdentifierV)>
    decreases members.len(),
{
    if members.len() == 0 {
        Seq::empty()
    } else {
        let rest = members_by_name(members.drop_last(), users);
        match user_named_by_id(users, members.last().0@) {
            Some(name) => rest.push((name, role_view(members.last().1))),
            None => rest,
        }
    }
}

fn copy_role(r: &TenantRoleIdentifier) -> (c: TenantRoleIdentifier)
    ensures
        role_view(c) == role_view(*r),
{
    match r {
        TenantRoleIdentifier::System(s) => TenantRoleIdentifier::System(*s),
        TenantRoleIdentifier::Custom(n) => TenantRoleIdentifier::Custom(n.clone()),
    }
}

fn find_user_name(users: &Vec<UserDesc>, id: &str) -> (r: Option<String>)
    ensures
        match user_named_by_id(users@, id@) {
            Some(n) => r matches Some(s) && s@ == n,
            None => r is None,
        },
{
    let mut i: usize = users.len();
    assert(users@.take(i as int) =~= users@);
    while i > 0
        invariant
            i <= users@.len(),
            user_named_by_id(users@, id@) == user_named_by_id(users@.take(i as int), id@),
        decreases i,
    {
        let mut text = String::new();
        append_decimal_u128(&mut text, users[i - 1].id());
        proof {
            assert(text@ =~= decimal_chars(users@[i - 1].spec_id() as nat));
            assert(users@.take(i as int).last() == users@[i - 1]);
            assert(users@.take(i as int).drop_last() =~= users@.take(i - 1));
        }
        if str_eq(text.as_str(), id) {
            return Some(String::from_str(users[i - 1].name()));
        }
        i = i - 1;
    }
    None
}

pub open spec fn named_members_view(r: Seq<(String, TenantRoleIdentifier)>) -> Seq<(Seq<char>, TenantRoleIdentifierV)> {
    r.map_values(|p: (String, TenantRoleIdentifier)| (p.0@, role_view(p.1)))
}

/// The members of a tenant by user name (see `members_by_name`).
pub fn member_names(members: &Vec<(String, TenantRoleIdentifier)>, users: &Vec<UserDesc>) -> (r: Vec<
    (String, TenantRoleIdentifier),
>)
    ensures
        named_members_view(r@) == members_by_name(members@, users@),
{
    let mut r: Vec<(String, TenantRoleIdentifier)> = Vec::new();
    let n = members.len();
    for i in 0..n
        invariant
            n == members@.len(),
            named_members_view(r@) == members_by_name(members@.take(i as int), users@),
    {
        proof {
            assert(members@.take(i as int + 1).drop_last() =~= members@.take(i as int));
            assert(members@.take(i as int + 1).last() == members@[i as int]);
        }
        match find_user_name(users, members[i].0.as_str()) {
            Some(name) => {
                let ghost before = r@;
                r.push((name, copy_role(&members[i].1)));
                assert(named_members_view(r@) =~= named_members_view(before).push(
                    (r@.last().0@, role_view(r@.last().1)),
                ));
            },
            None => {},
        }
    }
    assert(members@.take(n as int) =~= members@);
    r
}

} // verus!
