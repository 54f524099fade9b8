//! Privileges and which privilege covers which.
use vstd::prelude::*;

use crate::text::str_eq;

verus! {

/// An object identifier.
pub type Oid = u128;

/// What may be done to a database.
#[derive(Debug, Clone, Copy, PartialEq, Eq, Structural, Hash)]
pub enum DatabasePrivilege {
    Read,
    Write,
    Full,
}

/// Privileges over the whole system.
#[derive(Debug, Clone, Copy, PartialEq, Eq, Structural, Hash)]
pub enum GlobalPrivilege {
    /// Everything in the system.
    System,
    /// One user, or every user.
    User(Option<Oid>),
    /// One tenant, or every tenant.
    Tenant(Option<Oid>),
}

/// Privileges over the objects of a tenant.
#[derive(Debug, Clone, PartialEq, Eq, Hash)]
pub enum TenantObjectPrivilege {
    /// System operations of the tenant, e.g. killing queries.
    System,
    /// Everything about the tenant's members.
    MemberFull,
    /// Everything about the tenant's roles.
    RoleFull,
    /// A database of the tenant by name, or every database.
    Database(DatabasePrivilege, Option<String>),
}

/// A privilege: global, or over the objects of one tenant (or of every tenant).
#[derive(Debug, Clone, PartialEq, Eq, Hash)]
pub enum Privilege {
    Global(GlobalPrivilege),
    TenantObject(TenantObjectPrivilege, Option<Oid>),
}

pub open spec fn database_covers(s: DatabasePrivilege, o: DatabasePrivilege) -> bool {
    match (s, o) {
        (DatabasePrivilege::Full, _) => true,
        (DatabasePrivilege::Write, DatabasePrivilege::Write) => true,
        (DatabasePrivilege::Write, DatabasePrivilege::Read) => true,
        (DatabasePrivilege::Read, DatabasePrivilege::Read) => true,
        _ => false,
    }
}

pub open spec fn global_covers(s: GlobalPrivilege, o: GlobalPrivilege) -> bool {
    match (s, o) {
        (GlobalPrivilege::System, _) => true,
        (GlobalPrivilege::User(None), GlobalPrivilege::User(_)) => true,
        (GlobalPrivilege::User(Some(a)), GlobalPrivilege::User(Some(b))) => a == b,
        (GlobalPrivilege::Tenant(None), GlobalPrivilege::Tenant(_)) => true,
        (GlobalPrivilege::Tenant(Some(a)), GlobalPrivilege::Tenant(Some(b))) => a == b,
        _ => false,
    }
}

pub open spec fn tenant_object_covers(s: TenantObjectPrivilege, o: TenantObjectPrivilege) -> bool {
    match (s, o) {
        (TenantObjectPrivilege::System, TenantObjectPrivilege::System) => true,
        (TenantObjectPrivilege::MemberFull, TenantObjectPrivilege::MemberFull) => true,
        (TenantObjectPrivilege::RoleFull, TenantObjectPrivilege::RoleFull) => true,
        (TenantObjectPrivilege::Database(sp, None), TenantObjectPrivilege::Database(op, _)) => database_covers(sp, op),
        (
            TenantObjectPrivilege::Database(sp, Some(sd)),
            TenantObjectPrivilege::Database(op, Some(od)),
        ) => sd@ == od@ && database_covers(sp, op),
        _ => false,
    }
}

/// Whether holding `s` grants `o`.
pub open spec fn privilege_covers(s: Privilege, o: Privilege) -> bool {
    match (s, o) {
        (Privilege::Global(a), Privilege::Global(b)) => global_covers(a, b),
        (Privilege::TenantObject(a, None), Privilege::TenantObject(b, _)) => tenant_object_covers(a, b),
        (Privilege::TenantObject(a, Some(x)), Privilege::TenantObject(b, Some(y))) => x == y
            && tenant_object_covers(a, b),
        _ => false,
    }
}

impl DatabasePrivilege {
    pub fn check_privilege(&self, other: &DatabasePrivilege) -> (r: bool)
        ensures
            r == database_covers(*self, *other),
    {
        match (self, other) {
            (DatabasePrivilege::Full, _) => true,
            (DatabasePrivilege::Write, DatabasePrivilege::Write) => true,
            (DatabasePrivilege::Write, DatabasePrivilege::Read) => true,
            (DatabasePrivilege::Read, DatabasePrivilege::Read) => true,
            _ => false,
        }
    }
}

impl GlobalPrivilege {
    pub fn check_privilege(&self, other: &GlobalPrivilege) -> (r: bool)
        ensures
            r == global_covers(*self, *other),
    {
        match (self, other) {
            (GlobalPrivilege::System, _) => true,
            (GlobalPrivilege::User(None), GlobalPrivilege::User(_)) => true,
            (GlobalPrivilege::User(Some(a)), GlobalPrivilege::User(Some(b))) => *a == *b,
            (GlobalPrivilege::Tenant(None), GlobalPrivilege::Tenant(_)) => true,
            (GlobalPrivilege::Tenant(Some(a)), GlobalPrivilege::Tenant(Some(b))) => *a == *b,
            _ => false,
        }
    }
}

impl TenantObjectPrivilege {
    pub fn check_privilege(&self, other: &TenantObjectPrivilege) -> (r: bool)
        ensures
            r == tenant_object_covers(*self, *other),
    {
        match (self, other) {
            (TenantObjectPrivilege::System, TenantObjectPrivilege::System) => true,
            (TenantObjectPrivilege::MemberFull, TenantObjectPrivilege::MemberFull) => true,
            (TenantObjectPrivilege::RoleFull, TenantObjectPrivilege::RoleFull) => true,
            (TenantObjectPrivilege::Database(sp, None), TenantObjectPrivilege::Database(op, _)) => {
                sp.check_privilege(op)
            },
            (
                TenantObjectPrivilege::Database(sp, Some(sd)),
                TenantObjectPrivilege::Database(op, Some(od)),
            ) => str_eq(sd.as_str(), od.as_str()) && sp.check_privilege(op),
            _ => false,
        }
    }
}

impl Privilege {
    /// Whether holding this privilege grants `other`.
    pub fn check_privilege(&self, other: &Privilege) -> (r: bool)
        ensures
            r == privilege_covers(*self, *other),
    {
        match (self, other) {
            (Privilege::Global(a), Privilege::Global(b)) => a.check_privilege(b),
            (Privilege::TenantObject(a, None), Privilege::TenantObject(b, _)) => a.check_privilege(b),
            (Privilege::TenantObject(a, Some(x)), Privilege::TenantObject(b, Some(y))) => *x == *y
                && a.check_privilege(b),
            _ => false,
        }
    }

    /// An equal copy.
    pub fn copied(&self) -> (r: Privilege)
        ensures
            r == *self,
    {
        match self {
            Privilege::Global(g) => Privilege::Global(*g),
            Privilege::TenantObject(t, tenant) => {
                let t2 = match t {
                    TenantObjectPrivilege::System => TenantObjectPrivilege::System,
                    TenantObjectPrivilege::MemberFull => TenantObjectPrivilege::MemberFull,
                    TenantObjectPrivilege::RoleFull => TenantObjectPrivilege::RoleFull,
                    TenantObjectPrivilege::Database(p, db) => TenantObjectPrivilege::Database(
                        *p,
                        match db {
                            Some(d) => Some(d.clone()),
                            None => None,
                        },
                    ),
                };
                Privilege::TenantObject(t2, *tenant)
            },
        }
    }
}

/// The privileges of the database administrator role: everything, for every user and tenant.
pub open spec fn dba_privileges() -> Seq<Privilege> {
    seq![
        Privilege::Global(GlobalPrivilege::System),
        Privilege::Global(GlobalPrivilege::User(None)),
        Privilege::Global(GlobalPrivilege::Tenant(None)),
        Privilege::TenantObject(TenantObjectPrivilege::System, None),
        Privilege::TenantObject(TenantObjectPrivilege::MemberFull, None),
        Privilege::TenantObject(TenantObjectPrivilege::RoleFull, None),
        Privilege::TenantObject(TenantObjectPrivilege::Database(DatabasePrivilege::Full, None), None),
    ]
}

/// The roles a user can hold.
#[derive(Debug, Clone, Copy, PartialEq, Eq, Structural, Hash)]
pub enum UserRole {
    Dba,
    Public,
}

impl UserRole {
    pub open spec fn spec_privileges(&self) -> Seq<Privilege> {
        match self {
            UserRole::Dba => dba_privileges(),
            UserRole::Public => Seq::empty(),
        }
    }

    /// The privileges the role grants.
    pub fn to_privileges(&self) -> (r: Vec<Privilege>)
        ensures
            r@ == self.spec_privileges(),
    {
        let mut v: Vec<Privilege> = Vec::new();
        match self {
            UserRole::Dba => {
                v.push(Privilege::Global(GlobalPrivilege::System));
                v.push(Privilege::Global(GlobalPrivilege::User(None)));
                v.push(Privilege::Global(GlobalPrivilege::Tenant(None)));
                v.push(Privilege::TenantObject(TenantObjectPrivilege::System, None));
                v.push(Privilege::TenantObject(TenantObjectPrivilege::MemberFull, None));
                v.push(Privilege::TenantObject(TenantObjectPrivilege::RoleFull, None));
                v.push(
                    Privilege::TenantObject(
                        TenantObjectPrivilege::Database(DatabasePrivilege::Full, None),
                        None,
                    ),
                );
                assert(v@ =~= dba_privileges());
            },
            UserRole::Public => {
                assert(v@ =~= Seq::<Privilege>::empty());
            },
        }
        v
    }
}

/// The built-in roles of a tenant.
#[derive(Debug, Clone, Copy, PartialEq, Eq, Structural, Hash)]
pub enum SystemTenantRole {
    Owner,
    Member,
}

/// A role of a tenant: built in, or one of its own by name.
#[derive(Debug, Clone, PartialEq, Eq, Hash)]
pub enum TenantRoleIdentifier {
    System(SystemTenantRole),
    Custom(String),
}

/// The privilege to write to database `database` of tenant `tenant_id`.
pub fn construct_write_db_privilege(tenant_id: Oid, database: &str) -> (r: Privilege)
    ensures
        r matches Privilege::TenantObject(
            TenantObjectPrivilege::Database(DatabasePrivilege::Write, Some(db)),
            Some(t),
        ) && db@ == database@ && t == tenant_id,
{
    Privilege::TenantObject(
        TenantObjectPrivilege::Database(DatabasePrivilege::Write, Some(database.to_owned())),
        Some(tenant_id),
    )
}

/// The rank of a database privilege: read below write below full.
pub open spec fn database_rank(p: DatabasePrivilege) -> int {
    match p {
        DatabasePrivilege::Read => 1,
        DatabasePrivilege::Write => 2,
        DatabasePrivilege::Full => 3,
    }
}

/// Database privileges are ordered full, write, read, and one grants
/// exactly those not above it: writing includes reading, full includes
/// both, reading includes nothing else.
pub proof fn lemma_database_privileges_are_ordered(s: DatabasePrivilege, o: DatabasePrivilege)
    ensures
        database_covers(s, o) <==> database_rank(o) <= database_rank(s),
        database_covers(DatabasePrivilege::Write, DatabasePrivilege::Read),
        database_covers(s, DatabasePrivilege::Write) ==> database_covers(s, DatabasePrivilege::Read),
{
}

/// Every privilege grants itself.
pub proof fn lemma_privilege_covers_reflexive(p: Privilege)
    ensures
        privilege_covers(p, p),
{
}

/// Granting composes: what a privilege grants, together with what that
/// grants in turn, the first grants.
pub proof fn lemma_privilege_covers_transitive(a: Privilege, b: Privilege, c: Privilege)
    requires
        privilege_covers(a, b),
        privilege_covers(b, c),
    ensures
        privilege_covers(a, c),
{
}

} // verus!
