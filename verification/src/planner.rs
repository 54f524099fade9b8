//! The statements of the logical plan that change or describe metadata.
use vstd::prelude::*;
use vstd::string::StringExecFns;

use crate::column::Precision;
use crate::privilege::{DatabasePrivilege, Oid, SystemTenantRole, TenantRoleIdentifier};
use crate::user::UserOptions;

verus! {

pub type VnodeId = u32;

pub type NodeId = u64;

pub type ReplicationSetId = u32;

/// The identifier of a running query.
#[derive(Debug, Clone, Copy, PartialEq, Eq, Hash)]
pub struct QueryId(pub u64);

/// A table named in full: tenant, database and table.
#[derive(Debug, Clone, PartialEq, Eq, Hash)]
pub struct ResolvedTable {
    pub tenant: String,
    pub database: String,
    pub table: String,
}

/// The options a tenant is created or altered with.
#[derive(Debug, Clone, PartialEq, Eq, Default)]
pub struct TenantOptions {
    pub comment: Option<String>,
}

/// Errors found while planning a statement.
#[derive(Debug, Clone, PartialEq, Eq)]
pub enum QueryError {
    Semantic { err: String },
}

/// An identifier as written: its text, and the quote it stands in, if any.
#[derive(Debug, Clone, PartialEq, Eq)]
pub struct Ident {
    pub value: String,
    pub quote_style: Option<char>,
}

/// A capital ASCII letter as its small letter; any other char as it is.
pub open spec fn ascii_lower_char(c: char) -> char {
    if 65 <= (c as u32) && (c as u32) <= 90 {
        ((c as u32) + 32) as char
    } else {
        c
    }
}

pub open spec fn ascii_lower(s: Seq<char>) -> Seq<char> {
    s.map_values(|c: char| ascii_lower_char(c))
}

/// `str::to_ascii_lowercase`: a copy of the text in which each ASCII
/// letter 'A' to 'Z' becomes 'a' to 'z' and every other char is kept.
#[verifier::external_body]
fn to_ascii_lowercase(s: &str) -> (r: String)
    ensures
        r@ == ascii_lower(s@),
{
    s.to_ascii_lowercase()
}

/// An identifier as the planner compares it: as written when quoted, in
/// ASCII lower case otherwise.
pub fn normalize_ident(id: &Ident) -> (r: String)
    ensures
        r@ == match id.quote_style {
            Some(_) => id.value@,
            None => ascii_lower(id.value@),
        },
{
    match id.quote_style {
        Some(_) => id.value.clone(),
        None => to_ascii_lowercase(id.value.as_str()),
    }
}

#[derive(Debug, Clone)]
pub struct ChecksumGroup {
    pub replication_set_id: ReplicationSetId,
}

#[derive(Debug, Clone)]
pub struct CompactVnode {
    pub vnode_ids: Vec<VnodeId>,
}

#[derive(Debug, Clone)]
pub struct MoveVnode {
    pub vnode_id: VnodeId,
    pub node_id: NodeId,
}

#[derive(Debug, Clone)]
pub struct CopyVnode {
    pub vnode_id: VnodeId,
    pub node_id: NodeId,
}

#[derive(Debug, Clone)]
pub struct DropVnode {
    pub vnode_id: VnodeId,
}

/// Statements about the system itself.
#[derive(Debug, Clone)]
pub enum SYSPlan {
    ShowQueries,
    KillQuery(QueryId),
}

/// Dropping an object of a database, such as a table.
#[derive(Debug, Clone)]
pub struct DropDatabaseObject {
    /// The object, e.g. `database_name.table_name`.
    pub object_name: ResolvedTable,
    pub if_exist: bool,
    pub obj_type: DatabaseObjectType,
}

#[derive(Debug, Clone, Copy, PartialEq, Eq)]
pub enum DatabaseObjectType {
    Table,
}

/// Dropping an object of a tenant: a role or a database.
#[derive(Debug, Clone)]
pub struct DropTenantObject {
    pub tenant_name: String,
    pub name: String,
    pub if_exist: bool,
    pub obj_type: TenantObjectType,
}

#[derive(Debug, Clone, Copy, PartialEq, Eq)]
pub enum TenantObjectType {
    Role,
    Database,
}

/// Dropping a user or a tenant.
#[derive(Debug, Clone, PartialEq, Eq)]
pub struct DropGlobalObject {
    pub name: String,
    pub if_exist: bool,
    pub obj_type: GlobalObjectType,
}

#[derive(Debug, Clone, Copy, PartialEq, Eq)]
pub enum GlobalObjectType {
    User,
    Tenant,
}

#[derive(Debug, Clone, Copy, PartialEq, Eq)]
pub struct CSVOptions {
    /// Whether the CSV file starts with a header.
    pub has_header: bool,
    pub delimiter: char,
}

/// The unit of a length of time in a database's options.
#[derive(Debug, Clone, Copy, PartialEq, Eq)]
pub enum DurationUnit {
    Minutes,
    Hour,
    Day,
    /// Forever.
    Inf,
}

/// A length of time in a database's options: a count of units.
#[derive(Debug, Clone, Copy, PartialEq, Eq)]
pub struct Duration {
    pub time_num: u64,
    pub unit: DurationUnit,
}

/// The options a database is created or altered with; unset ones take
/// their defaults.
#[derive(Debug, Clone, Copy, PartialEq, Eq, Default)]
pub struct DatabaseOptions {
    /// How long data is kept.
    pub ttl: Option<Duration>,
    pub shard_num: Option<u64>,
    /// How long a bucket's time range is.
    pub vnode_duration: Option<Duration>,
    pub replica: Option<u64>,
    pub precision: Option<Precision>,
}

#[derive(Debug, Clone, PartialEq, Eq)]
pub struct CreateDatabase {
    pub name: String,
    pub if_not_exists: bool,
    pub options: DatabaseOptions,
}

#[derive(Debug, Clone, PartialEq, Eq)]
pub struct AlterDatabase {
    pub database_name: String,
    pub database_options: DatabaseOptions,
}

#[derive(Debug, Clone)]
pub struct CreateTenant {
    pub name: String,
    pub if_not_exists: bool,
    pub options: TenantOptions,
}

#[derive(Debug, Clone)]
pub struct CreateUser {
    pub name: String,
    pub if_not_exists: bool,
    pub options: UserOptions,
}

#[derive(Debug, Clone)]
pub struct CreateRole {
    pub tenant_name: String,
    pub name: String,
    pub if_not_exists: bool,
    pub inherit_tenant_role: SystemTenantRole,
}

#[derive(Debug, Clone, PartialEq, Eq)]
pub struct DescribeDatabase {
    pub database_name: String,
}

#[derive(Debug, Clone, PartialEq, Eq)]
pub struct DescribeTable {
    pub table_name: ResolvedTable,
}

#[derive(Debug, Clone, PartialEq, Eq)]
pub struct ShowTables {
    pub database_name: String,
}

/// Granting or revoking privileges on databases to a role.
#[derive(Debug, Clone)]
pub struct GrantRevoke {
    pub is_grant: bool,
    /// Each privilege with the database it is on.
    pub database_privileges: Vec<(DatabasePrivilege, String)>,
    pub tenant_name: String,
    pub role_name: String,
}

#[derive(Debug, Clone)]
pub struct AlterUser {
    pub user_name: String,
    pub alter_user_action: AlterUserAction,
}

#[derive(Debug, Clone)]
pub enum AlterUserAction {
    RenameTo(String),
    SetOptions(UserOptions),
}

#[derive(Debug, Clone)]
pub struct AlterTenant {
    pub tenant_name: String,
    pub alter_tenant_action: AlterTenantAction,
}

#[derive(Debug, Clone)]
pub enum AlterTenantAction {
    AddUser(AlterTenantAddUser),
    SetUser(AlterTenantSetUser),
    RemoveUser(Oid),
    SetOptions(Box<TenantOptions>),
}

#[derive(Debug, Clone)]
pub struct AlterTenantAddUser {
    pub user_id: Oid,
    pub role: TenantRoleIdentifier,
}

#[derive(Debug, Clone)]
pub struct AlterTenantSetUser {
    pub user_id: Oid,
    pub role: TenantRoleIdentifier,
}

/// The options of a `COPY`.
pub struct CopyOptions {
    pub auto_infer_schema: bool,
}

/// The options of a `COPY` as they are given.
#[derive(Default)]
pub struct CopyOptionsBuilder {
    auto_infer_schema: Option<bool>,
}

impl CopyOptionsBuilder {
    /// The option given so far, if any.
    pub closed spec fn spec_auto_infer_schema(&self) -> Option<bool> {
        self.auto_infer_schema
    }

    pub fn new() -> (r: Self)
        ensures
            r.spec_auto_infer_schema() is None,
    {
        CopyOptionsBuilder { auto_infer_schema: None }
    }

    /// Takes the options in turn, each a normalized name and its value; the
    /// only one known is `auto_infer_schema`, and the first other name is
    /// an error.
    pub fn apply_options(self, options: Vec<(String, bool)>) -> (r: Result<Self, QueryError>)
        ensures
            match first_unknown_copy_option(options@) {
                Some(i) => r matches Err(QueryError::Semantic { err }) && err@ == "Unsupported option ["@
                    + options@[i].0@ + "]"@,
                None => r matches Ok(b) && b.spec_auto_infer_schema() == last_copy_option(
                    self.spec_auto_infer_schema(),
                    options@,
                ),
            },
    {
        let mut b = self;
        let n = options.len();
        let mut i: usize = 0;
        while i < n
            invariant
                n == options@.len(),
                i <= n,
                forall|j: int| 0 <= j < i ==> #[trigger] options@[j].0@ == "auto_infer_schema"@,
                b.spec_auto_infer_schema() == last_copy_option(
                    self.spec_auto_infer_schema(),
                    options@.take(i as int),
                ),
            decreases n - i,
        {
            let (name, value) = (&options[i].0, options[i].1);
            proof {
                assert(options@.take(i as int + 1).drop_last() =~= options@.take(i as int));
            }
            if crate::text::str_eq(name.as_str(), "auto_infer_schema") {
                b.auto_infer_schema = Some(value);
            } else {
                proof {
                    lemma_first_unknown_at(options@, i as int);
                }
                let mut err = String::new();
                err.append("Unsupported option [");
                err.append(name.as_str());
                err.append("]");
                return Err(QueryError::Semantic { err });
            }
            i = i + 1;
        }
        proof {
            assert(options@.take(n as int) =~= options@);
            lemma_no_unknown(options@);
        }
        Ok(b)
    }

    /// The options, with `auto_infer_schema` false unless it was given.
    pub fn build(self) -> (r: CopyOptions)
        ensures
            r.auto_infer_schema == (match self.spec_auto_infer_schema() {
                Some(v) => v,
                None => false,
            }),
    {
        CopyOptions {
            auto_infer_schema: match self.auto_infer_schema {
                Some(v) => v,
                None => false,
            },
        }
    }
}

/// The position of the first option that is not `auto_infer_schema`.
pub open spec fn first_unknown_copy_option(options: Seq<(String, bool)>) -> Option<int> {
    if exists|i: int| 0 <= i < options.len() && #[trigger] options[i].0@ != "auto_infer_schema"@ {
        Some(
            choose|i: int|
                0 <= i < options.len() && #[trigger] options[i].0@ != "auto_infer_schema"@ && forall|j: int|
                    0 <= j < i ==> #[trigger] options[j].0@ == "auto_infer_schema"@,
        )
    } else {
        None
    }
}

/// The value of the last option, or `current` where there is none.
pub open spec fn last_copy_option(current: Option<bool>, options: Seq<(String, bool)>) -> Option<bool> {
    if options.len() == 0 {
        current
    } else {
        Some(options.last().1)
    }
}

proof fn lemma_first_unknown_at(options: Seq<(String, bool)>, i: int)
    requires
        0 <= i < options.len(),
        options[i].0@ != "auto_infer_schema"@,
        forall|j: int| 0 <= j < i ==> #[trigger] options[j].0@ == "auto_infer_schema"@,
    ensures
        first_unknown_copy_option(options) == Some(i),
{
    assert(0 <= i < options.len() && options[i].0@ != "auto_infer_schema"@ && forall|j: int|
        0 <= j < i ==> #[trigger] options[j].0@ == "auto_infer_schema"@);
    let k = choose|k: int|
        0 <= k < options.len() && #[trigger] options[k].0@ != "auto_infer_schema"@ && forall|j: int|
            0 <= j < k ==> #[trigger] options[j].0@ == "auto_infer_schema"@;
    assert(0 <= k < options.len() && options[k].0@ != "auto_infer_schema"@ && forall|j: int|
        0 <= j < k ==> #[trigger] options[j].0@ == "auto_infer_schema"@);
    if k < i {
        assert(options[k].0@ == "auto_infer_schema"@);
    }
    if k > i {
        assert(options[i].0@ == "auto_infer_schema"@);
    }
}

proof fn lemma_no_unknown(options: Seq<(String, bool)>)
    requires
        forall|j: int| 0 <= j < options.len() ==> #[trigger] options[j].0@ == "auto_infer_schema"@,
    ensures
        first_unknown_copy_option(options) is None,
{
}

} // verus!
