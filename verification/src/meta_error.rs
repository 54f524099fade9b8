//! Errors of the metadata service and the messages they print.
use vstd::prelude::*;
use vstd::string::StringExecFns;

use crate::text::{append_decimal, decimal_chars};

verus! {

/// Errors of the metadata service. Where the service wraps an error of the
/// storage or network layer, its message is kept.
#[derive(Debug, Clone, PartialEq, Eq)]
pub enum MetaError {
    MemberAlreadyExists { member_name: String, tenant_name: String },
    MemberNotFound { member_name: String, tenant_name: String },
    PrivilegeAlreadyExists { name: String },
    PrivilegeNotFound { name: String },
    RoleAlreadyExists { role: String },
    RoleNotFound { role: String },
    UserAlreadyExists { user: String },
    UserNotFound { user: String },
    TenantAlreadyExists { tenant: String },
    TenantNotFound { tenant: String },
    NotFoundField,
    IndexStroage { msg: String },
    NotFoundDb { db: String },
    NotFoundNode { id: u64 },
    MetaClientErr { msg: String },
    CommonError { msg: String },
    DatabaseNotFound { database: String },
    DatabaseAlreadyExists { database: String },
    TableNotFound { table: String },
    TableAlreadyExists { table_name: String },
    Raft { source: String },
    SledConflict { source: String },
    RaftConnect { source: String },
    Limit { action: String, name: String, max: String },
}

/// How `{:?}` writes a string: quoted, with its special characters escaped.
pub uninterp spec fn debug_text(s: Seq<char>) -> Seq<char>;

/// `format!("{:?}", s)` for a string: the text that the `Debug` impl of
/// `str` writes. The contract only names it.
#[verifier::external_body]
fn debug_quoted(s: &str) -> (r: String)
    ensures
        r@ == debug_text(s@),
{
    format!("{:?}", s)
}

/// The message of an error.
pub open spec fn meta_error_message(e: MetaError) -> Seq<char> {
    match e {
        MetaError::MemberAlreadyExists { member_name, tenant_name } => "The member "@ + member_name@
            + " of tenant "@ + tenant_name@ + " already exists"@,
        MetaError::MemberNotFound { member_name, tenant_name } => "The member "@ + member_name@
            + " of tenant "@ + tenant_name@ + " not found"@,
        MetaError::PrivilegeAlreadyExists { name } => "The privilege "@ + name@ + " already exists"@,
        MetaError::PrivilegeNotFound { name } => "The privilege "@ + name@ + " not found"@,
        MetaError::RoleAlreadyExists { role } => "The role "@ + role@ + " already exists"@,
        MetaError::RoleNotFound { role } => "The role "@ + role@ + " not found"@,
        MetaError::UserAlreadyExists { user } => "The user "@ + user@ + " already exists"@,
        MetaError::UserNotFound { user } => "The user "@ + user@ + " not found"@,
        MetaError::TenantAlreadyExists { tenant } => "The tenant "@ + tenant@ + " already exists"@,
        MetaError::TenantNotFound { tenant } => "The tenant "@ + tenant@ + " not found"@,
        MetaError::NotFoundField => "Not Found Field"@,
        MetaError::IndexStroage { msg } => "index storage error: "@ + msg@,
        MetaError::NotFoundDb { db } => "Not Found DB: "@ + db@,
        MetaError::NotFoundNode { id } => "Not Found Data Node: "@ + decimal_chars(id as nat),
        MetaError::MetaClientErr { msg } => "Request meta cluster error: "@ + msg@,
        MetaError::CommonError { msg } => "Error: "@ + msg@,
        MetaError::DatabaseNotFound { database } => "Database not found: "@ + debug_text(database@),
        MetaError::DatabaseAlreadyExists { database } => "Database "@ + debug_text(database@)
            + " already exists"@,
        MetaError::TableNotFound { table } => "Table not found: "@ + debug_text(table@),
        MetaError::TableAlreadyExists { table_name } => "Table "@ + table_name@ + " already exists."@,
        MetaError::Raft { source } => "module raft error reason: "@ + source@,
        MetaError::SledConflict { source } => "module sled error reason: "@ + source@,
        MetaError::RaftConnect { source } => "module raft network error reason: "@ + source@,
        MetaError::Limit { action, name, max } => action@ + " fail: "@ + name@
            + " reached limit, the maximum is "@ + max@,
    }
}

fn concat2(a: &str, b: &str) -> (r: String)
    ensures
        r@ == a@ + b@,
{
    let mut s = String::from_str(a);
    s.append(b);
    s
}

fn concat3(a: &str, b: &str, c: &str) -> (r: String)
    ensures
        r@ == a@ + b@ + c@,
{
    let mut s = String::from_str(a);
    s.append(b);
    s.append(c);
    s
}

fn concat5(a: &str, b: &str, c: &str, d: &str, e: &str) -> (r: String)
    ensures
        r@ == a@ + b@ + c@ + d@ + e@,
{
    let mut s = concat3(a, b, c);
    s.append(d);
    s.append(e);
    s
}

impl MetaError {
    /// The message of the error.
    pub fn to_string(&self) -> (r: String)
        ensures
            r@ == meta_error_message(*self),
    {
        match self {
            MetaError::MemberAlreadyExists { member_name, tenant_name } => concat5(
                "The member ",
                member_name.as_str(),
                " of tenant ",
                tenant_name.as_str(),
                " already exists",
            ),
            MetaError::MemberNotFound { member_name, tenant_name } => concat5(
                "The member ",
                member_name.as_str(),
                " of tenant ",
                tenant_name.as_str(),
                " not found",
            ),
            MetaError::PrivilegeAlreadyExists { name } => concat3(
                "The privilege ",
                name.as_str(),
                " already exists",
            ),
            MetaError::PrivilegeNotFound { name } => concat3(
                "The privilege ",
                name.as_str(),
                " not found",
            ),
            MetaError::RoleAlreadyExists { role } => concat3(
                "The role ",
                role.as_str(),
                " already exists",
            ),
            MetaError::RoleNotFound { role } => concat3("The role ", role.as_str(), " not found"),
            MetaError::UserAlreadyExists { user } => concat3(
                "The user ",
                user.as_str(),
                " already exists",
            ),
            MetaError::UserNotFound { user } => concat3("The user ", user.as_str(), " not found"),
            MetaError::TenantAlreadyExists { tenant } => concat3(
                "The tenant ",
                tenant.as_str(),
                " already exists",
            ),
            MetaError::TenantNotFound { tenant } => concat3(
                "The tenant ",
                tenant.as_str(),
                " not found",
            ),
            MetaError::NotFoundField => String::from_str("Not Found Field"),
            MetaError::IndexStroage { msg } => concat2("index storage error: ", msg.as_str()),
            MetaError::NotFoundDb { db } => concat2("Not Found DB: ", db.as_str()),
            MetaError::NotFoundNode { id } => {
                let mut s = String::from_str("Not Found Data Node: ");
                append_decimal(&mut s, *id);
                s
            },
            MetaError::MetaClientErr { msg } => concat2("Request meta cluster error: ", msg.as_str()),
            MetaError::CommonError { msg } => concat2("Error: ", msg.as_str()),
            MetaError::DatabaseNotFound { database } => {
                let q = debug_quoted(database.as_str());
                concat2("Database not found: ", q.as_str())
            },
            MetaError::DatabaseAlreadyExists { database } => {
                let q = debug_quoted(database.as_str());
                concat3("Database ", q.as_str(), " already exists")
            },
            MetaError::TableNotFound { table } => {
                let q = debug_quoted(table.as_str());
                concat2("Table not found: ", q.as_str())
            },
            MetaError::TableAlreadyExists { table_name } => concat3(
                "Table ",
                table_name.as_str(),
                " already exists.",
            ),
            MetaError::Raft { source } => concat2("module raft error reason: ", source.as_str()),
            MetaError::SledConflict { source } => concat2("module sled error reason: ", source.as_str()),
            MetaError::RaftConnect { source } => concat2("module raft network error reason: ", source.as_str()),
            MetaError::Limit { action, name, max } => concat5(
                action.as_str(),
                " fail: ",
                name.as_str(),
                " reached limit, the maximum is ",
                max.as_str(),
            ),
        }
    }
}

} // verus!
