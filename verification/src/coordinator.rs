//! The coordinator's errors and its decisions on commands that move,
//! copy or drop a vnode.
use vstd::prelude::*;
use vstd::string::StringExecFns;

use crate::meta_error::{meta_error_message, MetaError};
use crate::meta_store::{ReplicationSet, VnodeInfo};
use crate::text::{append_decimal, append_signed_decimal, decimal_chars, digit_str, signed_decimal_chars};

verus! {

/// A coordinator that does nothing, for tests of the layers above it.
#[derive(Debug, Default)]
pub struct MockCoordinator {}

impl MockCoordinator {
    /// The node it stands for.
    pub fn node_id(&self) -> (r: u64)
        ensures
            r == 0,
    {
        0
    }
}

/// Errors of the coordinator. Where it wraps an error of another layer,
/// the message of that error is kept.
#[derive(Debug, Clone, PartialEq, Eq)]
pub enum CoordinatorError {
    /// An error of the storage engine: its message and its code.
    TskvError { source: String, source_code: String },
    /// An error of the metadata service: its message and its code.
    Meta { source: String, source_code: String },
    ArrowError { source: String },
    MetaRequest { msg: String },
    IOErrors { msg: String },
    InvalidSerdeMsg { err: String },
    ChannelSend { msg: String },
    ChannelRecv { msg: String },
    WriteVnode { msg: String },
    ModelsError { source: String },
    TenantNotFound { name: String },
    InvalidFlatbuffer { source: String },
    UnKnownCoordCmd { cmd: u32 },
    CoordCommandParseErr,
    UnExpectResponse,
    CommonError { msg: String },
    VnodeNotFound { id: u32 },
}

/// The code of an error within the coordinator's module; the errors that
/// wrap another layer's error have none of their own.
pub open spec fn coordinator_error_number(e: CoordinatorError) -> nat {
    match e {
        CoordinatorError::TskvError { .. } => 0,
        CoordinatorError::Meta { .. } => 0,
        CoordinatorError::ArrowError { .. } => 0,
        CoordinatorError::MetaRequest { .. } => 1,
        CoordinatorError::IOErrors { .. } => 2,
        CoordinatorError::InvalidSerdeMsg { .. } => 3,
        CoordinatorError::ChannelSend { .. } => 4,
        CoordinatorError::ChannelRecv { .. } => 5,
        CoordinatorError::WriteVnode { .. } => 6,
        CoordinatorError::ModelsError { .. } => 7,
        CoordinatorError::TenantNotFound { .. } => 9,
        CoordinatorError::InvalidFlatbuffer { .. } => 10,
        CoordinatorError::UnKnownCoordCmd { .. } => 11,
        CoordinatorError::CoordCommandParseErr => 12,
        CoordinatorError::UnExpectResponse => 13,
        CoordinatorError::CommonError { .. } => 14,
        CoordinatorError::VnodeNotFound { .. } => 15,
    }
}

/// The four decimal digits of `n < 10000`, with leading zeros.
pub open spec fn four_digits(n: nat) -> Seq<char> {
    seq![
        crate::text::digit_char(n / 1000),
        crate::text::digit_char((n / 100) % 10),
        crate::text::digit_char((n / 10) % 10),
        crate::text::digit_char(n % 10),
    ]
}

/// The module's code, `05`, then the error's number in four digits.
pub open spec fn coordinator_error_code(e: CoordinatorError) -> Seq<char> {
    seq!['0', '5'] + four_digits(coordinator_error_number(e))
}

/// The message of an error.
pub open spec fn coordinator_error_message(e: CoordinatorError) -> Seq<char> {
    match e {
        CoordinatorError::TskvError { .. } => "TskvError"@,
        CoordinatorError::Meta { .. } => "Meta"@,
        CoordinatorError::ArrowError { .. } => "ArrowError"@,
        CoordinatorError::MetaRequest { msg } => "Meta request error: "@ + msg@,
        CoordinatorError::IOErrors { msg } => "Io error: "@ + msg@,
        CoordinatorError::InvalidSerdeMsg { err } => "Invalid serde message: "@ + err@,
        CoordinatorError::ChannelSend { msg } => "Fails to send to channel: "@ + msg@,
        CoordinatorError::ChannelRecv { msg } => "Fails to recv from channel: "@ + msg@,
        CoordinatorError::WriteVnode { msg } => "Write vnode error: "@ + msg@,
        CoordinatorError::ModelsError { source } => "Error from models: "@ + source@,
        CoordinatorError::TenantNotFound { name } => "Not found tenant: "@ + name@,
        CoordinatorError::InvalidFlatbuffer { source } => "Invalid flatbuffers: "@ + source@,
        CoordinatorError::UnKnownCoordCmd { cmd } => "Unknow coordinator command: "@ + decimal_chars(
            cmd as nat,
        ),
        CoordinatorError::CoordCommandParseErr => "Coordinator command parse failed"@,
        CoordinatorError::UnExpectResponse => "Unexpect response message"@,
        CoordinatorError::CommonError { msg } => msg@,
        CoordinatorError::VnodeNotFound { id } => "Vnode not found: "@ + decimal_chars(id as nat),
    }
}

fn prefixed(prefix: &str, s: &String) -> (r: String)
    ensures
        r@ == prefix@ + s@,
{
    let mut r = String::from_str(prefix);
    r.append(s.as_str());
    r
}

impl CoordinatorError {
    /// The error's code: `05` and its number in four digits.
    pub fn code(&self) -> (r: String)
        ensures
            r@ == coordinator_error_code(*self),
    {
        let n: u32 = match self {
            CoordinatorError::TskvError { .. } => 0,
            CoordinatorError::Meta { .. } => 0,
            CoordinatorError::ArrowError { .. } => 0,
            CoordinatorError::MetaRequest { .. } => 1,
            CoordinatorError::IOErrors { .. } => 2,
            CoordinatorError::InvalidSerdeMsg { .. } => 3,
            CoordinatorError::ChannelSend { .. } => 4,
            CoordinatorError::ChannelRecv { .. } => 5,
            CoordinatorError::WriteVnode { .. } => 6,
            CoordinatorError::ModelsError { .. } => 7,
            CoordinatorError::TenantNotFound { .. } => 9,
            CoordinatorError::InvalidFlatbuffer { .. } => 10,
            CoordinatorError::UnKnownCoordCmd { .. } => 11,
            CoordinatorError::CoordCommandParseErr => 12,
            CoordinatorError::UnExpectResponse => 13,
            CoordinatorError::CommonError { .. } => 14,
            CoordinatorError::VnodeNotFound { .. } => 15,
        };
        let mut r = String::from_str("05");
        r.append(digit_str((n / 1000) as u64));
        r.append(digit_str(((n / 100) % 10) as u64));
        r.append(digit_str(((n / 10) % 10) as u64));
        r.append(digit_str((n % 10) as u64));
        proof {
            reveal_strlit("05");
        }
        assert(r@ =~= coordinator_error_code(*self));
        r
    }

    /// The code that identifies the error to clients: that of the wrapped
    /// error for the storage engine's and the metadata service's errors,
    /// the coordinator's own otherwise.
    pub fn error_code(&self) -> (r: String)
        ensures
            r@ == match *self {
                CoordinatorError::TskvError { source_code, .. } => source_code@,
                CoordinatorError::Meta { source_code, .. } => source_code@,
                _ => coordinator_error_code(*self),
            },
    {
        match self {
            CoordinatorError::TskvError { source_code, .. } => source_code.clone(),
            CoordinatorError::Meta { source_code, .. } => source_code.clone(),
            _ => self.code(),
        }
    }

    /// The message of the error.
    pub fn to_string(&self) -> (r: String)
        ensures
            r@ == coordinator_error_message(*self),
    {
        match self {
            CoordinatorError::TskvError { .. } => String::from_str("TskvError"),
            CoordinatorError::Meta { .. } => String::from_str("Meta"),
            CoordinatorError::ArrowError { .. } => String::from_str("ArrowError"),
            CoordinatorError::MetaRequest { msg } => prefixed("Meta request error: ", msg),
            CoordinatorError::IOErrors { msg } => prefixed("Io error: ", msg),
            CoordinatorError::InvalidSerdeMsg { err } => prefixed("Invalid serde message: ", err),
            CoordinatorError::ChannelSend { msg } => prefixed("Fails to send to channel: ", msg),
            CoordinatorError::ChannelRecv { msg } => prefixed("Fails to recv from channel: ", msg),
            CoordinatorError::WriteVnode { msg } => prefixed("Write vnode error: ", msg),
            CoordinatorError::ModelsError { source } => prefixed("Error from models: ", source),
            CoordinatorError::TenantNotFound { name } => prefixed("Not found tenant: ", name),
            CoordinatorError::InvalidFlatbuffer { source } => prefixed(
                "Invalid flatbuffers: ",
                source,
            ),
            CoordinatorError::UnKnownCoordCmd { cmd } => {
                let mut r = String::from_str("Unknow coordinator command: ");
                append_decimal(&mut r, *cmd as u64);
                r
            },
            CoordinatorError::CoordCommandParseErr => String::from_str(
                "Coordinator command parse failed",
            ),
            CoordinatorError::UnExpectResponse => String::from_str("Unexpect response message"),
            CoordinatorError::CommonError { msg } => msg.clone(),
            CoordinatorError::VnodeNotFound { id } => {
                let mut r = String::from_str("Vnode not found: ");
                append_decimal(&mut r, *id as u64);
                r
            },
        }
    }

    /// A metadata error met by the coordinator: a failed request, with the
    /// error's message.
    pub fn from_meta_error(e: MetaError) -> (r: CoordinatorError)
        ensures
            r matches CoordinatorError::MetaRequest { msg } && msg@ == meta_error_message(e),
    {
        CoordinatorError::MetaRequest { msg: e.to_string() }
    }
}

/// What to do with a vnode.
#[derive(Debug, Clone, Copy, PartialEq, Eq)]
pub enum VnodeManagerCmdType {
    /// Copy it to a node.
    Copy(u64),
    /// Move it to a node.
    Move(u64),
    /// Drop it where it is.
    Drop,
}

/// A statement that a data node carries out for a tenant.
#[derive(Debug, Clone, PartialEq, Eq)]
pub enum AdminStatementType {
    DropDB(String),
    CopyVnode { vnode_id: u32 },
    MoveVnode { vnode_id: u32 },
    DeleteVnode { db: String, vnode_id: u32 },
}

#[derive(Debug, Clone, PartialEq, Eq)]
pub struct AdminStatementRequest {
    pub tenant: String,
    pub stmt: AdminStatementType,
}

/// Where a vnode is: its node and its database.
#[derive(Debug, Clone, PartialEq, Eq)]
pub struct VnodeAllInfo {
    pub vnode_id: u32,
    pub node_id: u64,
    pub db_name: String,
}

/// Whether a statement deletes vnode `vnode_id` of database `db`.
pub open spec fn deletes_vnode(stmt: AdminStatementType, db: Seq<char>, vnode_id: u32) -> bool {
    match stmt {
        AdminStatementType::DeleteVnode { db: d, vnode_id: v } => d@ == db && v == vnode_id,
        _ => false,
    }
}

/// The vnode's information, where the tenant and then the vnode were found.
pub fn get_vnode_all_info(tenant: &str, vnode_id: u32, found: Option<Option<VnodeAllInfo>>) -> (r:
    Result<VnodeAllInfo, CoordinatorError>)
    ensures
        match found {
            None => r matches Err(CoordinatorError::TenantNotFound { name }) && name@ == tenant@,
            Some(None) => r == Err::<VnodeAllInfo, CoordinatorError>(
                CoordinatorError::VnodeNotFound { id: vnode_id },
            ),
            Some(Some(info)) => r == Ok::<VnodeAllInfo, CoordinatorError>(info),
        },
{
    match found {
        Some(Some(info)) => Ok(info),
        Some(None) => Err(CoordinatorError::VnodeNotFound { id: vnode_id }),
        None => Err(CoordinatorError::TenantNotFound { name: String::from_str(tenant) }),
    }
}

/// The statement for a vnode command and the node that must carry it out:
/// a copy or a move goes to the target node, which must not be the one that
/// holds the vnode already; a drop goes to the node that holds it.
pub fn vnode_manager_request(
    tenant: &str,
    vnode_id: u32,
    cmd_type: VnodeManagerCmdType,
    all_info: &VnodeAllInfo,
) -> (r: Result<(AdminStatementRequest, u64), CoordinatorError>)
    ensures
        match cmd_type {
            VnodeManagerCmdType::Copy(node_id) => if all_info.node_id == node_id {
                r matches Err(CoordinatorError::CommonError { msg }) && msg@ == "Vnode: "@
                    + decimal_chars(all_info.vnode_id as nat) + " Already in "@ + decimal_chars(
                    node_id as nat,
                )
            } else {
                r matches Ok((req, n)) && n == node_id && req.tenant@ == tenant@ && req.stmt
                    == AdminStatementType::CopyVnode { vnode_id }
            },
            VnodeManagerCmdType::Move(node_id) => if all_info.node_id == node_id {
                r matches Err(CoordinatorError::CommonError { msg }) && msg@ == "move vnode: "@
                    + decimal_chars(all_info.vnode_id as nat) + " already in "@ + decimal_chars(
                    node_id as nat,
                )
            } else {
                r matches Ok((req, n)) && n == node_id && req.tenant@ == tenant@ && req.stmt
                    == AdminStatementType::MoveVnode { vnode_id }
            },
            VnodeManagerCmdType::Drop => r matches Ok((req, n)) && n == all_info.node_id
                && req.tenant@ == tenant@ && deletes_vnode(req.stmt, all_info.db_name@, vnode_id),
        },
{
    match cmd_type {
        VnodeManagerCmdType::Copy(node_id) => {
            if all_info.node_id == node_id {
                let mut msg = String::from_str("Vnode: ");
                append_decimal(&mut msg, all_info.vnode_id as u64);
                msg.append(" Already in ");
                append_decimal(&mut msg, node_id);
                return Err(CoordinatorError::CommonError { msg });
            }
            Ok(
                (
                    AdminStatementRequest {
                        tenant: String::from_str(tenant),
                        stmt: AdminStatementType::CopyVnode { vnode_id },
                    },
                    node_id,
                ),
            )
        },
        VnodeManagerCmdType::Move(node_id) => {
            if all_info.node_id == node_id {
                let mut msg = String::from_str("move vnode: ");
                append_decimal(&mut msg, all_info.vnode_id as u64);
                msg.append(" already in ");
                append_decimal(&mut msg, node_id);
                return Err(CoordinatorError::CommonError { msg });
            }
            Ok(
                (
                    AdminStatementRequest {
                        tenant: String::from_str(tenant),
                        stmt: AdminStatementType::MoveVnode { vnode_id },
                    },
                    node_id,
                ),
            )
        },
        VnodeManagerCmdType::Drop => Ok(
            (
                AdminStatementRequest {
                    tenant: String::from_str(tenant),
                    stmt: AdminStatementType::DeleteVnode {
                        db: all_info.db_name.clone(),
                        vnode_id,
                    },
                },
                all_info.node_id,
            ),
        ),
    }
}

/// The vnodes of the replication sets, set after set.
pub open spec fn vnodes_in_order(sets: Seq<ReplicationSet>) -> Seq<VnodeInfo>
    decreases sets.len(),
{
    if sets.len() == 0 {
        Seq::empty()
    } else {
        vnodes_in_order(sets.drop_last()) + sets.last().vnodes@
    }
}

/// The requests that delete an expired bucket's vnodes, each with the node
/// that holds the vnode, in the order of the sets and their vnodes.
pub fn expired_bucket_requests(tenant: &str, db: &str, shard_group: &Vec<ReplicationSet>) -> (r: Vec<
    (AdminStatementRequest, u64),
>)
    ensures
        r@.len() == vnodes_in_order(shard_group@).len(),
        forall|i: int|
            0 <= i < r@.len() ==> (#[trigger] r@[i]).1 == vnodes_in_order(shard_group@)[i].node_id
                && r@[i].0.tenant@ == tenant@ && deletes_vnode(
                r@[i].0.stmt,
                db@,
                vnodes_in_order(shard_group@)[i].id,
            ),
{
    let mut r: Vec<(AdminStatementRequest, u64)> = Vec::new();
    let n = shard_group.len();
    for i in 0..n
        invariant
            n == shard_group@.len(),
            r@.len() == vnodes_in_order(shard_group@.take(i as int)).len(),
            forall|k: int|
                0 <= k < r@.len() ==> (#[trigger] r@[k]).1 == vnodes_in_order(
                    shard_group@.take(i as int),
                )[k].node_id && r@[k].0.tenant@ == tenant@ && deletes_vnode(
                    r@[k].0.stmt,
                    db@,
                    vnodes_in_order(shard_group@.take(i as int))[k].id,
                ),
    {
        let ghost prefix = vnodes_in_order(shard_group@.take(i as int));
        let vnodes = &shard_group[i].vnodes;
        let m = vnodes.len();
        for j in 0..m
            invariant
                m == vnodes@.len(),
                r@.len() == prefix.len() + j,
                forall|k: int|
                    0 <= k < r@.len() ==> (#[trigger] r@[k]).1 == (prefix + vnodes@)[k].node_id
                        && r@[k].0.tenant@ == tenant@ && deletes_vnode(
                        r@[k].0.stmt,
                        db@,
                        (prefix + vnodes@)[k].id,
                    ),
        {
            let v = &vnodes[j];
            r.push(
                (
                    AdminStatementRequest {
                        tenant: String::from_str(tenant),
                        stmt: AdminStatementType::DeleteVnode {
                            db: String::from_str(db),
                            vnode_id: v.id,
                        },
                    },
                    v.node_id,
                ),
            );
        }
        proof {
            assert(shard_group@.take(i as int + 1).drop_last() =~= shard_group@.take(i as int));
            assert(shard_group@.take(i as int + 1).last() == shard_group@[i as int]);
        }
    }
    proof {
        assert(shard_group@.take(n as int) =~= shard_group@);
    }
    r
}

/// A reply of the metadata service to a client's request: a negative code
/// is a failure, reported as `<what> err: <code> <message>`.
pub fn check_meta_reply(what: &str, err_code: i32, err_msg: &str) -> (r: Result<(), MetaError>)
    ensures
        err_code >= 0 <==> r is Ok,
        r matches Err(e) ==> e matches MetaError::CommonError { msg } && msg@ == what@ + " err: "@
            + signed_decimal_chars(err_code as int) + " "@ + err_msg@,
{
    if err_code >= 0 {
        return Ok(());
    }
    let mut msg = String::from_str(what);
    msg.append(" err: ");
    append_signed_decimal(&mut msg, err_code as i64);
    msg.append(" ");
    msg.append(err_msg);
    Err(MetaError::CommonError { msg })
}

/// A client keeps the metadata a reply carries only when it is newer than
/// its own.
pub fn takes_reply_data(local_version: u64, reply_version: u64) -> (r: bool)
    ensures
        r == (reply_version > local_version),
{
    reply_version > local_version
}

/// Every error code of the coordinator starts with its module's code `05`.
pub proof fn lemma_codes_in_module(e: CoordinatorError)
    ensures
        coordinator_error_code(e).len() == 6,
        coordinator_error_code(e).take(2) == seq!['0', '5'],
{
    assert(coordinator_error_code(e).take(2) =~= seq!['0', '5']);
}

} // verus!
