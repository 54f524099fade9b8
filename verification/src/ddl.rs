//! The decisions of the statements that create, describe or drop metadata.
//! Each task asks the metadata service or the coordinator, and hands what
//! came back to one of these functions, which says what follows.
use vstd::prelude::*;
use vstd::string::StringExecFns;

use crate::coordinator::{AdminStatementRequest, AdminStatementType, CoordinatorError, VnodeManagerCmdType};
use crate::meta_error::MetaError;
use crate::user::opt_view;
use crate::planner::{
    CreateTenant, DescribeDatabase, DropTenantObject, DropVnode, MoveVnode, TenantObjectType,
    TenantOptions, VnodeId,
};

verus! {

pub struct CreateTenantTask {
    stmt: CreateTenant,
}

/// What creating a tenant comes to.
#[derive(Debug)]
pub enum CreateTenantStep {
    /// Nothing: the tenant exists and that was allowed.
    Nothing,
    /// Create the tenant with its options.
    Create { name: String, options: TenantOptions },
}

impl CreateTenantTask {
    pub closed spec fn stmt(&self) -> CreateTenant {
        self.stmt
    }

    pub fn new(stmt: CreateTenant) -> (r: Self)
        ensures
            r.stmt() == stmt,
    {
        CreateTenantTask { stmt }
    }

    /// Given whether the tenant exists: an existing tenant is an error
    /// unless the statement allows it, and then nothing is done; a missing
    /// one is created.
    pub fn decide(&self, tenant_exists: bool) -> (r: Result<CreateTenantStep, MetaError>)
        ensures
            tenant_exists && self.stmt().if_not_exists ==> r matches Ok(CreateTenantStep::Nothing),
            tenant_exists && !self.stmt().if_not_exists ==> (r matches Err(
                MetaError::TenantAlreadyExists { tenant },
            ) && tenant@ == self.stmt().name@),
            !tenant_exists ==> (r matches Ok(CreateTenantStep::Create { name, options }) && name@
                == self.stmt().name@ && opt_view(options.comment) == opt_view(
                self.stmt().options.comment,
            )),
    {
        if tenant_exists {
            if self.stmt.if_not_exists {
                Ok(CreateTenantStep::Nothing)
            } else {
                Err(MetaError::TenantAlreadyExists { tenant: self.stmt.name.clone() })
            }
        } else {
            let options = TenantOptions {
                comment: match &self.stmt.options.comment {
                    Some(c) => Some(c.clone()),
                    None => None,
                },
            };
            Ok(CreateTenantStep::Create { name: self.stmt.name.clone(), options })
        }
    }
}

pub struct DescribeDatabaseTask {
    stmt: DescribeDatabase,
}

impl DescribeDatabaseTask {
    pub closed spec fn stmt(&self) -> DescribeDatabase {
        self.stmt
    }

    pub fn new(stmt: DescribeDatabase) -> (r: Self)
        ensures
            r.stmt() == stmt,
    {
        DescribeDatabaseTask { stmt }
    }

    /// The names of the columns of a description.
    pub fn columns() -> (r: Vec<&'static str>)
        ensures
            r@.len() == 5,
            r@[0]@ == "TTL"@,
            r@[1]@ == "SHARD"@,
            r@[2]@ == "VNODE_DURATION"@,
            r@[3]@ == "REPLICA"@,
            r@[4]@ == "PRECISION"@,
    {
        vec!["TTL", "SHARD", "VNODE_DURATION", "REPLICA", "PRECISION"]
    }

    /// Given whether the session's tenant and then the database were
    /// found: the first one missing is the error.
    pub fn lookup(&self, tenant: &str, tenant_found: bool, database_found: bool) -> (r: Result<(), MetaError>)
        ensures
            !tenant_found ==> (r matches Err(MetaError::TenantNotFound { tenant: t }) && t@
                == tenant@),
            tenant_found && !database_found ==> (r matches Err(
                MetaError::DatabaseNotFound { database },
            ) && database@ == self.stmt().database_name@),
            tenant_found && database_found ==> r is Ok,
    {
        if !tenant_found {
            return Err(MetaError::TenantNotFound { tenant: String::from_str(tenant) });
        }
        if !database_found {
            return Err(MetaError::DatabaseNotFound { database: self.stmt.database_name.clone() });
        }
        Ok(())
    }
}

/// Whether a statement drops database `name`.
pub open spec fn drops_database(stmt: AdminStatementType, name: Seq<char>) -> bool {
    match stmt {
        AdminStatementType::DropDB(db) => db@ == name,
        _ => false,
    }
}

pub struct DropTenantObjectTask {
    stmt: DropTenantObject,
}

impl DropTenantObjectTask {
    pub closed spec fn stmt(&self) -> DropTenantObject {
        self.stmt
    }

    pub fn new(stmt: DropTenantObject) -> (r: Self)
        ensures
            r.stmt() == stmt,
    {
        DropTenantObjectTask { stmt }
    }

    /// The tenant must be found.
    pub fn tenant_lookup(&self, tenant_found: bool) -> (r: Result<(), MetaError>)
        ensures
            tenant_found <==> r is Ok,
            r matches Err(e) ==> e matches MetaError::TenantNotFound { tenant } && tenant@
                == self.stmt().tenant_name@,
    {
        if tenant_found {
            Ok(())
        } else {
            Err(MetaError::TenantNotFound { tenant: self.stmt.tenant_name.clone() })
        }
    }

    /// Dropping a database is first carried out on every node.
    pub fn admin_request(&self) -> (r: Option<AdminStatementRequest>)
        ensures
            self.stmt().obj_type == TenantObjectType::Role ==> r is None,
            self.stmt().obj_type == TenantObjectType::Database ==> (r matches Some(req)
                && req.tenant@ == self.stmt().tenant_name@ && drops_database(req.stmt, self.stmt().name@)),
    {
        match self.stmt.obj_type {
            TenantObjectType::Role => None,
            TenantObjectType::Database => Some(
                AdminStatementRequest {
                    tenant: self.stmt.tenant_name.clone(),
                    stmt: AdminStatementType::DropDB(self.stmt.name.clone()),
                },
            ),
        }
    }

    /// Given whether the drop found the object: a missing object is an
    /// error unless the statement allows it.
    pub fn outcome(&self, success: bool) -> (r: Result<(), MetaError>)
        ensures
            (success || self.stmt().if_exist) <==> r is Ok,
            r matches Err(e) ==> match self.stmt().obj_type {
                TenantObjectType::Role => e matches MetaError::RoleNotFound { role } && role@
                    == self.stmt().name@,
                TenantObjectType::Database => e matches MetaError::DatabaseNotFound { database }
                    && database@ == self.stmt().name@,
            },
    {
        if !self.stmt.if_exist && !success {
            return match self.stmt.obj_type {
                TenantObjectType::Role => Err(MetaError::RoleNotFound { role: self.stmt.name.clone() }),
                TenantObjectType::Database => Err(
                    MetaError::DatabaseNotFound { database: self.stmt.name.clone() },
                ),
            };
        }
        Ok(())
    }
}

/// Where dropping a tenant's object stands: the tenant is looked up
/// first; a database is dropped on every node before the metadata drops
/// it, and a failure there stops the drop.
#[derive(Debug, Clone, Copy, PartialEq, Eq, Structural)]
pub enum DropPhase {
    Start,
    LookingUpTenant,
    DroppingOnNodes,
    DroppingMeta,
    Done,
}

/// What came of the last action of a drop.
pub enum DropEvent {
    Begin,
    /// Whether the tenant was found.
    TenantLookedUp(bool),
    /// How the drop went on every node.
    NodesDone(Result<(), CoordinatorError>),
    /// Whether the metadata found and dropped the object, or its error.
    MetaDropped(Result<bool, MetaError>),
}

/// Why dropping a tenant's object failed.
#[derive(Debug)]
pub enum DropError {
    Meta(MetaError),
    Coordinator(CoordinatorError),
}

/// What a drop asks for next.
pub enum DropAction {
    LookupTenant,
    /// Send this statement to every node.
    DropOnNodes(AdminStatementRequest),
    /// Drop the role of this name from the tenant's metadata.
    DropRole(String),
    /// Drop the database of this name from the tenant's metadata.
    DropDatabase(String),
    Finish(Result<(), DropError>),
    /// The event does not belong to this phase: nothing to do.
    Idle,
}

impl DropTenantObjectTask {
    /// The next phase and action of the drop.
    pub fn step(&self, phase: DropPhase, e: DropEvent) -> (r: (DropPhase, DropAction))
        ensures
            match (phase, e) {
                (DropPhase::Start, DropEvent::Begin) => r.0 == DropPhase::LookingUpTenant && r.1 is LookupTenant,
                (DropPhase::LookingUpTenant, DropEvent::TenantLookedUp(false)) => r.0 == DropPhase::Done
                    && (r.1 matches DropAction::Finish(Err(DropError::Meta(MetaError::TenantNotFound { tenant })))
                    && tenant@ == self.stmt().tenant_name@),
                (DropPhase::LookingUpTenant, DropEvent::TenantLookedUp(true)) => match self.stmt().obj_type {
                    TenantObjectType::Role => r.0 == DropPhase::DroppingMeta && (r.1 matches DropAction::DropRole(n)
                        && n@ == self.stmt().name@),
                    TenantObjectType::Database => r.0 == DropPhase::DroppingOnNodes && (
                    r.1 matches DropAction::DropOnNodes(req) && req.tenant@ == self.stmt().tenant_name@
                        && drops_database(req.stmt, self.stmt().name@)),
                },
                (DropPhase::DroppingOnNodes, DropEvent::NodesDone(Ok(()))) => r.0 == DropPhase::DroppingMeta && (
                r.1 matches DropAction::DropDatabase(n) && n@ == self.stmt().name@),
                (DropPhase::DroppingOnNodes, DropEvent::NodesDone(Err(c))) => r.0 == DropPhase::Done && (
                r.1 matches DropAction::Finish(Err(DropError::Coordinator(x))) && x == c),
                (DropPhase::DroppingMeta, DropEvent::MetaDropped(Err(m))) => r.0 == DropPhase::Done && (
                r.1 matches DropAction::Finish(Err(DropError::Meta(x))) && x == m),
                (DropPhase::DroppingMeta, DropEvent::MetaDropped(Ok(success))) => r.0 == DropPhase::Done && (
                r.1 matches DropAction::Finish(res) && ((success || self.stmt().if_exist) <==> res is Ok) && (
                res matches Err(x) ==> match self.stmt().obj_type {
                    TenantObjectType::Role => x matches DropError::Meta(MetaError::RoleNotFound { role })
                        && role@ == self.stmt().name@,
                    TenantObjectType::Database => x matches DropError::Meta(
                        MetaError::DatabaseNotFound { database },
                    ) && database@ == self.stmt().name@,
                })),
                _ => r.0 == phase && r.1 is Idle,
            },
    {
        match (phase, e) {
            (DropPhase::Start, DropEvent::Begin) => (DropPhase::LookingUpTenant, DropAction::LookupTenant),
            (DropPhase::LookingUpTenant, DropEvent::TenantLookedUp(found)) => {
                match self.tenant_lookup(found) {
                    Err(m) => (DropPhase::Done, DropAction::Finish(Err(DropError::Meta(m)))),
                    Ok(()) => match self.admin_request() {
                        Some(req) => (DropPhase::DroppingOnNodes, DropAction::DropOnNodes(req)),
                        None => (DropPhase::DroppingMeta, DropAction::DropRole(self.stmt.name.clone())),
                    },
                }
            },
            (DropPhase::DroppingOnNodes, DropEvent::NodesDone(res)) => match res {
                Ok(()) => (DropPhase::DroppingMeta, DropAction::DropDatabase(self.stmt.name.clone())),
                Err(c) => (DropPhase::Done, DropAction::Finish(Err(DropError::Coordinator(c)))),
            },
            (DropPhase::DroppingMeta, DropEvent::MetaDropped(res)) => match res {
                Err(m) => (DropPhase::Done, DropAction::Finish(Err(DropError::Meta(m)))),
                Ok(success) => match self.outcome(success) {
                    Ok(()) => (DropPhase::Done, DropAction::Finish(Ok(()))),
                    Err(m) => (DropPhase::Done, DropAction::Finish(Err(DropError::Meta(m)))),
                },
            },
            (p, _) => (p, DropAction::Idle),
        }
    }
}

pub struct DropVnodeTask {
    stmt: DropVnode,
}

impl DropVnodeTask {
    pub closed spec fn stmt(&self) -> DropVnode {
        self.stmt
    }

    pub fn new(stmt: DropVnode) -> (r: Self)
        ensures
            r.stmt() == stmt,
    {
        DropVnodeTask { stmt }
    }

    /// The vnode and the command for the coordinator.
    pub fn command(&self) -> (r: (VnodeId, VnodeManagerCmdType))
        ensures
            r == (self.stmt().vnode_id, VnodeManagerCmdType::Drop),
    {
        (self.stmt.vnode_id, VnodeManagerCmdType::Drop)
    }
}

pub struct MoveVnodeTask {
    stmt: MoveVnode,
}

impl MoveVnodeTask {
    pub closed spec fn stmt(&self) -> MoveVnode {
        self.stmt
    }

    pub fn new(stmt: MoveVnode) -> (r: Self)
        ensures
            r.stmt() == stmt,
    {
        MoveVnodeTask { stmt }
    }

    /// The vnode and the command for the coordinator.
    pub fn command(&self) -> (r: (VnodeId, VnodeManagerCmdType))
        ensures
            r == (self.stmt().vnode_id, VnodeManagerCmdType::Move(self.stmt().node_id)),
    {
        (self.stmt.vnode_id, VnodeManagerCmdType::Move(self.stmt.node_id))
    }
}

} // verus!
