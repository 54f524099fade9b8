//! How a new meta cluster is initialized: the administrator, the system
//! tenant, the administrator's membership of it, and the default database,
//! one write after another, stopping at the first that fails.
use vstd::prelude::*;
use vstd::string::StringExecFns;

use crate::planner::TenantOptions;
use crate::privilege::{Oid, SystemTenantRole, TenantRoleIdentifier};
use crate::store_config::MetaInit;
use crate::user::{opt_view, UserOptions, UserOptionsBuilder, UserOptionsView};

verus! {

/// The steps of initialization.
#[derive(Debug, Clone, Copy, PartialEq, Eq)]
pub enum InitStep {
    CreateAdmin,
    CreateSystemTenant,
    ReadAdmin,
    AddAdminToTenant(Oid),
    CreateDefaultDatabase,
}

/// What a step asks of the store.
#[derive(Debug)]
pub enum InitCommand {
    CreateUser { cluster: String, name: String, options: UserOptions, is_admin: bool },
    CreateTenant { cluster: String, name: String, options: TenantOptions },
    ReadUser { cluster: String, name: String },
    AddMemberToTenant { cluster: String, user_id: Oid, role: TenantRoleIdentifier, tenant: String },
    SetKey { key: String, value: String },
}

/// What came back from a step.
#[derive(Debug, Clone, Copy, PartialEq, Eq)]
pub enum InitEvent {
    /// A write succeeded or failed.
    Written(bool),
    /// The administrator read back: `None` when the answer could not be
    /// read, `Some(None)` when there is no such user.
    AdminRead(Option<Option<Oid>>),
}

/// The step after `step`, given what it came to; `None` ends the
/// initialization, at the end or at the first failure.
pub open spec fn init_next(step: InitStep, event: InitEvent) -> Option<InitStep> {
    match (step, event) {
        (InitStep::CreateAdmin, InitEvent::Written(true)) => Some(InitStep::CreateSystemTenant),
        (InitStep::CreateSystemTenant, InitEvent::Written(true)) => Some(InitStep::ReadAdmin),
        (InitStep::ReadAdmin, InitEvent::AdminRead(Some(Some(id)))) => Some(
            InitStep::AddAdminToTenant(id),
        ),
        (InitStep::ReadAdmin, InitEvent::AdminRead(Some(None))) => Some(
            InitStep::CreateDefaultDatabase,
        ),
        (InitStep::AddAdminToTenant(_), InitEvent::Written(true)) => Some(
            InitStep::CreateDefaultDatabase,
        ),
        _ => None,
    }
}

pub fn next_step(step: InitStep, event: InitEvent) -> (r: Option<InitStep>)
    ensures
        r == init_next(step, event),
{
    match (step, event) {
        (InitStep::CreateAdmin, InitEvent::Written(true)) => Some(InitStep::CreateSystemTenant),
        (InitStep::CreateSystemTenant, InitEvent::Written(true)) => Some(InitStep::ReadAdmin),
        (InitStep::ReadAdmin, InitEvent::AdminRead(Some(Some(id)))) => Some(
            InitStep::AddAdminToTenant(id),
        ),
        (InitStep::ReadAdmin, InitEvent::AdminRead(Some(None))) => Some(
            InitStep::CreateDefaultDatabase,
        ),
        (InitStep::AddAdminToTenant(_), InitEvent::Written(true)) => Some(
            InitStep::CreateDefaultDatabase,
        ),
        _ => None,
    }
}

/// The key of the default database.
pub open spec fn default_database_key(m: MetaInit) -> Seq<char> {
    "/"@ + m.cluster_name@ + "/tenants/"@ + m.system_tenant@ + "/dbs/"@ + m.default_database@
}

/// The stored schema of the default database: no option set.
pub open spec fn default_database_value(m: MetaInit) -> Seq<char> {
    "{\"tenant\":\""@ + m.system_tenant@ + "\",\"database\":\""@ + m.default_database@
        + "\",\"config\":{\"ttl\":null,\"shard_num\":null,\"vnode_duration\":null,\"replica\":null,\"precision\":null}}"@
}

/// The administrator's options: a password to change, and a comment.
pub open spec fn admin_options_view() -> UserOptionsView {
    UserOptionsView {
        must_change_password: Some(true),
        comment: Some("system admin"@),
        ..UserOptionsView::empty()
    }
}

impl MetaInit {
    pub fn admin_options() -> (r: UserOptions)
        ensures
            r@ == admin_options_view(),
    {
        let mut b = UserOptionsBuilder::new();
        b.must_change_password(true).comment(String::from_str("system admin"));
        match b.build() {
            Ok(o) => o,
            Err(_) => UserOptions::new(),
        }
    }

    pub fn system_tenant_options() -> (r: TenantOptions)
        ensures
            opt_view(r.comment) == Some("system tenant"@),
    {
        TenantOptions { comment: Some(String::from_str("system tenant")) }
    }

    pub fn default_database_key(&self) -> (r: String)
        ensures
            r@ == default_database_key(*self),
    {
        let mut s = String::from_str("/");
        s.append(self.cluster_name.as_str());
        s.append("/tenants/");
        s.append(self.system_tenant.as_str());
        s.append("/dbs/");
        s.append(self.default_database.as_str());
        s
    }

    pub fn default_database_value(&self) -> (r: String)
        ensures
            r@ == default_database_value(*self),
    {
        let mut s = String::from_str("{\"tenant\":\"");
        s.append(self.system_tenant.as_str());
        s.append("\",\"database\":\"");
        s.append(self.default_database.as_str());
        s.append(
            "\",\"config\":{\"ttl\":null,\"shard_num\":null,\"vnode_duration\":null,\"replica\":null,\"precision\":null}}",
        );
        s
    }

    /// What a step asks of the store.
    pub fn command(&self, step: InitStep) -> (r: InitCommand)
        ensures
            match step {
                InitStep::CreateAdmin => r matches InitCommand::CreateUser { cluster, name, options, is_admin }
                    && cluster@ == self.cluster_name@ && name@ == self.admin_user@ && options@
                    == admin_options_view() && is_admin,
                InitStep::CreateSystemTenant => r matches InitCommand::CreateTenant {
                    cluster,
                    name,
                    options,
                } && cluster@ == self.cluster_name@ && name@ == self.system_tenant@
                    && opt_view(options.comment) == Some("system tenant"@),
                InitStep::ReadAdmin => r matches InitCommand::ReadUser { cluster, name } && cluster@
                    == self.cluster_name@ && name@ == self.admin_user@,
                InitStep::AddAdminToTenant(id) => r matches InitCommand::AddMemberToTenant {
                    cluster,
                    user_id,
                    role,
                    tenant,
                } && cluster@ == self.cluster_name@ && user_id == id && role
                    == TenantRoleIdentifier::System(SystemTenantRole::Owner) && tenant@
                    == self.system_tenant@,
                InitStep::CreateDefaultDatabase => r matches InitCommand::SetKey { key, value } && key@
                    == default_database_key(*self) && value@ == default_database_value(*self),
            },
    {
        match step {
            InitStep::CreateAdmin => InitCommand::CreateUser {
                cluster: self.cluster_name.clone(),
                name: self.admin_user.clone(),
                options: Self::admin_options(),
                is_admin: true,
            },
            InitStep::CreateSystemTenant => InitCommand::CreateTenant {
                cluster: self.cluster_name.clone(),
                name: self.system_tenant.clone(),
                options: Self::system_tenant_options(),
            },
            InitStep::ReadAdmin => InitCommand::ReadUser {
                cluster: self.cluster_name.clone(),
                name: self.admin_user.clone(),
            },
            InitStep::AddAdminToTenant(id) => InitCommand::AddMemberToTenant {
                cluster: self.cluster_name.clone(),
                user_id: id,
                role: TenantRoleIdentifier::System(SystemTenantRole::Owner),
                tenant: self.system_tenant.clone(),
            },
            InitStep::CreateDefaultDatabase => InitCommand::SetKey {
                key: self.default_database_key(),
                value: self.default_database_value(),
            },
        }
    }
}

} // verus!
