//! Resource tasks (dropping a tenant, a database, a table, altering a
//! table...) that the coordinator runs in the background, and the rules by
//! which they are scheduled, retried and accepted.
use vstd::prelude::*;
use vstd::string::StringExecFns;

use crate::meta_store::ReplicationSet;
use crate::schema::{TableColumn, TskvTableSchema};

verus! {

/// Where a resource task stands.
#[derive(Debug, Clone, Copy, PartialEq, Eq, Structural)]
pub enum ResourceStatus {
    Schedule,
    Executing,
    Successed,
    Failed,
    Cancel,
    Fatal,
}

/// A resource task, as the metadata service stores it.
#[derive(Debug, Clone)]
pub struct ResourceInfo {
    /// The path of the resource, e.g. tenant, database, table.
    pub names: Vec<String>,
    pub status: ResourceStatus,
    /// When a scheduled task is due, in nanoseconds.
    pub time: i64,
    pub try_count: u64,
    pub comment: String,
}

/// The path of names joined by `/`.
pub open spec fn joined(names: Seq<Seq<char>>) -> Seq<char>
    decreases names.len(),
{
    if names.len() == 0 {
        Seq::empty()
    } else if names.len() == 1 {
        names[0]
    } else {
        joined(names.drop_last()) + seq!['/'] + names.last()
    }
}

pub open spec fn names_view(names: Seq<String>) -> Seq<Seq<char>> {
    names.map_values(|s: String| s@)
}

/// The key under which a task is stored.
pub open spec fn info_key(info: ResourceInfo) -> Seq<char> {
    joined(names_view(info.names@))
}

/// A task is run when it is scheduled and due, or when it failed before.
pub open spec fn is_due(status: ResourceStatus, time: int, now: int) -> bool {
    (status == ResourceStatus::Schedule && time <= now) || status == ResourceStatus::Failed
}

/// A new task may take the place of one under the same key only once that
/// one has ended: succeeded, been cancelled, or failed for good.
pub open spec fn may_replace(existing: Option<ResourceStatus>) -> bool {
    match existing {
        None => true,
        Some(s) => s == ResourceStatus::Successed || s == ResourceStatus::Cancel || s
            == ResourceStatus::Fatal,
    }
}

/// The status of the last of `infos` stored under `key`, if any: a later
/// one with the same key replaces an earlier one.
pub open spec fn stored_status(infos: Seq<ResourceInfo>, key: Seq<char>) -> Option<ResourceStatus>
    decreases infos.len(),
{
    if infos.len() == 0 {
        None
    } else if info_key(infos.last()) == key {
        Some(infos.last().status)
    } else {
        stored_status(infos.drop_last(), key)
    }
}

/// What a resource task does. The tenant comes first.
#[derive(Debug)]
pub enum ResourceOperator {
    DropTenant(String),
    DropDatabase(String, String),
    DropTable(String, String, String),
    /// Adds the column to the table; the schema is the new one.
    AddColumn(String, TskvTableSchema, TableColumn),
    /// Drops the named column; the schema is the new one.
    DropColumn(String, String, TskvTableSchema),
    /// Replaces the named column; the schema is the new one.
    AlterColumn(String, String, TskvTableSchema, TableColumn),
    /// Renames a tag column from the first name to the second.
    RenameTagName(String, String, String, TskvTableSchema),
    /// In database (second), sets tag values (key, new value or none) on
    /// the matched series, on the given replication sets.
    UpdateTagValue(String, String, Vec<(Vec<u8>, Option<Vec<u8>>)>, Vec<Vec<u8>>, Vec<ReplicationSet>),
}

/// A command that every data node carries out for a tenant.
#[derive(Debug)]
pub enum AdminCommand {
    DropDb { db: String },
    DropTab { db: String, table: String },
    AddColumn { db: String, table: String, column: TableColumn },
    DropColumn { db: String, table: String, column: String },
    AlterColumn { db: String, table: String, name: String, column: TableColumn },
    RenameColumn { db: String, table: String, old_name: String, new_name: String, dry_run: bool },
}

#[derive(Debug)]
pub struct AdminCommandRequest {
    pub tenant: String,
    pub command: AdminCommand,
}

/// What kind of work a task is.
#[derive(Debug, Clone, Copy, PartialEq, Eq)]
pub enum OperatorKind {
    DropTenant,
    DropDatabase,
    DropTable,
    AlterTable,
    UpdateTagValue,
}

pub open spec fn operator_kind(op: ResourceOperator) -> OperatorKind {
    match op {
        ResourceOperator::DropTenant(..) => OperatorKind::DropTenant,
        ResourceOperator::DropDatabase(..) => OperatorKind::DropDatabase,
        ResourceOperator::DropTable(..) => OperatorKind::DropTable,
        ResourceOperator::AddColumn(..) => OperatorKind::AlterTable,
        ResourceOperator::DropColumn(..) => OperatorKind::AlterTable,
        ResourceOperator::AlterColumn(..) => OperatorKind::AlterTable,
        ResourceOperator::RenameTagName(..) => OperatorKind::AlterTable,
        ResourceOperator::UpdateTagValue(..) => OperatorKind::UpdateTagValue,
    }
}

/// The command of a table change, as values: its kind's fields in order.
pub open spec fn alter_command_of(op: ResourceOperator) -> Option<(Seq<char>, Seq<char>, AlterCommandV)> {
    match op {
        ResourceOperator::AddColumn(_, schema, column) => Some(
            (schema.db@, schema.name@, AlterCommandV::Add(column)),
        ),
        ResourceOperator::DropColumn(_, name, schema) => Some(
            (schema.db@, schema.name@, AlterCommandV::Drop(name@)),
        ),
        ResourceOperator::AlterColumn(_, name, schema, column) => Some(
            (schema.db@, schema.name@, AlterCommandV::Alter(name@, column)),
        ),
        ResourceOperator::RenameTagName(_, old_name, new_name, schema) => Some(
            (schema.db@, schema.name@, AlterCommandV::Rename(old_name@, new_name@)),
        ),
        _ => None,
    }
}

/// A table change, as values.
pub ghost enum AlterCommandV {
    Add(TableColumn),
    Drop(Seq<char>),
    Alter(Seq<char>, TableColumn),
    Rename(Seq<char>, Seq<char>),
}

/// A command as values: database, table and the change.
pub open spec fn admin_command_view(c: AdminCommand) -> Option<(Seq<char>, Seq<char>, AlterCommandV)> {
    match c {
        AdminCommand::AddColumn { db, table, column } => Some((db@, table@, AlterCommandV::Add(column))),
        AdminCommand::DropColumn { db, table, column } => Some(
            (db@, table@, AlterCommandV::Drop(column@)),
        ),
        AdminCommand::AlterColumn { db, table, name, column } => Some(
            (db@, table@, AlterCommandV::Alter(name@, column)),
        ),
        AdminCommand::RenameColumn { db, table, old_name, new_name, dry_run } => if dry_run {
            None
        } else {
            Some((db@, table@, AlterCommandV::Rename(old_name@, new_name@)))
        },
        _ => None,
    }
}

/// The background runner of resource tasks.
#[derive(Debug, Clone)]
pub struct ResourceManager {}

impl ResourceManager {
    /// The key of a task: its names joined by `/`.
    pub fn resource_name(names: &Vec<String>) -> (r: String)
        ensures
            r@ == joined(names_view(names@)),
    {
        let mut r = String::new();
        let n = names.len();
        let mut i: usize = 0;
        while i < n
            invariant
                n == names@.len(),
                i <= n,
                r@ == joined(names_view(names@.take(i as int))),
            decreases n - i,
        {
            proof {
                assert(names_view(names@.take(i as int + 1)).drop_last() =~= names_view(
                    names@.take(i as int),
                ));
                assert(names_view(names@.take(i as int + 1)).last() == names@[i as int]@);
            }
            if i > 0 {
                proof {
                    reveal_strlit("/");
                }
                r.append("/");
            } else {
                proof {
                    assert(names_view(names@.take(0)) =~= Seq::<Seq<char>>::empty());
                    assert(r@ =~= Seq::<char>::empty());
                }
            }
            r.append(names[i].as_str());
            proof {
                if i == 0 {
                    assert(names_view(names@.take(1)) =~= seq![names@[0]@]);
                    assert(r@ =~= names@[0]@);
                }
            }
            i = i + 1;
        }
        proof {
            assert(names@.take(n as int) =~= names@);
        }
        r
    }

    /// Whether a task is to be run now.
    pub fn is_due(info: &ResourceInfo, now: i64) -> (r: bool)
        ensures
            r == is_due(info.status, info.time as int, now as int),
    {
        (info.status == ResourceStatus::Schedule && info.time <= now) || info.status
            == ResourceStatus::Failed
    }

    /// The positions of the tasks to run now, in order.
    pub fn due_tasks(infos: &Vec<ResourceInfo>, now: i64) -> (r: Vec<usize>)
        ensures
            forall|k: int| 0 <= k < r@.len() ==> #[trigger] r@[k] < infos@.len(),
            forall|k: int, l: int| 0 <= k < l < r@.len() ==> r@[k] < r@[l],
            forall|j: int|
                0 <= j < infos@.len() ==> (r@.contains(j as usize) <==> is_due(
                    #[trigger] infos@[j].status,
                    infos@[j].time as int,
                    now as int,
                )),
    {
        let mut r: Vec<usize> = Vec::new();
        let n = infos.len();
        for i in 0..n
            invariant
                n == infos@.len(),
                forall|k: int| 0 <= k < r@.len() ==> #[trigger] r@[k] < i,
                forall|k: int, l: int| 0 <= k < l < r@.len() ==> r@[k] < r@[l],
                forall|j: int|
                    0 <= j < i ==> (r@.contains(j as usize) <==> is_due(
                        #[trigger] infos@[j].status,
                        infos@[j].time as int,
                        now as int,
                    )),
        {
            let ghost before = r@;
            if Self::is_due(&infos[i], now) {
                r.push(i);
                proof {
                    assert(r@.last() == i);
                    assert forall|j: int| 0 <= j < i implies (#[trigger] r@.contains(j as usize) <==> before.contains(
                        j as usize,
                    )) by {
                        if before.contains(j as usize) {
                            let k = choose|k: int| 0 <= k < before.len() && before[k] == j as usize;
                            assert(r@[k] == j as usize);
                        }
                        if r@.contains(j as usize) {
                            let k = choose|k: int| 0 <= k < r@.len() && r@[k] == j as usize;
                            assert(k < before.len());
                            assert(before[k] == j as usize);
                        }
                    }
                    assert(r@[r@.len() - 1] == i);
                }
            } else {
                proof {
                    assert(!before.contains(i)) by {
                        if before.contains(i) {
                            let k = choose|k: int| 0 <= k < before.len() && before[k] == i;
                            assert(before[k] < i);
                        }
                    }
                }
            }
        }
        r
    }

    /// A task taken up: one more try, and executing.
    pub fn start(info: &mut ResourceInfo)
        requires
            old(info).try_count < u64::MAX,
        ensures
            final(info).try_count == old(info).try_count + 1,
            final(info).status == ResourceStatus::Executing,
            final(info).names@ == old(info).names@,
            final(info).time == old(info).time,
            final(info).comment@ == old(info).comment@,
    {
        info.try_count = info.try_count + 1;
        info.status = ResourceStatus::Executing;
    }

    /// A task with a new status and comment.
    pub fn change(info: &mut ResourceInfo, dest_status: ResourceStatus, comment: &str)
        ensures
            final(info).status == dest_status,
            final(info).comment@ == comment@,
            final(info).names@ == old(info).names@,
            final(info).time == old(info).time,
            final(info).try_count == old(info).try_count,
    {
        info.status = dest_status;
        info.comment = String::from_str(comment);
    }

    /// What a task's run comes to: success with no comment, or failure with
    /// the error's message.
    pub fn outcome(result: &Result<bool, String>) -> (r: (ResourceStatus, String))
        ensures
            match result {
                Ok(_) => r.0 == ResourceStatus::Successed && r.1@.len() == 0,
                Err(e) => r.0 == ResourceStatus::Failed && r.1@ == e@,
            },
    {
        match result {
            Ok(_) => (ResourceStatus::Successed, String::new()),
            Err(e) => (ResourceStatus::Failed, e.clone()),
        }
    }

    /// What kind of work a task is.
    pub fn operator_kind(op: &ResourceOperator) -> (r: OperatorKind)
        ensures
            r == operator_kind(*op),
    {
        match op {
            ResourceOperator::DropTenant(..) => OperatorKind::DropTenant,
            ResourceOperator::DropDatabase(..) => OperatorKind::DropDatabase,
            ResourceOperator::DropTable(..) => OperatorKind::DropTable,
            ResourceOperator::AddColumn(..) => OperatorKind::AlterTable,
            ResourceOperator::DropColumn(..) => OperatorKind::AlterTable,
            ResourceOperator::AlterColumn(..) => OperatorKind::AlterTable,
            ResourceOperator::RenameTagName(..) => OperatorKind::AlterTable,
            ResourceOperator::UpdateTagValue(..) => OperatorKind::UpdateTagValue,
        }
    }

    /// The command that drops a database on every node.
    pub fn drop_database_request(tenant: &str, db: &str) -> (r: AdminCommandRequest)
        ensures
            r.tenant@ == tenant@,
            r.command matches AdminCommand::DropDb { db: d } && d@ == db@,
    {
        AdminCommandRequest {
            tenant: String::from_str(tenant),
            command: AdminCommand::DropDb { db: String::from_str(db) },
        }
    }

    /// The command that drops a table on every node.
    pub fn drop_table_request(tenant: &str, db: &str, table: &str) -> (r: AdminCommandRequest)
        ensures
            r.tenant@ == tenant@,
            r.command matches AdminCommand::DropTab { db: d, table: t } && d@ == db@ && t@ == table@,
    {
        AdminCommandRequest {
            tenant: String::from_str(tenant),
            command: AdminCommand::DropTab { db: String::from_str(db), table: String::from_str(table) },
        }
    }

    /// The command that carries a table change to every node, in the
    /// table's database; `None` for a task that changes no table.
    pub fn alter_table_request(op: &ResourceOperator, tenant: &str) -> (r: Option<AdminCommandRequest>)
        ensures
            alter_command_of(*op) is None ==> r is None,
            alter_command_of(*op) matches Some(c) ==> (r matches Some(req) && req.tenant@ == tenant@
                && admin_command_view(req.command) == Some(c)),
    {
        let command = match op {
            ResourceOperator::AddColumn(_, schema, column) => AdminCommand::AddColumn {
                db: schema.db.clone(),
                table: schema.name.clone(),
                column: column.copied(),
            },
            ResourceOperator::DropColumn(_, name, schema) => AdminCommand::DropColumn {
                db: schema.db.clone(),
                table: schema.name.clone(),
                column: name.clone(),
            },
            ResourceOperator::AlterColumn(_, name, schema, column) => AdminCommand::AlterColumn {
                db: schema.db.clone(),
                table: schema.name.clone(),
                name: name.clone(),
                column: column.copied(),
            },
            ResourceOperator::RenameTagName(_, old_name, new_name, schema) => AdminCommand::RenameColumn {
                db: schema.db.clone(),
                table: schema.name.clone(),
                old_name: old_name.clone(),
                new_name: new_name.clone(),
                dry_run: false,
            },
            _ => {
                return None;
            },
        };
        Some(AdminCommandRequest { tenant: String::from_str(tenant), command })
    }

    /// The status of the task stored under `key` among those read back.
    pub fn stored_status(infos: &Vec<ResourceInfo>, key: &String) -> (r: Option<ResourceStatus>)
        ensures
            r == stored_status(infos@, key@),
    {
        let n = infos.len();
        let mut i: usize = n;
        assert(infos@.take(n as int) =~= infos@);
        while i > 0
            invariant
                n == infos@.len(),
                i <= n,
                stored_status(infos@, key@) == stored_status(infos@.take(i as int), key@),
            decreases i,
        {
            let name = Self::resource_name(&infos[i - 1].names);
            proof {
                assert(infos@.take(i as int).last() == infos@[i - 1]);
                assert(infos@.take(i as int).drop_last() =~= infos@.take(i - 1));
            }
            if crate::text::str_eq(name.as_str(), key.as_str()) {
                return Some(infos[i - 1].status);
            }
            i = i - 1;
        }
        proof {
            assert(infos@.take(0) =~= Seq::<ResourceInfo>::empty());
        }
        None
    }

    /// Adding a task, given the tasks stored: refused (`None`) while a task
    /// under the same key has not ended; otherwise the task to store, with
    /// one more try if it executes at once, and whether it does.
    pub fn plan_add(stored: &Vec<ResourceInfo>, info: ResourceInfo) -> (r: Option<(ResourceInfo, bool)>)
        requires
            info.status == ResourceStatus::Executing ==> info.try_count < u64::MAX,
        ensures
            !may_replace(stored_status(stored@, info_key(info))) ==> r is None,
            may_replace(stored_status(stored@, info_key(info))) ==> (r matches Some((t, run)) && run
                == (info.status == ResourceStatus::Executing) && t.names@ == info.names@
                && t.status == info.status && t.time == info.time && t.comment@ == info.comment@
                && t.try_count == (if run {
                info.try_count + 1
            } else {
                info.try_count as int
            })),
    {
        let key = Self::resource_name(&info.names);
        let existing = Self::stored_status(stored, &key);
        let allowed = match existing {
            None => true,
            Some(s) => s == ResourceStatus::Successed || s == ResourceStatus::Cancel || s
                == ResourceStatus::Fatal,
        };
        if !allowed {
            return None;
        }
        let mut info = info;
        let run = info.status == ResourceStatus::Executing;
        if run {
            info.try_count = info.try_count + 1;
        }
        Some((info, run))
    }
}

/// The task stored last under a key is the one whose status counts.
pub proof fn lemma_last_stored_wins(infos: Seq<ResourceInfo>, info: ResourceInfo)
    ensures
        stored_status(infos.push(info), info_key(info)) == Some(info.status),
{
    assert(infos.push(info).last() == info);
}

/// A task that has not ended keeps a second one under its key out.
pub proof fn lemma_live_task_refuses_another(infos: Seq<ResourceInfo>, info: ResourceInfo)
    requires
        info.status == ResourceStatus::Schedule || info.status == ResourceStatus::Executing
            || info.status == ResourceStatus::Failed,
    ensures
        !may_replace(stored_status(infos.push(info), info_key(info))),
{
    lemma_last_stored_wins(infos, info);
}

} // verus!
