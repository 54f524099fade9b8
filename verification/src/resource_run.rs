//! One run of the background resource tasks, as a step function: the
//! runner takes the tasks' lock unless another node holds it, reads the
//! tasks, starts and runs each one that is due, passes again while any
//! write or run failed, and lets the lock go at the end. The caller carries
//! out each action and hands back what came of it.
use vstd::prelude::*;

use crate::coordinator::{coordinator_error_message, CoordinatorError};
use crate::meta_error::{meta_error_message, MetaError};
use crate::resource::{
    admin_command_view, alter_command_of, is_due, names_view, AdminCommandRequest, ResourceInfo,
    ResourceManager, ResourceOperator, ResourceStatus,
};

verus! {

/// A task as values: names, status, due time, tries and comment.
pub type InfoV = (Seq<Seq<char>>, ResourceStatus, i64, u64, Seq<char>);

pub open spec fn info_view(i: ResourceInfo) -> InfoV {
    (names_view(i.names@), i.status, i.time, i.try_count, i.comment@)
}

pub open spec fn infos_view(s: Seq<ResourceInfo>) -> Seq<InfoV> {
    s.map_values(|i: ResourceInfo| info_view(i))
}

/// A task taken up: one more try, and executing.
pub open spec fn started(i: InfoV) -> InfoV {
    (i.0, ResourceStatus::Executing, i.2, (i.3 + 1) as u64, i.4)
}

/// The tasks that are due at `now`, in order, each taken up.
pub open spec fn due_started(infos: Seq<InfoV>, now: i64) -> Seq<InfoV>
    decreases infos.len(),
{
    if infos.len() == 0 {
        Seq::empty()
    } else {
        due_started(infos.drop_last(), now) + if is_due(infos.last().1, infos.last().2 as int, now as int) {
            seq![started(infos.last())]
        } else {
            Seq::empty()
        }
    }
}

/// Where a run stands.
#[derive(Debug, Clone, Copy, PartialEq, Eq, Structural)]
pub enum RunPhase {
    Start,
    ReadingMark,
    Locking,
    ReadingTasks,
    WritingTask,
    RunningTask,
    Unlocking,
    Done,
}

/// A run: its phase, the due tasks of the pass (taken up), the one at
/// hand, and whether a write or a run failed in this run (from then on,
/// passes repeat).
pub struct RunState {
    phase: RunPhase,
    tasks: Vec<ResourceInfo>,
    next: usize,
    need_loop: bool,
}

pub type RunStateV = (RunPhase, Seq<InfoV>, int, bool);

/// What came of the last action.
pub enum RunEvent {
    /// The run begins.
    Begin,
    /// The tasks' lock was read: whether a node holds it.
    MarkRead { locked: bool },
    /// A write succeeded.
    Written,
    /// A read or a write failed, with its message.
    Failed(String),
    /// The tasks were read, at time `now`.
    TasksRead { infos: Vec<ResourceInfo>, now: i64 },
    /// A task ran, or failed with a message.
    TaskRun(Result<bool, String>),
}

pub ghost enum RunEventV {
    Begin,
    MarkRead(bool),
    Written,
    Failed(Seq<char>),
    TasksRead(Seq<InfoV>, i64),
    TaskRun(Result<bool, Seq<char>>),
}

/// What the runner asks for next.
#[derive(Debug)]
pub enum RunAction {
    /// Read the tasks' lock.
    ReadMark,
    /// Write the tasks' lock, with this node's id: taken or let go.
    WriteMark(bool),
    /// Read every task.
    ReadTasks,
    /// Store the task.
    WriteTask(ResourceInfo),
    /// Carry the task out (recording its outcome).
    RunTask(ResourceInfo),
    /// The run is over: whether it ran the tasks, or the error.
    Finish(Result<bool, String>),
    /// The event does not belong to this phase: nothing to do.
    Idle,
}

pub ghost enum RunActionV {
    ReadMark,
    WriteMark(bool),
    ReadTasks,
    WriteTask(InfoV),
    RunTask(InfoV),
    Finish(Result<bool, Seq<char>>),
    Idle,
}

pub open spec fn result_view(r: Result<bool, String>) -> Result<bool, Seq<char>> {
    match r {
        Ok(b) => Ok(b),
        Err(e) => Err(e@),
    }
}

pub open spec fn event_view(e: RunEvent) -> RunEventV {
    match e {
        RunEvent::Begin => RunEventV::Begin,
        RunEvent::MarkRead { locked } => RunEventV::MarkRead(locked),
        RunEvent::Written => RunEventV::Written,
        RunEvent::Failed(m) => RunEventV::Failed(m@),
        RunEvent::TasksRead { infos, now } => RunEventV::TasksRead(infos_view(infos@), now),
        RunEvent::TaskRun(r) => RunEventV::TaskRun(result_view(r)),
    }
}

pub open spec fn action_view(a: RunAction) -> RunActionV {
    match a {
        RunAction::ReadMark => RunActionV::ReadMark,
        RunAction::WriteMark(b) => RunActionV::WriteMark(b),
        RunAction::ReadTasks => RunActionV::ReadTasks,
        RunAction::WriteTask(i) => RunActionV::WriteTask(info_view(i)),
        RunAction::RunTask(i) => RunActionV::RunTask(info_view(i)),
        RunAction::Finish(r) => RunActionV::Finish(result_view(r)),
        RunAction::Idle => RunActionV::Idle,
    }
}

/// The end of a pass: another pass if something failed, else let the lock go.
pub open spec fn end_of_pass(need_loop: bool) -> (RunStateV, RunActionV) {
    if need_loop {
        ((RunPhase::ReadingTasks, Seq::empty(), 0, true), RunActionV::ReadTasks)
    } else {
        ((RunPhase::Unlocking, Seq::empty(), 0, false), RunActionV::WriteMark(false))
    }
}

/// On to task `j` of the pass, or to the end of the pass.
pub open spec fn advance(tasks: Seq<InfoV>, j: int, need_loop: bool) -> (RunStateV, RunActionV) {
    if j < tasks.len() {
        ((RunPhase::WritingTask, tasks, j, need_loop), RunActionV::WriteTask(tasks[j]))
    } else {
        end_of_pass(need_loop)
    }
}

pub open spec fn finish(r: Result<bool, Seq<char>>) -> (RunStateV, RunActionV) {
    ((RunPhase::Done, Seq::empty(), 0, false), RunActionV::Finish(r))
}

/// The next state and action of a run, given what came of the last action.
/// A failed write of a task, or a failed run, does not stop the pass; it
/// makes the run pass again once this pass is over.
pub open spec fn run_next(s: RunStateV, e: RunEventV) -> (RunStateV, RunActionV) {
    let (phase, tasks, next, need_loop) = s;
    match (phase, e) {
        (RunPhase::Start, RunEventV::Begin) => (
            (RunPhase::ReadingMark, Seq::empty(), 0, false),
            RunActionV::ReadMark,
        ),
        (RunPhase::ReadingMark, RunEventV::MarkRead(true)) => finish(Ok(false)),
        (RunPhase::ReadingMark, RunEventV::MarkRead(false)) => (
            (RunPhase::Locking, Seq::empty(), 0, false),
            RunActionV::WriteMark(true),
        ),
        (RunPhase::Locking, RunEventV::Written) => (
            (RunPhase::ReadingTasks, Seq::empty(), 0, false),
            RunActionV::ReadTasks,
        ),
        (RunPhase::ReadingTasks, RunEventV::TasksRead(infos, now)) => advance(
            due_started(infos, now),
            0,
            need_loop,
        ),
        (RunPhase::WritingTask, RunEventV::Written) => (
            (RunPhase::RunningTask, tasks, next, need_loop),
            RunActionV::RunTask(tasks[next]),
        ),
        (RunPhase::WritingTask, RunEventV::Failed(_)) => advance(tasks, next + 1, true),
        (RunPhase::RunningTask, RunEventV::TaskRun(Ok(_))) => advance(tasks, next + 1, need_loop),
        (RunPhase::RunningTask, RunEventV::TaskRun(Err(_))) => advance(tasks, next + 1, true),
        (RunPhase::Unlocking, RunEventV::Written) => finish(Ok(true)),
        (RunPhase::ReadingMark, RunEventV::Failed(m)) => finish(Err(m)),
        (RunPhase::Locking, RunEventV::Failed(m)) => finish(Err(m)),
        (RunPhase::ReadingTasks, RunEventV::Failed(m)) => finish(Err(m)),
        (RunPhase::Unlocking, RunEventV::Failed(m)) => finish(Err(m)),
        _ => (s, RunActionV::Idle),
    }
}

/// A task read back may be taken up only while one more try can be counted.
pub open spec fn event_ok(e: RunEvent) -> bool {
    match e {
        RunEvent::TasksRead { infos, now } => forall|i: int|
            0 <= i < infos@.len() && is_due(infos@[i].status, infos@[i].time as int, now as int)
                ==> #[trigger] infos@[i].try_count < u64::MAX,
        _ => true,
    }
}

/// An equal copy of a task.
pub fn copy_info(i: &ResourceInfo) -> (c: ResourceInfo)
    ensures
        info_view(c) == info_view(*i),
{
    let mut names: Vec<String> = Vec::new();
    let n = i.names.len();
    for k in 0..n
        invariant
            n == i.names@.len(),
            names_view(names@) == names_view(i.names@.take(k as int)),
    {
        names.push(i.names[k].clone());
        assert(names_view(i.names@.take(k as int + 1)) =~= names_view(i.names@.take(k as int)).push(
            i.names@[k as int]@,
        ));
        assert(names_view(names@) =~= names_view(i.names@.take(k as int)).push(i.names@[k as int]@));
    }
    assert(i.names@.take(n as int) =~= i.names@);
    ResourceInfo {
        names,
        status: i.status,
        time: i.time,
        try_count: i.try_count,
        comment: i.comment.clone(),
    }
}

/// The due tasks among those read, in order, each taken up.
fn take_up_due(infos: &Vec<ResourceInfo>, now: i64) -> (r: Vec<ResourceInfo>)
    requires
        forall|i: int|
            0 <= i < infos@.len() && is_due(infos@[i].status, infos@[i].time as int, now as int)
                ==> #[trigger] infos@[i].try_count < u64::MAX,
    ensures
        infos_view(r@) == due_started(infos_view(infos@), now),
{
    let mut r: Vec<ResourceInfo> = Vec::new();
    let n = infos.len();
    for k in 0..n
        invariant
            n == infos@.len(),
            forall|i: int|
                0 <= i < infos@.len() && is_due(infos@[i].status, infos@[i].time as int, now as int)
                    ==> #[trigger] infos@[i].try_count < u64::MAX,
            infos_view(r@) == due_started(infos_view(infos@.take(k as int)), now),
    {
        let ghost before = r@;
        let info = &infos[k];
        let due = (info.status == ResourceStatus::Schedule && info.time <= now) || info.status
            == ResourceStatus::Failed;
        proof {
            let t = infos_view(infos@.take(k as int + 1));
            assert(t.drop_last() =~= infos_view(infos@.take(k as int)));
            assert(t.last() == info_view(infos@[k as int]));
        }
        if due {
            let mut c = copy_info(info);
            c.try_count = c.try_count + 1;
            c.status = ResourceStatus::Executing;
            r.push(c);
            assert(infos_view(r@) =~= infos_view(before).push(started(info_view(infos@[k as int]))));
        } else {
            assert(infos_view(infos@.take(k as int + 1)).drop_last() =~= infos_view(
                infos@.take(k as int),
            ));
            assert(due_started(infos_view(infos@.take(k as int)), now) + Seq::<InfoV>::empty()
                =~= due_started(infos_view(infos@.take(k as int)), now));
        }
    }
    assert(infos@.take(n as int) =~= infos@);
    r
}

impl RunState {
    pub closed spec fn view(&self) -> RunStateV {
        (self.phase, infos_view(self.tasks@), self.next as int, self.need_loop)
    }

    /// A task is at hand exactly while one is being written or run.
    pub open spec fn wf(&self) -> bool {
        (self.view().0 == RunPhase::WritingTask || self.view().0 == RunPhase::RunningTask) ==> 0
            <= self.view().2 < self.view().1.len()
    }

    /// A run that has not begun.
    pub fn new() -> (r: Self)
        ensures
            r.view() == (RunPhase::Start, Seq::<InfoV>::empty(), 0int, false),
            r.wf(),
    {
        let r = RunState { phase: RunPhase::Start, tasks: Vec::new(), next: 0, need_loop: false };
        assert(infos_view(r.tasks@) =~= Seq::<InfoV>::empty());
        r
    }

    /// The phase the run is in.
    pub fn phase(&self) -> (r: RunPhase)
        ensures
            r == self.view().0,
    {
        self.phase
    }

    fn done_with(r: Result<bool, String>) -> (x: (RunState, RunAction))
        ensures
            (x.0.view(), action_view(x.1)) == finish(result_view(r)),
            x.0.wf(),
    {
        let s = RunState { phase: RunPhase::Done, tasks: Vec::new(), next: 0, need_loop: false };
        assert(infos_view(s.tasks@) =~= Seq::<InfoV>::empty());
        (s, RunAction::Finish(r))
    }

    fn empty_in(phase: RunPhase, need_loop: bool) -> (s: RunState)
        ensures
            s.view() == (phase, Seq::<InfoV>::empty(), 0int, need_loop),
            s.wf() <== !(phase == RunPhase::WritingTask || phase == RunPhase::RunningTask),
    {
        let s = RunState { phase, tasks: Vec::new(), next: 0, need_loop };
        assert(infos_view(s.tasks@) =~= Seq::<InfoV>::empty());
        s
    }

    fn advance_to(tasks: Vec<ResourceInfo>, j: usize, need_loop: bool) -> (x: (RunState, RunAction))
        ensures
            (x.0.view(), action_view(x.1)) == advance(infos_view(tasks@), j as int, need_loop),
            x.0.wf(),
    {
        if j < tasks.len() {
            let c = copy_info(&tasks[j]);
            let ghost tv = infos_view(tasks@);
            let s = RunState { phase: RunPhase::WritingTask, tasks, next: j, need_loop };
            assert(info_view(c) == tv[j as int]);
            (s, RunAction::WriteTask(c))
        } else if need_loop {
            (Self::empty_in(RunPhase::ReadingTasks, true), RunAction::ReadTasks)
        } else {
            (Self::empty_in(RunPhase::Unlocking, false), RunAction::WriteMark(false))
        }
    }

    /// The next state and action, given what came of the last action.
    pub fn run_step(self, e: RunEvent) -> (r: (RunState, RunAction))
        requires
            self.wf(),
            event_ok(e),
        ensures
            (r.0.view(), action_view(r.1)) == run_next(self.view(), event_view(e)),
            r.0.wf(),
    {
        let ghost sv = self.view();
        let ghost ev = event_view(e);
        match (self.phase, e) {
            (RunPhase::Start, RunEvent::Begin) => (
                Self::empty_in(RunPhase::ReadingMark, false),
                RunAction::ReadMark,
            ),
            (RunPhase::ReadingMark, RunEvent::MarkRead { locked }) => {
                if locked {
                    Self::done_with(Ok(false))
                } else {
                    (Self::empty_in(RunPhase::Locking, false), RunAction::WriteMark(true))
                }
            },
            (RunPhase::Locking, RunEvent::Written) => (
                Self::empty_in(RunPhase::ReadingTasks, false),
                RunAction::ReadTasks,
            ),
            (RunPhase::ReadingTasks, RunEvent::TasksRead { infos, now }) => {
                let tasks = take_up_due(&infos, now);
                Self::advance_to(tasks, 0, self.need_loop)
            },
            (RunPhase::WritingTask, RunEvent::Written) => {
                assert(infos_view(self.tasks@).len() == self.tasks@.len());
                let c = copy_info(&self.tasks[self.next]);
                let RunState { tasks, next, need_loop, .. } = self;
                let s = RunState { phase: RunPhase::RunningTask, tasks, next, need_loop };
                (s, RunAction::RunTask(c))
            },
            (RunPhase::WritingTask, RunEvent::Failed(_)) => {
                let len = self.tasks.len();
                assert(infos_view(self.tasks@).len() == len);
                let next = self.next + 1;
                Self::advance_to(self.tasks, next, true)
            },
            (RunPhase::RunningTask, RunEvent::TaskRun(res)) => {
                let len = self.tasks.len();
                assert(infos_view(self.tasks@).len() == len);
                let next = self.next + 1;
                let need_loop = match res {
                    Ok(_) => self.need_loop,
                    Err(_) => true,
                };
                Self::advance_to(self.tasks, next, need_loop)
            },
            (RunPhase::Unlocking, RunEvent::Written) => Self::done_with(Ok(true)),
            (RunPhase::ReadingMark, RunEvent::Failed(m)) => Self::done_with(Err(m)),
            (RunPhase::Locking, RunEvent::Failed(m)) => Self::done_with(Err(m)),
            (RunPhase::ReadingTasks, RunEvent::Failed(m)) => Self::done_with(Err(m)),
            (RunPhase::Unlocking, RunEvent::Failed(m)) => Self::done_with(Err(m)),
            (_, _) => (self, RunAction::Idle),
        }
    }
}

/// Where a table change stands: the tenant is looked up first, the
/// change goes to every data node next, and the stored schema is updated
/// only once that succeeded.
#[derive(Debug, Clone, Copy, PartialEq, Eq, Structural)]
pub enum AlterPhase {
    Start,
    LookingUpTenant,
    Broadcasting,
    UpdatingTable,
    Done,
}

/// What came of the last action of a table change.
pub enum AlterEvent {
    Begin,
    /// Whether the tenant was found.
    TenantLookedUp(bool),
    /// How the command went on the data nodes.
    Broadcast(Result<(), CoordinatorError>),
    /// How storing the task's schema went.
    TableUpdated(Result<(), MetaError>),
}

/// What a table change asks for next.
pub enum AlterAction {
    LookupTenant,
    Broadcast(AdminCommandRequest),
    /// Store the schema that the task carries.
    UpdateTable,
    Finish(Result<bool, CoordinatorError>),
    /// The event does not belong to this phase: nothing to do.
    Idle,
}

/// The next phase and action of the table change that `op` describes in
/// `tenant`. A task that changes no table has nothing to send and succeeds
/// once the tenant is found.
pub fn alter_table_step(phase: AlterPhase, op: &ResourceOperator, tenant: &str, event: AlterEvent) -> (r: (
    AlterPhase,
    AlterAction,
))
    ensures
        match (phase, event) {
            (AlterPhase::Start, AlterEvent::Begin) => r.0 == AlterPhase::LookingUpTenant
                && r.1 is LookupTenant,
            (AlterPhase::LookingUpTenant, AlterEvent::TenantLookedUp(false)) => r.0 == AlterPhase::Done
                && (r.1 matches AlterAction::Finish(Err(CoordinatorError::TenantNotFound { name }))
                && name@ == tenant@),
            (AlterPhase::LookingUpTenant, AlterEvent::TenantLookedUp(true)) => match alter_command_of(
                *op,
            ) {
                Some(c) => r.0 == AlterPhase::Broadcasting && (r.1 matches AlterAction::Broadcast(req)
                    && req.tenant@ == tenant@ && admin_command_view(req.command) == Some(c)),
                None => r.0 == AlterPhase::Done && r.1 matches AlterAction::Finish(Ok(true)),
            },
            (AlterPhase::Broadcasting, AlterEvent::Broadcast(Ok(()))) => r.0 == AlterPhase::UpdatingTable
                && r.1 is UpdateTable,
            (AlterPhase::Broadcasting, AlterEvent::Broadcast(Err(e))) => r.0 == AlterPhase::Done && (
            r.1 matches AlterAction::Finish(Err(x)) && x == e),
            (AlterPhase::UpdatingTable, AlterEvent::TableUpdated(Ok(()))) => r.0 == AlterPhase::Done
                && r.1 matches AlterAction::Finish(Ok(true)),
            (AlterPhase::UpdatingTable, AlterEvent::TableUpdated(Err(m))) => r.0 == AlterPhase::Done
                && (r.1 matches AlterAction::Finish(Err(CoordinatorError::MetaRequest { msg }))
                && msg@ == meta_error_message(m)),
            _ => r.0 == phase && r.1 is Idle,
        },
{
    match (phase, event) {
        (AlterPhase::Start, AlterEvent::Begin) => (AlterPhase::LookingUpTenant, AlterAction::LookupTenant),
        (AlterPhase::LookingUpTenant, AlterEvent::TenantLookedUp(found)) => {
            if !found {
                let name = tenant.to_owned();
                (AlterPhase::Done, AlterAction::Finish(Err(CoordinatorError::TenantNotFound { name })))
            } else {
                match ResourceManager::alter_table_request(op, tenant) {
                    Some(req) => (AlterPhase::Broadcasting, AlterAction::Broadcast(req)),
                    None => (AlterPhase::Done, AlterAction::Finish(Ok(true))),
                }
            }
        },
        (AlterPhase::Broadcasting, AlterEvent::Broadcast(res)) => match res {
            Ok(()) => (AlterPhase::UpdatingTable, AlterAction::UpdateTable),
            Err(e) => (AlterPhase::Done, AlterAction::Finish(Err(e))),
        },
        (AlterPhase::UpdatingTable, AlterEvent::TableUpdated(res)) => match res {
            Ok(()) => (AlterPhase::Done, AlterAction::Finish(Ok(true))),
            Err(m) => (AlterPhase::Done, AlterAction::Finish(Err(CoordinatorError::from_meta_error(m)))),
        },
        (p, _) => (p, AlterAction::Idle),
    }
}

/// Where the work of one task stands: its handler runs first, then the
/// task's status is written, then the handler's result is returned.
#[derive(Debug, Clone, Copy, PartialEq, Eq, Structural)]
pub enum OperatorPhase {
    Running,
    WritingStatus,
    Done,
}

/// The work of one task: the task, and the handler's result once it came.
pub struct OperatorRun {
    pub phase: OperatorPhase,
    pub task: ResourceInfo,
    pub result: Option<Result<bool, CoordinatorError>>,
}

/// What came of the last action of a task's work.
pub enum OperatorEvent {
    /// The result of the task's handler.
    HandlerDone(Result<bool, CoordinatorError>),
    /// How writing the task's status went.
    StatusWritten(Result<(), CoordinatorError>),
}

/// What a task's work asks for next.
pub enum OperatorAction {
    /// Store the task with its new status and comment.
    WriteStatus(ResourceInfo),
    Finish(Result<bool, CoordinatorError>),
    /// The event does not belong to this phase: nothing to do.
    Idle,
}

impl OperatorRun {
    /// The handler's result is kept from its coming until it is returned.
    pub open spec fn wf(&self) -> bool {
        &&& self.phase == OperatorPhase::Running ==> self.result is None
        &&& self.phase == OperatorPhase::WritingStatus ==> self.result is Some
    }

    /// The work of a task, before its handler has run.
    pub fn new(task: ResourceInfo) -> (r: OperatorRun)
        ensures
            r.wf(),
            r.phase == OperatorPhase::Running,
            r.task == task,
    {
        OperatorRun { phase: OperatorPhase::Running, task, result: None }
    }
}

/// The status and comment a handler's result is stored with: success and
/// no comment, or failure and the error's message.
pub open spec fn status_of(res: Result<bool, CoordinatorError>) -> (ResourceStatus, Seq<char>) {
    match res {
        Ok(_) => (ResourceStatus::Successed, Seq::empty()),
        Err(e) => (ResourceStatus::Failed, coordinator_error_message(e)),
    }
}

/// The next state and action of a task's work. The status is written
/// once, after the handler; the handler's result is returned unless that
/// write fails, and then the write's error is.
pub fn operator_step(run: OperatorRun, e: OperatorEvent) -> (r: (OperatorRun, OperatorAction))
    requires
        run.wf(),
    ensures
        r.0.wf(),
        match (run.phase, e) {
            (OperatorPhase::Running, OperatorEvent::HandlerDone(res)) => {
                &&& r.0.phase == OperatorPhase::WritingStatus
                &&& r.0.result == Some(res)
                &&& r.0.task == run.task
                &&& r.1 matches OperatorAction::WriteStatus(t) && info_view(t) == (
                    info_view(run.task).0,
                    status_of(res).0,
                    info_view(run.task).2,
                    info_view(run.task).3,
                    status_of(res).1,
                )
            },
            (OperatorPhase::WritingStatus, OperatorEvent::StatusWritten(Ok(()))) => r.0.phase
                == OperatorPhase::Done && r.0.result is None && r.0.task == run.task && r.1
                == OperatorAction::Finish(run.result->0),
            (OperatorPhase::WritingStatus, OperatorEvent::StatusWritten(Err(w))) => r.0.phase
                == OperatorPhase::Done && r.0.result is None && r.0.task == run.task && r.1
                == OperatorAction::Finish(Err(w)),
            _ => r.0 == run && r.1 is Idle,
        },
{
    match (run.phase, e) {
        (OperatorPhase::Running, OperatorEvent::HandlerDone(res)) => {
            let mut t = copy_info(&run.task);
            match &res {
                Ok(_) => {
                    t.status = ResourceStatus::Successed;
                    t.comment = String::new();
                },
                Err(err) => {
                    t.status = ResourceStatus::Failed;
                    t.comment = err.to_string();
                },
            }
            let next = OperatorRun { phase: OperatorPhase::WritingStatus, task: run.task, result: Some(res) };
            (next, OperatorAction::WriteStatus(t))
        },
        (OperatorPhase::WritingStatus, OperatorEvent::StatusWritten(w)) => {
            let OperatorRun { task, result, .. } = run;
            match result {
                Some(res) => match w {
                    Ok(()) => (
                        OperatorRun { phase: OperatorPhase::Done, task, result: None },
                        OperatorAction::Finish(res),
                    ),
                    Err(we) => (
                        OperatorRun { phase: OperatorPhase::Done, task, result: None },
                        OperatorAction::Finish(Err(we)),
                    ),
                },
                None => (OperatorRun { phase: OperatorPhase::WritingStatus, task, result: None }, OperatorAction::Idle),
            }
        },
        (_, _) => (run, OperatorAction::Idle),
    }
}

/// Once a write or a run of a task has failed, the run goes on passing
/// over the tasks and never lets the lock go; it ends only when a read of
/// the tasks fails.
pub proof fn lemma_failed_run_keeps_the_lock(s: RunStateV, e: RunEventV)
    requires
        s.3,
        s.0 == RunPhase::ReadingTasks || s.0 == RunPhase::WritingTask || s.0 == RunPhase::RunningTask,
    ensures
        run_next(s, e).1 != RunActionV::WriteMark(false),
        run_next(s, e).0.0 != RunPhase::Done ==> run_next(s, e).0.3 && (run_next(s, e).0.0
            == RunPhase::ReadingTasks || run_next(s, e).0.0 == RunPhase::WritingTask || run_next(
            s,
            e,
        ).0.0 == RunPhase::RunningTask),
        run_next(s, e).0.0 == RunPhase::Done ==> s.0 == RunPhase::ReadingTasks && e is Failed,
{
}

} // verus!
