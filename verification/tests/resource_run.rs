use cnosdb::resource_run::{operator_step, OperatorAction, OperatorEvent, OperatorPhase, OperatorRun};
use cnosdb::coordinator::CoordinatorError;
use cnosdb::meta_error::MetaError;
use cnosdb::resource::{AdminCommand, ResourceOperator};
use cnosdb::resource_run::{alter_table_step, AlterAction, AlterEvent, AlterPhase};
use cnosdb::schema::TskvTableSchema;
use cnosdb::resource::{ResourceInfo, ResourceStatus};
use cnosdb::resource_run::{RunAction, RunEvent, RunPhase, RunState};

fn info(name: &str, status: ResourceStatus, time: i64) -> ResourceInfo {
    ResourceInfo { names: vec![name.to_string()], status, time, try_count: 0, comment: String::new() }
}

fn step(s: RunState, e: RunEvent) -> (RunState, RunAction) {
    s.run_step(e)
}

#[test]
fn a_locked_run_does_nothing() {
    let (s, a) = step(RunState::new(), RunEvent::Begin);
    assert!(matches!(a, RunAction::ReadMark));
    let (s, a) = step(s, RunEvent::MarkRead { locked: true });
    assert!(matches!(a, RunAction::Finish(Ok(false))));
    assert_eq!(s.phase(), RunPhase::Done);
}

#[test]
fn a_clean_run_takes_up_due_tasks_and_lets_the_lock_go() {
    let (s, _) = step(RunState::new(), RunEvent::Begin);
    let (s, a) = step(s, RunEvent::MarkRead { locked: false });
    assert!(matches!(a, RunAction::WriteMark(true)));
    let (s, a) = step(s, RunEvent::Written);
    assert!(matches!(a, RunAction::ReadTasks));
    let infos = vec![
        info("a", ResourceStatus::Schedule, 5),
        info("b", ResourceStatus::Schedule, 50),
        info("c", ResourceStatus::Failed, 99),
    ];
    let (s, a) = step(s, RunEvent::TasksRead { infos, now: 10 });
    match &a {
        RunAction::WriteTask(t) => {
            assert_eq!(t.names, vec!["a".to_string()]);
            assert_eq!((t.status, t.try_count), (ResourceStatus::Executing, 1));
        }
        other => panic!("{:?}", other),
    }
    let (s, a) = step(s, RunEvent::Written);
    assert!(matches!(a, RunAction::RunTask(ref t) if t.names == vec!["a".to_string()]));
    let (s, a) = step(s, RunEvent::TaskRun(Ok(true)));
    assert!(matches!(a, RunAction::WriteTask(ref t) if t.names == vec!["c".to_string()]));
    let (s, _) = step(s, RunEvent::Written);
    let (s, a) = step(s, RunEvent::TaskRun(Ok(true)));
    assert!(matches!(a, RunAction::WriteMark(false)));
    let (s, a) = step(s, RunEvent::Written);
    assert!(matches!(a, RunAction::Finish(Ok(true))));
    assert_eq!(s.phase(), RunPhase::Done);
}

#[test]
fn a_failed_task_makes_the_run_pass_again() {
    let (s, _) = step(RunState::new(), RunEvent::Begin);
    let (s, _) = step(s, RunEvent::MarkRead { locked: false });
    let (s, _) = step(s, RunEvent::Written);
    let (s, _) = step(s, RunEvent::TasksRead { infos: vec![info("a", ResourceStatus::Failed, 0)], now: 0 });
    let (s, _) = step(s, RunEvent::Written);
    let (s, a) = step(s, RunEvent::TaskRun(Err("boom".into())));
    assert!(matches!(a, RunAction::ReadTasks));
    let (s, a) = step(s, RunEvent::TasksRead { infos: vec![], now: 0 });
    assert!(matches!(a, RunAction::ReadTasks));
    let (s, a) = step(s, RunEvent::Failed("meta down".into()));
    assert!(matches!(a, RunAction::Finish(Err(ref m)) if m == "meta down"));
    let (_, a) = step(s, RunEvent::Written);
    assert!(matches!(a, RunAction::Idle));
}

#[test]
fn a_table_change_waits_for_the_tenant_and_the_data_nodes() {
    let schema = TskvTableSchema::new("t".into(), "db".into(), "tb".into(), vec![]);
    let op = ResourceOperator::DropColumn("t".into(), "c1".into(), schema);

    let (p, a) = alter_table_step(AlterPhase::Start, &op, "t", AlterEvent::Begin);
    assert_eq!(p, AlterPhase::LookingUpTenant);
    assert!(matches!(a, AlterAction::LookupTenant));

    let (p, a) = alter_table_step(p, &op, "t", AlterEvent::TenantLookedUp(false));
    assert_eq!(p, AlterPhase::Done);
    assert!(matches!(a, AlterAction::Finish(Err(CoordinatorError::TenantNotFound { ref name })) if name == "t"));

    let (p, a) = alter_table_step(AlterPhase::LookingUpTenant, &op, "t", AlterEvent::TenantLookedUp(true));
    assert_eq!(p, AlterPhase::Broadcasting);
    match a {
        AlterAction::Broadcast(req) => {
            assert_eq!(req.tenant, "t");
            assert!(matches!(req.command, AdminCommand::DropColumn { ref column, .. } if column == "c1"));
        }
        _ => panic!("expected the command for the data nodes"),
    }

    let err = CoordinatorError::TenantNotFound { name: "x".into() };
    let (p, a) = alter_table_step(p, &op, "t", AlterEvent::Broadcast(Err(err)));
    assert_eq!(p, AlterPhase::Done);
    assert!(matches!(a, AlterAction::Finish(Err(CoordinatorError::TenantNotFound { ref name })) if name == "x"));

    let (p, a) = alter_table_step(AlterPhase::Broadcasting, &op, "t", AlterEvent::Broadcast(Ok(())));
    assert_eq!(p, AlterPhase::UpdatingTable);
    assert!(matches!(a, AlterAction::UpdateTable));

    let (p2, a) = alter_table_step(p, &op, "t", AlterEvent::TableUpdated(Ok(())));
    assert_eq!(p2, AlterPhase::Done);
    assert!(matches!(a, AlterAction::Finish(Ok(true))));

    let m = MetaError::UserNotFound { user: "u".into() };
    let (_, a) = alter_table_step(p, &op, "t", AlterEvent::TableUpdated(Err(m)));
    assert!(matches!(a, AlterAction::Finish(Err(CoordinatorError::MetaRequest { .. }))));

    let (p, a) = alter_table_step(AlterPhase::Done, &op, "t", AlterEvent::Begin);
    assert_eq!(p, AlterPhase::Done);
    assert!(matches!(a, AlterAction::Idle));

    let op = ResourceOperator::DropTenant("t".into());
    let (p, a) = alter_table_step(AlterPhase::LookingUpTenant, &op, "t", AlterEvent::TenantLookedUp(true));
    assert_eq!(p, AlterPhase::Done);
    assert!(matches!(a, AlterAction::Finish(Ok(true))));
}

#[test]
fn a_task_writes_its_status_once_then_returns_the_handler_result() {
    let run = OperatorRun::new(info("a", ResourceStatus::Executing, 5));
    let err = CoordinatorError::TenantNotFound { name: "t".into() };
    let (run, a) = operator_step(run, OperatorEvent::HandlerDone(Err(err)));
    assert_eq!(run.phase, OperatorPhase::WritingStatus);
    match a {
        OperatorAction::WriteStatus(t) => {
            assert_eq!((t.status, t.comment.as_str()), (ResourceStatus::Failed, "Not found tenant: t"));
            assert_eq!((t.names, t.time), (vec!["a".to_string()], 5));
        }
        _ => panic!("expected the status write"),
    }
    let (run, a) = operator_step(run, OperatorEvent::StatusWritten(Ok(())));
    assert_eq!(run.phase, OperatorPhase::Done);
    assert!(matches!(a, OperatorAction::Finish(Err(CoordinatorError::TenantNotFound { .. }))));
    // Nothing more happens once done.
    let (_, a) = operator_step(run, OperatorEvent::HandlerDone(Ok(true)));
    assert!(matches!(a, OperatorAction::Idle));

    let run = OperatorRun::new(info("b", ResourceStatus::Executing, 5));
    let (run, a) = operator_step(run, OperatorEvent::HandlerDone(Ok(true)));
    assert!(matches!(a, OperatorAction::WriteStatus(ref t) if t.status == ResourceStatus::Successed && t.comment.is_empty()));
    let write_err = CoordinatorError::CommonError { msg: "meta down".into() };
    let (_, a) = operator_step(run, OperatorEvent::StatusWritten(Err(write_err)));
    assert!(matches!(a, OperatorAction::Finish(Err(CoordinatorError::CommonError { ref msg })) if msg == "meta down"));
}
