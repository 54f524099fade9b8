use cnosdb::ddl::{DropAction, DropError, DropEvent, DropPhase};
use cnosdb::coordinator::CoordinatorError;
use cnosdb::coordinator::{AdminStatementType, VnodeManagerCmdType};
use cnosdb::ddl::{
    CreateTenantStep, CreateTenantTask, DescribeDatabaseTask, DropTenantObjectTask, DropVnodeTask,
    MoveVnodeTask,
};
use cnosdb::meta_error::MetaError;
use cnosdb::planner::{
    CreateTenant, DescribeDatabase, DropTenantObject, DropVnode, MoveVnode, TenantObjectType,
    TenantOptions,
};

fn create(if_not_exists: bool) -> CreateTenantTask {
    CreateTenantTask::new(CreateTenant {
        name: "t1".into(),
        if_not_exists,
        options: TenantOptions { comment: Some("c".into()) },
    })
}

#[test]
fn create_tenant_decisions() {
    assert!(matches!(create(true).decide(true), Ok(CreateTenantStep::Nothing)));
    match create(false).decide(true) {
        Err(MetaError::TenantAlreadyExists { tenant }) => assert_eq!(tenant, "t1"),
        other => panic!("{:?}", other),
    }
    match create(false).decide(false) {
        Ok(CreateTenantStep::Create { name, options }) => {
            assert_eq!(name, "t1");
            assert_eq!(options.comment.as_deref(), Some("c"));
        }
        other => panic!("{:?}", other),
    }
}

fn drop_task(if_exist: bool, obj_type: TenantObjectType) -> DropTenantObjectTask {
    DropTenantObjectTask::new(DropTenantObject {
        tenant_name: "t".into(),
        name: "x".into(),
        if_exist,
        obj_type,
    })
}

#[test]
fn drop_tenant_object_decisions() {
    assert!(drop_task(false, TenantObjectType::Role).outcome(true).is_ok());
    assert!(drop_task(true, TenantObjectType::Role).outcome(false).is_ok());
    match drop_task(false, TenantObjectType::Role).outcome(false) {
        Err(MetaError::RoleNotFound { role }) => assert_eq!(role, "x"),
        other => panic!("{:?}", other),
    }
    match drop_task(false, TenantObjectType::Database).outcome(false) {
        Err(MetaError::DatabaseNotFound { database }) => assert_eq!(database, "x"),
        other => panic!("{:?}", other),
    }
    match drop_task(false, TenantObjectType::Database).tenant_lookup(false) {
        Err(MetaError::TenantNotFound { tenant }) => assert_eq!(tenant, "t"),
        other => panic!("{:?}", other),
    }
    assert!(drop_task(false, TenantObjectType::Role).admin_request().is_none());
    let req = drop_task(false, TenantObjectType::Database).admin_request().unwrap();
    assert_eq!(req.tenant, "t");
    assert_eq!(req.stmt, AdminStatementType::DropDB("x".into()));
}

#[test]
fn describe_database_lookup() {
    let task = DescribeDatabaseTask::new(DescribeDatabase { database_name: "db".into() });
    assert!(matches!(task.lookup("t", false, true), Err(MetaError::TenantNotFound { .. })));
    match task.lookup("t", true, false) {
        Err(MetaError::DatabaseNotFound { database }) => assert_eq!(database, "db"),
        other => panic!("{:?}", other),
    }
    assert!(task.lookup("t", true, true).is_ok());
    assert_eq!(
        DescribeDatabaseTask::columns(),
        vec!["TTL", "SHARD", "VNODE_DURATION", "REPLICA", "PRECISION"]
    );
}

#[test]
fn vnode_tasks() {
    assert_eq!(DropVnodeTask::new(DropVnode { vnode_id: 3 }).command(), (3, VnodeManagerCmdType::Drop));
    assert_eq!(
        MoveVnodeTask::new(MoveVnode { vnode_id: 3, node_id: 8 }).command(),
        (3, VnodeManagerCmdType::Move(8))
    );
}

#[test]
fn dropping_a_database_goes_to_every_node_first() {
    let task = drop_task(false, TenantObjectType::Database);
    let (p, a) = task.step(DropPhase::Start, DropEvent::Begin);
    assert_eq!(p, DropPhase::LookingUpTenant);
    assert!(matches!(a, DropAction::LookupTenant));
    let (p, a) = task.step(p, DropEvent::TenantLookedUp(false));
    assert_eq!(p, DropPhase::Done);
    assert!(matches!(a, DropAction::Finish(Err(DropError::Meta(MetaError::TenantNotFound { ref tenant }))) if tenant == "t"));

    let (p, a) = task.step(DropPhase::LookingUpTenant, DropEvent::TenantLookedUp(true));
    assert_eq!(p, DropPhase::DroppingOnNodes);
    match a {
        DropAction::DropOnNodes(req) => {
            assert_eq!(req.tenant, "t");
            assert!(matches!(req.stmt, AdminStatementType::DropDB(ref n) if n == "x"));
        }
        _ => panic!("expected the request to every node"),
    }
    // A failure on the nodes stops the drop before the metadata is touched.
    let err = CoordinatorError::CommonError { msg: "down".into() };
    let (p, a) = task.step(p, DropEvent::NodesDone(Err(err)));
    assert_eq!(p, DropPhase::Done);
    assert!(matches!(a, DropAction::Finish(Err(DropError::Coordinator(_)))));

    let (p, a) = task.step(DropPhase::DroppingOnNodes, DropEvent::NodesDone(Ok(())));
    assert_eq!(p, DropPhase::DroppingMeta);
    assert!(matches!(a, DropAction::DropDatabase(ref n) if n == "x"));
    let (_, a) = task.step(p, DropEvent::MetaDropped(Ok(false)));
    assert!(matches!(a, DropAction::Finish(Err(DropError::Meta(MetaError::DatabaseNotFound { .. })))));
    let (_, a) = task.step(DropPhase::DroppingMeta, DropEvent::MetaDropped(Ok(true)));
    assert!(matches!(a, DropAction::Finish(Ok(()))));
}

#[test]
fn dropping_a_role_asks_the_metadata_only() {
    let task = drop_task(true, TenantObjectType::Role);
    let (p, a) = task.step(DropPhase::LookingUpTenant, DropEvent::TenantLookedUp(true));
    assert_eq!(p, DropPhase::DroppingMeta);
    assert!(matches!(a, DropAction::DropRole(ref n) if n == "x"));
    let (_, a) = task.step(p, DropEvent::MetaDropped(Ok(false)));
    assert!(matches!(a, DropAction::Finish(Ok(()))));
    let (p, a) = task.step(DropPhase::Done, DropEvent::Begin);
    assert_eq!(p, DropPhase::Done);
    assert!(matches!(a, DropAction::Idle));
}
