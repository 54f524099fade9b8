use cnosdb::resource::{
    AdminCommand, OperatorKind, ResourceInfo, ResourceManager, ResourceOperator, ResourceStatus,
};
use cnosdb::schema::{TableColumn, TskvTableSchema};

fn info(names: &[&str], status: ResourceStatus, time: i64) -> ResourceInfo {
    ResourceInfo {
        names: names.iter().map(|s| s.to_string()).collect(),
        status,
        time,
        try_count: 0,
        comment: String::new(),
    }
}

#[test]
fn resource_names_join_with_slash() {
    assert_eq!(ResourceManager::resource_name(&vec![]), "");
    assert_eq!(ResourceManager::resource_name(&vec!["t".into()]), "t");
    assert_eq!(ResourceManager::resource_name(&vec!["t".into(), "db".into(), "tb".into()]), "t/db/tb");
}

#[test]
fn due_tasks_are_scheduled_and_due_or_failed() {
    let infos = vec![
        info(&["a"], ResourceStatus::Schedule, 10),
        info(&["b"], ResourceStatus::Schedule, 30),
        info(&["c"], ResourceStatus::Failed, 99),
        info(&["d"], ResourceStatus::Executing, 0),
        info(&["e"], ResourceStatus::Successed, 0),
    ];
    assert_eq!(ResourceManager::due_tasks(&infos, 20), vec![0, 2]);
    assert_eq!(ResourceManager::due_tasks(&infos, 30), vec![0, 1, 2]);
}

#[test]
fn add_is_refused_while_a_task_is_live() {
    let stored = vec![
        info(&["t", "db"], ResourceStatus::Successed, 0),
        info(&["t", "db"], ResourceStatus::Schedule, 0),
    ];
    assert!(ResourceManager::plan_add(&stored, info(&["t", "db"], ResourceStatus::Executing, 0)).is_none());
    let stored = vec![
        info(&["t", "db"], ResourceStatus::Schedule, 0),
        info(&["t", "db"], ResourceStatus::Cancel, 0),
    ];
    let (t, run) = ResourceManager::plan_add(&stored, info(&["t", "db"], ResourceStatus::Executing, 0)).unwrap();
    assert!(run);
    assert_eq!(t.try_count, 1);
    let (t, run) = ResourceManager::plan_add(&vec![], info(&["x"], ResourceStatus::Schedule, 5)).unwrap();
    assert!(!run);
    assert_eq!(t.try_count, 0);
}

#[test]
fn task_lifecycle() {
    let mut i = info(&["a"], ResourceStatus::Failed, 1);
    ResourceManager::start(&mut i);
    assert_eq!((i.status, i.try_count), (ResourceStatus::Executing, 1));
    let (status, comment) = ResourceManager::outcome(&Err("boom".to_string()));
    ResourceManager::change(&mut i, status, &comment);
    assert_eq!((i.status, i.comment.as_str()), (ResourceStatus::Failed, "boom"));
    assert_eq!(ResourceManager::outcome(&Ok(true)), (ResourceStatus::Successed, String::new()));
}

#[test]
fn alter_table_commands() {
    let schema = TskvTableSchema::new("t".into(), "db".into(), "tb".into(), vec![]);
    let op = ResourceOperator::DropColumn("t".into(), "c1".into(), schema);
    assert_eq!(ResourceManager::operator_kind(&op), OperatorKind::AlterTable);
    let req = ResourceManager::alter_table_request(&op, "t").unwrap();
    assert_eq!(req.tenant, "t");
    match req.command {
        AdminCommand::DropColumn { db, table, column } => {
            assert_eq!((db.as_str(), table.as_str(), column.as_str()), ("db", "tb", "c1"))
        }
        other => panic!("{:?}", other),
    }
    let schema = TskvTableSchema::new("t".into(), "db".into(), "tb".into(), vec![]);
    let op = ResourceOperator::RenameTagName("t".into(), "a".into(), "b".into(), schema);
    match ResourceManager::alter_table_request(&op, "t").unwrap().command {
        AdminCommand::RenameColumn { old_name, new_name, dry_run, .. } => {
            assert_eq!((old_name.as_str(), new_name.as_str(), dry_run), ("a", "b", false))
        }
        other => panic!("{:?}", other),
    }
    let col = TableColumn::new_tag_column(3, "host".into());
    let schema = TskvTableSchema::new("t".into(), "db".into(), "tb".into(), vec![]);
    let op = ResourceOperator::AddColumn("t".into(), schema, col.clone());
    match ResourceManager::alter_table_request(&op, "t").unwrap().command {
        AdminCommand::AddColumn { column, .. } => assert_eq!(column, col),
        other => panic!("{:?}", other),
    }
    let op = ResourceOperator::DropTenant("t".into());
    assert_eq!(ResourceManager::operator_kind(&op), OperatorKind::DropTenant);
    assert!(ResourceManager::alter_table_request(&op, "t").is_none());
    match ResourceManager::drop_database_request("t", "db").command {
        AdminCommand::DropDb { db } => assert_eq!(db, "db"),
        other => panic!("{:?}", other),
    }
    match ResourceManager::drop_table_request("t", "db", "tb").command {
        AdminCommand::DropTab { db, table } => assert_eq!((db.as_str(), table.as_str()), ("db", "tb")),
        other => panic!("{:?}", other),
    }
}
