use cnosdb::column::{ColumnType, Encoding, TimeUnit, ValueType};
use cnosdb::meta_commands::{
    member_names, repl_set_update_status, alter_db_check, alter_named_check, altered_user, create_db_check, create_named_check,
    create_table_check, member_check, rename_status, role_check, update_table_check, MemberCommand,
    MetaStatus, StatusResponse, StoredTable,
};
use cnosdb::privilege::{SystemTenantRole, TenantRoleIdentifier};
use cnosdb::scan::{scan_projection, ScanError};
use cnosdb::schema::{TableColumn, TskvTableSchema};
use cnosdb::user::{UserDesc, UserOptions, UserOptionsBuilder};

fn st(code: MetaStatus, msg: &str) -> Option<StatusResponse> {
    Some(StatusResponse { code, msg: msg.to_string() })
}

#[test]
fn database_and_table_checks() {
    assert_eq!(create_db_check(true, true, "db"), st(MetaStatus::DbExist, "database already exist"));
    assert_eq!(create_db_check(false, false, "db"), st(MetaStatus::Failed, "database db attribute invalid!"));
    assert_eq!(create_db_check(false, true, "db"), None);
    assert_eq!(alter_db_check(false, false, "db"), st(MetaStatus::Success, "db not found in meta"));
    assert_eq!(alter_db_check(true, false, "db"), st(MetaStatus::Failed, "database db attribute invalid!"));
    assert_eq!(alter_db_check(true, true, "db"), None);
    assert_eq!(create_table_check(false, true), st(MetaStatus::DbNotFound, "database not found"));
    assert_eq!(create_table_check(true, true), st(MetaStatus::TableExist, "table already exist"));
    assert_eq!(create_table_check(true, false), None);
    assert_eq!(update_table_check(None, StoredTable::External), None);
    assert_eq!(update_table_check(Some(StoredTable::TsKv(1)), StoredTable::TsKv(2)), None);
    assert_eq!(
        update_table_check(Some(StoredTable::TsKv(1)), StoredTable::TsKv(1)),
        st(MetaStatus::Failed, "update table schema conflict 1->1")
    );
    assert_eq!(
        update_table_check(Some(StoredTable::External), StoredTable::TsKv(1)),
        st(MetaStatus::Failed, "not support update external table")
    );
}

#[test]
fn user_tenant_member_role_checks() {
    assert_eq!(create_named_check(true, "u", MetaStatus::UserExist), st(MetaStatus::UserExist, "u"));
    assert_eq!(create_named_check(false, "u", MetaStatus::UserExist), None);
    assert_eq!(alter_named_check(false, "t", MetaStatus::TenantNotFound), st(MetaStatus::TenantNotFound, "t"));
    assert_eq!(member_check(MemberCommand::Add, true, 1234567890123456789012345), st(MetaStatus::UserExist, "1234567890123456789012345"));
    assert_eq!(member_check(MemberCommand::Add, false, 5), None);
    assert_eq!(member_check(MemberCommand::Remove, false, 5), st(MetaStatus::UserNotFound, "5"));
    assert_eq!(member_check(MemberCommand::Reassign, true, 5), None);
    assert_eq!(role_check(true, true, "r", "t"), st(MetaStatus::RoleExist, "r of tenant t"));
    assert_eq!(role_check(false, false, "r", "t"), st(MetaStatus::RoleNotFound, "r of tenant t"));
    assert_eq!(role_check(true, false, "r", "t"), None);
    assert_eq!(rename_status(), StatusResponse { code: MetaStatus::Failed, msg: "Not implement".into() });
    assert_eq!(Some(repl_set_update_status(false, 17)), st(MetaStatus::Failed, "not found buckt: 17"));
    assert_eq!(Some(repl_set_update_status(true, 17)), st(MetaStatus::Success, ""));
}

#[test]
fn altering_a_user_merges_options() {
    let mut b = UserOptionsBuilder::new();
    b.comment("old".to_string()).granted_admin(true);
    let old = UserDesc::new(9, "u".into(), b.build().unwrap(), false);
    let mut b = UserOptionsBuilder::new();
    b.comment("new".to_string()).must_change_password(false);
    let new = altered_user(&old, "u".into(), b.build().unwrap());
    assert_eq!(new.id(), 9);
    assert_eq!(new.options().comment(), Some("old"));
    assert_eq!(new.options().must_change_password(), Some(false));
    assert!(new.is_root_admin());
    let plain = UserDesc::new(3, "p".into(), UserOptions::new(), false);
    assert!(!altered_user(&plain, "p".into(), UserOptions::new()).is_root_admin());
}

#[test]
fn scan_projection_reads_the_named_columns() {
    let schema = TskvTableSchema::new(
        "t".into(),
        "db".into(),
        "tb".into(),
        vec![
            TableColumn::new(5, "time".into(), ColumnType::Time(TimeUnit::Microsecond), Encoding::Delta),
            TableColumn::new_tag_column(6, "host".into()),
            TableColumn::new(7, "v".into(), ColumnType::Field(ValueType::Float), Encoding::Gorilla),
        ],
    );
    let cols = scan_projection(&schema, &vec!["v".into(), "time".into()]).unwrap();
    assert_eq!(cols[0], TableColumn::new(7, "v".into(), ColumnType::Field(ValueType::Float), Encoding::Gorilla));
    assert_eq!(cols[1], TableColumn::new(0, "time".into(), ColumnType::Time(TimeUnit::Microsecond), Encoding::Delta));
    assert_eq!(
        scan_projection(&schema, &vec!["host".into(), "x".into(), "y".into()]).unwrap_err(),
        ScanError::NotFoundField { reason: "x".into() }
    );
    let bare = TskvTableSchema::new("t".into(), "db".into(), "tb".into(), vec![]);
    let cols = scan_projection(&bare, &vec!["time".into()]).unwrap();
    assert_eq!(cols[0], TableColumn::new(0, "time".into(), ColumnType::Time(TimeUnit::Nanosecond), Encoding::Default));
}

#[test]
fn members_are_named_by_their_users() {
    let users = vec![
        UserDesc::new(11, "alice".into(), UserOptions::new(), false),
        UserDesc::new(340282366920938463463374607431768211455, "bob".into(), UserOptions::new(), false),
    ];
    let members = vec![
        ("340282366920938463463374607431768211455".to_string(), TenantRoleIdentifier::Custom("r1".into())),
        ("12".to_string(), TenantRoleIdentifier::System(SystemTenantRole::Member)),
        ("11".to_string(), TenantRoleIdentifier::System(SystemTenantRole::Owner)),
    ];
    assert_eq!(
        member_names(&members, &users),
        vec![
            ("bob".to_string(), TenantRoleIdentifier::Custom("r1".into())),
            ("alice".to_string(), TenantRoleIdentifier::System(SystemTenantRole::Owner)),
        ]
    );
}
