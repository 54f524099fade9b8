use cnosdb::meta_init::{next_step, InitCommand, InitEvent, InitStep};
use cnosdb::privilege::{SystemTenantRole, TenantRoleIdentifier};
use cnosdb::store_config::MetaInit;

fn init() -> MetaInit {
    MetaInit {
        cluster_name: "cluster_xxx".into(),
        admin_user: "root".into(),
        system_tenant: "cnosdb".into(),
        default_database: "public".into(),
    }
}

#[test]
fn init_steps_in_order() {
    let mut step = InitStep::CreateAdmin;
    step = next_step(step, InitEvent::Written(true)).unwrap();
    assert_eq!(step, InitStep::CreateSystemTenant);
    step = next_step(step, InitEvent::Written(true)).unwrap();
    assert_eq!(step, InitStep::ReadAdmin);
    step = next_step(step, InitEvent::AdminRead(Some(Some(77)))).unwrap();
    assert_eq!(step, InitStep::AddAdminToTenant(77));
    step = next_step(step, InitEvent::Written(true)).unwrap();
    assert_eq!(step, InitStep::CreateDefaultDatabase);
    assert_eq!(next_step(step, InitEvent::Written(true)), None);
    assert_eq!(next_step(InitStep::CreateAdmin, InitEvent::Written(false)), None);
    assert_eq!(next_step(InitStep::ReadAdmin, InitEvent::AdminRead(None)), None);
    assert_eq!(
        next_step(InitStep::ReadAdmin, InitEvent::AdminRead(Some(None))),
        Some(InitStep::CreateDefaultDatabase)
    );
}

#[test]
fn init_commands() {
    let m = init();
    match m.command(InitStep::CreateDefaultDatabase) {
        InitCommand::SetKey { key, value } => {
            assert_eq!(key, "/cluster_xxx/tenants/cnosdb/dbs/public");
            assert_eq!(
                value,
                "{\"tenant\":\"cnosdb\",\"database\":\"public\",\"config\":{\"ttl\":null,\"shard_num\":null,\"vnode_duration\":null,\"replica\":null,\"precision\":null}}"
            );
        }
        other => panic!("{:?}", other),
    }
    match m.command(InitStep::CreateAdmin) {
        InitCommand::CreateUser { name, options, is_admin, .. } => {
            assert_eq!(name, "root");
            assert!(is_admin);
            assert_eq!(options.must_change_password(), Some(true));
            assert_eq!(options.comment(), Some("system admin"));
            assert_eq!(options.hash_password(), None);
        }
        other => panic!("{:?}", other),
    }
    match m.command(InitStep::AddAdminToTenant(5)) {
        InitCommand::AddMemberToTenant { user_id, role, tenant, .. } => {
            assert_eq!(user_id, 5);
            assert_eq!(role, TenantRoleIdentifier::System(SystemTenantRole::Owner));
            assert_eq!(tenant, "cnosdb");
        }
        other => panic!("{:?}", other),
    }
    match m.command(InitStep::CreateSystemTenant) {
        InitCommand::CreateTenant { options, .. } => {
            assert_eq!(options.comment.as_deref(), Some("system tenant"))
        }
        other => panic!("{:?}", other),
    }
}
