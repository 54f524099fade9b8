use cnosdb::coordinator::{
    check_meta_reply, expired_bucket_requests, get_vnode_all_info, takes_reply_data, vnode_manager_request, AdminStatementType, CoordinatorError, MockCoordinator,
    VnodeAllInfo, VnodeManagerCmdType,
};
use cnosdb::meta_error::MetaError;
use cnosdb::meta_store::{ReplicationSet, VnodeInfo};

#[test]
fn test_mod_code() {
    let e = CoordinatorError::UnExpectResponse;
    assert!(e.code().starts_with("05"));
}

#[test]
fn coordinator_codes_and_messages() {
    assert_eq!(CoordinatorError::UnExpectResponse.code(), "050013");
    assert_eq!(CoordinatorError::VnodeNotFound { id: 7 }.code(), "050015");
    assert_eq!(CoordinatorError::MetaRequest { msg: "m".into() }.code(), "050001");
    assert_eq!(CoordinatorError::VnodeNotFound { id: 7 }.to_string(), "Vnode not found: 7");
    assert_eq!(CoordinatorError::UnKnownCoordCmd { cmd: 12 }.to_string(), "Unknow coordinator command: 12");
    assert_eq!(CoordinatorError::TenantNotFound { name: "t".into() }.to_string(), "Not found tenant: t");
    assert_eq!(CoordinatorError::CommonError { msg: "plain".into() }.to_string(), "plain");
    let e = CoordinatorError::from_meta_error(MetaError::TenantNotFound { tenant: "x".into() });
    assert_eq!(e.to_string(), "Meta request error: The tenant x not found");
    assert_eq!(MockCoordinator::default().node_id(), 0);
}

#[test]
fn meta_error_messages() {
    assert_eq!(MetaError::RoleNotFound { role: "r".into() }.to_string(), "The role r not found");
    assert_eq!(
        MetaError::DatabaseNotFound { database: "db".into() }.to_string(),
        "Database not found: \"db\""
    );
    assert_eq!(
        MetaError::DatabaseAlreadyExists { database: "a\"b".into() }.to_string(),
        "Database \"a\\\"b\" already exists"
    );
    assert_eq!(MetaError::NotFoundNode { id: 42 }.to_string(), "Not Found Data Node: 42");
    assert_eq!(
        MetaError::Limit { action: "create".into(), name: "db".into(), max: "3".into() }.to_string(),
        "create fail: db reached limit, the maximum is 3"
    );
    assert_eq!(MetaError::NotFoundField.to_string(), "Not Found Field");
}

#[test]
fn vnode_requests() {
    let info = VnodeAllInfo { vnode_id: 5, node_id: 1, db_name: "db".into() };
    match vnode_manager_request("t", 5, VnodeManagerCmdType::Copy(1), &info) {
        Err(CoordinatorError::CommonError { msg }) => assert_eq!(msg, "Vnode: 5 Already in 1"),
        other => panic!("{:?}", other),
    }
    match vnode_manager_request("t", 5, VnodeManagerCmdType::Move(1), &info) {
        Err(CoordinatorError::CommonError { msg }) => assert_eq!(msg, "move vnode: 5 already in 1"),
        other => panic!("{:?}", other),
    }
    let (req, node) = vnode_manager_request("t", 5, VnodeManagerCmdType::Move(2), &info).unwrap();
    assert_eq!(node, 2);
    assert_eq!(req.tenant, "t");
    assert_eq!(req.stmt, AdminStatementType::MoveVnode { vnode_id: 5 });
    let (req, node) = vnode_manager_request("t", 5, VnodeManagerCmdType::Drop, &info).unwrap();
    assert_eq!(node, 1);
    assert_eq!(req.stmt, AdminStatementType::DeleteVnode { db: "db".into(), vnode_id: 5 });
    let (req, _) = vnode_manager_request("t", 5, VnodeManagerCmdType::Copy(3), &info).unwrap();
    assert_eq!(req.stmt, AdminStatementType::CopyVnode { vnode_id: 5 });
}

#[test]
fn vnode_lookup() {
    assert!(matches!(
        get_vnode_all_info("t", 9, None),
        Err(CoordinatorError::TenantNotFound { .. })
    ));
    assert_eq!(
        get_vnode_all_info("t", 9, Some(None)).unwrap_err(),
        CoordinatorError::VnodeNotFound { id: 9 }
    );
    let info = VnodeAllInfo { vnode_id: 9, node_id: 4, db_name: "d".into() };
    assert_eq!(get_vnode_all_info("t", 9, Some(Some(info.clone()))).unwrap(), info);
}

#[test]
fn expired_bucket_deletes_every_vnode_on_its_node() {
    let group = vec![
        ReplicationSet { id: 1, vnodes: vec![VnodeInfo { id: 10, node_id: 1 }, VnodeInfo { id: 11, node_id: 2 }] },
        ReplicationSet { id: 2, vnodes: vec![] },
        ReplicationSet { id: 3, vnodes: vec![VnodeInfo { id: 30, node_id: 3 }] },
    ];
    let reqs = expired_bucket_requests("t", "db", &group);
    let got: Vec<(AdminStatementType, u64)> = reqs.into_iter().map(|(r, n)| (r.stmt, n)).collect();
    assert_eq!(
        got,
        vec![
            (AdminStatementType::DeleteVnode { db: "db".into(), vnode_id: 10 }, 1),
            (AdminStatementType::DeleteVnode { db: "db".into(), vnode_id: 11 }, 2),
            (AdminStatementType::DeleteVnode { db: "db".into(), vnode_id: 30 }, 3),
        ]
    );
}

#[test]
fn meta_replies() {
    assert!(check_meta_reply("open meta", 0, "").is_ok());
    match check_meta_reply("create bucket", -3, "no nodes") {
        Err(MetaError::CommonError { msg }) => assert_eq!(msg, "create bucket err: -3 no nodes"),
        other => panic!("{:?}", other),
    }
    assert!(takes_reply_data(3, 4));
    assert!(!takes_reply_data(4, 4));
}

#[test]
fn error_code_of_wrapped_errors() {
    let e = CoordinatorError::Meta { source: "m".into(), source_code: "010009".into() };
    assert_eq!(e.error_code(), "010009");
    assert_eq!(e.to_string(), "Meta");
    let e = CoordinatorError::TskvError { source: "t".into(), source_code: "020001".into() };
    assert_eq!(e.error_code(), "020001");
    assert_eq!(CoordinatorError::VnodeNotFound { id: 1 }.error_code(), "050015");
}
