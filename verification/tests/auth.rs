use cnosdb::privilege::{
    construct_write_db_privilege, DatabasePrivilege, GlobalPrivilege, Privilege, TenantObjectPrivilege,
    UserRole,
};
use cnosdb::user::{
    admin_user, AuthError, AuthType, User, UserDesc, UserInfo, UserOptions, UserOptionsBuilder,
    UserOptionsBuilderError,
};

fn desc(id: u128, name: &str) -> UserDesc {
    UserDesc::new(id, name.to_string(), UserOptions::new(), false)
}

#[test]
fn write_privilege_and_checks() {
    let p = construct_write_db_privilege(7, "db1");
    assert_eq!(
        p,
        Privilege::TenantObject(
            TenantObjectPrivilege::Database(DatabasePrivilege::Write, Some("db1".to_string())),
            Some(7)
        )
    );
    let full = Privilege::TenantObject(TenantObjectPrivilege::Database(DatabasePrivilege::Full, None), Some(7));
    let u = User::new(desc(1, "u"), vec![full], None);
    assert!(u.check_privilege(&p));
    assert!(u.can_read_database(7, "anything"));
    assert!(!u.can_read_database(8, "anything"));
    assert!(!u.can_access_system(7));
    // every user may change itself
    assert!(u.check_privilege(&Privilege::Global(GlobalPrivilege::User(Some(1)))));
    assert!(!u.check_privilege(&Privilege::Global(GlobalPrivilege::User(Some(2)))));
    let reader = User::new(
        desc(2, "r"),
        vec![Privilege::TenantObject(
            TenantObjectPrivilege::Database(DatabasePrivilege::Read, Some("db1".to_string())),
            Some(7),
        )],
        None,
    );
    assert!(reader.can_read_database(7, "db1"));
    assert!(!reader.check_privilege(&p));
}

#[test]
fn admin_may_do_everything() {
    let a = admin_user(desc(3, "root"), None);
    assert!(a.can_access_system(42));
    assert!(a.can_access_role(42));
    assert!(a.check_privilege(&construct_write_db_privilege(42, "x")));
    assert!(a.check_privilege(&Privilege::Global(GlobalPrivilege::Tenant(Some(9)))));
    assert_eq!(UserRole::Dba.to_privileges().len(), 7);
    assert!(UserRole::Public.to_privileges().is_empty());
}

#[test]
fn password_hash_then_check() {
    let mut b = UserOptionsBuilder::new();
    b.password("secret").unwrap();
    let options = b.build().unwrap();
    let hash = options.hash_password().unwrap().to_string();
    assert!(hash.starts_with("$2"));
    let auth = AuthType::from_options(&options);
    let no_rsa = |_: &str, _: &str, _: &str| -> Result<bool, AuthError> { Ok(false) };
    let good = UserInfo { user: "u".into(), password: "secret".into(), private_key: None };
    assert!(auth.access_check(&good, no_rsa).is_ok());
    let bad = UserInfo { user: "u".into(), password: "wrong".into(), private_key: None };
    match auth.access_check(&bad, no_rsa) {
        Err(AuthError::AccessDenied { user_name, auth_type, err }) => {
            assert_eq!((user_name.as_str(), auth_type.as_str()), ("u", "password"));
            assert_eq!(err, "incorrect password attempt.");
        }
        other => panic!("{:?}", other),
    }
    let broken = AuthType::HashPassword(Some("not a hash"));
    assert!(matches!(broken.access_check(&good, no_rsa), Err(AuthError::Verification { .. })));
    let unset = AuthType::HashPassword(None);
    assert!(matches!(unset.access_check(&good, no_rsa), Err(AuthError::PasswordNotSet)));
}

#[test]
fn rsa_check() {
    let rsa = AuthType::Rsa("PUBLIC");
    let verify = |k: &str, p: &str, pk: &str| -> Result<bool, AuthError> {
        Ok(k == "PRIVATE" && p == "pw" && pk == "PUBLIC")
    };
    let no_key = UserInfo { user: "u".into(), password: "pw".into(), private_key: None };
    match rsa.access_check(&no_key, verify) {
        Err(AuthError::AccessDenied { err, .. }) => assert_eq!(err, "client no private key"),
        other => panic!("{:?}", other),
    }
    let ok = UserInfo { user: "u".into(), password: "pw".into(), private_key: Some("PRIVATE".into()) };
    assert!(rsa.access_check(&ok, verify).is_ok());
    let wrong = UserInfo { user: "u".into(), password: "pw".into(), private_key: Some("OTHER".into()) };
    match rsa.access_check(&wrong, verify) {
        Err(AuthError::AccessDenied { err, auth_type, .. }) => {
            assert_eq!((err.as_str(), auth_type.as_str()), ("invalid certificate", "RSA"))
        }
        other => panic!("{:?}", other),
    }
}

#[test]
fn options_merge_and_hide() {
    let mut b = UserOptionsBuilder::new();
    b.comment("left".to_string()).must_change_password(true);
    let left = b.build().unwrap();
    let mut b = UserOptionsBuilder::new();
    b.comment("right".to_string()).granted_admin(true);
    let right = b.build().unwrap();
    let m = left.merge(right);
    assert_eq!(m.comment(), Some("left"));
    assert_eq!(m.granted_admin(), Some(true));
    assert_eq!(m.must_change_password(), Some(true));
    let mut h = UserOptionsBuilder::new();
    h.hash_password("h".to_string());
    let mut o = h.build().unwrap();
    o.hidden_password();
    assert_eq!(o.hash_password(), Some("*****"));
    let d = UserDesc::new(1, "a".into(), UserOptions::new(), true);
    assert!(d.is_root_admin() && d.is_admin());
    let e = d.clone().rename("b".into());
    assert_eq!(e.name(), "b");
    assert!(!d.same_user(&e));
    assert!(d.same_user(&d.clone()));
}

#[test]
fn a_hashing_failure_keeps_its_text() {
    let mut b = UserOptionsBuilder::new();
    b.comment("c".to_string());
    let r = b.set_password_hash(Err("random source failed".to_string()));
    assert!(matches!(r, Err(UserOptionsBuilderError::ValidationError(ref m)) if m == "random source failed"));
    let o = b.build().unwrap();
    assert_eq!((o.hash_password(), o.comment()), (None, Some("c")));
    assert!(b.set_password_hash(Ok("$2b$12$abc".to_string())).is_ok());
    assert_eq!(b.build().unwrap().hash_password(), Some("$2b$12$abc"));
}
