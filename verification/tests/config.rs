use cnosdb::config::{HintedOffConfig, SecurityConfig, TLSConfig, WalConfig};

fn items(v: &[cnosdb::config::CheckConfigItemResult]) -> Vec<(String, String, String)> {
    v.iter().map(|i| (i.config.clone(), i.item.clone(), i.message.clone())).collect()
}

#[test]
fn config_defaults() {
    let h = HintedOffConfig::default();
    assert!(h.enable);
    assert_eq!(h.path, "/var/lib/cnosdb/hh");
    assert_eq!(h.threads, 3);
    let t = TLSConfig::default();
    assert_eq!(t.certificate, "/etc/cnosdb/tls/server.crt");
    assert_eq!(t.private_key, "/etc/cnosdb/tls/server.key");
    let w = WalConfig::default();
    assert_eq!(w.path, "cnosdb_data/wal");
    assert_eq!(w.wal_req_channel_cap, 64);
    assert_eq!(w.max_file_size, 1024 * 1024 * 1024);
    assert!(!w.sync);
    assert!(SecurityConfig::default().tls_config.is_none());
}

#[test]
fn hinted_off_check_warns_on_empty_path_when_enabled() {
    let mut h = HintedOffConfig::default();
    assert!(h.check().is_none());
    h.path = String::new();
    let r = h.check().unwrap();
    assert_eq!(
        items(r.warnings()),
        vec![("hinted_off".to_string(), "path".to_string(), "'path' is empty".to_string())]
    );
    assert!(r.errors().is_empty());
    h.enable = false;
    assert!(h.check().is_none());
}

#[test]
fn tls_check_reports_each_empty_path() {
    let t = TLSConfig { certificate: String::new(), private_key: String::new() };
    let r = t.check().unwrap();
    assert!(r.warnings().is_empty());
    assert_eq!(
        items(r.errors()),
        vec![
            ("security.tls".to_string(), "certificate".to_string(), "'certificate' is empty".to_string()),
            ("security.tls".to_string(), "private_key".to_string(), "'private_key' is empty".to_string()),
        ]
    );
    assert!(TLSConfig::default().check().is_none());
}

#[test]
fn security_check_answers_some_when_clean() {
    assert!(SecurityConfig { tls_config: None }.check().unwrap().is_empty());
    assert!(SecurityConfig { tls_config: Some(TLSConfig::default()) }.check().is_some());
    let bad = TLSConfig { certificate: String::new(), private_key: "k".to_string() };
    assert!(SecurityConfig { tls_config: Some(bad) }.check().is_none());
}

#[test]
fn wal_check() {
    let mut w = WalConfig::default();
    assert!(w.check().is_none());
    w.path = String::new();
    w.wal_req_channel_cap = 15;
    let r = w.check().unwrap();
    assert_eq!(
        items(r.errors()),
        vec![("wal".to_string(), "path".to_string(), "'path' is empty".to_string())]
    );
    assert_eq!(
        items(r.warnings()),
        vec![(
            "wal".to_string(),
            "wal_req_channel_cap".to_string(),
            "'wal_req_channel_cap' maybe too small(less than 16)".to_string()
        )]
    );
    w.path = "p".to_string();
    w.wal_req_channel_cap = 16;
    assert!(w.check().is_none());
}

#[test]
fn tls_override_takes_certificate_before_key() {
    let cur = Some(TLSConfig { certificate: "c".to_string(), private_key: "k".to_string() });
    let r = TLSConfig::override_with(cur.clone(), Some("c2".to_string()), Some("k2".to_string())).unwrap();
    assert_eq!((r.certificate.as_str(), r.private_key.as_str()), ("c2", "k"));
    let r = TLSConfig::override_with(cur.clone(), None, Some("k2".to_string())).unwrap();
    assert_eq!((r.certificate.as_str(), r.private_key.as_str()), ("c", "k2"));
    assert_eq!(TLSConfig::override_with(cur.clone(), None, None), cur);
    assert_eq!(TLSConfig::override_with(None, None, None), None);
    let r = TLSConfig::override_with(None, None, Some("k".to_string())).unwrap();
    assert_eq!((r.certificate.as_str(), r.private_key.as_str()), ("", "k"));
    let mut s = SecurityConfig { tls_config: None };
    s.override_with(Some("c".to_string()), None);
    assert_eq!(s.tls_config.unwrap().certificate, "c");
}

#[test]
fn hinted_off_override() {
    let mut h = HintedOffConfig::default();
    h.override_with(Some(false), None, Some(8));
    assert!(!h.enable);
    assert_eq!(h.path, "/var/lib/cnosdb/hh");
    assert_eq!(h.threads, 8);
}
