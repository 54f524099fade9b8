use cnosdb::connection::{parse_connection_options, ConnectionOptions, OptionValue, UriSchema};
use cnosdb::planner::QueryError;

fn text(name: &str, v: &str) -> (String, OptionValue) {
    (name.to_string(), OptionValue::Str(v.to_string()))
}

fn flag(name: &str, v: bool) -> (String, OptionValue) {
    (name.to_string(), OptionValue::Bool(v))
}

fn semantic(r: Result<ConnectionOptions, QueryError>) -> String {
    match r {
        Err(QueryError::Semantic { err }) => err,
        Ok(o) => panic!("expected an error, got {:?}", o),
    }
}

#[test]
fn s3_options_fill_the_config() {
    let opts = vec![
        text("endpoint_url", "http://127.0.0.1:9000"),
        text("region", "us-east-1"),
        text("access_key_id", "id"),
        text("secret_key", "secret"),
        flag("virtual_hosted_style", true),
        text("region", "eu-west-1"),
    ];
    match parse_connection_options(&UriSchema::S3, Some("bkt"), opts).unwrap() {
        ConnectionOptions::S3(c) => {
            assert_eq!(c.bucket, "bkt");
            assert_eq!(c.endpoint_url.as_deref(), Some("http://127.0.0.1:9000"));
            assert_eq!(c.region.as_deref(), Some("eu-west-1"));
            assert_eq!(c.access_key_id.as_deref(), Some("id"));
            assert_eq!(c.secret_access_key.as_deref(), Some("secret"));
            assert_eq!(c.security_token, None);
            assert_eq!(c.virtual_hosted_style_request, Some(true));
        }
        other => panic!("{:?}", other),
    }
}

#[test]
fn gcs_and_azblob_options() {
    let opts = vec![text("client_email", "a@b"), flag("disable_oauth", false)];
    match parse_connection_options(&UriSchema::Gcs, Some("g"), opts).unwrap() {
        ConnectionOptions::Gcs(c) => {
            assert_eq!((c.bucket.as_str(), c.client_email.as_deref()), ("g", Some("a@b")));
            assert_eq!((c.disable_oauth, c.private_key, c.gcs_base_url), (Some(false), None, None));
        }
        other => panic!("{:?}", other),
    }
    let opts = vec![text("account", "acc"), flag("use_emulator", true)];
    match parse_connection_options(&UriSchema::Azblob, Some("c"), opts).unwrap() {
        ConnectionOptions::Azblob(c) => {
            assert_eq!((c.container_name.as_str(), c.account_name.as_deref()), ("c", Some("acc")));
            assert_eq!((c.use_emulator, c.access_key, c.bearer_token), (Some(true), None, None));
        }
        other => panic!("{:?}", other),
    }
}

#[test]
fn local_and_refused_locations() {
    let local = parse_connection_options(&UriSchema::Local, None, vec![text("anything", "x")]);
    assert_eq!(local.unwrap(), ConnectionOptions::Local);
    let custom = parse_connection_options(&UriSchema::Custom("ftp".into()), Some("b"), vec![]);
    assert_eq!(semantic(custom), "Unsupported url schema [ftp]");
    assert_eq!(semantic(parse_connection_options(&UriSchema::S3, None, vec![])), "Lost bucket in url");
}

#[test]
fn unknown_or_mistyped_options_are_refused() {
    let r = parse_connection_options(&UriSchema::S3, Some("b"), vec![text("region", "r"), text("color", "red")]);
    assert_eq!(semantic(r), "Unsupported option [color]");
    let r = parse_connection_options(&UriSchema::Gcs, Some("b"), vec![text("region", "r")]);
    assert_eq!(semantic(r), "Unsupported option [region]");
    let r = parse_connection_options(&UriSchema::Azblob, Some("b"), vec![text("use_emulator", "yes")]);
    assert_eq!(semantic(r), "Expected a boolean value for option [use_emulator]");
    let r = parse_connection_options(&UriSchema::S3, Some("b"), vec![flag("token", true)]);
    assert_eq!(semantic(r), "Expected a string value for option [token]");
}
