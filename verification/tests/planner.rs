use cnosdb::planner::{normalize_ident, Ident};
use cnosdb::merge_limit::MergeLimitWithSortRule;
use cnosdb::planner::{CopyOptionsBuilder, QueryError};

#[test]
fn copy_options_default_and_given() {
    assert!(!CopyOptionsBuilder::default().build().auto_infer_schema);
    let b = CopyOptionsBuilder::new()
        .apply_options(vec![("auto_infer_schema".to_string(), true)])
        .unwrap();
    assert!(b.build().auto_infer_schema);
    let b = CopyOptionsBuilder::new()
        .apply_options(vec![
            ("auto_infer_schema".to_string(), true),
            ("auto_infer_schema".to_string(), false),
        ])
        .unwrap();
    assert!(!b.build().auto_infer_schema);
}

#[test]
fn copy_options_unknown() {
    let r = CopyOptionsBuilder::new().apply_options(vec![
        ("auto_infer_schema".to_string(), true),
        ("delimiter".to_string(), true),
        ("other".to_string(), true),
    ]);
    match r {
        Err(QueryError::Semantic { err }) => assert_eq!(err, "Unsupported option [delimiter]"),
        Ok(_) => panic!("accepted an unknown option"),
    }
}

#[test]
fn merge_limit_with_sort() {
    let rule = MergeLimitWithSortRule {};
    assert_eq!(rule.name(), "merge_limit_with_sort");
    assert_eq!(rule.merge(5, Some(250), true), Some((5, 250)));
    assert_eq!(rule.merge(5, Some(251), true), None);
    assert_eq!(rule.merge(0, Some(10), false), None);
    assert_eq!(rule.merge(0, None, true), None);
    assert_eq!(rule.merge(usize::MAX, Some(1), true), None);
}

#[test]
fn identifiers_are_lowered_unless_quoted() {
    let plain = Ident { value: "MyTable_Ä1".to_string(), quote_style: None };
    assert_eq!(normalize_ident(&plain), "mytable_Ä1");
    let quoted = Ident { value: "MyTable".to_string(), quote_style: Some('"') };
    assert_eq!(normalize_ident(&quoted), "MyTable");
}
