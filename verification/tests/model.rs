use cnosdb::column::{
    ColumnType, Encoding, Geometry, GeometryType, PhysicalCType, PhysicalDType, Precision, TimeUnit,
    ValueType,
};
use cnosdb::hex::{append_hex, parse_radix16, IntErrorKind};
use cnosdb::limiter::RequestLimiterKind;
use cnosdb::schema::{is_time_column, TableColumn, TskvTableSchema};
use cnosdb::sort::sort_u32;
use cnosdb::text::{append_decimal, append_signed_decimal, str_eq};

fn schema() -> TskvTableSchema {
    TskvTableSchema::new(
        "t".into(),
        "db".into(),
        "tb".into(),
        vec![
            TableColumn::new_time_column(0, TimeUnit::Millisecond),
            TableColumn::new_tag_column(1, "host".into()),
            TableColumn::new(2, "cpu".into(), ColumnType::Field(ValueType::Float), Encoding::Gorilla),
        ],
    )
}

#[test]
fn schema_lookups() {
    let s = schema();
    assert_eq!(s.column_index("cpu"), Some(2));
    assert!(s.contains_column("host"));
    assert!(!s.contains_column("mem"));
    assert_eq!(s.column_name(1), Some("host"));
    assert_eq!(s.field_num(), 1);
    assert_eq!(s.tag_num(), 1);
    assert_eq!(s.tag_indices(), vec![1]);
    assert_eq!(s.column_ids(), vec![0, 1, 2]);
    assert_eq!(s.time_column_precision(), Precision::MS);
    assert_eq!(s.next_column_id(), 3);
    assert!(is_time_column("time"));
    assert!(!is_time_column("Time"));
}

#[test]
fn schema_add_then_lookup_and_drop() {
    let mut s = schema();
    s.add_column(TableColumn::new(9, "mem".into(), ColumnType::Field(ValueType::Integer), Encoding::Delta));
    assert_eq!(s.column("mem").unwrap().id, 9);
    assert_eq!(s.column_index("cpu"), Some(2));
    assert_eq!(s.next_column_id(), 4);
    // a second column of an indexed name is not added
    s.add_column(TableColumn::new_tag_column(10, "host".into()));
    assert_eq!(s.columns().len(), 4);
    assert_eq!(s.next_column_id(), 5);
    s.drop_column("cpu");
    assert!(!s.contains_column("cpu"));
    assert_eq!(s.column_index("mem"), Some(2));
    let d = TskvTableSchema::default();
    assert_eq!((d.tenant.as_str(), d.db.as_str(), d.name.as_str()), ("cnosdb", "public", "template"));
    assert!(d.columns().is_empty());
}

#[test]
fn column_types() {
    assert_eq!(ColumnType::Tag.as_str(), "TAG");
    assert_eq!(ColumnType::Time(TimeUnit::Nanosecond).to_string(), "TimestampNanosecond");
    assert_eq!(ColumnType::Field(ValueType::Unsigned).to_sql_type_str_with_unit(), "BIGINT UNSIGNED");
    assert_eq!(ColumnType::Time(TimeUnit::Second).precision(), None);
    for code in 0..5 {
        let t = ColumnType::from_proto_field_type(code);
        assert_eq!(t.field_type() as i32, code);
    }
    assert_eq!(ColumnType::from_proto_field_type(9), ColumnType::Field(ValueType::Unknown));
    let g = ColumnType::Field(ValueType::Geometry(Geometry { sub_type: GeometryType::Point, srid: 0 }));
    assert!(g.matches_type(&ColumnType::Field(ValueType::String)));
    assert!(!ColumnType::Field(ValueType::String).matches_type(&g));
}

#[test]
fn hex_rules() {
    assert_eq!(parse_radix16(b"ff", u64::MAX as u128), Ok(255));
    assert_eq!(parse_radix16(b"+F", 255), Ok(15));
    assert_eq!(parse_radix16(b"", 255).unwrap_err().kind, IntErrorKind::Empty);
    assert_eq!(parse_radix16(b"+", 255).unwrap_err().kind, IntErrorKind::InvalidDigit);
    assert_eq!(parse_radix16(b"1g", 255).unwrap_err().kind, IntErrorKind::InvalidDigit);
    assert_eq!(parse_radix16(b"100", 255).unwrap_err().kind, IntErrorKind::PosOverflow);
    let mut s = String::new();
    append_hex(&mut s, 0x8e813572f53b3a);
    assert_eq!(s, "8e813572f53b3a");
}

#[test]
fn text_helpers() {
    assert!(str_eq("ab", "ab"));
    assert!(!str_eq("ab", "abc"));
    let mut s = String::from("n=");
    append_decimal(&mut s, 1203);
    append_signed_decimal(&mut s, -7);
    assert_eq!(s, "n=1203-7");
    assert_eq!(sort_u32(vec![3, 1, 2, 1]), vec![1, 1, 2, 3]);
    assert_eq!(RequestLimiterKind::HttpDataOut.to_string(), "HttpDataOut");
    assert_eq!(RequestLimiterKind::CoordWrites.to_string(), "CoordWrites");
}

#[test]
fn schema_change_and_more_lookups() {
    let mut s = schema();
    s.change_column("cpu", TableColumn::new(2, "load".into(), ColumnType::Field(ValueType::Float), Encoding::Gorilla));
    assert!(!s.contains_column("cpu"));
    assert_eq!(s.column_index("load"), Some(2));
    assert_eq!(s.column_by_index(1).unwrap().name, "host");
    assert!(s.column_by_index(3).is_none());
    let ids = s.fields_id();
    assert_eq!(ids.get(&2), Some(&0));
    assert_eq!(ids.len(), 1);
    assert!(!TableColumn::new_time_column(0, TimeUnit::Second).nullable());
    assert!(TableColumn::new_tag_column(1, "h".into()).nullable());
    let c = TableColumn::new_with_default("x".into(), ColumnType::Tag);
    assert_eq!((c.id, c.encoding), (0, Encoding::Default));
    assert_eq!(PhysicalCType::default_time(), PhysicalCType::Time(TimeUnit::Nanosecond));
    assert_eq!(PhysicalCType::Tag.to_physical_data_type(), PhysicalDType::String);
    assert_eq!(ColumnType::Time(TimeUnit::Second).as_column_type_str(), "TIME");
    assert_eq!(ColumnType::from_value_type(ValueType::Boolean), ColumnType::Field(ValueType::Boolean));
    let t = TskvTableSchema::new_test();
    assert_eq!(t.columns().len(), 1);
}

#[test]
fn columns_by_id_keep_the_later_of_a_repeated_id() {
    let a = TableColumn::new_tag_column(1, "a".into());
    let b = TableColumn::new_tag_column(2, "b".into());
    let c = TableColumn::new_tag_column(1, "c".into());
    let schema = TskvTableSchema::new("t".into(), "db".into(), "tb".into(), vec![a, b.clone(), c.clone()]);
    let m = schema.column_id_column_map();
    assert_eq!(m.len(), 2);
    assert_eq!(m[&1], &c);
    assert_eq!(m[&2], &b);
}
