use cnosdb::result_format::{HttpError, ResultFormat};

fn reason(r: Result<ResultFormat, HttpError>) -> String {
    match r {
        Err(HttpError::InvalidHeader { reason }) => reason,
        Ok(f) => panic!("unexpected {:?}", f),
    }
}

#[test]
fn accept_defaults_to_csv() {
    assert_eq!(ResultFormat::try_from("").unwrap(), ResultFormat::Csv);
    assert_eq!(ResultFormat::try_from("application/*").unwrap(), ResultFormat::Csv);
    assert_eq!(ResultFormat::try_from("*/*").unwrap(), ResultFormat::Csv);
}

#[test]
fn accept_names_a_format_in_any_case() {
    assert_eq!(ResultFormat::try_from("application/json").unwrap(), ResultFormat::Json);
    assert_eq!(ResultFormat::try_from("application/ND-JSON").unwrap(), ResultFormat::NdJson);
    assert_eq!(ResultFormat::try_from("application/Table").unwrap(), ResultFormat::Table);
    assert_eq!(ResultFormat::from_str("TSV").unwrap(), ResultFormat::Tsv);
}

#[test]
fn accept_errors() {
    assert_eq!(reason(ResultFormat::try_from("application/xml")), "invalid variant: xml");
    assert_eq!(reason(ResultFormat::try_from("text/html")), "accept type not support: text/html");
    assert_eq!(ResultFormat::from_str("ndjson").unwrap_err(), "invalid variant: ndjson");
}

#[test]
fn content_type_chooses_the_same_format() {
    for f in [ResultFormat::Csv, ResultFormat::Tsv, ResultFormat::Json, ResultFormat::NdJson, ResultFormat::Table] {
        assert_eq!(ResultFormat::try_from(f.get_http_content_type()).unwrap(), f);
    }
    assert_eq!(ResultFormat::NdJson.get_http_content_type(), "application/nd-json");
    assert_eq!(ResultFormat::Csv.get_http_content_type(), "application/csv");
}
