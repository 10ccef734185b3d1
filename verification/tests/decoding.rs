use bigquery_edge::response::{decode_body, decode_response, read_rows, read_schema};
use bigquery_edge::decimal::parse_integer;
use bigquery_edge::table::{
    decode, decode_cell, decode_row, integer_cell, DecodeError, RecordEntry, SchemaField,
    StructuredRecord, TypedValue,
};

fn field(name: &str, declared_type: &str) -> SchemaField {
    SchemaField { name: name.to_string(), declared_type: declared_type.to_string() }
}

fn cell(text: &str) -> Option<String> {
    Some(text.to_string())
}

fn entry(name: &str, value: TypedValue) -> RecordEntry {
    RecordEntry { name: name.to_string(), value }
}

#[test]
fn integer_cell_is_parsed_under_the_same_name() {
    let fields = vec![field("score", "INTEGER")];
    let rows = vec![vec![cell("42")]];
    let records = decode(&fields, &rows).unwrap();
    assert_eq!(
        records,
        vec![StructuredRecord { entries: vec![entry("score", TypedValue::Integer(42))] }]
    );
}

#[test]
fn integer_cell_defaults_to_zero() {
    let score = field("score", "INTEGER");
    assert_eq!(decode_cell(&score, &None), Some(TypedValue::Integer(0)));
    assert_eq!(decode_cell(&score, &cell("forty-two")), Some(TypedValue::Integer(0)));
    assert_eq!(decode_cell(&score, &cell("-7")), Some(TypedValue::Integer(-7)));
    assert_eq!(integer_cell(None), 0);
    assert_eq!(integer_cell(Some(9)), 9);
}

#[test]
fn only_the_payload_column_is_percent_decoded() {
    let fields = vec![field("update", "STRING"), field("term", "STRING")];
    let rows = vec![vec![cell("a%20b%22c"), cell("a%20b")]];
    let records = decode(&fields, &rows).unwrap();
    assert_eq!(
        records[0].entries,
        vec![
            entry("update", TypedValue::Text("a b\"c".to_string())),
            entry("term", TypedValue::Text("a%20b".to_string())),
        ]
    );
}

#[test]
fn payload_column_of_integer_type_is_an_integer() {
    let fields = vec![field("update", "INTEGER")];
    let rows = vec![vec![cell("12")]];
    let records = decode(&fields, &rows).unwrap();
    assert_eq!(records[0].entries, vec![entry("update", TypedValue::Integer(12))]);
}

#[test]
fn payload_that_is_not_utf8_is_refused() {
    let update = field("update", "STRING");
    assert_eq!(decode_cell(&update, &cell("%ff%fe")), None);
    assert_eq!(decode(&vec![update], &vec![vec![cell("%ff%fe")]]), Err(DecodeError::BadEscape));
}

#[test]
fn absent_text_cell_is_empty() {
    let term = field("term", "STRING");
    assert_eq!(decode_cell(&term, &None), Some(TypedValue::Text(String::new())));
}

#[test]
fn cell_count_must_match_the_schema() {
    let fields = vec![field("a", "STRING"), field("b", "STRING")];
    assert_eq!(decode_row(&fields, &vec![cell("x")]), Err(DecodeError::CellCountMismatch));
    assert_eq!(
        decode_row(&fields, &vec![cell("x"), cell("y"), cell("z")]),
        Err(DecodeError::CellCountMismatch)
    );
    assert_eq!(
        decode(&fields, &vec![vec![cell("x"), cell("y")], vec![cell("x")]]),
        Err(DecodeError::CellCountMismatch)
    );
}

#[test]
fn rows_and_fields_keep_their_order() {
    let fields = vec![field("term", "STRING"), field("rank", "INTEGER")];
    let rows = vec![vec![cell("b"), cell("2")], vec![cell("a"), cell("1")]];
    let records = decode(&fields, &rows).unwrap();
    assert_eq!(records.len(), 2);
    assert_eq!(
        records[0].entries,
        vec![entry("term", TypedValue::Text("b".to_string())), entry("rank", TypedValue::Integer(2))]
    );
    assert_eq!(
        records[1].entries,
        vec![entry("term", TypedValue::Text("a".to_string())), entry("rank", TypedValue::Integer(1))]
    );
}

#[test]
fn no_rows_give_no_records() {
    let fields = vec![field("term", "STRING")];
    assert_eq!(decode(&fields, &Vec::new()), Ok(Vec::new()));
}

#[test]
fn decoding_twice_gives_the_same_records() {
    let fields = vec![field("update", "STRING"), field("rank", "INTEGER")];
    let rows = vec![vec![cell("x%2Fy"), cell("3")], vec![None, None]];
    let first = decode(&fields, &rows);
    let second = decode(&fields, &rows);
    assert!(first.is_ok());
    assert_eq!(first, second);
}

const BODY: &str = "{\"schema\":{\"fields\":[{\"name\":\"term\",\"type\":\"STRING\"},{\"name\":\"score\",\"type\":\"INTEGER\"},{\"name\":\"update\",\"type\":\"STRING\"}]},\"rows\":[{\"f\":[{\"v\":\"rust%20lang\"},{\"v\":\"42\"},{\"v\":\"a%20b\"}]},{\"f\":[{\"v\":null},{\"v\":null},{\"v\":null}]}]}";

#[test]
fn response_body_is_decoded() {
    let records = decode_body(BODY).unwrap();
    assert_eq!(records.len(), 2);
    assert_eq!(
        records[0].entries,
        vec![
            entry("term", TypedValue::Text("rust%20lang".to_string())),
            entry("score", TypedValue::Integer(42)),
            entry("update", TypedValue::Text("a b".to_string())),
        ]
    );
    assert_eq!(
        records[1].entries,
        vec![
            entry("term", TypedValue::Text(String::new())),
            entry("score", TypedValue::Integer(0)),
            entry("update", TypedValue::Text(String::new())),
        ]
    );
}

#[test]
fn schema_and_rows_are_read_from_the_document() {
    let doc: serde_json::Value = serde_json::from_str(BODY).unwrap();
    assert_eq!(
        read_schema(&doc),
        Ok(vec![field("term", "STRING"), field("score", "INTEGER"), field("update", "STRING")])
    );
    assert_eq!(
        read_rows(&doc),
        Some(Ok(vec![vec![cell("rust%20lang"), cell("42"), cell("a%20b")], vec![None, None, None]]))
    );
}

#[test]
fn schema_without_rows_is_an_empty_result() {
    let body = "{\"schema\":{\"fields\":[{\"name\":\"term\",\"type\":\"STRING\"}]}}";
    assert_eq!(decode_body(body), Ok(Vec::new()));
    let doc: serde_json::Value = serde_json::from_str(body).unwrap();
    assert_eq!(read_rows(&doc), None);
    assert_eq!(decode_response(&doc), Ok(Vec::new()));
}

#[test]
fn body_that_is_not_json_is_a_decode_error() {
    assert_eq!(decode_body("<html>busy</html>"), Err(DecodeError::NotJson));
    assert_eq!(decode_body(""), Err(DecodeError::NotJson));
}

#[test]
fn missing_schema_is_a_decode_error() {
    assert_eq!(decode_body("{\"rows\":[]}"), Err(DecodeError::MissingSchema));
    assert_eq!(decode_body("{\"schema\":{}}"), Err(DecodeError::MissingSchema));
    assert_eq!(decode_body("{\"schema\":{\"fields\":7}}"), Err(DecodeError::MissingSchema));
}

#[test]
fn field_without_a_name_is_a_decode_error() {
    let body = "{\"schema\":{\"fields\":[{\"type\":\"STRING\"}]},\"rows\":[]}";
    assert_eq!(decode_body(body), Err(DecodeError::MalformedField));
}

#[test]
fn field_without_a_type_is_text() {
    let body = "{\"schema\":{\"fields\":[{\"name\":\"term\"}]},\"rows\":[{\"f\":[{\"v\":\"7\"}]}]}";
    let records = decode_body(body).unwrap();
    assert_eq!(records[0].entries, vec![entry("term", TypedValue::Text("7".to_string()))]);
}

#[test]
fn row_without_cells_is_a_decode_error() {
    let body = "{\"schema\":{\"fields\":[{\"name\":\"term\",\"type\":\"STRING\"}]},\"rows\":[{\"g\":[]}]}";
    assert_eq!(decode_body(body), Err(DecodeError::MalformedRow));
}

#[test]
fn row_with_too_few_cells_is_a_decode_error() {
    let body = "{\"schema\":{\"fields\":[{\"name\":\"term\",\"type\":\"STRING\"}]},\"rows\":[{\"f\":[]}]}";
    assert_eq!(decode_body(body), Err(DecodeError::CellCountMismatch));
}

#[test]
fn integers_are_read_in_decimal() {
    assert_eq!(parse_integer("42"), Some(42));
    assert_eq!(parse_integer("0"), Some(0));
    assert_eq!(parse_integer("007"), Some(7));
    assert_eq!(parse_integer("+5"), Some(5));
    assert_eq!(parse_integer("-0"), Some(0));
    assert_eq!(parse_integer("-15"), Some(-15));
    assert_eq!(parse_integer("9223372036854775807"), Some(i64::MAX));
    assert_eq!(parse_integer("-9223372036854775808"), Some(i64::MIN));
}

#[test]
fn what_is_no_decimal_integer_is_not_read() {
    assert_eq!(parse_integer(""), None);
    assert_eq!(parse_integer("-"), None);
    assert_eq!(parse_integer("+"), None);
    assert_eq!(parse_integer(" 1"), None);
    assert_eq!(parse_integer("1 "), None);
    assert_eq!(parse_integer("1.5"), None);
    assert_eq!(parse_integer("--1"), None);
    assert_eq!(parse_integer("1_000"), None);
    assert_eq!(parse_integer("9223372036854775808"), None);
    assert_eq!(parse_integer("-9223372036854775809"), None);
    assert_eq!(parse_integer("99999999999999999999999999999999999999999"), None);
}

#[test]
fn integers_are_read_as_the_standard_library_reads_them() {
    for text in ["42", "-7", "+5", "", "-", "0x10", "12a", "18446744073709551616", "-0"] {
        assert_eq!(parse_integer(text), text.parse::<i64>().ok());
    }
}

#[test]
fn integer_cell_out_of_range_is_zero() {
    let score = field("score", "INTEGER");
    assert_eq!(decode_cell(&score, &cell("9223372036854775808")), Some(TypedValue::Integer(0)));
}
