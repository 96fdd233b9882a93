use umami_cli::json::{Json, JsonNumber};
use umami_cli::output::{format_table, val_str};

fn object(fields: Vec<(&str, Json)>) -> Json {
    Json::Object(fields.into_iter().map(|(k, v)| (k.to_string(), v)).collect())
}

#[test]
fn val_str_extracts_string() {
    let v = object(vec![("name", Json::String("hello".to_string()))]);
    assert_eq!(val_str(&v, "name"), "hello");
}

#[test]
fn val_str_extracts_number() {
    let v = object(vec![("count", Json::Number(JsonNumber::PosInt(42)))]);
    assert_eq!(val_str(&v, "count"), "42");
}

#[test]
fn val_str_extracts_bool() {
    let v = object(vec![("active", Json::Bool(true))]);
    assert_eq!(val_str(&v, "active"), "true");
}

#[test]
fn val_str_missing_key_returns_dash() {
    let v = object(vec![("name", Json::String("hello".to_string()))]);
    assert_eq!(val_str(&v, "missing"), "—");
}

#[test]
fn val_str_null_returns_dash() {
    let v = object(vec![("name", Json::Null)]);
    assert_eq!(val_str(&v, "name"), "—");
}

#[test]
fn val_str_nested_object_returns_json() {
    let v = object(vec![("nested", object(vec![("a", Json::Number(JsonNumber::PosInt(1)))]))]);
    let result = val_str(&v, "nested");
    assert!(result.contains("\"a\""));
}

#[test]
fn val_str_nested_object_is_compact_json() {
    let v = object(vec![("nested", object(vec![("a", Json::Number(JsonNumber::PosInt(1)))]))]);
    assert_eq!(val_str(&v, "nested"), "{\"a\":1}");
}

#[test]
fn val_str_negative_number_and_float() {
    let v = object(vec![
        ("n", Json::Number(JsonNumber::NegInt(-17))),
        ("f", Json::Number(JsonNumber::Float("1.5".to_string()))),
    ]);
    assert_eq!(val_str(&v, "n"), "-17");
    assert_eq!(val_str(&v, "f"), "1.5");
}

#[test]
fn val_str_array_and_escapes() {
    let v = object(vec![(
        "tags",
        Json::Array(vec![Json::String("a\"b".to_string()), Json::String("line\nbreak".to_string()), Json::Null]),
    )]);
    assert_eq!(val_str(&v, "tags"), "[\"a\\\"b\",\"line\\nbreak\",null]");
}

#[test]
fn val_str_of_non_object_is_dash() {
    let v = Json::String("plain".to_string());
    assert_eq!(val_str(&v, "name"), "—");
}

#[test]
fn table_columns_are_padded_to_widest_cell() {
    let headers = vec!["ID".to_string(), "NAME".to_string()];
    let rows = vec![
        vec!["web-1".to_string(), "My Site".to_string()],
        vec!["w2".to_string(), "Blog".to_string()],
    ];
    let lines = format_table(&headers, &rows);
    assert_eq!(lines, vec![
        "ID     NAME   ".to_string(),
        "web-1  My Site".to_string(),
        "w2     Blog   ".to_string(),
    ]);
}

#[test]
fn table_width_counts_characters_not_bytes() {
    let headers = vec!["A".to_string(), "B".to_string()];
    let rows = vec![vec!["—".to_string(), "x".to_string()], vec!["ab".to_string(), "y".to_string()]];
    let lines = format_table(&headers, &rows);
    assert_eq!(lines, vec!["A   B".to_string(), "—   x".to_string(), "ab  y".to_string()]);
}

#[test]
fn table_without_rows_is_its_header() {
    let headers = vec!["ID".to_string(), "NAME".to_string()];
    let lines = format_table(&headers, &Vec::new());
    assert_eq!(lines, vec!["ID  NAME".to_string()]);
}
