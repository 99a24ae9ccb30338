use medici_orders::error_logging::{site_error_text, throw_json_error};

#[test]
fn error_report_has_sorted_keys_and_compact_layout() {
    let text = throw_json_error("reqwest", &vec!["collections", "make_post_reqwest"], "main", "28", "failed to send");
    assert_eq!(
        text,
        "{\"error_function\":[\"collections\",\"make_post_reqwest\"],\"error_library\":\"reqwest\",\"error_line_number\":\"28\",\"error_src_file\":\"main\",\"error_type\":\"failed to send\"}"
    );
}

#[test]
fn error_report_with_empty_chain() {
    let text = throw_json_error("a", &vec![], "b", "1", "c");
    assert_eq!(
        text,
        "{\"error_function\":[],\"error_library\":\"a\",\"error_line_number\":\"1\",\"error_src_file\":\"b\",\"error_type\":\"c\"}"
    );
}

#[test]
fn error_report_escapes_strings() {
    let text = throw_json_error("q\"uote", &vec!["back\\slash"], "new\nline", "tab\t", "ctl\u{1}");
    let value: serde_json::Value = serde_json::from_str(&text).unwrap();
    assert_eq!(value["error_library"], "q\"uote");
    assert_eq!(value["error_function"][0], "back\\slash");
    assert_eq!(value["error_src_file"], "new\nline");
    assert_eq!(value["error_line_number"], "tab\t");
    assert_eq!(value["error_type"], "ctl\u{1}");
    assert!(text.contains("\\u0001"));
    assert!(text.contains("\\n"));
    assert!(text.contains("\\t"));
}

#[test]
fn error_report_matches_serde_json_object() {
    let mut map = serde_json::Map::new();
    map.insert("error_library".to_string(), serde_json::Value::from("Diesel"));
    map.insert(
        "error_function".to_string(),
        serde_json::Value::from(vec!["view_all_orders"]),
    );
    map.insert("error_src_file".to_string(), serde_json::Value::from("diesel_postgres"));
    map.insert("error_line_number".to_string(), serde_json::Value::from("229"));
    map.insert("error_type".to_string(), serde_json::Value::from("failed to fetch orders from Postgres"));
    let expected = serde_json::Value::Object(map).to_string();
    let text = site_error_text("Diesel", "view_all_orders", "diesel_postgres", "229", "failed to fetch orders from Postgres");
    assert_eq!(text, expected);
}
