use metadata_registry::error::ErrorKind;
use metadata_registry::json::{names_of_json, parse_json, tables_of_data, JsonValue};

#[test]
fn tables_are_the_names_under_data() {
    let data = r#"[
        {"id": "1", "data": {"name": "users", "rows": []}},
        {"id": "2", "data": {"name": "orders"}}
    ]"#;
    assert_eq!(tables_of_data(data).unwrap(), vec!["users".to_string(), "orders".to_string()]);
}

#[test]
fn elements_of_another_shape_are_passed_over() {
    let data = r#"[
        {"data": {"name": "users"}},
        {"data": {"name": 7}},
        {"data": "users"},
        {"name": "users"},
        {"data": {"title": "users"}},
        {"data": null},
        "users",
        7,
        null,
        [],
        {"data": {"name": "orders"}}
    ]"#;
    assert_eq!(tables_of_data(data).unwrap(), vec!["users".to_string(), "orders".to_string()]);
}

#[test]
fn data_that_is_no_array_names_no_table() {
    assert_eq!(tables_of_data("{}").unwrap(), Vec::<String>::new());
    assert_eq!(tables_of_data(r#"{"data": {"name": "users"}}"#).unwrap(), Vec::<String>::new());
    assert_eq!(tables_of_data("null").unwrap(), Vec::<String>::new());
    assert_eq!(tables_of_data("\"text\"").unwrap(), Vec::<String>::new());
    assert_eq!(tables_of_data("[]").unwrap(), Vec::<String>::new());
}

#[test]
fn data_that_is_not_json_is_malformed() {
    assert_eq!(tables_of_data("").unwrap_err().kind, ErrorKind::Validation);
    assert_eq!(tables_of_data("[").unwrap_err().kind, ErrorKind::Validation);
    assert_eq!(tables_of_data("not json").unwrap_err().kind, ErrorKind::Validation);
    assert_eq!(tables_of_data("[] []").unwrap_err().kind, ErrorKind::Validation);
}

#[test]
fn documents_are_read_variant_by_variant() {
    let doc = parse_json(r#"{"b": [1, -2.5, true, null, "x"], "a": {"k": "v"}}"#).unwrap();
    match &doc {
        JsonValue::Object(members) => {
            assert_eq!(members.len(), 2);
            assert_eq!(members[0].name, "a");
            assert_eq!(members[1].name, "b");
        },
        _ => panic!("an object is expected"),
    }
    match doc.member("a").unwrap().member("k").unwrap() {
        JsonValue::Text(s) => assert_eq!(s, "v"),
        _ => panic!("a string is expected"),
    }
    match doc.member("b").unwrap() {
        JsonValue::Array(items) => {
            assert_eq!(items.len(), 5);
            assert!(matches!(&items[0], JsonValue::Number(n) if n == "1"));
            assert!(matches!(&items[1], JsonValue::Number(n) if n == "-2.5"));
            assert!(matches!(&items[2], JsonValue::Bool(true)));
            assert!(matches!(&items[3], JsonValue::Null));
            assert!(matches!(&items[4], JsonValue::Text(s) if s == "x"));
        },
        _ => panic!("an array is expected"),
    }
    assert!(doc.member("c").is_none());
    assert!(doc.member("b").unwrap().member("a").is_none());
    assert!(parse_json("{").is_none());
}

#[test]
fn the_last_of_two_members_of_one_name_counts() {
    let doc = parse_json(r#"{"data": {"name": "first"}, "data": {"name": "second"}}"#).unwrap();
    assert_eq!(doc.table_name(), Some("second".to_string()));
}

#[test]
fn lists_of_names_are_json_arrays_of_strings() {
    assert_eq!(names_of_json(r#"["a", "b"]"#).unwrap(), vec!["a".to_string(), "b".to_string()]);
    assert_eq!(names_of_json("[]").unwrap(), Vec::<String>::new());
    assert_eq!(names_of_json(r#"["a", 1]"#).unwrap_err().kind, ErrorKind::Validation);
    assert_eq!(names_of_json(r#"{"a": "b"}"#).unwrap_err().kind, ErrorKind::Validation);
    assert_eq!(names_of_json("").unwrap_err().kind, ErrorKind::Validation);
}
