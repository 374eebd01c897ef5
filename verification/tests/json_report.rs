use pcloud::json::{container_lines, element, member, report_containers, JsonValue};

fn obj(members: Vec<(&str, JsonValue)>) -> JsonValue {
    JsonValue::Object(members.into_iter().map(|(k, v)| (k.to_string(), v)).collect())
}

fn s(text: &str) -> JsonValue {
    JsonValue::String(text.to_string())
}

fn report(lines: JsonValue) -> JsonValue {
    obj(vec![(
        "plays",
        JsonValue::Array(vec![obj(vec![(
            "tasks",
            JsonValue::Array(vec![obj(vec![(
                "hosts",
                obj(vec![("localhost", obj(vec![("stdout_lines", lines)]))]),
            )])]),
        )])]),
    )])
}

#[test]
fn lines_are_read_from_the_localhost_task() {
    let doc = report(JsonValue::Array(vec![
        s("{\"Names\":\"web\",\"Image\":\"nginx\",\"State\":\"running\"}"),
        JsonValue::Number("5".to_string()),
        s("{}"),
    ]));
    assert_eq!(
        container_lines(&doc),
        vec![
            "{\"Names\":\"web\",\"Image\":\"nginx\",\"State\":\"running\"}".to_string(),
            String::new(),
            "{}".to_string(),
        ]
    );
}

#[test]
fn a_report_without_the_listing_gives_no_lines() {
    assert!(container_lines(&JsonValue::Null).is_empty());
    assert!(container_lines(&report(s("not an array"))).is_empty());
    assert!(container_lines(&obj(vec![("plays", JsonValue::Array(vec![]))])).is_empty());
}

#[test]
fn member_and_element_follow_json_indexing() {
    let doc = obj(vec![("a", s("first")), ("b", JsonValue::Bool(true)), ("a", s("second"))]);
    assert!(matches!(member(&doc, "a"), Some(JsonValue::String(t)) if t == "first"));
    assert!(member(&doc, "missing").is_none());
    assert!(member(&s("x"), "a").is_none());
    let arr = JsonValue::Array(vec![JsonValue::Null, s("y")]);
    assert!(matches!(element(&arr, 1), Some(JsonValue::String(t)) if t == "y"));
    assert!(element(&arr, 2).is_none());
    assert!(element(&doc, 0).is_none());
}

#[test]
fn report_text_is_parsed_into_its_container_lines() {
    let stdout = r#"{"plays":[{"tasks":[{"hosts":{"localhost":{"stdout_lines":["{\"Names\":\"web\",\"Image\":\"nginx\",\"State\":\"running\"}", "[1, 2.5]"]}}}]}]}"#;
    let values = report_containers(stdout).expect("the report and its lines parse");
    assert_eq!(values.len(), 2);
    assert!(matches!(member(&values[0], "Names"), Some(JsonValue::String(t)) if t == "web"));
    assert!(matches!(element(&values[1], 1), Some(JsonValue::Number(t)) if t == "2.5"));

    assert!(report_containers("not json").is_err());
    assert!(report_containers(r#"{"plays":[]}"#).unwrap().is_empty());
    let bad_line = r#"{"plays":[{"tasks":[{"hosts":{"localhost":{"stdout_lines":["{}", 7]}}}]}]}"#;
    assert!(report_containers(bad_line).is_err());
}
