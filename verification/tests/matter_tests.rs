use anytype_rs::commands::import::FrontmatterField;
use anytype_rs::commands::matter::{parse_frontmatter, pod_to_json, MatterValue};
use anytype_rs::json::{JsonNumber, JsonValue};

fn get<'a>(fields: &'a [FrontmatterField], key: &str) -> Option<&'a JsonValue> {
    fields.iter().find(|f| f.key == key).map(|f| &f.value)
}

fn as_str(v: Option<&JsonValue>) -> Option<&str> {
    match v {
        Some(JsonValue::String(s)) => Some(s.as_str()),
        _ => None,
    }
}

#[test]
fn test_parse_frontmatter_yaml() {
    let content = r#"---
title: Test Title
date: 2025-01-15
status: active
priority: 3
published: true
tags:
  - rust
  - cli
---

# Content

This is the body."#;

    let (frontmatter, body) = parse_frontmatter(content);

    assert_eq!(as_str(get(&frontmatter, "title")), Some("Test Title"));
    assert_eq!(as_str(get(&frontmatter, "date")), Some("2025-01-15"));
    assert_eq!(as_str(get(&frontmatter, "status")), Some("active"));
    assert_eq!(get(&frontmatter, "priority"), Some(&JsonValue::Number(JsonNumber::PosInt(3))));
    assert_eq!(get(&frontmatter, "published"), Some(&JsonValue::Bool(true)));
    assert!(matches!(get(&frontmatter, "tags"), Some(JsonValue::Array(_))));
    assert!(body.contains("# Content"));
}

#[test]
fn test_parse_frontmatter_no_frontmatter() {
    let content = "# Just Content\n\nNo frontmatter here.";

    let (frontmatter, body) = parse_frontmatter(content);

    assert!(frontmatter.is_empty());
    assert_eq!(body, content);
}

#[test]
fn front_matter_numbers_and_their_readings() {
    let content = "---\nratio: 2.5\nhuge: .inf\ncount: -4\ncode: '42'\nname: abc\nnothing:\n---\nbody";
    let (fields, body) = parse_frontmatter(content);
    assert_eq!(body, "body");
    assert_eq!(fields.len(), 6);
    assert_eq!(get(&fields, "ratio"), Some(&JsonValue::Number(JsonNumber::Float("2.5".to_string()))));
    // gray_matter reads a YAML real its float parser refuses (`.inf`) as 0.
    assert_eq!(get(&fields, "huge"), Some(&JsonValue::Number(JsonNumber::Float("0.0".to_string()))));
    assert_eq!(get(&fields, "count"), Some(&JsonValue::Number(JsonNumber::NegInt(-4))));
    assert_eq!(get(&fields, "nothing"), Some(&JsonValue::Null));
    let code = fields.iter().find(|f| f.key == "code").unwrap();
    assert_eq!(code.value, JsonValue::String("42".to_string()));
    assert_eq!(code.number_reading, Some(JsonValue::Number(JsonNumber::Float("42.0".to_string()))));
    let name = fields.iter().find(|f| f.key == "name").unwrap();
    assert_eq!(name.number_reading, None);
    let ratio = fields.iter().find(|f| f.key == "ratio").unwrap();
    assert_eq!(ratio.number_reading, None);
}

#[test]
fn front_matter_that_is_no_hash_gives_no_fields() {
    let (fields, body) = parse_frontmatter("---\n- a\n- b\n---\ntext");
    assert!(fields.is_empty());
    assert_eq!(body, "text");
}

#[test]
fn pod_values_become_json() {
    let v = MatterValue::Hash(vec![
        ("a".to_string(), MatterValue::Array(vec![MatterValue::Integer(1), MatterValue::Float(None)])),
        ("b".to_string(), MatterValue::Float(Some("0.5".to_string()))),
    ]);
    assert_eq!(
        pod_to_json(&v),
        JsonValue::Object(vec![
            (
                "a".to_string(),
                JsonValue::Array(vec![JsonValue::Number(JsonNumber::PosInt(1)), JsonValue::Null]),
            ),
            ("b".to_string(), JsonValue::Number(JsonNumber::Float("0.5".to_string()))),
        ])
    );
}
