use anytype_rs::api::{Type, TypeIcon, TypeProperty, UpdateSpaceRequest};
use anytype_rs::cli::commands::lists::failed_objects;
use anytype_rs::cli::commands::search::{pagination_hint, preview, result_heading, searching_line, Preview, SearchArgs};
use anytype_rs::cli::commands::spaces::update_request;
use anytype_rs::cli::commands::types::{list_report_lines, type_report};
use anytype_rs::cli::commands::{display_count, require_api_key};
use anytype_rs::json::{JsonNumber, JsonValue};

fn prop(name: &str) -> TypeProperty {
    TypeProperty {
        format: "text".to_string(),
        id: format!("id_{}", name),
        key: name.to_lowercase(),
        name: name.to_string(),
        object: "property".to_string(),
    }
}

fn a_type(name: &str, properties: Vec<TypeProperty>) -> Type {
    Type {
        archived: Some(true),
        icon: Some(TypeIcon { color: Some("blue".to_string()), format: None, name: Some("star".to_string()), emoji: None }),
        id: format!("ty_{}", name),
        key: name.to_lowercase(),
        layout: Some("basic".to_string()),
        name: name.to_string(),
        object: "type".to_string(),
        plural_name: None,
        properties,
    }
}

#[test]
fn a_type_is_shown_with_its_details() {
    let t = a_type("Task", vec![prop("A"), prop("B"), prop("C"), prop("D")]);
    assert_eq!(
        type_report(&t),
        vec![
            "  🏷️  Task (task)".to_string(),
            "     🆔 ID: ty_Task".to_string(),
            "     📐 Layout: basic".to_string(),
            "     📦 Archived: Yes".to_string(),
            "     🎨 Icon: star (blue)".to_string(),
            "     🔑 Properties: 4 properties".to_string(),
            "       • A (text) - a".to_string(),
            "       • B (text) - b".to_string(),
            "       • C (text) - c".to_string(),
            "       ... and 1 more properties".to_string(),
            "".to_string(),
        ]
    );
}

#[test]
fn type_listing_shows_up_to_the_limit() {
    let types = vec![a_type("One", vec![]), a_type("Two", vec![])];
    let lines = list_report_lines(&types, 1);
    assert_eq!(lines[0], "✅ Found 2 types (showing first 1):");
    assert_eq!(lines.last().unwrap(), "💡 Use --limit 2 to see more results");
    assert_eq!(list_report_lines(&vec![], 5), vec!["📭 No types found in this space.".to_string()]);
    assert_eq!(display_count(20, 3), 3);
    assert_eq!(display_count(2, 3), 2);
}

#[test]
fn commands_need_a_stored_key() {
    assert_eq!(
        require_api_key(None),
        Err("Not authenticated. Run 'anytype auth login' first.".to_string())
    );
    assert_eq!(require_api_key(Some("k".to_string())), Ok("k".to_string()));
}

#[test]
fn objects_not_added_are_reported() {
    let requested = vec!["a".to_string(), "b".to_string(), "c".to_string()];
    let added = vec!["b".to_string()];
    assert_eq!(failed_objects(&requested, &added), vec!["a".to_string(), "c".to_string()]);
}

#[test]
fn space_update_needs_a_field() {
    assert_eq!(
        update_request(None, None),
        Err("At least one field (name or description) must be provided to update".to_string())
    );
    assert_eq!(
        update_request(Some("N".to_string()), None),
        Ok(UpdateSpaceRequest { name: Some("N".to_string()), description: None })
    );
}

#[test]
fn search_lines_count_from_the_offset() {
    let args = SearchArgs { query: "notes".to_string(), limit: 10, offset: 5, space_id: None };
    assert_eq!(searching_line(&args), "🔍 Searching for 'notes' globally...");
    assert_eq!(
        result_heading(5, 0, "obj", "sp"),
        vec!["6. 📄 Object ID: obj".to_string(), "   🏠 Space: sp".to_string()]
    );
    assert_eq!(
        pagination_hint(5, 10, 40),
        Some("💡 Showing results 6-15 of 40. Use --offset 15 to see more.".to_string())
    );
    assert_eq!(pagination_hint(30, 10, 40), None);
}

#[test]
fn search_preview_prefers_relevant_texts() {
    let long = "x".repeat(120);
    let properties = JsonValue::Object(vec![
        ("body".to_string(), JsonValue::String(long.clone())),
        ("name".to_string(), JsonValue::String("Note".to_string())),
        ("title".to_string(), JsonValue::String("".to_string())),
        ("content".to_string(), JsonValue::String("c".to_string())),
    ]);
    assert_eq!(
        preview(&properties),
        vec![
            Preview::Relevant { key: "name".to_string(), text: "Note".to_string() },
            Preview::Relevant { key: "content".to_string(), text: "c".to_string() },
        ]
    );
    let only_body = JsonValue::Object(vec![("body".to_string(), JsonValue::String(long))]);
    assert_eq!(
        preview(&only_body),
        vec![Preview::Relevant { key: "body".to_string(), text: format!("{}...", "x".repeat(97)) }]
    );
    let other = JsonValue::Object(vec![
        ("a".to_string(), JsonValue::Number(JsonNumber::PosInt(1))),
        ("b".to_string(), JsonValue::String("y".repeat(60))),
        ("c".to_string(), JsonValue::Null),
    ]);
    assert_eq!(
        preview(&other),
        vec![
            Preview::Json { key: "a".to_string() },
            Preview::Plain { key: "b".to_string(), text: format!("{}...", "y".repeat(47)) },
        ]
    );
}
