use anytype_rs::api::TypeProperty;
use anytype_rs::commands::import::{
    convert_value_to_format_str, extract_object_name, map_frontmatter_to_properties, ConvertError,
    FrontmatterField, ImportMarkdown, ImportPlan,
};
use anytype_rs::commands::{Cell, Record};
use anytype_rs::json::{JsonNumber, JsonValue};

/// What a text reads as as a number, as the program computes it.
fn number_reading(value: &JsonValue) -> Option<JsonValue> {
    match value {
        JsonValue::String(s) => s.parse::<f64>().ok().map(|f| match serde_json::Number::from_f64(f) {
            Some(n) => JsonValue::Number(JsonNumber::Float(n.to_string())),
            None => JsonValue::Null,
        }),
        _ => None,
    }
}

fn field(key: &str, value: JsonValue) -> FrontmatterField {
    let number_reading = number_reading(&value);
    FrontmatterField { key: key.to_string(), value, number_reading }
}

fn text(s: &str) -> JsonValue {
    JsonValue::String(s.to_string())
}

fn whole(i: u64) -> JsonValue {
    JsonValue::Number(JsonNumber::PosInt(i))
}

fn convert(value: &JsonValue, format: &str) -> Result<JsonValue, ConvertError> {
    convert_value_to_format_str(value, format, &number_reading(value))
}

fn type_property(format: &str, id: &str, key: &str, name: &str) -> TypeProperty {
    TypeProperty {
        format: format.to_string(),
        id: id.to_string(),
        key: key.to_string(),
        name: name.to_string(),
        object: "property".to_string(),
    }
}

fn member_keys(v: &JsonValue) -> Vec<String> {
    match v {
        JsonValue::Object(m) => m.iter().map(|(k, _)| k.clone()).collect(),
        _ => panic!("expected an object"),
    }
}

#[test]
fn test_extract_object_name_from_frontmatter() {
    let frontmatter = vec![field("title", text("My Title"))];

    let name = extract_object_name(&frontmatter, "/path/to/file.md");
    assert_eq!(name, "My Title");
}

#[test]
fn test_extract_object_name_from_filename() {
    let frontmatter = vec![];

    let name = extract_object_name(&frontmatter, "/path/to/my-file.md");
    assert_eq!(name, "my-file");
}

#[test]
fn title_that_is_no_text_falls_back_to_the_file_name() {
    let frontmatter = vec![field("title", whole(3))];
    assert_eq!(extract_object_name(&frontmatter, "notes/todo.txt"), "todo");
}

#[test]
fn path_without_file_name_is_untitled() {
    assert_eq!(extract_object_name(&vec![], "/"), "Untitled");
}

#[test]
fn test_convert_value_to_format_text() {
    let value = text("test");
    let result = convert(&value, "text").unwrap();
    assert_eq!(result, text("test"));

    // Number to text
    let value = whole(42);
    let result = convert(&value, "text").unwrap();
    assert_eq!(result, text("42"));
}

#[test]
fn test_convert_value_to_format_number() {
    let value = whole(42);
    let result = convert(&value, "number").unwrap();
    assert!(result.is_number());

    // String to number
    let value = text("3.14");
    let result = convert(&value, "number").unwrap();
    assert!(result.is_number());
}

#[test]
fn test_convert_value_to_format_checkbox() {
    let value = JsonValue::Bool(true);
    let result = convert(&value, "checkbox").unwrap();
    assert_eq!(result, JsonValue::Bool(true));

    // String to bool
    let value = text("true");
    let result = convert(&value, "checkbox").unwrap();
    assert_eq!(result, JsonValue::Bool(true));

    let value = text("yes");
    let result = convert(&value, "checkbox").unwrap();
    assert_eq!(result, JsonValue::Bool(true));

    let value = text("false");
    let result = convert(&value, "checkbox").unwrap();
    assert_eq!(result, JsonValue::Bool(false));
}

#[test]
fn test_convert_value_to_format_multiselect() {
    let value = JsonValue::Array(vec![text("tag1"), text("tag2")]);
    let result = convert(&value, "multiselect").unwrap();
    assert!(result.is_array());

    // Single string to array
    let value = text("single");
    let result = convert(&value, "multi_select").unwrap();
    assert!(result.is_array());
    match result {
        JsonValue::Array(items) => assert_eq!(items.len(), 1),
        _ => panic!("expected an array"),
    }
}

#[test]
fn conversion_failures_name_their_cause() {
    assert_eq!(convert(&JsonValue::Null, "text"), Err(ConvertError::TextFormat));
    assert_eq!(convert(&text("abc"), "number"), Err(ConvertError::NumberText("abc".to_string())));
    assert_eq!(convert(&JsonValue::Bool(true), "number"), Err(ConvertError::NumberFormat));
    assert_eq!(convert(&text("maybe"), "checkbox"), Err(ConvertError::BooleanText("maybe".to_string())));
    assert_eq!(
        convert(&JsonValue::Number(JsonNumber::Float("1.5".to_string())), "checkbox"),
        Err(ConvertError::NumberToBoolean)
    );
    assert_eq!(convert(&JsonValue::Null, "checkbox"), Err(ConvertError::CheckboxFormat));
    assert_eq!(convert(&whole(1), "date"), Err(ConvertError::DateNotString));
    assert_eq!(convert(&whole(1), "select"), Err(ConvertError::SelectNotString));
    assert_eq!(
        convert(&JsonValue::Array(vec![text("a"), whole(2)]), "multiselect"),
        Err(ConvertError::MultiSelectItems)
    );
    assert_eq!(convert(&whole(1), "multiselect"), Err(ConvertError::MultiSelectNotArray));
}

#[test]
fn conversion_reads_formats_in_any_case() {
    assert_eq!(convert(&JsonValue::Bool(false), "TEXT").unwrap(), text("false"));
    assert_eq!(convert(&text("NO"), "CheckBox").unwrap(), JsonValue::Bool(false));
    assert_eq!(convert(&whole(0), "checkbox").unwrap(), JsonValue::Bool(false));
    assert_eq!(
        convert(&JsonValue::Number(JsonNumber::NegInt(-7)), "Phone").unwrap(),
        text("-7")
    );
    assert_eq!(convert(&text("3"), "number").unwrap(), JsonValue::Number(JsonNumber::Float("3.0".to_string())));
}

#[test]
fn unknown_formats_pass_values_through() {
    let value = JsonValue::Array(vec![whole(1), JsonValue::Null]);
    assert_eq!(convert(&value, "objects").unwrap(), value);
    assert_eq!(convert(&value, "something-else").unwrap(), value);
}

#[test]
fn test_map_frontmatter_to_properties() {
    let frontmatter = vec![
        field("title", text("Test")),
        field("status", text("active")),
        field("priority", whole(5)),
        field("published", JsonValue::Bool(true)),
        field("unknown_field", text("value")),
    ];

    let type_properties = vec![
        type_property("text", "prop1", "status", "Status"),
        type_property("number", "prop2", "priority", "Priority"),
        type_property("checkbox", "prop3", "published", "Published"),
    ];

    let (properties, unmapped) = map_frontmatter_to_properties(&frontmatter, &type_properties);

    let keys = member_keys(&properties);
    assert!(keys.contains(&"status".to_string()));
    assert!(keys.contains(&"priority".to_string()));
    assert!(keys.contains(&"published".to_string()));

    // Title should be unmapped (used for object name)
    // unknown_field should be unmapped (no matching property)
    assert_eq!(unmapped.len(), 1);
    assert!(unmapped.contains(&"unknown_field".to_string()));
}

#[test]
fn test_map_frontmatter_case_insensitive() {
    let frontmatter = vec![field("Status", text("active")), field("PRIORITY", whole(5))];

    let type_properties = vec![
        type_property("text", "prop1", "status", "Status"),
        type_property("number", "prop2", "priority", "Priority"),
    ];

    let (properties, unmapped) = map_frontmatter_to_properties(&frontmatter, &type_properties);

    let keys = member_keys(&properties);
    assert!(keys.contains(&"status".to_string()));
    assert!(keys.contains(&"priority".to_string()));
    assert_eq!(unmapped.len(), 0);
}

#[test]
fn failed_conversion_is_reported_unmapped() {
    let frontmatter = vec![field("Title", text("skipped")), field("due", whole(20250101))];
    let type_properties = vec![type_property("date", "p", "due", "Due")];
    let (properties, unmapped) = map_frontmatter_to_properties(&frontmatter, &type_properties);
    assert_eq!(properties, JsonValue::Object(vec![]));
    assert_eq!(unmapped, vec!["due".to_string()]);
}

#[test]
fn later_field_for_the_same_property_wins() {
    let frontmatter = vec![field("status", text("a")), field("STATUS", text("b"))];
    let type_properties = vec![type_property("text", "p", "status", "Status")];
    let (properties, unmapped) = map_frontmatter_to_properties(&frontmatter, &type_properties);
    assert_eq!(properties, JsonValue::Object(vec![("status".to_string(), text("b"))]));
    assert!(unmapped.is_empty());
}

#[test]
fn dry_run_previews_the_import() {
    let frontmatter = vec![field("title", text("Plan")), field("status", text("open"))];
    let type_properties = vec![type_property("text", "p", "status", "Status")];
    let plan = ImportMarkdown::plan(
        "/docs/plan.md",
        "sp_1",
        "Task",
        "ty_1",
        &type_properties,
        &frontmatter,
        "# Body é".to_string(),
        true,
    );
    let mut expected = Record::new();
    expected.push("file", Cell::Text("/docs/plan.md".to_string()));
    expected.push("name", Cell::Text("Plan".to_string()));
    expected.push("type", Cell::Text("Task".to_string()));
    expected.push("space_id", Cell::Text("sp_1".to_string()));
    expected.push("content_length", Cell::Int(9));
    expected.push("properties_count", Cell::Int(1));
    expected.push("dry_run", Cell::Bool(true));
    assert_eq!(plan, ImportPlan::Preview(expected));
}

#[test]
fn import_writes_the_body_only_where_there_is_one() {
    let plan = ImportMarkdown::plan("a/b.md", "sp", "Note", "ty", &vec![], &vec![], "  \n\t".to_string(), false);
    match plan {
        ImportPlan::Create { request, markdown } => {
            assert_eq!(request.type_key, "ty");
            assert_eq!(request.name, Some("b".to_string()));
            assert_eq!(request.properties, Some(JsonValue::Object(vec![])));
            assert!(markdown.is_none());
        }
        _ => panic!("expected a creation"),
    }
    let plan = ImportMarkdown::plan("a/b.md", "sp", "Note", "ty", &vec![], &vec![], "text".to_string(), false);
    match plan {
        ImportPlan::Create { markdown: Some(update), .. } => {
            assert_eq!(update.markdown, Some("text".to_string()));
            assert!(update.name.is_none());
        }
        _ => panic!("expected a creation with markdown"),
    }
}

#[test]
fn import_requires_a_type() {
    let e = ImportMarkdown::required_type(None).unwrap_err();
    assert_eq!(e.msg, "Type is required");
    assert_eq!(e.label, Some("Use --type <name> to specify object type".to_string()));
    assert_eq!(ImportMarkdown::required_type(Some("Page".to_string())).unwrap(), "Page");
}

#[test]
fn test_convert_text_reading_as_no_json_number_is_refused() {
    assert_eq!(convert(&text("NaN"), "number"), Err(ConvertError::NumberText("NaN".to_string())));
    assert_eq!(convert(&text("inf"), "Number"), Err(ConvertError::NumberText("inf".to_string())));
    assert_eq!(
        convert_value_to_format_str(&text("2.5"), "number", &Some(JsonValue::Null)),
        Err(ConvertError::NumberText("2.5".to_string()))
    );
}

#[test]
fn test_import_reports_the_property_mapping() {
    let frontmatter = vec![
        field("title", text("Test")),
        field("status", text("active")),
        field("done", text("maybe")),
        field("unknown_field", text("value")),
    ];
    let type_properties = vec![
        type_property("text", "prop1", "status", "Status"),
        type_property("checkbox", "prop2", "done", "Done"),
    ];
    assert_eq!(
        ImportMarkdown::reading_report("notes/a.md", frontmatter.len()),
        vec!["📄 Reading markdown file: notes/a.md".to_string(), "✓ Parsed frontmatter: 4 fields found".to_string()]
    );
    let lines = ImportMarkdown::mapping_report(&frontmatter, &type_properties, "Page", true);
    let expected: Vec<String> = vec![
        "✓ Fetching type definition: Page",
        "⚠️  Warning: Failed to convert 'done': Cannot parse 'maybe' as boolean",
        "\n📋 Property Mapping:",
        "  title → name (object name)",
        "  status → Status (text)",
        "\n⚠️  Unmapped frontmatter fields:",
        "  - done",
        "  - unknown_field",
    ]
    .into_iter()
    .map(String::from)
    .collect();
    assert_eq!(lines, expected);
    assert_eq!(
        ImportMarkdown::mapping_report(&frontmatter, &type_properties, "Page", false),
        vec!["⚠️  Warning: Failed to convert 'done': Cannot parse 'maybe' as boolean".to_string()]
    );
}

#[test]
fn test_import_reports_the_file_name_and_no_unmapped_fields() {
    let frontmatter = vec![field("status", text("active"))];
    let type_properties = vec![type_property("text", "prop1", "status", "Status")];
    let lines = ImportMarkdown::mapping_report(&frontmatter, &type_properties, "Task", true);
    assert_eq!(lines.len(), 4);
    assert_eq!(lines[2], "  (using filename as name)");
    assert_eq!(lines[3], "  status → Status (text)");
}

#[test]
fn test_dry_run_and_created_reports() {
    let frontmatter = vec![field("title", text("My Note")), field("status", text("active"))];
    let type_properties = vec![type_property("text", "prop1", "status", "Status")];
    let lines = ImportMarkdown::dry_run_report(&frontmatter, &type_properties, "a.md", "Page", "sp1", "# Hé");
    let expected: Vec<String> = vec![
        "\n🔍 Dry-run mode - no object created",
        "  📝 Would create object with:",
        "    Name: My Note",
        "    Type: Page",
        "    Space: sp1",
        "    Markdown: 5 characters",
        "    Properties: 1 mapped",
    ]
    .into_iter()
    .map(String::from)
    .collect();
    assert_eq!(lines, expected);
    let created = ImportMarkdown::created_report("sp1", "obj1", "My Note", "abc", 2);
    assert_eq!(created[0], "\n✓ Created object in space sp1");
    assert_eq!(created[1], "  🆔 ID: obj1");
    assert_eq!(created[3], "  📄 Markdown: 3 characters");
    assert_eq!(created[4], "  🔑 Properties: 2 mapped");
}

#[test]
fn test_conversion_messages_read_as_before() {
    assert_eq!(ConvertError::TextFormat.message(&JsonValue::Null), "Cannot convert Null to text format");
    let arr = JsonValue::Array(vec![text("a\"b"), whole(3), JsonValue::Bool(false)]);
    assert_eq!(
        ConvertError::NumberFormat.message(&arr),
        format!("Cannot convert {:?} to number format", serde_json::Value::Array(vec![
            serde_json::Value::String("a\"b".to_string()),
            serde_json::Value::from(3u64),
            serde_json::Value::Bool(false),
        ]))
    );
    let obj = JsonValue::Object(vec![("k".to_string(), JsonValue::Null), ("n".to_string(), JsonValue::Array(vec![]))]);
    assert_eq!(
        ConvertError::CheckboxFormat.message(&obj),
        format!("Cannot convert {:?} to checkbox format", {
            let mut m = serde_json::Map::new();
            m.insert("k".to_string(), serde_json::Value::Null);
            m.insert("n".to_string(), serde_json::Value::Array(vec![]));
            serde_json::Value::Object(m)
        })
    );
    assert_eq!(ConvertError::NumberText("x".to_string()).message(&text("x")), "Cannot parse 'x' as number");
    assert_eq!(ConvertError::NumberToBoolean.message(&whole(1)), "Cannot convert number to boolean");
    assert_eq!(ConvertError::MultiSelectNotArray.message(&whole(1)), "MultiSelect must be an array of strings");
}
