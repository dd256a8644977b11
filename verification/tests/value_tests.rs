use anytype_rs::json::JsonValue;
use anytype_rs::AnytypeValue;

#[test]
fn test_custom_value_helpers() {
    let space = AnytypeValue::Space {
        id: "sp_123".to_string(),
        name: "Work".to_string(),
        description: None,
        icon: None,
    };

    assert_eq!(space.id(), "sp_123");
    assert_eq!(space.space_id(), Some("sp_123"));
    assert_eq!(space.name(), "Work");
    assert_eq!(space.type_id(), None);
}

#[test]
fn test_custom_value_object_with_context() {
    let object = AnytypeValue::Object {
        id: "obj_456".to_string(),
        name: Some("My Task".to_string()),
        properties: JsonValue::Object(vec![]),
        markdown: None,
        snippet: None,
        space_id: "sp_123".to_string(),
        type_id: "ty_789".to_string(),
        type_key: "ot_task".to_string(),
    };

    assert_eq!(object.id(), "obj_456");
    assert_eq!(object.space_id(), Some("sp_123"));
    assert_eq!(object.type_id(), Some("ty_789"));
    assert_eq!(object.type_key(), Some("ot_task"));
    assert_eq!(object.name(), "My Task");
}

#[test]
fn test_custom_value_name_fallback() {
    // Object with no name but with snippet
    let object = AnytypeValue::Object {
        id: "obj_456".to_string(),
        name: None,
        properties: JsonValue::Object(vec![]),
        markdown: None,
        snippet: Some("A preview snippet".to_string()),
        space_id: "sp_123".to_string(),
        type_id: "ty_789".to_string(),
        type_key: "ot_note".to_string(),
    };

    assert_eq!(object.name(), "A preview snippet");

    // Object with no name and no snippet - should fall back to ID
    let object_no_name = AnytypeValue::Object {
        id: "obj_456".to_string(),
        name: None,
        properties: JsonValue::Object(vec![]),
        markdown: None,
        snippet: None,
        space_id: "sp_123".to_string(),
        type_id: "ty_789".to_string(),
        type_key: "ot_note".to_string(),
    };

    assert_eq!(object_no_name.name(), "obj_456");
}

#[test]
fn test_custom_value_property_with_context() {
    let property = AnytypeValue::Property {
        id: "prop_123".to_string(),
        name: "Status".to_string(),
        key: "status".to_string(),
        format: "select".to_string(),
        space_id: "sp_456".to_string(),
        type_id: "ty_789".to_string(),
    };

    assert_eq!(property.id(), "prop_123");
    assert_eq!(property.name(), "Status");
    assert_eq!(property.space_id(), Some("sp_456"));
    assert_eq!(property.type_id(), Some("ty_789"));
}

#[test]
fn tag_value_carries_its_property() {
    let tag = AnytypeValue::Tag {
        id: "tag_1".to_string(),
        name: "Done".to_string(),
        key: "done".to_string(),
        color: None,
        space_id: "sp_1".to_string(),
        property_id: "prop_1".to_string(),
    };
    assert_eq!(tag.property_id(), Some("prop_1"));
    assert_eq!(tag.type_id(), None);
    assert_eq!(tag.space_id(), Some("sp_1"));
}
