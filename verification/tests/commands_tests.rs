use anytype_rs::commands::auth::{AuthDelete, KeyRemoval};
use anytype_rs::api::{Color, Icon, Layout, Member, MemberRole, MemberStatus, Property, PropertyFormat, Tag, Type, TypeProperty};
use anytype_rs::commands::auth::{
    api_key_file, api_key_from_contents, challenge_file, challenge_from_contents, config_dir, is_valid_code,
    mask_api_key, AuthLogin, AuthStatus, Credentials,
};
use anytype_rs::commands::list::{list_id_or, ListAdd, ListObjects, ListedObject};
use anytype_rs::commands::member::MemberGet;
use anytype_rs::commands::property::{PropertyCreate, PropertyUpdate};
use anytype_rs::commands::search::{Search, SearchPlan};
use anytype_rs::commands::tag::{parse_color, property_source, property_type_context, PropertySource, TagDelete};
use anytype_rs::commands::types::{parse_layout, parse_property_format, TypeChanges, TypeCreate, TypeUpdate};
use anytype_rs::commands::{space_failure, space_source, Cell, Record, SpaceSource};
use anytype_rs::json::JsonValue;
use anytype_rs::api::{Sort, SortDirection, SortProperty};
use anytype_rs::AnytypeValue;

fn space_value() -> AnytypeValue {
    AnytypeValue::Space { id: "sp_1".to_string(), name: "Work".to_string(), description: None, icon: None }
}

#[test]
fn test_type_list_requires_space_context() {
    assert!(space_source(None, None, None).is_err());
}

#[test]
fn test_type_get_requires_space_context() {
    assert!(space_source(None, None, None).is_err());
}

#[test]
fn test_object_list_requires_space_context() {
    let e = space_source(None, None, None).unwrap_err();
    assert_eq!(
        e.msg,
        "Space context required. Use --space <name>, pipe a Space, or configure default_space"
    );
    assert_eq!(e.label, Some("Missing space context".to_string()));
}

#[test]
fn test_object_get_requires_space_context() {
    assert!(space_source(None, None, None).is_err());
}

#[test]
fn test_member_list_requires_space_context() {
    assert!(space_source(None, None, None).is_err());
}

#[test]
fn test_template_list_requires_space_context() {
    assert!(space_source(None, None, None).is_err());
}

#[test]
fn test_property_list_requires_space_context() {
    assert!(space_source(None, None, None).is_err());
}

#[test]
fn test_property_get_requires_space_context() {
    assert!(space_source(None, None, None).is_err());
}

#[test]
fn space_flag_comes_before_pipeline_and_default() {
    let piped = space_value();
    assert_eq!(
        space_source(Some("Home".to_string()), Some(&piped), Some("Default".to_string())).unwrap(),
        SpaceSource::Flag("Home".to_string())
    );
    assert_eq!(
        space_source(None, Some(&piped), Some("Default".to_string())).unwrap(),
        SpaceSource::Piped("sp_1".to_string())
    );
    assert_eq!(
        space_source(None, None, Some("Default".to_string())).unwrap(),
        SpaceSource::Default("Default".to_string())
    );
    assert_eq!(
        space_failure(&SpaceSource::Default("Default".to_string()), "nope").msg,
        "Failed to resolve default space 'Default': nope"
    );
}

#[test]
fn test_auth_status_without_credentials() {
    let record = AuthStatus::report(Credentials::Missing);
    let status = record.fields.iter().find(|(k, _)| k == "status").map(|(_, v)| v.clone());
    assert_eq!(status, Some(Cell::Text("not_authenticated".to_string())));
}

#[test]
fn auth_status_reports_connection() {
    let record = AuthStatus::report(Credentials::Stored {
        api_key: "abcdefghijklmnopqrstuvwxyz".to_string(),
        spaces: Ok(3),
    });
    let mut expected = Record::new();
    expected.push("status", Cell::Text("authenticated".to_string()));
    expected.push("connected", Cell::Bool(true));
    expected.push("spaces_count", Cell::Int(3));
    expected.push("api_key", Cell::Text("abcdefgh...stuvwxyz".to_string()));
    assert_eq!(record, expected);
}

#[test]
fn login_codes_are_four_digits() {
    assert!(is_valid_code("1234"));
    assert!(!is_valid_code("123"));
    assert!(!is_valid_code("12345"));
    assert!(!is_valid_code("12a4"));
    assert!(!is_valid_code("١٢٣٤"));
    assert_eq!(
        AuthLogin::check_code("abcd").unwrap_err().msg,
        "Invalid code format. Expected 4 digits."
    );
}

#[test]
fn api_keys_are_shown_in_part() {
    assert_eq!(mask_api_key("short"), "short...");
    assert_eq!(mask_api_key("0123456789abcdef"), "01234567...");
    assert_eq!(mask_api_key("0123456789abcdefXYZ"), "01234567...bcdefXYZ");
}

#[test]
fn stored_credentials_are_trimmed() {
    assert_eq!(api_key_from_contents("  key-1\n"), Some("key-1".to_string()));
    assert_eq!(api_key_from_contents(" \n"), None);
    assert_eq!(challenge_from_contents("ch\n"), Ok("ch".to_string()));
    assert_eq!(challenge_from_contents(""), Err("Challenge ID file is empty".to_string()));
}

#[test]
fn credential_files_live_in_the_plugin_directory() {
    let dir = config_dir("/home/u/.config");
    assert_eq!(dir, "/home/u/.config/anytype-cli");
    assert_eq!(api_key_file(&dir), "/home/u/.config/anytype-cli/api_key");
    assert_eq!(challenge_file("/tmp/"), "/tmp/challenge_id");
}

#[test]
fn layouts_parse_in_any_case() {
    assert_eq!(parse_layout("Basic"), Ok(Layout::Basic));
    assert_eq!(parse_layout("SET"), Ok(Layout::ObjectSet));
    assert_eq!(
        parse_layout("grid"),
        Err("Invalid layout 'grid'. Valid options: basic, profile, action, note, bookmark, set, collection, participant".to_string())
    );
}

#[test]
fn unknown_type_property_formats_read_as_text() {
    assert_eq!(parse_property_format("MultiSelect"), PropertyFormat::MultiSelect);
    assert_eq!(parse_property_format("weird"), PropertyFormat::Text);
}

#[test]
fn type_create_needs_key_and_plural() {
    let e = TypeCreate::required_flags(None, Some("Tasks".to_string())).unwrap_err();
    assert_eq!(e.msg, "--key is required");
    let e = TypeCreate::required_flags(Some("task".to_string()), None).unwrap_err();
    assert_eq!(e.label, Some("Missing --plural".to_string()));
    let req = TypeCreate::request("Task".to_string(), "task".to_string(), "Tasks".to_string(), None, None).unwrap();
    assert_eq!(req.layout, Layout::Basic);
    assert_eq!(req.icon, Icon::Emoji { emoji: "📄".to_string() });
    let e = TypeCreate::request("Task".to_string(), "task".to_string(), "Tasks".to_string(), Some("x".to_string()), None)
        .unwrap_err();
    assert_eq!(
        e.msg,
        "Invalid layout: Invalid layout 'x'. Valid options: basic, profile, action, note, bookmark, set, collection, participant"
    );
}

fn current_type() -> Type {
    Type {
        archived: None,
        icon: None,
        id: "ty_1".to_string(),
        key: "task".to_string(),
        layout: Some("note".to_string()),
        name: "Task".to_string(),
        object: "type".to_string(),
        plural_name: None,
        properties: vec![TypeProperty {
            format: "Checkbox".to_string(),
            id: "p1".to_string(),
            key: "done".to_string(),
            name: "Done".to_string(),
            object: "property".to_string(),
        }],
    }
}

#[test]
fn type_update_keeps_what_is_not_changed() {
    let none = TypeChanges { new_name: None, key: None, plural_name: None, layout: None, icon: None };
    assert!(TypeUpdate::check_changes(&none).is_err());
    let changes = TypeChanges { new_name: Some("Todo".to_string()), key: None, plural_name: None, layout: None, icon: None };
    assert!(TypeUpdate::check_changes(&changes).is_ok());
    let icon = Icon::Emoji { emoji: "✅".to_string() };
    let req = TypeUpdate::request(changes, current_type(), icon.clone()).unwrap();
    assert_eq!(req.name, "Todo");
    assert_eq!(req.key, "task");
    assert_eq!(req.plural_name, "");
    assert_eq!(req.layout, Layout::Note);
    assert_eq!(req.icon, icon);
    assert_eq!(req.properties.len(), 1);
    assert_eq!(req.properties[0].format, PropertyFormat::Checkbox);
}

#[test]
fn tag_colors_parse_in_any_case() {
    assert_eq!(parse_color("Teal").unwrap(), Color::Teal);
    let e = parse_color("green").unwrap_err();
    assert_eq!(
        e.msg,
        "Invalid color: green. Valid options: grey, yellow, orange, red, pink, purple, blue, ice, teal, lime"
    );
    assert_eq!(e.label, Some("Invalid color".to_string()));
}

#[test]
fn tag_commands_find_their_property() {
    let tag = AnytypeValue::Tag {
        id: "t".to_string(),
        name: "Done".to_string(),
        key: "done".to_string(),
        color: None,
        space_id: "sp".to_string(),
        property_id: "pr".to_string(),
    };
    assert_eq!(
        property_source(None, Some(&tag)).unwrap(),
        PropertySource::Piped { space_id: "sp".to_string(), property_id: "pr".to_string() }
    );
    assert!(property_source(None, Some(&space_value())).is_err());
    assert_eq!(property_source(Some("Status".to_string()), None).unwrap(), PropertySource::Named("Status".to_string()));
    assert!(property_type_context(Some(&tag)).is_err());
}

#[test]
fn deleted_tag_is_confirmed() {
    let tag = Tag { color: None, id: "tag_1".to_string(), key: "k".to_string(), name: "Old".to_string(), object: "tag".to_string() };
    assert_eq!(TagDelete::deleted_message(&tag), "Tag 'Old' (ID: tag_1) deleted successfully");
}

#[test]
fn property_requests_follow_flags_and_current_values() {
    let req = PropertyCreate::request("Status".to_string(), None).unwrap();
    assert_eq!(req.format, PropertyFormat::Text);
    let e = PropertyCreate::request("Status".to_string(), Some("blob".to_string())).unwrap_err();
    assert_eq!(e.label, Some("Invalid format".to_string()));
    let current = Property {
        format: "select".to_string(),
        id: "p".to_string(),
        key: "status".to_string(),
        name: "Status".to_string(),
        object: "property".to_string(),
    };
    let req = PropertyUpdate::request(Some("State".to_string()), None, &current).unwrap();
    assert_eq!(req.name, "State");
    assert_eq!(req.format, PropertyFormat::Select);
}

#[test]
fn search_sort_defaults_and_errors() {
    assert_eq!(Search::sort(None, None).unwrap(), None);
    assert_eq!(
        Search::sort(Some("name".to_string()), None).unwrap(),
        Some(Sort { direction: SortDirection::Desc, property_key: SortProperty::Name })
    );
    assert_eq!(
        Search::sort(None, Some("asc".to_string())).unwrap(),
        Some(Sort { direction: SortDirection::Asc, property_key: SortProperty::LastModifiedDate })
    );
    assert_eq!(
        Search::sort(Some("size".to_string()), None).unwrap_err().msg,
        "Invalid sort property: size. Use one of: created_date, last_modified_date, last_opened_date, name"
    );
    assert_eq!(
        Search::sort(None, Some("up".to_string())).unwrap_err().msg,
        "Invalid sort direction: up. Use 'asc' or 'desc'"
    );
}

#[test]
fn search_stays_in_the_space_found() {
    match Search::plan("q".to_string(), Some("sp".to_string()), Some(10), Some(5), None) {
        SearchPlan::InSpace { space_id, request } => {
            assert_eq!(space_id, "sp");
            assert_eq!(request.limit, Some(10));
            assert_eq!(request.offset, Some(5));
        }
        _ => panic!("expected a search in the space"),
    }
    assert!(matches!(Search::plan("q".to_string(), None, None, None, None), SearchPlan::Global(_)));
}

#[test]
fn search_sends_counts_as_they_convert() {
    match Search::plan("q".to_string(), None, Some(5000), Some(-1), None) {
        SearchPlan::Global(request) => {
            assert_eq!(request.limit, Some(5000));
            assert_eq!(request.offset, Some(-1i64 as usize));
        }
        _ => panic!("expected a global search"),
    }
}

#[test]
fn list_add_requires_objects() {
    assert_eq!(ListAdd::required_objects(None).unwrap_err().msg, "Missing --objects flag");
    assert_eq!(ListAdd::required_objects(Some(vec![])).unwrap_err().msg, "No object IDs provided");
    assert_eq!(ListAdd::summary("Done", 2, 3), "Done (Added 2 of 3 objects)");
    assert_eq!(list_id_or(None, "My List".to_string()), "My List");
}

fn listed(id: &str) -> ListedObject {
    ListedObject {
        id: id.to_string(),
        name: id.to_string(),
        object: "page".to_string(),
        type_id: "ty".to_string(),
        type_key: "page".to_string(),
        properties: JsonValue::Array(vec![]),
        snippet: Some("s".to_string()),
    }
}

#[test]
fn list_objects_keep_the_first_under_a_limit() {
    let objects = vec![listed("a"), listed("b"), listed("c")];
    let kept = ListObjects::limited(objects, Some(2));
    assert_eq!(kept.iter().map(|o| o.id.clone()).collect::<Vec<_>>(), vec!["a".to_string(), "b".to_string()]);
    assert!(ListObjects::limited(vec![listed("a")], Some(-1)).is_empty());
    let value = ListObjects::value(listed("x"), "sp");
    assert_eq!(value.name(), "x");
    assert_eq!(value.type_id(), Some("ty"));
}

#[test]
fn members_are_found_by_either_name() {
    let member = || Member {
        id: "m1".to_string(),
        name: None,
        global_name: Some("john.any".to_string()),
        identity: None,
        object: None,
        role: MemberRole::Editor,
        status: MemberStatus::Active,
        icon: None,
    };
    let found = MemberGet::find_by_name(vec![member()], "john.any").unwrap();
    assert_eq!(found.id, "m1");
    assert_eq!(
        MemberGet::find_by_name(vec![member()], "jane").unwrap_err().msg,
        "No member found with ID or name 'jane'"
    );
}

#[test]
fn api_key_drops_unicode_white_space_around_it() {
    assert_eq!(api_key_from_contents("\u{3000}\u{a0}key-2\u{2028}\t"), Some("key-2".to_string()));
    assert_eq!(api_key_from_contents("\u{85}\u{2009}"), None);
    assert_eq!(api_key_from_contents("a b"), Some("a b".to_string()));
}

#[test]
fn logging_out_twice_answers_alike() {
    let first = AuthDelete::finish(KeyRemoval::Removed).unwrap();
    let second = AuthDelete::finish(KeyRemoval::NotThere).unwrap();
    assert_eq!(first, second);
    assert_eq!(first, AuthDelete::logged_out());
    let e = AuthDelete::finish(KeyRemoval::Failed("Failed to remove API key: denied".to_string())).unwrap_err();
    assert_eq!(e.msg, "Failed to remove API key: Failed to remove API key: denied");
}
