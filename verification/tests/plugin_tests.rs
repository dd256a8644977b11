use anytype_rs::commands::property::PropertyCreate;
use anytype_rs::commands::tag::TagDelete;
use anytype_rs::commands::types::{TypeCreate, TypeUpdate};
use anytype_rs::api::client::lists::list_views_path;
use anytype_rs::api::client::{api_keys_path, challenges_path, error_for_status, request_url, unreadable_error};
use anytype_rs::api::{ClientConfig, Object, Space, Tag};
use anytype_rs::cache::Resolver;
use anytype_rs::commands::object::{object_value, returned_type_key, ObjectCreate, ObjectGet, ObjectList, ObjectUpdate};
use anytype_rs::commands::resolve::{CacheClear, CacheStats, ResolveType};
use anytype_rs::commands::space::SpaceList;
use anytype_rs::commands::tag::{TagCreate, TagUpdate};
use anytype_rs::commands::{client_unavailable, failure, resolve_failure, resolver_unavailable, Cell, Record};
use anytype_rs::error::ShellError;
use anytype_rs::json::JsonValue;
use anytype_rs::plugin::{client_config, load_auth_token, KeyFile};
use anytype_rs::{AnytypeError, AnytypeValue, PluginConfig};

fn object(id: &str, key: Option<&str>) -> Object {
    Object {
        id: id.to_string(),
        name: Some(format!("name of {}", id)),
        space_id: None,
        object: key.map(|k| k.to_string()),
        properties: JsonValue::Null,
    }
}

#[test]
fn auth_token_is_read_from_the_key_file() {
    assert_eq!(load_auth_token(KeyFile::Read(" secret \n".to_string())).unwrap(), "secret");
    match load_auth_token(KeyFile::Missing) {
        Err(ShellError::GenericError { error, msg, help }) => {
            assert_eq!(error, "Authentication required");
            assert_eq!(msg, "No API key found");
            assert_eq!(help, Some("Run `anytype auth create` to authenticate".to_string()));
        }
        other => panic!("unexpected {:?}", other),
    }
    match load_auth_token(KeyFile::Read("   ".to_string())) {
        Err(ShellError::GenericError { msg, .. }) => assert_eq!(msg, "API key file is empty"),
        other => panic!("unexpected {:?}", other),
    }
    match load_auth_token(KeyFile::Unreadable("denied".to_string())) {
        Err(ShellError::GenericError { error, msg, help }) => {
            assert_eq!(error, "Failed to read API key");
            assert_eq!(msg, "denied");
            assert_eq!(help, Some("Check file permissions".to_string()));
        }
        other => panic!("unexpected {:?}", other),
    }
    assert!(matches!(load_auth_token(KeyFile::NoConfigDir), Err(ShellError::GenericError { help: None, .. })));
}

#[test]
fn plugin_client_uses_the_configured_endpoint() {
    let mut config = PluginConfig::load_or_default();
    assert_eq!(config.cache_ttl, 300);
    assert!(config.default_space.is_none());
    config.api_endpoint = "http://127.0.0.1:9".to_string();
    let c = client_config(&config);
    assert_eq!(c.base_url, "http://127.0.0.1:9");
    assert_eq!(c.timeout_seconds, 30);
    assert_eq!(c.app_name, "anytype_rs");
}

#[test]
fn test_default_config_values() {
    let config = ClientConfig::default();
    assert_eq!(config.base_url, "http://localhost:31009");
    assert_eq!(config.timeout_seconds, 30);
    assert_eq!(config.app_name, "anytype_rs");
}

#[test]
fn failed_answers_become_errors() {
    assert!(matches!(error_for_status(401, "no".to_string()), AnytypeError::Auth { message } if message == "no"));
    assert!(matches!(error_for_status(403, "no".to_string()), AnytypeError::Auth { .. }));
    assert!(matches!(error_for_status(404, "gone".to_string()), AnytypeError::Api { message } if message == "gone"));
    assert!(matches!(
        unreadable_error("500 Internal Server Error", "EOF"),
        AnytypeError::Api { message } if message == "HTTP 500 Internal Server Error - EOF"
    ));
}

#[test]
fn requests_go_to_the_api_paths() {
    let config = ClientConfig::default();
    assert_eq!(request_url(&config, "/v1/spaces"), "http://localhost:31009/v1/spaces");
    assert_eq!(challenges_path(), "/v1/auth/challenges");
    assert_eq!(api_keys_path(), "/v1/auth/api_keys");
    assert_eq!(list_views_path("s", "l"), "/v1/spaces/s/lists/l/views");
}

#[test]
fn command_errors_say_what_failed() {
    assert_eq!(failure("list types", "boom").msg, "Failed to list types: boom");
    let e = resolver_unavailable("no key");
    assert_eq!(e.msg, "Failed to get resolver: no key");
    assert_eq!(e.label, Some("Authentication required".to_string()));
    assert_eq!(client_unavailable("x").msg, "Failed to get client: x");
    assert_eq!(
        resolve_failure("type", "Task", "space", "sp_1", "not found").msg,
        "Failed to resolve type 'Task' in space 'sp_1': not found"
    );
}

#[test]
fn objects_without_a_type_key_are_skipped_or_refused() {
    let kept = ObjectList::keyed(vec![object("a", Some("page")), object("b", None), object("c", Some("note"))]);
    assert_eq!(kept.iter().map(|o| o.id.clone()).collect::<Vec<_>>(), vec!["a".to_string(), "c".to_string()]);
    assert_eq!(ObjectGet::type_key(&object("x", None)).unwrap_err().msg, "Object x missing type key");
    assert_eq!(returned_type_key(&object("x", None)).unwrap_err().msg, "Object missing type key");
    assert_eq!(returned_type_key(&object("x", Some("page"))).unwrap(), "page");
}

#[test]
fn object_values_fall_back_to_the_type_key() {
    let v = object_value(object("o", Some("page")), "sp", "page".to_string(), None);
    assert_eq!(v.type_id(), Some("page"));
    let v = object_value(object("o", Some("page")), "sp", "page".to_string(), Some("ty_9".to_string()));
    assert_eq!(v.type_id(), Some("ty_9"));
    assert_eq!(v.type_key(), Some("page"));
}

#[test]
fn object_requests() {
    let r = ObjectCreate::request("Doc".to_string(), None);
    assert_eq!(r.type_key, "page");
    assert_eq!(r.name, Some("Doc".to_string()));
    assert!(ObjectUpdate::request(None, None).is_err());
    let u = ObjectUpdate::request(None, Some("# md".to_string())).unwrap();
    assert_eq!(u.markdown, Some("# md".to_string()));
}

#[test]
fn tag_updates_forget_both_names() {
    let mut resolver = Resolver::new(300, true);
    let tags = vec![Tag { color: None, id: "t1".to_string(), key: "k".to_string(), name: "Old".to_string(), object: "tag".to_string() }];
    assert_eq!(resolver.resolve_tag_from("p", "Old", &tags).unwrap(), "t1");
    assert_eq!(resolver.cached_tag("p", "Old"), Some("t1".to_string()));
    TagUpdate::forget_names(&mut resolver, "p", "Old", &Some("New".to_string()));
    assert_eq!(resolver.cached_tag("p", "Old"), None);
    let r = TagUpdate::request(Some("New".to_string()), None);
    assert_eq!(r.name, Some("New".to_string()));
    assert_eq!(TagCreate::request("T".to_string(), None).name, "T");
}

#[test]
fn cache_commands() {
    let mut resolver = Resolver::new(60, true);
    let spaces = vec![Space {
        id: "sp".to_string(),
        name: "Work".to_string(),
        object: None,
        description: None,
        icon: None,
        gateway_url: None,
        network_id: None,
    }];
    resolver.resolve_space_from("Work", &spaces).unwrap();
    assert_eq!(CacheClear::run(&mut resolver), "Cache cleared");
    assert_eq!(resolver.cached_space("Work"), None);
    let stats = CacheStats::report(&PluginConfig::load_or_default());
    assert_eq!(stats.fields[1], ("ttl_seconds".to_string(), Cell::Int(300)));
    let mut expected = Record::new();
    expected.push("name", Cell::Text("Task".to_string()));
    expected.push("id", Cell::Text("ty".to_string()));
    expected.push("key", Cell::Text("task".to_string()));
    assert_eq!(ResolveType::record("Task".to_string(), "ty".to_string(), "task".to_string()), expected);
    let values = SpaceList::values(spaces);
    assert_eq!(values.len(), 1);
    assert!(matches!(&values[0], AnytypeValue::Space { id, .. } if id == "sp"));
}

fn space_called(id: &str, name: &str) -> Space {
    Space {
        id: id.to_string(),
        name: name.to_string(),
        object: None,
        description: None,
        icon: None,
        gateway_url: None,
        network_id: None,
    }
}

#[test]
fn space_names_resolve_without_regard_to_case_by_default() {
    let config = PluginConfig::load_or_default();
    let mut resolver = Resolver::new(config.cache_ttl, config.case_insensitive);
    let spaces = vec![space_called("sp1", "Archive"), space_called("sp2", "Work")];
    assert_eq!(resolver.resolve_space_from("work", &spaces).unwrap(), "sp2");
    assert_eq!(resolver.cached_space("work"), Some("sp2".to_string()));
    assert_eq!(resolver.resolve_space_from("WORK", &spaces).unwrap(), "sp2");
    let err = resolver.resolve_space_from("Home", &spaces).unwrap_err();
    assert!(matches!(err, anytype_rs::AnytypeError::Api { ref message } if message == "No Space found with name 'Home'"));
}

#[test]
fn space_names_resolve_exactly_when_case_matters() {
    let mut resolver = Resolver::new(300, false);
    let spaces = vec![space_called("sp2", "Work")];
    assert!(resolver.resolve_space_from("work", &spaces).is_err());
    assert_eq!(resolver.cached_space("work"), None);
    assert_eq!(resolver.resolve_space_from("Work", &spaces).unwrap(), "sp2");
}

#[test]
fn tag_names_resolve_without_regard_to_case() {
    let mut resolver = Resolver::new(300, true);
    let tags = vec![Tag { color: None, id: "t1".to_string(), key: "k".to_string(), name: "Urgent".to_string(), object: "tag".to_string() }];
    assert_eq!(resolver.resolve_tag_from("p", "urgent", &tags).unwrap(), "t1");
}

#[test]
fn commands_forget_cached_names_only_once_the_api_agrees() {

    let mut resolver = Resolver::new(300, true);
    let spaces = vec![space_called("sp", "Work")];
    resolver.resolve_space_from("Work", &spaces).unwrap();

    let failed: Result<u32, String> = Err("HTTP 500".to_string());
    let e = PropertyCreate::settle(&mut resolver, "sp", failed).unwrap_err();
    assert_eq!(e.msg, "Failed to create property: HTTP 500");
    assert_eq!(resolver.cached_space("Work"), Some("sp".to_string()));

    assert_eq!(PropertyCreate::settle(&mut resolver, "sp", Ok(7u32)).unwrap(), 7);
    assert_eq!(resolver.cached_space("Work"), None);

    let tags = vec![Tag { color: None, id: "t1".to_string(), key: "k".to_string(), name: "Old".to_string(), object: "tag".to_string() }];
    resolver.resolve_tag_from("p", "Old", &tags).unwrap();
    let e = TagDelete::settle::<()>(&mut resolver, "p", "Old", Err("gone".to_string())).unwrap_err();
    assert_eq!(e.msg, "Failed to delete tag: gone");
    assert_eq!(resolver.cached_tag("p", "Old"), Some("t1".to_string()));
    TagDelete::settle(&mut resolver, "p", "Old", Ok(())).unwrap();
    assert_eq!(resolver.cached_tag("p", "Old"), None);

    resolver.resolve_space_from("Work", &spaces).unwrap();
    assert_eq!(TypeUpdate::settle::<()>(&mut resolver, "sp", "ty", Err("x".to_string())).unwrap_err().msg, "Failed to update type: x");
    TypeCreate::settle(&mut resolver, Ok(())).unwrap();
    assert_eq!(resolver.cached_space("Work"), None);
}
