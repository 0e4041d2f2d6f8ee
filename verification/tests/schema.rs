use ddev_manager::error::DdevError;
use ddev_manager::schema::{
    fetch_schema, get_schema, is_schema_stale, keep_present, schema_dir_name, schema_failure,
    schema_file_name, schema_url, CacheAge, DdevSchema, EnumDef, RawDefs, RawSchema, SchemaFailure,
    SchemaFetch,
};
use ddev_manager::text::strings;
use serde_json::Value;

fn enum_of(values: Vec<Value>) -> Option<EnumDef> {
    Some(EnumDef { values: Some(values) })
}

fn text_values(texts: &[&str]) -> Vec<Value> {
    texts.iter().map(|t| Value::String(t.to_string())).collect()
}

fn raw_with(php: Option<EnumDef>, types: Option<EnumDef>) -> RawSchema {
    RawSchema {
        defs: Some(RawDefs {
            php_version: php,
            project_type: types,
            database_type: None,
            webserver_type: None,
            nodejs_version: None,
        }),
    }
}

#[test]
fn fallback_schema_lists_the_known_values() {
    let schema = DdevSchema::fallback();
    assert_eq!(
        schema.php_versions,
        strings(&["5.6", "7.0", "7.1", "7.2", "7.3", "7.4", "8.0", "8.1", "8.2", "8.3", "8.4"])
    );
    assert_eq!(
        schema.project_types,
        strings(&[
            "backdrop",
            "craftcms",
            "drupal",
            "drupal6",
            "drupal7",
            "laravel",
            "magento",
            "magento2",
            "php",
            "shopware6",
            "silverstripe",
            "typo3",
            "wordpress"
        ])
    );
    assert_eq!(schema.database_types, strings(&["mariadb", "mysql", "postgres"]));
    assert_eq!(schema.webserver_types, strings(&["nginx-fpm", "apache-fpm"]));
    assert_eq!(schema.nodejs_versions, strings(&["16", "18", "20", "22"]));
    assert!(schema.is_valid());
    assert_eq!(schema.duplicate(), schema);
}

#[test]
fn raw_schema_keeps_the_strings_only() {
    let raw = RawSchema {
        defs: Some(RawDefs {
            php_version: enum_of(vec![
                Value::String("8.2".to_string()),
                Value::Null,
                Value::Bool(true),
                Value::String("8.3".to_string()),
                Value::from(8),
                Value::Array(vec![Value::String("9.0".to_string())]),
                Value::String(String::new()),
            ]),
            project_type: enum_of(text_values(&["php", "drupal"])),
            database_type: Some(EnumDef { values: None }),
            webserver_type: None,
            nodejs_version: enum_of(Vec::new()),
        }),
    };
    let schema = DdevSchema::from_raw(&raw);
    assert_eq!(schema.php_versions, strings(&["8.2", "8.3", ""]));
    assert_eq!(schema.project_types, strings(&["php", "drupal"]));
    assert!(schema.database_types.is_empty());
    assert!(schema.webserver_types.is_empty());
    assert!(schema.nodejs_versions.is_empty());
    assert!(schema.is_valid());
}

#[test]
fn raw_schema_without_definitions_is_empty() {
    let schema = DdevSchema::from_raw(&RawSchema { defs: None });
    assert!(schema.php_versions.is_empty());
    assert!(schema.project_types.is_empty());
    assert!(!schema.is_valid());
}

#[test]
fn a_schema_needs_php_versions_and_project_types() {
    let both = DdevSchema::from_raw(&raw_with(
        enum_of(text_values(&["8.3"])),
        enum_of(text_values(&["php"])),
    ));
    assert!(both.is_valid());
    let no_types = DdevSchema::from_raw(&raw_with(enum_of(text_values(&["8.3"])), None));
    assert!(!no_types.is_valid());
    let no_php = DdevSchema::from_raw(&raw_with(
        enum_of(vec![Value::from(8)]),
        enum_of(text_values(&["php"])),
    ));
    assert!(!no_php.is_valid());
}

#[test]
fn present_texts_are_kept_in_order() {
    assert_eq!(
        keep_present(vec![
            None,
            Some("a".to_string()),
            None,
            None,
            Some("b".to_string()),
            Some("a".to_string()),
        ]),
        strings(&["a", "b", "a"])
    );
    assert!(keep_present(vec![None, None]).is_empty());
    assert!(keep_present(Vec::new()).is_empty());
}

#[test]
fn fetched_schema_is_checked() {
    let good = fetch_schema(SchemaFetch::Fetched(raw_with(
        enum_of(text_values(&["8.3"])),
        enum_of(text_values(&["php"])),
    )));
    assert_eq!(good.map(|s| s.php_versions), Ok(strings(&["8.3"])));
    let lacking = fetch_schema(SchemaFetch::Fetched(RawSchema { defs: None }));
    assert_eq!(
        lacking,
        Err(DdevError::ParseError("Schema is missing required fields".to_string()))
    );
    let failed = fetch_schema(SchemaFetch::Failed(SchemaFailure::Status(
        "404 Not Found".to_string(),
    )));
    assert_eq!(
        failed,
        Err(DdevError::CommandFailed("Failed to fetch schema: HTTP 404 Not Found".to_string()))
    );
}

#[test]
fn schema_failures_become_errors() {
    let text = |s: &str| s.to_string();
    assert_eq!(
        schema_failure(SchemaFailure::NoDataDir),
        DdevError::IoError(text("Could not determine app data directory"))
    );
    assert_eq!(
        schema_failure(SchemaFailure::CreateDir(text("denied"))),
        DdevError::IoError(text("Failed to create app data directory: denied"))
    );
    assert_eq!(
        schema_failure(SchemaFailure::Request(text("timeout"))),
        DdevError::CommandFailed(text("Failed to fetch schema: timeout"))
    );
    assert_eq!(
        schema_failure(SchemaFailure::Body(text("reset"))),
        DdevError::CommandFailed(text("Failed to read schema response: reset"))
    );
    assert_eq!(
        schema_failure(SchemaFailure::Json(text("EOF"))),
        DdevError::ParseError(text("Failed to parse schema: EOF"))
    );
    assert_eq!(
        schema_failure(SchemaFailure::NoCache),
        DdevError::IoError(text("Cached schema not found"))
    );
    assert_eq!(
        schema_failure(SchemaFailure::ReadCache(text("denied"))),
        DdevError::IoError(text("Failed to read cached schema: denied"))
    );
    assert_eq!(
        schema_failure(SchemaFailure::CacheJson(text("EOF"))),
        DdevError::ParseError(text("Failed to parse cached schema: EOF"))
    );
    assert_eq!(
        schema_failure(SchemaFailure::Serialize(text("loop"))),
        DdevError::ParseError(text("Failed to serialize schema: loop"))
    );
    assert_eq!(
        schema_failure(SchemaFailure::WriteCache(text("full"))),
        DdevError::IoError(text("Failed to write schema cache: full"))
    );
}

#[test]
fn the_kept_schema_is_stale_after_a_day() {
    assert!(is_schema_stale(CacheAge::Unknown));
    assert!(!is_schema_stale(CacheAge::Age { seconds: 0, nanos: 0 }));
    assert!(!is_schema_stale(CacheAge::Age { seconds: 86399, nanos: 999_999_999 }));
    assert!(!is_schema_stale(CacheAge::Age { seconds: 86400, nanos: 0 }));
    assert!(is_schema_stale(CacheAge::Age { seconds: 86400, nanos: 1 }));
    assert!(is_schema_stale(CacheAge::Age { seconds: 86401, nanos: 0 }));
    assert!(is_schema_stale(CacheAge::Age { seconds: u64::MAX, nanos: 999_999_999 }));
}

#[test]
fn the_schema_comes_from_cache_then_fetch_then_fallback() {
    let kept = DdevSchema {
        php_versions: strings(&["8.1"]),
        project_types: strings(&["php"]),
        database_types: Vec::new(),
        webserver_types: Vec::new(),
        nodejs_versions: Vec::new(),
    };
    let fresh = DdevSchema { php_versions: strings(&["8.4"]), ..kept.clone() };
    assert_eq!(get_schema(Some(kept.clone()), Some(fresh.clone())), kept);
    assert_eq!(get_schema(Some(kept.clone()), None), kept);
    assert_eq!(get_schema(None, Some(fresh.clone())), fresh);
    assert_eq!(get_schema(None, None), DdevSchema::fallback());
}

#[test]
fn schema_places() {
    assert_eq!(
        schema_url(),
        "https://raw.githubusercontent.com/ddev/ddev/master/pkg/ddevapp/schema.json"
    );
    assert_eq!(schema_file_name(), "ddev-schema.json");
    assert_eq!(schema_dir_name(), "ddev-manager");
}
