use bucket_gateway::config::{config_from_json, ConfigError};
use bucket_gateway::json::JsonValue;

fn text(s: &str) -> JsonValue {
    JsonValue::Text(s.to_string())
}

fn site(bucket: &str) -> JsonValue {
    JsonValue::Object(vec![("bucket".to_string(), text(bucket))])
}

fn good_doc() -> JsonValue {
    JsonValue::Object(vec![
        ("s3_region".to_string(), text("us-east-1")),
        ("s3_endpoint".to_string(), text("http://localhost:9000")),
        (
            "sites".to_string(),
            JsonValue::Object(vec![("a.example.com".to_string(), site("bucket-a"))]),
        ),
    ])
}

#[test]
fn valid_document_accepted() {
    let c = config_from_json(&good_doc()).unwrap();
    assert_eq!(c.s3_region, "us-east-1");
    assert_eq!(c.s3_endpoint, "http://localhost:9000");
    assert_eq!(c.sites.len(), 1);
    assert_eq!(c.sites[0].0, "a.example.com");
    assert_eq!(c.sites[0].1.bucket, "bucket-a");
}

#[test]
fn unknown_top_level_field_rejected() {
    let doc = JsonValue::Object(vec![
        ("s3_region".to_string(), text("r")),
        ("s3_endpoint".to_string(), text("e")),
        ("sites".to_string(), JsonValue::Object(vec![])),
        ("cache".to_string(), JsonValue::Bool(true)),
    ]);
    assert!(matches!(
        config_from_json(&doc),
        Err(ConfigError::UnknownField(_))
    ));
}

#[test]
fn unknown_site_field_rejected() {
    let bad_site = JsonValue::Object(vec![
        ("bucket".to_string(), text("b")),
        ("acl".to_string(), text("public")),
    ]);
    let doc = JsonValue::Object(vec![
        ("s3_region".to_string(), text("r")),
        ("s3_endpoint".to_string(), text("e")),
        (
            "sites".to_string(),
            JsonValue::Object(vec![("h".to_string(), bad_site)]),
        ),
    ]);
    assert!(matches!(
        config_from_json(&doc),
        Err(ConfigError::UnknownField(_))
    ));
}

#[test]
fn missing_field_rejected() {
    let doc = JsonValue::Object(vec![
        ("s3_region".to_string(), text("r")),
        ("sites".to_string(), JsonValue::Object(vec![])),
    ]);
    assert!(matches!(
        config_from_json(&doc),
        Err(ConfigError::MissingField(_))
    ));
}

#[test]
fn wrong_type_rejected() {
    let doc = JsonValue::Object(vec![
        ("s3_region".to_string(), JsonValue::Number),
        ("s3_endpoint".to_string(), text("e")),
        ("sites".to_string(), JsonValue::Object(vec![])),
    ]);
    assert!(matches!(
        config_from_json(&doc),
        Err(ConfigError::WrongType(_))
    ));
}

#[test]
fn sites_must_be_object() {
    let doc = JsonValue::Object(vec![
        ("s3_region".to_string(), text("r")),
        ("s3_endpoint".to_string(), text("e")),
        ("sites".to_string(), JsonValue::Array(vec![])),
    ]);
    assert!(matches!(
        config_from_json(&doc),
        Err(ConfigError::WrongType(_))
    ));
}

#[test]
fn duplicate_field_rejected() {
    let doc = JsonValue::Object(vec![
        ("s3_region".to_string(), text("r")),
        ("s3_region".to_string(), text("r2")),
        ("s3_endpoint".to_string(), text("e")),
        ("sites".to_string(), JsonValue::Object(vec![])),
    ]);
    match config_from_json(&doc) {
        Err(ConfigError::DuplicateField(f)) => assert_eq!(f, "s3_region"),
        other => panic!("expected a duplicate-field error, got {other:?}"),
    }
}

#[test]
fn duplicate_site_key_rejected() {
    let doc = JsonValue::Object(vec![
        ("s3_region".to_string(), text("r")),
        ("s3_endpoint".to_string(), text("e")),
        (
            "sites".to_string(),
            JsonValue::Object(vec![
                ("h.example.com".to_string(), site("b1")),
                ("h.example.com".to_string(), site("b2")),
            ]),
        ),
    ]);
    match config_from_json(&doc) {
        Err(ConfigError::DuplicateField(f)) => assert_eq!(f, "h.example.com"),
        other => panic!("expected a duplicate-field error, got {other:?}"),
    }
}

#[test]
fn duplicate_bucket_field_rejected() {
    let bad_site = JsonValue::Object(vec![
        ("bucket".to_string(), text("b1")),
        ("bucket".to_string(), text("b2")),
    ]);
    let doc = JsonValue::Object(vec![
        ("s3_region".to_string(), text("r")),
        ("s3_endpoint".to_string(), text("e")),
        (
            "sites".to_string(),
            JsonValue::Object(vec![("h".to_string(), bad_site)]),
        ),
    ]);
    match config_from_json(&doc) {
        Err(ConfigError::DuplicateField(f)) => assert_eq!(f, "bucket"),
        other => panic!("expected a duplicate-field error, got {other:?}"),
    }
}

#[test]
fn non_object_document_rejected() {
    assert!(matches!(
        config_from_json(&JsonValue::Null),
        Err(ConfigError::NotAnObject)
    ));
    assert!(matches!(
        config_from_json(&text("x")),
        Err(ConfigError::NotAnObject)
    ));
}

#[test]
fn site_missing_bucket_rejected() {
    let doc = JsonValue::Object(vec![
        ("s3_region".to_string(), text("r")),
        ("s3_endpoint".to_string(), text("e")),
        (
            "sites".to_string(),
            JsonValue::Object(vec![("h".to_string(), JsonValue::Object(vec![]))]),
        ),
    ]);
    assert!(matches!(
        config_from_json(&doc),
        Err(ConfigError::MissingField(_))
    ));
}

#[test]
fn empty_sites_accepted() {
    let doc = JsonValue::Object(vec![
        ("s3_region".to_string(), text("r")),
        ("s3_endpoint".to_string(), text("e")),
        ("sites".to_string(), JsonValue::Object(vec![])),
    ]);
    let c = config_from_json(&doc).unwrap();
    assert_eq!(c.sites.len(), 0);
}
