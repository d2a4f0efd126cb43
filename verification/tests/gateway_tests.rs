use bucket_gateway::config::config_from_json;
use bucket_gateway::dispatch::{finish_request, route, RequestOutcome, RouteDecision};
use bucket_gateway::json::JsonValue;
use bucket_gateway::registry::SiteRegistry;

fn creds() -> s3::creds::Credentials {
    s3::creds::Credentials::new(Some("test-access"), Some("test-secret"), None, None, None)
        .unwrap()
}

fn registry_from_document() -> SiteRegistry {
    let doc = JsonValue::Object(vec![
        (
            "s3_region".to_string(),
            JsonValue::Text("us-east-1".to_string()),
        ),
        (
            "s3_endpoint".to_string(),
            JsonValue::Text("http://localhost:9000".to_string()),
        ),
        (
            "sites".to_string(),
            JsonValue::Object(vec![(
                "a.example.com".to_string(),
                JsonValue::Object(vec![(
                    "bucket".to_string(),
                    JsonValue::Text("bucket-a".to_string()),
                )]),
            )]),
        ),
    ]);
    let config = config_from_json(&doc).unwrap();
    SiteRegistry::build(&config, creds()).unwrap()
}

#[test]
fn document_to_fetch_plan() {
    let reg = registry_from_document();
    match route(&reg, "A.EXAMPLE.COM", "/") {
        RouteDecision::Fetch { site, key } => {
            assert_eq!(site.bucket_name, "bucket-a");
            assert_eq!(key, "/index.html");
        }
        RouteDecision::UnknownHost => panic!("expected a fetch decision"),
    }
}

#[test]
fn document_to_unknown_host_404() {
    let reg = registry_from_document();
    match route(&reg, "unknown.example.com", "/") {
        RouteDecision::Fetch { .. } => panic!("no fetch may be attempted"),
        RouteDecision::UnknownHost => {}
    }
    let reply = finish_request("unknown.example.com", "/", RequestOutcome::UnknownHost);
    assert_eq!(reply.status, 404);
    assert!(reply.log.is_none());
}
