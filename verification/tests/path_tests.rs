use bucket_gateway::path::normalize_path;

#[test]
fn root_path_gets_index() {
    assert_eq!(normalize_path("/"), "/index.html");
}

#[test]
fn directory_path_gets_index() {
    assert_eq!(normalize_path("/docs/"), "/docs/index.html");
}

#[test]
fn file_path_unchanged() {
    assert_eq!(normalize_path("/docs/page.html"), "/docs/page.html");
}

#[test]
fn empty_path_unchanged() {
    assert_eq!(normalize_path(""), "");
}

#[test]
fn extensionless_path_unchanged() {
    assert_eq!(normalize_path("/about"), "/about");
}
