use bucket_gateway::strutil::{ascii_lower, str_eq};

#[test]
fn lowercases_ascii_uppercase() {
    assert_eq!(ascii_lower("A.EXAMPLE.COM"), "a.example.com");
}

#[test]
fn leaves_lowercase_and_symbols() {
    assert_eq!(ascii_lower("a-b.example_9.com"), "a-b.example_9.com");
}

#[test]
fn lowercases_mixed_case() {
    assert_eq!(ascii_lower("MiXeD.CaSe"), "mixed.case");
}

#[test]
fn empty_string_stays_empty() {
    assert_eq!(ascii_lower(""), "");
}

#[test]
fn str_eq_agrees_with_equality() {
    assert!(str_eq("abc", "abc"));
    assert!(!str_eq("abc", "abd"));
    assert!(!str_eq("abc", "ab"));
    assert!(str_eq("", ""));
}
