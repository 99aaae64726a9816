use axum::http::{HeaderMap, HeaderValue};
use moranda_cids::intel::{extract_intel, user_agent_or_unknown};
use moranda_cids::text::{contains_text, same_text};

#[test]
fn missing_user_agent_becomes_unknown() {
    let headers = HeaderMap::new();
    let (ip, agent) = extract_intel(&headers, "10.0.0.7".to_string());
    assert_eq!(ip, "10.0.0.7");
    assert_eq!(agent, "Unknown");
}

#[test]
fn user_agent_header_is_read() {
    let mut headers = HeaderMap::new();
    headers.insert("User-Agent", HeaderValue::from_static("Nutch/1.2"));
    let (ip, agent) = extract_intel(&headers, "::1".to_string());
    assert_eq!(ip, "::1");
    assert_eq!(agent, "Nutch/1.2");
}

#[test]
fn unreadable_user_agent_becomes_unknown() {
    let mut headers = HeaderMap::new();
    headers.insert("user-agent", HeaderValue::from_bytes(b"bot\xff").unwrap());
    let (_, agent) = extract_intel(&headers, "127.0.0.1".to_string());
    assert_eq!(agent, "Unknown");
}

#[test]
fn placeholder_for_absent_value() {
    assert_eq!(user_agent_or_unknown(None), "Unknown");
    assert_eq!(user_agent_or_unknown(Some("curl/8.0")), "curl/8.0");
    assert_eq!(user_agent_or_unknown(Some("")), "");
}

#[test]
fn substring_search() {
    assert!(contains_text("Mozilla/5.0 Nutch/1.2", "Nutch"));
    assert!(contains_text("Nutch", "Nutch"));
    assert!(contains_text("abc", ""));
    assert!(contains_text("", ""));
    assert!(!contains_text("Nutc", "Nutch"));
    assert!(!contains_text("", "a"));
    assert!(contains_text("ééBecomeBot", "BecomeBot"));
    assert!(!contains_text("NutcH", "Nutch"));
}

#[test]
fn exact_text_equality() {
    assert!(same_text("/admin", "/admin"));
    assert!(!same_text("/admin", "/admin/"));
    assert!(!same_text("/Admin", "/admin"));
    assert!(same_text("", ""));
}
