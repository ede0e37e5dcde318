use ci_cd_optimizer::analyzer::log_parser::split_log_lines;
use ci_cd_optimizer::perceiver::event::{EventType, Metadata, NormalizedEvent, Platform};
use ci_cd_optimizer::runner::agent::wants_logs;
use ci_cd_optimizer::strutil::{str_contains, str_eq, u64_to_string};

#[test]
fn metadata_missing_key_is_none() {
    let m = Metadata::new();
    assert!(m.get("repository").is_none());
}

#[test]
fn metadata_insert_then_get() {
    let mut m = Metadata::new();
    m.insert("repository".to_string(), "octo/widgets".to_string());
    m.insert("commit_sha".to_string(), "abc".to_string());
    assert_eq!(m.get("repository").map(String::as_str), Some("octo/widgets"));
    assert_eq!(m.get("commit_sha").map(String::as_str), Some("abc"));
    assert!(m.get("stage").is_none());
}

#[test]
fn metadata_insert_replaces_earlier_value() {
    let mut m = Metadata::new();
    m.insert("commit_sha".to_string(), "old".to_string());
    m.insert("commit_sha".to_string(), "new".to_string());
    assert_eq!(m.get("commit_sha").map(String::as_str), Some("new"));
}

#[test]
fn decimal_rendering_edges() {
    assert_eq!(u64_to_string(0), "0");
    assert_eq!(u64_to_string(7), "7");
    assert_eq!(u64_to_string(10), "10");
    assert_eq!(u64_to_string(3600), "3600");
    assert_eq!(u64_to_string(u64::MAX), "18446744073709551615");
}

#[test]
fn string_helpers() {
    assert!(str_eq("abc", "abc"));
    assert!(!str_eq("abc", "abd"));
    assert!(!str_eq("abc", "ab"));
    assert!(str_contains("https://api.github.com/x", "github.com"));
    assert!(!str_contains("github.co", "github.com"));
    assert!(str_contains("anything", ""));
}

#[test]
fn lone_carriage_return_stays_in_its_line() {
    assert_eq!(split_log_lines("a\rb\nc"), vec!["a\rb", "c"]);
    assert_eq!(split_log_lines("tail\r"), vec!["tail\r"]);
}

#[test]
fn log_fetch_wanted_only_with_locator() {
    let with = NormalizedEvent::new(
        Platform::GitLab,
        "9".to_string(),
        None,
        EventType::JobFailed,
        Some("https://gitlab.example.com/x/-/jobs/1".to_string()),
    );
    assert!(wants_logs(&with));
    let without = NormalizedEvent::new(
        Platform::GitLab,
        "9".to_string(),
        None,
        EventType::JobFailed,
        None,
    );
    assert!(!wants_logs(&without));
}
