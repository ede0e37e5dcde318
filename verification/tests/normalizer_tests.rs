use ci_cd_optimizer::errors::AppError;
use ci_cd_optimizer::perceiver::event::{EventType, NormalizedEvent, Platform};
use ci_cd_optimizer::perceiver::{github, gitlab};

fn github_payload(status: &str, conclusion: Option<&str>) -> Vec<u8> {
    let conclusion_json = match conclusion {
        Some(c) => format!("\"{}\"", c),
        None => "null".to_string(),
    };
    let mut body = String::from("{\"workflow_job\":{\"id\":\"77\",\"run_id\":\"123\",\"run_attempt\":2,\"status\":\"");
    body.push_str(status);
    body.push_str("\",\"conclusion\":");
    body.push_str(&conclusion_json);
    body.push_str(",\"logs_url\":\"https://api.github.com/logs/77\",\"head_sha\":\"abc123\"},\"repository\":{\"full_name\":\"octo/widgets\"}}");
    body.into_bytes()
}

fn gitlab_payload(status: &str) -> Vec<u8> {
    let mut body = String::from("{\"object_attributes\":{\"id\":\"55\",\"pipeline_id\":\"9\",\"status\":\"");
    body.push_str(status);
    body.push_str("\",\"name\":\"build-job\",\"stage\":\"build\"},\"project\":{\"web_url\":\"https://gitlab.example.com/grp/proj\",\"path_with_namespace\":\"grp/proj\"},\"commit\":{\"id\":\"def456\"}}");
    body.into_bytes()
}

#[test]
fn completed_failure_yields_job_failed() {
    let e = github::parse_payload(&github_payload("completed", Some("failure"))).unwrap();
    assert_eq!(e.event_type, EventType::JobFailed);
}

#[test]
fn completed_success_yields_job_succeeded() {
    let e = github::parse_payload(&github_payload("completed", Some("success"))).unwrap();
    assert_eq!(e.event_type, EventType::JobSucceeded);
}

#[test]
fn completed_without_conclusion_fails_closed() {
    let e = github::parse_payload(&github_payload("completed", None)).unwrap();
    assert_eq!(e.event_type, EventType::JobFailed);
    let e = github::parse_payload(&github_payload("completed", Some("cancelled"))).unwrap();
    assert_eq!(e.event_type, EventType::JobFailed);
    let e = github::parse_payload(&github_payload("completed", Some("skipped"))).unwrap();
    assert_eq!(e.event_type, EventType::JobFailed);
}

#[test]
fn queued_and_in_progress_start_a_job() {
    let e = github::parse_payload(&github_payload("queued", None)).unwrap();
    assert_eq!(e.event_type, EventType::JobStarted);
    let e = github::parse_payload(&github_payload("in_progress", None)).unwrap();
    assert_eq!(e.event_type, EventType::JobStarted);
}

#[test]
fn unknown_github_status_fails_closed() {
    let e = github::parse_payload(&github_payload("waiting", None)).unwrap();
    assert_eq!(e.event_type, EventType::JobFailed);
}

#[test]
fn github_platform_id_composition() {
    let e = github::parse_payload(&github_payload("completed", Some("success"))).unwrap();
    assert_eq!(e.platform_id, "github#123");
    assert_eq!(e.pipeline_id, "123");
    assert_eq!(e.job_id.as_deref(), Some("77"));
    assert_eq!(e.logs_uri.as_deref(), Some("https://api.github.com/logs/77"));
    assert_eq!(e.metadata.get("repository").map(String::as_str), Some("octo/widgets"));
    assert_eq!(e.metadata.get("commit_sha").map(String::as_str), Some("abc123"));
    assert_eq!(e.metadata.get("run_attempt").map(String::as_str), Some("2"));
}

#[test]
fn gitlab_platform_id_and_logs_uri_composition() {
    let e = gitlab::parse_payload(&gitlab_payload("failed")).unwrap();
    assert_eq!(e.platform, Platform::GitLab);
    assert_eq!(e.platform_id, "gitlab#9");
    assert_eq!(e.event_type, EventType::JobFailed);
    assert_eq!(
        e.logs_uri.as_deref(),
        Some("https://gitlab.example.com/grp/proj/-/jobs/55")
    );
    assert_eq!(e.metadata.get("project").map(String::as_str), Some("grp/proj"));
    assert_eq!(e.metadata.get("commit_sha").map(String::as_str), Some("def456"));
    assert_eq!(e.metadata.get("job_name").map(String::as_str), Some("build-job"));
    assert_eq!(e.metadata.get("stage").map(String::as_str), Some("build"));
}

#[test]
fn gitlab_status_table() {
    assert_eq!(gitlab::parse_payload(&gitlab_payload("pending")).unwrap().event_type, EventType::JobStarted);
    assert_eq!(gitlab::parse_payload(&gitlab_payload("running")).unwrap().event_type, EventType::JobStarted);
    assert_eq!(gitlab::parse_payload(&gitlab_payload("success")).unwrap().event_type, EventType::JobSucceeded);
    assert_eq!(gitlab::parse_payload(&gitlab_payload("failed")).unwrap().event_type, EventType::JobFailed);
    assert_eq!(gitlab::parse_payload(&gitlab_payload("canceled")).unwrap().event_type, EventType::JobFailed);
}

#[test]
fn platform_id_from_constructor() {
    let e = NormalizedEvent::new(
        Platform::GitHub,
        "42".to_string(),
        None,
        EventType::JobStarted,
        None,
    );
    assert_eq!(e.platform_id, "github#42");
    let e = NormalizedEvent::new(
        Platform::GitLab,
        "42".to_string(),
        None,
        EventType::JobStarted,
        None,
    );
    assert_eq!(e.platform_id, "gitlab#42");
}

#[test]
fn malformed_json_is_bad_request() {
    assert!(matches!(
        github::parse_payload(b"{not json"),
        Err(AppError::BadRequest(_))
    ));
    assert!(matches!(
        gitlab::parse_payload(b"[1,2,3"),
        Err(AppError::BadRequest(_))
    ));
}

#[test]
fn missing_required_field_is_bad_request() {
    assert!(matches!(
        github::parse_payload(b"{\"repository\":{\"full_name\":\"a/b\"}}"),
        Err(AppError::BadRequest(_))
    ));
    assert!(matches!(
        gitlab::parse_payload(b"{\"project\":{}}"),
        Err(AppError::BadRequest(_))
    ));
}
