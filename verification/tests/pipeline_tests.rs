use ci_cd_optimizer::analyzer::log_parser::split_log_lines;
use ci_cd_optimizer::config::loader::{config_query_for_event, decode_config_content, split_repo, ConfigQuery};
use ci_cd_optimizer::config::Config;
use ci_cd_optimizer::errors::AppError;
use ci_cd_optimizer::perceiver::event::{EventType, NormalizedEvent, Platform};
use ci_cd_optimizer::perceiver::webhook::{validate_secrets, WebhookProcessor};
use ci_cd_optimizer::planner::action_plan::ActionPlan;
use ci_cd_optimizer::runner::agent::{process_step, wants_logs, ProcessStage, ProcessState, StageInput};
use hmac::Mac;

fn sign_body(secret: &str, body: &[u8]) -> String {
    let mut mac = <hmac::Hmac<sha2::Sha256> as hmac::Mac>::new_from_slice(secret.as_bytes())
        .expect("any key length is accepted");
    mac.update(body);
    format!("sha256={}", hex::encode(mac.finalize().into_bytes()))
}

fn flaky_workflow_job_body() -> Vec<u8> {
    let mut body = String::from("{\"workflow_job\":{\"id\":\"77\",\"run_id\":\"123\",\"status\":\"completed\",\"conclusion\":\"failure\",\"logs_url\":\"https://api.github.com/logs/77\",\"head_sha\":\"abc123\"},\"repository\":{\"full_name\":\"octo/widgets\"}}");
    body.push('\n');
    body.into_bytes()
}

#[test]
fn end_to_end_flaky_flow_plans_a_comment() {
    let secret = "webhook-test-secret";
    let body = flaky_workflow_job_body();
    let signature = sign_body(secret, &body);

    let event = WebhookProcessor::process_github(Some(&signature), Some(secret), &body).unwrap();
    assert_eq!(event.event_type, EventType::JobFailed);
    assert!(wants_logs(&event));

    let state = ProcessState::Received;
    let state = process_step(&event, state, StageInput::ConfigResult(Ok(Config::default())));
    assert!(matches!(state, ProcessState::ConfigLoaded { .. }));

    let fetched = split_log_lines("Setting up runner\nTest foo_test failed\nDone\n");
    let state = process_step(&event, state, StageInput::LogsResult(Ok(Some(fetched))));
    match &state {
        ProcessState::Diagnosed { diagnoses, .. } => assert_eq!(diagnoses.len(), 1),
        other => panic!("expected a diagnosed state, got {:?}", other),
    }

    let state = process_step(&event, state, StageInput::Plan);
    match &state {
        ProcessState::Planned { actions } => {
            assert_eq!(actions.len(), 2);
            assert!(matches!(&actions[0], ActionPlan::RetryJob { job_id } if job_id == "77"));
            match &actions[1] {
                ActionPlan::CommentOnPR { message } => {
                    assert!(message.contains("Flaky test detected: `Test`"));
                }
                other => panic!("expected a comment, got {:?}", other),
            }
        }
        other => panic!("expected a planned state, got {:?}", other),
    }

    let state = process_step(&event, state, StageInput::ExecResult(Ok(())));
    assert!(matches!(state, ProcessState::Executed));
    let state = process_step(&event, state, StageInput::Plan);
    assert!(matches!(state, ProcessState::Executed));
}

#[test]
fn missing_signature_header_never_builds_an_event() {
    let body = flaky_workflow_job_body();
    let r = WebhookProcessor::process_github(None, Some("webhook-test-secret"), &body);
    assert!(matches!(r, Err(AppError::Unauthorized)));

    let rt = tokio::runtime::Builder::new_current_thread().build().unwrap();
    rt.block_on(async {
        let (tx, mut rx) = tokio::sync::mpsc::channel::<NormalizedEvent>(4);
        let outcome = WebhookProcessor::process_github(None, Some("webhook-test-secret"), &body);
        if let Ok(ev) = outcome {
            tx.send(ev).await.unwrap();
        }
        drop(tx);
        assert!(rx.recv().await.is_none());
    });
}

#[test]
fn gitlab_route_rejects_wrong_token_before_parsing() {
    let r = WebhookProcessor::process_gitlab(Some("wrong"), Some("right"), b"not json at all");
    assert!(matches!(r, Err(AppError::Unauthorized)));
    let r = WebhookProcessor::process_gitlab(None, Some("right"), b"{}");
    assert!(matches!(r, Err(AppError::Unauthorized)));
    let r = WebhookProcessor::process_gitlab(Some("right"), None, b"{}");
    assert!(matches!(r, Err(AppError::ConfigError(_))));
}

#[test]
fn full_queue_suspends_until_drained_and_keeps_order() {
    let rt = tokio::runtime::Builder::new_current_thread().build().unwrap();
    rt.block_on(async {
        let (tx, mut rx) = tokio::sync::mpsc::channel::<u32>(1);
        tx.send(1).await.unwrap();
        match tx.try_send(2) {
            Err(tokio::sync::mpsc::error::TrySendError::Full(v)) => assert_eq!(v, 2),
            other => panic!("expected the queue to be full, got {:?}", other),
        }
        let producer = tokio::spawn(async move {
            tx.send(2).await.unwrap();
            tx.send(3).await.unwrap();
        });
        assert_eq!(rx.recv().await, Some(1));
        assert_eq!(rx.recv().await, Some(2));
        assert_eq!(rx.recv().await, Some(3));
        producer.await.unwrap();
        assert!(rx.recv().await.is_none());
    });
}

#[test]
fn stage_failures_are_charged_to_their_stage() {
    let event = NormalizedEvent::new(
        Platform::GitHub,
        "1".to_string(),
        None,
        EventType::JobFailed,
        None,
    );
    let failed = process_step(
        &event,
        ProcessState::Received,
        StageInput::ConfigResult(Err(AppError::ConfigError("missing".to_string()))),
    );
    match &failed {
        ProcessState::Failed { stage, cause } => {
            assert_eq!(*stage, ProcessStage::Config);
            assert!(matches!(cause, AppError::ConfigError(_)));
        }
        other => panic!("expected a failed state, got {:?}", other),
    }
    let still_failed = process_step(&event, failed, StageInput::Plan);
    assert!(matches!(still_failed, ProcessState::Failed { stage: ProcessStage::Config, .. }));

    let state = process_step(
        &event,
        ProcessState::Received,
        StageInput::ConfigResult(Ok(Config::default())),
    );
    let failed = process_step(
        &event,
        state,
        StageInput::LogsResult(Err(AppError::HttpClient("connection refused".to_string()))),
    );
    assert!(matches!(
        failed,
        ProcessState::Failed { stage: ProcessStage::Diagnosis, cause: AppError::HttpClient(_) }
    ));

    let mismatched = process_step(
        &event,
        ProcessState::Received,
        StageInput::Plan,
    );
    assert!(matches!(
        mismatched,
        ProcessState::Failed { stage: ProcessStage::Config, cause: AppError::Internal(_) }
    ));
}

#[test]
fn config_query_extraction() {
    let mut event = NormalizedEvent::new(
        Platform::GitHub,
        "123".to_string(),
        None,
        EventType::JobFailed,
        None,
    );
    event.metadata.insert("repository".to_string(), "octo/widgets".to_string());
    event.metadata.insert("commit_sha".to_string(), "abc123".to_string());
    match config_query_for_event(&event).unwrap() {
        ConfigQuery::GitHub { owner, repo, sha } => {
            assert_eq!(owner, "octo");
            assert_eq!(repo, "widgets");
            assert_eq!(sha, "abc123");
        }
        other => panic!("expected a GitHub query, got {:?}", other),
    }

    let bare = NormalizedEvent::new(
        Platform::GitHub,
        "123".to_string(),
        None,
        EventType::JobFailed,
        None,
    );
    assert!(matches!(config_query_for_event(&bare), Err(AppError::BadRequest(_))));

    let mut flat = NormalizedEvent::new(
        Platform::GitHub,
        "123".to_string(),
        None,
        EventType::JobFailed,
        None,
    );
    flat.metadata.insert("repository".to_string(), "no-slash-here".to_string());
    flat.metadata.insert("commit_sha".to_string(), "abc".to_string());
    assert!(matches!(config_query_for_event(&flat), Err(AppError::BadRequest(_))));
}

#[test]
fn repo_split_requires_exactly_one_slash() {
    let (owner, name) = split_repo("octo/widgets").unwrap();
    assert_eq!(owner, "octo");
    assert_eq!(name, "widgets");
    assert!(split_repo("octowidgets").is_none());
    assert!(split_repo("a/b/c").is_none());
    let (owner, name) = split_repo("a/").unwrap();
    assert_eq!(owner, "a");
    assert_eq!(name, "");
}

#[test]
fn config_content_decoding() {
    let decoded = decode_config_content("aGVs\nbG8=").unwrap();
    assert_eq!(decoded, b"hello");
    assert!(matches!(
        decode_config_content("!!! not base64 !!!"),
        Err(AppError::ConfigError(_))
    ));
}

#[test]
fn default_config_values() {
    let c = Config::default();
    assert!(c.allow_flaky_retry);
    assert_eq!(c.max_job_duration, 3600);
}

#[test]
fn error_status_codes() {
    assert_eq!(AppError::Unauthorized.status_code(), 401);
    assert_eq!(AppError::BadRequest("x".to_string()).status_code(), 400);
    assert_eq!(AppError::ConfigError("x".to_string()).status_code(), 500);
    assert_eq!(AppError::Internal("x".to_string()).status_code(), 500);
    assert_eq!(AppError::Io("x".to_string()).status_code(), 500);
    assert_eq!(AppError::Channel("x".to_string()).status_code(), 500);
    assert_eq!(AppError::Http("x".to_string()).status_code(), 500);
    assert_eq!(AppError::HttpClient("x".to_string()).status_code(), 502);
    assert_eq!(AppError::RequestError("x".to_string()).status_code(), 400);
}

#[test]
fn error_messages_carry_context() {
    assert_eq!(AppError::Unauthorized.message(), "Authentication failed");
    assert_eq!(
        AppError::BadRequest("no body".to_string()).message(),
        "Bad request: no body"
    );
    assert_eq!(
        AppError::ConfigError("missing token".to_string()).message(),
        "Configuration error: missing token"
    );
}

#[test]
fn startup_requires_both_secrets() {
    assert!(validate_secrets(Some("a"), Some("b")).is_ok());
    assert!(matches!(validate_secrets(None, Some("b")), Err(AppError::ConfigError(_))));
    assert!(matches!(validate_secrets(Some("a"), None), Err(AppError::ConfigError(_))));
    assert!(matches!(validate_secrets(None, None), Err(AppError::ConfigError(_))));
}
