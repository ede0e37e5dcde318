use ci_cd_optimizer::analyzer::diagnosis::Diagnosis;
use ci_cd_optimizer::analyzer::{analyze_event, detect_flaky_tests, extract_test_name, line_matches_flaky};
use ci_cd_optimizer::analyzer::log_parser::{logs_host_is_github, split_log_lines};
use ci_cd_optimizer::config::Config;
use ci_cd_optimizer::perceiver::event::{EventType, NormalizedEvent, Platform};
use ci_cd_optimizer::planner::action_plan::ActionPlan;
use ci_cd_optimizer::planner::plan_actions;

fn failed_event(job_id: Option<&str>) -> NormalizedEvent {
    let mut e = NormalizedEvent::new(
        Platform::GitHub,
        "123".to_string(),
        job_id.map(str::to_string),
        EventType::JobFailed,
        Some("https://api.github.com/logs/77".to_string()),
    );
    e.metadata.insert("repository".to_string(), "octo/widgets".to_string());
    e
}

#[test]
fn flaky_line_pattern_matching() {
    assert!(line_matches_flaky("Test foo_test failed"));
    assert!(line_matches_flaky("the spec widget_spec FAILED hard"));
    assert!(line_matches_flaky("TEST xyz failed"));
    assert!(!line_matches_flaky("all tests passed"));
    assert!(!line_matches_flaky("failed before any test ran"));
    assert!(!line_matches_flaky(""));
}

#[test]
fn first_token_extraction() {
    assert_eq!(extract_test_name("Test foo_test failed"), "Test");
    assert_eq!(extract_test_name("   leading spaces here"), "leading");
    assert_eq!(extract_test_name(""), "unknown_test");
    assert_eq!(extract_test_name("   \t  "), "unknown_test");
}

#[test]
fn first_matching_line_decides() {
    let lines = vec![
        "compiling".to_string(),
        "Test alpha failed".to_string(),
        "Test beta failed".to_string(),
    ];
    let (name, reason) = detect_flaky_tests(&lines).unwrap();
    assert_eq!(name, "Test");
    assert_eq!(reason, "Test matched failure pattern");
    assert!(detect_flaky_tests(&vec!["nothing to see".to_string()]).is_none());
}

#[test]
fn analyze_emits_exactly_one_flaky_diagnosis() {
    let event = failed_event(Some("77"));
    let config = Config::default();
    let lines = vec![
        "Step 1 ok".to_string(),
        "Test foo_test failed".to_string(),
        "spec other_spec failed".to_string(),
    ];
    let diagnoses = analyze_event(&event, &config, Some(&lines));
    assert_eq!(diagnoses.len(), 1);
    match &diagnoses[0] {
        Diagnosis::FlakyTest { test_name, reason } => {
            assert_eq!(test_name, "Test");
            assert_eq!(reason, "Test matched failure pattern");
        }
        other => panic!("unexpected diagnosis {:?}", other),
    }
}

#[test]
fn analyze_without_logs_or_success_is_empty() {
    let config = Config::default();
    let event = failed_event(Some("77"));
    assert!(analyze_event(&event, &config, None).is_empty());
    let mut ok_event = failed_event(Some("77"));
    ok_event.event_type = EventType::JobSucceeded;
    let lines = vec!["Test foo_test failed".to_string()];
    assert!(analyze_event(&ok_event, &config, Some(&lines)).is_empty());
}

#[test]
fn flaky_plan_with_retry_allowed() {
    let event = failed_event(Some("77"));
    let config = Config { allow_flaky_retry: true, max_job_duration: 3600 };
    let diagnoses = vec![Diagnosis::FlakyTest {
        test_name: "Test".to_string(),
        reason: "Test matched failure pattern".to_string(),
    }];
    let actions = plan_actions(&event, &diagnoses, &config).unwrap();
    assert_eq!(actions.len(), 2);
    match &actions[0] {
        ActionPlan::RetryJob { job_id } => assert_eq!(job_id, "77"),
        other => panic!("expected a retry first, got {:?}", other),
    }
    match &actions[1] {
        ActionPlan::CommentOnPR { message } => {
            assert!(message.contains("Flaky test detected: `Test`"));
            assert!(message.contains("Reason: Test matched failure pattern"));
            assert!(message.contains("Repo: octo/widgets"));
        }
        other => panic!("expected a comment second, got {:?}", other),
    }
}

#[test]
fn flaky_plan_with_retry_disallowed() {
    let event = failed_event(Some("77"));
    let config = Config { allow_flaky_retry: false, max_job_duration: 3600 };
    let diagnoses = vec![Diagnosis::FlakyTest {
        test_name: "Test".to_string(),
        reason: "r".to_string(),
    }];
    let actions = plan_actions(&event, &diagnoses, &config).unwrap();
    assert_eq!(actions.len(), 1);
    assert!(matches!(&actions[0], ActionPlan::CommentOnPR { .. }));
}

#[test]
fn flaky_plan_without_job_id_skips_retry() {
    let event = failed_event(None);
    let config = Config { allow_flaky_retry: true, max_job_duration: 3600 };
    let diagnoses = vec![Diagnosis::FlakyTest {
        test_name: "t".to_string(),
        reason: "r".to_string(),
    }];
    let actions = plan_actions(&event, &diagnoses, &config).unwrap();
    assert_eq!(actions.len(), 1);
    assert!(matches!(&actions[0], ActionPlan::CommentOnPR { .. }));
}

#[test]
fn missing_repository_uses_placeholder() {
    let mut event = failed_event(Some("77"));
    event = NormalizedEvent::new(
        Platform::GitHub,
        event.pipeline_id.clone(),
        event.job_id.clone(),
        EventType::JobFailed,
        event.logs_uri.clone(),
    );
    let config = Config { allow_flaky_retry: false, max_job_duration: 3600 };
    let diagnoses = vec![Diagnosis::FlakyTest {
        test_name: "t".to_string(),
        reason: "r".to_string(),
    }];
    let actions = plan_actions(&event, &diagnoses, &config).unwrap();
    match &actions[0] {
        ActionPlan::CommentOnPR { message } => assert!(message.contains("Repo: <repo>")),
        other => panic!("expected a comment, got {:?}", other),
    }
}

#[test]
fn long_runtime_comment_cites_job_and_duration() {
    let event = failed_event(Some("77"));
    let config = Config::default();
    let diagnoses = vec![Diagnosis::LongRuntime {
        job_name: "build".to_string(),
        duration: 5400,
    }];
    let actions = plan_actions(&event, &diagnoses, &config).unwrap();
    assert_eq!(actions.len(), 1);
    match &actions[0] {
        ActionPlan::CommentOnPR { message } => {
            assert!(message.contains("Job `build` took too long (5400s)"));
        }
        other => panic!("expected a comment, got {:?}", other),
    }
}

#[test]
fn infra_failure_retries_then_comments() {
    let event = failed_event(Some("77"));
    let config = Config { allow_flaky_retry: false, max_job_duration: 3600 };
    let actions = plan_actions(&event, &[Diagnosis::InfraFailure], &config).unwrap();
    assert_eq!(actions.len(), 2);
    assert!(matches!(&actions[0], ActionPlan::RetryJob { job_id } if job_id == "77"));
    assert!(matches!(&actions[1], ActionPlan::CommentOnPR { .. }));
}

#[test]
fn every_rule_cites_its_diagnosis() {
    let event = failed_event(None);
    let config = Config::default();
    let diagnoses = vec![
        Diagnosis::InefficientJobOrder { recommendation: "run lint first".to_string() },
        Diagnosis::CacheMiss { step: "restore-deps".to_string() },
        Diagnosis::ConfigurationViolation { description: "no timeout set".to_string() },
    ];
    let actions = plan_actions(&event, &diagnoses, &config).unwrap();
    assert_eq!(actions.len(), 3);
    match (&actions[0], &actions[1], &actions[2]) {
        (
            ActionPlan::CommentOnPR { message: m0 },
            ActionPlan::CommentOnPR { message: m1 },
            ActionPlan::CommentOnPR { message: m2 },
        ) => {
            assert!(m0.contains("run lint first"));
            assert!(m1.contains("restore-deps"));
            assert!(m2.contains("no timeout set"));
        }
        other => panic!("expected three comments, got {:?}", other),
    }
}

#[test]
fn planner_is_deterministic_across_invocations() {
    let event = failed_event(Some("77"));
    let config = Config::default();
    let diagnoses = vec![
        Diagnosis::FlakyTest { test_name: "t".to_string(), reason: "r".to_string() },
        Diagnosis::InfraFailure,
        Diagnosis::CacheMiss { step: "s".to_string() },
    ];
    let a1 = plan_actions(&event, &diagnoses, &config).unwrap();
    let a2 = plan_actions(&event, &diagnoses, &config).unwrap();
    assert_eq!(format!("{:?}", a1), format!("{:?}", a2));
}

#[test]
fn log_lines_split_like_text_lines() {
    let lines = split_log_lines("first\r\nsecond\nthird");
    assert_eq!(lines, vec!["first", "second", "third"]);
    let lines = split_log_lines("one\n\ntwo\n");
    assert_eq!(lines, vec!["one", "", "two"]);
    assert!(split_log_lines("").is_empty());
}

#[test]
fn github_host_detection() {
    assert!(logs_host_is_github("https://api.github.com/logs/77"));
    assert!(!logs_host_is_github("https://gitlab.example.com/grp/proj/-/jobs/55"));
}
