pub mod action_plan;

use vstd::prelude::*;
use vstd::string::StringExecFns;
use crate::analyzer::diagnosis::Diagnosis;
use crate::analyzer::diagnosis::DiagnosisView;
use crate::config::Config;
use crate::errors::AppError;
use crate::perceiver::event::EventView;
use crate::perceiver::event::NormalizedEvent;
use crate::planner::action_plan::ActionPlan;
use crate::planner::action_plan::ActionPlanView;
use crate::strutil::spec_u64_decimal;
use crate::strutil::u64_to_string;

verus! {

/// The views of a list of diagnoses, in order.
pub open spec fn diag_views(s: Seq<Diagnosis>) -> Seq<DiagnosisView> {
    s.map_values(|d: Diagnosis| d@)
}

/// The repository name cited in comments: the event's `repository` metadata,
/// with a placeholder when the key is absent.
pub open spec fn spec_repo_of(event: EventView) -> Seq<char> {
    if event.metadata.contains_key("repository"@) {
        event.metadata["repository"@]
    } else {
        "<repo>"@
    }
}

pub open spec fn spec_flaky_message(
    test_name: Seq<char>,
    reason: Seq<char>,
    repo: Seq<char>,
) -> Seq<char> {
    "\u{26a0}\u{fe0f} Flaky test detected: `"@ + test_name + "`\nReason: "@ + reason + "\nRepo: "@
        + repo
}

pub open spec fn spec_long_runtime_message(job_name: Seq<char>, duration: u64) -> Seq<char> {
    "\u{23f1}\u{fe0f} Job `"@ + job_name + "` took too long ("@ + spec_u64_decimal(duration)
        + "s). Consider caching or splitting steps."@
}

pub open spec fn spec_job_order_message(recommendation: Seq<char>) -> Seq<char> {
    "\u{1f500} Job ordering could be improved: "@ + recommendation
}

pub open spec fn spec_cache_miss_message(step: Seq<char>) -> Seq<char> {
    "\u{1f4e6} Cache miss detected at step: `"@ + step + "`. Consider persistent caching."@
}

pub open spec fn spec_config_violation_message(description: Seq<char>) -> Seq<char> {
    "\u{1f6a8} Config violation: "@ + description
}

pub open spec fn spec_infra_message() -> Seq<char> {
    "\u{2699}\u{fe0f} Infrastructure failure detected. Retrying job..."@
}

/// The actions one diagnosis contributes, in emission order.
pub open spec fn spec_actions_for(event: EventView, config: Config, d: DiagnosisView) -> Seq<
    ActionPlanView,
> {
    match d {
        DiagnosisView::FlakyTest { test_name, reason } => {
            let comment = seq![
                ActionPlanView::CommentOnPR {
                    message: spec_flaky_message(test_name, reason, spec_repo_of(event)),
                },
            ];
            if config.allow_flaky_retry && event.job_id is Some {
                seq![ActionPlanView::RetryJob { job_id: event.job_id->0 }] + comment
            } else {
                comment
            }
        },
        DiagnosisView::LongRuntime { job_name, duration } => seq![
            ActionPlanView::CommentOnPR { message: spec_long_runtime_message(job_name, duration) },
        ],
        DiagnosisView::InefficientJobOrder { recommendation } => seq![
            ActionPlanView::CommentOnPR { message: spec_job_order_message(recommendation) },
        ],
        DiagnosisView::CacheMiss { step } => seq![
            ActionPlanView::CommentOnPR { message: spec_cache_miss_message(step) },
        ],
        DiagnosisView::ConfigurationViolation { description } => seq![
            ActionPlanView::CommentOnPR { message: spec_config_violation_message(description) },
        ],
        DiagnosisView::InfraFailure => {
            let comment = seq![ActionPlanView::CommentOnPR { message: spec_infra_message() }];
            if event.job_id is Some {
                seq![ActionPlanView::RetryJob { job_id: event.job_id->0 }] + comment
            } else {
                comment
            }
        },
    }
}

/// The planner's whole output: each diagnosis contributes its actions, in
/// the order the diagnoses were given.
pub open spec fn spec_plan_actions(
    event: EventView,
    diagnoses: Seq<DiagnosisView>,
    config: Config,
) -> Seq<ActionPlanView>
    decreases diagnoses.len(),
{
    if diagnoses.len() == 0 {
        Seq::empty()
    } else {
        spec_actions_for(event, config, diagnoses[0]) + spec_plan_actions(
            event,
            diagnoses.drop_first(),
            config,
        )
    }
}

proof fn lemma_plan_actions_push(
    event: EventView,
    diagnoses: Seq<DiagnosisView>,
    d: DiagnosisView,
    config: Config,
)
    ensures
        spec_plan_actions(event, diagnoses.push(d), config) == spec_plan_actions(
            event,
            diagnoses,
            config,
        ) + spec_actions_for(event, config, d),
    decreases diagnoses.len(),
{
    if diagnoses.len() == 0 {
        assert(diagnoses.push(d)[0] == d);
        assert(diagnoses.push(d).drop_first() =~= Seq::<DiagnosisView>::empty());
        assert(spec_plan_actions(event, Seq::<DiagnosisView>::empty(), config)
            == Seq::<ActionPlanView>::empty());
        assert(spec_plan_actions(event, diagnoses.push(d), config) =~= spec_plan_actions(
            event,
            diagnoses,
            config,
        ) + spec_actions_for(event, config, d));
    } else {
        assert(diagnoses.push(d).drop_first() =~= diagnoses.drop_first().push(d));
        lemma_plan_actions_push(event, diagnoses.drop_first(), d, config);
        assert(spec_plan_actions(event, diagnoses.push(d), config) =~= spec_plan_actions(
            event,
            diagnoses,
            config,
        ) + spec_actions_for(event, config, d));
    }
}

/// The pure rule table mapping each diagnosis, in input order, to its
/// remediation and notification actions. A deterministic function of the
/// event, the diagnoses, and the configuration; no rule consults external
/// state, and planning never fails.
pub fn plan_actions(event: &NormalizedEvent, diagnoses: &[Diagnosis], config: &Config) -> (r:
    Result<Vec<ActionPlan>, AppError>)
    ensures
        r is Ok,
        r matches Ok(actions) ==> actions.deep_view() == spec_plan_actions(
            event@,
            diag_views(diagnoses@),
            *config,
        ),
{
    let ghost dviews = diag_views(diagnoses@);
    let mut actions: Vec<ActionPlan> = Vec::new();
    proof {
        assert(dviews.take(0) =~= Seq::<DiagnosisView>::empty());
        assert(actions.deep_view() =~= spec_plan_actions(event@, dviews.take(0), *config));
    }
    let n = diagnoses.len();
    let mut idx: usize = 0;
    while idx < n
        invariant
            n == diagnoses@.len(),
            idx <= n,
            dviews == diag_views(diagnoses@),
            dviews.len() == n,
            forall|m: int| 0 <= m < n ==> dviews[m] == diagnoses@[m]@,
            actions.deep_view() == spec_plan_actions(event@, dviews.take(idx as int), *config),
        decreases n - idx,
    {
        let ghost actions_before = actions.deep_view();
        match &diagnoses[idx] {
            Diagnosis::FlakyTest { test_name, reason } => {
                if config.allow_flaky_retry {
                    if let Some(job_id) = &event.job_id {
                        actions.push(ActionPlan::RetryJob { job_id: job_id.clone() });
                    }
                }
                let repo = match event.metadata.get("repository") {
                    Some(r) => r.clone(),
                    None => String::from_str("<repo>"),
                };
                let mut message = String::from_str("\u{26a0}\u{fe0f} Flaky test detected: `");
                message.append(test_name.as_str());
                message.append("`\nReason: ");
                message.append(reason.as_str());
                message.append("\nRepo: ");
                message.append(repo.as_str());
                actions.push(ActionPlan::CommentOnPR { message });
            },
            Diagnosis::LongRuntime { job_name, duration } => {
                let mut message = String::from_str("\u{23f1}\u{fe0f} Job `");
                message.append(job_name.as_str());
                message.append("` took too long (");
                let rendered = u64_to_string(*duration);
                message.append(rendered.as_str());
                message.append("s). Consider caching or splitting steps.");
                actions.push(ActionPlan::CommentOnPR { message });
            },
            Diagnosis::InefficientJobOrder { recommendation } => {
                let mut message = String::from_str(
                    "\u{1f500} Job ordering could be improved: ",
                );
                message.append(recommendation.as_str());
                actions.push(ActionPlan::CommentOnPR { message });
            },
            Diagnosis::CacheMiss { step } => {
                let mut message = String::from_str("\u{1f4e6} Cache miss detected at step: `");
                message.append(step.as_str());
                message.append("`. Consider persistent caching.");
                actions.push(ActionPlan::CommentOnPR { message });
            },
            Diagnosis::ConfigurationViolation { description } => {
                let mut message = String::from_str("\u{1f6a8} Config violation: ");
                message.append(description.as_str());
                actions.push(ActionPlan::CommentOnPR { message });
            },
            Diagnosis::InfraFailure => {
                if let Some(job_id) = &event.job_id {
                    actions.push(ActionPlan::RetryJob { job_id: job_id.clone() });
                }
                let message = String::from_str(
                    "\u{2699}\u{fe0f} Infrastructure failure detected. Retrying job...",
                );
                actions.push(ActionPlan::CommentOnPR { message });
            },
        }
        proof {
            lemma_plan_actions_push(event@, dviews.take(idx as int), dviews[idx as int], *config);
            assert(dviews.take(idx as int).push(dviews[idx as int]) =~= dviews.take(idx + 1));
            assert(actions.deep_view() =~= actions_before + spec_actions_for(
                event@,
                *config,
                dviews[idx as int],
            ));
        }
        idx = idx + 1;
    }
    proof {
        assert(dviews.take(n as int) =~= dviews);
    }
    Ok(actions)
}

/// Under a flaky-test diagnosis for an event that names a job: with retries
/// allowed the plan opens with the retry and then the comment; with retries
/// disallowed only the comment is emitted.
pub proof fn lemma_flaky_plan(
    event: EventView,
    config: Config,
    test_name: Seq<char>,
    reason: Seq<char>,
)
    requires
        event.job_id is Some,
    ensures
        config.allow_flaky_retry ==> spec_plan_actions(
            event,
            seq![DiagnosisView::FlakyTest { test_name, reason }],
            config,
        ) == seq![
            ActionPlanView::RetryJob { job_id: event.job_id->0 },
            ActionPlanView::CommentOnPR {
                message: spec_flaky_message(test_name, reason, spec_repo_of(event)),
            },
        ],
        !config.allow_flaky_retry ==> spec_plan_actions(
            event,
            seq![DiagnosisView::FlakyTest { test_name, reason }],
            config,
        ) == seq![
            ActionPlanView::CommentOnPR {
                message: spec_flaky_message(test_name, reason, spec_repo_of(event)),
            },
        ],
{
    let ds = seq![DiagnosisView::FlakyTest { test_name, reason }];
    assert(ds.drop_first() =~= Seq::<DiagnosisView>::empty());
    assert(ds[0] == DiagnosisView::FlakyTest { test_name, reason });
    assert(spec_plan_actions(event, Seq::<DiagnosisView>::empty(), config)
        == Seq::<ActionPlanView>::empty());
    if config.allow_flaky_retry {
        assert(spec_plan_actions(event, ds, config) =~= seq![
            ActionPlanView::RetryJob { job_id: event.job_id->0 },
            ActionPlanView::CommentOnPR {
                message: spec_flaky_message(test_name, reason, spec_repo_of(event)),
            },
        ]);
    } else {
        assert(spec_plan_actions(event, ds, config) =~= seq![
            ActionPlanView::CommentOnPR {
                message: spec_flaky_message(test_name, reason, spec_repo_of(event)),
            },
        ]);
    }
}

/// Planning is deterministic: two plans drawn from identical inputs are one
/// and the same action sequence.
pub proof fn lemma_planner_deterministic(
    event: EventView,
    diagnoses: Seq<DiagnosisView>,
    config: Config,
    a1: Seq<ActionPlanView>,
    a2: Seq<ActionPlanView>,
)
    requires
        a1 == spec_plan_actions(event, diagnoses, config),
        a2 == spec_plan_actions(event, diagnoses, config),
    ensures
        a1 == a2,
{
}

} // verus!
