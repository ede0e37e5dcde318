use vstd::prelude::*;
use vstd::string::StringExecFns;
use crate::analyzer::analyze_event;
use crate::analyzer::diagnosis::Diagnosis;
use crate::analyzer::spec_analyze;
use crate::config::Config;
use crate::errors::AppError;
use crate::perceiver::event::NormalizedEvent;
use crate::planner::action_plan::ActionPlan;
use crate::planner::diag_views;
use crate::planner::plan_actions;
use crate::planner::spec_plan_actions;

verus! {

/// The stage a per-event failure is charged to.
#[derive(Debug, Clone, Copy, PartialEq, Eq, Structural)]
pub enum ProcessStage {
    Config,
    Diagnosis,
    Planning,
    Execution,
}

/// The per-event state machine the agent drives. Terminal states only:
/// an event either runs `Received`, `ConfigLoaded`, `Diagnosed`, `Planned`,
/// `Executed` to the end, or exits early into `Failed` at some stage; there
/// are no retries and no partial replay.
#[derive(Debug)]
pub enum ProcessState {
    Received,
    ConfigLoaded { config: Config },
    Diagnosed { config: Config, diagnoses: Vec<Diagnosis> },
    Planned { actions: Vec<ActionPlan> },
    Executed,
    Failed { stage: ProcessStage, cause: AppError },
}

/// What the driving loop hands the state machine at each step: the outcome
/// of the outside work the previous state asked for. `Logs` carries the
/// fetched log lines, `None` inside `Ok` when the event supplied no log
/// locator; `Plan` asks for the planning step, which needs no outside work.
#[derive(Debug)]
pub enum StageInput {
    ConfigResult(Result<Config, AppError>),
    LogsResult(Result<Option<Vec<String>>, AppError>),
    Plan,
    ExecResult(Result<(), AppError>),
}

/// Whether the event calls for a log fetch before diagnosis.
pub fn wants_logs(event: &NormalizedEvent) -> (r: bool)
    ensures
        r == (event@.logs_uri is Some),
{
    event.logs_uri.is_some()
}

/// One transition of the per-event state machine. Each stage's outcome
/// either advances the event or moves it to `Failed` charged to that stage;
/// the terminal states absorb every further input, and an input that does
/// not answer the current stage fails the event rather than replaying it.
pub fn process_step(event: &NormalizedEvent, state: ProcessState, input: StageInput) -> (next:
    ProcessState)
    ensures
        state matches ProcessState::Received ==> match input {
            StageInput::ConfigResult(cr) => match cr {
                Ok(c) => next == (ProcessState::ConfigLoaded { config: c }),
                Err(e) => next == (ProcessState::Failed {
                    stage: ProcessStage::Config,
                    cause: e,
                }),
            },
            _ => (next matches ProcessState::Failed { stage, cause } && stage
                == ProcessStage::Config && cause matches AppError::Internal(_)),
        },
        state matches ProcessState::ConfigLoaded { config } ==> match input {
            StageInput::LogsResult(lr) => match lr {
                Ok(lines) => (next matches ProcessState::Diagnosed {
                    config: c2,
                    diagnoses,
                } && c2 == config && diagnoses.deep_view() == spec_analyze(
                    event@,
                    match lines {
                        Some(l) => Some(l.deep_view()),
                        None => None,
                    },
                )),
                Err(e) => next == (ProcessState::Failed {
                    stage: ProcessStage::Diagnosis,
                    cause: e,
                }),
            },
            _ => (next matches ProcessState::Failed { stage, cause } && stage
                == ProcessStage::Diagnosis && cause matches AppError::Internal(_)),
        },
        state matches ProcessState::Diagnosed { config, diagnoses } ==> match input {
            StageInput::Plan => (next matches ProcessState::Planned { actions }
                && actions.deep_view() == spec_plan_actions(
                event@,
                diagnoses.deep_view(),
                config,
            )),
            _ => (next matches ProcessState::Failed { stage, cause } && stage
                == ProcessStage::Planning && cause matches AppError::Internal(_)),
        },
        state matches ProcessState::Planned { actions } ==> match input {
            StageInput::ExecResult(er) => match er {
                Ok(u) => next == ProcessState::Executed,
                Err(e) => next == (ProcessState::Failed {
                    stage: ProcessStage::Execution,
                    cause: e,
                }),
            },
            _ => (next matches ProcessState::Failed { stage, cause } && stage
                == ProcessStage::Execution && cause matches AppError::Internal(_)),
        },
        state matches ProcessState::Executed ==> next == ProcessState::Executed,
        state matches ProcessState::Failed { stage, cause } ==> next == state,
{
    match state {
        ProcessState::Received => match input {
            StageInput::ConfigResult(cr) => match cr {
                Ok(config) => ProcessState::ConfigLoaded { config },
                Err(e) => ProcessState::Failed { stage: ProcessStage::Config, cause: e },
            },
            _ => ProcessState::Failed {
                stage: ProcessStage::Config,
                cause: AppError::Internal(String::from_str("input does not answer this stage")),
            },
        },
        ProcessState::ConfigLoaded { config } => match input {
            StageInput::LogsResult(lr) => match lr {
                Ok(lines) => {
                    let diagnoses = analyze_event(event, &config, lines.as_ref());
                    ProcessState::Diagnosed { config, diagnoses }
                },
                Err(e) => ProcessState::Failed { stage: ProcessStage::Diagnosis, cause: e },
            },
            _ => ProcessState::Failed {
                stage: ProcessStage::Diagnosis,
                cause: AppError::Internal(String::from_str("input does not answer this stage")),
            },
        },
        ProcessState::Diagnosed { config, diagnoses } => match input {
            StageInput::Plan => {
                let planned = plan_actions(event, diagnoses.as_slice(), &config);
                proof {
                    assert(diag_views(diagnoses@) =~= diagnoses.deep_view());
                }
                match planned {
                    Ok(actions) => ProcessState::Planned { actions },
                    Err(e) => ProcessState::Failed { stage: ProcessStage::Planning, cause: e },
                }
            },
            _ => ProcessState::Failed {
                stage: ProcessStage::Planning,
                cause: AppError::Internal(String::from_str("input does not answer this stage")),
            },
        },
        ProcessState::Planned { actions } => match input {
            StageInput::ExecResult(er) => match er {
                Ok(()) => ProcessState::Executed,
                Err(e) => ProcessState::Failed { stage: ProcessStage::Execution, cause: e },
            },
            _ => ProcessState::Failed {
                stage: ProcessStage::Execution,
                cause: AppError::Internal(String::from_str("input does not answer this stage")),
            },
        },
        ProcessState::Executed => ProcessState::Executed,
        ProcessState::Failed { stage, cause } => ProcessState::Failed { stage, cause },
    }
}

} // verus!
