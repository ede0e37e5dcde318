use vstd::prelude::*;
use vstd::string::StringExecFns;
use vstd::string::StringSliceAdditionalSpecFns;
use crate::crypto::ct_eq_bytes;
use crate::errors::AppError;
use crate::perceiver::event::event_wf;
use crate::perceiver::event::spec_platform_id;
use crate::perceiver::event::EventType;
use crate::perceiver::event::NormalizedEvent;
use crate::perceiver::event::Platform;
use crate::perceiver::event::EventView;
use crate::perceiver::json::json_error_message;
use crate::perceiver::json::json_from_slice;
use crate::perceiver::json::json_get;
use crate::perceiver::json::json_parse_of;
use crate::perceiver::json::json_view_of;
use crate::perceiver::json::spec_str_field;
use crate::perceiver::json::string_field;
use crate::perceiver::json::JsonView;
use crate::strutil::lemma_encode_utf8_injective;
use crate::strutil::str_eq;

verus! {

/// The shared-secret gate: a request is let through exactly when its token
/// header equals the configured token, byte for byte and case included. The
/// comparison runs in constant time.
pub fn verify_token(token: &str, expected_token: &str) -> (r: Result<(), AppError>)
    ensures
        r is Ok <==> token@ == expected_token@,
        r matches Err(e) ==> e == AppError::Unauthorized,
{
    if ct_eq_bytes(token.as_bytes(), expected_token.as_bytes()) {
        proof {
            lemma_encode_utf8_injective(token@, expected_token@);
        }
        Ok(())
    } else {
        Err(AppError::Unauthorized)
    }
}

/// A token that is not exactly the configured one — a single differing
/// character, case included — is rejected.
pub proof fn lemma_token_mismatch_rejected(token: Seq<char>, expected: Seq<char>, i: int)
    requires
        0 <= i < token.len(),
        i < expected.len(),
        token[i] != expected[i],
    ensures
        token != expected,
{
}

/// The fields read from a job webhook payload.
#[derive(Debug, Clone)]
pub struct GitLabJobPayload {
    pub object_attributes: GitLabJobAttributes,
    pub project: GitLabProject,
    pub commit: GitLabCommit,
}

#[derive(Debug, Clone)]
pub struct GitLabProject {
    pub web_url: String,
    pub path_with_namespace: String,
}

#[derive(Debug, Clone)]
pub struct GitLabCommit {
    pub id: String,
}

#[derive(Debug, Clone)]
pub struct GitLabJobAttributes {
    pub id: String,
    pub pipeline_id: String,
    pub status: String,
    pub name: String,
    pub stage: String,
}

/// The status-to-outcome table: `pending` and `running` start a job,
/// `success` succeeds, `failed` fails, and any other status fails,
/// deliberately fail-closed.
pub open spec fn spec_gitlab_event_type(status: Seq<char>) -> EventType {
    if status == "pending"@ || status == "running"@ {
        EventType::JobStarted
    } else if status == "success"@ {
        EventType::JobSucceeded
    } else {
        EventType::JobFailed
    }
}

fn gitlab_event_type(status: &str) -> (r: EventType)
    ensures
        r == spec_gitlab_event_type(status@),
{
    if str_eq(status, "pending") || str_eq(status, "running") {
        EventType::JobStarted
    } else if str_eq(status, "success") {
        EventType::JobSucceeded
    } else {
        EventType::JobFailed
    }
}

/// The log locator synthesized for a job: the project's web URL followed by
/// the job path.
pub open spec fn spec_gitlab_logs_uri(web_url: Seq<char>, job_id: Seq<char>) -> Seq<char> {
    web_url + "/-/jobs/"@ + job_id
}

/// The ghost image of an extracted payload, every string as a character
/// sequence.
pub struct GitLabPayloadView {
    pub id: Seq<char>,
    pub pipeline_id: Seq<char>,
    pub status: Seq<char>,
    pub name: Seq<char>,
    pub stage: Seq<char>,
    pub web_url: Seq<char>,
    pub path_with_namespace: Seq<char>,
    pub commit_id: Seq<char>,
}

impl View for GitLabJobPayload {
    type V = GitLabPayloadView;

    open spec fn view(&self) -> GitLabPayloadView {
        GitLabPayloadView {
            id: self.object_attributes.id@,
            pipeline_id: self.object_attributes.pipeline_id@,
            status: self.object_attributes.status@,
            name: self.object_attributes.name@,
            stage: self.object_attributes.stage@,
            web_url: self.project.web_url@,
            path_with_namespace: self.project.path_with_namespace@,
            commit_id: self.commit.id@,
        }
    }
}

/// The metadata a normalized GitLab event carries.
pub open spec fn spec_gitlab_metadata(p: GitLabPayloadView) -> Map<Seq<char>, Seq<char>> {
    Map::<Seq<char>, Seq<char>>::empty().insert("project"@, p.path_with_namespace).insert(
        "commit_sha"@,
        p.commit_id,
    ).insert("job_name"@, p.name).insert("stage"@, p.stage)
}

/// The canonical event an extracted payload normalizes to: the pipeline id
/// and job id carried over, the status table deciding the event type, a log
/// locator synthesized from the project URL and job id, and project, commit,
/// job name and stage recorded as metadata.
pub open spec fn spec_gitlab_event_of(p: GitLabPayloadView) -> EventView {
    EventView {
        platform: Platform::GitLab,
        platform_id: spec_platform_id(Platform::GitLab, p.pipeline_id),
        pipeline_id: p.pipeline_id,
        job_id: Some(p.id),
        event_type: spec_gitlab_event_type(p.status),
        logs_uri: Some(spec_gitlab_logs_uri(p.web_url, p.id)),
        metadata: spec_gitlab_metadata(p),
        raw_event_type: None,
        trigger_source: None,
    }
}

/// The payload fields a job JSON document yields, `None` exactly where a
/// required member is missing or ill-typed.
pub open spec fn spec_gitlab_payload_of(doc: JsonView) -> Option<GitLabPayloadView> {
    match doc {
        JsonView::Object(root) => {
            if root.contains_key("object_attributes"@) {
                let attrs = root["object_attributes"@];
                let id = spec_str_field(attrs, "id"@);
                let pipeline_id = spec_str_field(attrs, "pipeline_id"@);
                let status = spec_str_field(attrs, "status"@);
                let name = spec_str_field(attrs, "name"@);
                let stage = spec_str_field(attrs, "stage"@);
                let web_url = if root.contains_key("project"@) {
                    spec_str_field(root["project"@], "web_url"@)
                } else {
                    None
                };
                let path_with_namespace = if root.contains_key("project"@) {
                    spec_str_field(root["project"@], "path_with_namespace"@)
                } else {
                    None
                };
                let commit_id = if root.contains_key("commit"@) {
                    spec_str_field(root["commit"@], "id"@)
                } else {
                    None
                };
                if id is Some && pipeline_id is Some && status is Some && name is Some && stage
                    is Some && web_url is Some && path_with_namespace is Some && commit_id
                    is Some {
                    Some(
                        GitLabPayloadView {
                            id: id->0,
                            pipeline_id: pipeline_id->0,
                            status: status->0,
                            name: name->0,
                            stage: stage->0,
                            web_url: web_url->0,
                            path_with_namespace: path_with_namespace->0,
                            commit_id: commit_id->0,
                        },
                    )
                } else {
                    None
                }
            } else {
                None
            }
        },
        _ => None,
    }
}

/// What parsing a raw body yields: the payload fields of its JSON document,
/// `None` exactly where the bytes are not a JSON document or a required
/// member is missing or ill-typed.
pub open spec fn spec_gitlab_parse(bytes: Seq<u8>) -> Option<GitLabPayloadView> {
    match json_parse_of(bytes) {
        Some(doc) => spec_gitlab_payload_of(doc),
        None => None,
    }
}

/// Maps already-extracted payload fields into the canonical event.
pub fn normalize_payload(p: &GitLabJobPayload) -> (e: NormalizedEvent)
    ensures
        event_wf(e@),
        e@ == spec_gitlab_event_of(p@),
{
    let event_type = gitlab_event_type(p.object_attributes.status.as_str());
    let mut logs_uri = p.project.web_url.clone();
    logs_uri.append("/-/jobs/");
    logs_uri.append(p.object_attributes.id.as_str());
    let mut event = NormalizedEvent::new(
        Platform::GitLab,
        p.object_attributes.pipeline_id.clone(),
        Some(p.object_attributes.id.clone()),
        event_type,
        Some(logs_uri),
    );
    event.metadata.insert(String::from_str("project"), p.project.path_with_namespace.clone());
    event.metadata.insert(String::from_str("commit_sha"), p.commit.id.clone());
    event.metadata.insert(String::from_str("job_name"), p.object_attributes.name.clone());
    event.metadata.insert(String::from_str("stage"), p.object_attributes.stage.clone());
    event
}

fn bad_gitlab_payload() -> (e: AppError)
    ensures
        e matches AppError::BadRequest(_),
{
    AppError::BadRequest(String::from_str("Invalid GitLab payload: missing or ill-typed field"))
}

/// Parses a verified job payload into the canonical event: the parse
/// succeeds exactly when the body is a JSON document carrying every required
/// member well-typed, and then yields that document's normalization;
/// anything else is a client error, never an internal one.
pub fn parse_payload(payload: &[u8]) -> (r: Result<NormalizedEvent, AppError>)
    ensures
        r matches Ok(e) ==> (spec_gitlab_parse(payload@) matches Some(p) && e@
            == spec_gitlab_event_of(p) && event_wf(e@)),
        r matches Err(err) ==> (spec_gitlab_parse(payload@) is None && err matches
            AppError::BadRequest(_)),
{
    let doc = match json_from_slice(payload) {
        Ok(v) => v,
        Err(e) => {
            let mut m = String::from_str("Invalid GitLab payload: ");
            let detail = json_error_message(&e);
            m.append(detail.as_str());
            return Err(AppError::BadRequest(m));
        },
    };
    let ghost dv = json_view_of(doc);
    let attrs = match json_get(&doc, "object_attributes") {
        Some(x) => x,
        None => {
            return Err(bad_gitlab_payload());
        },
    };
    let id = match string_field(attrs, "id") {
        Some(s) => s,
        None => {
            return Err(bad_gitlab_payload());
        },
    };
    let pipeline_id = match string_field(attrs, "pipeline_id") {
        Some(s) => s,
        None => {
            return Err(bad_gitlab_payload());
        },
    };
    let status = match string_field(attrs, "status") {
        Some(s) => s,
        None => {
            return Err(bad_gitlab_payload());
        },
    };
    let name = match string_field(attrs, "name") {
        Some(s) => s,
        None => {
            return Err(bad_gitlab_payload());
        },
    };
    let stage = match string_field(attrs, "stage") {
        Some(s) => s,
        None => {
            return Err(bad_gitlab_payload());
        },
    };
    let project = match json_get(&doc, "project") {
        Some(x) => x,
        None => {
            return Err(bad_gitlab_payload());
        },
    };
    let web_url = match string_field(project, "web_url") {
        Some(s) => s,
        None => {
            return Err(bad_gitlab_payload());
        },
    };
    let path_with_namespace = match string_field(project, "path_with_namespace") {
        Some(s) => s,
        None => {
            return Err(bad_gitlab_payload());
        },
    };
    let commit_id = match json_get(&doc, "commit") {
        Some(c) => match string_field(c, "id") {
            Some(s) => s,
            None => {
                return Err(bad_gitlab_payload());
            },
        },
        None => {
            return Err(bad_gitlab_payload());
        },
    };
    let parsed = GitLabJobPayload {
        object_attributes: GitLabJobAttributes { id, pipeline_id, status, name, stage },
        project: GitLabProject { web_url, path_with_namespace },
        commit: GitLabCommit { id: commit_id },
    };
    proof {
        assert(spec_gitlab_payload_of(dv) == Some(parsed@));
    }
    Ok(normalize_payload(&parsed))
}

} // verus!
