use vstd::prelude::*;
use vstd::string::StrSliceExecFns;
use vstd::string::StringExecFns;
use vstd::string::StringSliceAdditionalSpecFns;
use vstd::utf8::encode_utf8;
use crate::crypto::ct_eq_bytes;
use crate::crypto::hex_encode;
use crate::crypto::hmac_sha256;
use crate::crypto::hmac_sha256_of;
use crate::crypto::lemma_hex_encode_injective;
use crate::crypto::spec_hex_encode;
use crate::errors::AppError;
use crate::perceiver::event::event_wf;
use crate::perceiver::event::spec_platform_id;
use crate::perceiver::event::view_opt;
use crate::perceiver::event::EventType;
use crate::perceiver::event::NormalizedEvent;
use crate::perceiver::event::Platform;
use crate::perceiver::json::json_error_message;
use crate::perceiver::json::json_from_slice;
use crate::perceiver::json::json_get;
use crate::perceiver::json::json_parse_of;
use crate::perceiver::json::json_view_of;
use crate::perceiver::json::optional_string_field;
use crate::perceiver::json::optional_u32_field;
use crate::perceiver::json::spec_opt_str_field;
use crate::perceiver::json::spec_opt_u32_field;
use crate::perceiver::json::spec_str_field;
use crate::perceiver::json::string_field;
use crate::perceiver::json::JsonView;
use crate::perceiver::event::EventView;
use crate::strutil::lemma_encode_utf8_injective;
use crate::strutil::spec_u64_decimal;
use crate::strutil::str_eq;
use crate::strutil::u64_to_string;

verus! {

/// A supplied signature is accepted for `payload` under `secret` exactly
/// when, after the fixed `sha256=` prefix, it spells the lowercase
/// hexadecimal HMAC-SHA-256 digest of the raw body bytes under the secret.
pub open spec fn signature_accepted(
    signature: Seq<char>,
    secret: Seq<char>,
    payload: Seq<u8>,
) -> bool {
    &&& signature.len() >= 7
    &&& signature.subrange(0, 7) == "sha256="@
    &&& signature.subrange(7, signature.len() as int) == spec_hex_encode(
        hmac_sha256_of(encode_utf8(secret), payload),
    )
}

/// The authenticity gate: a request is let through exactly when its
/// signature header matches the keyed digest of the exact raw body bytes.
/// The digest comparison runs in constant time.
pub fn verify_signature(payload: &[u8], signature: &str, secret: &str) -> (r: Result<
    (),
    AppError,
>)
    ensures
        r is Ok <==> signature_accepted(signature@, secret@, payload@),
        r matches Err(e) ==> e == AppError::Unauthorized,
{
    let sig_len = signature.unicode_len();
    if sig_len < 7 {
        return Err(AppError::Unauthorized);
    }
    let prefix = signature.substring_char(0, 7);
    if !str_eq(prefix, "sha256=") {
        return Err(AppError::Unauthorized);
    }
    let provided = signature.substring_char(7, sig_len);
    let digest = match hmac_sha256(secret.as_bytes(), payload) {
        Ok(d) => d,
        Err(_) => {
            return Err(AppError::Unauthorized);
        },
    };
    let calculated = hex_encode(digest.as_slice());
    if ct_eq_bytes(calculated.as_str().as_bytes(), provided.as_bytes()) {
        proof {
            lemma_encode_utf8_injective(calculated@, provided@);
        }
        Ok(())
    } else {
        Err(AppError::Unauthorized)
    }
}

/// Two bodies whose keyed digests differ can never both be accepted under
/// one and the same signature: a signature binds the request to its digest.
pub proof fn lemma_signature_binds_digest(
    signature: Seq<char>,
    secret: Seq<char>,
    p1: Seq<u8>,
    p2: Seq<u8>,
)
    requires
        hmac_sha256_of(encode_utf8(secret), p1) != hmac_sha256_of(encode_utf8(secret), p2),
    ensures
        !(signature_accepted(signature, secret, p1) && signature_accepted(signature, secret, p2)),
{
    if signature_accepted(signature, secret, p1) && signature_accepted(signature, secret, p2) {
        lemma_hex_encode_injective(
            hmac_sha256_of(encode_utf8(secret), p1),
            hmac_sha256_of(encode_utf8(secret), p2),
        );
    }
}

/// The fields read from a `workflow_job` webhook payload.
#[derive(Debug, Clone)]
pub struct GitHubWorkflowJobPayload {
    pub workflow_job: GitHubWorkflowJob,
    pub repository: GitHubRepository,
}

#[derive(Debug, Clone)]
pub struct GitHubRepository {
    pub full_name: String,
}

#[derive(Debug, Clone)]
pub struct GitHubWorkflowJob {
    pub id: String,
    pub run_id: String,
    pub run_attempt: Option<u32>,
    pub status: String,
    pub conclusion: Option<String>,
    pub logs_url: String,
    pub head_sha: String,
}

/// The status-to-outcome table: `queued` and `in_progress` start a job;
/// `completed` succeeds only under conclusion `success` and otherwise fails;
/// any unrecognized status fails, deliberately fail-closed.
pub open spec fn spec_github_event_type(status: Seq<char>, conclusion: Option<Seq<char>>)
    -> EventType {
    if status == "queued"@ || status == "in_progress"@ {
        EventType::JobStarted
    } else if status == "completed"@ {
        if conclusion == Some("success"@) {
            EventType::JobSucceeded
        } else {
            EventType::JobFailed
        }
    } else {
        EventType::JobFailed
    }
}

/// A `completed` status is classified by its conclusion alone: `success`
/// succeeds, and every other or absent conclusion fails (fail-closed).
pub proof fn lemma_completed_fail_closed(conclusion: Option<Seq<char>>)
    ensures
        spec_github_event_type("completed"@, conclusion) == (if conclusion == Some("success"@) {
            EventType::JobSucceeded
        } else {
            EventType::JobFailed
        }),
{
    reveal_strlit("completed");
    reveal_strlit("queued");
    reveal_strlit("in_progress");
    assert("completed"@.len() == 9 && "queued"@.len() == 6 && "in_progress"@.len() == 11);
}

fn github_event_type(status: &str, conclusion: &Option<String>) -> (r: EventType)
    ensures
        r == spec_github_event_type(
            status@,
            match conclusion {
                Some(c) => Some(c@),
                None => None,
            },
        ),
{
    if str_eq(status, "queued") || str_eq(status, "in_progress") {
        EventType::JobStarted
    } else if str_eq(status, "completed") {
        match conclusion {
            Some(c) => {
                if str_eq(c.as_str(), "success") {
                    EventType::JobSucceeded
                } else {
                    EventType::JobFailed
                }
            },
            None => EventType::JobFailed,
        }
    } else {
        EventType::JobFailed
    }
}

/// The ghost image of an extracted payload, every string as a character
/// sequence.
pub struct GitHubPayloadView {
    pub id: Seq<char>,
    pub run_id: Seq<char>,
    pub run_attempt: Option<u32>,
    pub status: Seq<char>,
    pub conclusion: Option<Seq<char>>,
    pub logs_url: Seq<char>,
    pub head_sha: Seq<char>,
    pub full_name: Seq<char>,
}

impl View for GitHubWorkflowJobPayload {
    type V = GitHubPayloadView;

    open spec fn view(&self) -> GitHubPayloadView {
        GitHubPayloadView {
            id: self.workflow_job.id@,
            run_id: self.workflow_job.run_id@,
            run_attempt: self.workflow_job.run_attempt,
            status: self.workflow_job.status@,
            conclusion: view_opt(self.workflow_job.conclusion),
            logs_url: self.workflow_job.logs_url@,
            head_sha: self.workflow_job.head_sha@,
            full_name: self.repository.full_name@,
        }
    }
}

/// The metadata a normalized GitHub event carries.
pub open spec fn spec_github_metadata(p: GitHubPayloadView) -> Map<Seq<char>, Seq<char>> {
    let base = Map::<Seq<char>, Seq<char>>::empty().insert("repository"@, p.full_name).insert(
        "commit_sha"@,
        p.head_sha,
    );
    match p.run_attempt {
        Some(attempt) => base.insert("run_attempt"@, spec_u64_decimal(attempt as u64)),
        None => base,
    }
}

/// The canonical event an extracted payload normalizes to: run id as
/// pipeline id, job id and logs URL carried over, the status table deciding
/// the event type, and repository, commit and attempt recorded as metadata.
pub open spec fn spec_github_event_of(p: GitHubPayloadView) -> EventView {
    EventView {
        platform: Platform::GitHub,
        platform_id: spec_platform_id(Platform::GitHub, p.run_id),
        pipeline_id: p.run_id,
        job_id: Some(p.id),
        event_type: spec_github_event_type(p.status, p.conclusion),
        logs_uri: Some(p.logs_url),
        metadata: spec_github_metadata(p),
        raw_event_type: None,
        trigger_source: None,
    }
}

/// The payload fields a `workflow_job` JSON document yields, `None` exactly
/// where a required member is missing or ill-typed.
pub open spec fn spec_github_payload_of(doc: JsonView) -> Option<GitHubPayloadView> {
    match doc {
        JsonView::Object(root) => {
            if root.contains_key("workflow_job"@) {
                let wj = root["workflow_job"@];
                let id = spec_str_field(wj, "id"@);
                let run_id = spec_str_field(wj, "run_id"@);
                let status = spec_str_field(wj, "status"@);
                let logs_url = spec_str_field(wj, "logs_url"@);
                let head_sha = spec_str_field(wj, "head_sha"@);
                let conclusion = spec_opt_str_field(wj, "conclusion"@);
                let run_attempt = spec_opt_u32_field(wj, "run_attempt"@);
                let full_name = if root.contains_key("repository"@) {
                    spec_str_field(root["repository"@], "full_name"@)
                } else {
                    None
                };
                if id is Some && run_id is Some && status is Some && logs_url is Some && head_sha
                    is Some && conclusion is Some && run_attempt is Some && full_name is Some {
                    Some(
                        GitHubPayloadView {
                            id: id->0,
                            run_id: run_id->0,
                            run_attempt: run_attempt->0,
                            status: status->0,
                            conclusion: conclusion->0,
                            logs_url: logs_url->0,
                            head_sha: head_sha->0,
                            full_name: full_name->0,
                        },
                    )
                } else {
                    None
                }
            } else {
                None
            }
        },
        _ => None,
    }
}

/// What parsing a raw body yields: the payload fields of its JSON document,
/// `None` exactly where the bytes are not a JSON document or a required
/// member is missing or ill-typed.
pub open spec fn spec_github_parse(bytes: Seq<u8>) -> Option<GitHubPayloadView> {
    match json_parse_of(bytes) {
        Some(doc) => spec_github_payload_of(doc),
        None => None,
    }
}

/// Maps already-extracted payload fields into the canonical event.
pub fn normalize_payload(p: &GitHubWorkflowJobPayload) -> (e: NormalizedEvent)
    ensures
        event_wf(e@),
        e@ == spec_github_event_of(p@),
{
    let event_type = github_event_type(p.workflow_job.status.as_str(), &p.workflow_job.conclusion);
    let mut event = NormalizedEvent::new(
        Platform::GitHub,
        p.workflow_job.run_id.clone(),
        Some(p.workflow_job.id.clone()),
        event_type,
        Some(p.workflow_job.logs_url.clone()),
    );
    event.metadata.insert(String::from_str("repository"), p.repository.full_name.clone());
    event.metadata.insert(String::from_str("commit_sha"), p.workflow_job.head_sha.clone());
    if let Some(attempt) = p.workflow_job.run_attempt {
        event.metadata.insert(String::from_str("run_attempt"), u64_to_string(attempt as u64));
    }
    event
}

fn bad_payload() -> (e: AppError)
    ensures
        e matches AppError::BadRequest(_),
{
    AppError::BadRequest(String::from_str("Invalid payload: missing or ill-typed field"))
}

/// Parses a verified `workflow_job` payload into the canonical event: the
/// parse succeeds exactly when the body is a JSON document carrying every
/// required member well-typed, and then yields that document's
/// normalization; anything else is a client error, never an internal one.
pub fn parse_payload(payload: &[u8]) -> (r: Result<NormalizedEvent, AppError>)
    ensures
        r matches Ok(e) ==> (spec_github_parse(payload@) matches Some(p) && e@
            == spec_github_event_of(p) && event_wf(e@)),
        r matches Err(err) ==> (spec_github_parse(payload@) is None && err matches
            AppError::BadRequest(_)),
{
    let doc = match json_from_slice(payload) {
        Ok(v) => v,
        Err(e) => {
            let mut m = String::from_str("Invalid payload: ");
            let detail = json_error_message(&e);
            m.append(detail.as_str());
            return Err(AppError::BadRequest(m));
        },
    };
    let ghost dv = json_view_of(doc);
    let wj = match json_get(&doc, "workflow_job") {
        Some(x) => x,
        None => {
            return Err(bad_payload());
        },
    };
    let id = match string_field(wj, "id") {
        Some(s) => s,
        None => {
            return Err(bad_payload());
        },
    };
    let run_id = match string_field(wj, "run_id") {
        Some(s) => s,
        None => {
            return Err(bad_payload());
        },
    };
    let status = match string_field(wj, "status") {
        Some(s) => s,
        None => {
            return Err(bad_payload());
        },
    };
    let logs_url = match string_field(wj, "logs_url") {
        Some(s) => s,
        None => {
            return Err(bad_payload());
        },
    };
    let head_sha = match string_field(wj, "head_sha") {
        Some(s) => s,
        None => {
            return Err(bad_payload());
        },
    };
    let conclusion = match optional_string_field(wj, "conclusion") {
        Some(c) => c,
        None => {
            return Err(bad_payload());
        },
    };
    let run_attempt = match optional_u32_field(wj, "run_attempt") {
        Some(a) => a,
        None => {
            return Err(bad_payload());
        },
    };
    let full_name = match json_get(&doc, "repository") {
        Some(repo) => match string_field(repo, "full_name") {
            Some(s) => s,
            None => {
                return Err(bad_payload());
            },
        },
        None => {
            return Err(bad_payload());
        },
    };
    let parsed = GitHubWorkflowJobPayload {
        workflow_job: GitHubWorkflowJob {
            id,
            run_id,
            run_attempt,
            status,
            conclusion,
            logs_url,
            head_sha,
        },
        repository: GitHubRepository { full_name },
    };
    proof {
        assert(spec_github_payload_of(dv) == Some(parsed@));
    }
    Ok(normalize_payload(&parsed))
}

} // verus!
