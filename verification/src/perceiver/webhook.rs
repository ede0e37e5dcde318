use vstd::prelude::*;
use vstd::string::StringExecFns;
use crate::errors::AppError;
use crate::perceiver::event::event_wf;
use crate::perceiver::event::NormalizedEvent;
use crate::perceiver::event::Platform;
use crate::perceiver::github;
use crate::perceiver::github::signature_accepted;
use crate::perceiver::github::spec_github_event_of;
use crate::perceiver::github::spec_github_parse;
use crate::perceiver::gitlab;
use crate::perceiver::gitlab::spec_gitlab_event_of;
use crate::perceiver::gitlab::spec_gitlab_parse;

verus! {

/// The provider an inbound webhook route belongs to.
#[derive(Debug, Clone, Copy, PartialEq, Eq, Structural)]
pub enum WebhookSource {
    GitHub,
    GitLab,
}

/// Verification and normalization for one inbound request: authenticate
/// first, parse only afterwards. The header values and the configured
/// secrets arrive as plain values; reading them off the wire and out of the
/// environment happens at the caller's edge.
pub struct WebhookProcessor;

impl WebhookProcessor {
    /// The GitHub route: a missing signature header is unauthorized, a
    /// missing configured secret is a configuration error, a signature that
    /// does not match the body's keyed digest is unauthorized, and only a
    /// verified body is ever parsed.
    pub fn process_github(
        signature_header: Option<&str>,
        secret: Option<&str>,
        body: &[u8],
    ) -> (r: Result<NormalizedEvent, AppError>)
        ensures
            signature_header is None ==> (r matches Err(e) && e == AppError::Unauthorized),
            signature_header is Some && secret is None ==> (r matches Err(e) && e matches
                AppError::ConfigError(_)),
            (signature_header matches Some(sig) && secret matches Some(sec)
                && !signature_accepted(sig@, sec@, body@)) ==> (r matches Err(e) && e
                == AppError::Unauthorized),
            r matches Ok(ev) ==> (signature_header matches Some(sig) && secret matches Some(sec)
                && signature_accepted(sig@, sec@, body@) && event_wf(ev@) && ev@.platform
                == Platform::GitHub),
            (signature_header matches Some(sig) && secret matches Some(sec)
                && signature_accepted(sig@, sec@, body@)) ==> (match spec_github_parse(body@) {
                Some(p) => r matches Ok(ev) && ev@ == spec_github_event_of(p),
                None => r matches Err(e) && e matches AppError::BadRequest(_),
            }),
    {
        let sig = match signature_header {
            Some(s) => s,
            None => {
                return Err(AppError::Unauthorized);
            },
        };
        let sec = match secret {
            Some(s) => s,
            None => {
                return Err(
                    AppError::ConfigError(String::from_str("Missing GITHUB_WEBHOOK_SECRET")),
                );
            },
        };
        match github::verify_signature(body, sig, sec) {
            Ok(()) => github::parse_payload(body),
            Err(e) => Err(e),
        }
    }

    /// The GitLab route: a missing token header is unauthorized, a missing
    /// configured token is a configuration error, a token that differs from
    /// the configured one in any character is unauthorized, and only a
    /// verified body is ever parsed.
    pub fn process_gitlab(
        token_header: Option<&str>,
        expected_token: Option<&str>,
        body: &[u8],
    ) -> (r: Result<NormalizedEvent, AppError>)
        ensures
            token_header is None ==> (r matches Err(e) && e == AppError::Unauthorized),
            token_header is Some && expected_token is None ==> (r matches Err(e) && e matches
                AppError::ConfigError(_)),
            (token_header matches Some(t) && expected_token matches Some(x) && t@ != x@) ==> (r
                matches Err(e) && e == AppError::Unauthorized),
            r matches Ok(ev) ==> (token_header matches Some(t) && expected_token matches Some(x)
                && t@ == x@ && event_wf(ev@) && ev@.platform == Platform::GitLab),
            (token_header matches Some(t) && expected_token matches Some(x) && t@ == x@) ==> (
            match spec_gitlab_parse(body@) {
                Some(p) => r matches Ok(ev) && ev@ == spec_gitlab_event_of(p),
                None => r matches Err(e) && e matches AppError::BadRequest(_),
            }),
    {
        let token = match token_header {
            Some(t) => t,
            None => {
                return Err(AppError::Unauthorized);
            },
        };
        let expected = match expected_token {
            Some(t) => t,
            None => {
                return Err(
                    AppError::ConfigError(String::from_str("Missing GITLAB_WEBHOOK_TOKEN")),
                );
            },
        };
        match gitlab::verify_token(token, expected) {
            Ok(()) => gitlab::parse_payload(body),
            Err(e) => Err(e),
        }
    }
}

/// The startup gate: both per-provider secrets must be present before the
/// service accepts any request — fail fast, not per request.
pub fn validate_secrets(github_secret: Option<&str>, gitlab_token: Option<&str>) -> (r: Result<
    (),
    AppError,
>)
    ensures
        r is Ok <==> github_secret is Some && gitlab_token is Some,
        r matches Err(e) ==> e matches AppError::ConfigError(_),
{
    if github_secret.is_none() {
        return Err(
            AppError::ConfigError(
                String::from_str("GITHUB_WEBHOOK_SECRET environment variable is required"),
            ),
        );
    }
    if gitlab_token.is_none() {
        return Err(
            AppError::ConfigError(
                String::from_str("GITLAB_WEBHOOK_TOKEN environment variable is required"),
            ),
        );
    }
    Ok(())
}

} // verus!
