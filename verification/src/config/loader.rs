use vstd::prelude::*;
use vstd::string::StrSliceExecFns;
use vstd::string::StringExecFns;
use crate::errors::AppError;
use crate::perceiver::event::NormalizedEvent;
use crate::perceiver::event::Platform;
use crate::strutil::matches_at;

verus! {

/// What the platform API must be asked for to find an event's
/// per-repository configuration file.
#[derive(Debug, Clone)]
pub enum ConfigQuery {
    GitHub { owner: String, repo: String, sha: String },
    GitLab { project: String, sha: String },
}

/// `k` is the position of the one and only `/` in `s`.
pub open spec fn valid_repo_split(s: Seq<char>, k: int) -> bool {
    &&& 0 <= k < s.len()
    &&& s[k] == '/'
    &&& forall|m: int| 0 <= m < s.len() && m != k ==> s[m] != '/'
}

/// An `owner/name` repository identifier split at its one `/`; `None` when
/// the identifier does not have exactly one.
pub open spec fn spec_split_repo(s: Seq<char>) -> Option<(Seq<char>, Seq<char>)> {
    if exists|k: int| valid_repo_split(s, k) {
        let k = choose|k: int| valid_repo_split(s, k);
        Some((s.take(k), s.skip(k + 1)))
    } else {
        None
    }
}

/// Splits a repository identifier of the shape `owner/name`; any other
/// shape — no `/` or more than one — is rejected.
pub fn split_repo(s: &str) -> (r: Option<(String, String)>)
    ensures
        match r {
            Some(p) => spec_split_repo(s@) == Some((p.0@, p.1@)),
            None => spec_split_repo(s@) is None,
        },
{
    let n = s.unicode_len();
    let mut k: usize = 0;
    while k < n && s.get_char(k) != '/'
        invariant
            n == s@.len(),
            k <= n,
            forall|m: int| 0 <= m < k ==> s@[m] != '/',
        decreases n - k,
    {
        k = k + 1;
    }
    if k == n {
        proof {
            assert(forall|j: int| !valid_repo_split(s@, j));
        }
        return None;
    }
    let mut m: usize = k + 1;
    while m < n && s.get_char(m) != '/'
        invariant
            n == s@.len(),
            k < m <= n,
            forall|j: int| k < j < m ==> s@[j] != '/',
        decreases n - m,
    {
        m = m + 1;
    }
    if m < n {
        proof {
            assert(s@[k as int] == '/' && s@[m as int] == '/');
            assert forall|j: int| !valid_repo_split(s@, j) by {
                if valid_repo_split(s@, j) {
                    assert(j == k || s@[k as int] != '/');
                    assert(j == m || s@[m as int] != '/');
                }
            }
        }
        return None;
    }
    let owner = s.substring_char(0, k);
    let name = s.substring_char(k + 1, n);
    proof {
        assert(valid_repo_split(s@, k as int));
        let kk = choose|j: int| valid_repo_split(s@, j);
        assert(s@[kk] == '/');
        assert(kk == k as int);
        assert(s@.take(k as int) =~= s@.subrange(0, k as int));
        assert(s@.skip(k + 1) =~= s@.subrange(k + 1, n as int));
    }
    Some((String::from_str(owner), String::from_str(name)))
}

/// The query the per-repository configuration lookup needs, drawn from an
/// event's metadata: repository and commit for GitHub, project and commit
/// for GitLab. A missing key or a malformed repository identifier is a
/// client error — the event cannot name where its configuration lives.
pub fn config_query_for_event(event: &NormalizedEvent) -> (r: Result<ConfigQuery, AppError>)
    ensures
        event@.platform == Platform::GitHub ==> match r {
            Ok(q) => q matches ConfigQuery::GitHub { owner, repo, sha }
                && event@.metadata.contains_key("repository"@) && event@.metadata.contains_key(
                "commit_sha"@,
            ) && spec_split_repo(event@.metadata["repository"@]) == Some((owner@, repo@)) && sha@
                == event@.metadata["commit_sha"@],
            Err(e) => e matches AppError::BadRequest(_) && (!event@.metadata.contains_key(
                "repository"@,
            ) || !event@.metadata.contains_key("commit_sha"@) || spec_split_repo(
                event@.metadata["repository"@],
            ) is None),
        },
        event@.platform == Platform::GitLab ==> match r {
            Ok(q) => q matches ConfigQuery::GitLab { project, sha }
                && event@.metadata.contains_key("project"@) && event@.metadata.contains_key(
                "commit_sha"@,
            ) && project@ == event@.metadata["project"@] && sha@
                == event@.metadata["commit_sha"@],
            Err(e) => e matches AppError::BadRequest(_) && (!event@.metadata.contains_key(
                "project"@,
            ) || !event@.metadata.contains_key("commit_sha"@)),
        },
{
    match event.platform {
        Platform::GitHub => {
            let repo_full = match event.metadata.get("repository") {
                Some(v) => v,
                None => {
                    return Err(
                        AppError::BadRequest(String::from_str("Missing repository metadata")),
                    );
                },
            };
            let sha = match event.metadata.get("commit_sha") {
                Some(v) => v.clone(),
                None => {
                    return Err(
                        AppError::BadRequest(String::from_str("Missing commit_sha metadata")),
                    );
                },
            };
            match split_repo(repo_full.as_str()) {
                Some((owner, repo)) => Ok(ConfigQuery::GitHub { owner, repo, sha }),
                None => Err(AppError::BadRequest(String::from_str("Invalid repository format"))),
            }
        },
        Platform::GitLab => {
            let project = match event.metadata.get("project") {
                Some(v) => v.clone(),
                None => {
                    return Err(
                        AppError::BadRequest(
                            String::from_str("Missing GitLab project metadata"),
                        ),
                    );
                },
            };
            let sha = match event.metadata.get("commit_sha") {
                Some(v) => v.clone(),
                None => {
                    return Err(
                        AppError::BadRequest(String::from_str("Missing commit_sha metadata")),
                    );
                },
            };
            Ok(ConfigQuery::GitLab { project, sha })
        },
    }
}

/// What base64 decoding yields for a string: a function of the characters
/// alone, `None` where they are not a base64 encoding.
pub uninterp spec fn b64_decode_of(s: Seq<char>) -> Option<Seq<u8>>;

#[verifier::external_type_specification]
#[verifier::external_body]
pub struct ExDecodeError(base64::DecodeError);

/// Relies on base64::decode with the standard alphabet: the decoding is a
/// function of the input characters alone, and it fails exactly where they
/// are not a base64 encoding.
#[verifier::external_body]
pub(crate) fn b64_decode(s: &str) -> (r: Result<Vec<u8>, base64::DecodeError>)
    ensures
        r matches Ok(v) ==> b64_decode_of(s@) == Some(v@),
        r matches Err(_) ==> b64_decode_of(s@) is None,
{
    base64::decode(s)
}

/// Relies on the Display rendering of base64::DecodeError, via ToString.
#[verifier::external_body]
pub(crate) fn b64_error_message(e: &base64::DecodeError) -> String {
    e.to_string()
}

/// The text with every line feed removed, the form the platforms' APIs
/// expect to be decoded.
pub open spec fn spec_strip_newlines(s: Seq<char>) -> Seq<char> {
    s.filter(|c: char| c != '\n')
}

fn strip_newlines(s: &str) -> (r: String)
    ensures
        r@ == spec_strip_newlines(s@),
{
    let n = s.unicode_len();
    let mut out = String::new();
    let mut i: usize = 0;
    proof {
        assert(s@.take(0) =~= Seq::<char>::empty());
        reveal(Seq::filter);
    }
    while i < n
        invariant
            n == s@.len(),
            i <= n,
            out@ == s@.take(i as int).filter(|c: char| c != '\n'),
        decreases n - i,
    {
        let c = s.get_char(i);
        proof {
            reveal(Seq::filter);
            assert(s@.take(i + 1).drop_last() =~= s@.take(i as int));
            assert(s@.take(i + 1).last() == s@[i as int]);
        }
        if c != '\n' {
            let piece = s.substring_char(i, i + 1);
            proof {
                assert(piece@ =~= seq![s@[i as int]]);
            }
            out.append(piece);
            proof {
                reveal(Seq::filter);
                assert(out@ =~= s@.take(i + 1).filter(|c: char| c != '\n'));
            }
        } else {
            proof {
                reveal(Seq::filter);
                assert(out@ =~= s@.take(i + 1).filter(|c: char| c != '\n'));
            }
        }
        i = i + 1;
    }
    proof {
        assert(s@.take(n as int) =~= s@);
    }
    out
}

/// Readies fetched configuration-file content for parsing: the API hands the
/// file base64-encoded with embedded line feeds, so the feeds are removed
/// and the remainder decoded; content that is not a base64 encoding is a
/// configuration error.
pub fn decode_config_content(content: &str) -> (r: Result<Vec<u8>, AppError>)
    ensures
        match r {
            Ok(v) => b64_decode_of(spec_strip_newlines(content@)) == Some(v@),
            Err(e) => b64_decode_of(spec_strip_newlines(content@)) is None && e matches
                AppError::ConfigError(_),
        },
{
    let stripped = strip_newlines(content);
    match b64_decode(stripped.as_str()) {
        Ok(v) => Ok(v),
        Err(e) => {
            let m = b64_error_message(&e);
            Err(AppError::ConfigError(m))
        },
    }
}

/// Which parser a configuration file path calls for: YAML for a path ending
/// in `.yml`, JSON otherwise.
pub fn config_file_is_yaml(path: &str) -> (r: bool)
    ensures
        r == (path@.len() >= 4 && matches_at(path@, ".yml"@, path@.len() - 4)),
{
    proof {
        reveal_strlit(".yml");
    }
    let n = path.unicode_len();
    if n < 4 {
        return false;
    }
    crate::strutil::occurs_at(path, ".yml", n - 4)
}

} // verus!
