pub mod diagnosis;
pub mod log_parser;

use vstd::prelude::*;
use vstd::string::StrSliceExecFns;
use vstd::string::StringExecFns;
use crate::analyzer::diagnosis::Diagnosis;
use crate::analyzer::diagnosis::DiagnosisView;
use crate::config::Config;
use crate::perceiver::event::EventType;
use crate::perceiver::event::EventView;
use crate::perceiver::event::NormalizedEvent;
use crate::strutil::lower_seq;
use crate::strutil::matches_at;
use crate::strutil::occurs_at_ci;

verus! {

/// A lower-cased line carries the failure pattern with the witness pair
/// `(i, j)`: a `test` or `spec` marker at `i` and `failed` at or after the
/// marker's end.
pub open spec fn flaky_pair_at(line: Seq<char>, i: int, j: int) -> bool {
    &&& (matches_at(lower_seq(line), "test"@, i) || matches_at(lower_seq(line), "spec"@, i))
    &&& j >= i + 4
    &&& matches_at(lower_seq(line), "failed"@, j)
}

/// The log line matches the flaky-test failure pattern: `test` or `spec`
/// followed by `failed`, case-insensitively — the folding covers the ASCII
/// letters, which is all the pattern holds.
pub open spec fn flaky_line_matches(line: Seq<char>) -> bool {
    exists|i: int, j: int| flaky_pair_at(line, i, j)
}

/// ASCII whitespace, the delimiters between log-line tokens.
pub open spec fn spec_is_space(c: char) -> bool {
    c == ' ' || c == '\t' || c == '\n' || c == '\r' || c == '\u{000B}' || c == '\u{000C}'
}

fn is_space_char(c: char) -> (r: bool)
    ensures
        r == spec_is_space(c),
{
    c == ' ' || c == '\t' || c == '\n' || c == '\r' || c == '\u{000B}' || c == '\u{000C}'
}

/// The sequence with its leading whitespace removed.
pub open spec fn spec_skip_spaces(s: Seq<char>) -> Seq<char>
    decreases s.len(),
{
    if s.len() == 0 {
        s
    } else if spec_is_space(s[0]) {
        spec_skip_spaces(s.drop_first())
    } else {
        s
    }
}

/// The longest whitespace-free prefix of the sequence.
pub open spec fn spec_take_token(s: Seq<char>) -> Seq<char>
    decreases s.len(),
{
    if s.len() == 0 || spec_is_space(s[0]) {
        Seq::empty()
    } else {
        seq![s[0]] + spec_take_token(s.drop_first())
    }
}

/// The first whitespace-delimited token of a line; empty when the line holds
/// none.
pub open spec fn spec_first_token(s: Seq<char>) -> Seq<char> {
    spec_take_token(spec_skip_spaces(s))
}

/// The test name reported for a matching line: its first token, with a fixed
/// fallback when the line has no token at all.
pub open spec fn spec_test_name(line: Seq<char>) -> Seq<char> {
    if spec_first_token(line).len() == 0 {
        "unknown_test"@
    } else {
        spec_first_token(line)
    }
}

proof fn lemma_skip_spaces_at(s: Seq<char>, start: int)
    requires
        0 <= start <= s.len(),
        forall|k: int| 0 <= k < start ==> spec_is_space(s[k]),
        start == s.len() || !spec_is_space(s[start]),
    ensures
        spec_skip_spaces(s) == s.skip(start),
    decreases start,
{
    if start == 0 {
        assert(s.skip(0) =~= s);
    } else {
        lemma_skip_spaces_at(s.drop_first(), start - 1);
        assert(s.drop_first().skip(start - 1) =~= s.skip(start));
    }
}

proof fn lemma_take_token_at(s: Seq<char>, end: int)
    requires
        0 <= end <= s.len(),
        forall|k: int| 0 <= k < end ==> !spec_is_space(s[k]),
        end == s.len() || spec_is_space(s[end]),
    ensures
        spec_take_token(s) == s.take(end),
    decreases end,
{
    if end == 0 {
        assert(s.take(0) =~= Seq::<char>::empty());
    } else {
        lemma_take_token_at(s.drop_first(), end - 1);
        assert(seq![s[0]] + s.drop_first().take(end - 1) =~= s.take(end));
    }
}

/// The first whitespace-delimited token of `line` — delimiters are the
/// ASCII whitespace characters — or the fixed fallback when the line holds
/// no token.
pub fn extract_test_name(line: &str) -> (r: String)
    ensures
        r@ == spec_test_name(line@),
{
    let n = line.unicode_len();
    let mut start: usize = 0;
    while start < n && is_space_char(line.get_char(start))
        invariant
            n == line@.len(),
            start <= n,
            forall|k: int| 0 <= k < start ==> spec_is_space(line@[k]),
        decreases n - start,
    {
        start = start + 1;
    }
    if start == n {
        proof {
            lemma_skip_spaces_at(line@, start as int);
            assert(line@.skip(n as int) =~= Seq::<char>::empty());
        }
        return String::from_str("unknown_test");
    }
    let mut end: usize = start;
    while end < n && !is_space_char(line.get_char(end))
        invariant
            n == line@.len(),
            start <= end <= n,
            forall|k: int| start <= k < end ==> !spec_is_space(line@[k]),
        decreases n - end,
    {
        end = end + 1;
    }
    let token = line.substring_char(start, end);
    proof {
        lemma_skip_spaces_at(line@, start as int);
        lemma_take_token_at(line@.skip(start as int), end - start);
        assert(line@.skip(start as int).take(end - start) =~= line@.subrange(
            start as int,
            end as int,
        ));
        assert(spec_first_token(line@).len() == end - start);
    }
    String::from_str(token)
}

/// Whether the line, its ASCII letters folded to lower case, holds a `test`
/// or `spec` marker with `failed` at or after the marker's end.
pub fn line_matches_flaky(line: &str) -> (r: bool)
    ensures
        r == flaky_line_matches(line@),
{
    proof {
        reveal_strlit("test");
        reveal_strlit("spec");
        reveal_strlit("failed");
    }
    let n = line.unicode_len();
    if n < 4 {
        return false;
    }
    let bound = n - 4;
    let mut i: usize = 0;
    let mut found: bool = false;
    while i <= bound && !found
        invariant
            n == line@.len(),
            n >= 4,
            bound == n - 4,
            "test"@.len() == 4 && "spec"@.len() == 4 && "failed"@.len() == 6,
            i <= bound + 1,
            found ==> i + 4 <= n && (matches_at(lower_seq(line@), "test"@, i as int) || matches_at(
                lower_seq(line@),
                "spec"@,
                i as int,
            )),
            forall|m: int|
                0 <= m < i ==> !matches_at(lower_seq(line@), "test"@, m) && !matches_at(
                    lower_seq(line@),
                    "spec"@,
                    m,
                ),
        decreases n - i, (if found { 0int } else { 1int }),
    {
        if occurs_at_ci(line, "test", i) || occurs_at_ci(line, "spec", i) {
            found = true;
        } else {
            i = i + 1;
        }
    }
    if !found {
        proof {
            assert(lower_seq(line@).len() == n);
            assert forall|wi: int, wj: int| !flaky_pair_at(line@, wi, wj) by {
                if flaky_pair_at(line@, wi, wj) {
                    assert(0 <= wi && wi + 4 <= n);
                }
            }
        }
        return false;
    }
    let marker = i;
    let mut j: usize = marker + 4;
    if n >= 6 {
        while j <= n - 6
            invariant
                n == line@.len(),
                n >= 6,
                "failed"@.len() == 6,
                marker + 4 <= j,
                marker + 4 <= n,
                matches_at(lower_seq(line@), "test"@, marker as int) || matches_at(
                    lower_seq(line@),
                    "spec"@,
                    marker as int,
                ),
                forall|m: int| marker + 4 <= m < j ==> !matches_at(lower_seq(line@), "failed"@, m),
            decreases n - j,
        {
            if occurs_at_ci(line, "failed", j) {
                proof {
                    assert(flaky_pair_at(line@, marker as int, j as int));
                }
                return true;
            }
            j = j + 1;
        }
    }
    proof {
        assert(lower_seq(line@).len() == n);
        assert forall|wi: int, wj: int| !flaky_pair_at(line@, wi, wj) by {
            if flaky_pair_at(line@, wi, wj) {
                assert(wi >= marker);
                assert(wj >= marker + 4);
                assert(wj + 6 <= n);
            }
        }
    }
    false
}

/// The diagnosis the flaky-test detector reports for a log: the first
/// matching line decides, and scanning stops there.
pub open spec fn spec_flaky_diag(lines: Seq<Seq<char>>) -> Option<(Seq<char>, Seq<char>)>
    decreases lines.len(),
{
    if lines.len() == 0 {
        None
    } else if flaky_line_matches(lines[0]) {
        Some((spec_test_name(lines[0]), "Test matched failure pattern"@))
    } else {
        spec_flaky_diag(lines.drop_first())
    }
}

/// Scans log lines for the flaky-test failure pattern; reports the first
/// matching line's first token and a fixed reason, at most once per log.
pub fn detect_flaky_tests(log_lines: &Vec<String>) -> (r: Option<(String, String)>)
    ensures
        match r {
            Some(d) => spec_flaky_diag(log_lines.deep_view()) == Some((d.0@, d.1@)),
            None => spec_flaky_diag(log_lines.deep_view()) is None,
        },
{
    let ghost all = log_lines.deep_view();
    proof {
        assert(all.skip(0) =~= all);
    }
    let n = log_lines.len();
    let mut k: usize = 0;
    while k < n
        invariant
            all == log_lines.deep_view(),
            n == log_lines@.len(),
            all.len() == n,
            k <= n,
            forall|m: int| 0 <= m < n ==> all[m] == log_lines@[m]@,
            spec_flaky_diag(all) == spec_flaky_diag(all.skip(k as int)),
        decreases n - k,
    {
        if line_matches_flaky(log_lines[k].as_str()) {
            let name = extract_test_name(log_lines[k].as_str());
            let reason = String::from_str("Test matched failure pattern");
            proof {
                assert(all.skip(k as int)[0] == all[k as int]);
            }
            return Some((name, reason));
        }
        proof {
            assert(all.skip(k as int)[0] == all[k as int]);
            assert(all.skip(k as int).drop_first() =~= all.skip(k + 1));
        }
        k = k + 1;
    }
    proof {
        assert(all.skip(n as int) =~= Seq::<Seq<char>>::empty());
    }
    None
}

/// What the diagnosis engine produces for an event whose logs, when a log
/// locator was promised, have been retrieved: only a failed job with
/// retrieved logs can yield the flaky-test diagnosis.
pub open spec fn spec_analyze(event: EventView, logs: Option<Seq<Seq<char>>>) -> Seq<
    DiagnosisView,
> {
    match logs {
        None => Seq::empty(),
        Some(lines) => {
            if event.event_type == EventType::JobFailed {
                match spec_flaky_diag(lines) {
                    Some(d) => seq![
                        DiagnosisView::FlakyTest { test_name: d.0, reason: d.1 },
                    ],
                    None => Seq::empty(),
                }
            } else {
                Seq::empty()
            }
        },
    }
}

/// Inspects a normalized event together with its retrieved log lines and
/// produces the diagnoses explaining the outcome. `log_lines` carries the
/// lines fetched from the event's log locator, and `None` when the event
/// supplied no locator; retrieval itself happens at the caller's edge.
pub fn analyze_event(event: &NormalizedEvent, config: &Config, log_lines: Option<&Vec<String>>)
    -> (r: Vec<Diagnosis>)
    ensures
        r.deep_view() == spec_analyze(
            event@,
            match log_lines {
                Some(l) => Some(l.deep_view()),
                None => None,
            },
        ),
{
    let mut diagnoses: Vec<Diagnosis> = Vec::new();
    if let Some(lines) = log_lines {
        if event.event_type == EventType::JobFailed {
            if let Some((test_name, reason)) = detect_flaky_tests(lines) {
                diagnoses.push(Diagnosis::FlakyTest { test_name, reason });
            }
        }
    }
    proof {
        assert(diagnoses.deep_view() =~= spec_analyze(
            event@,
            match log_lines {
                Some(l) => Some(l.deep_view()),
                None => None,
            },
        ));
    }
    diagnoses
}

proof fn lemma_flaky_diag_first(lines: Seq<Seq<char>>, k: int)
    requires
        0 <= k < lines.len(),
        flaky_line_matches(lines[k]),
        forall|m: int| 0 <= m < k ==> !flaky_line_matches(lines[m]),
    ensures
        spec_flaky_diag(lines) == Some((spec_test_name(lines[k]), "Test matched failure pattern"@)),
    decreases k,
{
    if k > 0 {
        lemma_flaky_diag_first(lines.drop_first(), k - 1);
    }
}

/// A failed job whose logs hold a matching line yields exactly one
/// flaky-test diagnosis, named after the first token of the first matching
/// line.
pub proof fn lemma_single_flaky_diagnosis(event: EventView, lines: Seq<Seq<char>>, k: int)
    requires
        event.event_type == EventType::JobFailed,
        0 <= k < lines.len(),
        flaky_line_matches(lines[k]),
        forall|m: int| 0 <= m < k ==> !flaky_line_matches(lines[m]),
    ensures
        spec_analyze(event, Some(lines)) == seq![
            DiagnosisView::FlakyTest {
                test_name: spec_test_name(lines[k]),
                reason: "Test matched failure pattern"@,
            },
        ],
{
    lemma_flaky_diag_first(lines, k);
}

} // verus!
