use vstd::prelude::*;
use vstd::string::StringExecFns;
use crate::strutil::str_eq;

verus! {

/// The CI platform an event originated from.
#[derive(Debug, Clone, Copy, PartialEq, Eq, Structural)]
pub enum Platform {
    GitHub,
    GitLab,
}

/// The provider-agnostic outcome classification, derived once during
/// normalization and never mutated afterwards.
#[derive(Debug, Clone, Copy, PartialEq, Eq, Structural)]
pub enum EventType {
    /// A job has started execution.
    JobStarted,
    /// A job has successfully completed.
    JobSucceeded,
    /// A job has failed.
    JobFailed,
    /// The entire pipeline has completed successfully.
    PipelineCompleted,
    /// A test failed within a job.
    TestFailure,
    /// A failure related to missing or uncached dependencies.
    DependencyIssue,
    /// The entire pipeline has encountered a critical error.
    PipelineErrored,
    /// An unrecognized or unclassified event type.
    Unknown,
}

/// A string-keyed mapping carrying provider-specific context. Key order
/// carries no meaning; a missing key means "unknown", never an error.
#[derive(Debug, Clone)]
pub struct Metadata {
    entries: Vec<(String, String)>,
}

/// The mapping denoted by an entry list: a later entry for a key shadows an
/// earlier one.
pub open spec fn entries_map(s: Seq<(String, String)>) -> Map<Seq<char>, Seq<char>>
    decreases s.len(),
{
    if s.len() == 0 {
        Map::empty()
    } else {
        entries_map(s.drop_last()).insert(s.last().0@, s.last().1@)
    }
}

/// The value the entry list associates with `k`, if any: the last entry wins.
pub open spec fn entries_lookup(s: Seq<(String, String)>, k: Seq<char>) -> Option<Seq<char>>
    decreases s.len(),
{
    if s.len() == 0 {
        None
    } else if s.last().0@ == k {
        Some(s.last().1@)
    } else {
        entries_lookup(s.drop_last(), k)
    }
}

pub proof fn lemma_entries_lookup_is_map(s: Seq<(String, String)>, k: Seq<char>)
    ensures
        entries_map(s).contains_key(k) <==> entries_lookup(s, k) is Some,
        entries_map(s).contains_key(k) ==> entries_lookup(s, k) == Some(entries_map(s)[k]),
    decreases s.len(),
{
    if s.len() > 0 {
        lemma_entries_lookup_is_map(s.drop_last(), k);
    }
}

impl View for Metadata {
    type V = Map<Seq<char>, Seq<char>>;

    closed spec fn view(&self) -> Map<Seq<char>, Seq<char>> {
        entries_map(self.entries@)
    }
}

impl Metadata {
    pub fn new() -> (m: Metadata)
        ensures
            m@ == Map::<Seq<char>, Seq<char>>::empty(),
    {
        Metadata { entries: Vec::new() }
    }

    /// Associates `value` with `key`, replacing any earlier association.
    pub fn insert(&mut self, key: String, value: String)
        ensures
            final(self)@ == old(self)@.insert(key@, value@),
    {
        self.entries.push((key, value));
        proof {
            assert(self.entries@.drop_last() =~= old(self).entries@);
        }
    }

    /// Looks `key` up; `None` when the key is absent.
    pub fn get(&self, key: &str) -> (r: Option<&String>)
        ensures
            match r {
                Some(v) => self@.contains_key(key@) && v@ == self@[key@],
                None => !self@.contains_key(key@),
            },
    {
        proof {
            lemma_entries_lookup_is_map(self.entries@, key@);
            assert(self.entries@.take(self.entries@.len() as int) =~= self.entries@);
        }
        let n = self.entries.len();
        let mut i: usize = n;
        while i > 0
            invariant
                n == self.entries@.len(),
                i <= n,
                entries_lookup(self.entries@, key@) == entries_lookup(
                    self.entries@.take(i as int),
                    key@,
                ),
            decreases i,
        {
            i = i - 1;
            let pair = &self.entries[i];
            if str_eq(pair.0.as_str(), key) {
                proof {
                    lemma_entries_lookup_is_map(self.entries@, key@);
                    assert(self.entries@.take(i + 1).last() == self.entries@[i as int]);
                    assert(entries_lookup(self.entries@.take(i + 1), key@) == Some(
                        self.entries@[i as int].1@,
                    ));
                }
                return Some(&self.entries[i].1);
            }
            proof {
                assert(self.entries@.take(i + 1).last() == self.entries@[i as int]);
                assert(self.entries@.take(i + 1).drop_last() =~= self.entries@.take(i as int));
                assert(entries_lookup(self.entries@.take(i + 1), key@) == entries_lookup(
                    self.entries@.take(i as int),
                    key@,
                ));
            }
        }
        proof {
            assert(self.entries@.take(0) =~= Seq::<(String, String)>::empty());
            assert(entries_lookup(self.entries@.take(0), key@) is None);
        }
        None
    }
}

/// The ghost image of a [`NormalizedEvent`]: every string as a character
/// sequence, the metadata as a mapping.
pub struct EventView {
    pub platform: Platform,
    pub platform_id: Seq<char>,
    pub pipeline_id: Seq<char>,
    pub job_id: Option<Seq<char>>,
    pub event_type: EventType,
    pub logs_uri: Option<Seq<char>>,
    pub metadata: Map<Seq<char>, Seq<char>>,
    pub raw_event_type: Option<Seq<char>>,
    pub trigger_source: Option<Seq<char>>,
}

pub open spec fn view_opt(o: Option<String>) -> Option<Seq<char>> {
    match o {
        Some(s) => Some(s@),
        None => None,
    }
}

/// The correlation key composed for an event: the platform's name, `#`, and
/// the provider-native pipeline id.
pub open spec fn spec_platform_id(platform: Platform, pipeline_id: Seq<char>) -> Seq<char> {
    match platform {
        Platform::GitHub => "github#"@ + pipeline_id,
        Platform::GitLab => "gitlab#"@ + pipeline_id,
    }
}

/// Every well-formed event's correlation key reads as the platform's name,
/// `#`, then the provider-native pipeline id — for both providers.
pub proof fn lemma_platform_id_shape(e: EventView)
    requires
        event_wf(e),
    ensures
        e.platform == Platform::GitHub ==> e.platform_id == "github#"@ + e.pipeline_id,
        e.platform == Platform::GitLab ==> e.platform_id == "gitlab#"@ + e.pipeline_id,
{
}

/// The canonical unit flowing through the pipeline, created exactly once by
/// a normalizer from a verified payload and immutable afterwards.
#[derive(Debug, Clone)]
pub struct NormalizedEvent {
    pub platform: Platform,
    pub platform_id: String,
    pub pipeline_id: String,
    pub job_id: Option<String>,
    pub event_type: EventType,
    pub logs_uri: Option<String>,
    pub metadata: Metadata,
    /// Raw event name as received from the provider.
    pub raw_event_type: Option<String>,
    /// Optional trigger information.
    pub trigger_source: Option<String>,
}

impl View for NormalizedEvent {
    type V = EventView;

    open spec fn view(&self) -> EventView {
        EventView {
            platform: self.platform,
            platform_id: self.platform_id@,
            pipeline_id: self.pipeline_id@,
            job_id: view_opt(self.job_id),
            event_type: self.event_type,
            logs_uri: view_opt(self.logs_uri),
            metadata: self.metadata@,
            raw_event_type: view_opt(self.raw_event_type),
            trigger_source: view_opt(self.trigger_source),
        }
    }
}

/// The invariant every constructed event satisfies: its correlation key is
/// derived from its platform and pipeline id, never set independently.
pub open spec fn event_wf(e: EventView) -> bool {
    e.platform_id == spec_platform_id(e.platform, e.pipeline_id)
}

impl NormalizedEvent {
    pub fn new(
        platform: Platform,
        pipeline_id: String,
        job_id: Option<String>,
        event_type: EventType,
        logs_uri: Option<String>,
    ) -> (e: NormalizedEvent)
        ensures
            e@ == (EventView {
                platform,
                platform_id: spec_platform_id(platform, pipeline_id@),
                pipeline_id: pipeline_id@,
                job_id: view_opt(job_id),
                event_type,
                logs_uri: view_opt(logs_uri),
                metadata: Map::<Seq<char>, Seq<char>>::empty(),
                raw_event_type: None::<Seq<char>>,
                trigger_source: None::<Seq<char>>,
            }),
            event_wf(e@),
    {
        let mut platform_id = match platform {
            Platform::GitHub => String::from_str("github#"),
            Platform::GitLab => String::from_str("gitlab#"),
        };
        platform_id.append(pipeline_id.as_str());
        NormalizedEvent {
            platform,
            platform_id,
            pipeline_id,
            job_id,
            event_type,
            logs_uri,
            metadata: Metadata::new(),
            raw_event_type: None,
            trigger_source: None,
        }
    }
}

} // verus!
