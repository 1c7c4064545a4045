//! Pipeline stages shared by the step services: stage names, the job
//! record they move along, and the normalizations every step applies to
//! its inputs.
use vstd::prelude::*;

use crate::text::{
    append_str, chars_of, lower, opt_view, str_eq, string_of, trim, trim_lower, trim_str,
};

verus! {

/// Stage a job currently sits in.
#[derive(Debug, Clone, Copy, PartialEq, Eq, Structural, Hash)]
pub enum JobStage {
    Extract,
    Load,
    Prefilter,
    Enrich,
    Serve,
}

/// Persisted name of a stage.
pub open spec fn stage_name(s: JobStage) -> Seq<char> {
    match s {
        JobStage::Extract => "extract"@,
        JobStage::Load => "load"@,
        JobStage::Prefilter => "prefilter"@,
        JobStage::Enrich => "enrich"@,
        JobStage::Serve => "serve"@,
    }
}

/// Stage whose persisted name is `s`, if any.
pub open spec fn stage_of_name(s: Seq<char>) -> Option<JobStage> {
    if s == "extract"@ {
        Some(JobStage::Extract)
    } else if s == "load"@ {
        Some(JobStage::Load)
    } else if s == "prefilter"@ {
        Some(JobStage::Prefilter)
    } else if s == "enrich"@ {
        Some(JobStage::Enrich)
    } else if s == "serve"@ {
        Some(JobStage::Serve)
    } else {
        None
    }
}

impl JobStage {
    /// Persisted name of the stage.
    pub fn as_str(self) -> (r: &'static str)
        ensures
            r@ == stage_name(self),
    {
        match self {
            JobStage::Extract => "extract",
            JobStage::Load => "load",
            JobStage::Prefilter => "prefilter",
            JobStage::Enrich => "enrich",
            JobStage::Serve => "serve",
        }
    }

    /// Stage named by `value`; `None` for any other text.
    pub fn from_str(value: &str) -> (r: Option<JobStage>)
        ensures
            r == stage_of_name(value@),
    {
        if str_eq(value, "extract") {
            Some(JobStage::Extract)
        } else if str_eq(value, "load") {
            Some(JobStage::Load)
        } else if str_eq(value, "prefilter") {
            Some(JobStage::Prefilter)
        } else if str_eq(value, "enrich") {
            Some(JobStage::Enrich)
        } else if str_eq(value, "serve") {
            Some(JobStage::Serve)
        } else {
            None
        }
    }
}

/// Reading back the name of a stage gives the stage.
pub proof fn stage_name_roundtrip(s: JobStage)
    ensures
        stage_of_name(stage_name(s)) == Some(s),
{
    reveal_strlit("extract");
    reveal_strlit("load");
    reveal_strlit("prefilter");
    reveal_strlit("enrich");
    reveal_strlit("serve");
    assert("extract"@.len() == 7);
    assert("load"@.len() == 4);
    assert("prefilter"@.len() == 9);
    assert("enrich"@.len() == 6);
    assert("serve"@.len() == 5);
}

/// Distinct stages have distinct names.
pub proof fn stage_names_distinct(a: JobStage, b: JobStage)
    ensures
        stage_name(a) == stage_name(b) ==> a == b,
{
    stage_name_roundtrip(a);
    stage_name_roundtrip(b);
}

/// Why a job sits where it is.
pub struct StageStatusMeta {
    pub reason: String,
}

impl StageStatusMeta {
    pub fn new(reason: String) -> (r: Self)
        ensures
            r.reason@ == reason@,
    {
        StageStatusMeta { reason }
    }
}

/// A job moving through the pipeline.
pub struct Job {
    pub id: i64,
    pub platform: String,
    pub canonical_url: String,
    pub source_ref: Option<String>,
    pub source_cursor: Option<String>,
    pub current_stage: JobStage,
    pub status_meta: Option<StageStatusMeta>,
    pub first_seen: String,
    pub last_seen: String,
}

impl Job {
    /// A job just discovered: in the extract stage, with no source or
    /// status recorded.
    pub fn new(
        id: i64,
        platform: String,
        canonical_url: String,
        first_seen: String,
        last_seen: String,
    ) -> (r: Self)
        ensures
            r.id == id,
            r.platform@ == platform@,
            r.canonical_url@ == canonical_url@,
            r.source_ref is None,
            r.source_cursor is None,
            r.current_stage == JobStage::Extract,
            r.status_meta is None,
            r.first_seen@ == first_seen@,
            r.last_seen@ == last_seen@,
    {
        Job {
            id,
            platform,
            canonical_url,
            source_ref: None,
            source_cursor: None,
            current_stage: JobStage::Extract,
            status_meta: None,
            first_seen,
            last_seen,
        }
    }
}

/// One pipeline step run on an input.
pub trait StepService {
    type Input;

    type Output;

    type Error;

    fn run(&self, input: Self::Input) -> Result<Self::Output, Self::Error>;
}

// ---------------------------------------------------------------------------
// Input normalization shared by the steps
// ---------------------------------------------------------------------------

/// A platform name trimmed and lower-cased; `None` when nothing is left.
pub open spec fn platform_norm(s: Seq<char>) -> Option<Seq<char>> {
    if lower(trim(s)).len() == 0 {
        None
    } else {
        Some(lower(trim(s)))
    }
}

/// The platform label written into a status note.
pub open spec fn platform_label_of(s: Seq<char>) -> Seq<char> {
    match platform_norm(s) {
        Some(v) => v,
        None => "unknown"@,
    }
}

/// The platform filter a step applies.
pub open spec fn platform_filter_norm(f: Option<Seq<char>>) -> Option<Seq<char>> {
    match f {
        Some(v) => platform_norm(v),
        None => None,
    }
}

/// A reason trimmed, or the step's default when nothing is left.
pub open spec fn reason_or(reason: Seq<char>, default: Seq<char>) -> Seq<char> {
    if trim(reason).len() == 0 {
        default
    } else {
        trim(reason)
    }
}

/// A trimmed text, `None` when nothing is left.
pub open spec fn trimmed_nonempty(s: Seq<char>) -> Option<Seq<char>> {
    if trim(s).len() == 0 {
        None
    } else {
        Some(trim(s))
    }
}

/// The optional form of `trimmed_nonempty`.
pub open spec fn opt_trimmed_nonempty(s: Option<Seq<char>>) -> Option<Seq<char>> {
    match s {
        Some(v) => trimmed_nonempty(v),
        None => None,
    }
}

/// `a:b:c:d`, the layout of a status note.
pub open spec fn meta4(a: Seq<char>, b: Seq<char>, c: Seq<char>, d: Seq<char>) -> Seq<char> {
    a + ":"@ + b + ":"@ + c + ":"@ + d
}

/// `a:b:c`.
pub open spec fn meta3(a: Seq<char>, b: Seq<char>, c: Seq<char>) -> Seq<char> {
    a + ":"@ + b + ":"@ + c
}

/// Platform name trimmed and lower-cased, `None` when empty.
pub fn normalized_platform(platform: &str) -> (r: Option<String>)
    ensures
        opt_view(r) == platform_norm(platform@),
{
    let v = trim_lower(platform);
    if v.len() == 0 {
        None
    } else {
        Some(string_of(&v))
    }
}

/// Normalized platform name, or `unknown`.
pub fn platform_label(platform: &str) -> (r: String)
    ensures
        r@ == platform_label_of(platform@),
{
    match normalized_platform(platform) {
        Some(v) => v,
        None => string_of(&chars_of("unknown")),
    }
}

/// `normalized_platform` applied to an optional filter.
pub fn normalized_platform_filter(platform_filter: Option<String>) -> (r: Option<String>)
    ensures
        opt_view(r) == platform_filter_norm(opt_view(platform_filter)),
{
    match platform_filter {
        Some(v) => normalized_platform(v.as_str()),
        None => None,
    }
}

/// Trimmed reason, or `default` when it is blank.
pub fn normalized_reason_or(reason: &str, default: &str) -> (r: String)
    ensures
        r@ == reason_or(reason@, default@),
{
    let t = trim_str(reason);
    if t.len() == 0 {
        string_of(&chars_of(default))
    } else {
        string_of(&t)
    }
}

/// Trimmed text, `None` when blank.
pub fn trimmed_or_none(s: &str) -> (r: Option<String>)
    ensures
        opt_view(r) == trimmed_nonempty(s@),
{
    let t = trim_str(s);
    if t.len() == 0 {
        None
    } else {
        Some(string_of(&t))
    }
}

/// `trimmed_or_none` applied to an optional text.
pub fn opt_trimmed_or_none(s: &Option<String>) -> (r: Option<String>)
    ensures
        opt_view(r) == opt_trimmed_nonempty(opt_view(*s)),
{
    match s {
        Some(v) => trimmed_or_none(v.as_str()),
        None => None,
    }
}

/// Builds `a:b:c:d`.
pub fn join_meta4(a: &str, b: &str, c: &str, d: &str) -> (r: String)
    ensures
        r@ == meta4(a@, b@, c@, d@),
{
    let mut v = chars_of(a);
    append_str(&mut v, ":");
    append_str(&mut v, b);
    append_str(&mut v, ":");
    append_str(&mut v, c);
    append_str(&mut v, ":");
    append_str(&mut v, d);
    string_of(&v)
}

/// Builds `a:b:c`.
pub fn join_meta3(a: &str, b: &str, c: &str) -> (r: String)
    ensures
        r@ == meta3(a@, b@, c@),
{
    let mut v = chars_of(a);
    append_str(&mut v, ":");
    append_str(&mut v, b);
    append_str(&mut v, ":");
    append_str(&mut v, c);
    string_of(&v)
}

// ---------------------------------------------------------------------------
// Errors of the steps
// ---------------------------------------------------------------------------

/// Inputs a step refuses.
#[derive(Debug, Clone, Copy, PartialEq, Eq, Structural)]
pub enum StepError {
    PrefilterLimitZero,
    EnrichLimitZero,
    ServeLimitZero,
    LoadPendingLimitZero,
    LoadSeedPlatformEmpty,
    LoadSeedUrlEmpty,
    ExtractSourcesEmpty,
    ExtractSourcePlatformEmpty,
    ExtractSourceRefEmpty,
    ExtractMaxPagesZero,
    ExtractMaxLinksZero,
}

/// The message reported for each refusal.
pub open spec fn step_error_text(e: StepError) -> Seq<char> {
    match e {
        StepError::PrefilterLimitZero => "prefilter.limit must be > 0"@,
        StepError::EnrichLimitZero => "enrich.limit must be > 0"@,
        StepError::ServeLimitZero => "serve.limit must be > 0"@,
        StepError::LoadPendingLimitZero => "load.pending_limit must be > 0"@,
        StepError::LoadSeedPlatformEmpty => "load seed platform is empty"@,
        StepError::LoadSeedUrlEmpty => "load seed canonical_url is empty"@,
        StepError::ExtractSourcesEmpty => "extract.sources must not be empty"@,
        StepError::ExtractSourcePlatformEmpty => "extract source platform is empty"@,
        StepError::ExtractSourceRefEmpty => "extract source_ref is empty"@,
        StepError::ExtractMaxPagesZero => "extract.max_pages_per_source must be > 0"@,
        StepError::ExtractMaxLinksZero => "extract.max_links_per_page must be > 0"@,
    }
}

impl StepError {
    /// Human-readable message.
    pub fn message(&self) -> (r: String)
        ensures
            r@ == step_error_text(*self),
    {
        let s: &str = match self {
            StepError::PrefilterLimitZero => "prefilter.limit must be > 0",
            StepError::EnrichLimitZero => "enrich.limit must be > 0",
            StepError::ServeLimitZero => "serve.limit must be > 0",
            StepError::LoadPendingLimitZero => "load.pending_limit must be > 0",
            StepError::LoadSeedPlatformEmpty => "load seed platform is empty",
            StepError::LoadSeedUrlEmpty => "load seed canonical_url is empty",
            StepError::ExtractSourcesEmpty => "extract.sources must not be empty",
            StepError::ExtractSourcePlatformEmpty => "extract source platform is empty",
            StepError::ExtractSourceRefEmpty => "extract source_ref is empty",
            StepError::ExtractMaxPagesZero => "extract.max_pages_per_source must be > 0",
            StepError::ExtractMaxLinksZero => "extract.max_links_per_page must be > 0",
        };
        string_of(&chars_of(s))
    }
}

} // verus!
