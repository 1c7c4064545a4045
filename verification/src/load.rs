//! Load step: turns extracted seeds into job records with a stable key.
use vstd::prelude::*;

use crate::job_page::{hash_text, sha256_hex};
use crate::stage::{
    join_meta3, meta3, normalized_platform_filter, normalized_reason_or, opt_trimmed_nonempty,
    opt_trimmed_or_none, platform_filter_norm, reason_or, stage_name, JobStage, StepError,
};
use crate::text::{
    append_str, chars_of, lower, opt_view, parse_u64, parse_u64_chars, skip_chars, string_of,
    trim, trim_lower, trim_str,
};

verus! {

/// A job link found by the extract step.
pub struct LoadSeed {
    pub platform: String,
    pub canonical_url: String,
    pub source_ref: String,
    pub source_cursor: Option<String>,
}

/// What a load run is asked to do.
pub struct LoadRunInput {
    pub seeds: Vec<LoadSeed>,
    pub reason: String,
    pub platform_filter: Option<String>,
    pub pending_limit: usize,
}

/// Counts reported by a load run.
pub struct LoadRunOutput {
    pub processed: usize,
}

/// A job record ready to be stored.
pub struct LoadPreparedRecord {
    pub dedupe_key: String,
    pub platform: String,
    pub canonical_url: String,
    pub source_ref: String,
    pub source_cursor: Option<String>,
    pub legacy_source_page_index: i64,
    pub current_stage: JobStage,
    pub status_meta: String,
}

/// Which pending seeds a run takes when none are given.
pub struct LoadPendingSelection {
    pub platform_filter: Option<String>,
    pub limit: usize,
}

/// The load step over a job store.
pub struct LoadService<R> {
    repo: R,
}

impl<R> LoadService<R> {
    pub fn new(repo: R) -> (r: Self)
        ensures
            r.repo() == repo,
    {
        LoadService { repo }
    }

    pub closed spec fn repo(&self) -> R {
        self.repo
    }

    /// The job store the step writes.
    pub fn store(&self) -> (r: &R)
        ensures
            *r == self.repo(),
    {
        &self.repo
    }
}

/// Name of the step, which is the name of its stage.
pub fn step_name() -> (r: &'static str)
    ensures
        r@ == stage_name(JobStage::Load),
        r@ == "load"@,
{
    JobStage::Load.as_str()
}

/// Key of a loaded job: lower-case hex SHA-256 of `platform:url`.
pub open spec fn load_key(platform: Seq<char>, canonical_url: Seq<char>) -> Seq<char> {
    sha256_hex(platform + ":"@ + canonical_url)
}

/// What `str::parse::<i64>` followed by keeping positive values gives for a
/// page cursor, with 1 for anything else: an optional `+`, then the digits
/// of a value from 1 to `i64::MAX`.
pub open spec fn page_index_of(cursor: Option<Seq<char>>) -> i64 {
    match cursor {
        None => 1,
        Some(s) => if s.len() > 0 && s[0] == '-' {
            1
        } else {
            let body = if s.len() > 0 && s[0] == '+' {
                s.skip(1)
            } else {
                s
            };
            match parse_u64(body) {
                Some(v) => if 0 < v && v <= i64::MAX {
                    v as i64
                } else {
                    1
                },
                None => 1,
            }
        },
    }
}

pub open spec fn opt_str_view(s: Option<&str>) -> Option<Seq<char>> {
    match s {
        Some(v) => Some(v@),
        None => None,
    }
}

/// Page number carried by a numeric cursor, 1 when there is none.
pub fn legacy_source_page_index(source_cursor: Option<&str>) -> (r: i64)
    ensures
        r == page_index_of(opt_str_view(source_cursor)),
{
    match source_cursor {
        None => 1,
        Some(s) => {
            let v = chars_of(s);
            if v.len() > 0 && v[0] == '-' {
                return 1;
            }
            let body = if v.len() > 0 && v[0] == '+' {
                skip_chars(&v, 1)
            } else {
                v
            };
            match parse_u64_chars(&body) {
                Some(n) => if 0 < n && n <= 9223372036854775807u64 {
                    n as i64
                } else {
                    1
                },
                None => 1,
            }
        },
    }
}

/// Key of a loaded job.
pub fn dedupe_key(platform: &str, canonical_url: &str) -> (r: String)
    ensures
        r@ == load_key(platform@, canonical_url@),
{
    let mut v = chars_of(platform);
    append_str(&mut v, ":");
    append_str(&mut v, canonical_url);
    let text = string_of(&v);
    hash_text(text.as_str())
}

/// The record stored for a seed, or why the seed is refused: a blank
/// platform or a blank URL. The platform is lower-cased, URL, source and
/// cursor trimmed; a blank source falls back to the URL.
pub fn prepare_record(seed: &LoadSeed, reason: &str) -> (r: Result<LoadPreparedRecord, StepError>)
    ensures
        lower(trim(seed.platform@)).len() == 0 ==> r == Err::<LoadPreparedRecord, StepError>(
            StepError::LoadSeedPlatformEmpty,
        ),
        lower(trim(seed.platform@)).len() > 0 && trim(seed.canonical_url@).len() == 0 ==> r
            == Err::<LoadPreparedRecord, StepError>(StepError::LoadSeedUrlEmpty),
        lower(trim(seed.platform@)).len() > 0 && trim(seed.canonical_url@).len() > 0 ==> r is Ok,
        r matches Ok(rec) ==> {
            let platform = lower(trim(seed.platform@));
            let url = trim(seed.canonical_url@);
            &&& rec.platform@ == platform
            &&& rec.canonical_url@ == url
            &&& rec.dedupe_key@ == load_key(platform, url)
            &&& rec.source_ref@ == (if trim(seed.source_ref@).len() == 0 {
                url
            } else {
                trim(seed.source_ref@)
            })
            &&& opt_view(rec.source_cursor) == opt_trimmed_nonempty(opt_view(seed.source_cursor))
            &&& rec.legacy_source_page_index == page_index_of(
                opt_trimmed_nonempty(opt_view(seed.source_cursor)),
            )
            &&& rec.current_stage == JobStage::Load
            &&& rec.status_meta@ == meta3("load"@, platform, reason_or(reason@, "manual_load"@))
        },
{
    let platform_v = trim_lower(seed.platform.as_str());
    if platform_v.len() == 0 {
        return Err(StepError::LoadSeedPlatformEmpty);
    }
    let url_v = trim_str(seed.canonical_url.as_str());
    if url_v.len() == 0 {
        return Err(StepError::LoadSeedUrlEmpty);
    }
    let platform = string_of(&platform_v);
    let canonical_url = string_of(&url_v);
    let src_v = trim_str(seed.source_ref.as_str());
    let source_ref = if src_v.len() == 0 {
        string_of(&url_v)
    } else {
        string_of(&src_v)
    };
    let source_cursor = opt_trimmed_or_none(&seed.source_cursor);
    let legacy = match &source_cursor {
        Some(c) => legacy_source_page_index(Some(c.as_str())),
        None => legacy_source_page_index(None),
    };
    let reason = normalized_reason(reason);
    let key = dedupe_key(platform.as_str(), canonical_url.as_str());
    let meta = join_meta3(step_name(), platform.as_str(), reason.as_str());
    Ok(LoadPreparedRecord {
        dedupe_key: key,
        platform,
        canonical_url,
        source_ref,
        source_cursor,
        legacy_source_page_index: legacy,
        current_stage: JobStage::Load,
        status_meta: meta,
    })
}

/// The reason recorded on each record.
pub fn normalized_reason(reason: &str) -> (r: String)
    ensures
        r@ == reason_or(reason@, "manual_load"@),
{
    normalized_reason_or(reason, "manual_load")
}

/// A positive limit with the platform filter normalized; a zero limit is
/// refused.
pub fn normalized_pending_selection(platform_filter: Option<String>, pending_limit: usize) -> (r:
    Result<LoadPendingSelection, StepError>)
    ensures
        pending_limit == 0 ==> r == Err::<LoadPendingSelection, StepError>(
            StepError::LoadPendingLimitZero,
        ),
        pending_limit > 0 ==> r is Ok,
        r matches Ok(s) ==> s.limit == pending_limit && opt_view(s.platform_filter)
            == platform_filter_norm(opt_view(platform_filter)),
{
    if pending_limit == 0 {
        return Err(StepError::LoadPendingLimitZero);
    }
    Ok(
        LoadPendingSelection {
            platform_filter: normalized_platform_filter(platform_filter),
            limit: pending_limit,
        },
    )
}

/// A validated run: its reason and the selection used when no seeds are
/// given.
pub struct LoadPlan {
    pub reason: String,
    pub pending_selection: LoadPendingSelection,
}

/// Validates and normalizes a run's input; refused exactly when the
/// pending limit is zero.
pub fn plan_run(input: &LoadRunInput) -> (r: Result<LoadPlan, StepError>)
    ensures
        input.pending_limit == 0 ==> (r matches Err(e) && e == StepError::LoadPendingLimitZero),
        input.pending_limit > 0 ==> r is Ok,
        r matches Ok(p) ==> {
            &&& p.reason@ == reason_or(input.reason@, "manual_load"@)
            &&& p.pending_selection.limit == input.pending_limit
            &&& opt_view(p.pending_selection.platform_filter) == platform_filter_norm(
                opt_view(input.platform_filter),
            )
        },
{
    let reason = normalized_reason(input.reason.as_str());
    let filter = crate::text::copy_opt_string(&input.platform_filter);
    match normalized_pending_selection(filter, input.pending_limit) {
        Ok(s) => Ok(LoadPlan { reason, pending_selection: s }),
        Err(e) => Err(e),
    }
}

/// Where the seeds of a run come from.
pub enum LoadSource {
    /// The seeds the run was given; the pending list is not read.
    Given(Vec<LoadSeed>),
    /// No seeds were given: the pending extract seeds are read, with the
    /// plan's selection.
    Pending,
}

/// The seeds given to a run are loaded when there are any; only when
/// there are none does the run read the pending list.
pub fn load_source(seeds: Vec<LoadSeed>) -> (r: LoadSource)
    ensures
        seeds@.len() == 0 <==> r is Pending,
        r matches LoadSource::Given(v) ==> v@ == seeds@,
{
    if seeds.len() == 0 {
        LoadSource::Pending
    } else {
        LoadSource::Given(seeds)
    }
}

/// What a run reports after loading `seeds`, each prepared, stored and
/// marked loaded in order.
pub fn load_output(seeds: &Vec<LoadSeed>) -> (r: LoadRunOutput)
    ensures
        r.processed == seeds@.len(),
{
    LoadRunOutput { processed: seeds.len() }
}

} // verus!
