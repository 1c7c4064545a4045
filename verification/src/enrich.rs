//! Enrich step: attaches a company summary and the fetched description to
//! prefiltered jobs and records how that went.
use vstd::prelude::*;

use crate::stage::{
    join_meta4, meta4, normalized_platform_filter, normalized_reason_or, platform_filter_norm,
    platform_label, platform_label_of, reason_or, stage_name, JobStage, StepError,
};
use crate::text::{chars_of, copy_string, opt_view, string_of, subrange_chars, trim, trim_str};

verus! {

/// What an enrich run is asked to do.
pub struct EnrichRunInput {
    pub platform_filter: Option<String>,
    pub limit: usize,
    pub reason: String,
}

/// Counts reported by an enrich run.
pub struct EnrichRunOutput {
    pub selected: usize,
    pub processed: usize,
    pub succeeded: usize,
    pub failed: usize,
}

/// Which prefiltered jobs a run takes.
pub struct EnrichSelection {
    pub platform_filter: Option<String>,
    pub limit: usize,
}

/// A prefiltered job waiting for enrichment.
pub struct EnrichCandidate {
    pub id: i64,
    pub platform: String,
    pub canonical_url: String,
    pub title: String,
    pub company: String,
    pub description: String,
}

/// Stage change recorded for one job.
pub struct EnrichTransition {
    pub id: i64,
    pub current_stage: JobStage,
    pub status_meta: String,
    pub company_summary: String,
    pub description: Option<String>,
}

/// The enrich step over a job store, a page fetcher and a summarizer.
pub struct EnrichService<R, F, S> {
    repo: R,
    fetcher: F,
    summarizer: S,
}

impl<R, F, S> EnrichService<R, F, S> {
    pub fn new(repo: R, fetcher: F, summarizer: S) -> (r: Self)
        ensures
            r.parts() == (repo, fetcher, summarizer),
    {
        EnrichService { repo, fetcher, summarizer }
    }

    pub closed spec fn parts(&self) -> (R, F, S) {
        (self.repo, self.fetcher, self.summarizer)
    }

    /// The job store.
    pub fn store(&self) -> (r: &R)
        ensures
            *r == self.parts().0,
    {
        &self.repo
    }

    /// The page fetcher.
    pub fn fetcher(&self) -> (r: &F)
        ensures
            *r == self.parts().1,
    {
        &self.fetcher
    }

    /// The summarizer.
    pub fn summarizer(&self) -> (r: &S)
        ensures
            *r == self.parts().2,
    {
        &self.summarizer
    }
}

/// Name of the step, which is the name of its stage.
pub fn step_name() -> (r: &'static str)
    ensures
        r@ == stage_name(JobStage::Enrich),
        r@ == "enrich"@,
{
    JobStage::Enrich.as_str()
}

/// Most characters of fetched text kept as a description.
pub const DESCRIPTION_MAX_CHARS: usize = 1200;

/// The first `max` characters of a text.
pub open spec fn truncated(s: Seq<char>, max: nat) -> Seq<char> {
    if s.len() <= max {
        s
    } else {
        s.take(max as int)
    }
}

/// How enrichment went: `enriched` with a fetched page, `enriched_no_fetch`
/// without one, `summary_failed` when no summary came.
pub open spec fn summary_state(fetched: bool, summary_ok: bool) -> Seq<char> {
    if summary_ok {
        if fetched {
            "enriched"@
        } else {
            "enriched_no_fetch"@
        }
    } else {
        "summary_failed"@
    }
}

/// The description kept from fetched text: trimmed, at most
/// `DESCRIPTION_MAX_CHARS` characters, `None` when blank or not fetched.
pub open spec fn fetched_description(fetched: Option<Seq<char>>) -> Option<Seq<char>> {
    match fetched {
        Some(f) => if trim(f).len() == 0 {
            None
        } else {
            Some(truncated(trim(f), DESCRIPTION_MAX_CHARS as nat))
        },
        None => None,
    }
}

pub open spec fn opt_str_view(s: Option<&str>) -> Option<Seq<char>> {
    match s {
        Some(v) => Some(v@),
        None => None,
    }
}

/// The transition recorded for a candidate from what the fetcher and the
/// summarizer returned.
pub fn build_transition(
    candidate: &EnrichCandidate,
    fetched_text: Option<&str>,
    summary: Result<&String, &anyhow::Error>,
    reason: &str,
) -> (r: EnrichTransition)
    ensures
        r.id == candidate.id,
        r.current_stage == JobStage::Enrich,
        r.status_meta@ == meta4(
            "enrich"@,
            platform_label_of(candidate.platform@),
            summary_state(fetched_text is Some, summary is Ok),
            reason_or(reason@, "manual_enrich"@),
        ),
        r.company_summary@ == (match summary {
            Ok(t) => t@,
            Err(_) => "Summary unavailable"@,
        }),
        opt_view(r.description) == fetched_description(opt_str_view(fetched_text)),
{
    let platform = platform_label(candidate.platform.as_str());
    let reason = normalized_reason(reason);
    let state: &str = match summary {
        Ok(_) => match fetched_text {
            Some(_) => "enriched",
            None => "enriched_no_fetch",
        },
        Err(_) => "summary_failed",
    };
    let company_summary = match summary {
        Ok(t) => copy_string(t),
        Err(_) => string_of(&chars_of("Summary unavailable")),
    };
    let description = match fetched_text {
        Some(f) => {
            let t = trim_str(f);
            if t.len() == 0 {
                None
            } else {
                Some(string_of(&truncate(&t, DESCRIPTION_MAX_CHARS)))
            }
        },
        None => None,
    };
    EnrichTransition {
        id: candidate.id,
        current_stage: JobStage::Enrich,
        status_meta: join_meta4(step_name(), platform.as_str(), state, reason.as_str()),
        company_summary,
        description,
    }
}

/// The first `max_chars` characters.
pub fn truncate(text: &Vec<char>, max_chars: usize) -> (r: Vec<char>)
    ensures
        r@ == truncated(text@, max_chars as nat),
{
    if text.len() <= max_chars {
        subrange_chars(text, 0, text.len())
    } else {
        subrange_chars(text, 0, max_chars)
    }
}

/// A positive limit with the platform filter normalized; a zero limit is
/// refused.
pub fn normalized_selection(platform_filter: Option<String>, limit: usize) -> (r: Result<
    EnrichSelection,
    StepError,
>)
    ensures
        limit == 0 ==> r == Err::<EnrichSelection, StepError>(StepError::EnrichLimitZero),
        limit > 0 ==> r is Ok,
        r matches Ok(s) ==> s.limit == limit && opt_view(s.platform_filter) == platform_filter_norm(
            opt_view(platform_filter),
        ),
{
    if limit == 0 {
        return Err(StepError::EnrichLimitZero);
    }
    Ok(EnrichSelection { platform_filter: normalized_platform_filter(platform_filter), limit })
}

/// The reason recorded on each transition.
pub fn normalized_reason(reason: &str) -> (r: String)
    ensures
        r@ == reason_or(reason@, "manual_enrich"@),
{
    normalized_reason_or(reason, "manual_enrich")
}

// ---------------------------------------------------------------------------
// Running the step
// ---------------------------------------------------------------------------

/// A validated run: its selection and reason.
pub struct EnrichPlan {
    pub selection: EnrichSelection,
    pub reason: String,
}

/// Validates and normalizes a run's input; refused exactly when the limit
/// is zero.
pub fn plan_run(input: EnrichRunInput) -> (r: Result<EnrichPlan, StepError>)
    ensures
        input.limit == 0 ==> (r matches Err(e) && e == StepError::EnrichLimitZero),
        input.limit > 0 ==> r is Ok,
        r matches Ok(p) ==> {
            &&& p.selection.limit == input.limit
            &&& opt_view(p.selection.platform_filter) == platform_filter_norm(
                opt_view(input.platform_filter),
            )
            &&& p.reason@ == reason_or(input.reason@, "manual_enrich"@)
        },
{
    let selection = match normalized_selection(input.platform_filter, input.limit) {
        Ok(s) => s,
        Err(e) => {
            return Err(e);
        },
    };
    let reason = normalized_reason(input.reason.as_str());
    Ok(EnrichPlan { selection, reason })
}

impl EnrichRunOutput {
    /// Every applied transition counts once, as a success or a failure.
    pub open spec fn wf(&self) -> bool {
        &&& self.succeeded + self.failed == self.processed
        &&& self.processed <= self.selected
    }

    /// Counts before any candidate is handled.
    pub fn start(selected: usize) -> (r: Self)
        ensures
            r.wf(),
            r.selected == selected,
            r.processed == 0 && r.succeeded == 0 && r.failed == 0,
    {
        EnrichRunOutput { selected, processed: 0, succeeded: 0, failed: 0 }
    }

    /// Records one candidate: counted only when the store took its
    /// transition, then as a success when a summary came.
    pub fn record(&mut self, applied: bool, summary_ok: bool)
        requires
            old(self).wf(),
            old(self).processed < old(self).selected,
        ensures
            final(self).wf(),
            final(self).selected == old(self).selected,
            final(self).processed == old(self).processed + (if applied {
                1int
            } else {
                0int
            }),
            final(self).succeeded == old(self).succeeded + (if applied && summary_ok {
                1int
            } else {
                0int
            }),
            final(self).failed == old(self).failed + (if applied && !summary_ok {
                1int
            } else {
                0int
            }),
    {
        if applied {
            self.processed = self.processed + 1;
            if summary_ok {
                self.succeeded = self.succeeded + 1;
            } else {
                self.failed = self.failed + 1;
            }
        }
    }
}

} // verus!
