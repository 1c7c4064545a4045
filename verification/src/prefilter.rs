//! Prefilter step: rejects loaded jobs whose title is missing or holds an
//! avoided word, and records the decision on each job.
use vstd::prelude::*;

use crate::stage::{
    join_meta4, meta4, normalized_platform_filter, normalized_reason_or, platform_filter_norm,
    platform_label, platform_label_of, platform_norm, reason_or, JobStage, StepError, stage_name,
};
use crate::text::{
    chars_of, contains, contains_chars, dedup_exact, dedup_exactly, lemma_dedup_exact_distinct,
    lower, opt_view, strings_of, strs, string_of, trim, trim_lower, views,
};

verus! {

/// What a prefilter run is asked to do.
pub struct PrefilterRunInput {
    pub platform_filter: Option<String>,
    pub limit: usize,
    pub reason: String,
    pub avoid_words_in_title: Vec<String>,
}

/// Counts reported by a prefilter run.
pub struct PrefilterRunOutput {
    pub selected: usize,
    pub processed: usize,
    pub passed: usize,
    pub rejected: usize,
}

/// Which loaded jobs a run takes.
pub struct PrefilterSelection {
    pub platform_filter: Option<String>,
    pub limit: usize,
}

/// A loaded job waiting for the prefilter.
pub struct PrefilterCandidate {
    pub id: i64,
    pub platform: String,
    pub title: String,
}

/// Outcome of the title check.
#[derive(Debug, Clone, Copy, PartialEq, Eq, Structural)]
pub enum PrefilterDecisionKind {
    Passed,
    Rejected,
}

/// Outcome of the title check with its reason code.
pub struct PrefilterDecision {
    pub kind: PrefilterDecisionKind,
    pub reason_code: String,
}

/// Stage change recorded for one job.
pub struct PrefilterTransition {
    pub id: i64,
    pub current_stage: JobStage,
    pub status_meta: String,
}

/// The prefilter step over a job store.
pub struct PrefilterService<R> {
    repo: R,
}

impl<R> PrefilterService<R> {
    pub fn new(repo: R) -> (r: Self)
        ensures
            r.repo() == repo,
    {
        PrefilterService { repo }
    }

    pub closed spec fn repo(&self) -> R {
        self.repo
    }

    /// The job store the step reads and updates.
    pub fn store(&self) -> (r: &R)
        ensures
            *r == self.repo(),
    {
        &self.repo
    }
}

/// Name of the step, which is the name of its stage.
pub fn step_name() -> (r: &'static str)
    ensures
        r@ == stage_name(JobStage::Prefilter),
        r@ == "prefilter"@,
{
    JobStage::Prefilter.as_str()
}

// ---------------------------------------------------------------------------
// Title check
// ---------------------------------------------------------------------------

/// First avoided word, from index `i` on, that occurs in `t`.
pub open spec fn first_contained(t: Seq<char>, ws: Seq<Seq<char>>, i: int) -> Option<Seq<char>>
    decreases ws.len() - i,
{
    if i < 0 || i >= ws.len() {
        None
    } else if contains(t, ws[i]) {
        Some(ws[i])
    } else {
        first_contained(t, ws, i + 1)
    }
}

/// Decision and reason code for a title: a blank title is rejected as
/// `title_missing`; otherwise the first avoided word contained in the
/// trimmed, lower-cased title rejects it as `title_excluded:<word>`;
/// otherwise it passes.
pub open spec fn title_verdict(title: Seq<char>, avoid: Seq<Seq<char>>) -> (
    PrefilterDecisionKind,
    Seq<char>,
) {
    let t = lower(trim(title));
    if t.len() == 0 {
        (PrefilterDecisionKind::Rejected, "title_missing"@)
    } else {
        match first_contained(t, avoid, 0) {
            Some(w) => (PrefilterDecisionKind::Rejected, "title_excluded:"@ + w),
            None => (PrefilterDecisionKind::Passed, "passed"@),
        }
    }
}

/// Checks a title against the avoided words (already normalized).
pub fn evaluate_title(title: &str, avoid_words_in_title: &[String]) -> (r: PrefilterDecision)
    ensures
        (r.kind, r.reason_code@) == title_verdict(title@, strs(avoid_words_in_title@)),
{
    let t = trim_lower(title);
    if t.len() == 0 {
        return PrefilterDecision {
            kind: PrefilterDecisionKind::Rejected,
            reason_code: string_of(&chars_of("title_missing")),
        };
    }
    let ghost ws = strs(avoid_words_in_title@);
    let mut i: usize = 0;
    while i < avoid_words_in_title.len()
        invariant
            i <= avoid_words_in_title.len(),
            ws == strs(avoid_words_in_title@),
            t@ == lower(trim(title@)),
            t@.len() > 0,
            first_contained(t@, ws, 0) == first_contained(t@, ws, i as int),
        decreases avoid_words_in_title.len() - i,
    {
        let w = chars_of(avoid_words_in_title[i].as_str());
        assert(ws[i as int] == w@);
        if contains_chars(&t, &w) {
            let mut code = chars_of("title_excluded:");
            crate::text::append_chars(&mut code, &w);
            assert(first_contained(t@, ws, i as int) == Some(w@));
            assert(code@ == "title_excluded:"@ + w@);
            return PrefilterDecision {
                kind: PrefilterDecisionKind::Rejected,
                reason_code: string_of(&code),
            };
        }
        i = i + 1;
    }
    PrefilterDecision {
        kind: PrefilterDecisionKind::Passed,
        reason_code: string_of(&chars_of("passed")),
    }
}

/// The transition recorded for a candidate:
/// `prefilter:<platform>:<reason code>:<reason>`.
pub fn prepare_transition(
    candidate: &PrefilterCandidate,
    decision: &PrefilterDecision,
    reason: &str,
) -> (r: PrefilterTransition)
    ensures
        r.id == candidate.id,
        r.current_stage == JobStage::Prefilter,
        r.status_meta@ == meta4(
            "prefilter"@,
            platform_label_of(candidate.platform@),
            decision.reason_code@,
            reason_or(reason@, "manual_prefilter"@),
        ),
{
    let platform = platform_label(candidate.platform.as_str());
    let reason = normalized_reason(reason);
    PrefilterTransition {
        id: candidate.id,
        current_stage: JobStage::Prefilter,
        status_meta: join_meta4(
            step_name(),
            platform.as_str(),
            decision.reason_code.as_str(),
            reason.as_str(),
        ),
    }
}

// ---------------------------------------------------------------------------
// Input normalization
// ---------------------------------------------------------------------------

/// A positive limit with the platform filter normalized; a zero limit is
/// refused.
pub fn normalized_selection(platform_filter: Option<String>, limit: usize) -> (r: Result<
    PrefilterSelection,
    StepError,
>)
    ensures
        limit == 0 ==> r == Err::<PrefilterSelection, StepError>(StepError::PrefilterLimitZero),
        limit > 0 ==> r is Ok,
        r matches Ok(s) ==> s.limit == limit && opt_view(s.platform_filter) == platform_filter_norm(
            opt_view(platform_filter),
        ),
{
    if limit == 0 {
        return Err(StepError::PrefilterLimitZero);
    }
    Ok(PrefilterSelection { platform_filter: normalized_platform_filter(platform_filter), limit })
}

/// The reason recorded on each transition.
pub fn normalized_reason(reason: &str) -> (r: String)
    ensures
        r@ == reason_or(reason@, "manual_prefilter"@),
{
    normalized_reason_or(reason, "manual_prefilter")
}

/// Each avoided word trimmed and lower-cased, blanks dropped.
pub open spec fn avoid_candidates(ws: Seq<Seq<char>>) -> Seq<Option<Seq<char>>> {
    Seq::new(ws.len(), |i: int| platform_norm(ws[i]))
}

/// The avoided words a run checks: normalized, blanks dropped, first
/// occurrence of each kept.
pub fn normalized_avoid_words(avoid_words: Vec<String>) -> (r: Vec<String>)
    ensures
        strs(r@) == dedup_exact(avoid_candidates(strs(avoid_words@))),
        forall|i: int, j: int|
            0 <= i < j < r@.len() ==> (#[trigger] strs(r@)[i]) != (#[trigger] strs(r@)[j]),
{
    let ghost ws = strs(avoid_words@);
    let mut opts: Vec<Option<Vec<char>>> = Vec::new();
    let mut i: usize = 0;
    while i < avoid_words.len()
        invariant
            i <= avoid_words.len(),
            ws == strs(avoid_words@),
            crate::text::opt_views(opts@) =~= avoid_candidates(ws).take(i as int),
        decreases avoid_words.len() - i,
    {
        let v = trim_lower(avoid_words[i].as_str());
        let ghost before = opts@;
        assert(ws[i as int] == avoid_words@[i as int]@);
        if v.len() == 0 {
            opts.push(None);
        } else {
            opts.push(Some(v));
        }
        assert(crate::text::opt_views(opts@) =~= crate::text::opt_views(before).push(
            avoid_candidates(ws)[i as int],
        ));
        assert(avoid_candidates(ws).take(i + 1) =~= avoid_candidates(ws).take(i as int).push(
            avoid_candidates(ws)[i as int],
        ));
        i = i + 1;
    }
    assert(avoid_candidates(ws).take(i as int) =~= avoid_candidates(ws));
    let kept = dedup_exactly(&opts);
    let r = strings_of(&kept);
    proof {
        lemma_dedup_exact_distinct(avoid_candidates(ws));
        assert(strs(r@) =~= views(kept@));
    }
    r
}

// ---------------------------------------------------------------------------
// Running the step
// ---------------------------------------------------------------------------

/// A validated run: its selection, reason and avoided words.
pub struct PrefilterPlan {
    pub selection: PrefilterSelection,
    pub reason: String,
    pub avoid_words: Vec<String>,
}

/// Validates and normalizes a run's input; refused exactly when the limit
/// is zero.
pub fn plan_run(input: PrefilterRunInput) -> (r: Result<PrefilterPlan, StepError>)
    ensures
        input.limit == 0 ==> (r matches Err(e) && e == StepError::PrefilterLimitZero),
        input.limit > 0 ==> r is Ok,
        r matches Ok(p) ==> {
            &&& p.selection.limit == input.limit
            &&& opt_view(p.selection.platform_filter) == platform_filter_norm(
                opt_view(input.platform_filter),
            )
            &&& p.reason@ == reason_or(input.reason@, "manual_prefilter"@)
            &&& strs(p.avoid_words@) == dedup_exact(
                avoid_candidates(strs(input.avoid_words_in_title@)),
            )
        },
{
    let selection = match normalized_selection(input.platform_filter, input.limit) {
        Ok(s) => s,
        Err(e) => {
            return Err(e);
        },
    };
    let reason = normalized_reason(input.reason.as_str());
    let avoid_words = normalized_avoid_words(input.avoid_words_in_title);
    Ok(PrefilterPlan { selection, reason, avoid_words })
}

/// The decision for one candidate and the transition recorded for it.
pub fn decide(candidate: &PrefilterCandidate, plan: &PrefilterPlan) -> (r: (
    PrefilterDecision,
    PrefilterTransition,
))
    ensures
        (r.0.kind, r.0.reason_code@) == title_verdict(
            candidate.title@,
            strs(plan.avoid_words@),
        ),
        r.1.id == candidate.id,
        r.1.current_stage == JobStage::Prefilter,
        r.1.status_meta@ == meta4(
            "prefilter"@,
            platform_label_of(candidate.platform@),
            r.0.reason_code@,
            reason_or(plan.reason@, "manual_prefilter"@),
        ),
{
    let d = evaluate_title(candidate.title.as_str(), plan.avoid_words.as_slice());
    let t = prepare_transition(candidate, &d, plan.reason.as_str());
    (d, t)
}

impl PrefilterRunOutput {
    /// Counts are consistent: every candidate seen passed or was rejected,
    /// and no more transitions were applied than candidates seen.
    pub open spec fn wf(&self) -> bool {
        &&& self.passed + self.rejected <= self.selected
        &&& self.processed <= self.passed + self.rejected
    }

    /// Counts before any candidate is seen.
    pub fn start(selected: usize) -> (r: Self)
        ensures
            r.wf(),
            r.selected == selected,
            r.processed == 0 && r.passed == 0 && r.rejected == 0,
    {
        PrefilterRunOutput { selected, processed: 0, passed: 0, rejected: 0 }
    }

    /// Records one decided candidate; `applied` tells whether the store
    /// took its transition.
    pub fn record(&mut self, kind: PrefilterDecisionKind, applied: bool)
        requires
            old(self).wf(),
            old(self).passed + old(self).rejected < old(self).selected,
        ensures
            final(self).wf(),
            final(self).selected == old(self).selected,
            final(self).passed == old(self).passed + (if kind == PrefilterDecisionKind::Passed {
                1int
            } else {
                0int
            }),
            final(self).rejected == old(self).rejected + (if kind
                == PrefilterDecisionKind::Rejected {
                1int
            } else {
                0int
            }),
            final(self).processed == old(self).processed + (if applied {
                1int
            } else {
                0int
            }),
    {
        match kind {
            PrefilterDecisionKind::Passed => {
                self.passed = self.passed + 1;
            },
            PrefilterDecisionKind::Rejected => {
                self.rejected = self.rejected + 1;
            },
        }
        if applied {
            self.processed = self.processed + 1;
        }
    }
}

} // verus!
