//! Extract step: walks the pages of each source and hands every job link
//! found once to the load step.
use vstd::prelude::*;

use crate::stage::{
    normalized_reason_or, opt_trimmed_nonempty, opt_trimmed_or_none, reason_or, stage_name,
    JobStage, StepError,
};
use crate::text::{
    any_eq, append_chars, chars_of, copy_opt_string, copy_string, lower, opt_view, string_of,
    trim, trim_lower, trim_str, views,
};

verus! {

/// A listing to crawl.
pub struct ExtractSource {
    pub platform: String,
    pub source_ref: String,
    pub source_cursor: Option<String>,
}

/// Mathematical value of an `ExtractSource`.
pub struct ExtractSourceView {
    pub platform: Seq<char>,
    pub source_ref: Seq<char>,
    pub source_cursor: Option<Seq<char>>,
}

impl View for ExtractSource {
    type V = ExtractSourceView;

    open spec fn view(&self) -> ExtractSourceView {
        ExtractSourceView {
            platform: self.platform@,
            source_ref: self.source_ref@,
            source_cursor: opt_view(self.source_cursor),
        }
    }
}

pub open spec fn source_views(v: Seq<ExtractSource>) -> Seq<ExtractSourceView> {
    Seq::new(v.len(), |i: int| v[i]@)
}

/// What an extract run is asked to do.
pub struct ExtractRunInput {
    pub sources: Vec<ExtractSource>,
    pub max_pages_per_source: usize,
    pub max_links_per_page: usize,
    pub reason: String,
}

/// Counts reported by an extract run.
pub struct ExtractRunOutput {
    pub selected_sources: usize,
    pub crawled_pages: usize,
    pub discovered: usize,
    pub emitted: usize,
}

/// One page asked of the crawler.
pub struct ExtractPageRequest {
    pub platform: String,
    pub source_ref: String,
    pub source_cursor: Option<String>,
    pub max_links: usize,
}

/// One page returned by the crawler.
pub struct ExtractPage {
    pub canonical_urls: Vec<String>,
    pub next_cursor: Option<String>,
}

/// A job link handed to the load step.
pub struct LoadSeed {
    pub platform: String,
    pub canonical_url: String,
    pub source_ref: String,
    pub source_cursor: Option<String>,
}

/// The extract step over a seed store and a crawler.
pub struct ExtractService<R, C> {
    repo: R,
    crawler: C,
}

impl<R, C> ExtractService<R, C> {
    pub fn new(repo: R, crawler: C) -> (r: Self)
        ensures
            r.parts() == (repo, crawler),
    {
        ExtractService { repo, crawler }
    }

    pub closed spec fn parts(&self) -> (R, C) {
        (self.repo, self.crawler)
    }

    /// The seed store.
    pub fn store(&self) -> (r: &R)
        ensures
            *r == self.parts().0,
    {
        &self.repo
    }

    /// The crawler.
    pub fn crawler(&self) -> (r: &C)
        ensures
            *r == self.parts().1,
    {
        &self.crawler
    }
}

/// Name of the step, which is the name of its stage.
pub fn step_name() -> (r: &'static str)
    ensures
        r@ == stage_name(JobStage::Extract),
        r@ == "extract"@,
{
    JobStage::Extract.as_str()
}

// ---------------------------------------------------------------------------
// Input normalization
// ---------------------------------------------------------------------------

/// A URL as the step keeps it: trimmed.
pub fn normalized_url(url: &str) -> (r: String)
    ensures
        r@ == trim(url@),
{
    string_of(&trim_str(url))
}

/// A cursor trimmed, `None` when blank.
pub fn normalized_cursor(cursor: Option<String>) -> (r: Option<String>)
    ensures
        opt_view(r) == opt_trimmed_nonempty(opt_view(cursor)),
{
    opt_trimmed_or_none(&cursor)
}

/// The reason handed along with each seed.
pub fn normalized_reason(reason: &str) -> (r: String)
    ensures
        r@ == reason_or(reason@, "manual_extract"@),
{
    normalized_reason_or(reason, "manual_extract")
}

/// First refusal among the sources from index `i` on: a blank platform,
/// then a blank source reference, checked source by source.
pub open spec fn source_error_from(ss: Seq<ExtractSourceView>, i: int) -> Option<StepError>
    decreases ss.len() - i,
{
    if i < 0 || i >= ss.len() {
        None
    } else if lower(trim(ss[i].platform)).len() == 0 {
        Some(StepError::ExtractSourcePlatformEmpty)
    } else if trim(ss[i].source_ref).len() == 0 {
        Some(StepError::ExtractSourceRefEmpty)
    } else {
        source_error_from(ss, i + 1)
    }
}

/// A source as a run uses it.
pub open spec fn source_norm(s: ExtractSourceView) -> ExtractSourceView {
    ExtractSourceView {
        platform: lower(trim(s.platform)),
        source_ref: trim(s.source_ref),
        source_cursor: opt_trimmed_nonempty(s.source_cursor),
    }
}

/// The sources with platforms lower-cased and references and cursors
/// trimmed; refused when there are none or one has a blank platform or
/// reference.
pub fn normalized_sources(sources: Vec<ExtractSource>) -> (r: Result<Vec<ExtractSource>, StepError>)
    ensures
        sources@.len() == 0 ==> r == Err::<Vec<ExtractSource>, StepError>(
            StepError::ExtractSourcesEmpty,
        ),
        sources@.len() > 0 ==> match source_error_from(source_views(sources@), 0) {
            Some(e) => r == Err::<Vec<ExtractSource>, StepError>(e),
            None => r is Ok,
        },
        r matches Ok(out) ==> out@.len() == sources@.len() && forall|i: int|
            0 <= i < out@.len() ==> (#[trigger] out@[i])@ == source_norm(sources@[i]@),
{
    if sources.len() == 0 {
        return Err(StepError::ExtractSourcesEmpty);
    }
    let ghost ss = source_views(sources@);
    let mut out: Vec<ExtractSource> = Vec::new();
    let mut i: usize = 0;
    while i < sources.len()
        invariant
            i <= sources.len(),
            ss == source_views(sources@),
            source_error_from(ss, 0) == source_error_from(ss, i as int),
            out@.len() == i,
            forall|k: int| 0 <= k < i ==> (#[trigger] out@[k])@ == source_norm(sources@[k]@),
        decreases sources.len() - i,
    {
        let s = &sources[i];
        let platform = trim_lower(s.platform.as_str());
        if platform.len() == 0 {
            return Err(StepError::ExtractSourcePlatformEmpty);
        }
        let source_ref = trim_str(s.source_ref.as_str());
        if source_ref.len() == 0 {
            return Err(StepError::ExtractSourceRefEmpty);
        }
        out.push(
            ExtractSource {
                platform: string_of(&platform),
                source_ref: string_of(&source_ref),
                source_cursor: opt_trimmed_or_none(&s.source_cursor),
            },
        );
        i = i + 1;
    }
    Ok(out)
}

// ---------------------------------------------------------------------------
// Running the step
// ---------------------------------------------------------------------------

/// A validated run.
pub struct ExtractPlan {
    pub reason: String,
    pub sources: Vec<ExtractSource>,
    pub max_pages_per_source: usize,
    pub max_links_per_page: usize,
}

/// Validates and normalizes a run's input. Refusals come in this order:
/// the sources, then a zero page limit, then a zero link limit.
pub fn plan_run(input: ExtractRunInput) -> (r: Result<ExtractPlan, StepError>)
    ensures
        input.sources@.len() == 0 ==> r == Err::<ExtractPlan, StepError>(
            StepError::ExtractSourcesEmpty,
        ),
        input.sources@.len() > 0 && source_error_from(source_views(input.sources@), 0) is Some
            ==> r == Err::<ExtractPlan, StepError>(
            source_error_from(source_views(input.sources@), 0)->0,
        ),
        input.sources@.len() > 0 && source_error_from(source_views(input.sources@), 0) is None
            && input.max_pages_per_source == 0 ==> r == Err::<ExtractPlan, StepError>(
            StepError::ExtractMaxPagesZero,
        ),
        input.sources@.len() > 0 && source_error_from(source_views(input.sources@), 0) is None
            && input.max_pages_per_source > 0 && input.max_links_per_page == 0 ==> r == Err::<
            ExtractPlan,
            StepError,
        >(StepError::ExtractMaxLinksZero),
        input.sources@.len() > 0 && source_error_from(source_views(input.sources@), 0) is None
            && input.max_pages_per_source > 0 && input.max_links_per_page > 0 ==> r is Ok,
        r matches Ok(p) ==> {
            &&& p.reason@ == reason_or(input.reason@, "manual_extract"@)
            &&& p.max_pages_per_source == input.max_pages_per_source
            &&& p.max_links_per_page == input.max_links_per_page
            &&& p.sources@.len() == input.sources@.len()
            &&& forall|i: int|
                0 <= i < p.sources@.len() ==> (#[trigger] p.sources@[i])@ == source_norm(
                    input.sources@[i]@,
                )
        },
{
    let reason = normalized_reason(input.reason.as_str());
    let sources = match normalized_sources(input.sources) {
        Ok(s) => s,
        Err(e) => {
            return Err(e);
        },
    };
    if input.max_pages_per_source == 0 {
        return Err(StepError::ExtractMaxPagesZero);
    }
    if input.max_links_per_page == 0 {
        return Err(StepError::ExtractMaxLinksZero);
    }
    Ok(
        ExtractPlan {
            reason,
            sources,
            max_pages_per_source: input.max_pages_per_source,
            max_links_per_page: input.max_links_per_page,
        },
    )
}

/// The request for a page of a source at a cursor.
pub fn page_request(source: &ExtractSource, cursor: &Option<String>, plan: &ExtractPlan) -> (r:
    ExtractPageRequest)
    ensures
        r.platform@ == source.platform@,
        r.source_ref@ == source.source_ref@,
        opt_view(r.source_cursor) == opt_view(*cursor),
        r.max_links == plan.max_links_per_page,
{
    ExtractPageRequest {
        platform: copy_string(&source.platform),
        source_ref: copy_string(&source.source_ref),
        source_cursor: copy_opt_string(cursor),
        max_links: plan.max_links_per_page,
    }
}

/// Key under which a link counts as seen: `platform:url`.
pub open spec fn seen_key(platform: Seq<char>, url: Seq<char>) -> Seq<char> {
    platform + ":"@ + url
}

/// Progress of a run: the keys seen so far and the counts.
pub struct ExtractProgress {
    pub seen: Vec<Vec<char>>,
    pub output: ExtractRunOutput,
}

impl ExtractProgress {
    /// Every discovered link has a key of its own and is counted once;
    /// no more seeds were emitted than links discovered.
    pub open spec fn wf(&self) -> bool {
        &&& self.output.discovered == self.seen@.len()
        &&& self.output.emitted <= self.output.discovered
        &&& forall|i: int, j: int|
            0 <= i < j < self.seen@.len() ==> (#[trigger] self.seen@[i])@ != (#[trigger] self.seen@[j])@
    }

    /// Nothing seen yet, for a run over `selected_sources` sources.
    pub fn start(selected_sources: usize) -> (r: Self)
        ensures
            r.wf(),
            r.seen@.len() == 0,
            r.output.selected_sources == selected_sources,
            r.output.crawled_pages == 0 && r.output.discovered == 0 && r.output.emitted == 0,
    {
        ExtractProgress {
            seen: Vec::new(),
            output: ExtractRunOutput {
                selected_sources,
                crawled_pages: 0,
                discovered: 0,
                emitted: 0,
            },
        }
    }

    /// Counts a fetched page.
    pub fn record_page(&mut self)
        requires
            old(self).wf(),
            old(self).output.crawled_pages < usize::MAX,
        ensures
            final(self).wf(),
            final(self).seen@ == old(self).seen@,
            final(self).output.crawled_pages == old(self).output.crawled_pages + 1,
            final(self).output.discovered == old(self).output.discovered,
            final(self).output.emitted == old(self).output.emitted,
            final(self).output.selected_sources == old(self).output.selected_sources,
    {
        self.output.crawled_pages = self.output.crawled_pages + 1;
    }

    /// Takes a link found on a page of `source` fetched at `cursor`: the
    /// seed to hand on, or `None` when the trimmed link is blank or its
    /// `platform:url` key was seen before in this run.
    pub fn take_link(&mut self, source: &ExtractSource, cursor: &Option<String>, canonical_url: &str) -> (r:
        Option<LoadSeed>)
        requires
            old(self).wf(),
        ensures
            final(self).wf(),
            final(self).output.crawled_pages == old(self).output.crawled_pages,
            final(self).output.emitted == old(self).output.emitted,
            final(self).output.selected_sources == old(self).output.selected_sources,
            ({
                let url = trim(canonical_url@);
                let key = seen_key(source.platform@, url);
                if url.len() == 0 || views(old(self).seen@).contains(key) {
                    &&& r is None
                    &&& final(self).seen@ == old(self).seen@
                } else {
                    &&& views(final(self).seen@) == views(old(self).seen@).push(key)
                    &&& r matches Some(seed) && {
                        &&& seed.platform@ == source.platform@
                        &&& seed.canonical_url@ == url
                        &&& seed.source_ref@ == source.source_ref@
                        &&& opt_view(seed.source_cursor) == opt_view(*cursor)
                    }
                }
            }),
    {
        let url = trim_str(canonical_url);
        if url.len() == 0 {
            return None;
        }
        let mut key = chars_of(source.platform.as_str());
        crate::text::append_str(&mut key, ":");
        append_chars(&mut key, &url);
        if any_eq(&self.seen, &key) {
            return None;
        }
        let ghost before = self.seen@;
        proof {
            assert forall|i: int| 0 <= i < before.len() implies before[i]@ != key@ by {
                assert(views(before)[i] == before[i]@);
            }
        }
        self.seen.push(key);
        self.output.discovered = self.seen.len();
        proof {
            assert(views(self.seen@) =~= views(before).push(key@));
        }
        Some(
            LoadSeed {
                platform: copy_string(&source.platform),
                canonical_url: string_of(&url),
                source_ref: copy_string(&source.source_ref),
                source_cursor: copy_opt_string(cursor),
            },
        )
    }

    /// Counts a seed the store accepted.
    pub fn record_emitted(&mut self)
        requires
            old(self).wf(),
            old(self).output.emitted < old(self).output.discovered,
        ensures
            final(self).wf(),
            final(self).seen@ == old(self).seen@,
            final(self).output.emitted == old(self).output.emitted + 1,
            final(self).output.crawled_pages == old(self).output.crawled_pages,
            final(self).output.discovered == old(self).output.discovered,
            final(self).output.selected_sources == old(self).output.selected_sources,
    {
        self.output.emitted = self.output.emitted + 1;
    }
}

/// Where the walk over the pages of one source stands: the cursor of the
/// next page, the pages fetched so far, and whether the walk is over.
pub struct SourceCrawl {
    pub cursor: Option<String>,
    pub pages: usize,
    pub done: bool,
}

impl SourceCrawl {
    /// No more than `max_pages` pages are fetched, and a walk that goes on
    /// still has a page left.
    pub open spec fn wf(&self, max_pages: usize) -> bool {
        &&& self.pages <= max_pages
        &&& !self.done ==> self.pages < max_pages
    }

    /// The walk over a source of a plan: at the source's own cursor, no page
    /// fetched yet.
    pub fn begin(source: &ExtractSource, plan: &ExtractPlan) -> (r: Self)
        ensures
            opt_view(r.cursor) == opt_view(source.source_cursor),
            r.pages == 0,
            r.done == (plan.max_pages_per_source == 0),
            r.wf(plan.max_pages_per_source),
    {
        SourceCrawl {
            cursor: copy_opt_string(&source.source_cursor),
            pages: 0,
            done: plan.max_pages_per_source == 0,
        }
    }

    /// The request for the next page, `None` once the walk is over.
    pub fn next_request(&self, source: &ExtractSource, plan: &ExtractPlan) -> (r: Option<
        ExtractPageRequest,
    >)
        ensures
            r is None <==> self.done,
            r matches Some(q) ==> {
                &&& q.platform@ == source.platform@
                &&& q.source_ref@ == source.source_ref@
                &&& opt_view(q.source_cursor) == opt_view(self.cursor)
                &&& q.max_links == plan.max_links_per_page
            },
    {
        if self.done {
            None
        } else {
            Some(page_request(source, &self.cursor, plan))
        }
    }

    /// After the page at the current cursor was fetched: one more page is
    /// counted, the cursor moves to the page's next cursor (trimmed), and
    /// the walk is over when there is no next cursor or the page limit is
    /// reached.
    pub fn advance(&mut self, page: &ExtractPage, max_pages: usize)
        requires
            old(self).wf(max_pages),
            !old(self).done,
        ensures
            final(self).pages == old(self).pages + 1,
            opt_view(final(self).cursor) == opt_trimmed_nonempty(opt_view(page.next_cursor)),
            final(self).done == (final(self).cursor is None || final(self).pages >= max_pages),
            final(self).wf(max_pages),
    {
        self.pages = self.pages + 1;
        self.cursor = next_cursor(page);
        self.done = self.cursor.is_none() || self.pages >= max_pages;
    }
}

/// The total of a list of page counts.
pub open spec fn total_pages(pages: Seq<usize>) -> int
    decreases pages.len(),
{
    if pages.len() == 0 {
        0
    } else {
        total_pages(pages.drop_last()) + pages.last()
    }
}

/// A run fetches no more pages than its sources times the page limit,
/// whatever the pages hold: each source's walk stops at the limit.
pub proof fn pages_within_budget(pages: Seq<usize>, max_pages: usize)
    requires
        forall|i: int| 0 <= i < pages.len() ==> #[trigger] pages[i] <= max_pages,
    ensures
        0 <= total_pages(pages) <= pages.len() * max_pages,
    decreases pages.len(),
{
    if pages.len() > 0 {
        let init = pages.drop_last();
        assert forall|i: int| 0 <= i < init.len() implies #[trigger] init[i] <= max_pages by {
            assert(init[i] == pages[i]);
        }
        pages_within_budget(init, max_pages);
        assert(pages.last() == pages[pages.len() - 1]);
        assert(init.len() * max_pages + max_pages == pages.len() * max_pages) by (nonlinear_arith)
            requires
                init.len() + 1 == pages.len(),
        ;
    }
}

/// The cursor of the next page: the page's next cursor trimmed; the source
/// is done when it is `None`.
pub fn next_cursor(page: &ExtractPage) -> (r: Option<String>)
    ensures
        opt_view(r) == opt_trimmed_nonempty(opt_view(page.next_cursor)),
{
    opt_trimmed_or_none(&page.next_cursor)
}

} // verus!
