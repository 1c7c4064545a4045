//! Serve step: picks the enriched jobs that match a query and hands them to
//! a channel.
use vstd::prelude::*;

use crate::stage::{
    normalized_platform, normalized_platform_filter, platform_filter_norm, stage_name, JobStage,
    StepError,
};
use crate::text::{chars_of, contains, contains_chars, copy_string, lower, opt_view, to_lower};

verus! {

/// What a serve run is asked to do.
pub struct ServeRunInput {
    pub platform_filter: Option<String>,
    pub limit: usize,
    pub query: Option<String>,
}

/// What a serve run publishes.
pub struct ServeRunOutput {
    pub total: usize,
    pub matched: usize,
    pub rows: Vec<ServeRow>,
}

/// Which enriched jobs a run reads.
pub struct ServeSelection {
    pub platform_filter: Option<String>,
    pub limit: usize,
}

/// An enriched job as served.
pub struct ServeRow {
    pub id: i64,
    pub platform: String,
    pub title: String,
    pub company: String,
    pub canonical_url: String,
    pub status_meta: String,
    pub company_summary: String,
    pub description: String,
}

/// Mathematical value of a `ServeRow`.
pub struct ServeRowView {
    pub id: i64,
    pub platform: Seq<char>,
    pub title: Seq<char>,
    pub company: Seq<char>,
    pub canonical_url: Seq<char>,
    pub status_meta: Seq<char>,
    pub company_summary: Seq<char>,
    pub description: Seq<char>,
}

impl View for ServeRow {
    type V = ServeRowView;

    open spec fn view(&self) -> ServeRowView {
        ServeRowView {
            id: self.id,
            platform: self.platform@,
            title: self.title@,
            company: self.company@,
            canonical_url: self.canonical_url@,
            status_meta: self.status_meta@,
            company_summary: self.company_summary@,
            description: self.description@,
        }
    }
}

pub open spec fn serve_row_views(v: Seq<ServeRow>) -> Seq<ServeRowView> {
    Seq::new(v.len(), |i: int| v[i]@)
}

/// The serve step over a job store and a channel.
pub struct ServeService<R, C> {
    repo: R,
    channel: C,
}

impl<R, C> ServeService<R, C> {
    pub fn new(repo: R, channel: C) -> (r: Self)
        ensures
            r.parts() == (repo, channel),
    {
        ServeService { repo, channel }
    }

    pub closed spec fn parts(&self) -> (R, C) {
        (self.repo, self.channel)
    }

    /// The job store.
    pub fn store(&self) -> (r: &R)
        ensures
            *r == self.parts().0,
    {
        &self.repo
    }

    /// The channel rows are published on.
    pub fn channel(&self) -> (r: &C)
        ensures
            *r == self.parts().1,
    {
        &self.channel
    }
}

/// Name of the step, which is the name of its stage.
pub fn step_name() -> (r: &'static str)
    ensures
        r@ == stage_name(JobStage::Serve),
        r@ == "serve"@,
{
    JobStage::Serve.as_str()
}

/// A positive limit with the platform filter normalized; a zero limit is
/// refused.
pub fn normalized_selection(platform_filter: Option<String>, limit: usize) -> (r: Result<
    ServeSelection,
    StepError,
>)
    ensures
        limit == 0 ==> r == Err::<ServeSelection, StepError>(StepError::ServeLimitZero),
        limit > 0 ==> r is Ok,
        r matches Ok(s) ==> s.limit == limit && opt_view(s.platform_filter) == platform_filter_norm(
            opt_view(platform_filter),
        ),
{
    if limit == 0 {
        return Err(StepError::ServeLimitZero);
    }
    Ok(ServeSelection { platform_filter: normalized_platform_filter(platform_filter), limit })
}

/// A query trimmed and lower-cased; `None` when blank or absent.
pub fn normalized_query(query: Option<String>) -> (r: Option<String>)
    ensures
        opt_view(r) == platform_filter_norm(opt_view(query)),
{
    match query {
        Some(q) => normalized_platform(q.as_str()),
        None => None,
    }
}

/// Some field of the row, lower-cased, contains the query.
pub open spec fn row_matches(row: ServeRowView, q: Seq<char>) -> bool {
    ||| contains(lower(row.platform), q)
    ||| contains(lower(row.title), q)
    ||| contains(lower(row.company), q)
    ||| contains(lower(row.canonical_url), q)
    ||| contains(lower(row.status_meta), q)
    ||| contains(lower(row.company_summary), q)
    ||| contains(lower(row.description), q)
}

fn field_contains(field: &String, query: &Vec<char>) -> (r: bool)
    ensures
        r == contains(lower(field@), query@),
{
    let f = to_lower(&chars_of(field.as_str()));
    contains_chars(&f, query)
}

/// Whether the row matches a normalized query.
pub fn row_matches_query(row: &ServeRow, query: &str) -> (r: bool)
    ensures
        r == row_matches(row@, query@),
        r == (contains(lower(row@.platform), query@) || contains(lower(row@.title), query@) || contains(lower(row@.company), query@) || contains(lower(row@.canonical_url), query@) || contains(lower(row@.status_meta), query@) || contains(lower(row@.company_summary), query@) || contains(lower(row@.description), query@)),
{
    let q = chars_of(query);
    field_contains(&row.platform, &q) || field_contains(&row.title, &q) || field_contains(
        &row.company,
        &q,
    ) || field_contains(&row.canonical_url, &q) || field_contains(&row.status_meta, &q)
        || field_contains(&row.company_summary, &q) || field_contains(&row.description, &q)
}

/// The rows matching the query, in order.
pub open spec fn matching_rows(rows: Seq<ServeRowView>, q: Seq<char>) -> Seq<ServeRowView>
    decreases rows.len(),
{
    if rows.len() == 0 {
        seq![]
    } else if row_matches(rows.last(), q) {
        matching_rows(rows.drop_last(), q).push(rows.last())
    } else {
        matching_rows(rows.drop_last(), q)
    }
}

/// A copy of a row.
pub fn copy_row(row: &ServeRow) -> (r: ServeRow)
    ensures
        r@ == row@,
{
    ServeRow {
        id: row.id,
        platform: copy_string(&row.platform),
        title: copy_string(&row.title),
        company: copy_string(&row.company),
        canonical_url: copy_string(&row.canonical_url),
        status_meta: copy_string(&row.status_meta),
        company_summary: copy_string(&row.company_summary),
        description: copy_string(&row.description),
    }
}

/// What a run publishes for the rows read: all of them without a query,
/// otherwise those matching the normalized query, in order.
pub fn serve_output(rows: Vec<ServeRow>, query: Option<String>) -> (r: ServeRunOutput)
    ensures
        r.total == rows@.len(),
        r.matched == r.rows@.len(),
        serve_row_views(r.rows@) == match platform_filter_norm(opt_view(query)) {
            Some(q) => matching_rows(serve_row_views(rows@), q),
            None => serve_row_views(rows@),
        },
        platform_filter_norm(opt_view(query)) matches Some(q) ==> (forall|i: int|
            0 <= i < rows@.len() && (contains(lower(rows@[i]@.platform), q) || contains(lower(rows@[i]@.title), q) || contains(lower(rows@[i]@.company), q) || contains(lower(rows@[i]@.canonical_url), q) || contains(lower(rows@[i]@.status_meta), q) || contains(lower(rows@[i]@.company_summary), q) || contains(lower(rows@[i]@.description), q)) ==> serve_row_views(r.rows@).contains(
                #[trigger] rows@[i]@,
            )) && (forall|j: int|
            0 <= j < r.rows@.len() ==> serve_row_views(rows@).contains(#[trigger] r.rows@[j]@)
                && (contains(lower(r.rows@[j]@.platform), q) || contains(lower(r.rows@[j]@.title), q) || contains(lower(r.rows@[j]@.company), q) || contains(lower(r.rows@[j]@.canonical_url), q) || contains(lower(r.rows@[j]@.status_meta), q) || contains(lower(r.rows@[j]@.company_summary), q) || contains(lower(r.rows@[j]@.description), q))),
{
    let total = rows.len();
    match normalized_query(query) {
        None => {
            let matched = rows.len();
            ServeRunOutput { total, matched, rows }
        },
        Some(q) => {
            let ghost all = serve_row_views(rows@);
            let mut out: Vec<ServeRow> = Vec::new();
            let mut i: usize = 0;
            while i < rows.len()
                invariant
                    i <= rows.len(),
                    all == serve_row_views(rows@),
                    serve_row_views(out@) == matching_rows(all.take(i as int), q@),
                decreases rows.len() - i,
            {
                proof {
                    assert(all.take(i + 1).drop_last() =~= all.take(i as int));
                    assert(all.take(i + 1).last() == rows@[i as int]@);
                }
                if row_matches_query(&rows[i], q.as_str()) {
                    let ghost before = out@;
                    out.push(copy_row(&rows[i]));
                    proof {
                        assert(serve_row_views(out@) =~= serve_row_views(before).push(
                            rows@[i as int]@,
                        ));
                    }
                }
                i = i + 1;
            }
            assert(all.take(i as int) =~= all);
            proof {
                lemma_served_rows(rows@, out@, q@);
            }
            let matched = out.len();
            ServeRunOutput { total, matched, rows: out }
        },
    }
}

/// A validated run: its selection and normalized query.
pub struct ServePlan {
    pub selection: ServeSelection,
    pub query: Option<String>,
}

/// Validates and normalizes a run's input; refused exactly when the limit
/// is zero.
pub fn plan_run(input: ServeRunInput) -> (r: Result<ServePlan, StepError>)
    ensures
        input.limit == 0 ==> (r matches Err(e) && e == StepError::ServeLimitZero),
        input.limit > 0 ==> r is Ok,
        r matches Ok(p) ==> {
            &&& p.selection.limit == input.limit
            &&& opt_view(p.selection.platform_filter) == platform_filter_norm(
                opt_view(input.platform_filter),
            )
            &&& opt_view(p.query) == platform_filter_norm(opt_view(input.query))
        },
{
    let selection = match normalized_selection(input.platform_filter, input.limit) {
        Ok(s) => s,
        Err(e) => {
            return Err(e);
        },
    };
    Ok(ServePlan { selection, query: normalized_query(input.query) })
}

/// Serving only drops rows: every published row was read, and with no
/// query nothing is dropped.
pub proof fn matching_rows_is_subsequence(rows: Seq<ServeRowView>, q: Seq<char>)
    ensures
        matching_rows(rows, q).len() <= rows.len(),
        forall|i: int|
            0 <= i < matching_rows(rows, q).len() ==> rows.contains(
                #[trigger] matching_rows(rows, q)[i],
            ) && row_matches(matching_rows(rows, q)[i], q),
    decreases rows.len(),
{
    if rows.len() > 0 {
        matching_rows_is_subsequence(rows.drop_last(), q);
        let prev = matching_rows(rows.drop_last(), q);
        assert forall|i: int| 0 <= i < matching_rows(rows, q).len() implies rows.contains(
            #[trigger] matching_rows(rows, q)[i],
        ) && row_matches(matching_rows(rows, q)[i], q) by {
            if i < prev.len() {
                assert(matching_rows(rows, q)[i] == prev[i]);
                let k = choose|k: int| 0 <= k < rows.drop_last().len() && rows.drop_last()[k]
                    == prev[i];
                assert(rows[k] == prev[i]);
            } else {
                assert(matching_rows(rows, q)[i] == rows.last());
                assert(rows[rows.len() - 1] == rows.last());
            }
        }
    }
}

/// A query searches every text field of a row: a row whose platform,
/// title, company, URL, status note, company summary or description
/// contains the query (ignoring ASCII case) is served, and every served row
/// is one of the rows with such a field.
pub proof fn query_searches_every_field(rows: Seq<ServeRowView>, q: Seq<char>)
    ensures
        forall|i: int|
            0 <= i < rows.len() && (contains(lower(rows[i].platform), q) || contains(lower(rows[i].title), q) || contains(lower(rows[i].company), q) || contains(lower(rows[i].canonical_url), q) || contains(lower(rows[i].status_meta), q) || contains(lower(rows[i].company_summary), q) || contains(lower(rows[i].description), q)) ==> matching_rows(rows, q).contains(
                #[trigger] rows[i],
            ),
        forall|j: int|
            0 <= j < matching_rows(rows, q).len() ==> rows.contains(
                #[trigger] matching_rows(rows, q)[j],
            ) && (contains(lower(matching_rows(rows, q)[j].platform), q) || contains(lower(matching_rows(rows, q)[j].title), q) || contains(lower(matching_rows(rows, q)[j].company), q) || contains(lower(matching_rows(rows, q)[j].canonical_url), q) || contains(lower(matching_rows(rows, q)[j].status_meta), q) || contains(lower(matching_rows(rows, q)[j].company_summary), q) || contains(lower(matching_rows(rows, q)[j].description), q)),
    decreases rows.len(),
{
    matching_rows_is_subsequence(rows, q);
    if rows.len() > 0 {
        let init = rows.drop_last();
        query_searches_every_field(init, q);
        let prev = matching_rows(init, q);
        let cur = matching_rows(rows, q);
        assert forall|i: int|
            0 <= i < rows.len() && (contains(lower(rows[i].platform), q) || contains(lower(rows[i].title), q) || contains(lower(rows[i].company), q) || contains(lower(rows[i].canonical_url), q) || contains(lower(rows[i].status_meta), q) || contains(lower(rows[i].company_summary), q) || contains(lower(rows[i].description), q)) implies cur.contains(#[trigger] rows[i]) by {
            if i < init.len() {
                assert(init[i] == rows[i]);
                let j = choose|j: int| 0 <= j < prev.len() && prev[j] == init[i];
                if row_matches(rows.last(), q) {
                    assert(cur[j] == prev[j]);
                }
            } else {
                assert(rows[i] == rows.last());
                assert(cur[cur.len() - 1] == rows.last());
            }
        }
    }
}

proof fn lemma_served_rows(rows: Seq<ServeRow>, out: Seq<ServeRow>, q: Seq<char>)
    requires
        serve_row_views(out) == matching_rows(serve_row_views(rows), q),
    ensures
        forall|i: int|
            0 <= i < rows.len() && (contains(lower(rows[i]@.platform), q) || contains(lower(rows[i]@.title), q) || contains(lower(rows[i]@.company), q) || contains(lower(rows[i]@.canonical_url), q) || contains(lower(rows[i]@.status_meta), q) || contains(lower(rows[i]@.company_summary), q) || contains(lower(rows[i]@.description), q)) ==> serve_row_views(out).contains(
                #[trigger] rows[i]@,
            ),
        forall|j: int|
            0 <= j < out.len() ==> serve_row_views(rows).contains(#[trigger] out[j]@)
                && (contains(lower(out[j]@.platform), q) || contains(lower(out[j]@.title), q) || contains(lower(out[j]@.company), q) || contains(lower(out[j]@.canonical_url), q) || contains(lower(out[j]@.status_meta), q) || contains(lower(out[j]@.company_summary), q) || contains(lower(out[j]@.description), q)),
{
    let all = serve_row_views(rows);
    let m = matching_rows(all, q);
    query_searches_every_field(all, q);
    assert forall|i: int|
        0 <= i < rows.len() && (contains(lower(rows[i]@.platform), q) || contains(lower(rows[i]@.title), q) || contains(lower(rows[i]@.company), q) || contains(lower(rows[i]@.canonical_url), q) || contains(lower(rows[i]@.status_meta), q) || contains(lower(rows[i]@.company_summary), q) || contains(lower(rows[i]@.description), q)) implies serve_row_views(out).contains(
        #[trigger] rows[i]@,
    ) by {
        assert(all[i] == rows[i]@);
    }
    assert forall|j: int| 0 <= j < out.len() implies serve_row_views(rows).contains(
        #[trigger] out[j]@,
    ) && (contains(lower(out[j]@.platform), q) || contains(lower(out[j]@.title), q) || contains(lower(out[j]@.company), q) || contains(lower(out[j]@.canonical_url), q) || contains(lower(out[j]@.status_meta), q) || contains(lower(out[j]@.company_summary), q) || contains(lower(out[j]@.description), q)) by {
        assert(serve_row_views(out)[j] == out[j]@);
        assert(m[j] == out[j]@);
    }
}

} // verus!
