//! Job detail extraction: whitespace cleanup, URL canonicalization and
//! dedupe keys.
use vstd::prelude::*;
use vstd::utf8::encode_utf8;

use crate::external::{
    hex_encode, hex_lower, pair_views, parse_url, parsed_url, rebuild_url, sha256,
    sha256_digest, url_rebuilt, UrlParts, UrlPartsView,
};
use crate::job::JobDetailData;
use crate::text::{
    append_chars, chars_eq_str, chars_of, char_is_ascii_digit, copy_opt_string, ends_with,
    ends_with_chars, is_ascii_digit, lower, normalize_chars, normalize_ws, opt_view, string_of,
    strs, to_lower, trim, trim_chars,
};

verus! {

/// Cleaned fields of a job detail page.
pub struct JobExtraction {
    pub canonical_url: String,
    pub company: String,
    pub title: String,
    pub location: Option<String>,
    pub employment_type: Option<String>,
    pub posted_text: Option<String>,
    pub description: String,
    pub requirements: Vec<String>,
    pub company_domain: Option<String>,
    pub company_summary: Option<String>,
    pub company_size: Option<String>,
}

/// Mathematical value of a `JobExtraction`.
pub struct JobExtractionView {
    pub canonical_url: Seq<char>,
    pub company: Seq<char>,
    pub title: Seq<char>,
    pub location: Option<Seq<char>>,
    pub employment_type: Option<Seq<char>>,
    pub posted_text: Option<Seq<char>>,
    pub description: Seq<char>,
    pub requirements: Seq<Seq<char>>,
    pub company_domain: Option<Seq<char>>,
    pub company_summary: Option<Seq<char>>,
    pub company_size: Option<Seq<char>>,
}

impl View for JobExtraction {
    type V = JobExtractionView;

    open spec fn view(&self) -> JobExtractionView {
        JobExtractionView {
            canonical_url: self.canonical_url@,
            company: self.company@,
            title: self.title@,
            location: opt_view(self.location),
            employment_type: opt_view(self.employment_type),
            posted_text: opt_view(self.posted_text),
            description: self.description@,
            requirements: strs(self.requirements@),
            company_domain: opt_view(self.company_domain),
            company_summary: opt_view(self.company_summary),
            company_size: opt_view(self.company_size),
        }
    }
}

// ---------------------------------------------------------------------------
// Whitespace
// ---------------------------------------------------------------------------

/// Collapses white-space runs to single spaces and trims both ends.
pub fn normalize_whitespace(input: &str) -> (r: String)
    ensures
        r@ == normalize_ws(input@),
{
    let v = chars_of(input);
    string_of(&normalize_chars(&v))
}

pub open spec fn normalize_opt_ws(v: Option<Seq<char>>) -> Option<Seq<char>> {
    match v {
        Some(s) => Some(normalize_ws(s)),
        None => None,
    }
}

/// Normalized, and dropped when it normalizes to nothing.
pub open spec fn normalize_opt_nonempty(v: Option<Seq<char>>) -> Option<Seq<char>> {
    match v {
        Some(s) => if normalize_ws(s).len() > 0 {
            Some(normalize_ws(s))
        } else {
            None
        },
        None => None,
    }
}

/// Each line normalized; lines that normalize to nothing dropped.
pub open spec fn normalized_lines(v: Seq<Seq<char>>) -> Seq<Seq<char>>
    decreases v.len(),
{
    if v.len() == 0 {
        seq![]
    } else {
        let prev = normalized_lines(v.drop_last());
        if normalize_ws(v.last()).len() > 0 {
            prev.push(normalize_ws(v.last()))
        } else {
            prev
        }
    }
}

fn normalize_opt_string(v: &Option<String>) -> (r: Option<String>)
    ensures
        opt_view(r) == normalize_opt_ws(opt_view(*v)),
{
    match v {
        Some(s) => Some(normalize_whitespace(s.as_str())),
        None => None,
    }
}

fn normalize_opt_nonempty_string(v: &Option<String>) -> (r: Option<String>)
    ensures
        opt_view(r) == normalize_opt_nonempty(opt_view(*v)),
{
    match v {
        Some(s) => {
            let cv = chars_of(s.as_str());
            let n = normalize_chars(&cv);
            if n.len() > 0 {
                Some(string_of(&n))
            } else {
                None
            }
        },
        None => None,
    }
}

fn normalize_lines(v: &Vec<String>) -> (r: Vec<String>)
    ensures
        strs(r@) == normalized_lines(strs(v@)),
{
    let ghost all = strs(v@);
    let mut out: Vec<String> = Vec::new();
    let mut i: usize = 0;
    while i < v.len()
        invariant
            i <= v.len(),
            all == strs(v@),
            strs(out@) == normalized_lines(all.take(i as int)),
        decreases v.len() - i,
    {
        proof {
            assert(all.take(i + 1).drop_last() =~= all.take(i as int));
            assert(all.take(i + 1).last() == v@[i as int]@);
        }
        let cv = chars_of(v[i].as_str());
        let n = normalize_chars(&cv);
        if n.len() > 0 {
            let s = string_of(&n);
            let ghost before = out@;
            out.push(s);
            proof {
                assert(strs(out@) =~= strs(before).push(s@));
            }
        }
        i = i + 1;
    }
    assert(all.take(i as int) =~= all);
    out
}

// ---------------------------------------------------------------------------
// URL canonicalization
// ---------------------------------------------------------------------------

/// Leading and trailing `/` characters removed.
pub open spec fn strip_slashes(s: Seq<char>) -> Seq<char>
    decreases s.len(),
{
    if s.len() > 0 && s[0] == '/' {
        strip_slashes(s.drop_first())
    } else if s.len() > 0 && s.last() == '/' {
        strip_slashes(s.drop_last())
    } else {
        s
    }
}

pub open spec fn all_digits(s: Seq<char>) -> bool {
    forall|i: int| 0 <= i < s.len() ==> is_ascii_digit(#[trigger] s[i])
}

/// `https://www.linkedin.com/jobs/view/<id>` for a LinkedIn job view URL
/// (any `*linkedin.com` host, path `jobs/view/<digits>/...`).
pub open spec fn linkedin_job_view(p: UrlPartsView) -> Option<Seq<char>> {
    match p.host {
        None => None,
        Some(h) => if !ends_with(lower(h), "linkedin.com"@) {
            None
        } else {
            match p.path_segments {
                None => None,
                Some(segs) => if segs.len() >= 3 && segs[0] == "jobs"@ && segs[1] == "view"@ {
                    let id = strip_slashes(segs[2]);
                    if id.len() > 0 && all_digits(id) {
                        Some("https://www.linkedin.com/jobs/view/"@ + id)
                    } else {
                        None
                    }
                } else {
                    None
                },
            }
        },
    }
}

/// Query keys that identify a job posting on common boards.
pub open spec fn kept_query_key(k: Seq<char>) -> bool {
    k == "jk"@ || k == "vjk"@ || k == "currentJobId"@ || k == "position"@ || k == "jobId"@ || k
        == "gh_jid"@
}

/// The query pairs whose key identifies a job posting, in order.
pub open spec fn kept_pairs(ps: Seq<(Seq<char>, Seq<char>)>) -> Seq<(Seq<char>, Seq<char>)>
    decreases ps.len(),
{
    if ps.len() == 0 {
        seq![]
    } else if kept_query_key(ps.last().0) {
        kept_pairs(ps.drop_last()).push(ps.last())
    } else {
        kept_pairs(ps.drop_last())
    }
}

/// The query pairs kept from a URL are exactly those whose key is one of
/// `jk`, `vjk`, `currentJobId`, `position`, `jobId` and `gh_jid`: every
/// such pair is kept, and every kept pair is such a pair of the URL.
pub proof fn job_id_query_pairs_are_kept(ps: Seq<(Seq<char>, Seq<char>)>)
    ensures
        forall|i: int|
            0 <= i < ps.len() && (ps[i].0 == "jk"@ || ps[i].0 == "vjk"@ || ps[i].0 == "currentJobId"@ || ps[i].0 == "position"@ || ps[i].0 == "jobId"@ || ps[i].0 == "gh_jid"@) ==> kept_pairs(ps).contains(
                #[trigger] ps[i],
            ),
        forall|i: int|
            0 <= i < kept_pairs(ps).len() ==> ps.contains(#[trigger] kept_pairs(ps)[i])
                && (kept_pairs(ps)[i].0 == "jk"@ || kept_pairs(ps)[i].0 == "vjk"@ || kept_pairs(ps)[i].0 == "currentJobId"@ || kept_pairs(ps)[i].0 == "position"@ || kept_pairs(ps)[i].0 == "jobId"@ || kept_pairs(ps)[i].0 == "gh_jid"@),
    decreases ps.len(),
{
    if ps.len() > 0 {
        let init = ps.drop_last();
        job_id_query_pairs_are_kept(init);
        let prev = kept_pairs(init);
        let cur = kept_pairs(ps);
        assert forall|i: int|
            0 <= i < ps.len() && (ps[i].0 == "jk"@ || ps[i].0 == "vjk"@ || ps[i].0 == "currentJobId"@ || ps[i].0 == "position"@ || ps[i].0 == "jobId"@ || ps[i].0 == "gh_jid"@) implies cur.contains(#[trigger] ps[i]) by {
            if i < init.len() {
                assert(init[i] == ps[i]);
                let j = choose|j: int| 0 <= j < prev.len() && prev[j] == init[i];
                if kept_query_key(ps.last().0) {
                    assert(cur[j] == prev[j]);
                }
            } else {
                assert(ps[i] == ps.last());
                assert(cur[cur.len() - 1] == ps.last());
            }
        }
        assert forall|i: int| 0 <= i < cur.len() implies ps.contains(#[trigger] cur[i])
            && (cur[i].0 == "jk"@ || cur[i].0 == "vjk"@ || cur[i].0 == "currentJobId"@ || cur[i].0 == "position"@ || cur[i].0 == "jobId"@ || cur[i].0 == "gh_jid"@) by {
            if i < prev.len() {
                assert(cur[i] == prev[i]);
                let j = choose|j: int| 0 <= j < init.len() && init[j] == prev[i];
                assert(ps[j] == init[j]);
            } else {
                assert(cur[i] == ps.last());
                assert(ps[ps.len() - 1] == ps.last());
            }
        }
    }
}

/// Canonicalizing a URL that is not a LinkedIn job view keeps its
/// job-identifying query pairs: the result is the URL rebuilt from its
/// pairs whose key is one of `jk`, `vjk`, `currentJobId`, `position`,
/// `jobId` and `gh_jid` (all of them, and no others), without a trailing
/// `/`.
pub proof fn canonical_url_keeps_job_ids(raw: Seq<char>)
    requires
        parsed_url(raw) is Some,
        linkedin_job_view(parsed_url(raw)->0) is None,
        url_rebuilt(raw, kept_pairs(parsed_url(raw)->0.query_pairs)) is Some,
    ensures
        exists|kept: Seq<(Seq<char>, Seq<char>)>|
            canonical_url(raw) == drop_trailing_slash(url_rebuilt(raw, kept)->0) && (forall|i: int|
                0 <= i < parsed_url(raw)->0.query_pairs.len() && (parsed_url(raw)->0.query_pairs[i].0 == "jk"@ || parsed_url(raw)->0.query_pairs[i].0 == "vjk"@ || parsed_url(raw)->0.query_pairs[i].0 == "currentJobId"@ || parsed_url(raw)->0.query_pairs[i].0 == "position"@ || parsed_url(raw)->0.query_pairs[i].0 == "jobId"@ || parsed_url(raw)->0.query_pairs[i].0 == "gh_jid"@)
                    ==> kept.contains(#[trigger] parsed_url(raw)->0.query_pairs[i])) && (forall|
                j: int,
            |
                0 <= j < kept.len() ==> parsed_url(raw)->0.query_pairs.contains(#[trigger] kept[j])
                    && (kept[j].0 == "jk"@ || kept[j].0 == "vjk"@ || kept[j].0 == "currentJobId"@ || kept[j].0 == "position"@ || kept[j].0 == "jobId"@ || kept[j].0 == "gh_jid"@)),
{
    let ps = parsed_url(raw)->0.query_pairs;
    job_id_query_pairs_are_kept(ps);
    let kept = kept_pairs(ps);
    assert(canonical_url(raw) == drop_trailing_slash(url_rebuilt(raw, kept)->0));
}

pub open spec fn drop_trailing_slash(s: Seq<char>) -> Seq<char> {
    if s.len() > 0 && s.last() == '/' {
        s.drop_last()
    } else {
        s
    }
}

/// Canonical form of a job URL: LinkedIn job views reduced to their id;
/// other URLs without fragment, with only job-identifying query pairs and
/// without a trailing `/`; unparsable input unchanged.
pub open spec fn canonical_url(raw: Seq<char>) -> Seq<char> {
    match parsed_url(raw) {
        None => raw,
        Some(p) => match linkedin_job_view(p) {
            Some(v) => v,
            None => match url_rebuilt(raw, kept_pairs(p.query_pairs)) {
                Some(o) => drop_trailing_slash(o),
                None => raw,
            },
        },
    }
}

fn strip_slash_chars(s: &Vec<char>) -> (r: Vec<char>)
    ensures
        r@ == strip_slashes(s@),
{
    let mut i: usize = 0;
    let mut j: usize = s.len();
    let ghost target = strip_slashes(s@);
    assert(s@.subrange(0, s.len() as int) =~= s@);
    while i < j && (s[i] == '/' || s[j - 1] == '/')
        invariant
            i <= j <= s.len(),
            strip_slashes(s@.subrange(i as int, j as int)) == target,
        decreases j - i,
    {
        let ghost cur = s@.subrange(i as int, j as int);
        if s[i] == '/' {
            assert(cur.drop_first() =~= s@.subrange(i + 1, j as int));
            i = i + 1;
        } else {
            assert(cur.drop_last() =~= s@.subrange(i as int, j - 1));
            j = j - 1;
        }
    }
    proof {
        if i == 0 && j == s.len() {
            assert(s@.subrange(0, s.len() as int) =~= s@);
        }
    }
    let mut r: Vec<char> = Vec::new();
    let mut k: usize = i;
    while k < j
        invariant
            i <= k <= j,
            j <= s.len(),
            r@ =~= s@.subrange(i as int, k as int),
        decreases j - k,
    {
        r.push(s[k]);
        k = k + 1;
    }
    r
}

fn chars_all_digits(s: &Vec<char>) -> (r: bool)
    ensures
        r == all_digits(s@),
{
    let mut i: usize = 0;
    while i < s.len()
        invariant
            i <= s.len(),
            forall|k: int| 0 <= k < i ==> is_ascii_digit(#[trigger] s@[k]),
        decreases s.len() - i,
    {
        if !char_is_ascii_digit(s[i]) {
            return false;
        }
        i = i + 1;
    }
    true
}

fn canonical_linkedin_job_view(p: &UrlParts) -> (r: Option<String>)
    ensures
        opt_view(r) == linkedin_job_view(p@),
{
    let host = match &p.host {
        Some(h) => h,
        None => return None,
    };
    let hv = chars_of(host.as_str());
    let hl = to_lower(&hv);
    let suffix = chars_of("linkedin.com");
    if !ends_with_chars(&hl, &suffix) {
        return None;
    }
    let segs = match &p.path_segments {
        Some(s) => s,
        None => return None,
    };
    proof {
        assert(p@.path_segments == Some(Seq::new(segs@.len(), |i: int| segs@[i]@)));
    }
    if segs.len() < 3 {
        return None;
    }
    let s0 = chars_of(segs[0].as_str());
    let s1 = chars_of(segs[1].as_str());
    if !chars_eq_str(&s0, "jobs") || !chars_eq_str(&s1, "view") {
        return None;
    }
    let s2 = chars_of(segs[2].as_str());
    let id = strip_slash_chars(&s2);
    if id.len() == 0 || !chars_all_digits(&id) {
        return None;
    }
    let mut out = chars_of("https://www.linkedin.com/jobs/view/");
    append_chars(&mut out, &id);
    Some(string_of(&out))
}

fn is_kept_query_key(k: &String) -> (r: bool)
    ensures
        r == kept_query_key(k@),
        r == (k@ == "jk"@ || k@ == "vjk"@ || k@ == "currentJobId"@ || k@ == "position"@ || k@
            == "jobId"@ || k@ == "gh_jid"@),
{
    let kv = chars_of(k.as_str());
    chars_eq_str(&kv, "jk") || chars_eq_str(&kv, "vjk") || chars_eq_str(&kv, "currentJobId")
        || chars_eq_str(&kv, "position") || chars_eq_str(&kv, "jobId") || chars_eq_str(
        &kv,
        "gh_jid",
    )
}

fn keep_job_query_pairs(ps: &Vec<(String, String)>) -> (r: Vec<(String, String)>)
    ensures
        pair_views(r@) == kept_pairs(pair_views(ps@)),
{
    let ghost all = pair_views(ps@);
    let mut out: Vec<(String, String)> = Vec::new();
    let mut i: usize = 0;
    while i < ps.len()
        invariant
            i <= ps.len(),
            all == pair_views(ps@),
            pair_views(out@) == kept_pairs(all.take(i as int)),
        decreases ps.len() - i,
    {
        proof {
            assert(all.take(i + 1).drop_last() =~= all.take(i as int));
            assert(all.take(i + 1).last() == (ps@[i as int].0@, ps@[i as int].1@));
        }
        if is_kept_query_key(&ps[i].0) {
            let pair = (ps[i].0.clone(), ps[i].1.clone());
            let ghost before = out@;
            out.push(pair);
            proof {
                assert(pair_views(out@) =~= pair_views(before).push((pair.0@, pair.1@)));
            }
        }
        i = i + 1;
    }
    assert(all.take(i as int) =~= all);
    out
}

/// Canonical form of a job URL (see `canonical_url`).
pub fn canonicalize_url(raw: &str) -> (r: String)
    ensures
        r@ == canonical_url(raw@),
        parsed_url(raw@) is Some && linkedin_job_view(parsed_url(raw@)->0) is None && url_rebuilt(
            raw@,
            kept_pairs(parsed_url(raw@)->0.query_pairs),
        ) is Some ==> exists|kept: Seq<(Seq<char>, Seq<char>)>|
            r@ == drop_trailing_slash(url_rebuilt(raw@, kept)->0) && (forall|i: int|
                0 <= i < parsed_url(raw@)->0.query_pairs.len() && (parsed_url(raw@)->0.query_pairs[i].0 == "jk"@ || parsed_url(raw@)->0.query_pairs[i].0 == "vjk"@ || parsed_url(raw@)->0.query_pairs[i].0 == "currentJobId"@ || parsed_url(raw@)->0.query_pairs[i].0 == "position"@ || parsed_url(raw@)->0.query_pairs[i].0 == "jobId"@ || parsed_url(raw@)->0.query_pairs[i].0 == "gh_jid"@)
                    ==> kept.contains(#[trigger] parsed_url(raw@)->0.query_pairs[i])) && (forall|
                j: int,
            |
                0 <= j < kept.len() ==> parsed_url(raw@)->0.query_pairs.contains(#[trigger] kept[j])
                    && (kept[j].0 == "jk"@ || kept[j].0 == "vjk"@ || kept[j].0 == "currentJobId"@ || kept[j].0 == "position"@ || kept[j].0 == "jobId"@ || kept[j].0 == "gh_jid"@)),
{
    proof {
        if parsed_url(raw@) is Some && linkedin_job_view(parsed_url(raw@)->0) is None && url_rebuilt(
            raw@,
            kept_pairs(parsed_url(raw@)->0.query_pairs),
        ) is Some {
            canonical_url_keeps_job_ids(raw@);
        }
    }
    let parsed = match parse_url(raw) {
        Some(p) => p,
        None => return string_of(&chars_of(raw)),
    };
    if let Some(linkedin_job) = canonical_linkedin_job_view(&parsed) {
        return linkedin_job;
    }
    let keep = keep_job_query_pairs(&parsed.query_pairs);
    let out = match rebuild_url(raw, &keep) {
        Some(o) => o,
        None => return string_of(&chars_of(raw)),
    };
    let mut ov = chars_of(out.as_str());
    if ov.len() > 0 && ov[ov.len() - 1] == '/' {
        ov.pop();
        assert(ov@ =~= drop_trailing_slash(out@));
    }
    string_of(&ov)
}

// ---------------------------------------------------------------------------
// Hashing
// ---------------------------------------------------------------------------

/// Lower-case hex SHA-256 of the UTF-8 bytes of a text.
pub open spec fn sha256_hex(text: Seq<char>) -> Seq<char> {
    hex_lower(sha256(encode_utf8(text)))
}

/// Lower-case hex SHA-256 of the UTF-8 bytes of a text.
pub fn hash_text(input: &str) -> (r: String)
    ensures
        r@ == sha256_hex(input@),
{
    let digest = sha256_digest(input.as_bytes());
    hex_encode(digest.as_slice())
}

/// The text a dedupe key hashes: URL trimmed, company and title
/// normalized, all lower-cased, separated by `|`.
pub open spec fn dedupe_source(canonical_url: Seq<char>, company: Seq<char>, title: Seq<char>) -> Seq<
    char,
> {
    lower(trim(canonical_url)) + seq!['|'] + lower(normalize_ws(company)) + seq!['|'] + lower(
        normalize_ws(title),
    )
}

/// Stable identity of a job across scans.
pub fn dedupe_key(canonical_url: &str, company: &str, title: &str) -> (r: String)
    ensures
        r@ == sha256_hex(dedupe_source(canonical_url@, company@, title@)),
{
    let u = chars_of(canonical_url);
    let mut src = to_lower(&trim_chars(&u));
    src.push('|');
    let c = chars_of(company);
    append_chars(&mut src, &to_lower(&normalize_chars(&c)));
    src.push('|');
    let t = chars_of(title);
    append_chars(&mut src, &to_lower(&normalize_chars(&t)));
    assert(src@ =~= dedupe_source(canonical_url@, company@, title@));
    let s = string_of(&src);
    hash_text(s.as_str())
}

/// Two jobs whose trimmed URLs, normalized companies and normalized titles
/// agree ignoring ASCII case get the same dedupe key.
pub proof fn dedupe_key_ignores_case_and_spacing(
    url_a: Seq<char>,
    company_a: Seq<char>,
    title_a: Seq<char>,
    url_b: Seq<char>,
    company_b: Seq<char>,
    title_b: Seq<char>,
)
    requires
        lower(trim(url_a)) == lower(trim(url_b)),
        lower(normalize_ws(company_a)) == lower(normalize_ws(company_b)),
        lower(normalize_ws(title_a)) == lower(normalize_ws(title_b)),
    ensures
        sha256_hex(dedupe_source(url_a, company_a, title_a)) == sha256_hex(
            dedupe_source(url_b, company_b, title_b),
        ),
{
    assert(dedupe_source(url_a, company_a, title_a) =~= dedupe_source(url_b, company_b, title_b));
}

// ---------------------------------------------------------------------------
// Extraction
// ---------------------------------------------------------------------------

/// The cleaned extraction of a detail snapshot.
pub open spec fn extraction_of(s: crate::job::JobDetailView) -> JobExtractionView {
    JobExtractionView {
        canonical_url: canonical_url(s.url),
        company: normalize_ws(s.company),
        title: normalize_ws(s.title),
        location: normalize_opt_ws(s.location),
        employment_type: normalize_opt_ws(s.employment_type),
        posted_text: normalize_opt_ws(s.posted_text),
        description: normalize_ws(s.description),
        requirements: normalized_lines(s.requirements),
        company_domain: s.company_domain,
        company_summary: normalize_opt_nonempty(s.company_summary),
        company_size: normalize_opt_nonempty(s.company_size),
    }
}

/// Cleans a detail snapshot: canonical URL, normalized white space, blank
/// requirement lines and blank summaries dropped.
pub fn from_snapshot(snapshot: JobDetailData) -> (r: JobExtraction)
    ensures
        r@ == extraction_of(snapshot@),
{
    JobExtraction {
        canonical_url: canonicalize_url(snapshot.url.as_str()),
        company: normalize_whitespace(snapshot.company.as_str()),
        title: normalize_whitespace(snapshot.title.as_str()),
        location: normalize_opt_string(&snapshot.location),
        employment_type: normalize_opt_string(&snapshot.employment_type),
        posted_text: normalize_opt_string(&snapshot.posted_text),
        description: normalize_whitespace(snapshot.description.as_str()),
        requirements: normalize_lines(&snapshot.requirements),
        company_domain: copy_opt_string(&snapshot.company_domain),
        company_summary: normalize_opt_nonempty_string(&snapshot.company_summary),
        company_size: normalize_opt_nonempty_string(&snapshot.company_size),
    }
}

} // verus!
