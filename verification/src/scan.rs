//! Decisions of the scan use case: search-card pre-filtering, recency
//! rules, title and company fallbacks, record and report-row assembly,
//! scan ordering, retry and run bookkeeping. The browser, storage and AI
//! calls between these decisions are made by the caller.
use vstd::prelude::*;

use crate::ai::{AiDecision, AiRequirements, CompanySize, EmploymentType, VisaPolicy, WorkMode};
use crate::config::FiltersConfig;
use crate::job::{
    JobDetailData, JobRecord, PlatformKind, ReportRow, ReportRowView, SearchCardData,
    SearchCardView, SearchPageData, status_name,
};
use crate::job_page::{
    canonical_url, canonicalize_url, dedupe_key, dedupe_source, sha256_hex, JobExtraction,
    JobExtractionView,
};
use crate::policy::{
    hard_exclusion, hard_exclusion_reason, language_code, title_decision, title_pre_match,
};
use crate::external::detected_language;
use crate::job_page::normalize_whitespace;
use crate::text::{
    append_chars, append_str, char_is_ascii_alnum, char_is_ascii_alpha, char_to_ascii_upper,
    chars_eq_str, chars_of, contains, contains_str, copy_opt_string, copy_string, copy_strings,
    decimal, dedup_ci, dedup_ignore_case, is_ascii_alnum, is_ascii_alpha, join, join_chars, lower,
    normalize_ws, opt_view, opt_views, parse_u64, parse_u64_chars, split_whitespace, starts_with,
    starts_with_chars, string_of, strings_of, strs, to_lower, trim, trim_chars, u64_decimal,
    upper_char, utf8_len_exceeds, views, words,
};

verus! {

// ---------------------------------------------------------------------------
// Requirements and enum labels
// ---------------------------------------------------------------------------

/// Up to the first five requirements joined by `; `, or a placeholder.
pub open spec fn requirements_summary(reqs: Seq<Seq<char>>) -> Seq<char> {
    if reqs.len() == 0 {
        "No explicit requirements extracted"@
    } else if reqs.len() <= 5 {
        join(reqs, "; "@)
    } else {
        join(reqs.take(5), "; "@)
    }
}

pub fn summarize_requirements(reqs: &[String]) -> (r: String)
    ensures
        r@ == requirements_summary(strs(reqs@)),
{
    if reqs.len() == 0 {
        return string_of(&chars_of("No explicit requirements extracted"));
    }
    let n: usize = if reqs.len() < 5 {
        reqs.len()
    } else {
        5
    };
    let mut first: Vec<Vec<char>> = Vec::new();
    let mut i: usize = 0;
    while i < n
        invariant
            i <= n <= reqs@.len(),
            views(first@) =~= strs(reqs@).take(i as int),
        decreases n - i,
    {
        let c = chars_of(reqs[i].as_str());
        let ghost before = first@;
        first.push(c);
        proof {
            assert(views(first@) =~= views(before).push(c@));
        }
        i = i + 1;
    }
    let sep = chars_of("; ");
    if reqs.len() <= 5 {
        assert(strs(reqs@).take(n as int) =~= strs(reqs@));
    }
    string_of(&join_chars(&first, &sep))
}

/// Trimmed value, absent when blank.
pub open spec fn trimmed_nonempty(s: Seq<char>) -> Option<Seq<char>> {
    if trim(s).len() == 0 {
        None
    } else {
        Some(trim(s))
    }
}

/// All requirement groups in order, trimmed, blanks dropped, duplicates
/// (ignoring ASCII case) dropped.
pub open spec fn flattened_requirements(
    languages: Seq<Seq<char>>,
    frameworks: Seq<Seq<char>>,
    tools: Seq<Seq<char>>,
    databases: Seq<Seq<char>>,
    cloud: Seq<Seq<char>>,
    other: Seq<Seq<char>>,
) -> Seq<Seq<char>> {
    let all = languages + frameworks + tools + databases + cloud + other;
    dedup_ci(Seq::new(all.len(), |i: int| trimmed_nonempty(all[i])))
}

fn push_trimmed(out: &mut Vec<Option<Vec<char>>>, items: &Vec<String>)
    ensures
        opt_views(final(out)@) == opt_views(old(out)@) + Seq::new(
            strs(items@).len(),
            |i: int| trimmed_nonempty(strs(items@)[i]),
        ),
{
    let ghost start = opt_views(out@);
    let ghost add = Seq::new(strs(items@).len(), |i: int| trimmed_nonempty(strs(items@)[i]));
    let mut i: usize = 0;
    while i < items.len()
        invariant
            i <= items.len(),
            add == Seq::new(strs(items@).len(), |i: int| trimmed_nonempty(strs(items@)[i])),
            opt_views(out@) =~= start + add.take(i as int),
        decreases items.len() - i,
    {
        let cv = chars_of(items[i].as_str());
        let t = trim_chars(&cv);
        let v = if t.len() == 0 {
            None
        } else {
            Some(t)
        };
        let ghost before = out@;
        out.push(v);
        proof {
            assert(opt_views(out@) =~= opt_views(before).push(add[i as int]));
        }
        i = i + 1;
    }
    assert(add.take(i as int) =~= add);
}

pub fn flatten_requirements(reqs: &AiRequirements) -> (r: Vec<String>)
    ensures
        strs(r@) == flattened_requirements(
            strs(reqs.languages@),
            strs(reqs.frameworks@),
            strs(reqs.tools@),
            strs(reqs.databases@),
            strs(reqs.cloud@),
            strs(reqs.other@),
        ),
{
    let mut all: Vec<Option<Vec<char>>> = Vec::new();
    push_trimmed(&mut all, &reqs.languages);
    push_trimmed(&mut all, &reqs.frameworks);
    push_trimmed(&mut all, &reqs.tools);
    push_trimmed(&mut all, &reqs.databases);
    push_trimmed(&mut all, &reqs.cloud);
    push_trimmed(&mut all, &reqs.other);
    let ghost joined = strs(reqs.languages@) + strs(reqs.frameworks@) + strs(reqs.tools@) + strs(
        reqs.databases@,
    ) + strs(reqs.cloud@) + strs(reqs.other@);
    assert(opt_views(all@) =~= Seq::new(joined.len(), |i: int| trimmed_nonempty(joined[i])));
    let out = dedup_ignore_case(&all);
    strings_of(&out)
}

pub open spec fn employment_type_name(v: EmploymentType) -> Seq<char> {
    match v {
        EmploymentType::FullTime => "full_time"@,
        EmploymentType::PartTime => "part_time"@,
        EmploymentType::Contract => "contract"@,
        EmploymentType::Internship => "internship"@,
        EmploymentType::Temporary => "temporary"@,
        EmploymentType::Freelance => "freelance"@,
    }
}

pub open spec fn work_mode_name(v: WorkMode) -> Seq<char> {
    match v {
        WorkMode::Remote => "remote"@,
        WorkMode::Hybrid => "hybrid"@,
        WorkMode::OnSite => "on_site"@,
    }
}

pub open spec fn visa_policy_name(v: VisaPolicy) -> Seq<char> {
    match v {
        VisaPolicy::VisaSponsored => "visa_sponsored"@,
        VisaPolicy::Unknown => "unknown"@,
        VisaPolicy::VisaNotSponsored => "visa_not_sponsored"@,
    }
}

pub open spec fn company_size_name(v: CompanySize) -> Seq<char> {
    match v {
        CompanySize::OneToTen => "1-10"@,
        CompanySize::ElevenToFifty => "11-50"@,
        CompanySize::FiftyOneToFiveHundred => "51-500"@,
        CompanySize::Above => "above"@,
    }
}

pub fn employment_type_to_string(value: &EmploymentType) -> (r: String)
    ensures
        r@ == employment_type_name(*value),
{
    let s = match value {
        EmploymentType::FullTime => "full_time",
        EmploymentType::PartTime => "part_time",
        EmploymentType::Contract => "contract",
        EmploymentType::Internship => "internship",
        EmploymentType::Temporary => "temporary",
        EmploymentType::Freelance => "freelance",
    };
    string_of(&chars_of(s))
}

pub fn work_mode_to_string(value: &WorkMode) -> (r: String)
    ensures
        r@ == work_mode_name(*value),
{
    let s = match value {
        WorkMode::Remote => "remote",
        WorkMode::Hybrid => "hybrid",
        WorkMode::OnSite => "on_site",
    };
    string_of(&chars_of(s))
}

pub fn visa_policy_to_string(value: &VisaPolicy) -> (r: String)
    ensures
        r@ == visa_policy_name(*value),
{
    let s = match value {
        VisaPolicy::VisaSponsored => "visa_sponsored",
        VisaPolicy::Unknown => "unknown",
        VisaPolicy::VisaNotSponsored => "visa_not_sponsored",
    };
    string_of(&chars_of(s))
}

pub fn company_size_to_string(value: &CompanySize) -> (r: String)
    ensures
        r@ == company_size_name(*value),
{
    let s = match value {
        CompanySize::OneToTen => "1-10",
        CompanySize::ElevenToFifty => "11-50",
        CompanySize::FiftyOneToFiveHundred => "51-500",
        CompanySize::Above => "above",
    };
    string_of(&chars_of(s))
}

// ---------------------------------------------------------------------------
// Snapshot usability
// ---------------------------------------------------------------------------

/// A search snapshot is usable when it found at least one card or link.
pub fn is_search_snapshot_usable(snapshot: &SearchPageData) -> (r: bool)
    ensures
        r == !(snapshot.job_cards@.len() == 0 && snapshot.job_links@.len() == 0),
{
    !(snapshot.job_cards.len() == 0 && snapshot.job_links.len() == 0)
}

/// Length in bytes of the UTF-8 encoding.
pub open spec fn byte_len(s: Seq<char>) -> nat {
    vstd::utf8::encode_utf8(s).len()
}

/// A detail snapshot is usable when it has the about-the-job element and
/// either a title or a description longer than 20 bytes.
pub open spec fn detail_usable(d: crate::job::JobDetailView) -> bool {
    trim(d.about_job_dom).len() > 0 && (trim(d.title).len() > 0 || byte_len(trim(d.description))
        > 20)
}

pub fn is_detail_snapshot_usable(snapshot: &JobDetailData) -> (r: bool)
    ensures
        r == detail_usable(snapshot@),
{
    let about = chars_of(snapshot.about_job_dom.as_str());
    let about_job_dom_present = trim_chars(&about).len() > 0;
    let title = chars_of(snapshot.title.as_str());
    let title_present = trim_chars(&title).len() > 0;
    let desc = chars_of(snapshot.description.as_str());
    let description_present = utf8_len_exceeds(&trim_chars(&desc), 20);
    about_job_dom_present && (title_present || description_present)
}

// ---------------------------------------------------------------------------
// Posted age
// ---------------------------------------------------------------------------

/// The ASCII letters of a text, in order.
pub open spec fn alpha_only(s: Seq<char>) -> Seq<char>
    decreases s.len(),
{
    if s.len() == 0 {
        seq![]
    } else if is_ascii_alpha(s.last()) {
        alpha_only(s.drop_last()).push(s.last())
    } else {
        alpha_only(s.drop_last())
    }
}

/// The ASCII letters and digits of a text, in order.
pub open spec fn alnum_only(s: Seq<char>) -> Seq<char>
    decreases s.len(),
{
    if s.len() == 0 {
        seq![]
    } else if is_ascii_alnum(s.last()) {
        alnum_only(s.drop_last()).push(s.last())
    } else {
        alnum_only(s.drop_last())
    }
}

fn keep_alpha(s: &Vec<char>) -> (r: Vec<char>)
    ensures
        r@ == alpha_only(s@),
{
    let mut r: Vec<char> = Vec::new();
    let mut i: usize = 0;
    while i < s.len()
        invariant
            i <= s.len(),
            r@ == alpha_only(s@.take(i as int)),
        decreases s.len() - i,
    {
        proof {
            assert(s@.take(i + 1).drop_last() =~= s@.take(i as int));
        }
        if char_is_ascii_alpha(s[i]) {
            r.push(s[i]);
        }
        i = i + 1;
    }
    assert(s@.take(i as int) =~= s@);
    r
}

fn keep_alnum(s: &Vec<char>) -> (r: Vec<char>)
    ensures
        r@ == alnum_only(s@),
{
    let mut r: Vec<char> = Vec::new();
    let mut i: usize = 0;
    while i < s.len()
        invariant
            i <= s.len(),
            r@ == alnum_only(s@.take(i as int)),
        decreases s.len() - i,
    {
        proof {
            assert(s@.take(i + 1).drop_last() =~= s@.take(i as int));
        }
        if char_is_ascii_alnum(s[i]) {
            r.push(s[i]);
        }
        i = i + 1;
    }
    assert(s@.take(i as int) =~= s@);
    r
}

/// Scans the words from index `i` for a unit starting with `day` and reads
/// the count in the word before it (`a`/`an` mean one).
pub open spec fn days_scan(tokens: Seq<Seq<char>>, i: int) -> Option<u64>
    decreases tokens.len() - i,
{
    if i < 0 || i >= tokens.len() {
        None
    } else if !starts_with(lower(alpha_only(tokens[i])), "day"@) {
        days_scan(tokens, i + 1)
    } else if i == 0 {
        None
    } else {
        let v = lower(alnum_only(tokens[i - 1]));
        if v == "a"@ || v == "an"@ {
            Some(1)
        } else {
            match parse_u64(v) {
                Some(d) => Some(d),
                None => days_scan(tokens, i + 1),
            }
        }
    }
}

/// Number of days in a relative age such as `3 days ago`.
pub open spec fn relative_days(text: Seq<char>) -> Option<u64> {
    days_scan(words(text), 0)
}

pub fn extract_relative_days(text: &str) -> (r: Option<u64>)
    ensures
        r == relative_days(text@),
{
    let tv = chars_of(text);
    let tokens = split_whitespace(&tv);
    let ghost tk = views(tokens@);
    let mut idx: usize = 0;
    while idx < tokens.len()
        invariant
            idx <= tokens.len(),
            tk == views(tokens@),
            tk == words(text@),
            days_scan(tk, 0) == days_scan(tk, idx as int),
        decreases tokens.len() - idx,
    {
        let unit = to_lower(&keep_alpha(&tokens[idx]));
        if !starts_with_chars(&unit, &chars_of("day")) {
            idx = idx + 1;
            continue;
        }
        if idx == 0 {
            return None;
        }
        let value_raw = to_lower(&keep_alnum(&tokens[idx - 1]));
        if chars_eq_str(&value_raw, "a") || chars_eq_str(&value_raw, "an") {
            return Some(1);
        }
        if let Some(days) = parse_u64_chars(&value_raw) {
            return Some(days);
        }
        idx = idx + 1;
    }
    None
}

/// Whether a relative posted age is recent enough for the day limit. With a
/// limit of one day only hour-level ages pass.
pub open spec fn posted_within(raw: Seq<char>, day_limit: u64) -> bool {
    let text = lower(trim(raw));
    if text.len() == 0 {
        true
    } else if day_limit <= 1 {
        contains(text, "hour"@)
    } else if contains(text, "hour"@) || contains(text, "minute"@) || contains(text, "just now"@) {
        true
    } else if contains(text, "today"@) {
        true
    } else if contains(text, "yesterday"@) {
        1 < day_limit
    } else {
        match relative_days(text) {
            None => true,
            Some(d) => d < day_limit,
        }
    }
}

pub fn is_posted_age_within_limit(posted_age_text: &str, day_limit: u64) -> (r: bool)
    ensures
        r == posted_within(posted_age_text@, day_limit),
{
    let raw = chars_of(posted_age_text);
    let text = to_lower(&trim_chars(&raw));
    if text.len() == 0 {
        return true;
    }
    if day_limit <= 1 {
        return contains_str(&text, "hour");
    }
    if contains_str(&text, "hour") || contains_str(&text, "minute") || contains_str(
        &text,
        "just now",
    ) {
        return true;
    }
    if contains_str(&text, "today") {
        return true;
    }
    if contains_str(&text, "yesterday") {
        return 1 < day_limit;
    }
    let ts = string_of(&text);
    match extract_relative_days(ts.as_str()) {
        None => true,
        Some(days_old) => days_old < day_limit,
    }
}

/// What the LinkedIn card pre-filter does with a search card.
pub enum SearchCardPrefilterAction {
    /// Skip this card and keep scanning the page.
    Skip { reason: String },
    /// Stop scanning this tab: cards are ordered newest first.
    TerminateTab { reason: String },
}

/// `(terminates the tab, reason)` of an action.
pub open spec fn action_view(a: Option<SearchCardPrefilterAction>) -> Option<(bool, Seq<char>)> {
    match a {
        None => None,
        Some(SearchCardPrefilterAction::Skip { reason }) => Some((false, reason@)),
        Some(SearchCardPrefilterAction::TerminateTab { reason }) => Some((true, reason@)),
    }
}

/// Cards without a posted age are skipped; the first card older than the
/// recency limit terminates the tab.
pub open spec fn linkedin_action(day_limit: u64, posted: Option<Seq<char>>) -> Option<
    (bool, Seq<char>),
> {
    match posted {
        None => Some((false, "linkedin_posted_age_missing"@)),
        Some(p) => if trim(p).len() == 0 {
            Some((false, "linkedin_posted_age_missing"@))
        } else if !posted_within(p, day_limit) {
            Some((true, "linkedin_posted_not_less_than_"@ + decimal(day_limit as nat) + "d"@))
        } else {
            None
        },
    }
}

pub fn linkedin_prefilter_action(filters: &FiltersConfig, card: &SearchCardData) -> (r: Option<
    SearchCardPrefilterAction,
>)
    ensures
        action_view(r) == linkedin_action(
            filters.recent_posted_within_days,
            opt_view(card.posted_age_text),
        ),
{
    let posted_age_text = match &card.posted_age_text {
        Some(p) => p,
        None => {
            return Some(
                SearchCardPrefilterAction::Skip {
                    reason: string_of(&chars_of("linkedin_posted_age_missing")),
                },
            );
        },
    };
    let pv = chars_of(posted_age_text.as_str());
    if trim_chars(&pv).len() == 0 {
        return Some(
            SearchCardPrefilterAction::Skip {
                reason: string_of(&chars_of("linkedin_posted_age_missing")),
            },
        );
    }
    if !is_posted_age_within_limit(posted_age_text.as_str(), filters.recent_posted_within_days) {
        let mut reason = chars_of("linkedin_posted_not_less_than_");
        append_chars(&mut reason, &u64_decimal(filters.recent_posted_within_days));
        reason.push('d');
        assert(reason@ =~= "linkedin_posted_not_less_than_"@ + decimal(
            filters.recent_posted_within_days as nat,
        ) + "d"@) by {
            reveal_strlit("d");
        }
        return Some(SearchCardPrefilterAction::TerminateTab { reason: string_of(&reason) });
    }
    None
}

// ---------------------------------------------------------------------------
// Company and title fallbacks
// ---------------------------------------------------------------------------

/// Leading `www.` prefixes removed (`trim_start_matches("www.")`).
pub open spec fn strip_www(s: Seq<char>) -> Seq<char>
    decreases s.len(),
{
    if s.len() >= 4 && starts_with(s, "www."@) {
        strip_www(s.skip(4))
    } else {
        s
    }
}

/// The text before the first `.`.
pub open spec fn before_dot(s: Seq<char>) -> Seq<char>
    decreases s.len(),
{
    if s.len() == 0 || s[0] == '.' {
        seq![]
    } else {
        seq![s[0]] + before_dot(s.drop_first())
    }
}

pub open spec fn is_dash(c: char) -> bool {
    c == '-' || c == '_'
}

/// The non-empty pieces between `-` and `_` separators.
pub open spec fn dash_parts(s: Seq<char>) -> Seq<Seq<char>>
    decreases s.len(),
{
    if s.len() == 0 {
        seq![]
    } else {
        let prev = dash_parts(s.drop_last());
        let c = s.last();
        if is_dash(c) {
            prev
        } else if s.len() >= 2 && !is_dash(s[s.len() - 2]) {
            prev.drop_last().push(prev.last().push(c))
        } else {
            prev.push(seq![c])
        }
    }
}

/// First character upper-cased (ASCII).
pub open spec fn capitalize(w: Seq<char>) -> Seq<char> {
    if w.len() == 0 {
        seq![]
    } else {
        seq![upper_char(w[0])] + w.drop_first()
    }
}

/// Display name guessed from a company domain: `www.` stripped, the first
/// label split on `-`/`_`, each piece capitalized, joined by spaces.
pub open spec fn company_from_domain(domain: Seq<char>) -> Seq<char> {
    let parts = dash_parts(before_dot(strip_www(trim(domain))));
    if parts.len() == 0 {
        "Unknown Company"@
    } else {
        join(Seq::new(parts.len(), |i: int| capitalize(parts[i])), " "@)
    }
}

fn split_dashes(s: &Vec<char>) -> (r: Vec<Vec<char>>)
    ensures
        views(r@) == dash_parts(s@),
{
    let mut out: Vec<Vec<char>> = Vec::new();
    let mut cur: Vec<char> = Vec::new();
    let mut i: usize = 0;
    while i < s.len()
        invariant
            i <= s.len(),
            dash_parts(s@.take(i as int)) == (if cur@.len() > 0 {
                views(out@).push(cur@)
            } else {
                views(out@)
            }),
            cur@.len() > 0 <==> (i > 0 && !is_dash(s@[i - 1])),
        decreases s.len() - i,
    {
        let c = s[i];
        let ghost pre = s@.take(i as int);
        let ghost nxt = s@.take(i + 1);
        proof {
            assert(nxt.drop_last() =~= pre);
            assert(nxt.last() == c);
            if i > 0 {
                assert(nxt[nxt.len() - 2] == s@[i - 1]);
            }
        }
        if c == '-' || c == '_' {
            if cur.len() > 0 {
                let ghost od = views(out@);
                out.push(cur);
                proof {
                    assert(views(out@) =~= od.push(cur@));
                }
                cur = Vec::new();
            }
        } else {
            if cur.len() > 0 {
                let ghost od = views(out@);
                let ghost oc = cur@;
                cur.push(c);
                proof {
                    let prev = od.push(oc);
                    assert(prev.drop_last() =~= od);
                    assert(dash_parts(nxt) =~= od.push(oc.push(c)));
                }
            } else {
                cur.push(c);
                proof {
                    assert(cur@ =~= seq![c]);
                }
            }
        }
        i = i + 1;
    }
    assert(s@.take(i as int) =~= s@);
    if cur.len() > 0 {
        let ghost od = views(out@);
        out.push(cur);
        proof {
            assert(views(out@) =~= od.push(cur@));
        }
    }
    out
}

fn strip_www_chars(s: &Vec<char>) -> (r: Vec<char>)
    ensures
        r@ == strip_www(s@),
{
    let www = chars_of("www.");
    proof {
        reveal_strlit("www.");
    }
    let mut i: usize = 0;
    assert(s@.skip(0) =~= s@);
    while s.len() - i >= 4 && starts_with_chars(&crate::text::skip_chars(s, i), &www)
        invariant
            i <= s.len(),
            www@ == "www."@,
            "www."@.len() == 4,
            strip_www(s@) == strip_www(s@.skip(i as int)),
        decreases s.len() - i,
    {
        proof {
            assert(s@.skip(i as int).skip(4) =~= s@.skip(i + 4));
        }
        i = i + 4;
    }
    crate::text::skip_chars(s, i)
}

fn before_dot_chars(s: &Vec<char>) -> (r: Vec<char>)
    ensures
        r@ == before_dot(s@),
{
    let mut r: Vec<char> = Vec::new();
    let mut i: usize = 0;
    assert(s@.skip(0) =~= s@);
    while i < s.len() && s[i] != '.'
        invariant
            i <= s.len(),
            r@ + before_dot(s@.skip(i as int)) == before_dot(s@),
        decreases s.len() - i,
    {
        let ghost rest = s@.skip(i as int);
        proof {
            assert(rest[0] == s@[i as int]);
            assert(rest.drop_first() =~= s@.skip(i + 1));
        }
        let ghost before = r@;
        r.push(s[i]);
        proof {
            assert(r@ + before_dot(s@.skip(i + 1)) =~= before + (seq![s@[i as int]] + before_dot(
                rest.drop_first(),
            )));
        }
        i = i + 1;
    }
    proof {
        assert(before_dot(s@.skip(i as int)) =~= seq![]);
    }
    assert(r@ + seq![] =~= r@);
    r
}

pub fn domain_to_company_name(domain: &str) -> (r: String)
    ensures
        r@ == company_from_domain(domain@),
{
    let d = chars_of(domain);
    let core = before_dot_chars(&strip_www_chars(&trim_chars(&d)));
    let parts = split_dashes(&core);
    if parts.len() == 0 {
        return string_of(&chars_of("Unknown Company"));
    }
    let ghost ps = views(parts@);
    let mut caps: Vec<Vec<char>> = Vec::new();
    let mut i: usize = 0;
    while i < parts.len()
        invariant
            i <= parts.len(),
            ps == views(parts@),
            views(caps@) =~= Seq::new(ps.len(), |k: int| capitalize(ps[k])).take(i as int),
        decreases parts.len() - i,
    {
        let w = &parts[i];
        let mut c: Vec<char> = Vec::new();
        if w.len() > 0 {
            c.push(char_to_ascii_upper(w[0]));
            let tail = crate::text::skip_chars(w, 1);
            append_chars(&mut c, &tail);
            assert(c@ =~= capitalize(w@));
        } else {
            assert(c@ =~= capitalize(w@));
        }
        let ghost before = caps@;
        caps.push(c);
        proof {
            assert(views(caps@) =~= views(before).push(c@));
        }
        i = i + 1;
    }
    assert(Seq::new(ps.len(), |k: int| capitalize(ps[k])).take(i as int) =~= Seq::new(
        ps.len(),
        |k: int| capitalize(ps[k]),
    ));
    string_of(&join_chars(&caps, &chars_of(" ")))
}

/// Placeholder title for a job URL without an extracted title.
pub open spec fn title_from_url(url: Seq<char>) -> Seq<char> {
    if contains(lower(url), "linkedin.com"@) {
        "LinkedIn Job Posting"@
    } else if contains(lower(url), "indeed.com"@) {
        "Indeed Job Posting"@
    } else {
        "Job Posting"@
    }
}

pub fn infer_title_from_url(url: &str) -> (r: String)
    ensures
        r@ == title_from_url(url@),
{
    let lowered = to_lower(&chars_of(url));
    if contains_str(&lowered, "linkedin.com") {
        return string_of(&chars_of("LinkedIn Job Posting"));
    }
    if contains_str(&lowered, "indeed.com") {
        return string_of(&chars_of("Indeed Job Posting"));
    }
    string_of(&chars_of("Job Posting"))
}

/// The normalized search-card title if non-empty, else the normalized
/// extracted title if non-empty, else a placeholder for the URL.
pub open spec fn resolved_title(seed: Option<Seq<char>>, extracted: Seq<char>, url: Seq<char>) -> Seq<
    char,
> {
    if seed is Some && normalize_ws(seed->0).len() > 0 {
        normalize_ws(seed->0)
    } else if normalize_ws(extracted).len() > 0 {
        normalize_ws(extracted)
    } else {
        title_from_url(url)
    }
}

pub fn resolve_job_title(seed_title: Option<&str>, extracted_title: &str, canonical_url: &str) -> (r:
    String)
    ensures
        r@ == resolved_title(
            match seed_title {
                Some(s) => Some(s@),
                None => None,
            },
            extracted_title@,
            canonical_url@,
        ),
{
    if let Some(t) = seed_title {
        let card_title = normalize_whitespace(t);
        if card_title.as_str().unicode_len() > 0 {
            return card_title;
        }
    }
    let normalized = normalize_whitespace(extracted_title);
    if normalized.as_str().unicode_len() > 0 {
        return normalized;
    }
    infer_title_from_url(canonical_url)
}

// ---------------------------------------------------------------------------
// Report rows
// ---------------------------------------------------------------------------

/// A rejected row: only title, URL, page and reason are known.
pub open spec fn rejected_row(
    title: Seq<char>,
    canonical_url: Seq<char>,
    page: i64,
    reason: Seq<char>,
) -> ReportRowView {
    ReportRowView {
        title,
        source_page_index: page,
        company: None,
        canonical_url,
        status: "not_opportunity"@,
        summary: reason,
        location: None,
        language: None,
        work_mode: None,
        employment_type: None,
        posted_text: None,
        compensation_text: None,
        visa_policy_text: None,
        description: None,
        company_summary: None,
        company_size: None,
        requirements: seq![],
    }
}

pub fn build_rejected_report_row(
    title: String,
    canonical_url: String,
    source_page_index: i64,
    reason: String,
) -> (r: ReportRow)
    ensures
        r@ == rejected_row(title@, canonical_url@, source_page_index, reason@),
{
    let r = ReportRow {
        title,
        source_page_index,
        company: None,
        canonical_url,
        status: string_of(&chars_of("not_opportunity")),
        summary: reason,
        location: None,
        language: None,
        work_mode: None,
        employment_type: None,
        posted_text: None,
        compensation_text: None,
        visa_policy_text: None,
        description: None,
        company_summary: None,
        company_size: None,
        requirements: Vec::new(),
    };
    assert(strs(r.requirements@) =~= seq![]);
    r
}

/// A row for a seed whose extraction or classification failed.
pub open spec fn failed_row(
    title: Seq<char>,
    canonical_url: Seq<char>,
    page: i64,
    error: Seq<char>,
) -> ReportRowView {
    ReportRowView {
        title,
        source_page_index: page,
        company: None,
        canonical_url,
        status: "failed"@,
        summary: "Failed extraction/classification: "@ + error,
        location: None,
        language: None,
        work_mode: None,
        employment_type: None,
        posted_text: None,
        compensation_text: None,
        visa_policy_text: None,
        description: None,
        company_summary: None,
        company_size: None,
        requirements: seq![],
    }
}

pub fn build_failed_report_row(
    title: String,
    canonical_url: String,
    source_page_index: i64,
    error: &str,
) -> (r: ReportRow)
    ensures
        r@ == failed_row(title@, canonical_url@, source_page_index, error@),
{
    let mut summary = chars_of("Failed extraction/classification: ");
    append_str(&mut summary, error);
    let r = ReportRow {
        title,
        source_page_index,
        company: None,
        canonical_url,
        status: string_of(&chars_of("failed")),
        summary: string_of(&summary),
        location: None,
        language: None,
        work_mode: None,
        employment_type: None,
        posted_text: None,
        compensation_text: None,
        visa_policy_text: None,
        description: None,
        company_summary: None,
        company_size: None,
        requirements: Vec::new(),
    };
    assert(strs(r.requirements@) =~= seq![]);
    r
}

/// The report projection of a persisted record.
pub open spec fn row_of_record(r: crate::job::JobRecordView) -> ReportRowView {
    ReportRowView {
        title: r.title,
        source_page_index: r.source_page_index,
        company: Some(r.company),
        canonical_url: r.canonical_url,
        status: status_name(r.status),
        summary: r.status_reason,
        location: r.location,
        language: r.language,
        work_mode: r.work_mode,
        employment_type: r.employment_type,
        posted_text: r.posted_text,
        compensation_text: r.compensation_text,
        visa_policy_text: r.visa_policy_text,
        description: Some(r.description),
        company_summary: Some(r.company_summary),
        company_size: r.company_size,
        requirements: r.requirements,
    }
}

pub fn report_row_from_record(record: &JobRecord) -> (r: ReportRow)
    ensures
        r@ == row_of_record(record@),
{
    ReportRow {
        title: copy_string(&record.title),
        source_page_index: record.source_page_index,
        company: Some(copy_string(&record.company)),
        canonical_url: copy_string(&record.canonical_url),
        status: string_of(&chars_of(record.status.as_str())),
        summary: copy_string(&record.status_reason),
        location: copy_opt_string(&record.location),
        language: copy_opt_string(&record.language),
        work_mode: copy_opt_string(&record.work_mode),
        employment_type: copy_opt_string(&record.employment_type),
        posted_text: copy_opt_string(&record.posted_text),
        compensation_text: copy_opt_string(&record.compensation_text),
        visa_policy_text: copy_opt_string(&record.visa_policy_text),
        description: Some(copy_string(&record.description)),
        company_summary: Some(copy_string(&record.company_summary)),
        company_size: copy_opt_string(&record.company_size),
        requirements: copy_strings(record.requirements.as_slice()),
    }
}

/// Hands out the next scan order index.
pub fn next_scan_order(next_order_index: &mut usize) -> (r: usize)
    requires
        *old(next_order_index) < usize::MAX,
    ensures
        r == *old(next_order_index),
        *final(next_order_index) == *old(next_order_index) + 1,
{
    let order = *next_order_index;
    *next_order_index = *next_order_index + 1;
    order
}

// ---------------------------------------------------------------------------
// Seeds and search-tab scanning
// ---------------------------------------------------------------------------

/// A job detail page queued for extraction.
pub struct JobSeed {
    pub order_index: usize,
    pub platform: PlatformKind,
    pub source_tab_url: String,
    pub page_index: i64,
    pub url: String,
    pub pre_title: Option<String>,
    pub pre_match_reason: String,
}

/// Mathematical value of a `JobSeed`.
pub struct JobSeedView {
    pub order_index: usize,
    pub platform: PlatformKind,
    pub source_tab_url: Seq<char>,
    pub page_index: i64,
    pub url: Seq<char>,
    pub pre_title: Option<Seq<char>>,
    pub pre_match_reason: Seq<char>,
}

impl View for JobSeed {
    type V = JobSeedView;

    open spec fn view(&self) -> JobSeedView {
        JobSeedView {
            order_index: self.order_index,
            platform: self.platform,
            source_tab_url: self.source_tab_url@,
            page_index: self.page_index,
            url: self.url@,
            pre_title: opt_view(self.pre_title),
            pre_match_reason: self.pre_match_reason@,
        }
    }
}

/// The seed for a tab that already shows a job: opened as it is, counted as
/// page 1, with no title known before opening.
pub fn detail_tab_seed(next_order_index: &mut usize, platform: PlatformKind, tab_url: &String) -> (r:
    JobSeed)
    requires
        *old(next_order_index) < usize::MAX,
    ensures
        r@ == (JobSeedView {
            order_index: *old(next_order_index),
            platform,
            source_tab_url: tab_url@,
            page_index: 1,
            url: tab_url@,
            pre_title: None,
            pre_match_reason: "manual_detail_tab"@,
        }),
        *final(next_order_index) == *old(next_order_index) + 1,
{
    let order = next_scan_order(next_order_index);
    JobSeed {
        order_index: order,
        platform,
        source_tab_url: copy_string(tab_url),
        page_index: 1,
        url: copy_string(tab_url),
        pre_title: None,
        pre_match_reason: string_of(&chars_of("manual_detail_tab")),
    }
}

pub open spec fn seed_views(v: Seq<JobSeed>) -> Seq<JobSeedView> {
    Seq::new(v.len(), |i: int| v[i]@)
}

pub open spec fn ordered_row_views(v: Seq<(usize, ReportRow)>) -> Seq<(usize, ReportRowView)> {
    Seq::new(v.len(), |i: int| (v[i].0, v[i].1@))
}

pub open spec fn card_views(v: Seq<SearchCardData>) -> Seq<SearchCardView> {
    Seq::new(v.len(), |i: int| v[i]@)
}

/// Seeds and rejected rows collected from one search tab.
pub struct SearchTabScanResult {
    pub seeds: Vec<JobSeed>,
    pub report_rows: Vec<(usize, ReportRow)>,
}

fn copy_card(c: &SearchCardData) -> (r: SearchCardData)
    ensures
        r@ == c@,
{
    SearchCardData {
        title: copy_string(&c.title),
        job_url: copy_string(&c.job_url),
        footer_items: copy_strings(c.footer_items.as_slice()),
        posted_age_text: copy_opt_string(&c.posted_age_text),
    }
}

/// The cards of a search snapshot; when it found no cards, one untitled card
/// per job link.
pub open spec fn page_cards(cards: Seq<SearchCardView>, links: Seq<Seq<char>>) -> Seq<
    SearchCardView,
> {
    if cards.len() == 0 {
        Seq::new(
            links.len(),
            |i: int|
                SearchCardView {
                    title: seq![],
                    job_url: links[i],
                    footer_items: seq![],
                    posted_age_text: None,
                },
        )
    } else {
        cards
    }
}

pub fn cards_for_page(snapshot: &SearchPageData) -> (r: Vec<SearchCardData>)
    ensures
        card_views(r@) == page_cards(card_views(snapshot.job_cards@), strs(snapshot.job_links@)),
{
    let mut out: Vec<SearchCardData> = Vec::new();
    let mut i: usize = 0;
    if snapshot.job_cards.len() == 0 {
        let ghost target = page_cards(card_views(snapshot.job_cards@), strs(snapshot.job_links@));
        while i < snapshot.job_links.len()
            invariant
                i <= snapshot.job_links.len(),
                snapshot.job_cards@.len() == 0,
                target == page_cards(card_views(snapshot.job_cards@), strs(snapshot.job_links@)),
                card_views(out@) =~= target.take(i as int),
            decreases snapshot.job_links.len() - i,
        {
            let card = SearchCardData {
                title: String::new(),
                job_url: copy_string(&snapshot.job_links[i]),
                footer_items: Vec::new(),
                posted_age_text: None,
            };
            assert(card@.footer_items =~= seq![]);
            let ghost before = out@;
            out.push(card);
            proof {
                assert(card_views(out@) =~= card_views(before).push(card@));
            }
            i = i + 1;
        }
        assert(target.take(i as int) =~= target);
    } else {
        while i < snapshot.job_cards.len()
            invariant
                i <= snapshot.job_cards.len(),
                card_views(out@) =~= card_views(snapshot.job_cards@).take(i as int),
            decreases snapshot.job_cards.len() - i,
        {
            let card = copy_card(&snapshot.job_cards[i]);
            let ghost before = out@;
            out.push(card);
            proof {
                assert(card_views(out@) =~= card_views(before).push(card@));
            }
            i = i + 1;
        }
    }
    out
}

/// Per-tab memory while scanning search pages.
pub struct SearchTabState {
    pub result: SearchTabScanResult,
    pub seen_links: Vec<String>,
    pub seen_fingerprints: Vec<String>,
}

impl SearchTabState {
    pub fn new() -> (r: Self)
        ensures
            r.result.seeds@.len() == 0,
            r.result.report_rows@.len() == 0,
            r.seen_links@.len() == 0,
            r.seen_fingerprints@.len() == 0,
    {
        SearchTabState {
            result: SearchTabScanResult { seeds: Vec::new(), report_rows: Vec::new() },
            seen_links: Vec::new(),
            seen_fingerprints: Vec::new(),
        }
    }
}

fn string_in(v: &Vec<String>, s: &String) -> (r: bool)
    ensures
        r == strs(v@).contains(s@),
{
    let sv = chars_of(s.as_str());
    let mut i: usize = 0;
    while i < v.len()
        invariant
            i <= v.len(),
            sv@ == s@,
            forall|k: int| 0 <= k < i ==> strs(v@)[k] != s@,
        decreases v.len() - i,
    {
        if crate::text::chars_eq(&chars_of(v[i].as_str()), &sv) {
            assert(strs(v@)[i as int] == s@);
            return true;
        }
        i = i + 1;
    }
    false
}

fn push_string(v: &mut Vec<String>, s: String)
    ensures
        strs(final(v)@) == strs(old(v)@).push(s@),
{
    let ghost before = v@;
    v.push(s);
    assert(strs(v@) =~= strs(before).push(s@));
}

/// Whether registering `fp` after the fingerprints `seen` stops the crawl.
pub open spec fn page_repeat_stops(seen: Seq<Seq<char>>, stop_on_repeat: bool, fp: Seq<char>) -> bool {
    stop_on_repeat && seen.contains(fp)
}

/// The fingerprints remembered after registering `fp`.
pub open spec fn fingerprints_after(
    seen: Seq<Seq<char>>,
    stop_on_repeat: bool,
    fp: Seq<char>,
) -> Seq<Seq<char>> {
    if stop_on_repeat && !seen.contains(fp) {
        seen.push(fp)
    } else {
        seen
    }
}

/// With repeat detection on, a page met a second time in one tab stops the
/// crawl, whatever came before it.
pub proof fn repeated_page_stops(seen: Seq<Seq<char>>, fp: Seq<char>)
    ensures
        page_repeat_stops(fingerprints_after(seen, true, fp), true, fp),
{
    if !seen.contains(fp) {
        assert(seen.push(fp)[seen.len() as int] == fp);
    }
}

/// Records a page fingerprint. With repeat detection on, a fingerprint seen
/// before in this tab means the crawl is looping and must stop; a new one
/// is remembered.
pub fn register_page_fingerprint(
    state: &mut SearchTabState,
    stop_on_repeat_pages: bool,
    fingerprint: &String,
) -> (stop: bool)
    ensures
        stop == page_repeat_stops(
            strs(old(state).seen_fingerprints@),
            stop_on_repeat_pages,
            fingerprint@,
        ),
        strs(final(state).seen_fingerprints@) == fingerprints_after(
            strs(old(state).seen_fingerprints@),
            stop_on_repeat_pages,
            fingerprint@,
        ),
        final(state).result == old(state).result,
        final(state).seen_links == old(state).seen_links,
{
    if !stop_on_repeat_pages {
        return false;
    }
    if string_in(&state.seen_fingerprints, fingerprint) {
        return true;
    }
    push_string(&mut state.seen_fingerprints, copy_string(fingerprint));
    false
}

/// Title shown for a card rejected before its page was opened.
pub open spec fn title_or_unknown(t: Seq<char>) -> Seq<char> {
    if trim(t).len() == 0 {
        "Unknown title"@
    } else {
        t
    }
}

/// Title shown for a card rejected after its URL was canonicalized.
pub open spec fn title_or_inferred(t: Seq<char>, canonical: Seq<char>) -> Seq<char> {
    if trim(t).len() == 0 {
        title_from_url(canonical)
    } else {
        t
    }
}

fn title_or_unknown_string(t: &String) -> (r: String)
    ensures
        r@ == title_or_unknown(t@),
{
    if trim_chars(&chars_of(t.as_str())).len() == 0 {
        string_of(&chars_of("Unknown title"))
    } else {
        copy_string(t)
    }
}

fn title_or_inferred_string(t: &String, canonical: &String) -> (r: String)
    ensures
        r@ == title_or_inferred(t@, canonical@),
{
    if trim_chars(&chars_of(t.as_str())).len() == 0 {
        infer_title_from_url(canonical.as_str())
    } else {
        copy_string(t)
    }
}

fn prefixed(prefix: &str, text: &String) -> (r: String)
    ensures
        r@ == prefix@ + text@,
{
    let mut v = chars_of(prefix);
    append_str(&mut v, text.as_str());
    string_of(&v)
}

fn push_row(
    rows: &mut Vec<(usize, ReportRow)>,
    next_order_index: &mut usize,
    row: ReportRow,
)
    requires
        *old(next_order_index) < usize::MAX,
    ensures
        ordered_row_views(final(rows)@) == ordered_row_views(old(rows)@).push(
            (*old(next_order_index), row@),
        ),
        *final(next_order_index) == *old(next_order_index) + 1,
{
    let order = next_scan_order(next_order_index);
    let ghost before = rows@;
    rows.push((order, row));
    assert(ordered_row_views(rows@) =~= ordered_row_views(before).push((order, row@)));
}

/// Result of the checks on a search card that need no history lookup.
pub enum CardPrecheck {
    /// A rejected row was recorded; go on with the next card.
    Skipped,
    /// A rejected row was recorded and the tab must not be scanned further.
    Terminate,
    /// The card passed; its canonical URL must be looked up in history.
    Lookup { canonical: String },
}

/// LinkedIn recency pre-filter of one search card.
pub fn card_precheck(
    filters: &FiltersConfig,
    card: &SearchCardData,
    is_linkedin: bool,
    page_index: i64,
    state: &mut SearchTabState,
    next_order_index: &mut usize,
) -> (r: CardPrecheck)
    requires
        *old(next_order_index) < usize::MAX,
    ensures
        final(state).seen_links == old(state).seen_links,
        final(state).seen_fingerprints == old(state).seen_fingerprints,
        final(state).result.seeds == old(state).result.seeds,
        ({
            let action = if is_linkedin {
                linkedin_action(filters.recent_posted_within_days, opt_view(card.posted_age_text))
            } else {
                None
            };
            match action {
                Some((terminate, reason)) => {
                    &&& (if terminate {
                        r is Terminate
                    } else {
                        r is Skipped
                    })
                    &&& ordered_row_views(final(state).result.report_rows@) == ordered_row_views(
                        old(state).result.report_rows@,
                    ).push(
                        (
                            *old(next_order_index),
                            rejected_row(
                                title_or_unknown(card.title@),
                                canonical_url(card.job_url@),
                                page_index,
                                "Rejected at prefilter: "@ + reason,
                            ),
                        ),
                    )
                    &&& *final(next_order_index) == *old(next_order_index) + 1
                },
                None => {
                    &&& r matches CardPrecheck::Lookup { canonical } && canonical@ == canonical_url(
                        card.job_url@,
                    )
                    &&& final(state).result.report_rows == old(state).result.report_rows
                    &&& *final(next_order_index) == *old(next_order_index)
                },
            }
        }),
{
    if is_linkedin {
        if let Some(action) = linkedin_prefilter_action(filters, card) {
            let title = title_or_unknown_string(&card.title);
            let canonical = canonicalize_url(card.job_url.as_str());
            match action {
                SearchCardPrefilterAction::Skip { reason } => {
                    let row = build_rejected_report_row(
                        title,
                        canonical,
                        page_index,
                        prefixed("Rejected at prefilter: ", &reason),
                    );
                    push_row(&mut state.result.report_rows, next_order_index, row);
                    return CardPrecheck::Skipped;
                },
                SearchCardPrefilterAction::TerminateTab { reason } => {
                    let row = build_rejected_report_row(
                        title,
                        canonical,
                        page_index,
                        prefixed("Rejected at prefilter: ", &reason),
                    );
                    push_row(&mut state.result.report_rows, next_order_index, row);
                    return CardPrecheck::Terminate;
                },
            }
        }
    }
    CardPrecheck::Lookup { canonical: canonicalize_url(card.job_url.as_str()) }
}

/// What became of a search card after its history lookup.
pub enum CardOutcome {
    /// Queued as a seed.
    Queued,
    /// Rejected; go on with the next card.
    Skipped,
    /// Already processed in an earlier scan: stop scanning this tab.
    StopOnSeen,
}

/// History, duplicate and title checks of one search card; queues a seed
/// when all pass.
#[verifier::rlimit(30)]
pub fn card_after_lookup(
    filters: &FiltersConfig,
    card: SearchCardData,
    canonical: String,
    seen_in_history: bool,
    page_index: i64,
    tab_url: &String,
    platform: PlatformKind,
    state: &mut SearchTabState,
    next_order_index: &mut usize,
) -> (r: CardOutcome)
    requires
        *old(next_order_index) < usize::MAX,
    ensures
        final(state).seen_fingerprints == old(state).seen_fingerprints,
        *final(next_order_index) == *old(next_order_index) + 1,
        ({
            let rows0 = ordered_row_views(old(state).result.report_rows@);
            let rows1 = ordered_row_views(final(state).result.report_rows@);
            let seeds0 = seed_views(old(state).result.seeds@);
            let seeds1 = seed_views(final(state).result.seeds@);
            let links0 = strs(old(state).seen_links@);
            let links1 = strs(final(state).seen_links@);
            let order = *old(next_order_index);
            let decision = title_decision(
                strs(filters.words_to_avoid_in_title@),
                strs(filters.allowed_title_languages@),
                card.title@,
                language_code(detected_language(card.title@)),
            );
            if seen_in_history {
                &&& r is StopOnSeen
                &&& rows1 == rows0.push(
                    (
                        order,
                        rejected_row(
                            title_or_inferred(card.title@, canonical@),
                            canonical@,
                            page_index,
                            "Rejected: already seen in history"@,
                        ),
                    ),
                )
                &&& seeds1 == seeds0
                &&& links1 == links0
            } else if links0.contains(canonical@) {
                &&& r is Skipped
                &&& rows1 == rows0.push(
                    (
                        order,
                        rejected_row(
                            title_or_inferred(card.title@, canonical@),
                            canonical@,
                            page_index,
                            "Rejected: duplicate in current scan"@,
                        ),
                    ),
                )
                &&& seeds1 == seeds0
                &&& links1 == links0
            } else if !decision.0 {
                &&& r is Skipped
                &&& rows1 == rows0.push(
                    (
                        order,
                        rejected_row(
                            title_or_unknown(card.title@),
                            canonical@,
                            page_index,
                            "Rejected at prefilter: "@ + decision.1,
                        ),
                    ),
                )
                &&& seeds1 == seeds0
                &&& links1 == links0.push(canonical@)
            } else {
                &&& r is Queued
                &&& rows1 == rows0
                &&& seeds1 == seeds0.push(
                    JobSeedView {
                        order_index: order,
                        platform,
                        source_tab_url: tab_url@,
                        page_index,
                        url: card.job_url@,
                        pre_title: if trim(card.title@).len() == 0 {
                            None
                        } else {
                            Some(card.title@)
                        },
                        pre_match_reason: decision.1,
                    },
                )
                &&& links1 == links0.push(canonical@)
            }
        }),
{
    if seen_in_history {
        let title = title_or_inferred_string(&card.title, &canonical);
        let row = build_rejected_report_row(
            title,
            canonical,
            page_index,
            string_of(&chars_of("Rejected: already seen in history")),
        );
        push_row(&mut state.result.report_rows, next_order_index, row);
        return CardOutcome::StopOnSeen;
    }
    if string_in(&state.seen_links, &canonical) {
        let title = title_or_inferred_string(&card.title, &canonical);
        let row = build_rejected_report_row(
            title,
            canonical,
            page_index,
            string_of(&chars_of("Rejected: duplicate in current scan")),
        );
        push_row(&mut state.result.report_rows, next_order_index, row);
        return CardOutcome::Skipped;
    }
    push_string(&mut state.seen_links, copy_string(&canonical));
    let decision = title_pre_match(filters, card.title.as_str());
    if !decision.should_open_detail {
        let title = title_or_unknown_string(&card.title);
        let row = build_rejected_report_row(
            title,
            canonical,
            page_index,
            prefixed("Rejected at prefilter: ", &decision.reason),
        );
        push_row(&mut state.result.report_rows, next_order_index, row);
        return CardOutcome::Skipped;
    }
    let untitled = trim_chars(&chars_of(card.title.as_str())).len() == 0;
    let order = next_scan_order(next_order_index);
    let seed = JobSeed {
        order_index: order,
        platform,
        source_tab_url: copy_string(tab_url),
        page_index,
        url: card.job_url,
        pre_title: if untitled {
            None
        } else {
            Some(card.title)
        },
        pre_match_reason: decision.reason,
    };
    let ghost before = state.result.seeds@;
    state.result.seeds.push(seed);
    assert(seed_views(state.result.seeds@) =~= seed_views(before).push(seed@));
    CardOutcome::Queued
}

/// How a search page ends.
pub enum PageEnd {
    /// A card had already been processed in an earlier scan.
    SeenJob,
    /// The recency pre-filter terminated the tab.
    Terminated,
    /// The configured page limit was reached.
    PageThreshold,
    /// The page has no next page.
    NoNextPage,
    /// Go on with the next page at this URL.
    Advance { next_page_url: String },
}

/// After the cards of page `idx` (counted from 1): stop, or advance.
pub fn page_end_action(
    stop_on_seen_job: bool,
    terminated: bool,
    idx: usize,
    max_pages: usize,
    next_page_url: &Option<String>,
) -> (r: PageEnd)
    ensures
        stop_on_seen_job ==> r is SeenJob,
        !stop_on_seen_job && terminated ==> r is Terminated,
        !stop_on_seen_job && !terminated && idx >= max_pages ==> r is PageThreshold,
        !stop_on_seen_job && !terminated && idx < max_pages ==> match next_page_url {
            None => r is NoNextPage,
            Some(u) => r matches PageEnd::Advance { next_page_url } && next_page_url@ == u@,
        },
{
    if stop_on_seen_job {
        return PageEnd::SeenJob;
    }
    if terminated {
        return PageEnd::Terminated;
    }
    if idx >= max_pages {
        return PageEnd::PageThreshold;
    }
    match next_page_url {
        None => PageEnd::NoNextPage,
        Some(u) => PageEnd::Advance { next_page_url: copy_string(u) },
    }
}

/// What one card of the current page becomes in a development scan.
pub enum DevCardStep {
    /// A rejected row, kept at the card's position.
    Row { order: usize, row: ReportRow },
    /// A seed to open.
    Seed { seed: JobSeed },
    /// The recency pre-filter ended the page.
    Stop,
}

/// Development scan of one card on page 1: the LinkedIn recency pre-filter,
/// then the title pre-filter; no history or duplicate checks.
pub fn dev_card_step(
    filters: &FiltersConfig,
    card: SearchCardData,
    idx: usize,
    is_linkedin: bool,
    tab_url: &String,
    platform: PlatformKind,
) -> (r: DevCardStep)
    ensures
        ({
            let action = if is_linkedin {
                linkedin_action(filters.recent_posted_within_days, opt_view(card.posted_age_text))
            } else {
                None
            };
            let decision = title_decision(
                strs(filters.words_to_avoid_in_title@),
                strs(filters.allowed_title_languages@),
                card.title@,
                language_code(detected_language(card.title@)),
            );
            match action {
                Some((true, _)) => r is Stop,
                Some((false, reason)) => r matches DevCardStep::Row { order, row } && order == idx
                    && row@ == rejected_row(
                    title_or_unknown(card.title@),
                    canonical_url(card.job_url@),
                    1,
                    "Rejected at prefilter: "@ + reason,
                ),
                None => if !decision.0 {
                    r matches DevCardStep::Row { order, row } && order == idx && row@
                        == rejected_row(
                        title_or_unknown(card.title@),
                        canonical_url(card.job_url@),
                        1,
                        "Rejected at prefilter: "@ + decision.1,
                    )
                } else {
                    r matches DevCardStep::Seed { seed } && seed@ == JobSeedView {
                        order_index: idx,
                        platform,
                        source_tab_url: tab_url@,
                        page_index: 1,
                        url: card.job_url@,
                        pre_title: if trim(card.title@).len() == 0 {
                            None
                        } else {
                            Some(card.title@)
                        },
                        pre_match_reason: decision.1,
                    }
                },
            }
        }),
{
    if is_linkedin {
        if let Some(action) = linkedin_prefilter_action(filters, &card) {
            match action {
                SearchCardPrefilterAction::Skip { reason } => {
                    let title = title_or_unknown_string(&card.title);
                    let row = build_rejected_report_row(
                        title,
                        canonicalize_url(card.job_url.as_str()),
                        1,
                        prefixed("Rejected at prefilter: ", &reason),
                    );
                    return DevCardStep::Row { order: idx, row };
                },
                SearchCardPrefilterAction::TerminateTab { reason: _ } => {
                    return DevCardStep::Stop;
                },
            }
        }
    }
    let pre_match = title_pre_match(filters, card.title.as_str());
    if !pre_match.should_open_detail {
        let title = title_or_unknown_string(&card.title);
        let row = build_rejected_report_row(
            title,
            canonicalize_url(card.job_url.as_str()),
            1,
            prefixed("Rejected at prefilter: ", &pre_match.reason),
        );
        return DevCardStep::Row { order: idx, row };
    }
    let untitled = trim_chars(&chars_of(card.title.as_str())).len() == 0;
    DevCardStep::Seed {
        seed: JobSeed {
            order_index: idx,
            platform,
            source_tab_url: copy_string(tab_url),
            page_index: 1,
            url: card.job_url,
            pre_title: if untitled {
                None
            } else {
                Some(card.title)
            },
            pre_match_reason: pre_match.reason,
        },
    }
}

// ---------------------------------------------------------------------------
// Run bookkeeping
// ---------------------------------------------------------------------------

/// Counters of one scan run.
pub struct ScanTally {
    pub total_scanned: usize,
    pub new_jobs: usize,
    pub opportunities: usize,
    pub not_opportunities: usize,
}

impl ScanTally {
    /// Every classified job was scanned, and every new job was scanned.
    pub open spec fn wf(&self) -> bool {
        &&& self.opportunities + self.not_opportunities <= self.total_scanned
        &&& self.new_jobs <= self.total_scanned
    }

    pub fn new() -> (r: Self)
        ensures
            r.wf(),
            r.total_scanned == 0 && r.new_jobs == 0 && r.opportunities == 0 && r.not_opportunities
                == 0,
    {
        ScanTally { total_scanned: 0, new_jobs: 0, opportunities: 0, not_opportunities: 0 }
    }

    /// Cards rejected on search pages count as scanned non-opportunities.
    pub fn record_prefiltered(&mut self, rejected: usize)
        requires
            old(self).wf(),
            old(self).total_scanned + rejected <= usize::MAX,
        ensures
            final(self).wf(),
            final(self).total_scanned == old(self).total_scanned + rejected,
            final(self).not_opportunities == old(self).not_opportunities + rejected,
            final(self).new_jobs == old(self).new_jobs,
            final(self).opportunities == old(self).opportunities,
    {
        self.total_scanned = self.total_scanned + rejected;
        self.not_opportunities = self.not_opportunities + rejected;
    }

    /// A processed seed counts as scanned, new if it was inserted, and as an
    /// opportunity or not.
    pub fn record_outcome(&mut self, is_new: bool, is_opportunity: bool)
        requires
            old(self).wf(),
            old(self).total_scanned < usize::MAX,
        ensures
            final(self).wf(),
            final(self).total_scanned == old(self).total_scanned + 1,
            final(self).new_jobs == old(self).new_jobs + (if is_new {
                1int
            } else {
                0int
            }),
            final(self).opportunities == old(self).opportunities + (if is_opportunity {
                1int
            } else {
                0int
            }),
            final(self).not_opportunities == old(self).not_opportunities + (if is_opportunity {
                0int
            } else {
                1int
            }),
    {
        self.total_scanned = self.total_scanned + 1;
        if is_new {
            self.new_jobs = self.new_jobs + 1;
        }
        if is_opportunity {
            self.opportunities = self.opportunities + 1;
        } else {
            self.not_opportunities = self.not_opportunities + 1;
        }
    }

    /// A seed whose extraction failed still counts as scanned.
    pub fn record_failure(&mut self)
        requires
            old(self).wf(),
            old(self).total_scanned < usize::MAX,
        ensures
            final(self).wf(),
            final(self).total_scanned == old(self).total_scanned + 1,
            final(self).new_jobs == old(self).new_jobs,
            final(self).opportunities == old(self).opportunities,
            final(self).not_opportunities == old(self).not_opportunities,
    {
        self.total_scanned = self.total_scanned + 1;
    }
}

/// Metrics stored when a run finishes.
pub struct RunCompletion {
    pub run_id: i64,
    pub status: String,
    pub total_scanned: usize,
    pub new_jobs: usize,
    pub opportunities: usize,
    pub not_opportunities: usize,
    pub error: Option<String>,
}

/// Completion record of a run: `success` without an error, `failed` with
/// the (already redacted) error message.
pub fn run_completion(run_id: i64, tally: &ScanTally, error: Option<String>) -> (r: RunCompletion)
    ensures
        r.run_id == run_id,
        r.status@ == (if error is Some {
            "failed"@
        } else {
            "success"@
        }),
        r.total_scanned == tally.total_scanned,
        r.new_jobs == tally.new_jobs,
        r.opportunities == tally.opportunities,
        r.not_opportunities == tally.not_opportunities,
        opt_view(r.error) == opt_view(error),
{
    let status = if error.is_some() {
        string_of(&chars_of("failed"))
    } else {
        string_of(&chars_of("success"))
    };
    RunCompletion {
        run_id,
        status,
        total_scanned: tally.total_scanned,
        new_jobs: tally.new_jobs,
        opportunities: tally.opportunities,
        not_opportunities: tally.not_opportunities,
        error,
    }
}

/// Number of rows whose status is `opportunity`.
pub open spec fn opportunity_count(rows: Seq<ReportRowView>) -> nat
    decreases rows.len(),
{
    if rows.len() == 0 {
        0
    } else {
        opportunity_count(rows.drop_last()) + (if rows.last().status == "opportunity"@ {
            1nat
        } else {
            0nat
        })
    }
}

pub open spec fn row_views(v: Seq<ReportRow>) -> Seq<ReportRowView> {
    Seq::new(v.len(), |i: int| v[i]@)
}

pub fn count_opportunities(rows: &Vec<ReportRow>) -> (r: usize)
    ensures
        r == opportunity_count(row_views(rows@)),
        r <= rows@.len(),
{
    let ghost all = row_views(rows@);
    let mut n: usize = 0;
    let mut i: usize = 0;
    while i < rows.len()
        invariant
            i <= rows.len(),
            all == row_views(rows@),
            n == opportunity_count(all.take(i as int)),
            n <= i,
        decreases rows.len() - i,
    {
        proof {
            assert(all.take(i + 1).drop_last() =~= all.take(i as int));
        }
        if chars_eq_str(&chars_of(rows[i].status.as_str()), "opportunity") {
            n = n + 1;
        }
        i = i + 1;
    }
    assert(all.take(i as int) =~= all);
    n
}

// ---------------------------------------------------------------------------
// Detail page processing
// ---------------------------------------------------------------------------

/// Fields the AI extraction adds that the page extraction does not hold.
pub struct AiFields {
    pub language: Option<String>,
    pub work_mode: Option<String>,
    pub compensation_text: Option<String>,
    pub visa_policy_text: Option<String>,
    pub visa_not_sponsored: bool,
}

/// Mathematical value of `AiFields`.
pub struct AiFieldsView {
    pub language: Option<Seq<char>>,
    pub work_mode: Option<Seq<char>>,
    pub compensation_text: Option<Seq<char>>,
    pub visa_policy_text: Option<Seq<char>>,
    pub visa_not_sponsored: bool,
}

impl View for AiFields {
    type V = AiFieldsView;

    open spec fn view(&self) -> AiFieldsView {
        AiFieldsView {
            language: opt_view(self.language),
            work_mode: opt_view(self.work_mode),
            compensation_text: opt_view(self.compensation_text),
            visa_policy_text: opt_view(self.visa_policy_text),
            visa_not_sponsored: self.visa_not_sponsored,
        }
    }
}

impl AiFields {
    /// No AI fields (a dry run skips the AI call).
    pub fn none() -> (r: Self)
        ensures
            r@ == (AiFieldsView {
                language: None,
                work_mode: None,
                compensation_text: None,
                visa_policy_text: None,
                visa_not_sponsored: false,
            }),
    {
        AiFields {
            language: None,
            work_mode: None,
            compensation_text: None,
            visa_policy_text: None,
            visa_not_sponsored: false,
        }
    }
}

pub open spec fn opt_name<T>(v: Option<T>, f: spec_fn(T) -> Seq<char>) -> Option<Seq<char>> {
    match v {
        Some(x) => Some(f(x)),
        None => None,
    }
}

pub open spec fn or_keep<T>(v: Option<T>, keep: T) -> T {
    match v {
        Some(x) => x,
        None => keep,
    }
}

pub open spec fn or_keep_opt<T>(v: Option<T>, keep: Option<T>) -> Option<T> {
    match v {
        Some(x) => Some(x),
        None => keep,
    }
}

/// The extraction after values supplied by the AI replace page values.
pub open spec fn merged_extraction(e: JobExtractionView, d: AiDecision) -> JobExtractionView {
    let flat = flattened_requirements(
        strs(d.requirements.languages@),
        strs(d.requirements.frameworks@),
        strs(d.requirements.tools@),
        strs(d.requirements.databases@),
        strs(d.requirements.cloud@),
        strs(d.requirements.other@),
    );
    JobExtractionView {
        company: or_keep(opt_view(d.company_name), e.company),
        location: or_keep_opt(opt_view(d.location_text), e.location),
        employment_type: or_keep_opt(
            opt_name(d.employment_type, |x: EmploymentType| employment_type_name(x)),
            e.employment_type,
        ),
        description: or_keep(opt_view(d.description), e.description),
        requirements: if flat.len() > 0 {
            flat
        } else {
            e.requirements
        },
        company_summary: or_keep_opt(opt_view(d.company_summary), e.company_summary),
        company_size: or_keep_opt(
            opt_name(d.company_size_text, |x: CompanySize| company_size_name(x)),
            e.company_size,
        ),
        ..e
    }
}

/// Values the AI supplies replace the page's values, field by field; a
/// field the AI leaves out keeps the page's value, and the URL, title,
/// posting text and company domain always stay the page's.
pub proof fn ai_values_replace_page_values(e: JobExtractionView, d: AiDecision)
    ensures
        (d.company_name matches Some(c) ==> merged_extraction(e, d).company == c@),
        (d.company_name is None ==> merged_extraction(e, d).company == e.company),
        (d.location_text matches Some(l) ==> merged_extraction(e, d).location == Some(l@)),
        (d.location_text is None ==> merged_extraction(e, d).location == e.location),
        (d.employment_type matches Some(t) ==> merged_extraction(e, d).employment_type == Some(employment_type_name(t))),
        (d.employment_type is None ==> merged_extraction(e, d).employment_type == e.employment_type),
        (d.description matches Some(x) ==> merged_extraction(e, d).description == x@),
        (d.description is None ==> merged_extraction(e, d).description == e.description),
        (d.company_summary matches Some(x) ==> merged_extraction(e, d).company_summary == Some(x@)),
        (d.company_summary is None ==> merged_extraction(e, d).company_summary == e.company_summary),
        (d.company_size_text matches Some(z) ==> merged_extraction(e, d).company_size == Some(company_size_name(z))),
        (d.company_size_text is None ==> merged_extraction(e, d).company_size == e.company_size),
        merged_extraction(e, d).canonical_url == e.canonical_url,
        merged_extraction(e, d).title == e.title,
        merged_extraction(e, d).posted_text == e.posted_text,
        merged_extraction(e, d).company_domain == e.company_domain,
{
}

/// The AI-only fields of a decision.
pub open spec fn ai_fields_of(d: AiDecision) -> AiFieldsView {
    AiFieldsView {
        language: opt_view(d.language),
        work_mode: opt_name(d.work_mode, |x: WorkMode| work_mode_name(x)),
        compensation_text: opt_view(d.compensation_text),
        visa_policy_text: opt_name(d.visa_policy_text, |x: VisaPolicy| visa_policy_name(x)),
        visa_not_sponsored: d.visa_policy_text == Some(VisaPolicy::VisaNotSponsored),
    }
}

/// The failed row of a seed whose processing failed in a scan: its card
/// title, or a title inferred from its URL; its canonical URL and page.
pub fn failed_seed_row(seed: &JobSeed, error: &str) -> (r: ReportRow)
    ensures
        r@ == failed_row(
            match seed.pre_title {
                Some(t) => t@,
                None => title_from_url(seed.url@),
            },
            canonical_url(seed.url@),
            seed.page_index,
            error@,
        ),
{
    let title = match &seed.pre_title {
        Some(t) => copy_string(t),
        None => infer_title_from_url(seed.url.as_str()),
    };
    build_failed_report_row(title, canonicalize_url(seed.url.as_str()), seed.page_index, error)
}

/// The failed row of a seed whose processing failed in a development scan:
/// its card title, or "Unknown title"; its canonical URL and page.
pub fn failed_dev_seed_row(seed: &JobSeed, error: &str) -> (r: ReportRow)
    ensures
        r@ == failed_row(
            match seed.pre_title {
                Some(t) => t@,
                None => "Unknown title"@,
            },
            canonical_url(seed.url@),
            seed.page_index,
            error@,
        ),
{
    let title = match &seed.pre_title {
        Some(t) => copy_string(t),
        None => string_of(&chars_of("Unknown title")),
    };
    build_failed_report_row(title, canonicalize_url(seed.url.as_str()), seed.page_index, error)
}

/// Merges an (already sanitized) AI decision into the page extraction.
pub fn apply_ai_decision(extraction: &mut JobExtraction, decision: &AiDecision) -> (r: AiFields)
    ensures
        final(extraction)@ == merged_extraction(old(extraction)@, *decision),
        (decision.company_name matches Some(c) ==> final(extraction)@.company == c@),
        (decision.company_name is None ==> final(extraction)@.company == old(extraction)@.company),
        (decision.location_text matches Some(l) ==> final(extraction)@.location == Some(l@)),
        (decision.location_text is None ==> final(extraction)@.location == old(extraction)@.location),
        (decision.employment_type matches Some(t) ==> final(extraction)@.employment_type == Some(employment_type_name(t))),
        (decision.employment_type is None ==> final(extraction)@.employment_type == old(extraction)@.employment_type),
        (decision.description matches Some(x) ==> final(extraction)@.description == x@),
        (decision.description is None ==> final(extraction)@.description == old(extraction)@.description),
        (decision.company_summary matches Some(x) ==> final(extraction)@.company_summary == Some(x@)),
        (decision.company_summary is None ==> final(extraction)@.company_summary == old(extraction)@.company_summary),
        (decision.company_size_text matches Some(z) ==> final(extraction)@.company_size == Some(company_size_name(z))),
        (decision.company_size_text is None ==> final(extraction)@.company_size == old(extraction)@.company_size),
        final(extraction)@.canonical_url == old(extraction)@.canonical_url,
        final(extraction)@.title == old(extraction)@.title,
        final(extraction)@.posted_text == old(extraction)@.posted_text,
        final(extraction)@.company_domain == old(extraction)@.company_domain,
        r@ == ai_fields_of(*decision),
        opt_view(r.language) == opt_view(decision.language),
        opt_view(r.compensation_text) == opt_view(decision.compensation_text),
        r.visa_not_sponsored == (decision.visa_policy_text == Some(VisaPolicy::VisaNotSponsored)),
{
    proof {
        ai_values_replace_page_values(old(extraction)@, *decision);
    }
    if let Some(company_name) = &decision.company_name {
        extraction.company = copy_string(company_name);
    }
    if let Some(location_text) = &decision.location_text {
        extraction.location = Some(copy_string(location_text));
    }
    if let Some(employment_type) = &decision.employment_type {
        extraction.employment_type = Some(employment_type_to_string(employment_type));
    }
    if let Some(description) = &decision.description {
        extraction.description = copy_string(description);
    }
    let ai_requirements = flatten_requirements(&decision.requirements);
    if ai_requirements.len() > 0 {
        extraction.requirements = ai_requirements;
    }
    if let Some(company_summary) = &decision.company_summary {
        extraction.company_summary = Some(copy_string(company_summary));
    }
    if let Some(company_size_text) = &decision.company_size_text {
        extraction.company_size = Some(company_size_to_string(company_size_text));
    }
    let work_mode = match &decision.work_mode {
        Some(w) => Some(work_mode_to_string(w)),
        None => None,
    };
    let visa_policy_text = match &decision.visa_policy_text {
        Some(v) => Some(visa_policy_to_string(v)),
        None => None,
    };
    let visa_not_sponsored = match &decision.visa_policy_text {
        Some(VisaPolicy::VisaNotSponsored) => true,
        _ => false,
    };
    AiFields {
        language: copy_opt_string(&decision.language),
        work_mode,
        compensation_text: copy_opt_string(&decision.compensation_text),
        visa_policy_text,
        visa_not_sponsored,
    }
}

/// Why a detail page could not be turned into a job.
#[derive(Debug, Clone, Copy, PartialEq, Eq, Structural)]
pub enum DetailError {
    /// The page has no about-the-job element to classify.
    MissingAboutJobDom,
    /// No title could be found, even after the fallbacks.
    MissingTitle,
}

impl DetailError {
    /// Message reported for the failure.
    pub fn message(&self) -> (r: String)
        ensures
            r@ == match *self {
                DetailError::MissingAboutJobDom => "detail extraction missing aboutTheJob DOM element"@,
                DetailError::MissingTitle => "extraction missing title after fallback"@,
            },
    {
        match self {
            DetailError::MissingAboutJobDom => string_of(
                &chars_of("detail extraction missing aboutTheJob DOM element"),
            ),
            DetailError::MissingTitle => string_of(
                &chars_of("extraction missing title after fallback"),
            ),
        }
    }
}

/// A page without the about-the-job element cannot be classified.
pub fn check_about_job_dom(dom_element: &String) -> (r: Result<(), DetailError>)
    ensures
        r is Err <==> trim(dom_element@).len() == 0,
        r matches Err(e) ==> e == DetailError::MissingAboutJobDom,
{
    if trim_chars(&chars_of(dom_element.as_str())).len() == 0 {
        Err(DetailError::MissingAboutJobDom)
    } else {
        Ok(())
    }
}

/// Fallback title and company of an extraction.
pub open spec fn completed_extraction(e: JobExtractionView, pre_title: Option<Seq<char>>) -> JobExtractionView {
    JobExtractionView {
        title: if trim(e.title).len() == 0 {
            match pre_title {
                Some(t) => t,
                None => title_from_url(e.canonical_url),
            }
        } else {
            e.title
        },
        company: if trim(e.company).len() == 0 {
            match e.company_domain {
                Some(d) => company_from_domain(d),
                None => "Unknown Company"@,
            }
        } else {
            e.company
        },
        ..e
    }
}

/// Fills a blank title from the search card (or the URL) and a blank
/// company from the company domain; fails when the title is still blank.
pub fn complete_extraction(extraction: &mut JobExtraction, pre_title: &Option<String>) -> (r: Result<
    (),
    DetailError,
>)
    ensures
        final(extraction)@ == completed_extraction(old(extraction)@, opt_view(*pre_title)),
        r is Err <==> trim(final(extraction)@.title).len() == 0,
        r matches Err(e) ==> e == DetailError::MissingTitle,
{
    if trim_chars(&chars_of(extraction.title.as_str())).len() == 0 {
        extraction.title = match pre_title {
            Some(t) => copy_string(t),
            None => infer_title_from_url(extraction.canonical_url.as_str()),
        };
    }
    if trim_chars(&chars_of(extraction.company.as_str())).len() == 0 {
        extraction.company = match &extraction.company_domain {
            Some(d) => domain_to_company_name(d.as_str()),
            None => string_of(&chars_of("Unknown Company")),
        };
    }
    if trim_chars(&chars_of(extraction.title.as_str())).len() == 0 {
        return Err(DetailError::MissingTitle);
    }
    Ok(())
}

/// The hard exclusion that applies: an AI verdict of no sponsorship, else
/// the text rules on the page's own description and requirements.
pub open spec fn effective_hard_reason(
    visa_not_sponsored: bool,
    raw_description: Seq<char>,
    raw_requirements: Seq<Seq<char>>,
) -> Option<Seq<char>> {
    if visa_not_sponsored {
        Some("explicit_no_visa_or_sponsorship"@)
    } else {
        hard_exclusion_reason(raw_description, raw_requirements)
    }
}

/// Reason stored for a job that passed the hard filters.
pub open spec fn passed_reason(dry_run: bool, pre_match_reason: Seq<char>) -> Seq<char> {
    if dry_run {
        if pre_match_reason.len() == 0 {
            "Dry run: AI skipped; passed hard filters"@
        } else {
            "Dry run: AI skipped; passed hard filters; pre_match="@ + pre_match_reason
        }
    } else if pre_match_reason.len() == 0 {
        "Passed hard filters"@
    } else {
        "Passed hard filters; pre_match="@ + pre_match_reason
    }
}

fn passed_reason_string(dry_run: bool, pre_match_reason: &String) -> (r: String)
    ensures
        r@ == passed_reason(dry_run, pre_match_reason@),
{
    let empty = pre_match_reason.as_str().unicode_len() == 0;
    if dry_run {
        if empty {
            string_of(&chars_of("Dry run: AI skipped; passed hard filters"))
        } else {
            prefixed("Dry run: AI skipped; passed hard filters; pre_match=", pre_match_reason)
        }
    } else if empty {
        string_of(&chars_of("Passed hard filters"))
    } else {
        prefixed("Passed hard filters; pre_match=", pre_match_reason)
    }
}

/// The persisted record of a completed extraction.
pub open spec fn job_record_of(
    seed: JobSeedView,
    e: JobExtractionView,
    ai: AiFieldsView,
    hard: Option<Seq<char>>,
    dry_run: bool,
) -> crate::job::JobRecordView {
    crate::job::JobRecordView {
        dedupe_key: sha256_hex(dedupe_source(e.canonical_url, e.company, e.title)),
        canonical_url: e.canonical_url,
        company: e.company,
        title: e.title,
        location: e.location,
        language: ai.language,
        work_mode: ai.work_mode,
        employment_type: e.employment_type,
        posted_text: e.posted_text,
        compensation_text: ai.compensation_text,
        visa_policy_text: ai.visa_policy_text,
        description: e.description,
        requirements: e.requirements,
        source_tab_url: seed.source_tab_url,
        source_page_index: seed.page_index,
        status: if hard is Some {
            crate::job::JobStatus::NotOpportunity
        } else {
            crate::job::JobStatus::Opportunity
        },
        status_reason: match hard {
            Some(h) => "Hard exclusion: "@ + h,
            None => passed_reason(dry_run, seed.pre_match_reason),
        },
        requirements_summary: match hard {
            Some(_) => "Hard exclusion rule matched"@,
            None => requirements_summary(e.requirements),
        },
        company_summary: match e.company_summary {
            Some(c) => c,
            None => "No company summary extracted"@,
        },
        company_size: e.company_size,
    }
}

fn company_summary_or_default(v: &Option<String>) -> (r: String)
    ensures
        r@ == match opt_view(*v) {
            Some(c) => c,
            None => "No company summary extracted"@,
        },
{
    match v {
        Some(c) => copy_string(c),
        None => string_of(&chars_of("No company summary extracted")),
    }
}

fn hard_reason_for(
    filters: &FiltersConfig,
    visa_not_sponsored: bool,
    raw_description: &String,
    raw_requirements: &Vec<String>,
) -> (r: Option<String>)
    ensures
        opt_view(r) == effective_hard_reason(
            visa_not_sponsored,
            raw_description@,
            strs(raw_requirements@),
        ),
{
    if visa_not_sponsored {
        Some(string_of(&chars_of("explicit_no_visa_or_sponsorship")))
    } else {
        hard_exclusion(filters, raw_description.as_str(), raw_requirements.as_slice())
    }
}

/// Builds the record to persist for a detail page: hard-excluded jobs are
/// stored as non-opportunities, all others as opportunities.
pub fn build_job_record(
    filters: &FiltersConfig,
    seed: &JobSeed,
    extraction: &JobExtraction,
    ai: &AiFields,
    raw_description: &String,
    raw_requirements: &Vec<String>,
    dry_run: bool,
) -> (r: JobRecord)
    ensures
        r@ == job_record_of(
            seed@,
            extraction@,
            ai@,
            effective_hard_reason(ai.visa_not_sponsored, raw_description@, strs(raw_requirements@)),
            dry_run,
        ),
{
    let hard = hard_reason_for(filters, ai.visa_not_sponsored, raw_description, raw_requirements);
    let key = dedupe_key(
        extraction.canonical_url.as_str(),
        extraction.company.as_str(),
        extraction.title.as_str(),
    );
    let (status, status_reason, requirements_summary) = match &hard {
        Some(h) => (
            crate::job::JobStatus::NotOpportunity,
            prefixed("Hard exclusion: ", h),
            string_of(&chars_of("Hard exclusion rule matched")),
        ),
        None => (
            crate::job::JobStatus::Opportunity,
            passed_reason_string(dry_run, &seed.pre_match_reason),
            summarize_requirements(extraction.requirements.as_slice()),
        ),
    };
    JobRecord {
        dedupe_key: key,
        canonical_url: copy_string(&extraction.canonical_url),
        company: copy_string(&extraction.company),
        title: copy_string(&extraction.title),
        location: copy_opt_string(&extraction.location),
        language: copy_opt_string(&ai.language),
        work_mode: copy_opt_string(&ai.work_mode),
        employment_type: copy_opt_string(&extraction.employment_type),
        posted_text: copy_opt_string(&extraction.posted_text),
        compensation_text: copy_opt_string(&ai.compensation_text),
        visa_policy_text: copy_opt_string(&ai.visa_policy_text),
        description: copy_string(&extraction.description),
        requirements: copy_strings(extraction.requirements.as_slice()),
        source_tab_url: copy_string(&seed.source_tab_url),
        source_page_index: seed.page_index,
        status,
        status_reason,
        requirements_summary,
        company_summary: company_summary_or_default(&extraction.company_summary),
        company_size: copy_opt_string(&extraction.company_size),
    }
}

/// The report row of a detail page in a development scan (nothing is
/// persisted).
pub open spec fn dev_row_of(
    seed: JobSeedView,
    e: JobExtractionView,
    ai: AiFieldsView,
    hard: Option<Seq<char>>,
    dry_run: bool,
) -> ReportRowView {
    ReportRowView {
        title: e.title,
        source_page_index: seed.page_index,
        company: Some(e.company),
        canonical_url: e.canonical_url,
        status: if hard is Some {
            "not_opportunity"@
        } else {
            "opportunity"@
        },
        summary: match hard {
            Some(h) => "Rejected: hard exclusion ("@ + h + ")"@,
            None => passed_reason(dry_run, seed.pre_match_reason),
        },
        location: e.location,
        language: ai.language,
        work_mode: ai.work_mode,
        employment_type: e.employment_type,
        posted_text: e.posted_text,
        compensation_text: ai.compensation_text,
        visa_policy_text: ai.visa_policy_text,
        description: Some(e.description),
        company_summary: e.company_summary,
        company_size: e.company_size,
        requirements: e.requirements,
    }
}

pub fn build_dev_report_row(
    filters: &FiltersConfig,
    seed: &JobSeed,
    extraction: &JobExtraction,
    ai: &AiFields,
    raw_description: &String,
    raw_requirements: &Vec<String>,
    dry_run: bool,
) -> (r: ReportRow)
    ensures
        r@ == dev_row_of(
            seed@,
            extraction@,
            ai@,
            effective_hard_reason(ai.visa_not_sponsored, raw_description@, strs(raw_requirements@)),
            dry_run,
        ),
{
    let hard = hard_reason_for(filters, ai.visa_not_sponsored, raw_description, raw_requirements);
    let (status, summary) = match &hard {
        Some(h) => {
            let mut v = chars_of("Rejected: hard exclusion (");
            append_str(&mut v, h.as_str());
            append_str(&mut v, ")");
            (string_of(&chars_of("not_opportunity")), string_of(&v))
        },
        None => (
            string_of(&chars_of("opportunity")),
            passed_reason_string(dry_run, &seed.pre_match_reason),
        ),
    };
    ReportRow {
        title: copy_string(&extraction.title),
        source_page_index: seed.page_index,
        company: Some(copy_string(&extraction.company)),
        canonical_url: copy_string(&extraction.canonical_url),
        status,
        summary,
        location: copy_opt_string(&extraction.location),
        language: copy_opt_string(&ai.language),
        work_mode: copy_opt_string(&ai.work_mode),
        employment_type: copy_opt_string(&extraction.employment_type),
        posted_text: copy_opt_string(&extraction.posted_text),
        compensation_text: copy_opt_string(&ai.compensation_text),
        visa_policy_text: copy_opt_string(&ai.visa_policy_text),
        description: Some(copy_string(&extraction.description)),
        company_summary: copy_opt_string(&extraction.company_summary),
        company_size: copy_opt_string(&extraction.company_size),
        requirements: copy_strings(extraction.requirements.as_slice()),
    }
}

/// A job is stored as an opportunity exactly when no hard exclusion
/// applies; an AI verdict of no visa sponsorship always excludes it.
pub proof fn hard_exclusion_decides_status(
    seed: JobSeedView,
    e: JobExtractionView,
    ai: AiFieldsView,
    raw_description: Seq<char>,
    raw_requirements: Seq<Seq<char>>,
    dry_run: bool,
)
    ensures
        ({
            let hard = effective_hard_reason(ai.visa_not_sponsored, raw_description, raw_requirements);
            let rec = job_record_of(seed, e, ai, hard, dry_run);
            &&& (rec.status == crate::job::JobStatus::Opportunity <==> hard is None)
            &&& (ai.visa_not_sponsored ==> rec.status == crate::job::JobStatus::NotOpportunity)
            &&& (ai.visa_not_sponsored ==> rec.status_reason
                == "Hard exclusion: explicit_no_visa_or_sponsorship"@)
        }),
{
    reveal_strlit("Hard exclusion: ");
    reveal_strlit("explicit_no_visa_or_sponsorship");
    reveal_strlit("Hard exclusion: explicit_no_visa_or_sponsorship");
    if ai.visa_not_sponsored {
        assert("Hard exclusion: "@ + "explicit_no_visa_or_sponsorship"@
            =~= "Hard exclusion: explicit_no_visa_or_sponsorship"@);
    }
}

/// Outcome of one processed seed.
pub struct SeedProcessResult {
    pub is_new: bool,
    pub status: String,
    pub report_row: ReportRow,
}

/// Result for a job whose canonical URL is already in history.
pub fn already_seen_result(extraction: &JobExtraction, page_index: i64) -> (r: SeedProcessResult)
    ensures
        !r.is_new,
        r.status@ == "not_opportunity"@,
        r.report_row@ == rejected_row(
            extraction.title@,
            extraction.canonical_url@,
            page_index,
            "Rejected: already seen in history"@,
        ),
{
    SeedProcessResult {
        is_new: false,
        status: string_of(&chars_of("not_opportunity")),
        report_row: build_rejected_report_row(
            copy_string(&extraction.title),
            copy_string(&extraction.canonical_url),
            page_index,
            string_of(&chars_of("Rejected: already seen in history")),
        ),
    }
}

/// Result for a persisted record.
pub fn persisted_result(record: &JobRecord, is_new: bool) -> (r: SeedProcessResult)
    ensures
        r.is_new == is_new,
        r.status@ == status_name(record.status),
        r.report_row@ == row_of_record(record@),
{
    SeedProcessResult {
        is_new,
        status: string_of(&chars_of(record.status.as_str())),
        report_row: report_row_from_record(record),
    }
}

// ---------------------------------------------------------------------------
// Report ordering
// ---------------------------------------------------------------------------

/// Order indices never decrease along the rows.
pub open spec fn keys_sorted(s: Seq<(usize, ReportRowView)>) -> bool {
    forall|i: int, j: int| 0 <= i < j < s.len() ==> #[trigger] s[i].0 <= #[trigger] s[j].0
}

/// The rows without their order indices.
pub open spec fn strip_orders(s: Seq<(usize, ReportRowView)>) -> Seq<ReportRowView> {
    Seq::new(s.len(), |i: int| s[i].1)
}

/// `x` placed after every row whose order index is not greater than its
/// own, and before the rest.
pub open spec fn insert_sorted(s: Seq<(usize, ReportRowView)>, x: (usize, ReportRowView)) -> Seq<
    (usize, ReportRowView),
>
    decreases s.len(),
{
    if s.len() == 0 {
        seq![x]
    } else if s.last().0 <= x.0 {
        s.push(x)
    } else {
        insert_sorted(s.drop_last(), x).push(s.last())
    }
}

/// The rows sorted by order index, rows with equal indices keeping their
/// order (the stable sort): each row in turn inserted after the rows
/// before it whose index is not greater.
pub open spec fn stable_sort(s: Seq<(usize, ReportRowView)>) -> Seq<(usize, ReportRowView)>
    decreases s.len(),
{
    if s.len() == 0 {
        seq![]
    } else {
        insert_sorted(stable_sort(s.drop_last()), s.last())
    }
}

proof fn lemma_insert_sorted_at(s: Seq<(usize, ReportRowView)>, x: (usize, ReportRowView), p: int)
    requires
        0 <= p <= s.len(),
        forall|m: int| 0 <= m < p ==> s[m].0 <= x.0,
        forall|m: int| p <= m < s.len() ==> s[m].0 > x.0,
    ensures
        insert_sorted(s, x) == s.insert(p, x),
    decreases s.len(),
{
    if s.len() == 0 {
        assert(s.insert(p, x) =~= seq![x]);
    } else if p == s.len() {
        assert(s.last() == s[s.len() - 1]);
        assert(s.insert(p, x) =~= s.push(x));
    } else {
        assert(s.last() == s[s.len() - 1]);
        let init = s.drop_last();
        lemma_insert_sorted_at(init, x, p);
        assert(init.insert(p, x).push(s.last()) =~= s.insert(p, x));
    }
}

/// Stable insertion sort of rows by order index.
pub fn sort_by_order(rows: Vec<(usize, ReportRow)>) -> (r: Vec<(usize, ReportRow)>)
    ensures
        ordered_row_views(r@) == stable_sort(ordered_row_views(rows@)),
        keys_sorted(ordered_row_views(r@)),
        ordered_row_views(r@).to_multiset() == ordered_row_views(rows@).to_multiset(),
{
    broadcast use vstd::seq_lib::group_to_multiset_ensures;

    let ghost orig = ordered_row_views(rows@);
    let mut rest = rows;
    let total: usize = rest.len();
    assert(orig.len() == total);
    let mut out: Vec<(usize, ReportRow)> = Vec::new();
    let mut k: usize = 0;
    assert(orig.take(0) =~= Seq::<(usize, ReportRowView)>::empty());
    assert(orig.skip(0) =~= orig);
    while rest.len() > 0
        invariant
            k <= orig.len() <= usize::MAX,
            rest@.len() == orig.len() - k,
            ordered_row_views(rest@) == orig.skip(k as int),
            keys_sorted(ordered_row_views(out@)),
            ordered_row_views(out@).to_multiset() == orig.take(k as int).to_multiset(),
            ordered_row_views(out@) == stable_sort(orig.take(k as int)),
        decreases rest.len(),
    {
        let ghost before_rest = rest@;
        let x = rest.remove(0);
        proof {
            assert(ordered_row_views(before_rest).len() == orig.len() - k);
            assert(before_rest[0] == x);
            assert(ordered_row_views(before_rest)[0] == orig.skip(k as int)[0]);
            assert(ordered_row_views(rest@) =~= orig.skip(k + 1)) by {
                assert forall|i: int| 0 <= i < rest@.len() implies ordered_row_views(rest@)[i]
                    == orig.skip(k + 1)[i] by {
                    assert(rest@[i] == before_rest[i + 1]);
                    assert(ordered_row_views(before_rest)[i + 1] == orig.skip(k as int)[i + 1]);
                }
            }
            assert((x.0, x.1@) == orig[k as int]);
        }
        let mut p: usize = 0;
        while p < out.len() && out[p].0 <= x.0
            invariant
                p <= out.len(),
                forall|m: int| 0 <= m < p ==> ordered_row_views(out@)[m].0 <= x.0,
            decreases out.len() - p,
        {
            p = p + 1;
        }
        let ghost ov = ordered_row_views(out@);
        proof {
            assert forall|m: int| p <= m < ov.len() implies ov[m].0 > x.0 by {
                assert(ov[p as int].0 > x.0);
                if m > p {
                    assert(ov[p as int].0 <= ov[m].0);
                }
            }
        }
        out.insert(p, x);
        proof {
            let nv = ordered_row_views(out@);
            assert(nv =~= ov.insert(p as int, orig[k as int]));
            assert forall|i: int, j: int| 0 <= i < j < nv.len() implies #[trigger] nv[i].0
                <= #[trigger] nv[j].0 by {
                if j < p {
                    assert(nv[i] == ov[i] && nv[j] == ov[j]);
                } else if j == p {
                    assert(nv[i] == ov[i]);
                } else if i < p {
                    assert(nv[i] == ov[i] && nv[j] == ov[j - 1]);
                } else if i == p {
                    assert(nv[j] == ov[j - 1]);
                } else {
                    assert(nv[i] == ov[i - 1] && nv[j] == ov[j - 1]);
                }
            }
            vstd::seq_lib::to_multiset_insert(ov, p as int, orig[k as int]);
            assert(orig.take(k + 1) =~= orig.take(k as int).push(orig[k as int]));
            lemma_insert_sorted_at(ov, orig[k as int], p as int);
            assert(orig.take(k + 1).drop_last() =~= orig.take(k as int));
            assert(nv == stable_sort(orig.take(k + 1)));
            vstd::seq_lib::to_multiset_build(orig.take(k as int), orig[k as int]);
        }
        k = k + 1;
    }
    proof {
        assert(orig.skip(k as int).len() == 0);
        assert(orig.take(k as int) =~= orig);
    }
    out
}

/// The rows in their current order, order indices dropped.
pub fn strip_order(rows: Vec<(usize, ReportRow)>) -> (r: Vec<ReportRow>)
    ensures
        row_views(r@) == strip_orders(ordered_row_views(rows@)),
{
    let ghost orig = strip_orders(ordered_row_views(rows@));
    let mut rest = rows;
    let total: usize = rest.len();
    assert(orig.len() == total);
    let mut out: Vec<ReportRow> = Vec::new();
    let mut k: usize = 0;
    assert(orig.skip(0) =~= orig);
    while rest.len() > 0
        invariant
            k <= orig.len() <= usize::MAX,
            rest@.len() == orig.len() - k,
            strip_orders(ordered_row_views(rest@)) == orig.skip(k as int),
            row_views(out@) == orig.take(k as int),
        decreases rest.len(),
    {
        let ghost before_rest = rest@;
        let x = rest.remove(0);
        proof {
            assert(strip_orders(ordered_row_views(before_rest)).len() == orig.len() - k);
            assert(before_rest[0] == x);
            assert(strip_orders(ordered_row_views(before_rest))[0] == orig.skip(k as int)[0]);
            assert(strip_orders(ordered_row_views(rest@)) =~= orig.skip(k + 1)) by {
                assert forall|i: int| 0 <= i < rest@.len() implies strip_orders(
                    ordered_row_views(rest@),
                )[i] == orig.skip(k + 1)[i] by {
                    assert(rest@[i] == before_rest[i + 1]);
                    assert(strip_orders(ordered_row_views(before_rest))[i + 1] == orig.skip(
                        k as int,
                    )[i + 1]);
                }
            }
            assert(x.1@ == orig[k as int]);
        }
        let ghost before = out@;
        out.push(x.1);
        proof {
            assert(row_views(before).len() == orig.take(k as int).len());
            assert(before.len() == k);
            assert(out@ == before.push(x.1));
            assert(row_views(out@) =~= orig.take(k + 1)) by {
                assert forall|i: int| 0 <= i < k + 1 implies row_views(out@)[i] == orig.take(
                    k + 1,
                )[i] by {
                    if i < k {
                        assert(out@[i] == before[i]);
                        assert(row_views(before)[i] == orig.take(k as int)[i]);
                    }
                }
            }
        }
        k = k + 1;
    }
    proof {
        assert(orig.skip(k as int).len() == 0);
        assert(orig.take(k as int) =~= orig);
    }
    out
}

/// Report rows in scan order: a stable sort of the collected rows by
/// their order index, rows with equal indices in the order collected.
pub fn rows_in_scan_order(rows: Vec<(usize, ReportRow)>) -> (r: Vec<ReportRow>)
    ensures
        row_views(r@) == strip_orders(stable_sort(ordered_row_views(rows@))),
        keys_sorted(stable_sort(ordered_row_views(rows@))),
        stable_sort(ordered_row_views(rows@)).to_multiset() == ordered_row_views(
            rows@,
        ).to_multiset(),
{
    let sorted = sort_by_order(rows);
    strip_order(sorted)
}

// ---------------------------------------------------------------------------
// Extraction retries
// ---------------------------------------------------------------------------

/// Attempts made before an extraction is given up.
pub const SELECTOR_RETRY_ATTEMPTS: usize = 3;

/// Result of one extraction attempt.
#[derive(Debug, Clone, Copy, PartialEq, Eq, Structural)]
pub enum AttemptOutcome {
    /// A snapshot with everything needed.
    Usable,
    /// A snapshot missing required selectors.
    Unusable,
    /// The extraction call failed.
    Failed,
}

/// What to do after an attempt.
#[derive(Debug, Clone, Copy, PartialEq, Eq, Structural)]
pub enum RetryAction {
    /// Use the snapshot.
    Accept,
    /// Wait and try again.
    Retry,
    /// Give up: the last usable-looking snapshot lacked selectors.
    GiveUpMissingSelectors,
    /// Give up: every attempt failed.
    GiveUpFailed,
}

/// Memory of the attempts made so far.
pub struct RetryState {
    pub attempts: usize,
    pub saw_partial: bool,
    pub saw_error: bool,
}

impl RetryState {
    pub fn new() -> (r: Self)
        ensures
            r.attempts == 0 && !r.saw_partial && !r.saw_error,
    {
        RetryState { attempts: 0, saw_partial: false, saw_error: false }
    }
}

/// Records an attempt and decides what follows: a usable snapshot is taken
/// at once; otherwise another attempt follows until three were made, after
/// which a partial snapshot seen in any attempt is reported before an error.
pub fn retry_step(state: &mut RetryState, outcome: AttemptOutcome) -> (r: RetryAction)
    requires
        old(state).attempts < SELECTOR_RETRY_ATTEMPTS,
    ensures
        final(state).attempts == old(state).attempts + 1,
        final(state).saw_partial == (old(state).saw_partial || outcome == AttemptOutcome::Unusable),
        final(state).saw_error == (old(state).saw_error || outcome == AttemptOutcome::Failed),
        outcome == AttemptOutcome::Usable ==> r == RetryAction::Accept,
        outcome != AttemptOutcome::Usable && final(state).attempts < SELECTOR_RETRY_ATTEMPTS ==> r
            == RetryAction::Retry,
        outcome != AttemptOutcome::Usable && final(state).attempts == SELECTOR_RETRY_ATTEMPTS
            ==> r == (if final(state).saw_partial {
            RetryAction::GiveUpMissingSelectors
        } else {
            RetryAction::GiveUpFailed
        }),
{
    state.attempts = state.attempts + 1;
    match outcome {
        AttemptOutcome::Usable => {
            return RetryAction::Accept;
        },
        AttemptOutcome::Unusable => {
            state.saw_partial = true;
        },
        AttemptOutcome::Failed => {
            state.saw_error = true;
        },
    }
    if state.attempts < SELECTOR_RETRY_ATTEMPTS {
        RetryAction::Retry
    } else if state.saw_partial {
        RetryAction::GiveUpMissingSelectors
    } else {
        RetryAction::GiveUpFailed
    }
}

/// Outcome of a detail extraction attempt.
pub fn detail_attempt_outcome(snapshot: &Option<JobDetailData>) -> (r: AttemptOutcome)
    ensures
        match snapshot {
            None => r == AttemptOutcome::Failed,
            Some(s) => r == (if detail_usable(s@) {
                AttemptOutcome::Usable
            } else {
                AttemptOutcome::Unusable
            }),
        },
{
    match snapshot {
        None => AttemptOutcome::Failed,
        Some(s) => if is_detail_snapshot_usable(s) {
            AttemptOutcome::Usable
        } else {
            AttemptOutcome::Unusable
        },
    }
}

/// Outcome of a search extraction attempt.
pub fn search_attempt_outcome(snapshot: &Option<SearchPageData>) -> (r: AttemptOutcome)
    ensures
        match snapshot {
            None => r == AttemptOutcome::Failed,
            Some(s) => r == (if !(s.job_cards@.len() == 0 && s.job_links@.len() == 0) {
                AttemptOutcome::Usable
            } else {
                AttemptOutcome::Unusable
            }),
        },
{
    match snapshot {
        None => AttemptOutcome::Failed,
        Some(s) => if is_search_snapshot_usable(s) {
            AttemptOutcome::Usable
        } else {
            AttemptOutcome::Unusable
        },
    }
}

/// A page is ready once its document is interactive or complete.
pub fn is_page_ready(ready_state: &str) -> (r: bool)
    ensures
        r == (ready_state@ == "interactive"@ || ready_state@ == "complete"@),
{
    let v = chars_of(ready_state);
    chars_eq_str(&v, "interactive") || chars_eq_str(&v, "complete")
}

// ---------------------------------------------------------------------------
// Error redaction
// ---------------------------------------------------------------------------

pub open spec fn is_secret_end(c: char) -> bool {
    crate::text::is_ws(c) || c == '"' || c == '\'' || c == ',' || c == ')'
}

/// Index of the first secret-ending character at or after `i`, or the length.
pub open spec fn secret_end(t: Seq<char>, i: int) -> int
    decreases t.len() - i,
{
    if i < 0 || i >= t.len() {
        t.len() as int
    } else if is_secret_end(t[i]) {
        i
    } else {
        secret_end(t, i + 1)
    }
}

/// The configured key (trimmed) and the first `sk-...` token replaced by
/// `[REDACTED]` everywhere in the message.
pub open spec fn redacted(raw: Seq<char>, env_key: Option<Seq<char>>) -> Seq<char> {
    let a = match env_key {
        Some(k) => if trim(k).len() > 0 {
            crate::text::replace_all(raw, trim(k), "[REDACTED]"@)
        } else {
            raw
        },
        None => raw,
    };
    match crate::text::first_occ(a, "sk-"@, 0) {
        None => a,
        Some(st) => {
            let tail = a.skip(st);
            let secret = tail.take(secret_end(tail, 0));
            if secret.len() > 0 {
                crate::text::replace_all(a, secret, "[REDACTED]"@)
            } else {
                a
            }
        },
    }
}

/// Removes API keys from an error message before it is logged or stored.
/// `env_key` is the value of the `OPENAI_API_KEY` environment variable.
pub fn redact_secrets(raw: &str, env_key: Option<String>) -> (r: String)
    ensures
        r@ == redacted(raw@, opt_view(env_key)),
{
    let mut out = chars_of(raw);
    let redaction = chars_of("[REDACTED]");
    match &env_key {
        Some(k) => {
            let trimmed = trim_chars(&chars_of(k.as_str()));
            if trimmed.len() > 0 {
                out = crate::text::replace_chars(&out, &trimmed, &redaction);
            }
        },
        None => {},
    }
    let ghost a = out@;
    let marker = chars_of("sk-");
    if let Some(start) = crate::text::find_first(&out, &marker) {
        proof {
            crate::text::lemma_first_occ_bounds(a, marker@, 0);
        }
        let tail = crate::text::skip_chars(&out, start);
        let mut end: usize = 0;
        while end < tail.len() && !(crate::text::char_is_ws(tail[end]) || tail[end] == '"'
            || tail[end] == '\'' || tail[end] == ',' || tail[end] == ')')
            invariant
                end <= tail.len(),
                secret_end(tail@, 0) == secret_end(tail@, end as int),
            decreases tail.len() - end,
        {
            end = end + 1;
        }
        let secret = crate::text::subrange_chars(&tail, 0, end);
        assert(secret@ =~= tail@.take(secret_end(tail@, 0)));
        if secret.len() > 0 {
            out = crate::text::replace_chars(&out, &secret, &redaction);
        }
    }
    string_of(&out)
}

} // verus!
