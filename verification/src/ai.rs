//! Structured AI extraction payloads and their normalization.
use vstd::prelude::*;

use crate::text::{
    all_words, chars_of, dedup_ci, dedup_ignore_case, eq_ignore_case, is_word, is_ws, join,
    lemma_dedup_ci_distinct, lemma_dedup_ci_from, lemma_dedup_ci_of_distinct, lemma_join_edges,
    lemma_lower_char, lemma_lower_idempotent, lemma_normalize_ws_idempotent, lemma_trim_edges,
    lemma_trim_noop, lemma_words_are_words, lemma_words_nonempty, lemma_words_of_join, lower,
    normalize_chars, normalize_ws, opt_view, opt_views, string_of, strings_of, strs, to_lower, trim,
    trim_chars, words,
};

verus! {

/// Payload sent to the AI extractor.
pub struct AiInput {
    pub dom_element: String,
}

/// Requirement keywords grouped by kind.
pub struct AiRequirements {
    pub languages: Vec<String>,
    pub frameworks: Vec<String>,
    pub tools: Vec<String>,
    pub databases: Vec<String>,
    pub cloud: Vec<String>,
    pub other: Vec<String>,
}

#[derive(Debug, Clone, Copy, PartialEq, Eq, Structural)]
pub enum WorkMode {
    Remote,
    Hybrid,
    OnSite,
}

#[derive(Debug, Clone, Copy, PartialEq, Eq, Structural)]
pub enum EmploymentType {
    FullTime,
    PartTime,
    Contract,
    Internship,
    Temporary,
    Freelance,
}

#[derive(Debug, Clone, Copy, PartialEq, Eq, Structural)]
pub enum VisaPolicy {
    VisaSponsored,
    Unknown,
    VisaNotSponsored,
}

#[derive(Debug, Clone, Copy, PartialEq, Eq, Structural)]
pub enum CompanySize {
    OneToTen,
    ElevenToFifty,
    FiftyOneToFiveHundred,
    Above,
}

/// Structured extractor output used by orchestration layers.
pub struct AiDecision {
    pub company_name: Option<String>,
    pub location_text: Option<String>,
    pub language: Option<String>,
    pub work_mode: Option<WorkMode>,
    pub employment_type: Option<EmploymentType>,
    pub description: Option<String>,
    pub requirements: AiRequirements,
    pub compensation_text: Option<String>,
    pub visa_policy_text: Option<VisaPolicy>,
    pub company_summary: Option<String>,
    pub company_size_text: Option<CompanySize>,
}

/// Absent, or blank after trimming, gives `None`; otherwise the trimmed
/// text with white-space runs collapsed.
pub open spec fn clean_opt(v: Option<Seq<char>>) -> Option<Seq<char>> {
    match v {
        None => None,
        Some(s) => if trim(s).len() == 0 {
            None
        } else {
            Some(normalize_ws(trim(s)))
        },
    }
}

/// Cleaned values, blank ones dropped, duplicates (ignoring ASCII case) dropped.
pub open spec fn clean_list(values: Seq<Seq<char>>) -> Seq<Seq<char>> {
    dedup_ci(Seq::new(values.len(), |i: int| clean_opt(Some(values[i]))))
}

/// Cleaned language name in ASCII lower case.
pub open spec fn clean_language(v: Option<Seq<char>>) -> Option<Seq<char>> {
    match clean_opt(v) {
        Some(s) => Some(lower(s)),
        None => None,
    }
}

fn clean_chars(v: &Vec<char>) -> (r: Option<Vec<char>>)
    ensures
        match r {
            Some(x) => clean_opt(Some(v@)) == Some(x@),
            None => clean_opt(Some(v@)) is None,
        },
{
    let t = trim_chars(v);
    if t.len() == 0 {
        None
    } else {
        Some(normalize_chars(&t))
    }
}

fn normalize_opt(value: Option<String>) -> (r: Option<String>)
    ensures
        opt_view(r) == clean_opt(opt_view(value)),
{
    match value {
        None => None,
        Some(v) => {
            let cv = chars_of(v.as_str());
            match clean_chars(&cv) {
                Some(x) => Some(string_of(&x)),
                None => None,
            }
        },
    }
}

fn normalize_list(values: Vec<String>) -> (r: Vec<String>)
    ensures
        strs(r@) == clean_list(strs(values@)),
{
    let ghost target = Seq::new(values@.len(), |i: int| clean_opt(Some(strs(values@)[i])));
    let mut cleaned: Vec<Option<Vec<char>>> = Vec::new();
    let mut i: usize = 0;
    while i < values.len()
        invariant
            i <= values.len(),
            target == Seq::new(values@.len(), |i: int| clean_opt(Some(strs(values@)[i]))),
            opt_views(cleaned@) =~= target.take(i as int),
        decreases values.len() - i,
    {
        let cv = chars_of(values[i].as_str());
        let c = clean_chars(&cv);
        let ghost before = cleaned@;
        cleaned.push(c);
        proof {
            assert(opt_views(cleaned@) =~= opt_views(before).push(target[i as int]));
        }
        i = i + 1;
    }
    assert(target.take(i as int) =~= target);
    let out = dedup_ignore_case(&cleaned);
    strings_of(&out)
}

fn normalize_language_opt(value: Option<String>) -> (r: Option<String>)
    ensures
        opt_view(r) == clean_language(opt_view(value)),
{
    match normalize_opt(value) {
        Some(v) => {
            let cv = chars_of(v.as_str());
            Some(string_of(&to_lower(&cv)))
        },
        None => None,
    }
}

/// What `sanitized` makes of `d`: texts cleaned, the language cleaned and
/// lower-cased, requirement lists cleaned, the rest unchanged.
pub open spec fn sanitized_from(r: AiDecision, d: AiDecision) -> bool {
    &&& opt_view(r.company_name) == clean_opt(opt_view(d.company_name))
    &&& opt_view(r.location_text) == clean_opt(opt_view(d.location_text))
    &&& opt_view(r.language) == clean_language(opt_view(d.language))
    &&& r.work_mode == d.work_mode
    &&& r.employment_type == d.employment_type
    &&& opt_view(r.description) == clean_opt(opt_view(d.description))
    &&& strs(r.requirements.languages@) == clean_list(strs(d.requirements.languages@))
    &&& strs(r.requirements.frameworks@) == clean_list(strs(d.requirements.frameworks@))
    &&& strs(r.requirements.tools@) == clean_list(strs(d.requirements.tools@))
    &&& strs(r.requirements.databases@) == clean_list(strs(d.requirements.databases@))
    &&& strs(r.requirements.cloud@) == clean_list(strs(d.requirements.cloud@))
    &&& strs(r.requirements.other@) == clean_list(strs(d.requirements.other@))
    &&& opt_view(r.compensation_text) == clean_opt(opt_view(d.compensation_text))
    &&& r.visa_policy_text == d.visa_policy_text
    &&& opt_view(r.company_summary) == clean_opt(opt_view(d.company_summary))
    &&& r.company_size_text == d.company_size_text
}

/// Two decisions holding the same values.
pub open spec fn same_decision(a: AiDecision, b: AiDecision) -> bool {
    &&& opt_view(a.company_name) == opt_view(b.company_name)
    &&& opt_view(a.location_text) == opt_view(b.location_text)
    &&& opt_view(a.language) == opt_view(b.language)
    &&& a.work_mode == b.work_mode
    &&& a.employment_type == b.employment_type
    &&& opt_view(a.description) == opt_view(b.description)
    &&& strs(a.requirements.languages@) == strs(b.requirements.languages@)
    &&& strs(a.requirements.frameworks@) == strs(b.requirements.frameworks@)
    &&& strs(a.requirements.tools@) == strs(b.requirements.tools@)
    &&& strs(a.requirements.databases@) == strs(b.requirements.databases@)
    &&& strs(a.requirements.cloud@) == strs(b.requirements.cloud@)
    &&& strs(a.requirements.other@) == strs(b.requirements.other@)
    &&& opt_view(a.compensation_text) == opt_view(b.compensation_text)
    &&& a.visa_policy_text == b.visa_policy_text
    &&& opt_view(a.company_summary) == opt_view(b.company_summary)
    &&& a.company_size_text == b.company_size_text
}

/// A clean text: non-empty, no white space at either end, words separated
/// by single spaces.
pub open spec fn clean_text(x: Seq<char>) -> bool {
    x.len() > 0 && trim(x) == x && normalize_ws(x) == x
}

/// An absent or clean text.
pub open spec fn opt_clean(v: Option<Seq<char>>) -> bool {
    match v {
        Some(x) => clean_text(x),
        None => true,
    }
}

/// Clean texts, no two equal ignoring ASCII case.
pub open spec fn clean_items(xs: Seq<Seq<char>>) -> bool {
    &&& forall|i: int| 0 <= i < xs.len() ==> clean_text(#[trigger] xs[i])
    &&& forall|i: int, j: int|
        0 <= i < j < xs.len() ==> !eq_ignore_case(#[trigger] xs[i], #[trigger] xs[j])
}

/// A decision whose texts are clean, whose language is in lower case and
/// whose requirement lists are clean.
pub open spec fn decision_is_clean(d: AiDecision) -> bool {
    &&& opt_clean(opt_view(d.company_name))
    &&& opt_clean(opt_view(d.location_text))
    &&& opt_clean(opt_view(d.language))
    &&& (opt_view(d.language) matches Some(x) ==> lower(x) == x)
    &&& opt_clean(opt_view(d.description))
    &&& clean_items(strs(d.requirements.languages@))
    &&& clean_items(strs(d.requirements.frameworks@))
    &&& clean_items(strs(d.requirements.tools@))
    &&& clean_items(strs(d.requirements.databases@))
    &&& clean_items(strs(d.requirements.cloud@))
    &&& clean_items(strs(d.requirements.other@))
    &&& opt_clean(opt_view(d.compensation_text))
    &&& opt_clean(opt_view(d.company_summary))
}

/// Words joined by single spaces, lower-cased, are the lower-cased words
/// joined by single spaces.
proof fn lemma_lower_join(ws: Seq<Seq<char>>)
    requires
        all_words(ws),
    ensures
        all_words(Seq::new(ws.len(), |i: int| lower(ws[i]))),
        lower(join(ws, seq![' '])) == join(Seq::new(ws.len(), |i: int| lower(ws[i])), seq![' ']),
    decreases ws.len(),
{
    let lws = Seq::new(ws.len(), |i: int| lower(ws[i]));
    assert forall|i: int| 0 <= i < lws.len() implies is_word(#[trigger] lws[i]) by {
        assert(is_word(ws[i]));
        assert forall|k: int| 0 <= k < lws[i].len() implies !is_ws(#[trigger] lws[i][k]) by {
            lemma_lower_char(ws[i][k]);
        }
    }
    if ws.len() == 1 {
        assert(join(ws, seq![' ']) == ws[0]);
        assert(join(lws, seq![' ']) == lws[0]);
    } else if ws.len() > 1 {
        let init = ws.drop_last();
        assert(all_words(init)) by {
            assert forall|i: int| 0 <= i < init.len() implies is_word(#[trigger] init[i]) by {
                assert(init[i] == ws[i]);
            }
        }
        lemma_lower_join(init);
        let linit = Seq::new(init.len(), |i: int| lower(init[i]));
        assert(lws.drop_last() =~= linit);
        let j = join(init, seq![' ']);
        assert(lower(j + seq![' '] + ws.last()) =~= lower(j) + seq![' '] + lower(ws.last()));
        assert(lws.last() == lower(ws.last()));
    }
}

/// A cleaned text is clean, and cleaning it again keeps it.
pub proof fn lemma_clean_opt(v: Option<Seq<char>>)
    ensures
        opt_clean(clean_opt(v)),
        clean_opt(clean_opt(v)) == clean_opt(v),
{
    if let Some(s) = v {
        let t = trim(s);
        if t.len() > 0 {
            let x = normalize_ws(t);
            lemma_trim_edges(s);
            lemma_words_nonempty(t);
            lemma_words_are_words(t);
            lemma_join_edges(words(t));
            assert(is_word(words(t)[0]));
            assert(is_word(words(t).last()));
            lemma_trim_noop(x);
            lemma_normalize_ws_idempotent(t);
        }
    }
}

/// A cleaned language is clean and in lower case, and cleaning it again
/// keeps it.
pub proof fn lemma_clean_language(v: Option<Seq<char>>)
    ensures
        opt_clean(clean_language(v)),
        clean_language(v) matches Some(y) ==> lower(y) == y,
        clean_language(clean_language(v)) == clean_language(v),
{
    if let Some(s) = v {
        let t = trim(s);
        if t.len() > 0 {
            let ws = words(t);
            let x = normalize_ws(t);
            let y = lower(x);
            lemma_trim_edges(s);
            lemma_words_nonempty(t);
            lemma_words_are_words(t);
            lemma_lower_join(ws);
            let lws = Seq::new(ws.len(), |i: int| lower(ws[i]));
            lemma_join_edges(lws);
            assert(is_word(lws[0]));
            assert(is_word(lws.last()));
            lemma_trim_noop(y);
            lemma_words_of_join(lws);
            lemma_lower_idempotent(x);
        }
    }
}

/// A cleaned list is clean, and cleaning it again keeps it.
pub proof fn lemma_clean_list(values: Seq<Seq<char>>)
    ensures
        clean_items(clean_list(values)),
        clean_list(clean_list(values)) == clean_list(values),
{
    let cands = Seq::new(values.len(), |i: int| clean_opt(Some(values[i])));
    let y = clean_list(values);
    lemma_dedup_ci_from(cands);
    lemma_dedup_ci_distinct(cands);
    assert forall|k: int| 0 <= k < y.len() implies clean_opt(Some(#[trigger] y[k])) == Some(
        y[k],
    ) && clean_text(y[k]) by {
        let i = choose|i: int| 0 <= i < cands.len() && cands[i] == Some(dedup_ci(cands)[k]);
        lemma_clean_opt(Some(values[i]));
    }
    assert(Seq::new(y.len(), |k: int| clean_opt(Some(y[k]))) =~= Seq::new(
        y.len(),
        |k: int| Some(y[k]),
    ));
    lemma_dedup_ci_of_distinct(y);
}

/// Sanitizing a sanitized decision changes nothing, and a sanitized
/// decision is clean: texts non-empty with single spaces and nothing at
/// either end, the language in lower case, requirement lists without
/// blanks or two items equal ignoring ASCII case.
pub proof fn sanitized_idempotent(d: AiDecision, once: AiDecision, twice: AiDecision)
    requires
        sanitized_from(once, d),
        sanitized_from(twice, once),
    ensures
        decision_is_clean(once),
        same_decision(twice, once),
{
    lemma_clean_opt(opt_view(d.company_name));
    lemma_clean_opt(opt_view(d.location_text));
    lemma_clean_language(opt_view(d.language));
    lemma_clean_opt(opt_view(d.description));
    lemma_clean_list(strs(d.requirements.languages@));
    lemma_clean_list(strs(d.requirements.frameworks@));
    lemma_clean_list(strs(d.requirements.tools@));
    lemma_clean_list(strs(d.requirements.databases@));
    lemma_clean_list(strs(d.requirements.cloud@));
    lemma_clean_list(strs(d.requirements.other@));
    lemma_clean_opt(opt_view(d.compensation_text));
    lemma_clean_opt(opt_view(d.company_summary));
}

impl AiDecision {
    /// Normalizes whitespace and requirement lists to keep downstream behavior stable.
    pub fn sanitized(self) -> (r: Self)
        ensures
            sanitized_from(r, self),
    {
        let AiDecision {
            company_name,
            location_text,
            language,
            work_mode,
            employment_type,
            description,
            requirements,
            compensation_text,
            visa_policy_text,
            company_summary,
            company_size_text,
        } = self;
        let AiRequirements { languages, frameworks, tools, databases, cloud, other } =
            requirements;
        AiDecision {
            company_name: normalize_opt(company_name),
            location_text: normalize_opt(location_text),
            language: normalize_language_opt(language),
            work_mode,
            employment_type,
            description: normalize_opt(description),
            requirements: AiRequirements {
                languages: normalize_list(languages),
                frameworks: normalize_list(frameworks),
                tools: normalize_list(tools),
                databases: normalize_list(databases),
                cloud: normalize_list(cloud),
                other: normalize_list(other),
            },
            compensation_text: normalize_opt(compensation_text),
            visa_policy_text,
            company_summary: normalize_opt(company_summary),
            company_size_text,
        }
    }
}

} // verus!
