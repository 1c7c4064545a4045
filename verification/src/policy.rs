//! Title pre-filtering and hard exclusion rules applied before any AI call.
use vstd::prelude::*;

use crate::config::FiltersConfig;
use crate::external::{detect_language, detected_language};
use crate::text::{
    append_chars, chars_eq, chars_of, chars_of_strings, char_is_ascii_alnum, char_is_ws,
    char_to_ascii_lower, contains, contains_str, is_ascii_alnum, is_ws, join, join_chars, lower,
    lower_char, normalize_chars, normalize_ws, opt_view, split_whitespace, string_of, strs,
    to_lower, views, words,
};

verus! {

/// Decision returned by lightweight title pre-filtering.
pub struct PreMatchDecision {
    /// If `true`, the scanner may open and parse the detail page.
    pub should_open_detail: bool,
    /// Machine-readable reason used in logs and status traceability.
    pub reason: String,
}

// ---------------------------------------------------------------------------
// Text normalization
// ---------------------------------------------------------------------------

/// ASCII letters, digits and white space are kept (letters lower-cased);
/// every other character becomes a space.
pub open spec fn mask_char(c: char) -> char {
    if is_ascii_alnum(c) || is_ws(c) {
        lower_char(c)
    } else {
        ' '
    }
}

pub open spec fn masked(s: Seq<char>) -> Seq<char> {
    Seq::new(s.len(), |i: int| mask_char(s[i]))
}

/// Lower-cased ASCII words of the text, joined by single spaces.
pub open spec fn normalized_text(s: Seq<char>) -> Seq<char> {
    normalize_ws(masked(s))
}

fn mask_chars(s: &Vec<char>) -> (r: Vec<char>)
    ensures
        r@ == masked(s@),
{
    let mut r: Vec<char> = Vec::new();
    let mut i: usize = 0;
    while i < s.len()
        invariant
            i <= s.len(),
            r@ =~= masked(s@).take(i as int),
        decreases s.len() - i,
    {
        let c = s[i];
        let m = if char_is_ascii_alnum(c) || char_is_ws(c) {
            char_to_ascii_lower(c)
        } else {
            ' '
        };
        r.push(m);
        i = i + 1;
    }
    r
}

fn normalize_text_chars(s: &Vec<char>) -> (r: Vec<char>)
    ensures
        r@ == normalized_text(s@),
{
    let m = mask_chars(s);
    normalize_chars(&m)
}

/// Lower-cases ASCII letters, turns punctuation into spaces and collapses
/// white space.
pub fn normalize_text(input: &str) -> (r: String)
    ensures
        r@ == normalized_text(input@),
{
    let v = chars_of(input);
    let n = normalize_text_chars(&v);
    string_of(&n)
}

// ---------------------------------------------------------------------------
// Phrase matching
// ---------------------------------------------------------------------------

/// The token sequence `n` occurs contiguously in `h` at index `i`.
pub open spec fn window_at(h: Seq<Seq<char>>, n: Seq<Seq<char>>, i: int) -> bool {
    0 <= i && i + n.len() <= h.len() && h.subrange(i, i + n.len()) == n
}

/// The normalized needle is non-empty and its words occur as consecutive
/// words of the normalized haystack.
pub open spec fn phrase_in(hay: Seq<char>, needle: Seq<char>) -> bool {
    let n = normalized_text(needle);
    n.len() > 0 && exists|i: int| #[trigger] window_at(words(normalized_text(hay)), words(n), i)
}

fn window_matches(h: &Vec<Vec<char>>, n: &Vec<Vec<char>>, i: usize) -> (r: bool)
    ensures
        r == window_at(views(h@), views(n@), i as int),
{
    if i > h.len() || n.len() > h.len() - i {
        return false;
    }
    let mut k: usize = 0;
    while k < n.len()
        invariant
            k <= n.len(),
            i + n.len() <= h.len(),
            forall|m: int| 0 <= m < k ==> views(h@)[i + m] == views(n@)[m],
        decreases n.len() - k,
    {
        if !chars_eq(&h[i + k], &n[k]) {
            assert(views(h@).subrange(i as int, i + n.len())[k as int] != views(n@)[k as int]);
            return false;
        }
        k = k + 1;
    }
    assert(views(h@).subrange(i as int, i + n.len()) =~= views(n@));
    true
}

fn contains_phrase(haystack: &Vec<char>, needle: &Vec<char>) -> (r: bool)
    ensures
        r == phrase_in(haystack@, needle@),
{
    let hay = normalize_text_chars(haystack);
    let needle_norm = normalize_text_chars(needle);
    if needle_norm.len() == 0 {
        return false;
    }
    let hay_tokens = split_whitespace(&hay);
    let needle_tokens = split_whitespace(&needle_norm);
    if needle_tokens.len() > hay_tokens.len() {
        assert forall|i: int| !window_at(views(hay_tokens@), views(needle_tokens@), i) by {}
        return false;
    }
    let last: usize = hay_tokens.len() - needle_tokens.len();
    let mut i: usize = 0;
    loop
        invariant
            i <= last,
            views(hay_tokens@) == words(normalized_text(haystack@)),
            views(needle_tokens@) == words(normalized_text(needle@)),
            normalized_text(needle@).len() > 0,
            last == hay_tokens.len() - needle_tokens.len(),
            forall|j: int| 0 <= j < i ==> !window_at(views(hay_tokens@), views(needle_tokens@), j),
        decreases last - i,
    {
        if window_matches(&hay_tokens, &needle_tokens, i) {
            return true;
        }
        if i == last {
            assert forall|j: int|
                !window_at(views(hay_tokens@), views(needle_tokens@), j) by {
                if 0 <= j < i {
                } else if j == i {
                } else {
                }
            }
            return false;
        }
        i = i + 1;
    }
}

// ---------------------------------------------------------------------------
// Hard exclusion patterns
// ---------------------------------------------------------------------------

pub open spec fn str_views(v: Seq<&str>) -> Seq<Seq<char>> {
    Seq::new(v.len(), |i: int| v[i]@)
}

/// Some pattern occurs in the text.
pub open spec fn any_contained(text: Seq<char>, pats: Seq<Seq<char>>) -> bool {
    exists|k: int| 0 <= k < pats.len() && contains(text, #[trigger] pats[k])
}

/// Phrases that state that visa sponsorship is offered.
pub open spec fn visa_allow_patterns() -> Seq<Seq<char>> {
    seq![
        "visa sponsorship available"@,
        "sponsorship available"@,
        "we sponsor visas"@,
        "we sponsor visa"@,
        "can sponsor visa"@,
        "can provide visa sponsorship"@,
        "visa transfer available"@,
    ]
}

/// Phrases that rule visa sponsorship out.
pub open spec fn visa_block_patterns() -> Seq<Seq<char>> {
    seq![
        "no visa sponsorship"@,
        "without visa sponsorship"@,
        "unable to sponsor visa"@,
        "cannot sponsor visa"@,
        "cant sponsor visa"@,
        "do not sponsor visa"@,
        "we do not sponsor visa"@,
        "not sponsor visa"@,
        "no sponsorship for visa"@,
        "must have unrestricted work authorization"@,
        "must have existing work authorization"@,
        "must already have work authorization"@,
        "require unrestricted work authorization"@,
        "requires unrestricted work authorization"@,
        "requires existing work authorization"@,
        "must be legally authorized to work"@,
        "must already be authorized to work"@,
    ]
}

/// Phrases that require the applicant to live somewhere.
pub open spec fn residency_patterns() -> Seq<Seq<char>> {
    seq![
        "must be located in"@,
        "must be based in"@,
        "must reside in"@,
        "must be resident in"@,
        "must currently reside in"@,
        "must currently be located in"@,
        "only candidates located in"@,
        "only candidates based in"@,
        "only applicants located in"@,
        "only applicants based in"@,
    ]
}

/// Country and region names that make a residency phrase concrete.
pub open spec fn geo_hints() -> Seq<Seq<char>> {
    seq![
        "country"@,
        "united states"@,
        "usa"@,
        "us "@,
        "u s "@,
        "uk"@,
        "united kingdom"@,
        "canada"@,
        "europe"@,
        "netherlands"@,
        "germany"@,
        "france"@,
        "spain"@,
        "italy"@,
        "switzerland"@,
        "denmark"@,
        "sweden"@,
        "norway"@,
        "austria"@,
        "poland"@,
        "portugal"@,
        "ireland"@,
        "australia"@,
        "new zealand"@,
        "singapore"@,
        "japan"@,
        "india"@,
        "uae"@,
    ]
}

fn visa_allow_list() -> (v: Vec<&'static str>)
    ensures
        str_views(v@) == visa_allow_patterns(),
{
    let v = vec![
        "visa sponsorship available",
        "sponsorship available",
        "we sponsor visas",
        "we sponsor visa",
        "can sponsor visa",
        "can provide visa sponsorship",
        "visa transfer available",
    ];
    assert(str_views(v@) =~= visa_allow_patterns());
    v
}

fn visa_block_list() -> (v: Vec<&'static str>)
    ensures
        str_views(v@) == visa_block_patterns(),
{
    let v = vec![
        "no visa sponsorship",
        "without visa sponsorship",
        "unable to sponsor visa",
        "cannot sponsor visa",
        "cant sponsor visa",
        "do not sponsor visa",
        "we do not sponsor visa",
        "not sponsor visa",
        "no sponsorship for visa",
        "must have unrestricted work authorization",
        "must have existing work authorization",
        "must already have work authorization",
        "require unrestricted work authorization",
        "requires unrestricted work authorization",
        "requires existing work authorization",
        "must be legally authorized to work",
        "must already be authorized to work",
    ];
    assert(str_views(v@) =~= visa_block_patterns());
    v
}

fn residency_list() -> (v: Vec<&'static str>)
    ensures
        str_views(v@) == residency_patterns(),
{
    let v = vec![
        "must be located in",
        "must be based in",
        "must reside in",
        "must be resident in",
        "must currently reside in",
        "must currently be located in",
        "only candidates located in",
        "only candidates based in",
        "only applicants located in",
        "only applicants based in",
    ];
    assert(str_views(v@) =~= residency_patterns());
    v
}

fn geo_hint_list() -> (v: Vec<&'static str>)
    ensures
        str_views(v@) == geo_hints(),
{
    let v = vec![
        "country",
        "united states",
        "usa",
        "us ",
        "u s ",
        "uk",
        "united kingdom",
        "canada",
        "europe",
        "netherlands",
        "germany",
        "france",
        "spain",
        "italy",
        "switzerland",
        "denmark",
        "sweden",
        "norway",
        "austria",
        "poland",
        "portugal",
        "ireland",
        "australia",
        "new zealand",
        "singapore",
        "japan",
        "india",
        "uae",
    ];
    assert(str_views(v@) =~= geo_hints());
    v
}

fn any_pattern_in(text: &Vec<char>, pats: &Vec<&'static str>) -> (r: bool)
    ensures
        r == any_contained(text@, str_views(pats@)),
{
    let mut k: usize = 0;
    while k < pats.len()
        invariant
            k <= pats.len(),
            forall|m: int| 0 <= m < k ==> !contains(text@, #[trigger] str_views(pats@)[m]),
        decreases pats.len() - k,
    {
        if contains_str(text, pats[k]) {
            assert(contains(text@, str_views(pats@)[k as int]));
            return true;
        }
        k = k + 1;
    }
    false
}

/// The text rules visa sponsorship out and no phrase offers it.
pub open spec fn rules_out_visa(text: Seq<char>) -> bool {
    !any_contained(text, visa_allow_patterns()) && any_contained(text, visa_block_patterns())
}

/// A residency phrase occurs together with a country or region name.
pub open spec fn requires_residency(text: Seq<char>) -> bool {
    exists|k: int|
        0 <= k < residency_patterns().len() && contains(text, #[trigger] residency_patterns()[k])
            && any_contained(text, geo_hints())
}

fn has_explicit_no_visa_or_sponsorship(text: &Vec<char>) -> (r: bool)
    ensures
        r == rules_out_visa(text@),
{
    let allow = visa_allow_list();
    if any_pattern_in(text, &allow) {
        return false;
    }
    let block = visa_block_list();
    any_pattern_in(text, &block)
}

fn has_explicit_country_residency_requirement(text: &Vec<char>) -> (r: bool)
    ensures
        r == requires_residency(text@),
{
    let pats = residency_list();
    let geo = geo_hint_list();
    let mut k: usize = 0;
    while k < pats.len()
        invariant
            k <= pats.len(),
            str_views(pats@) == residency_patterns(),
            str_views(geo@) == geo_hints(),
            forall|m: int|
                0 <= m < k ==> !(contains(text@, #[trigger] residency_patterns()[m])
                    && any_contained(text@, geo_hints())),
        decreases pats.len() - k,
    {
        if contains_str(text, pats[k]) && any_pattern_in(text, &geo) {
            assert(contains(text@, residency_patterns()[k as int]));
            return true;
        }
        assert(str_views(pats@)[k as int] == residency_patterns()[k as int]);
        k = k + 1;
    }
    false
}

/// Description and requirement lines joined by newlines.
pub open spec fn exclusion_corpus(description: Seq<char>, requirements: Seq<Seq<char>>) -> Seq<
    char,
> {
    description + seq!['\n'] + join(requirements, seq!['\n'])
}

/// The reason key of the first hard exclusion rule the job text matches.
pub open spec fn hard_exclusion_reason(description: Seq<char>, requirements: Seq<Seq<char>>) -> Option<
    Seq<char>,
> {
    let t = normalized_text(exclusion_corpus(description, requirements));
    if rules_out_visa(t) {
        Some("explicit_no_visa_or_sponsorship"@)
    } else if requires_residency(t) {
        Some("explicit_country_residency_requirement"@)
    } else {
        None
    }
}

/// A residency exclusion names a place: the hard exclusion reports a
/// country residency requirement only when a residency phrase and a
/// country or region name both occur in the normalized job text, and a text
/// with no visa-blocking phrase and no country or region name is never
/// excluded.
pub proof fn residency_exclusion_needs_a_place(description: Seq<char>, requirements: Seq<Seq<char>>)
    ensures
        ({
            let t = normalized_text(exclusion_corpus(description, requirements));
            &&& hard_exclusion_reason(description, requirements) == Some(
                "explicit_country_residency_requirement"@,
            ) ==> (exists|k: int|
                0 <= k < residency_patterns().len() && contains(t, #[trigger] residency_patterns()[k]))
                && (exists|g: int| 0 <= g < geo_hints().len() && contains(t, #[trigger] geo_hints()[g]))
            &&& (forall|g: int| 0 <= g < geo_hints().len() ==> !contains(t, #[trigger] geo_hints()[g]))
                && (forall|b: int|
                0 <= b < visa_block_patterns().len() ==> !contains(
                    t,
                    #[trigger] visa_block_patterns()[b],
                )) ==> hard_exclusion_reason(description, requirements) is None
        }),
{
    let t = normalized_text(exclusion_corpus(description, requirements));
    reveal_strlit("explicit_no_visa_or_sponsorship");
    reveal_strlit("explicit_country_residency_requirement");
    let r = hard_exclusion_reason(description, requirements);
    assert(r == Some("explicit_country_residency_requirement"@) ==> requires_residency(t)) by {
        if rules_out_visa(t) {
            assert(r == Some("explicit_no_visa_or_sponsorship"@));
            assert("explicit_no_visa_or_sponsorship"@[9] != "explicit_country_residency_requirement"@[9]);
        }
    }
    if r == Some("explicit_country_residency_requirement"@) {
        let k = choose|k: int|
            0 <= k < residency_patterns().len() && contains(t, #[trigger] residency_patterns()[k])
                && any_contained(t, geo_hints());
        assert(contains(t, residency_patterns()[k]));
        let g = choose|g: int| 0 <= g < geo_hints().len() && contains(t, #[trigger] geo_hints()[g]);
        assert(contains(t, geo_hints()[g]));
    }
    if (forall|g: int| 0 <= g < geo_hints().len() ==> !contains(t, #[trigger] geo_hints()[g]))
        && (forall|b: int|
        0 <= b < visa_block_patterns().len() ==> !contains(t, #[trigger] visa_block_patterns()[b])) {
        assert(!any_contained(t, geo_hints()));
        assert(!any_contained(t, visa_block_patterns()));
        assert(!requires_residency(t));
        assert(!rules_out_visa(t));
    }
}

/// Hard exclusion rules applied before any AI call.
///
/// Returns a stable reason key when the job should be rejected immediately.
pub fn hard_exclusion(_filters: &FiltersConfig, description: &str, requirements: &[String]) -> (r:
    Option<String>)
    ensures
        opt_view(r) == hard_exclusion_reason(description@, strs(requirements@)),
        ({
            let t = normalized_text(exclusion_corpus(description@, strs(requirements@)));
            &&& opt_view(r) == Some("explicit_country_residency_requirement"@) ==> (exists|k: int|
                0 <= k < residency_patterns().len() && contains(t, #[trigger] residency_patterns()[k]))
                && (exists|g: int| 0 <= g < geo_hints().len() && contains(t, #[trigger] geo_hints()[g]))
            &&& (forall|g: int| 0 <= g < geo_hints().len() ==> !contains(t, #[trigger] geo_hints()[g]))
                && (forall|b: int|
                0 <= b < visa_block_patterns().len() ==> !contains(
                    t,
                    #[trigger] visa_block_patterns()[b],
                )) ==> r is None
        }),
{
    proof {
        residency_exclusion_needs_a_place(description@, strs(requirements@));
    }
    let mut corpus = chars_of(description);
    corpus.push('\n');
    let reqs = chars_of_strings(requirements);
    let mut nl: Vec<char> = Vec::new();
    nl.push('\n');
    assert(nl@ =~= seq!['\n']);
    let joined = join_chars(&reqs, &nl);
    let ghost c1 = corpus@;
    append_chars(&mut corpus, &joined);
    assert(corpus@ =~= exclusion_corpus(description@, strs(requirements@)));
    let normalized = normalize_text_chars(&corpus);
    if has_explicit_no_visa_or_sponsorship(&normalized) {
        return Some(string_of(&chars_of("explicit_no_visa_or_sponsorship")));
    }
    if has_explicit_country_residency_requirement(&normalized) {
        return Some(string_of(&chars_of("explicit_country_residency_requirement")));
    }
    None
}

// ---------------------------------------------------------------------------
// Title pre-filter
// ---------------------------------------------------------------------------

/// Language code derived from a detected language name.
pub open spec fn language_code(detected: Option<Seq<char>>) -> Option<Seq<char>> {
    match detected {
        Some(name) => Some(lower(name)),
        None => None,
    }
}

/// Rejection reason of the language whitelist, given the detected code.
pub open spec fn language_reason(allowed: Seq<Seq<char>>, code: Option<Seq<char>>) -> Option<
    Seq<char>,
> {
    if allowed.len() == 0 {
        None
    } else {
        match code {
            Some(c) => if allowed.contains(c) {
                None
            } else {
                Some("title_language_not_allowed:"@ + c)
            },
            None => Some("title_language_unknown_not_allowed"@),
        }
    }
}

/// The first avoided phrase that occurs in the normalized title.
pub open spec fn first_avoided(title: Seq<char>, avoid: Seq<Seq<char>>) -> Option<Seq<char>>
    decreases avoid.len(),
{
    if avoid.len() == 0 {
        None
    } else if phrase_in(title, avoid[0]) {
        Some(avoid[0])
    } else {
        first_avoided(title, avoid.drop_first())
    }
}

/// Outcome of the title pre-filter given the detected language code:
/// whether to open the detail page, and why.
pub open spec fn title_decision(
    avoid: Seq<Seq<char>>,
    allowed: Seq<Seq<char>>,
    title: Seq<char>,
    code: Option<Seq<char>>,
) -> (bool, Seq<char>) {
    let nt = normalized_text(title);
    if nt.len() == 0 {
        (true, "title_missing_open_anyway"@)
    } else {
        match language_reason(allowed, code) {
            Some(r) => (false, r),
            None => match first_avoided(nt, avoid) {
                Some(b) => (false, "title_avoided:"@ + b),
                None => (true, "title_allowed"@),
            },
        }
    }
}

/// `first_avoided` finds an avoided phrase exactly when one occurs, and
/// then the first one that occurs.
proof fn lemma_first_avoided(t: Seq<char>, avoid: Seq<Seq<char>>)
    ensures
        first_avoided(t, avoid) is Some <==> exists|k: int|
            0 <= k < avoid.len() && #[trigger] phrase_in(t, avoid[k]),
        first_avoided(t, avoid) matches Some(b) ==> exists|k: int|
            0 <= k < avoid.len() && avoid[k] == b && #[trigger] phrase_in(t, avoid[k]) && forall|
                j: int,
            | 0 <= j < k ==> !#[trigger] phrase_in(t, avoid[j]),
    decreases avoid.len(),
{
    if avoid.len() > 0 {
        let rest = avoid.drop_first();
        lemma_first_avoided(t, rest);
        if phrase_in(t, avoid[0]) {
            assert(phrase_in(t, avoid[0]));
        } else {
            assert forall|k: int| 0 <= k < avoid.len() && #[trigger] phrase_in(t, avoid[k]) implies
                exists|m: int| 0 <= m < rest.len() && #[trigger] phrase_in(t, rest[m]) by {
                assert(k > 0);
                assert(rest[k - 1] == avoid[k]);
            }
            if exists|m: int| 0 <= m < rest.len() && #[trigger] phrase_in(t, rest[m]) {
                let m = choose|m: int| 0 <= m < rest.len() && #[trigger] phrase_in(t, rest[m]);
                assert(avoid[m + 1] == rest[m]);
            }
            if let Some(b) = first_avoided(t, rest) {
                let m = choose|m: int|
                    0 <= m < rest.len() && rest[m] == b && #[trigger] phrase_in(t, rest[m]) && forall|
                        j: int,
                    | 0 <= j < m ==> !#[trigger] phrase_in(t, rest[j]);
                assert(avoid[m + 1] == b);
                assert forall|j: int| 0 <= j < m + 1 implies !#[trigger] phrase_in(t, avoid[j]) by {
                    if j > 0 {
                        assert(avoid[j] == rest[j - 1]);
                    }
                }
            }
        }
    }
}

/// The title pre-filter, stated over the avoided phrases themselves: a
/// title with text opens its detail page exactly when its language passes
/// and none of the avoided phrases occurs as consecutive words of the
/// normalized title; when one does, the page stays closed and the reason
/// names the first such phrase of the list.
pub proof fn avoided_phrases_block_titles(
    avoid: Seq<Seq<char>>,
    allowed: Seq<Seq<char>>,
    title: Seq<char>,
    code: Option<Seq<char>>,
)
    ensures
        title_decision(avoid, allowed, title, code).0 <==> (normalized_text(title).len() == 0 || (
        language_reason(allowed, code) is None && forall|k: int|
            0 <= k < avoid.len() ==> !#[trigger] phrase_in(normalized_text(title), avoid[k]))),
        normalized_text(title).len() > 0 && (exists|k: int|
            0 <= k < avoid.len() && #[trigger] phrase_in(normalized_text(title), avoid[k]))
            ==> !title_decision(avoid, allowed, title, code).0,
        normalized_text(title).len() > 0 && language_reason(allowed, code) is None && (exists|
            k: int,
        | 0 <= k < avoid.len() && #[trigger] phrase_in(normalized_text(title), avoid[k]))
            ==> exists|k: int|
            0 <= k < avoid.len() && #[trigger] phrase_in(normalized_text(title), avoid[k])
                && title_decision(avoid, allowed, title, code).1 == "title_avoided:"@ + avoid[k]
                && forall|j: int|
                0 <= j < k ==> !#[trigger] phrase_in(normalized_text(title), avoid[j]),
{
    lemma_first_avoided(normalized_text(title), avoid);
}

/// Language whitelist verdict for a detected language code.
#[verifier::loop_isolation(false)]
pub fn language_verdict(filters: &FiltersConfig, code: Option<String>) -> (r: Option<String>)
    ensures
        opt_view(r) == language_reason(strs(filters.allowed_title_languages@), opt_view(code)),
{
    let allowed = &filters.allowed_title_languages;
    if allowed.len() == 0 {
        return None;
    }
    match code {
        Some(c) => {
            let cv = chars_of(c.as_str());
            let mut k: usize = 0;
            while k < allowed.len()
                invariant
                    k <= allowed.len(),
                    cv@ == c@,
                    forall|m: int| 0 <= m < k ==> strs(allowed@)[m] != c@,
                decreases allowed.len() - k,
            {
                let a = chars_of(allowed[k].as_str());
                if chars_eq(&a, &cv) {
                    assert(strs(allowed@)[k as int] == c@);
                    assert(strs(allowed@).contains(c@));
                    return None;
                }
                k = k + 1;
            }
            assert(!strs(allowed@).contains(c@)) by {
                if strs(allowed@).contains(c@) {
                    let m = choose|m: int| 0 <= m < strs(allowed@).len() && strs(allowed@)[m] == c@;
                    assert(strs(allowed@)[m] != c@);
                }
            }
            let mut r = chars_of("title_language_not_allowed:");
            append_chars(&mut r, &cv);
            Some(string_of(&r))
        },
        None => Some(string_of(&chars_of("title_language_unknown_not_allowed"))),
    }
}

/// Lower-cased name of the language detected in a title.
fn detect_title_language_code(title: &str) -> (r: Option<String>)
    ensures
        opt_view(r) == language_code(detected_language(title@)),
{
    match detect_language(title) {
        Some(name) => {
            let v = chars_of(name.as_str());
            let l = to_lower(&v);
            Some(string_of(&l))
        },
        None => None,
    }
}

/// Title pre-filter, given the detected language code of the title.
#[verifier::loop_isolation(false)]
pub fn title_pre_match_with_language(
    filters: &FiltersConfig,
    title: &str,
    code: Option<String>,
) -> (r: PreMatchDecision)
    ensures
        (r.should_open_detail, r.reason@) == title_decision(
            strs(filters.words_to_avoid_in_title@),
            strs(filters.allowed_title_languages@),
            title@,
            opt_view(code),
        ),
        ({
            let nt = normalized_text(title@);
            let avoid = strs(filters.words_to_avoid_in_title@);
            &&& r.should_open_detail <==> (nt.len() == 0 || (language_reason(
                strs(filters.allowed_title_languages@),
                opt_view(code),
            ) is None && forall|k: int| 0 <= k < avoid.len() ==> !#[trigger] phrase_in(nt, avoid[k])))
            &&& nt.len() > 0 && (exists|k: int| 0 <= k < avoid.len() && #[trigger] phrase_in(nt, avoid[k]))
                ==> !r.should_open_detail
        }),
{
    proof {
        avoided_phrases_block_titles(
            strs(filters.words_to_avoid_in_title@),
            strs(filters.allowed_title_languages@),
            title@,
            opt_view(code),
        );
    }
    let tv = chars_of(title);
    let normalized_title = normalize_text_chars(&tv);
    if normalized_title.len() == 0 {
        return PreMatchDecision {
            should_open_detail: true,
            reason: string_of(&chars_of("title_missing_open_anyway")),
        };
    }
    if let Some(reason) = language_verdict(filters, code) {
        return PreMatchDecision { should_open_detail: false, reason };
    }
    let avoid = chars_of_strings(filters.words_to_avoid_in_title.as_slice());
    let ghost nt = normalized_title@;
    let ghost all = strs(filters.words_to_avoid_in_title@);
    let mut k: usize = 0;
    assert(all.skip(0) =~= all);
    while k < avoid.len()
        invariant
            k <= avoid.len(),
            views(avoid@) == all,
            nt == normalized_title@,
            first_avoided(nt, all) == first_avoided(nt, all.skip(k as int)),
        decreases avoid.len() - k,
    {
        proof {
            assert(all.skip(k as int)[0] == all[k as int]);
            assert(all.skip(k as int).drop_first() =~= all.skip(k + 1));
        }
        if contains_phrase(&normalized_title, &avoid[k]) {
            let mut r = chars_of("title_avoided:");
            append_chars(&mut r, &avoid[k]);
            return PreMatchDecision { should_open_detail: false, reason: string_of(&r) };
        }
        k = k + 1;
    }
    assert(all.skip(k as int).len() == 0);
    PreMatchDecision { should_open_detail: true, reason: string_of(&chars_of("title_allowed")) }
}

/// Fast title-only pre-filter to reduce unnecessary page opens.
pub fn title_pre_match(filters: &FiltersConfig, title: &str) -> (r: PreMatchDecision)
    ensures
        (r.should_open_detail, r.reason@) == title_decision(
            strs(filters.words_to_avoid_in_title@),
            strs(filters.allowed_title_languages@),
            title@,
            language_code(detected_language(title@)),
        ),
        ({
            let nt = normalized_text(title@);
            let avoid = strs(filters.words_to_avoid_in_title@);
            &&& r.should_open_detail <==> (nt.len() == 0 || (language_reason(
                strs(filters.allowed_title_languages@),
                language_code(detected_language(title@)),
            ) is None && forall|k: int| 0 <= k < avoid.len() ==> !#[trigger] phrase_in(nt, avoid[k])))
            &&& nt.len() > 0 && (exists|k: int| 0 <= k < avoid.len() && #[trigger] phrase_in(nt, avoid[k]))
                ==> !r.should_open_detail
        }),
{
    proof {
        avoided_phrases_block_titles(
            strs(filters.words_to_avoid_in_title@),
            strs(filters.allowed_title_languages@),
            title@,
            language_code(detected_language(title@)),
        );
    }
    let tv = chars_of(title);
    let normalized_title = normalize_text_chars(&tv);
    if normalized_title.len() == 0 {
        return PreMatchDecision {
            should_open_detail: true,
            reason: string_of(&chars_of("title_missing_open_anyway")),
        };
    }
    if filters.allowed_title_languages.len() == 0 {
        return title_pre_match_with_language(filters, title, None);
    }
    let code = detect_title_language_code(title);
    title_pre_match_with_language(filters, title, code)
}

} // verus!
