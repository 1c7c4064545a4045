//! Company summaries for the enrich step: fetched pages reduced to plain
//! text and the heuristic one-line summary built from it.
use vstd::prelude::*;

use crate::enrich::{truncate, truncated, EnrichCandidate};
use crate::external::{opt_string_view, regex_replace_all, regex_replaced};
use crate::stage::trimmed_nonempty;
use crate::text::{append_chars, append_str, chars_of, string_of, trim, trim_str};

verus! {

/// Pattern of an HTML tag.
pub const TAG_PATTERN: &'static str = "<[^>]+>";

/// Pattern of a run of white space.
pub const SPACE_RUN_PATTERN: &'static str = "\\s+";

/// A page reduced to text: every tag replaced by a space, every run of
/// white space by one space, then trimmed; `None` where a pattern does not
/// compile.
pub open spec fn cleaned_html(input: Seq<char>) -> Option<Seq<char>> {
    match regex_replaced(TAG_PATTERN@, input, " "@) {
        Some(a) => match regex_replaced(SPACE_RUN_PATTERN@, a, " "@) {
            Some(b) => Some(trim(b)),
            None => None,
        },
        None => None,
    }
}

/// The plain text of a fetched page.
pub fn clean_html(input: &str) -> (r: Option<String>)
    ensures
        opt_string_view(&r) == cleaned_html(input@),
{
    let spaced = match regex_replace_all(TAG_PATTERN, input, " ") {
        Some(s) => s,
        None => {
            return None;
        },
    };
    let collapsed = match regex_replace_all(SPACE_RUN_PATTERN, spaced.as_str(), " ") {
        Some(s) => s,
        None => {
            return None;
        },
    };
    Some(string_of(&trim_str(collapsed.as_str())))
}

/// The summarizer that builds a sentence from the page text or the job's
/// own description.
#[derive(Debug, Clone, Copy)]
pub struct HeuristicSummaryGenerator;

impl HeuristicSummaryGenerator {
    pub fn new() -> (r: Self)
        ensures
            r == HeuristicSummaryGenerator,
    {
        HeuristicSummaryGenerator
    }

    /// The summary for a candidate.
    pub fn summarize(&self, candidate: &EnrichCandidate, fetched_text: Option<&str>) -> (r: String)
        ensures
            r@ == heuristic_summary(
                candidate.title@,
                candidate.company@,
                candidate.description@,
                crate::enrich::opt_str_view(fetched_text),
            ),
    {
        summary_sentence(candidate, fetched_text)
    }
}

/// Characters of source text kept in a summary.
pub const SUMMARY_BASE_CHARS: usize = 260;

/// A trimmed text, or a stand-in when it is blank.
pub open spec fn or_unknown(s: Seq<char>, stand_in: Seq<char>) -> Seq<char> {
    if trim(s).len() == 0 {
        stand_in
    } else {
        trim(s)
    }
}

/// `<title> at <company>. <text>`, where the text is the first 260
/// characters of the trimmed page text when there is any, else of the
/// trimmed description, and a fixed sentence when that is empty.
pub open spec fn heuristic_summary(
    title: Seq<char>,
    company: Seq<char>,
    description: Seq<char>,
    fetched: Option<Seq<char>>,
) -> Seq<char> {
    let base = match fetched {
        Some(f) => match trimmed_nonempty(f) {
            Some(t) => truncated(t, SUMMARY_BASE_CHARS as nat),
            None => truncated(trim(description), SUMMARY_BASE_CHARS as nat),
        },
        None => truncated(trim(description), SUMMARY_BASE_CHARS as nat),
    };
    let head = or_unknown(title, "Unknown role"@) + " at "@ + or_unknown(company, "Unknown company"@);
    if base.len() == 0 {
        head + ". Summary unavailable from source content."@
    } else {
        head + ". "@ + base
    }
}

fn or_unknown_text(s: &str, stand_in: &str) -> (r: Vec<char>)
    ensures
        r@ == or_unknown(s@, stand_in@),
{
    let t = trim_str(s);
    if t.len() == 0 {
        chars_of(stand_in)
    } else {
        t
    }
}

/// The heuristic summary sentence.
pub fn summary_sentence(candidate: &EnrichCandidate, fetched_text: Option<&str>) -> (r: String)
    ensures
        r@ == heuristic_summary(
            candidate.title@,
            candidate.company@,
            candidate.description@,
            crate::enrich::opt_str_view(fetched_text),
        ),
{
    let desc = trim_str(candidate.description.as_str());
    let base = match fetched_text {
        Some(f) => {
            let t = trim_str(f);
            if t.len() > 0 {
                truncate(&t, SUMMARY_BASE_CHARS)
            } else {
                truncate(&desc, SUMMARY_BASE_CHARS)
            }
        },
        None => truncate(&desc, SUMMARY_BASE_CHARS),
    };
    let mut out = or_unknown_text(candidate.title.as_str(), "Unknown role");
    append_str(&mut out, " at ");
    let company = or_unknown_text(candidate.company.as_str(), "Unknown company");
    append_chars(&mut out, &company);
    if base.len() == 0 {
        append_str(&mut out, ". Summary unavailable from source content.");
    } else {
        append_str(&mut out, ". ");
        append_chars(&mut out, &base);
    }
    string_of(&out)
}

} // verus!
