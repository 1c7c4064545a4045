//! Reading a fetched listing page: the job links on it and the cursor of
//! the next page.
use vstd::prelude::*;

use crate::extract::{ExtractPage, ExtractPageRequest};
use crate::external::{
    join_url, opt_string_view, pair_views, parse_url, parsed_url, regex_captures,
    regex_group_texts, replace_url_query, serialize_url, serialized_url, url_joined,
    url_query_replaced,
};
use crate::report::parse_usize;
use crate::text::{
    append_str, chars_eq_ignore_case, chars_eq_str, chars_of, contains, contains_str, copy_string,
    decimal, eq_ignore_case, lower, opt_view, parse_u64_chars, skip_chars, split_whitespace,
    starts_with, starts_with_str, string_of, strs, to_lower, trim, trim_lower, trim_str,
    u64_decimal, views, words,
};

verus! {

/// Pattern of an `href` attribute; group 1 is its value.
pub const HREF_PATTERN: &'static str = "(?i)href\\s*=\\s*[\"']([^\"']+)[\"']";

/// Pattern of an opening anchor tag.
pub const ANCHOR_PATTERN: &'static str = "(?is)<a\\b[^>]*>";

/// Whether a URL belongs to the platform: LinkedIn and Telegram by host
/// text, anything for other platforms.
pub open spec fn platform_matches(platform: Seq<char>, url: Seq<char>) -> bool {
    let p = lower(trim(platform));
    let u = lower(url);
    if p == "linkedin"@ {
        contains(u, "linkedin.com"@)
    } else if p == "telegram"@ {
        contains(u, "t.me/"@) || contains(u, "telegram.me/"@)
    } else {
        true
    }
}

/// Whether a URL looks like a job posting of the platform.
pub open spec fn job_link(platform: Seq<char>, url: Seq<char>) -> bool {
    let p = lower(trim(platform));
    let u = lower(url);
    if p == "linkedin"@ {
        contains(u, "/jobs/view"@)
    } else if p == "telegram"@ {
        contains(u, "t.me/"@) || contains(u, "telegram.me/"@)
    } else {
        contains(u, "job"@) || contains(u, "career"@) || contains(u, "position"@)
    }
}

/// Whether the URL belongs to the platform.
pub fn matches_platform(platform: &str, url: &str) -> (r: bool)
    ensures
        r == platform_matches(platform@, url@),
{
    let p = trim_lower(platform);
    let u = to_lower(&chars_of(url));
    if chars_eq_str(&p, "linkedin") {
        contains_str(&u, "linkedin.com")
    } else if chars_eq_str(&p, "telegram") {
        contains_str(&u, "t.me/") || contains_str(&u, "telegram.me/")
    } else {
        true
    }
}

/// Whether the URL looks like a job posting of the platform.
pub fn looks_like_job_link(platform: &str, url: &str) -> (r: bool)
    ensures
        r == job_link(platform@, url@),
{
    let p = trim_lower(platform);
    let u = to_lower(&chars_of(url));
    if chars_eq_str(&p, "linkedin") {
        contains_str(&u, "/jobs/view")
    } else if chars_eq_str(&p, "telegram") {
        contains_str(&u, "t.me/") || contains_str(&u, "telegram.me/")
    } else {
        contains_str(&u, "job") || contains_str(&u, "career") || contains_str(&u, "position")
    }
}

/// A link made absolute: blank, fragment-only and `javascript:` links give
/// nothing; an absolute URL is normalized by the URL parser; a relative one
/// is resolved against the page URL; nothing where neither works.
pub open spec fn absolutized(raw: Seq<char>, base: Seq<char>) -> Seq<char> {
    let t = trim(raw);
    if t.len() == 0 || starts_with(t, "#"@) || starts_with(t, "javascript:"@) {
        seq![]
    } else {
        match serialized_url(t) {
            Some(s) => s,
            None => match url_joined(base, t) {
                Some(j) => j,
                None => seq![],
            },
        }
    }
}

/// The absolute form of a link found on the page at `base_url`.
pub fn absolutize_url(raw: &str, base_url: &str) -> (r: String)
    ensures
        r@ == absolutized(raw@, base_url@),
{
    let t = trim_str(raw);
    if t.len() == 0 || starts_with_str(&t, "#") || starts_with_str(&t, "javascript:") {
        return string_of(&Vec::new());
    }
    let ts = string_of(&t);
    match serialize_url(ts.as_str()) {
        Some(s) => s,
        None => match join_url(base_url, ts.as_str()) {
            Some(j) => j,
            None => string_of(&Vec::new()),
        },
    }
}

/// Pattern of an attribute of a tag; group 1 is its value.
pub open spec fn attr_pattern(attr: Seq<char>) -> Seq<char> {
    "(?i)\\b"@ + attr + "\\s*=\\s*[\"']([^\"']+)[\"']"@
}

/// Value of the first such attribute in the tag, empty when there is
/// none; `None` where the pattern does not compile.
pub open spec fn tag_attr(tag: Seq<char>, attr: Seq<char>) -> Option<Seq<char>> {
    match regex_group_texts(attr_pattern(attr), tag, 1) {
        Some(l) => Some(
            if l.len() > 0 {
                l[0]
            } else {
                seq![]
            },
        ),
        None => None,
    }
}

/// The value of an attribute of a tag.
pub fn extract_tag_attr(tag: &str, attr: &str) -> (r: Option<String>)
    ensures
        opt_string_view(&r) == tag_attr(tag@, attr@),
{
    let mut p = chars_of("(?i)\\b");
    append_str(&mut p, attr);
    append_str(&mut p, "\\s*=\\s*[\"']([^\"']+)[\"']");
    let pattern = string_of(&p);
    match regex_captures(pattern.as_str(), tag, 1) {
        Some(v) => if v.len() > 0 {
            Some(copy_string(&v[0]))
        } else {
            Some(string_of(&Vec::new()))
        },
        None => None,
    }
}

/// The job link a raw `href` gives, if it is one: absolute, `http`, of
/// the platform and shaped like a job posting.
pub open spec fn link_of(raw: Seq<char>, base: Seq<char>, platform: Seq<char>) -> Option<Seq<char>> {
    let u = absolutized(raw, base);
    if u.len() == 0 || !starts_with(u, "http"@) || !platform_matches(platform, u) || !job_link(
        platform,
        u,
    ) {
        None
    } else {
        Some(u)
    }
}

/// Links gathered from raw `href`s in order, each once, stopping once
/// `max` are gathered (a first link is always taken): the links and
/// whether the limit was reached.
pub open spec fn gathered(raws: Seq<Seq<char>>, base: Seq<char>, platform: Seq<char>, max: nat) -> (
    Seq<Seq<char>>,
    bool,
)
    decreases raws.len(),
{
    if raws.len() == 0 {
        (seq![], false)
    } else {
        let st = gathered(raws.drop_last(), base, platform, max);
        if st.1 {
            st
        } else {
            match link_of(raws.last(), base, platform) {
                Some(u) => if st.0.contains(u) {
                    st
                } else {
                    (st.0.push(u), st.0.len() + 1 >= max)
                },
                None => st,
            }
        }
    }
}

/// The job links of a page; `None` where the pattern does not compile.
pub open spec fn job_urls_of(body: Seq<char>, base: Seq<char>, platform: Seq<char>, max: nat) -> Option<
    Seq<Seq<char>>,
> {
    match regex_group_texts(HREF_PATTERN@, body, 1) {
        Some(raws) => Some(gathered(raws, base, platform, max).0),
        None => None,
    }
}

/// The job links on a fetched page, at most `max_links` (at least one
/// when there is any).
pub fn extract_job_urls(body: &str, base_url: &str, platform: &str, max_links: usize) -> (r: Option<
    Vec<String>,
>)
    ensures
        match r {
            Some(v) => job_urls_of(body@, base_url@, platform@, max_links as nat) == Some(strs(v@)),
            None => job_urls_of(body@, base_url@, platform@, max_links as nat) is None,
        },
{
    let raws = match regex_captures(HREF_PATTERN, body, 1) {
        Some(v) => v,
        None => {
            return None;
        },
    };
    let ghost all = strs(raws@);
    let mut out: Vec<Vec<char>> = Vec::new();
    let mut done = false;
    let mut i: usize = 0;
    while i < raws.len()
        invariant
            i <= raws.len(),
            all == strs(raws@),
            (views(out@), done) == gathered(
                all.take(i as int),
                base_url@,
                platform@,
                max_links as nat,
            ),
            out@.len() <= i,
        decreases raws.len() - i,
    {
        proof {
            assert(all.take(i + 1).drop_last() =~= all.take(i as int));
            assert(all.take(i + 1).last() == raws@[i as int]@);
        }
        if !done {
            let u = absolutize_url(raws[i].as_str(), base_url);
            let uv = chars_of(u.as_str());
            if uv.len() > 0 && starts_with_str(&uv, "http") && matches_platform(platform, u.as_str())
                && looks_like_job_link(platform, u.as_str()) {
                if !crate::text::any_eq(&out, &uv) {
                    let ghost before = views(out@);
                    out.push(uv);
                    assert(views(out@) =~= before.push(u@));
                    done = out.len() >= max_links;
                }
            }
        }
        i = i + 1;
    }
    assert(all.take(i as int) =~= all);
    let r = crate::text::strings_of(&out);
    Some(r)
}

/// A `rel` value that includes `next`, ignoring ASCII case.
pub open spec fn rel_is_next(rel: Seq<char>) -> bool {
    words(lower(rel)).contains("next"@)
}

/// Next-page link among the anchor tags from index `i` on: the first whose
/// `rel` includes `next` and whose absolute `href` is neither blank nor
/// the current page. `Some(None)` when there is none; `None` where a
/// pattern does not compile.
pub open spec fn next_from(tags: Seq<Seq<char>>, i: int, current: Seq<char>) -> Option<
    Option<Seq<char>>,
>
    decreases tags.len() - i,
{
    if i < 0 || i >= tags.len() {
        Some(None)
    } else {
        match tag_attr(tags[i], "rel"@) {
            None => None,
            Some(rel) => if !rel_is_next(rel) {
                next_from(tags, i + 1, current)
            } else {
                match tag_attr(tags[i], "href"@) {
                    None => None,
                    Some(href) => {
                        let n = absolutized(href, current);
                        if n.len() > 0 && n != current {
                            Some(Some(n))
                        } else {
                            next_from(tags, i + 1, current)
                        }
                    },
                }
            },
        }
    }
}

/// The value the last `start` pair sets (0 where it does not parse), 0
/// without one.
pub open spec fn start_param(pairs: Seq<(Seq<char>, Seq<char>)>) -> nat
    decreases pairs.len(),
{
    if pairs.len() == 0 {
        0
    } else if pairs.last().0 == "start"@ {
        match parse_usize(pairs.last().1) {
            Some(v) => v as nat,
            None => 0,
        }
    } else {
        start_param(pairs.drop_last())
    }
}

/// The pairs other than `start`, in order.
pub open spec fn other_params(pairs: Seq<(Seq<char>, Seq<char>)>) -> Seq<(Seq<char>, Seq<char>)>
    decreases pairs.len(),
{
    if pairs.len() == 0 {
        seq![]
    } else if pairs.last().0 == "start"@ {
        other_params(pairs.drop_last())
    } else {
        other_params(pairs.drop_last()).push(pairs.last())
    }
}

/// LinkedIn's next search page: the same URL with `start` moved on by 25
/// results; `None` off LinkedIn, where the URL does not change, or where
/// the offset would not fit in `usize`.
pub open spec fn linkedin_next(current: Seq<char>) -> Option<Seq<char>> {
    match parsed_url(current) {
        None => None,
        Some(p) => match p.host {
            None => None,
            Some(h) => if !contains(lower(h), "linkedin.com"@) {
                None
            } else if start_param(p.query_pairs) + 25 > usize::MAX {
                None
            } else {
                let params = other_params(p.query_pairs).push(
                    ("start"@, decimal(start_param(p.query_pairs) + 25)),
                );
                match url_query_replaced(current, params) {
                    Some(n) => if n == current {
                        None
                    } else {
                        Some(n)
                    },
                    None => None,
                }
            },
        },
    }
}

/// LinkedIn's next search page after the current one.
pub fn linkedin_next_cursor(current_url: &str) -> (r: Option<String>)
    ensures
        opt_string_view(&r) == linkedin_next(current_url@),
{
    let parts = match parse_url(current_url) {
        Some(p) => p,
        None => {
            return None;
        },
    };
    let host = match &parts.host {
        Some(h) => to_lower(&chars_of(h.as_str())),
        None => {
            return None;
        },
    };
    if !contains_str(&host, "linkedin.com") {
        return None;
    }
    let ghost pairs = pair_views(parts.query_pairs@);
    let mut start: usize = 0;
    let mut params: Vec<(String, String)> = Vec::new();
    let mut i: usize = 0;
    while i < parts.query_pairs.len()
        invariant
            i <= parts.query_pairs@.len(),
            pairs == pair_views(parts.query_pairs@),
            start as nat == start_param(pairs.take(i as int)),
            pair_views(params@) == other_params(pairs.take(i as int)),
        decreases parts.query_pairs@.len() - i,
    {
        proof {
            assert(pairs.take(i + 1).drop_last() =~= pairs.take(i as int));
            assert(pairs.take(i + 1).last() == pairs[i as int]);
        }
        let k = &parts.query_pairs[i].0;
        let v = &parts.query_pairs[i].1;
        if crate::text::str_eq(k.as_str(), "start") {
            let vv = chars_of(v.as_str());
            let body = if vv.len() > 0 && vv[0] == '+' {
                skip_chars(&vv, 1)
            } else {
                vv
            };
            start = match parse_u64_chars(&body) {
                Some(n) => if n <= usize::MAX as u64 {
                    n as usize
                } else {
                    0
                },
                None => 0,
            };
        } else {
            let ghost before = pair_views(params@);
            params.push((copy_string(k), copy_string(v)));
            assert(pair_views(params@) =~= before.push(pairs[i as int]));
        }
        i = i + 1;
    }
    assert(pairs.take(i as int) =~= pairs);
    let next_start = match start.checked_add(25) {
        Some(n) => n,
        None => {
            return None;
        },
    };
    let ghost before = pair_views(params@);
    let start_text = string_of(&u64_decimal(next_start as u64));
    params.push((string_of(&chars_of("start")), start_text));
    assert(pair_views(params@) =~= before.push(("start"@, decimal(next_start as nat))));
    let next = match replace_url_query(current_url, &params) {
        Some(n) => n,
        None => {
            return None;
        },
    };
    if crate::text::str_eq(next.as_str(), current_url) {
        None
    } else {
        Some(next)
    }
}

/// The next page's cursor; `None` where a pattern does not compile.
pub open spec fn next_cursor_of(body: Seq<char>, current: Seq<char>, platform: Seq<char>) -> Option<
    Option<Seq<char>>,
> {
    match regex_group_texts(ANCHOR_PATTERN@, body, 0) {
        None => None,
        Some(tags) => match next_from(tags, 0, current) {
            None => None,
            Some(Some(u)) => Some(Some(u)),
            Some(None) => if eq_ignore_case(platform, "linkedin"@) {
                Some(linkedin_next(current))
            } else {
                Some(None)
            },
        },
    }
}

/// The cursor of the page after the one fetched from `current_url`: a
/// `rel="next"` anchor, else LinkedIn's paging.
pub fn extract_next_cursor(body: &str, current_url: &str, platform: &str) -> (r: Option<
    Option<String>,
>)
    ensures
        match r {
            None => next_cursor_of(body@, current_url@, platform@) is None,
            Some(c) => next_cursor_of(body@, current_url@, platform@) == Some(opt_string_view(&c)),
        },
{
    let tags = match regex_captures(ANCHOR_PATTERN, body, 0) {
        Some(t) => t,
        None => {
            return None;
        },
    };
    let ghost ts = strs(tags@);
    assert(regex_group_texts(ANCHOR_PATTERN@, body@, 0) == Some(ts));
    let mut i: usize = 0;
    while i < tags.len()
        invariant
            i <= tags.len(),
            ts == strs(tags@),
            regex_group_texts(ANCHOR_PATTERN@, body@, 0) == Some(ts),
            next_from(ts, 0, current_url@) == next_from(ts, i as int, current_url@),
        decreases tags.len() - i,
    {
        let tag = &tags[i];
        assert(ts[i as int] == tag@);
        let rel = match extract_tag_attr(tag.as_str(), "rel") {
            Some(r) => r,
            None => {
                return None;
            },
        };
        let rel_words = split_whitespace(&to_lower(&chars_of(rel.as_str())));
        let next_word = chars_of("next");
        if crate::text::any_eq(&rel_words, &next_word) {
            let href = match extract_tag_attr(tag.as_str(), "href") {
                Some(h) => h,
                None => {
                    return None;
                },
            };
            let next_url = absolutize_url(href.as_str(), current_url);
            if chars_of(next_url.as_str()).len() > 0 && !crate::text::str_eq(
                next_url.as_str(),
                current_url,
            ) {
                return Some(Some(next_url));
            }
        }
        i = i + 1;
    }
    if chars_eq_ignore_case(&chars_of(platform), &chars_of("linkedin")) {
        return Some(linkedin_next_cursor(current_url));
    }
    Some(None)
}

/// The URL a page request fetches: the cursor, else the source.
pub fn page_url(request: &ExtractPageRequest) -> (r: String)
    ensures
        r@ == match request.source_cursor {
            Some(c) => c@,
            None => request.source_ref@,
        },
{
    match &request.source_cursor {
        Some(c) => copy_string(c),
        None => copy_string(&request.source_ref),
    }
}

/// The page read from the body fetched for a request; `None` where a
/// pattern does not compile.
pub fn page_from_body(body: &str, request: &ExtractPageRequest) -> (r: Option<ExtractPage>)
    ensures
        ({
            let current = match request.source_cursor {
                Some(c) => c@,
                None => request.source_ref@,
            };
            match r {
                Some(p) => job_urls_of(body@, current, request.platform@, request.max_links as nat)
                    == Some(strs(p.canonical_urls@)) && next_cursor_of(
                    body@,
                    current,
                    request.platform@,
                ) == Some(opt_view(p.next_cursor)),
                None => job_urls_of(body@, current, request.platform@, request.max_links as nat)
                    is None || next_cursor_of(body@, current, request.platform@) is None,
            }
        }),
{
    let current = page_url(request);
    let urls = match extract_job_urls(
        body,
        current.as_str(),
        request.platform.as_str(),
        request.max_links,
    ) {
        Some(u) => u,
        None => {
            return None;
        },
    };
    let next = match extract_next_cursor(body, current.as_str(), request.platform.as_str()) {
        Some(n) => n,
        None => {
            return None;
        },
    };
    Some(ExtractPage { canonical_urls: urls, next_cursor: next })
}

} // verus!
