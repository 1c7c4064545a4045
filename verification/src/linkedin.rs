//! LinkedIn page snapshots: what the page scripts report, the clean-up
//! applied to it, and its conversion into scan data.
use vstd::prelude::*;

use crate::external::{parse_url, parsed_url};
use crate::job::{JobDetailData, SearchCardData, SearchPageData};
use crate::text::{copy_opt_string, copy_string, copy_strings, opt_view, strs};

verus! {

/// CSS selectors of the search page.
pub struct LinkedInSearchSelectors {
    pub card_node_selectors: Vec<String>,
    pub title_selectors: Vec<String>,
    pub next_page_selectors: Vec<String>,
}

/// CSS selectors of a job page.
pub struct LinkedInJobSelectors {
    pub title_selectors: Vec<String>,
    pub company_selectors: Vec<String>,
    pub location_selectors: Vec<String>,
    pub employment_type_selectors: Vec<String>,
    pub posted_text_selectors: Vec<String>,
    pub description_selectors: Vec<String>,
    pub company_summary_selectors: Vec<String>,
    pub company_size_selectors: Vec<String>,
}

/// A job card as the search page script reports it.
pub struct SearchCard {
    pub title: String,
    pub company_hint: Option<String>,
    pub job_url: String,
    pub footer_items: Vec<String>,
    pub posted_age_text: Option<String>,
    pub raw_text: String,
}

/// What the search page script reports.
pub struct SearchPageSnapshot {
    pub page_url: String,
    pub page_title: String,
    pub job_cards: Vec<SearchCard>,
    pub job_links: Vec<String>,
    pub next_page_url: Option<String>,
    pub fingerprint_source: String,
    pub materialization_steps: Option<u64>,
    pub materialization_unique_urls: Option<u64>,
    pub materialization_container_kind: Option<String>,
}

/// What the job page script reports.
pub struct JobDetailSnapshot {
    pub url: String,
    pub about_job_dom: String,
    pub title: String,
    pub company: String,
    pub location: Option<String>,
    pub employment_type: Option<String>,
    pub posted_text: Option<String>,
    pub description: String,
    pub requirements: Vec<String>,
    pub company_domain: Option<String>,
    pub company_summary: Option<String>,
    pub company_size: Option<String>,
}

/// Whether a URL parses.
pub open spec fn parses(url: Seq<char>) -> bool {
    parsed_url(url) is Some
}

/// URLs of the cards, in order.
pub open spec fn card_urls(cards: Seq<SearchCard>) -> Seq<Seq<char>> {
    Seq::new(cards.len(), |i: int| cards[i].job_url@)
}

/// The URLs that parse, in order.
pub open spec fn parsable(urls: Seq<Seq<char>>) -> Seq<Seq<char>>
    decreases urls.len(),
{
    if urls.len() == 0 {
        seq![]
    } else if parses(urls.last()) {
        parsable(urls.drop_last()).push(urls.last())
    } else {
        parsable(urls.drop_last())
    }
}

/// The cards whose URL parses, in order.
pub open spec fn parsable_cards(cards: Seq<SearchCard>) -> Seq<SearchCard>
    decreases cards.len(),
{
    if cards.len() == 0 {
        seq![]
    } else if parses(cards.last().job_url@) {
        parsable_cards(cards.drop_last()).push(cards.last())
    } else {
        parsable_cards(cards.drop_last())
    }
}

/// A search snapshot cleaned up: cards whose URL does not parse dropped;
/// without reported links, the cards' URLs taken as links; links that do
/// not parse dropped.
pub fn finish_search_snapshot(snapshot: SearchPageSnapshot) -> (r: SearchPageSnapshot)
    ensures
        r.job_cards@ == parsable_cards(snapshot.job_cards@),
        strs(r.job_links@) == parsable(
            if snapshot.job_links@.len() == 0 {
                card_urls(parsable_cards(snapshot.job_cards@))
            } else {
                strs(snapshot.job_links@)
            },
        ),
        r.page_url@ == snapshot.page_url@,
        r.page_title@ == snapshot.page_title@,
        r.fingerprint_source@ == snapshot.fingerprint_source@,
        opt_view(r.next_page_url) == opt_view(snapshot.next_page_url),
        r.materialization_steps == snapshot.materialization_steps,
        r.materialization_unique_urls == snapshot.materialization_unique_urls,
        opt_view(r.materialization_container_kind) == opt_view(
            snapshot.materialization_container_kind,
        ),
{
    let SearchPageSnapshot {
        page_url,
        page_title,
        job_cards,
        job_links,
        next_page_url,
        fingerprint_source,
        materialization_steps,
        materialization_unique_urls,
        materialization_container_kind,
    } = snapshot;
    let ghost all_cards = job_cards@;
    let mut cards = job_cards;
    let mut kept: Vec<SearchCard> = Vec::new();
    let mut k: usize = 0;
    let total = cards.len();
    while k < total
        invariant
            k <= total,
            total == all_cards.len(),
            cards@.len() == total - k,
            cards@ == all_cards.skip(k as int),
            kept@ == parsable_cards(all_cards.take(k as int)),
        decreases total - k,
    {
        let ghost before = cards@;
        let c = cards.remove(0);
        proof {
            assert(c == all_cards[k as int]);
            assert(cards@ =~= all_cards.skip(k + 1));
            assert(all_cards.take(k + 1).drop_last() =~= all_cards.take(k as int));
            assert(all_cards.take(k + 1).last() == c);
        }
        match parse_url(c.job_url.as_str()) {
            Some(_) => {
                kept.push(c);
            },
            None => {},
        }
        k = k + 1;
    }
    assert(all_cards.take(k as int) =~= all_cards);
    let mut links: Vec<String> = Vec::new();
    if job_links.len() == 0 {
        let mut i: usize = 0;
        while i < kept.len()
            invariant
                i <= kept@.len(),
                strs(links@) =~= card_urls(kept@).take(i as int),
            decreases kept@.len() - i,
        {
            let ghost b = strs(links@);
            links.push(copy_string(&kept[i].job_url));
            assert(strs(links@) =~= b.push(card_urls(kept@)[i as int]));
            i = i + 1;
        }
        assert(card_urls(kept@).take(i as int) =~= card_urls(kept@));
    } else {
        links = job_links;
    }
    let ghost src = strs(links@);
    let mut out: Vec<String> = Vec::new();
    let mut j: usize = 0;
    while j < links.len()
        invariant
            j <= links@.len(),
            src == strs(links@),
            strs(out@) == parsable(src.take(j as int)),
        decreases links@.len() - j,
    {
        proof {
            assert(src.take(j + 1).drop_last() =~= src.take(j as int));
            assert(src.take(j + 1).last() == links@[j as int]@);
        }
        match parse_url(links[j].as_str()) {
            Some(_) => {
                let ghost b = strs(out@);
                out.push(copy_string(&links[j]));
                assert(strs(out@) =~= b.push(links@[j as int]@));
            },
            None => {},
        }
        j = j + 1;
    }
    assert(src.take(j as int) =~= src);
    SearchPageSnapshot {
        page_url,
        page_title,
        job_cards: kept,
        job_links: out,
        next_page_url,
        fingerprint_source,
        materialization_steps,
        materialization_unique_urls,
        materialization_container_kind,
    }
}

/// Domain of a URL, as the URL parser reads it.
pub open spec fn url_domain(url: Seq<char>) -> Option<Seq<char>> {
    match parsed_url(url) {
        Some(p) => p.domain,
        None => None,
    }
}

/// The domain of a job URL, used when the page names none.
pub fn guess_company_domain(url: &str) -> (r: Option<String>)
    ensures
        opt_view(r) == url_domain(url@),
{
    match parse_url(url) {
        Some(p) => p.domain,
        None => None,
    }
}

/// A job snapshot with the company domain filled from the URL when the
/// page named none.
pub fn finish_job_snapshot(snapshot: JobDetailSnapshot) -> (r: JobDetailSnapshot)
    ensures
        opt_view(r.company_domain) == match snapshot.company_domain {
            Some(d) => Some(d@),
            None => url_domain(snapshot.url@),
        },
        r.url@ == snapshot.url@,
        r.about_job_dom@ == snapshot.about_job_dom@,
        r.title@ == snapshot.title@,
        r.company@ == snapshot.company@,
        opt_view(r.location) == opt_view(snapshot.location),
        opt_view(r.employment_type) == opt_view(snapshot.employment_type),
        opt_view(r.posted_text) == opt_view(snapshot.posted_text),
        r.description@ == snapshot.description@,
        strs(r.requirements@) == strs(snapshot.requirements@),
        opt_view(r.company_summary) == opt_view(snapshot.company_summary),
        opt_view(r.company_size) == opt_view(snapshot.company_size),
{
    let mut s = snapshot;
    if s.company_domain.is_none() {
        s.company_domain = guess_company_domain(s.url.as_str());
    }
    s
}

/// Card data holding the same values as a parsed card.
pub open spec fn same_card(d: SearchCardData, c: SearchCard) -> bool {
    &&& d.title@ == c.title@
    &&& d.job_url@ == c.job_url@
    &&& strs(d.footer_items@) == strs(c.footer_items@)
    &&& opt_view(d.posted_age_text) == opt_view(c.posted_age_text)
}

/// Card data the scanner works with.
pub fn card_data(card: &SearchCard) -> (r: SearchCardData)
    ensures
        same_card(r, *card),
{
    SearchCardData {
        title: copy_string(&card.title),
        job_url: copy_string(&card.job_url),
        footer_items: copy_strings(card.footer_items.as_slice()),
        posted_age_text: copy_opt_string(&card.posted_age_text),
    }
}

/// Search page data the scanner works with.
pub fn search_page_data(snapshot: &SearchPageSnapshot) -> (r: SearchPageData)
    ensures
        r.job_cards@.len() == snapshot.job_cards@.len(),
        forall|i: int|
            0 <= i < r.job_cards@.len() ==> same_card(
                #[trigger] r.job_cards@[i],
                snapshot.job_cards@[i],
            ),
        strs(r.job_links@) == strs(snapshot.job_links@),
        opt_view(r.next_page_url) == opt_view(snapshot.next_page_url),
        r.fingerprint_source@ == snapshot.fingerprint_source@,
{
    let mut cards: Vec<SearchCardData> = Vec::new();
    let mut i: usize = 0;
    while i < snapshot.job_cards.len()
        invariant
            i <= snapshot.job_cards@.len(),
            cards@.len() == i,
            forall|k: int| 0 <= k < i ==> same_card(#[trigger] cards@[k], snapshot.job_cards@[k]),
        decreases snapshot.job_cards@.len() - i,
    {
        cards.push(card_data(&snapshot.job_cards[i]));
        i = i + 1;
    }
    SearchPageData {
        job_cards: cards,
        job_links: copy_strings(snapshot.job_links.as_slice()),
        next_page_url: copy_opt_string(&snapshot.next_page_url),
        fingerprint_source: copy_string(&snapshot.fingerprint_source),
    }
}

/// Job detail data the scanner works with.
pub fn job_detail_data(s: JobDetailSnapshot) -> (r: JobDetailData)
    ensures
        r.url@ == s.url@,
        r.about_job_dom@ == s.about_job_dom@,
        r.title@ == s.title@,
        r.company@ == s.company@,
        opt_view(r.location) == opt_view(s.location),
        opt_view(r.employment_type) == opt_view(s.employment_type),
        opt_view(r.posted_text) == opt_view(s.posted_text),
        r.description@ == s.description@,
        strs(r.requirements@) == strs(s.requirements@),
        opt_view(r.company_domain) == opt_view(s.company_domain),
        opt_view(r.company_summary) == opt_view(s.company_summary),
        opt_view(r.company_size) == opt_view(s.company_size),
{
    JobDetailData {
        url: s.url,
        about_job_dom: s.about_job_dom,
        title: s.title,
        company: s.company,
        location: s.location,
        employment_type: s.employment_type,
        posted_text: s.posted_text,
        description: s.description,
        requirements: s.requirements,
        company_domain: s.company_domain,
        company_summary: s.company_summary,
        company_size: s.company_size,
    }
}

} // verus!
