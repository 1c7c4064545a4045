//! Browser-side values: the debug endpoint, the tabs Chrome reports and
//! which of them the scanner may attach to.
use vstd::prelude::*;

use crate::external::{serialized_url, serialize_url};
use crate::text::{
    lower, to_lower, starts_with, starts_with_chars, append_str, chars_of, copy_opt_string,
    copy_string, opt_view, str_eq, string_of, u64_decimal, decimal,
};

verus! {

/// Browser version metadata.
pub struct BrowserVersion {
    pub browser: String,
    pub protocol_version: String,
}

/// A target as Chrome's `/json/list` reports it.
pub struct PageTarget {
    pub id: String,
    pub target_type: String,
    pub url: String,
    pub websocket_debugger_url: Option<String>,
}

/// A browser tab the scanner knows about.
pub struct BrowserPageTab {
    pub id: String,
    pub url: String,
    pub websocket_debugger_url: Option<String>,
}

/// A tab the scanner may attach to.
pub struct CandidateTab {
    pub url: String,
    pub websocket_debugger_url: String,
}

/// `http://127.0.0.1:<port>`.
pub open spec fn endpoint_of(port: u16) -> Seq<char> {
    "http://127.0.0.1:"@ + decimal(port as nat)
}

/// Base URL of Chrome's remote debugging endpoint on a local port.
pub fn debug_endpoint(port: u16) -> (r: String)
    ensures
        r@ == endpoint_of(port),
{
    let mut v = chars_of("http://127.0.0.1:");
    let d = u64_decimal(port as u64);
    crate::text::append_chars(&mut v, &d);
    string_of(&v)
}

/// A target the scanner lists: a page with a debugger socket.
pub open spec fn inspectable(target_type: Seq<char>, ws: Option<Seq<char>>) -> bool {
    target_type == "page"@ && ws is Some
}

/// Whether a target is a page with a debugger socket.
pub fn is_inspectable_page(t: &PageTarget) -> (r: bool)
    ensures
        r == inspectable(t.target_type@, opt_view(t.websocket_debugger_url)),
{
    str_eq(t.target_type.as_str(), "page") && t.websocket_debugger_url.is_some()
}

/// Mathematical value of a `BrowserPageTab`.
pub struct BrowserPageTabView {
    pub id: Seq<char>,
    pub url: Seq<char>,
    pub websocket_debugger_url: Option<Seq<char>>,
}

impl View for BrowserPageTab {
    type V = BrowserPageTabView;

    open spec fn view(&self) -> BrowserPageTabView {
        BrowserPageTabView {
            id: self.id@,
            url: self.url@,
            websocket_debugger_url: opt_view(self.websocket_debugger_url),
        }
    }
}

/// Mathematical value of a `CandidateTab`.
pub struct CandidateTabView {
    pub url: Seq<char>,
    pub websocket_debugger_url: Seq<char>,
}

impl View for CandidateTab {
    type V = CandidateTabView;

    open spec fn view(&self) -> CandidateTabView {
        CandidateTabView { url: self.url@, websocket_debugger_url: self.websocket_debugger_url@ }
    }
}

pub open spec fn tab_views(v: Seq<BrowserPageTab>) -> Seq<BrowserPageTabView> {
    Seq::new(v.len(), |i: int| v[i]@)
}

pub open spec fn candidate_views(v: Seq<CandidateTab>) -> Seq<CandidateTabView> {
    Seq::new(v.len(), |i: int| v[i]@)
}

/// The tab a target stands for.
pub open spec fn target_tab(t: PageTarget) -> BrowserPageTabView {
    BrowserPageTabView {
        id: t.id@,
        url: t.url@,
        websocket_debugger_url: opt_view(t.websocket_debugger_url),
    }
}

/// The inspectable pages among the targets, in order.
pub open spec fn inspectable_tabs(all: Seq<PageTarget>) -> Seq<BrowserPageTabView>
    decreases all.len(),
{
    if all.len() == 0 {
        seq![]
    } else if inspectable(all.last().target_type@, opt_view(all.last().websocket_debugger_url)) {
        inspectable_tabs(all.drop_last()).push(target_tab(all.last()))
    } else {
        inspectable_tabs(all.drop_last())
    }
}

/// The tabs with a debugger socket, as candidates, in order.
pub open spec fn candidates_of(tabs: Seq<BrowserPageTabView>) -> Seq<CandidateTabView>
    decreases tabs.len(),
{
    if tabs.len() == 0 {
        seq![]
    } else {
        match tabs.last().websocket_debugger_url {
            Some(ws) => candidates_of(tabs.drop_last()).push(
                CandidateTabView { url: tabs.last().url, websocket_debugger_url: ws },
            ),
            None => candidates_of(tabs.drop_last()),
        }
    }
}

/// The page tabs among Chrome's targets, in order.
pub fn inspectable_pages(all: &Vec<PageTarget>) -> (r: Vec<BrowserPageTab>)
    ensures
        tab_views(r@) == inspectable_tabs(all@),
{
    let mut out: Vec<BrowserPageTab> = Vec::new();
    let mut k: usize = 0;
    while k < all.len()
        invariant
            k <= all@.len(),
            tab_views(out@) == inspectable_tabs(all@.take(k as int)),
        decreases all@.len() - k,
    {
        proof {
            assert(all@.take(k + 1).drop_last() =~= all@.take(k as int));
            assert(all@.take(k + 1).last() == all@[k as int]);
        }
        let t = &all[k];
        if is_inspectable_page(t) {
            let ghost before = out@;
            out.push(page_tab_of(t));
            proof {
                assert(tab_views(out@) =~= tab_views(before).push(target_tab(all@[k as int])));
            }
        }
        k = k + 1;
    }
    assert(all@.take(k as int) =~= all@);
    out
}

/// A tab as the scanner sees it.
pub fn page_tab_of(t: &PageTarget) -> (r: BrowserPageTab)
    ensures
        r@ == target_tab(*t),
{
    BrowserPageTab {
        id: copy_string(&t.id),
        url: copy_string(&t.url),
        websocket_debugger_url: copy_opt_string(&t.websocket_debugger_url),
    }
}

/// The tabs with a debugger socket, as candidates, in order.
pub fn candidate_tabs(tabs: &Vec<BrowserPageTab>) -> (r: Vec<CandidateTab>)
    ensures
        candidate_views(r@) == candidates_of(tab_views(tabs@)),
{
    let ghost all = tab_views(tabs@);
    let mut out: Vec<CandidateTab> = Vec::new();
    let mut k: usize = 0;
    while k < tabs.len()
        invariant
            k <= tabs@.len(),
            all == tab_views(tabs@),
            candidate_views(out@) == candidates_of(all.take(k as int)),
        decreases tabs@.len() - k,
    {
        proof {
            assert(all.take(k + 1).drop_last() =~= all.take(k as int));
            assert(all.take(k + 1).last() == tabs@[k as int]@);
        }
        match &tabs[k].websocket_debugger_url {
            Some(ws) => {
                let ghost before = out@;
                out.push(
                    CandidateTab {
                        url: copy_string(&tabs[k].url),
                        websocket_debugger_url: copy_string(ws),
                    },
                );
                proof {
                    assert(candidate_views(out@) =~= candidate_views(before).push(
                        CandidateTabView { url: tabs@[k as int].url@, websocket_debugger_url: ws@ },
                    ));
                }
            },
            None => {},
        }
        k = k + 1;
    }
    assert(all.take(k as int) =~= all);
    out
}

/// `<endpoint>/json/new?<url>`, the URL normalized by the URL parser where
/// it parses.
pub open spec fn new_tab_endpoint(endpoint: Seq<char>, url: Seq<char>) -> Seq<char> {
    endpoint + "/json/new?"@ + match serialized_url(url) {
        Some(s) => s,
        None => url,
    }
}

/// The request URL that opens a new tab on a URL.
pub fn new_tab_request(endpoint: &str, url: &str) -> (r: String)
    ensures
        r@ == new_tab_endpoint(endpoint@, url@),
{
    let mut v = chars_of(endpoint);
    append_str(&mut v, "/json/new?");
    match serialize_url(url) {
        Some(s) => append_str(&mut v, s.as_str()),
        None => append_str(&mut v, url),
    }
    string_of(&v)
}

/// `<endpoint><path>`, one of the debugger's JSON routes.
pub fn endpoint_route(endpoint: &str, path: &str) -> (r: String)
    ensures
        r@ == endpoint@ + path@,
{
    let mut v = chars_of(endpoint);
    append_str(&mut v, path);
    string_of(&v)
}

/// The arguments Chrome is launched with: the debugging port, the
/// dedicated profile directory, and no first-run or default-browser
/// prompts.
pub fn chrome_launch_args(debug_port: u16, profile_dir: &str) -> (r: Vec<String>)
    ensures
        crate::text::strs(r@) == seq![
            "--remote-debugging-port="@ + decimal(debug_port as nat),
            "--user-data-dir="@ + profile_dir@,
            "--no-first-run"@,
            "--no-default-browser-check"@,
        ],
{
    let mut port_arg = chars_of("--remote-debugging-port=");
    crate::text::append_chars(&mut port_arg, &u64_decimal(debug_port as u64));
    let mut dir_arg = chars_of("--user-data-dir=");
    append_str(&mut dir_arg, profile_dir);
    let mut v: Vec<String> = Vec::new();
    v.push(string_of(&port_arg));
    v.push(string_of(&dir_arg));
    v.push(string_of(&chars_of("--no-first-run")));
    v.push(string_of(&chars_of("--no-default-browser-check")));
    assert(crate::text::strs(v@) =~= seq![
        "--remote-debugging-port="@ + decimal(debug_port as nat),
        "--user-data-dir="@ + profile_dir@,
        "--no-first-run"@,
        "--no-default-browser-check"@,
    ]);
    v
}

/// A startup URL counts as open when some open tab's URL, lower-cased,
/// starts with it lower-cased.
pub open spec fn already_open(open_urls: Seq<Seq<char>>, startup_url: Seq<char>) -> bool {
    exists|i: int| 0 <= i < open_urls.len() && starts_with(lower(#[trigger] open_urls[i]), lower(startup_url))
}

/// Whether a startup URL still needs a tab.
pub fn startup_tab_needed(open_urls: &Vec<String>, startup_url: &str) -> (r: bool)
    ensures
        r == !already_open(crate::text::strs(open_urls@), startup_url@),
{
    let key = to_lower(&chars_of(startup_url));
    let mut i: usize = 0;
    while i < open_urls.len()
        invariant
            i <= open_urls@.len(),
            key@ == lower(startup_url@),
            forall|k: int|
                0 <= k < i ==> !starts_with(lower(#[trigger] crate::text::strs(open_urls@)[k]), lower(startup_url@)),
        decreases open_urls@.len() - i,
    {
        let u = to_lower(&chars_of(open_urls[i].as_str()));
        if starts_with_chars(&u, &key) {
            assert(crate::text::strs(open_urls@)[i as int] == open_urls@[i as int]@);
            return false;
        }
        assert(crate::text::strs(open_urls@)[i as int] == open_urls@[i as int]@);
        i = i + 1;
    }
    true
}

/// What a DevTools message means to a call waiting for the reply to
/// request `request_id`.
pub enum CdpReply {
    /// A message about something else; keep waiting.
    Other,
    /// The reply, reporting an error.
    Failed,
    /// The reply, with its result.
    Answered,
}

/// Matches a message (its `id`, and whether it holds an `error`) against
/// the request a call waits for.
pub fn classify_reply(message_id: Option<u64>, has_error: bool, request_id: u64) -> (r: CdpReply)
    ensures
        message_id != Some(request_id) ==> r is Other,
        message_id == Some(request_id) && has_error ==> r is Failed,
        message_id == Some(request_id) && !has_error ==> r is Answered,
{
    match message_id {
        Some(id) => {
            if id != request_id {
                CdpReply::Other
            } else if has_error {
                CdpReply::Failed
            } else {
                CdpReply::Answered
            }
        },
        None => CdpReply::Other,
    }
}

} // verus!
