//! Platform adapters: which platform a URL belongs to and whether it is a
//! search page, and the registry that resolves adapters.
use vstd::prelude::*;

use crate::browser::CandidateTab;
use crate::job::PlatformKind;
use crate::job_page::{hash_text, sha256_hex};
use crate::text::{chars_of, contains, contains_chars, lower, to_lower};

verus! {

/// URL matching of a platform (the extraction side lives with the browser
/// session).
pub trait PlatformAdapter {
    /// Stable platform kind.
    fn kind(&self) -> PlatformKind;

    /// Whether the URL belongs to this platform.
    fn matches_url(&self, url: &str) -> bool;

    /// Whether the URL is a search/list page.
    fn is_search_page(&self, url: &str) -> bool;
}

/// The LinkedIn adapter.
#[derive(Debug, Clone, Copy, PartialEq, Eq, Structural)]
pub struct LinkedInAdapter;

impl LinkedInAdapter {
    pub fn new() -> (r: Self)
        ensures
            r == LinkedInAdapter,
    {
        LinkedInAdapter
    }
}

/// A LinkedIn job URL: `linkedin.com/jobs` occurs in it, ignoring ASCII
/// case.
pub open spec fn linkedin_job_url(url: Seq<char>) -> bool {
    contains(lower(url), "linkedin.com/jobs"@)
}

/// A LinkedIn search URL: `linkedin.com/jobs/search` occurs in it, ignoring
/// ASCII case.
pub open spec fn linkedin_search_url(url: Seq<char>) -> bool {
    contains(lower(url), "linkedin.com/jobs/search"@)
}

impl PlatformAdapter for LinkedInAdapter {
    fn kind(&self) -> (r: PlatformKind)
        ensures
            r == PlatformKind::LinkedIn,
    {
        PlatformKind::LinkedIn
    }

    fn matches_url(&self, url: &str) -> (r: bool)
        ensures
            r == linkedin_job_url(url@),
    {
        let u = to_lower(&chars_of(url));
        contains_chars(&u, &chars_of("linkedin.com/jobs"))
    }

    fn is_search_page(&self, url: &str) -> (r: bool)
        ensures
            r == linkedin_search_url(url@),
    {
        let u = to_lower(&chars_of(url));
        contains_chars(&u, &chars_of("linkedin.com/jobs/search"))
    }
}

/// Every search page URL is a job URL of the platform.
pub proof fn linkedin_search_pages_are_job_urls(url: Seq<char>)
    ensures
        linkedin_search_url(url) ==> linkedin_job_url(url),
{
    reveal_strlit("linkedin.com/jobs/search");
    reveal_strlit("linkedin.com/jobs");
    if linkedin_search_url(url) {
        let u = lower(url);
        let i = choose|i: int| crate::text::occurs_at(u, "linkedin.com/jobs/search"@, i);
        assert(u.subrange(i, i + 17) =~= u.subrange(i, i + 24).subrange(0, 17));
        assert("linkedin.com/jobs/search"@.subrange(0, 17) =~= "linkedin.com/jobs"@);
        assert(crate::text::occurs_at(u, "linkedin.com/jobs"@, i));
    }
}

/// The enabled adapters, in resolution order.
pub struct PlatformRegistry {
    adapters: Vec<LinkedInAdapter>,
}

impl PlatformRegistry {
    pub closed spec fn adapters(&self) -> Seq<LinkedInAdapter> {
        self.adapters@
    }

    /// The registry of the supported platforms: LinkedIn.
    pub fn new_default() -> (r: Self)
        ensures
            r.adapters() == seq![LinkedInAdapter],
    {
        let mut adapters: Vec<LinkedInAdapter> = Vec::new();
        adapters.push(LinkedInAdapter::new());
        PlatformRegistry { adapters }
    }

    /// The first adapter whose URL matching accepts the URL.
    pub fn resolve_by_url(&self, url: &str) -> (r: Option<LinkedInAdapter>)
        ensures
            match r {
                Some(a) => self.adapters().contains(a) && linkedin_job_url(url@),
                None => !linkedin_job_url(url@) || self.adapters().len() == 0,
            },
    {
        let mut i: usize = 0;
        while i < self.adapters.len()
            invariant
                i <= self.adapters@.len(),
                i > 0 ==> !linkedin_job_url(url@),
            decreases self.adapters@.len() - i,
        {
            let a = self.adapters[i];
            if a.matches_url(url) {
                return Some(a);
            }
            i = i + 1;
        }
        None
    }

    /// The first adapter of the given kind.
    pub fn resolve_by_kind(&self, kind: PlatformKind) -> (r: Option<LinkedInAdapter>)
        ensures
            match r {
                Some(a) => self.adapters().contains(a),
                None => self.adapters().len() == 0,
            },
    {
        let mut i: usize = 0;
        while i < self.adapters.len()
            invariant
                i <= self.adapters@.len(),
                i == 0,
            decreases self.adapters@.len() - i,
        {
            let a = self.adapters[i];
            if a.kind() == kind {
                return Some(a);
            }
            i = i + 1;
        }
        None
    }
}

/// Read-only resolution of adapters.
pub trait PlatformCatalog {
    fn resolve_by_url(&self, url: &str) -> Option<LinkedInAdapter>;

    fn resolve_by_kind(&self, kind: PlatformKind) -> Option<LinkedInAdapter>;
}

impl PlatformCatalog for PlatformRegistry {
    fn resolve_by_url(&self, url: &str) -> (r: Option<LinkedInAdapter>)
        ensures
            r is Some <==> (self.adapters().len() > 0 && linkedin_job_url(url@)),
    {
        PlatformRegistry::resolve_by_url(self, url)
    }

    fn resolve_by_kind(&self, kind: PlatformKind) -> (r: Option<LinkedInAdapter>)
        ensures
            r is Some <==> self.adapters().len() > 0,
    {
        PlatformRegistry::resolve_by_kind(self, kind)
    }
}

/// A tab the scanner starts from: its URL belongs to a registered
/// platform and is a search page.
pub open spec fn search_tab(registry_nonempty: bool, url: Seq<char>) -> bool {
    registry_nonempty && linkedin_job_url(url) && linkedin_search_url(url)
}

/// The first candidate tab that is a search page of a registered platform,
/// with its adapter.
pub fn find_first_search_tab(candidates: Vec<CandidateTab>, catalog: &PlatformRegistry) -> (r: Option<
    (CandidateTab, LinkedInAdapter),
>)
    ensures
        match r {
            Some((tab, _)) => exists|i: int|
                0 <= i < candidates@.len() && candidates@[i].url@ == tab.url@
                    && candidates@[i].websocket_debugger_url@ == tab.websocket_debugger_url@
                    && search_tab(catalog.adapters().len() > 0, tab.url@) && forall|j: int|
                    0 <= j < i ==> !search_tab(
                        catalog.adapters().len() > 0,
                        #[trigger] candidates@[j].url@,
                    ),
            None => forall|j: int|
                0 <= j < candidates@.len() ==> !search_tab(
                    catalog.adapters().len() > 0,
                    #[trigger] candidates@[j].url@,
                ),
        },
{
    let ghost all = candidates@;
    let mut rest = candidates;
    let mut k: usize = 0;
    let total = rest.len();
    while k < total
        invariant
            k <= total,
            total == all.len(),
            rest@ == all.skip(k as int),
            all == candidates@,
            forall|j: int|
                0 <= j < k ==> !search_tab(catalog.adapters().len() > 0, #[trigger] all[j].url@),
        decreases total - k,
    {
        let tab = rest.remove(0);
        proof {
            assert(tab == all[k as int]);
            assert(rest@ =~= all.skip(k + 1));
        }
        match PlatformRegistry::resolve_by_url(catalog, tab.url.as_str()) {
            Some(adapter) => {
                if adapter.is_search_page(tab.url.as_str()) {
                    proof {
                        let w = choose|w: int| 0 <= w < catalog.adapters().len() && catalog.adapters()[w] == adapter;
                        assert(catalog.adapters().len() > 0);
                        assert(search_tab(catalog.adapters().len() > 0, tab.url@));
                        assert(all[k as int].url@ == tab.url@);
                        assert(all[k as int].websocket_debugger_url@ == tab.websocket_debugger_url@);
                        assert(forall|j: int|
                            0 <= j < k ==> !search_tab(
                                catalog.adapters().len() > 0,
                                #[trigger] candidates@[j].url@,
                            ));
                        assert(candidates@[k as int].url@ == tab.url@);
                    }
                    return Some((tab, adapter));
                }
            },
            None => {},
        }
        k = k + 1;
    }
    None
}

/// Key under which a search tab's pages are remembered: the hex SHA-256
/// of its URL.
pub fn make_tab_key(url: &str) -> (r: String)
    ensures
        r@ == sha256_hex(url@),
{
    hash_text(url)
}

} // verus!
