//! Application configuration: the values, their normalization and validation.
use vstd::prelude::*;

use crate::stage::{opt_trimmed_nonempty, opt_trimmed_or_none, platform_norm, trimmed_nonempty};
use crate::text::{
    chars_of, dedup_ci, dedup_exact, dedup_exactly, dedup_ignore_case, lemma_dedup_ci_distinct,
    lemma_dedup_ci_from, lemma_dedup_ci_of_distinct, lemma_dedup_exact_distinct,
    lemma_dedup_exact_from, lemma_dedup_exact_of_distinct, lemma_trim_idempotent,
    lemma_trim_lower_fixed, lower, opt_view, opt_views, string_of, strings_of, strs, trim,
    trim_lower, trim_str, views,
};

verus! {

/// Whole application configuration.
pub struct AppConfig {
    pub chrome: ChromeConfig,
    pub sources: SourcesConfig,
    pub crawl: CrawlConfig,
    pub filters: FiltersConfig,
    pub openai: OpenAiConfig,
    pub retention: RetentionConfig,
    pub report: ReportConfig,
    pub storage: StorageConfig,
}

/// Dedicated debug Chrome profile.
pub struct ChromeConfig {
    pub debug_port: u16,
    pub profile_dir: String,
    pub auto_launch: bool,
    pub binary_path: String,
    pub startup_urls: Vec<String>,
}

/// Tab source allow/deny lists.
pub struct SourcesConfig {
    pub allowed_domains: Vec<String>,
    pub allowed_keywords: Vec<String>,
    pub denied_domains: Vec<String>,
    pub denied_keywords: Vec<String>,
}

/// Search-page crawling limits.
pub struct CrawlConfig {
    pub max_pages_per_search_tab: usize,
    pub stop_on_repeat_pages: bool,
    pub request_delay_ms: u64,
}

/// Title and recency filters.
pub struct FiltersConfig {
    pub words_to_avoid_in_title: Vec<String>,
    pub allowed_title_languages: Vec<String>,
    pub recent_posted_within_days: u64,
}

/// OpenAI provider settings.
pub struct OpenAiConfig {
    pub base_url: String,
    pub model: String,
    pub api_key: Option<String>,
    pub api_key_env: Option<String>,
}

/// History retention.
pub struct RetentionConfig {
    pub days: i64,
}

/// Report rendering.
pub struct ReportConfig {
    pub terminal_style: String,
}

/// Database location.
pub struct StorageConfig {
    pub db_path: String,
}

// ---------------------------------------------------------------------------
// Normalization
// ---------------------------------------------------------------------------

/// Each item trimmed and lower-cased, blanks dropped, first occurrence of
/// each kept.
pub open spec fn list_norm(items: Seq<Seq<char>>) -> Seq<Seq<char>> {
    dedup_exact(Seq::new(items.len(), |i: int| platform_norm(items[i])))
}

/// Each URL trimmed, blanks dropped, first of those equal ignoring ASCII
/// case kept as written.
pub open spec fn urls_norm(items: Seq<Seq<char>>) -> Seq<Seq<char>> {
    dedup_ci(Seq::new(items.len(), |i: int| trimmed_nonempty(items[i])))
}

/// The list normalization of the configuration's allow/deny lists and
/// title words.
pub fn normalize_list(items: &[String]) -> (r: Vec<String>)
    ensures
        strs(r@) == list_norm(strs(items@)),
        forall|i: int, j: int|
            0 <= i < j < r@.len() ==> (#[trigger] strs(r@)[i]) != (#[trigger] strs(r@)[j]),
{
    let ghost ws = strs(items@);
    let ghost cands = Seq::new(ws.len(), |i: int| platform_norm(ws[i]));
    let mut opts: Vec<Option<Vec<char>>> = Vec::new();
    let mut i: usize = 0;
    while i < items.len()
        invariant
            i <= items.len(),
            ws == strs(items@),
            cands == Seq::new(ws.len(), |i: int| platform_norm(ws[i])),
            opt_views(opts@) =~= cands.take(i as int),
        decreases items.len() - i,
    {
        let v = trim_lower(items[i].as_str());
        let ghost before = opts@;
        assert(ws[i as int] == items@[i as int]@);
        if v.len() == 0 {
            opts.push(None);
        } else {
            opts.push(Some(v));
        }
        assert(opt_views(opts@) =~= opt_views(before).push(cands[i as int]));
        assert(cands.take(i + 1) =~= cands.take(i as int).push(cands[i as int]));
        i = i + 1;
    }
    assert(cands.take(i as int) =~= cands);
    let kept = dedup_exactly(&opts);
    let r = strings_of(&kept);
    proof {
        lemma_dedup_exact_distinct(cands);
        assert(strs(r@) =~= views(kept@));
    }
    r
}

/// The normalization of the startup URLs.
pub fn normalize_urls(items: &[String]) -> (r: Vec<String>)
    ensures
        strs(r@) == urls_norm(strs(items@)),
{
    let ghost ws = strs(items@);
    let ghost cands = Seq::new(ws.len(), |i: int| trimmed_nonempty(ws[i]));
    let mut opts: Vec<Option<Vec<char>>> = Vec::new();
    let mut i: usize = 0;
    while i < items.len()
        invariant
            i <= items.len(),
            ws == strs(items@),
            cands == Seq::new(ws.len(), |i: int| trimmed_nonempty(ws[i])),
            opt_views(opts@) =~= cands.take(i as int),
        decreases items.len() - i,
    {
        let v = trim_str(items[i].as_str());
        let ghost before = opts@;
        assert(ws[i as int] == items@[i as int]@);
        if v.len() == 0 {
            opts.push(None);
        } else {
            opts.push(Some(v));
        }
        assert(opt_views(opts@) =~= opt_views(before).push(cands[i as int]));
        assert(cands.take(i + 1) =~= cands.take(i as int).push(cands[i as int]));
        i = i + 1;
    }
    assert(cands.take(i as int) =~= cands);
    let kept = dedup_ignore_case(&opts);
    let r = strings_of(&kept);
    proof {
        assert(strs(r@) =~= views(kept@));
    }
    r
}

/// Normalizing a normalized list changes nothing.
pub proof fn list_norm_idempotent(items: Seq<Seq<char>>)
    ensures
        list_norm(list_norm(items)) == list_norm(items),
{
    let cands = Seq::new(items.len(), |i: int| platform_norm(items[i]));
    let y = list_norm(items);
    lemma_dedup_exact_from(cands);
    lemma_dedup_exact_distinct(cands);
    assert forall|k: int| 0 <= k < y.len() implies platform_norm(#[trigger] y[k]) == Some(
        y[k],
    ) by {
        let i = choose|i: int| 0 <= i < cands.len() && cands[i] == Some(dedup_exact(cands)[k]);
        lemma_trim_lower_fixed(items[i]);
    }
    assert(Seq::new(y.len(), |k: int| platform_norm(y[k])) =~= Seq::new(
        y.len(),
        |k: int| Some(y[k]),
    ));
    lemma_dedup_exact_of_distinct(y);
}

/// Normalizing a normalized URL list changes nothing.
pub proof fn urls_norm_idempotent(items: Seq<Seq<char>>)
    ensures
        urls_norm(urls_norm(items)) == urls_norm(items),
{
    let cands = Seq::new(items.len(), |i: int| trimmed_nonempty(items[i]));
    let y = urls_norm(items);
    lemma_dedup_ci_from(cands);
    lemma_dedup_ci_distinct(cands);
    assert forall|k: int| 0 <= k < y.len() implies trimmed_nonempty(#[trigger] y[k]) == Some(
        y[k],
    ) by {
        let i = choose|i: int| 0 <= i < cands.len() && cands[i] == Some(dedup_ci(cands)[k]);
        lemma_trim_idempotent(items[i]);
    }
    assert(Seq::new(y.len(), |k: int| trimmed_nonempty(y[k])) =~= Seq::new(
        y.len(),
        |k: int| Some(y[k]),
    ));
    lemma_dedup_ci_of_distinct(y);
}

/// The lists and keys of two configurations agree.
pub open spec fn same_lists(a: &AppConfig, b: &AppConfig) -> bool {
    &&& strs(a.chrome.startup_urls@) == strs(b.chrome.startup_urls@)
    &&& strs(a.sources.allowed_domains@) == strs(b.sources.allowed_domains@)
    &&& strs(a.sources.allowed_keywords@) == strs(b.sources.allowed_keywords@)
    &&& strs(a.sources.denied_domains@) == strs(b.sources.denied_domains@)
    &&& strs(a.sources.denied_keywords@) == strs(b.sources.denied_keywords@)
    &&& strs(a.filters.words_to_avoid_in_title@) == strs(b.filters.words_to_avoid_in_title@)
    &&& opt_view(a.openai.api_key) == opt_view(b.openai.api_key)
    &&& opt_view(a.openai.api_key_env) == opt_view(b.openai.api_key_env)
}

/// Normalizing a configuration a second time changes nothing: what
/// `normalize` makes of a normalized configuration has the same lists and
/// keys.
pub proof fn normalize_idempotent(c: &AppConfig, n: &AppConfig, m: &AppConfig)
    requires
        normalized_from(n, c),
        normalized_from(m, n),
    ensures
        same_lists(m, n),
{
    urls_norm_idempotent(strs(c.chrome.startup_urls@));
    list_norm_idempotent(strs(c.sources.allowed_domains@));
    list_norm_idempotent(strs(c.sources.allowed_keywords@));
    list_norm_idempotent(strs(c.sources.denied_domains@));
    list_norm_idempotent(strs(c.sources.denied_keywords@));
    list_norm_idempotent(strs(c.filters.words_to_avoid_in_title@));
    match opt_view(c.openai.api_key) {
        Some(v) => lemma_trim_idempotent(v),
        None => {},
    }
    match opt_view(c.openai.api_key_env) {
        Some(v) => lemma_trim_idempotent(v),
        None => {},
    }
}

/// Refusals of a configuration, in the order they are checked.
#[derive(Debug, Clone, Copy, PartialEq, Eq, Structural)]
pub enum ConfigError {
    MaxPagesZero,
    RetentionDaysNotPositive,
    RecentPostedWithinDaysZero,
    ModelEmpty,
    BaseUrlEmpty,
    ApiKeyMissing,
}

/// The message reported for each refusal.
pub open spec fn config_error_text(e: ConfigError) -> Seq<char> {
    match e {
        ConfigError::MaxPagesZero => "crawl.max_pages_per_search_tab must be > 0"@,
        ConfigError::RetentionDaysNotPositive => "retention.days must be > 0"@,
        ConfigError::RecentPostedWithinDaysZero => "filters.recent_posted_within_days must be > 0"@,
        ConfigError::ModelEmpty => "openai.model must not be empty"@,
        ConfigError::BaseUrlEmpty => "openai.base_url must not be empty"@,
        ConfigError::ApiKeyMissing => "set one of openai.api_key or openai.api_key_env"@,
    }
}

impl ConfigError {
    /// Human-readable message.
    pub fn message(&self) -> (r: String)
        ensures
            r@ == config_error_text(*self),
    {
        let s: &str = match self {
            ConfigError::MaxPagesZero => "crawl.max_pages_per_search_tab must be > 0",
            ConfigError::RetentionDaysNotPositive => "retention.days must be > 0",
            ConfigError::RecentPostedWithinDaysZero => "filters.recent_posted_within_days must be > 0",
            ConfigError::ModelEmpty => "openai.model must not be empty",
            ConfigError::BaseUrlEmpty => "openai.base_url must not be empty",
            ConfigError::ApiKeyMissing => "set one of openai.api_key or openai.api_key_env",
        };
        string_of(&chars_of(s))
    }
}

/// The first refusal of a configuration, if any.
pub open spec fn config_refusal(cfg: &AppConfig) -> Option<ConfigError> {
    if cfg.crawl.max_pages_per_search_tab == 0 {
        Some(ConfigError::MaxPagesZero)
    } else if cfg.retention.days <= 0 {
        Some(ConfigError::RetentionDaysNotPositive)
    } else if cfg.filters.recent_posted_within_days == 0 {
        Some(ConfigError::RecentPostedWithinDaysZero)
    } else if trim(cfg.openai.model@).len() == 0 {
        Some(ConfigError::ModelEmpty)
    } else if trim(cfg.openai.base_url@).len() == 0 {
        Some(ConfigError::BaseUrlEmpty)
    } else if cfg.openai.api_key is None && cfg.openai.api_key_env is None {
        Some(ConfigError::ApiKeyMissing)
    } else {
        None
    }
}

/// Lists and keys as a normalized configuration holds them.
pub open spec fn normalized_from(n: &AppConfig, c: &AppConfig) -> bool {
    &&& strs(n.chrome.startup_urls@) == urls_norm(strs(c.chrome.startup_urls@))
    &&& strs(n.sources.allowed_domains@) == list_norm(strs(c.sources.allowed_domains@))
    &&& strs(n.sources.allowed_keywords@) == list_norm(strs(c.sources.allowed_keywords@))
    &&& strs(n.sources.denied_domains@) == list_norm(strs(c.sources.denied_domains@))
    &&& strs(n.sources.denied_keywords@) == list_norm(strs(c.sources.denied_keywords@))
    &&& strs(n.filters.words_to_avoid_in_title@) == list_norm(
        strs(c.filters.words_to_avoid_in_title@),
    )
    &&& opt_view(n.openai.api_key) == opt_trimmed_nonempty(opt_view(c.openai.api_key))
    &&& opt_view(n.openai.api_key_env) == opt_trimmed_nonempty(opt_view(c.openai.api_key_env))
}

/// The settings normalization leaves alone.
pub open spec fn same_settings(n: &AppConfig, c: &AppConfig) -> bool {
    &&& n.chrome.debug_port == c.chrome.debug_port
    &&& n.chrome.profile_dir@ == c.chrome.profile_dir@
    &&& n.chrome.auto_launch == c.chrome.auto_launch
    &&& n.chrome.binary_path@ == c.chrome.binary_path@
    &&& n.crawl.max_pages_per_search_tab == c.crawl.max_pages_per_search_tab
    &&& n.crawl.stop_on_repeat_pages == c.crawl.stop_on_repeat_pages
    &&& n.crawl.request_delay_ms == c.crawl.request_delay_ms
    &&& n.filters.recent_posted_within_days == c.filters.recent_posted_within_days
    &&& n.filters.allowed_title_languages@ == c.filters.allowed_title_languages@
    &&& n.openai.base_url@ == c.openai.base_url@
    &&& n.openai.model@ == c.openai.model@
    &&& n.retention.days == c.retention.days
    &&& n.report.terminal_style@ == c.report.terminal_style@
    &&& n.storage.db_path@ == c.storage.db_path@
}

impl AppConfig {
    /// Normalizes the lists (trimmed, lower-cased, de-duplicated; URLs
    /// keep their case) and trims the API key settings, blank ones
    /// becoming absent.
    pub fn normalize(&mut self)
        ensures
            normalized_from(final(self), old(self)),
            same_settings(final(self), old(self)),
    {
        self.chrome.startup_urls = normalize_urls(self.chrome.startup_urls.as_slice());
        self.sources.allowed_domains = normalize_list(self.sources.allowed_domains.as_slice());
        self.sources.allowed_keywords = normalize_list(self.sources.allowed_keywords.as_slice());
        self.sources.denied_domains = normalize_list(self.sources.denied_domains.as_slice());
        self.sources.denied_keywords = normalize_list(self.sources.denied_keywords.as_slice());
        self.filters.words_to_avoid_in_title = normalize_list(
            self.filters.words_to_avoid_in_title.as_slice(),
        );
        let key = opt_trimmed_or_none(&self.openai.api_key);
        self.openai.api_key = key;
        let key_env = opt_trimmed_or_none(&self.openai.api_key_env);
        self.openai.api_key_env = key_env;
    }

    /// Checks the limits and the provider settings; the first refusal in
    /// order is reported.
    pub fn validate(&self) -> (r: Result<(), ConfigError>)
        ensures
            match config_refusal(self) {
                Some(e) => r == Err::<(), ConfigError>(e),
                None => r is Ok,
            },
    {
        if self.crawl.max_pages_per_search_tab == 0 {
            return Err(ConfigError::MaxPagesZero);
        }
        if self.retention.days <= 0 {
            return Err(ConfigError::RetentionDaysNotPositive);
        }
        if self.filters.recent_posted_within_days == 0 {
            return Err(ConfigError::RecentPostedWithinDaysZero);
        }
        if trim_str(self.openai.model.as_str()).len() == 0 {
            return Err(ConfigError::ModelEmpty);
        }
        if trim_str(self.openai.base_url.as_str()).len() == 0 {
            return Err(ConfigError::BaseUrlEmpty);
        }
        if self.openai.api_key.is_none() && self.openai.api_key_env.is_none() {
            return Err(ConfigError::ApiKeyMissing);
        }
        Ok(())
    }

    /// A parsed configuration made ready for use: normalized, then
    /// validated.
    pub fn prepared(self) -> (r: Result<AppConfig, ConfigError>)
        ensures
            match r {
                Ok(c) => normalized_from(&c, &self) && same_settings(&c, &self) && config_refusal(
                    &c,
                ) is None,
                Err(e) => exists|n: AppConfig|
                    normalized_from(&n, &self) && same_settings(&n, &self) && config_refusal(&n)
                        == Some(e),
            },
    {
        let mut cfg = self;
        cfg.normalize();
        match cfg.validate() {
            Ok(()) => Ok(cfg),
            Err(e) => Err(e),
        }
    }
}

// ---------------------------------------------------------------------------
// Defaults of optional settings
// ---------------------------------------------------------------------------

/// Pages crawled per search tab when not configured.
pub const DEFAULT_MAX_PAGES: usize = 5;

/// Delay between page requests when not configured.
pub const DEFAULT_REQUEST_DELAY_MS: u64 = 1500;

/// Recency window in days when not configured.
pub const DEFAULT_RECENT_POSTED_WITHIN_DAYS: u64 = 1;

/// History retention in days when not configured.
pub const DEFAULT_RETENTION_DAYS: i64 = 90;

pub fn default_chrome_binary() -> (r: String)
    ensures
        r@ == "/Applications/Google Chrome.app/Contents/MacOS/Google Chrome"@,
{
    string_of(&chars_of("/Applications/Google Chrome.app/Contents/MacOS/Google Chrome"))
}

pub fn default_startup_urls() -> (r: Vec<String>)
    ensures
        strs(r@) == seq!["https://www.linkedin.com/jobs/search/"@, "https://web.telegram.org/"@],
{
    let mut v: Vec<String> = Vec::new();
    v.push(string_of(&chars_of("https://www.linkedin.com/jobs/search/")));
    v.push(string_of(&chars_of("https://web.telegram.org/")));
    assert(strs(v@) =~= seq!["https://www.linkedin.com/jobs/search/"@, "https://web.telegram.org/"@]);
    v
}

pub fn default_openai_url() -> (r: String)
    ensures
        r@ == "https://api.openai.com/v1"@,
{
    string_of(&chars_of("https://api.openai.com/v1"))
}

pub fn default_openai_model() -> (r: String)
    ensures
        r@ == "gpt-4o-mini"@,
{
    string_of(&chars_of("gpt-4o-mini"))
}

pub fn default_openai_api_key_env() -> (r: Option<String>)
    ensures
        opt_view(r) == Some("OPENAI_API_KEY"@),
{
    Some(string_of(&chars_of("OPENAI_API_KEY")))
}

pub fn default_terminal_style() -> (r: String)
    ensures
        r@ == "verbose_cards"@,
{
    string_of(&chars_of("verbose_cards"))
}

pub fn default_db_path() -> (r: String)
    ensures
        r@ == "data/jessy.db"@,
{
    string_of(&chars_of("data/jessy.db"))
}

impl Default for OpenAiConfig {
    fn default() -> (r: Self)
        ensures
            r.base_url@ == "https://api.openai.com/v1"@,
            r.model@ == "gpt-4o-mini"@,
            r.api_key is None,
            opt_view(r.api_key_env) == Some("OPENAI_API_KEY"@),
    {
        OpenAiConfig {
            base_url: default_openai_url(),
            model: default_openai_model(),
            api_key: None,
            api_key_env: default_openai_api_key_env(),
        }
    }
}

impl Default for SourcesConfig {
    fn default() -> (r: Self)
        ensures
            r.allowed_domains@.len() == 0,
            r.allowed_keywords@.len() == 0,
            r.denied_domains@.len() == 0,
            r.denied_keywords@.len() == 0,
    {
        SourcesConfig {
            allowed_domains: Vec::new(),
            allowed_keywords: Vec::new(),
            denied_domains: Vec::new(),
            denied_keywords: Vec::new(),
        }
    }
}

} // verus!
