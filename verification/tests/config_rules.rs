use jessy::config::{
    normalize_list, normalize_urls, AppConfig, ChromeConfig, ConfigError, CrawlConfig,
    FiltersConfig, OpenAiConfig, ReportConfig, RetentionConfig, SourcesConfig, StorageConfig,
};

#[test]
fn normalizes_lists() {
    let out = normalize_list(&[" LinkedIn.com ".to_string(), "linkedin.com".to_string(), "".to_string()]);
    assert_eq!(out, vec!["linkedin.com"]);
}

#[test]
fn normalizes_urls_keeping_case() {
    let out = normalize_urls(&[
        " https://Example.com/A ".to_string(),
        "https://example.com/a".to_string(),
        "   ".to_string(),
        "https://other.org".to_string(),
    ]);
    assert_eq!(out, vec!["https://Example.com/A", "https://other.org"]);
}

fn config() -> AppConfig {
    AppConfig {
        chrome: ChromeConfig {
            debug_port: 9222,
            profile_dir: "p".to_string(),
            auto_launch: true,
            binary_path: "b".to_string(),
            startup_urls: vec![" https://a.com ".to_string(), "https://A.com".to_string()],
        },
        sources: SourcesConfig {
            allowed_domains: vec!["X.com".to_string(), "x.com ".to_string()],
            allowed_keywords: vec![],
            denied_domains: vec![],
            denied_keywords: vec![],
        },
        crawl: CrawlConfig { max_pages_per_search_tab: 5, stop_on_repeat_pages: true, request_delay_ms: 10 },
        filters: FiltersConfig {
            words_to_avoid_in_title: vec![" Intern".to_string()],
            allowed_title_languages: vec![],
            recent_posted_within_days: 1,
        },
        openai: OpenAiConfig {
            base_url: "https://api.openai.com/v1".to_string(),
            model: "gpt-4o-mini".to_string(),
            api_key: Some("  ".to_string()),
            api_key_env: Some(" OPENAI_API_KEY ".to_string()),
        },
        retention: RetentionConfig { days: 90 },
        report: ReportConfig { terminal_style: "verbose_cards".to_string() },
        storage: StorageConfig { db_path: "data/jessy.db".to_string() },
    }
}

#[test]
fn prepared_config_is_normalized() {
    let cfg = config().prepared().ok().expect("valid");
    assert_eq!(cfg.chrome.startup_urls, vec!["https://a.com"]);
    assert_eq!(cfg.sources.allowed_domains, vec!["x.com"]);
    assert_eq!(cfg.filters.words_to_avoid_in_title, vec!["intern"]);
    assert!(cfg.openai.api_key.is_none());
    assert_eq!(cfg.openai.api_key_env.as_deref(), Some("OPENAI_API_KEY"));
}

#[test]
fn config_refusals_in_order() {
    let mut c = config();
    c.crawl.max_pages_per_search_tab = 0;
    c.retention.days = 0;
    assert_eq!(c.validate(), Err(ConfigError::MaxPagesZero));
    let mut c = config();
    c.retention.days = -1;
    assert_eq!(c.validate().err().map(|e| e.message()), Some("retention.days must be > 0".to_string()));
    let mut c = config();
    c.filters.recent_posted_within_days = 0;
    assert_eq!(c.validate(), Err(ConfigError::RecentPostedWithinDaysZero));
    let mut c = config();
    c.openai.model = "  ".to_string();
    assert_eq!(c.validate(), Err(ConfigError::ModelEmpty));
    let mut c = config();
    c.openai.base_url = "".to_string();
    assert_eq!(c.validate(), Err(ConfigError::BaseUrlEmpty));
    let mut c = config();
    c.openai.api_key = Some("  ".to_string());
    c.openai.api_key_env = Some(" ".to_string());
    assert_eq!(c.prepared().err(), Some(ConfigError::ApiKeyMissing));
}

#[test]
fn openai_defaults() {
    let d = OpenAiConfig::default();
    assert_eq!(d.base_url, "https://api.openai.com/v1");
    assert_eq!(d.model, "gpt-4o-mini");
    assert!(d.api_key.is_none());
    assert_eq!(d.api_key_env.as_deref(), Some("OPENAI_API_KEY"));
}

#[test]
fn normalizing_twice_changes_nothing() {
    let mut once = config();
    once.normalize();
    let mut twice = config();
    twice.normalize();
    twice.normalize();
    assert_eq!(once.chrome.startup_urls, twice.chrome.startup_urls);
    assert_eq!(once.sources.allowed_domains, twice.sources.allowed_domains);
    assert_eq!(once.filters.words_to_avoid_in_title, twice.filters.words_to_avoid_in_title);
    assert_eq!(once.openai.api_key, twice.openai.api_key);
    assert_eq!(once.openai.api_key_env, twice.openai.api_key_env);
    let words = normalize_list(&[" Senior ".to_string(), "SENIOR".to_string(), "Lead".to_string()]);
    assert_eq!(normalize_list(&words), words);
}
