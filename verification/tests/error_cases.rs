use jessy::extract::{self, ExtractRunInput, ExtractSource};
use jessy::job_page::JobExtraction;
use jessy::linkedin::{finish_job_snapshot, finish_search_snapshot, guess_company_domain, JobDetailSnapshot, SearchCard, SearchPageSnapshot};
use jessy::load::{prepare_record, LoadSeed};
use jessy::platform::make_tab_key;
use jessy::job::PlatformKind;
use jessy::scan::{check_about_job_dom, complete_extraction, failed_dev_seed_row, failed_seed_row, DetailError, JobSeed};
use jessy::serve::{self, ServeRunInput};
use jessy::stage::StepError;

fn source(platform: &str, source_ref: &str) -> ExtractSource {
    ExtractSource { platform: platform.to_string(), source_ref: source_ref.to_string(), source_cursor: None }
}

#[test]
fn serve_zero_limit_rejected() {
    let err = serve::plan_run(ServeRunInput { platform_filter: None, limit: 0, query: None }).err().expect("error");
    assert_eq!(err, StepError::ServeLimitZero);
    assert_eq!(err.message(), "serve.limit must be > 0");
}

#[test]
fn load_seed_without_platform_rejected() {
    let seed = LoadSeed {
        platform: "  ".to_string(),
        canonical_url: "https://x.test/job/1".to_string(),
        source_ref: "r".to_string(),
        source_cursor: None,
    };
    let err = prepare_record(&seed, "manual").err().expect("error");
    assert_eq!(err, StepError::LoadSeedPlatformEmpty);
    assert_eq!(err.message(), "load seed platform is empty");
}

#[test]
fn extract_source_errors() {
    let run = |sources: Vec<ExtractSource>, pages: usize| {
        extract::plan_run(ExtractRunInput { sources, max_pages_per_source: pages, max_links_per_page: 10, reason: "x".to_string() })
    };
    let err = run(vec![source(" ", "https://x.test")], 1).err().expect("error");
    assert_eq!(err, StepError::ExtractSourcePlatformEmpty);
    assert_eq!(err.message(), "extract source platform is empty");
    let err = run(vec![source("linkedin", "https://x.test")], 0).err().expect("error");
    assert_eq!(err, StepError::ExtractMaxPagesZero);
    assert_eq!(err.message(), "extract.max_pages_per_source must be > 0");
}

fn extraction(title: &str) -> JobExtraction {
    JobExtraction {
        canonical_url: "https://www.linkedin.com/jobs/view/1".to_string(),
        company: "".to_string(),
        title: title.to_string(),
        location: None,
        employment_type: None,
        posted_text: None,
        description: "".to_string(),
        requirements: vec![],
        company_domain: None,
        company_summary: None,
        company_size: None,
    }
}

#[test]
fn detail_errors() {
    let err = check_about_job_dom(&"   ".to_string()).err().expect("error");
    assert_eq!(err, DetailError::MissingAboutJobDom);
    assert_eq!(err.message(), "detail extraction missing aboutTheJob DOM element");
    assert!(check_about_job_dom(&"<div>About</div>".to_string()).is_ok());

    let mut e = extraction("  ");
    let err = complete_extraction(&mut e, &Some(" ".to_string())).err().expect("error");
    assert_eq!(err, DetailError::MissingTitle);
    assert_eq!(err.message(), "extraction missing title after fallback");

    let mut e = extraction("");
    assert!(complete_extraction(&mut e, &Some("Data Engineer".to_string())).is_ok());
    assert_eq!(e.title, "Data Engineer");
}

#[test]
fn tab_keys_are_url_hashes() {
    let key = make_tab_key("https://www.linkedin.com/jobs/search/");
    assert_eq!(key.len(), 64);
    assert!(key.chars().all(|c| c.is_ascii_hexdigit() && !c.is_ascii_uppercase()));
    assert_ne!(key, make_tab_key("https://www.linkedin.com/jobs/search/?start=25"));
    assert_eq!(key, make_tab_key("https://www.linkedin.com/jobs/search/"));
}

#[test]
fn company_domains_from_urls() {
    assert_eq!(guess_company_domain("https://careers.example.com/jobs/1").as_deref(), Some("careers.example.com"));
    assert_eq!(guess_company_domain("not a url"), None);
}

fn card(url: &str) -> SearchCard {
    SearchCard {
        title: "t".to_string(),
        company_hint: None,
        job_url: url.to_string(),
        footer_items: vec![],
        posted_age_text: None,
        raw_text: "".to_string(),
    }
}

#[test]
fn search_snapshots_drop_bad_urls() {
    let snap = SearchPageSnapshot {
        page_url: "https://www.linkedin.com/jobs/search/".to_string(),
        page_title: "Jobs".to_string(),
        job_cards: vec![card("https://www.linkedin.com/jobs/view/1/"), card("nope"), card("https://www.linkedin.com/jobs/view/2/")],
        job_links: vec![],
        next_page_url: None,
        fingerprint_source: "fp".to_string(),
        materialization_steps: Some(4),
        materialization_unique_urls: Some(3),
        materialization_container_kind: Some("list".to_string()),
    };
    let out = finish_search_snapshot(snap);
    assert_eq!(out.page_title, "Jobs");
    assert_eq!(out.materialization_steps, Some(4));
    assert_eq!(out.materialization_unique_urls, Some(3));
    assert_eq!(out.materialization_container_kind.as_deref(), Some("list"));
    assert_eq!(out.job_cards.len(), 2);
    assert_eq!(
        out.job_links,
        vec!["https://www.linkedin.com/jobs/view/1/".to_string(), "https://www.linkedin.com/jobs/view/2/".to_string()]
    );
}

#[test]
fn job_snapshots_guess_the_domain() {
    let snap = JobDetailSnapshot {
        url: "https://jobs.acme.io/view/3".to_string(),
        about_job_dom: "<div/>".to_string(),
        title: "t".to_string(),
        company: "c".to_string(),
        location: None,
        employment_type: None,
        posted_text: None,
        description: "d".to_string(),
        requirements: vec![],
        company_domain: None,
        company_summary: None,
        company_size: None,
    };
    let out = finish_job_snapshot(snap);
    assert_eq!(out.company_domain.as_deref(), Some("jobs.acme.io"));
    assert_eq!(out.about_job_dom, "<div/>");
    assert_eq!(out.description, "d");
}

#[test]
fn job_snapshots_keep_every_field() {
    let snap = JobDetailSnapshot {
        url: "https://www.linkedin.com/jobs/view/5".to_string(),
        about_job_dom: "<section>About</section>".to_string(),
        title: "t".to_string(),
        company: "c".to_string(),
        location: Some("Berlin".to_string()),
        employment_type: Some("Full-time".to_string()),
        posted_text: Some("2 hours ago".to_string()),
        description: "d".to_string(),
        requirements: vec!["Rust".to_string()],
        company_domain: Some("acme.com".to_string()),
        company_summary: Some("Makes things".to_string()),
        company_size: Some("11-50".to_string()),
    };
    let out = finish_job_snapshot(snap);
    assert_eq!(out.company_domain.as_deref(), Some("acme.com"));
    assert_eq!(out.about_job_dom, "<section>About</section>");
    assert_eq!(out.location.as_deref(), Some("Berlin"));
    assert_eq!(out.employment_type.as_deref(), Some("Full-time"));
    assert_eq!(out.posted_text.as_deref(), Some("2 hours ago"));
    assert_eq!(out.requirements, vec!["Rust".to_string()]);
    assert_eq!(out.company_summary.as_deref(), Some("Makes things"));
    assert_eq!(out.company_size.as_deref(), Some("11-50"));
}

fn seed(pre_title: Option<&str>) -> JobSeed {
    JobSeed {
        order_index: 0,
        platform: PlatformKind::LinkedIn,
        source_tab_url: "https://www.linkedin.com/jobs/search/".to_string(),
        page_index: 3,
        url: "https://www.linkedin.com/jobs/view/123/?trk=x".to_string(),
        pre_title: pre_title.map(|t| t.to_string()),
        pre_match_reason: "title_passed".to_string(),
    }
}

#[test]
fn failed_seed_rows() {
    let row = failed_seed_row(&seed(Some("Data Engineer")), "timeout");
    assert_eq!(row.title, "Data Engineer");
    assert_eq!(row.canonical_url, "https://www.linkedin.com/jobs/view/123");
    assert_eq!(row.source_page_index, 3);
    assert_eq!(row.status, "failed");
    assert_eq!(row.summary, "Failed extraction/classification: timeout");
    let dev = failed_dev_seed_row(&seed(None), "timeout");
    assert_eq!(dev.title, "Unknown title");
    let inferred = failed_seed_row(&seed(None), "timeout");
    assert_eq!(inferred.title, jessy::scan::infer_title_from_url("https://www.linkedin.com/jobs/view/123/?trk=x"));
}
