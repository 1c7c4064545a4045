use jessy::enrich::{self, build_transition, EnrichCandidate, EnrichRunInput, EnrichRunOutput};
use jessy::extract::{self, ExtractPage, ExtractProgress, ExtractRunInput, ExtractSource, SourceCrawl};
use jessy::load::{self, legacy_source_page_index, prepare_record, LoadRunInput, LoadSeed};
use jessy::prefilter::{
    self, evaluate_title, normalized_avoid_words, prepare_transition, PrefilterCandidate,
    PrefilterDecisionKind, PrefilterRunInput, PrefilterRunOutput,
};
use jessy::serve::{self, row_matches_query, serve_output, ServeRow};
use jessy::stage::{Job, JobStage, StageStatusMeta, StepError};

#[test]
fn stage_roundtrip_strings() {
    assert_eq!(JobStage::from_str(JobStage::Extract.as_str()), Some(JobStage::Extract));
    assert_eq!(JobStage::from_str(JobStage::Load.as_str()), Some(JobStage::Load));
    assert_eq!(JobStage::from_str("unknown"), None);
}

#[test]
fn every_stage_name_reads_back() {
    for s in [
        JobStage::Extract,
        JobStage::Load,
        JobStage::Prefilter,
        JobStage::Enrich,
        JobStage::Serve,
    ] {
        assert_eq!(JobStage::from_str(s.as_str()), Some(s));
    }
    assert_eq!(JobStage::Prefilter.as_str(), "prefilter");
    assert_eq!(JobStage::from_str("Extract"), None);
}

#[test]
fn new_job_defaults_to_extract_stage() {
    let job = Job::new(
        42,
        "linkedin".to_string(),
        "https://example.com/jobs/42".to_string(),
        "2026-02-25T00:00:00Z".to_string(),
        "2026-02-25T00:00:00Z".to_string(),
    );
    assert_eq!(job.platform, "linkedin");
    assert_eq!(job.current_stage, JobStage::Extract);
    assert!(job.status_meta.is_none());
}

#[test]
fn stage_status_meta_keeps_reason() {
    let meta = StageStatusMeta::new("smoke".to_string());
    assert_eq!(meta.reason, "smoke");
}

#[test]
fn step_name_is_prefilter() {
    assert_eq!(prefilter::step_name(), "prefilter");
}

#[test]
fn evaluate_title_rejects_missing_title() {
    let d = evaluate_title("   ", &[]);
    assert_eq!(d.kind, PrefilterDecisionKind::Rejected);
    assert_eq!(d.reason_code, "title_missing");
}

#[test]
fn evaluate_title_rejects_avoid_word() {
    let d = evaluate_title("Senior Intern", &["intern".to_string()]);
    assert_eq!(d.kind, PrefilterDecisionKind::Rejected);
    assert_eq!(d.reason_code, "title_excluded:intern");
}

#[test]
fn evaluate_title_passes() {
    let d = evaluate_title("Software Engineer", &["intern".to_string()]);
    assert_eq!(d.kind, PrefilterDecisionKind::Passed);
    assert_eq!(d.reason_code, "passed");
}

#[test]
fn evaluate_title_reports_first_avoided_word() {
    let d = evaluate_title(
        "  Junior Intern Developer ",
        &["developer".to_string(), "intern".to_string()],
    );
    assert_eq!(d.kind, PrefilterDecisionKind::Rejected);
    assert_eq!(d.reason_code, "title_excluded:developer");
}

#[test]
fn prefilter_transition_layout() {
    let c = PrefilterCandidate { id: 7, platform: "  LinkedIn ".to_string(), title: "x".to_string() };
    let d = evaluate_title("Software Engineer", &[]);
    let t = prepare_transition(&c, &d, "  ");
    assert_eq!(t.id, 7);
    assert_eq!(t.current_stage, JobStage::Prefilter);
    assert_eq!(t.status_meta, "prefilter:linkedin:passed:manual_prefilter");

    let blank = PrefilterCandidate { id: 8, platform: " ".to_string(), title: "x".to_string() };
    let t2 = prepare_transition(&blank, &d, " nightly ");
    assert_eq!(t2.status_meta, "prefilter:unknown:passed:nightly");
}

#[test]
fn prefilter_avoid_words_are_normalized_once() {
    let words = normalized_avoid_words(vec![
        " Intern ".to_string(),
        "intern".to_string(),
        "".to_string(),
        "Lead".to_string(),
    ]);
    assert_eq!(words, vec!["intern".to_string(), "lead".to_string()]);
}

#[test]
fn prefilter_zero_limit_rejected() {
    let err = prefilter::plan_run(PrefilterRunInput {
        platform_filter: None,
        limit: 0,
        reason: "x".to_string(),
        avoid_words_in_title: vec![],
    })
    .err()
    .expect("expected error");
    assert_eq!(err, StepError::PrefilterLimitZero);
    assert_eq!(err.message(), "prefilter.limit must be > 0");
}

#[test]
fn prefilter_tally_counts_every_decision() {
    let mut out = PrefilterRunOutput::start(3);
    out.record(PrefilterDecisionKind::Passed, true);
    out.record(PrefilterDecisionKind::Rejected, false);
    out.record(PrefilterDecisionKind::Rejected, true);
    assert_eq!(out.passed, 1);
    assert_eq!(out.rejected, 2);
    assert_eq!(out.processed, 2);
    assert_eq!(out.passed + out.rejected, out.selected);
}

#[test]
fn step_name_is_enrich() {
    assert_eq!(enrich::step_name(), "enrich");
}

#[test]
fn build_transition_success_with_fetch() {
    let c = EnrichCandidate {
        id: 1,
        platform: "linkedin".to_string(),
        canonical_url: "https://example.com".to_string(),
        title: "Engineer".to_string(),
        company: "ACME".to_string(),
        description: "x".to_string(),
    };
    let summary = "Good summary".to_string();
    let t = build_transition(&c, Some("fetched body"), Ok(&summary), "smoke");
    assert_eq!(t.current_stage, JobStage::Enrich);
    assert_eq!(t.status_meta, "enrich:linkedin:enriched:smoke");
    assert_eq!(t.company_summary, "Good summary");
    assert!(t.description.is_some());
}

#[test]
fn build_transition_failure_marks_summary_failed() {
    let c = EnrichCandidate {
        id: 2,
        platform: "telegram".to_string(),
        canonical_url: "https://t.me/x".to_string(),
        title: "Engineer".to_string(),
        company: "ACME".to_string(),
        description: "x".to_string(),
    };
    let err = anyhow::Error::msg("boom");
    let t = build_transition(&c, None, Err(&err), "smoke");
    assert_eq!(t.status_meta, "enrich:telegram:summary_failed:smoke");
    assert_eq!(t.company_summary, "Summary unavailable");
}

#[test]
fn build_transition_without_fetch_and_long_description() {
    let c = EnrichCandidate {
        id: 3,
        platform: "".to_string(),
        canonical_url: "u".to_string(),
        title: "t".to_string(),
        company: "c".to_string(),
        description: "d".to_string(),
    };
    let s = "ok".to_string();
    let t = build_transition(&c, None, Ok(&s), "");
    assert_eq!(t.status_meta, "enrich:unknown:enriched_no_fetch:manual_enrich");
    assert!(t.description.is_none());

    let long = format!("  {}  ", "é".repeat(1500));
    let t2 = build_transition(&c, Some(&long), Ok(&s), "r");
    let d = t2.description.expect("description");
    assert_eq!(d.chars().count(), 1200);
    let blank = build_transition(&c, Some("   "), Ok(&s), "r");
    assert!(blank.description.is_none());
    assert_eq!(blank.status_meta, "enrich:unknown:enriched:r");
}

#[test]
fn enrich_tally_balances() {
    let mut out = EnrichRunOutput::start(3);
    out.record(true, true);
    out.record(true, false);
    out.record(false, true);
    assert_eq!(out.processed, 2);
    assert_eq!(out.succeeded, 1);
    assert_eq!(out.failed, 1);
    assert_eq!(out.succeeded + out.failed, out.processed);
}

#[test]
fn enrich_zero_limit_rejected() {
    let err = enrich::plan_run(EnrichRunInput { platform_filter: None, limit: 0, reason: "".to_string() })
        .err()
        .expect("expected error");
    assert_eq!(err.message(), "enrich.limit must be > 0");
}

#[test]
fn step_name_is_load() {
    assert_eq!(load::step_name(), "load");
}

#[test]
fn prepare_record_applies_load_policy() {
    let seed = LoadSeed {
        platform: "LinkedIn".to_string(),
        canonical_url: "https://www.linkedin.com/jobs/view/42".to_string(),
        source_ref: "https://www.linkedin.com/jobs/search/".to_string(),
        source_cursor: Some("3".to_string()),
    };
    let record = prepare_record(&seed, "smoke").expect("record");
    assert_eq!(record.current_stage, JobStage::Load);
    assert_eq!(record.status_meta, "load:linkedin:smoke");
    assert_eq!(record.legacy_source_page_index, 3);
}

#[test]
fn prepare_record_rejects_empty_platform() {
    let seed = LoadSeed {
        platform: "".to_string(),
        canonical_url: "https://example.com/jobs/1".to_string(),
        source_ref: "".to_string(),
        source_cursor: None,
    };
    assert!(prepare_record(&seed, "x").is_err());
}

#[test]
fn prepare_record_defaults_and_key() {
    let seed = LoadSeed {
        platform: " Telegram ".to_string(),
        canonical_url: "  https://t.me/job/1 ".to_string(),
        source_ref: "   ".to_string(),
        source_cursor: Some("  ".to_string()),
    };
    let r = prepare_record(&seed, "").expect("record");
    assert_eq!(r.platform, "telegram");
    assert_eq!(r.canonical_url, "https://t.me/job/1");
    assert_eq!(r.source_ref, "https://t.me/job/1");
    assert!(r.source_cursor.is_none());
    assert_eq!(r.legacy_source_page_index, 1);
    assert_eq!(r.status_meta, "load:telegram:manual_load");
    assert_eq!(r.dedupe_key, load::dedupe_key("telegram", "https://t.me/job/1"));
    assert_eq!(r.dedupe_key.len(), 64);
    assert_ne!(r.dedupe_key, load::dedupe_key("linkedin", "https://t.me/job/1"));

    let no_url = LoadSeed {
        platform: "x".to_string(),
        canonical_url: " ".to_string(),
        source_ref: "".to_string(),
        source_cursor: None,
    };
    assert_eq!(prepare_record(&no_url, "").err(), Some(StepError::LoadSeedUrlEmpty));
}

#[test]
fn load_dedupe_key_is_sha256_of_platform_and_url() {
    assert_eq!(
        load::dedupe_key("a", "b"),
        "6783a31eabf68ccc0660f935c0826282bdd2241f3a80a9f2d10d59aea9ebb5d8"
    );
    let seed = LoadSeed {
        platform: "LinkedIn".to_string(),
        canonical_url: "https://www.linkedin.com/jobs/view/42".to_string(),
        source_ref: "".to_string(),
        source_cursor: None,
    };
    let r = prepare_record(&seed, "smoke").expect("record");
    assert_eq!(r.dedupe_key, "5161d741ec64aaf283af90c5719072570f7d3e80074fdfddc608e3225c93cdf9");
}

#[test]
fn legacy_page_index_parses_positive_numbers() {
    assert_eq!(legacy_source_page_index(None), 1);
    assert_eq!(legacy_source_page_index(Some("7")), 7);
    assert_eq!(legacy_source_page_index(Some("+7")), 7);
    assert_eq!(legacy_source_page_index(Some("0")), 1);
    assert_eq!(legacy_source_page_index(Some("-4")), 1);
    assert_eq!(legacy_source_page_index(Some("abc")), 1);
    assert_eq!(legacy_source_page_index(Some("9223372036854775807")), i64::MAX);
    assert_eq!(legacy_source_page_index(Some("9223372036854775808")), 1);
}

#[test]
fn load_zero_pending_limit_rejected() {
    let input = LoadRunInput {
        seeds: vec![],
        reason: "".to_string(),
        platform_filter: Some(" LinkedIn ".to_string()),
        pending_limit: 0,
    };
    let err = load::plan_run(&input).err().expect("expected error");
    assert_eq!(err.message(), "load.pending_limit must be > 0");
    let ok = load::plan_run(&LoadRunInput { pending_limit: 5, ..input }).ok().expect("plan");
    assert_eq!(ok.pending_selection.platform_filter.as_deref(), Some("linkedin"));
    assert_eq!(ok.reason, "manual_load");
}

#[test]
fn step_name_is_extract() {
    assert_eq!(extract::step_name(), "extract");
}

fn page_for(cursor: &Option<String>) -> ExtractPage {
    if cursor.is_none() {
        ExtractPage {
            canonical_urls: vec![
                "https://example.com/jobs/1".to_string(),
                "https://example.com/jobs/1".to_string(),
            ],
            next_cursor: Some("https://example.com/search?page=2".to_string()),
        }
    } else {
        ExtractPage { canonical_urls: vec!["https://example.com/jobs/2".to_string()], next_cursor: None }
    }
}

#[test]
fn run_dedupes_and_emits() {
    let plan = extract::plan_run(ExtractRunInput {
        sources: vec![ExtractSource {
            platform: "LinkedIn".to_string(),
            source_ref: "https://example.com/search".to_string(),
            source_cursor: None,
        }],
        max_pages_per_source: 3,
        max_links_per_page: 20,
        reason: "smoke".to_string(),
    })
    .ok()
    .expect("extract run");
    let mut progress = ExtractProgress::start(plan.sources.len());
    let mut emitted = Vec::new();
    let mut requests = Vec::new();
    for source in &plan.sources {
        let mut crawl = SourceCrawl::begin(source, &plan);
        while let Some(request) = crawl.next_request(source, &plan) {
            let page = page_for(&request.source_cursor);
            requests.push(request);
            progress.record_page();
            for url in &page.canonical_urls {
                if let Some(seed) = progress.take_link(source, &crawl.cursor, url) {
                    emitted.push(seed);
                    progress.record_emitted();
                }
            }
            crawl.advance(&page, plan.max_pages_per_source);
        }
        assert!(crawl.done);
        assert_eq!(crawl.pages, 2);
    }
    let out = progress.output;
    assert_eq!(out.selected_sources, 1);
    assert_eq!(out.crawled_pages, 2);
    assert_eq!(out.discovered, 2);
    assert_eq!(out.emitted, 2);
    assert_eq!(emitted.len(), 2);
    assert_eq!(emitted[0].platform, "linkedin");
    assert_eq!(emitted[0].canonical_url, "https://example.com/jobs/1");
    assert_eq!(emitted[0].source_cursor, None);
    assert_eq!(emitted[1].canonical_url, "https://example.com/jobs/2");
    assert_eq!(emitted[1].source_cursor.as_deref(), Some("https://example.com/search?page=2"));
    assert_eq!(requests.len(), 2);
    assert!(requests.iter().all(|r| r.max_links == 20));
}

#[test]
fn source_walk_stops_at_page_limit() {
    let plan = extract::plan_run(ExtractRunInput {
        sources: vec![ExtractSource {
            platform: "linkedin".to_string(),
            source_ref: "https://example.com/search".to_string(),
            source_cursor: Some(" https://example.com/search?page=1 ".to_string()),
        }],
        max_pages_per_source: 2,
        max_links_per_page: 5,
        reason: "".to_string(),
    })
    .ok()
    .expect("plan");
    let source = &plan.sources[0];
    let mut crawl = SourceCrawl::begin(source, &plan);
    let mut fetched = 0;
    while let Some(request) = crawl.next_request(source, &plan) {
        assert_eq!(request.source_cursor, crawl.cursor);
        fetched += 1;
        let page = ExtractPage { canonical_urls: vec![], next_cursor: Some(format!(" next{fetched} ")) };
        crawl.advance(&page, plan.max_pages_per_source);
    }
    assert_eq!(fetched, 2);
    assert_eq!(crawl.cursor.as_deref(), Some("next2"));
}

#[test]
fn run_rejects_zero_pages() {
    let err = extract::plan_run(ExtractRunInput {
        sources: vec![ExtractSource {
            platform: "linkedin".to_string(),
            source_ref: "https://example.com".to_string(),
            source_cursor: None,
        }],
        max_pages_per_source: 0,
        max_links_per_page: 10,
        reason: "x".to_string(),
    })
    .err()
    .expect("expected error");
    assert!(err.message().contains("max_pages_per_source"));
}

#[test]
fn extract_sources_are_checked_in_order() {
    let empty = extract::plan_run(ExtractRunInput {
        sources: vec![],
        max_pages_per_source: 0,
        max_links_per_page: 0,
        reason: "".to_string(),
    });
    assert_eq!(empty.err(), Some(StepError::ExtractSourcesEmpty));
    let bad_ref = extract::plan_run(ExtractRunInput {
        sources: vec![ExtractSource {
            platform: "x".to_string(),
            source_ref: "  ".to_string(),
            source_cursor: None,
        }],
        max_pages_per_source: 1,
        max_links_per_page: 1,
        reason: "".to_string(),
    });
    assert_eq!(bad_ref.err(), Some(StepError::ExtractSourceRefEmpty));
    let no_links = extract::plan_run(ExtractRunInput {
        sources: vec![ExtractSource {
            platform: "x".to_string(),
            source_ref: "r".to_string(),
            source_cursor: Some(" c ".to_string()),
        }],
        max_pages_per_source: 1,
        max_links_per_page: 0,
        reason: "".to_string(),
    });
    assert_eq!(no_links.err().map(|e| e.message()), Some("extract.max_links_per_page must be > 0".to_string()));
}

fn sample_row() -> ServeRow {
    ServeRow {
        id: 1,
        platform: "linkedin".to_string(),
        title: "Software Engineer".to_string(),
        company: "ACME".to_string(),
        canonical_url: "https://example.com/jobs/1".to_string(),
        status_meta: "enrich:linkedin:enriched:smoke".to_string(),
        company_summary: "Good company".to_string(),
        description: "Rust backend role".to_string(),
    }
}

#[test]
fn step_name_is_serve() {
    assert_eq!(serve::step_name(), "serve");
}

#[test]
fn query_matches_title() {
    assert!(row_matches_query(&sample_row(), "software engineer"));
}

#[test]
fn zero_limit_rejected() {
    let err = serve::normalized_selection(None, 0).err().expect("expected error");
    assert!(err.message().contains("serve.limit"));
}

#[test]
fn serve_output_filters_by_query() {
    let mut other = sample_row();
    other.id = 2;
    other.title = "Designer".to_string();
    other.description = "Figma".to_string();
    let out = serve_output(vec![sample_row(), other], Some("  RUST ".to_string()));
    assert_eq!(out.total, 2);
    assert_eq!(out.matched, 1);
    assert_eq!(out.rows[0].id, 1);
    let all = serve_output(vec![sample_row()], Some("   ".to_string()));
    assert_eq!(all.matched, 1);
    assert!(!row_matches_query(&sample_row(), "python"));
}

#[test]
fn given_seeds_are_loaded_without_reading_pending() {
    let seed = LoadSeed {
        platform: "linkedin".to_string(),
        canonical_url: "https://www.linkedin.com/jobs/view/7".to_string(),
        source_ref: "r".to_string(),
        source_cursor: None,
    };
    match load::load_source(vec![seed]) {
        load::LoadSource::Given(seeds) => {
            assert_eq!(seeds.len(), 1);
            assert_eq!(seeds[0].canonical_url, "https://www.linkedin.com/jobs/view/7");
            assert_eq!(load::load_output(&seeds).processed, 1);
        }
        load::LoadSource::Pending => panic!("given seeds must be used"),
    }
    assert!(matches!(load::load_source(vec![]), load::LoadSource::Pending));
}
