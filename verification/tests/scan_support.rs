use jessy::job::ReportRow;
use jessy::config::FiltersConfig;
use jessy::job::SearchCardData;
use jessy::scan::{
    card_precheck, domain_to_company_name, is_page_ready, page_end_action, redact_secrets,
    register_page_fingerprint, retry_step, rows_in_scan_order, AttemptOutcome, CardPrecheck,
    PageEnd, RetryAction, RetryState, SearchTabState,
};

fn row(title: &str) -> ReportRow {
    ReportRow {
        title: title.to_string(),
        source_page_index: 1,
        company: None,
        canonical_url: "u".to_string(),
        status: "accepted".to_string(),
        summary: "".to_string(),
        location: None,
        language: None,
        work_mode: None,
        employment_type: None,
        posted_text: None,
        compensation_text: None,
        visa_policy_text: None,
        description: None,
        company_summary: None,
        company_size: None,
        requirements: vec![],
    }
}

#[test]
fn retries_end_after_three_attempts() {
    let mut s = RetryState::new();
    assert_eq!(retry_step(&mut s, AttemptOutcome::Unusable), RetryAction::Retry);
    assert_eq!(retry_step(&mut s, AttemptOutcome::Failed), RetryAction::Retry);
    assert_eq!(retry_step(&mut s, AttemptOutcome::Failed), RetryAction::GiveUpMissingSelectors);
    assert_eq!(s.attempts, 3);

    let mut t = RetryState::new();
    assert_eq!(retry_step(&mut t, AttemptOutcome::Failed), RetryAction::Retry);
    assert_eq!(retry_step(&mut t, AttemptOutcome::Usable), RetryAction::Accept);

    let mut u = RetryState::new();
    retry_step(&mut u, AttemptOutcome::Failed);
    retry_step(&mut u, AttemptOutcome::Failed);
    assert_eq!(retry_step(&mut u, AttemptOutcome::Failed), RetryAction::GiveUpFailed);
}

#[test]
fn secrets_are_redacted() {
    assert_eq!(
        redact_secrets("key sk-abc123, again sk-abc123", None),
        "key [REDACTED], again [REDACTED]"
    );
    assert_eq!(
        redact_secrets("token secret here", Some("  secret  ".to_string())),
        "token [REDACTED] here"
    );
    assert_eq!(redact_secrets("nothing to hide", Some("   ".to_string())), "nothing to hide");
}

#[test]
fn rows_sorted_by_scan_order() {
    let rows = vec![(2usize, row("b")), (0usize, row("a")), (1usize, row("c")), (1usize, row("d"))];
    let out = rows_in_scan_order(rows);
    let titles: Vec<String> = out.into_iter().map(|r| r.title).collect();
    assert_eq!(titles, vec!["a", "c", "d", "b"]);
}

#[test]
fn page_ready_states() {
    assert!(is_page_ready("complete"));
    assert!(is_page_ready("interactive"));
    assert!(!is_page_ready("loading"));
}

#[test]
fn company_names_from_domains() {
    assert_eq!(domain_to_company_name("www.acme-corp.com"), "Acme Corp");
}

#[test]
fn repeated_page_stops_the_crawl() {
    let mut state = SearchTabState::new();
    let fp = "page-a".to_string();
    assert!(!register_page_fingerprint(&mut state, true, &fp));
    assert!(!register_page_fingerprint(&mut state, true, &"page-b".to_string()));
    assert!(register_page_fingerprint(&mut state, true, &fp));
    assert_eq!(state.seen_fingerprints, vec!["page-a".to_string(), "page-b".to_string()]);

    let mut off = SearchTabState::new();
    assert!(!register_page_fingerprint(&mut off, false, &fp));
    assert!(!register_page_fingerprint(&mut off, false, &fp));
    assert!(off.seen_fingerprints.is_empty());
}

#[test]
fn page_end_decisions() {
    let next = Some("https://www.linkedin.com/jobs/search/?start=25".to_string());
    assert!(matches!(page_end_action(true, true, 9, 5, &next), PageEnd::SeenJob));
    assert!(matches!(page_end_action(false, true, 1, 5, &next), PageEnd::Terminated));
    assert!(matches!(page_end_action(false, false, 5, 5, &next), PageEnd::PageThreshold));
    assert!(matches!(page_end_action(false, false, 2, 5, &None), PageEnd::NoNextPage));
    match page_end_action(false, false, 2, 5, &next) {
        PageEnd::Advance { next_page_url } => {
            assert_eq!(next_page_url, "https://www.linkedin.com/jobs/search/?start=25")
        }
        _ => panic!("expected to advance"),
    }
}

fn card(age: Option<&str>) -> SearchCardData {
    SearchCardData {
        title: "".to_string(),
        job_url: "https://www.linkedin.com/jobs/view/123/?trk=abc".to_string(),
        footer_items: vec![],
        posted_age_text: age.map(|a| a.to_string()),
    }
}

fn filters(days: u64) -> FiltersConfig {
    FiltersConfig {
        words_to_avoid_in_title: vec![],
        allowed_title_languages: vec![],
        recent_posted_within_days: days,
    }
}

#[test]
fn card_precheck_recency() {
    let mut state = SearchTabState::new();
    let mut order: usize = 0;
    match card_precheck(&filters(1), &card(Some("3 hours ago")), true, 1, &mut state, &mut order) {
        CardPrecheck::Lookup { canonical } => {
            assert_eq!(canonical, "https://www.linkedin.com/jobs/view/123")
        }
        _ => panic!("expected a lookup"),
    }
    assert_eq!(order, 0);

    let r = card_precheck(&filters(1), &card(Some("2 days ago")), true, 1, &mut state, &mut order);
    assert!(matches!(r, CardPrecheck::Terminate));
    assert_eq!(order, 1);
    let (idx, row) = &state.result.report_rows[0];
    assert_eq!(*idx, 0);
    assert_eq!(row.title, "Unknown title");
    assert_eq!(row.summary, "Rejected at prefilter: linkedin_posted_not_less_than_1d");

    let r = card_precheck(&filters(7), &card(None), true, 2, &mut state, &mut order);
    assert!(matches!(r, CardPrecheck::Skipped));
    assert_eq!(state.result.report_rows[1].1.summary, "Rejected at prefilter: linkedin_posted_age_missing");
    assert_eq!(order, 2);

    let r = card_precheck(&filters(1), &card(None), false, 2, &mut state, &mut order);
    assert!(matches!(r, CardPrecheck::Lookup { .. }));
}

#[test]
fn detail_tabs_become_seeds() {
    let mut order: usize = 7;
    let url = "https://www.linkedin.com/jobs/view/42/".to_string();
    let seed = jessy::scan::detail_tab_seed(&mut order, jessy::job::PlatformKind::LinkedIn, &url);
    assert_eq!(order, 8);
    assert_eq!(seed.order_index, 7);
    assert_eq!(seed.page_index, 1);
    assert_eq!(seed.url, url);
    assert_eq!(seed.source_tab_url, url);
    assert!(seed.pre_title.is_none());
    assert_eq!(seed.pre_match_reason, "manual_detail_tab");
}

#[test]
fn rows_with_equal_order_keep_their_order() {
    let out = rows_in_scan_order(vec![(2, row("c")), (1, row("a")), (2, row("d")), (1, row("b"))]);
    let titles: Vec<&str> = out.iter().map(|r| r.title.as_str()).collect();
    assert_eq!(titles, vec!["a", "b", "c", "d"]);
}
