use jessy::config::FiltersConfig;
use jessy::job::SearchCardData;
use jessy::scan::{
    extract_relative_days, infer_title_from_url, is_posted_age_within_limit,
    linkedin_prefilter_action, resolve_job_title, SearchCardPrefilterAction,
};

fn filters_with_recent_days(days: u64) -> FiltersConfig {
    FiltersConfig {
        words_to_avoid_in_title: vec![],
        allowed_title_languages: vec![],
        recent_posted_within_days: days,
    }
}

fn card(posted_age_text: Option<&str>) -> SearchCardData {
    SearchCardData {
        title: "Software Engineer".to_string(),
        job_url: "https://www.linkedin.com/jobs/view/123".to_string(),
        footer_items: vec![],
        posted_age_text: posted_age_text.map(|s| s.to_string()),
    }
}

fn terminates_with(action: &Option<SearchCardPrefilterAction>, expected: &str) -> bool {
    matches!(action, Some(SearchCardPrefilterAction::TerminateTab { reason }) if reason == expected)
}

fn skips_with(action: &Option<SearchCardPrefilterAction>, expected: &str) -> bool {
    matches!(action, Some(SearchCardPrefilterAction::Skip { reason }) if reason == expected)
}

#[test]
fn linkedin_card_two_days_old_is_skipped_for_two_day_filter_exclusive() {
    let action = linkedin_prefilter_action(&filters_with_recent_days(2), &card(Some("2 days ago")));
    assert!(terminates_with(&action, "linkedin_posted_not_less_than_2d"));
}

#[test]
fn linkedin_card_missing_posted_age_is_skipped() {
    let action = linkedin_prefilter_action(&filters_with_recent_days(2), &card(None));
    assert!(skips_with(&action, "linkedin_posted_age_missing"));
}

#[test]
fn linkedin_card_empty_posted_age_is_skipped() {
    let action = linkedin_prefilter_action(&filters_with_recent_days(2), &card(Some("   ")));
    assert!(skips_with(&action, "linkedin_posted_age_missing"));
}

#[test]
fn linkedin_card_one_day_old_is_kept_for_two_day_filter() {
    let action = linkedin_prefilter_action(&filters_with_recent_days(2), &card(Some("1 day ago")));
    assert!(action.is_none());
}

#[test]
fn linkedin_card_hours_old_is_kept_for_one_day_filter() {
    let action = linkedin_prefilter_action(&filters_with_recent_days(1), &card(Some("16 hours ago")));
    assert!(action.is_none());
}

#[test]
fn linkedin_card_one_day_old_is_skipped_for_one_day_filter_exclusive() {
    let action = linkedin_prefilter_action(&filters_with_recent_days(1), &card(Some("1 day ago")));
    assert!(terminates_with(&action, "linkedin_posted_not_less_than_1d"));
}

#[test]
fn linkedin_card_yesterday_is_skipped_for_one_day_filter() {
    let action = linkedin_prefilter_action(&filters_with_recent_days(1), &card(Some("Yesterday")));
    assert!(terminates_with(&action, "linkedin_posted_not_less_than_1d"));
}

#[test]
fn linkedin_card_yesterday_is_kept_for_two_day_filter() {
    let action = linkedin_prefilter_action(&filters_with_recent_days(2), &card(Some("Yesterday")));
    assert!(action.is_none());
}

#[test]
fn resolve_job_title_prefers_seed_card_title() {
    let resolved = resolve_job_title(
        Some(" Senior   Engineer "),
        "Principal Engineer",
        "https://www.linkedin.com/jobs/view/123",
    );
    assert_eq!(resolved, "Senior Engineer");
}

#[test]
fn resolve_job_title_falls_back_to_extracted_then_url() {
    let from_extracted = resolve_job_title(Some("  "), " Staff   Engineer ", "https://example.com/jobs/1");
    assert_eq!(from_extracted, "Staff Engineer");

    let from_url = resolve_job_title(None, "   ", "https://www.linkedin.com/jobs/view/123");
    assert_eq!(from_url, "LinkedIn Job Posting");
}

#[test]
fn relative_days_read_from_posted_text() {
    assert_eq!(extract_relative_days("3 days ago"), Some(3));
    assert_eq!(extract_relative_days("a day ago"), Some(1));
    assert_eq!(extract_relative_days("Yesterday"), None);
    assert_eq!(extract_relative_days("16 hours ago"), None);
    assert_eq!(extract_relative_days("days"), None);
    assert!(is_posted_age_within_limit("2 days ago", 3));
    assert!(!is_posted_age_within_limit("3 days ago", 3));
    assert!(is_posted_age_within_limit("   ", 1));
    assert!(!is_posted_age_within_limit("5 minutes ago", 1));
}

#[test]
fn title_inferred_from_linkedin_url() {
    assert_eq!(
        infer_title_from_url("https://www.linkedin.com/jobs/view/123"),
        "LinkedIn Job Posting"
    );
}
