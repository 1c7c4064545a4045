use jessy::config::FiltersConfig;
use jessy::policy::{hard_exclusion, title_pre_match};

fn filters(words: &[&str], languages: &[&str]) -> FiltersConfig {
    FiltersConfig {
        words_to_avoid_in_title: words.iter().map(|w| w.to_string()).collect(),
        allowed_title_languages: languages.iter().map(|w| w.to_string()).collect(),
        recent_posted_within_days: 1,
    }
}

#[test]
fn blocks_title_with_avoided_word() {
    let decision = title_pre_match(&filters(&["intern"], &[]), "Software Engineer Intern");
    assert!(!decision.should_open_detail);
}

#[test]
fn hard_excludes_explicit_no_visa() {
    let reason = hard_exclusion(
        &filters(&[], &[]),
        "Applicants must already be authorized to work. No visa sponsorship.",
        &[],
    );
    assert_eq!(reason.as_deref(), Some("explicit_no_visa_or_sponsorship"));
}

#[test]
fn does_not_exclude_when_visa_sponsored() {
    let reason = hard_exclusion(
        &filters(&[], &[]),
        "Visa sponsorship available for qualified candidates.",
        &[],
    );
    assert!(reason.is_none());
}

#[test]
fn does_not_block_partial_word_match_in_title() {
    let decision = title_pre_match(&filters(&["intern"], &[]), "International Sales Manager");
    assert!(decision.should_open_detail);
}

#[test]
fn blocks_multi_word_phrase_when_words_are_contiguous() {
    let decision = title_pre_match(&filters(&["senior engineer"], &[]), "Lead Senior Engineer Platform");
    assert!(!decision.should_open_detail);
}

#[test]
fn blocks_language_when_not_in_allowed_list() {
    let decision = title_pre_match(
        &filters(&[], &["eng"]),
        "Senior Softwareentwickler für Plattform und Daten mit Erfahrung in verteilten Systemen",
    );
    assert!(!decision.should_open_detail);
    assert!(decision.reason.starts_with("title_language_not_allowed:"));
}

#[test]
fn allows_language_when_in_allowed_list() {
    let decision = title_pre_match(
        &filters(&[], &["eng"]),
        "Senior software engineer with experience in distributed systems and backend services",
    );
    assert!(decision.should_open_detail);
}

#[test]
fn blocks_unknown_language_when_whitelist_is_enabled() {
    let decision = title_pre_match(&filters(&[], &["eng"]), "//// ???? 12345");
    assert!(!decision.should_open_detail);
    assert_eq!(decision.reason, "title_language_unknown_not_allowed");
}

#[test]
fn hard_exclusion_reads_requirements_too() {
    let reason = hard_exclusion(
        &filters(&[], &[]),
        "Great team.",
        &["Must be based in Germany".to_string()],
    );
    assert!(reason.is_some());
    let none = hard_exclusion(&filters(&[], &[]), "Great team.", &["Must be a US citizen".to_string()]);
    assert!(none.is_none());
}
