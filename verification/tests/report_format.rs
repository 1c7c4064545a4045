use jessy::job::ReportRow;
use jessy::report::{
    badge, card_rows, card_width, compact_reason, is_accepted_status, kv_opt_text, kv_text,
    normalize_reason_key, report_reason, report_status, requirements_text, split_long_word,
    table_widths, truncate_cell, wrap_text,
};

fn row(status: &str, summary: &str) -> ReportRow {
    ReportRow {
        title: "Engineer".to_string(),
        source_page_index: 1,
        company: None,
        canonical_url: "https://x/1".to_string(),
        status: status.to_string(),
        summary: summary.to_string(),
        location: None,
        language: None,
        work_mode: None,
        employment_type: None,
        posted_text: None,
        compensation_text: None,
        visa_policy_text: None,
        description: None,
        company_summary: None,
        company_size: None,
        requirements: vec![],
    }
}

#[test]
fn statuses_and_badges() {
    assert!(is_accepted_status("opportunity"));
    assert!(is_accepted_status("accepted"));
    assert!(!is_accepted_status("Accepted"));
    assert_eq!(report_status(&row("opportunity", "")), "accepted");
    assert_eq!(report_status(&row("failed", "")), "failed");
    assert_eq!(report_status(&row("not_opportunity", "Failed extraction/classification: x")), "failed");
    assert_eq!(report_status(&row("not_opportunity", "nope")), "rejected");
    assert_eq!(badge(&row("accepted", "")), "[ACCEPTED]");
    assert_eq!(badge(&row("failed", "")), "[FAILED]");
    assert_eq!(badge(&row("x", "")), "[REJECTED]");
}

#[test]
fn reasons_are_compacted() {
    assert_eq!(compact_reason("  "), "");
    assert_eq!(compact_reason("Rejected at prefilter: title_excluded:Intern"), "prefilter:title_excluded_intern");
    assert_eq!(compact_reason("rejected: ALREADY seen in history"), "seen_history");
    assert_eq!(compact_reason("Rejected: duplicate in current scan"), "duplicate_scan");
    assert_eq!(compact_reason("Rejected: hard exclusion (explicit no visa))"), "hard_exclusion:explicit_no_visa");
    assert_eq!(compact_reason("Hard exclusion: explicit_no_visa_or_sponsorship"), "hard_exclusion:explicit_no_visa_or_sponsorship");
    assert_eq!(compact_reason("FAILED extraction/classification: timeout"), "extract_failed");
    assert_eq!(compact_reason("Some -- other reason!!"), "some_other_reason");
    assert_eq!(normalize_reason_key("__A  b__"), "a_b");
    assert_eq!(report_reason(&row("accepted", "whatever")), "");
    assert_eq!(report_reason(&row("x", "Rejected: duplicate in current scan")), "duplicate_scan");
}

#[test]
fn cells_are_truncated() {
    assert_eq!(truncate_cell("a\nb", 10), "a b");
    assert_eq!(truncate_cell("abcdefgh", 5), "ab...");
    assert_eq!(truncate_cell("abcdefgh", 3), "...");
    assert_eq!(truncate_cell("abcdefgh", 0), "");
    assert_eq!(truncate_cell("héllo wörld", 8), "héllo...");
}

#[test]
fn card_lines() {
    assert_eq!(kv_text("Company", "  "), "Company:");
    assert_eq!(kv_text("Company", "Acme"), "Company: Acme");
    assert_eq!(kv_opt_text("Location", Some("  Berlin ")), Some("Location: Berlin".to_string()));
    assert_eq!(kv_opt_text("Location", Some("  ")), None);
    assert_eq!(kv_opt_text("Location", None), None);
    assert_eq!(requirements_text(&[]), "none extracted");
    assert_eq!(
        requirements_text(&[" Rust ".to_string(), "rust".to_string(), "SQL".to_string()]),
        "Rust, SQL"
    );
}

#[test]
fn card_rows_filter() {
    let rows = vec![row("accepted", ""), row("rejected", ""), row("opportunity", "")];
    assert_eq!(card_rows(&rows, false), vec![0, 2]);
    assert_eq!(card_rows(&rows, true), vec![0, 1, 2]);
}

#[test]
fn layout_widths() {
    assert_eq!(card_width(None), 140);
    assert_eq!(card_width(Some("200".to_string())), 180);
    assert_eq!(card_width(Some("50".to_string())), 110);
    assert_eq!(card_width(Some("+120".to_string())), 120);
    assert_eq!(card_width(Some("wide".to_string())), 140);
    let w = table_widths(140);
    assert_eq!((w.page, w.status, w.reason), (4, 8, 35));
    assert_eq!(w.title, (138 - 59) / 3);
    assert_eq!(w.url, 79 - 26);
    let narrow = table_widths(20);
    assert_eq!((narrow.title, narrow.url, narrow.reason), (0, 0, 24));
}

#[test]
fn wrapping_and_splitting() {
    assert_eq!(wrap_text("", 10), vec![""]);
    assert_eq!(wrap_text("aa bb cc", 5), vec!["aa bb", "cc"]);
    assert_eq!(wrap_text("abcdefghij x", 4), vec!["abcd", "efgh", "ij", "x"]);
    assert_eq!(wrap_text("   ", 4), vec![""]);
    assert_eq!(split_long_word("abcdefg", 3), vec!["abc", "def", "g"]);
    assert_eq!(split_long_word("abc", 0), vec![""]);
    let rebuilt: String = split_long_word("hello world", 4).concat();
    assert_eq!(rebuilt, "hello world");
}

#[test]
fn reason_keys_are_stable() {
    let key = normalize_reason_key("__Title  excluded: Senior/Lead!!__");
    assert_eq!(key, "title_excluded_senior_lead");
    assert_eq!(normalize_reason_key(&key), key);
    assert!(key.chars().all(|c| c.is_ascii_lowercase() || c.is_ascii_digit() || c == '_'));
    assert!(!key.contains("__") && !key.starts_with('_') && !key.ends_with('_'));
    assert_eq!(normalize_reason_key("!!!"), "");
}

#[test]
fn wrapped_lines_never_exceed_width_in_chars() {
    let text = "déjà-vu-überlänge kurz ñññññññ ab";
    for width in [1usize, 3, 5, 8] {
        for line in wrap_text(text, width) {
            assert!(line.chars().count() <= width, "{line:?} at {width}");
        }
    }
    assert_eq!(wrap_text("abc", 0), vec![""]);
}
