use jessy::serve::ServeRow;
use jessy::terminal::{find_row, fzf_line, i64_decimal, scrub, selected_row_id, truncate, TerminalChannel};

fn row(id: i64) -> ServeRow {
    ServeRow {
        id,
        platform: "linkedin".to_string(),
        title: "Rust\tEngineer\n".to_string(),
        company: " ACME ".to_string(),
        canonical_url: "https://x/1".to_string(),
        status_meta: "s".to_string(),
        company_summary: "c".to_string(),
        description: "d".to_string(),
    }
}

#[test]
fn fields_are_scrubbed_and_truncated() {
    assert_eq!(scrub(" a\tb\nc "), "a b c");
    assert_eq!(truncate("abcdef", 4), "a...");
    assert_eq!(truncate("ab", 2), "ab");
    assert_eq!(truncate("abcdef", 2), "..");
    assert!(TerminalChannel::new(true).use_fzf);
}

#[test]
fn picker_lines_and_selection() {
    assert_eq!(fzf_line(&row(-12)), "-12\tlinkedin\tRust Engineer\tACME\thttps://x/1\n");
    assert_eq!(selected_row_id("42\tlinkedin\tx\r\nmore"), Some(42));
    assert_eq!(selected_row_id(""), None);
    assert_eq!(selected_row_id("abc\tx"), None);
    assert_eq!(selected_row_id(fzf_line(&row(i64::MIN)).as_str()), Some(i64::MIN));
    let rows = vec![row(1), row(5), row(5)];
    assert_eq!(find_row(&rows, 5), Some(1));
    assert_eq!(find_row(&rows, 9), None);
    assert_eq!(String::from_iter(i64_decimal(0)), "0");
}
