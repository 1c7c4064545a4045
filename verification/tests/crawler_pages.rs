use jessy::crawler::{
    absolutize_url, extract_job_urls, extract_next_cursor, extract_tag_attr, linkedin_next_cursor,
    looks_like_job_link, matches_platform, page_from_body, page_url,
};
use jessy::extract::ExtractPageRequest;

#[test]
fn platform_and_job_link_rules() {
    assert!(matches_platform(" LinkedIn ", "https://www.LINKEDIN.com/jobs/view/1"));
    assert!(!matches_platform("linkedin", "https://example.com/jobs/1"));
    assert!(matches_platform("telegram", "https://t.me/somechannel"));
    assert!(matches_platform("other", "https://anything"));
    assert!(looks_like_job_link("linkedin", "https://www.linkedin.com/jobs/view/1"));
    assert!(!looks_like_job_link("linkedin", "https://www.linkedin.com/feed"));
    assert!(looks_like_job_link("acme", "https://acme.com/Careers/1"));
    assert!(!looks_like_job_link("acme", "https://acme.com/about"));
}

#[test]
fn links_are_made_absolute() {
    assert_eq!(absolutize_url("  ", "https://a.com/x"), "");
    assert_eq!(absolutize_url("#top", "https://a.com/x"), "");
    assert_eq!(absolutize_url("javascript:void(0)", "https://a.com/x"), "");
    assert_eq!(absolutize_url("https://B.com/jobs/1", "https://a.com/x"), "https://b.com/jobs/1");
    assert_eq!(absolutize_url("/jobs/2", "https://a.com/x/y"), "https://a.com/jobs/2");
    assert_eq!(absolutize_url("jobs/3", "not a base"), "");
}

#[test]
fn tag_attributes() {
    assert_eq!(extract_tag_attr("<a REL=\"next\" href='/p2'>", "rel").as_deref(), Some("next"));
    assert_eq!(extract_tag_attr("<a rel=\"next\" href='/p2'>", "href").as_deref(), Some("/p2"));
    assert_eq!(extract_tag_attr("<a class=\"x\">", "href").as_deref(), Some(""));
}

#[test]
fn job_urls_from_body() {
    let body = "<a href=\"/jobs/view/1\">a</a> <a href='https://www.linkedin.com/jobs/view/1'>dup</a> \
                <a href=\"https://www.linkedin.com/feed\">feed</a> <a href=\"/jobs/view/2\">b</a>";
    let urls = extract_job_urls(body, "https://www.linkedin.com/jobs/search/", "linkedin", 10)
        .expect("pattern");
    assert_eq!(
        urls,
        vec!["https://www.linkedin.com/jobs/view/1", "https://www.linkedin.com/jobs/view/2"]
    );
    let one = extract_job_urls(body, "https://www.linkedin.com/jobs/search/", "linkedin", 1).expect("pattern");
    assert_eq!(one.len(), 1);
    let first = extract_job_urls(body, "https://www.linkedin.com/jobs/search/", "linkedin", 0).expect("pattern");
    assert_eq!(first.len(), 1);
}

#[test]
fn next_cursor_from_anchor_or_linkedin_paging() {
    let body = "<a href=\"/p/2\" rel=\"Next nofollow\">next</a>";
    assert_eq!(
        extract_next_cursor(body, "https://a.com/p/1", "acme").expect("pattern").as_deref(),
        Some("https://a.com/p/2")
    );
    assert_eq!(extract_next_cursor("<p>none</p>", "https://a.com/p/1", "acme").expect("pattern"), None);
    let li = extract_next_cursor(
        "<p>none</p>",
        "https://www.linkedin.com/jobs/search/?keywords=rust&start=25",
        "LinkedIn",
    )
    .expect("pattern");
    assert_eq!(li.as_deref(), Some("https://www.linkedin.com/jobs/search/?keywords=rust&start=50"));
    assert_eq!(
        linkedin_next_cursor("https://www.linkedin.com/jobs/search/").as_deref(),
        Some("https://www.linkedin.com/jobs/search/?start=25")
    );
    assert_eq!(linkedin_next_cursor("https://example.com/jobs"), None);
    assert_eq!(linkedin_next_cursor("nonsense"), None);
}

#[test]
fn page_read_from_body() {
    let req = ExtractPageRequest {
        platform: "acme".to_string(),
        source_ref: "https://acme.com/careers".to_string(),
        source_cursor: None,
        max_links: 5,
    };
    assert_eq!(page_url(&req), "https://acme.com/careers");
    let page = page_from_body("<a href=\"/jobs/7\">x</a>", &req).expect("page");
    assert_eq!(page.canonical_urls, vec!["https://acme.com/jobs/7"]);
    assert!(page.next_cursor.is_none());
}
