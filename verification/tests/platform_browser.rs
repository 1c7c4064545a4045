use jessy::browser::{classify_reply, CdpReply};
use jessy::browser::{
    candidate_tabs, debug_endpoint, endpoint_route, inspectable_pages, new_tab_request,
    BrowserPageTab, PageTarget,
};
use jessy::job::PlatformKind;
use jessy::platform::{LinkedInAdapter, PlatformAdapter, PlatformRegistry};

#[test]
fn linkedin_adapter_matches_urls() {
    let a = LinkedInAdapter::new();
    assert_eq!(a.kind(), PlatformKind::LinkedIn);
    assert!(a.matches_url("https://www.LinkedIn.com/jobs/view/1"));
    assert!(!a.matches_url("https://www.linkedin.com/feed"));
    assert!(a.is_search_page("https://www.linkedin.com/jobs/search/?q=rust"));
    assert!(!a.is_search_page("https://www.linkedin.com/jobs/view/1"));
}

#[test]
fn registry_resolves_linkedin() {
    let r = PlatformRegistry::new_default();
    assert!(r.resolve_by_url("https://www.linkedin.com/jobs/view/1").is_some());
    assert!(r.resolve_by_url("https://example.com").is_none());
    assert!(r.resolve_by_kind(PlatformKind::LinkedIn).is_some());
}

fn target(id: &str, kind: &str, ws: Option<&str>) -> PageTarget {
    PageTarget {
        id: id.to_string(),
        target_type: kind.to_string(),
        url: format!("https://{id}"),
        websocket_debugger_url: ws.map(|s| s.to_string()),
    }
}

#[test]
fn tabs_and_endpoints() {
    assert_eq!(debug_endpoint(9222), "http://127.0.0.1:9222");
    assert_eq!(debug_endpoint(0), "http://127.0.0.1:0");
    let all = vec![
        target("a", "page", Some("ws://a")),
        target("b", "service_worker", Some("ws://b")),
        target("c", "page", None),
    ];
    let pages = inspectable_pages(&all);
    assert_eq!(pages.len(), 1);
    assert_eq!(pages[0].id, "a");
    let tabs = vec![
        BrowserPageTab { id: "1".to_string(), url: "u1".to_string(), websocket_debugger_url: None },
        BrowserPageTab { id: "2".to_string(), url: "u2".to_string(), websocket_debugger_url: Some("w2".to_string()) },
    ];
    let cands = candidate_tabs(&tabs);
    assert_eq!(cands.len(), 1);
    assert_eq!(cands[0].url, "u2");
    assert_eq!(cands[0].websocket_debugger_url, "w2");
    assert_eq!(
        new_tab_request("http://127.0.0.1:9222", "https://Example.com"),
        "http://127.0.0.1:9222/json/new?https://example.com/"
    );
    assert_eq!(new_tab_request("e", "not a url"), "e/json/new?not a url");
    assert_eq!(endpoint_route("e", "/json/list"), "e/json/list");
}

#[test]
fn replies_are_matched_by_request_id() {
    assert!(matches!(classify_reply(Some(3), false, 3), CdpReply::Answered));
    assert!(matches!(classify_reply(Some(3), true, 3), CdpReply::Failed));
    assert!(matches!(classify_reply(Some(4), true, 3), CdpReply::Other));
    assert!(matches!(classify_reply(None, false, 3), CdpReply::Other));
}
