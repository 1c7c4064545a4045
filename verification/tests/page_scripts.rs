use jessy::scripts::{
    build_job_detail_script, build_search_extraction_script, linkedin_job_selectors,
    linkedin_search_selectors, to_js_array,
};

#[test]
fn js_arrays_are_json() {
    assert_eq!(to_js_array(&[]), "[]");
    assert_eq!(to_js_array(&[".a".to_string(), ".b > c".to_string()]), r#"[".a",".b > c"]"#);
    assert_eq!(
        to_js_array(&["[x=\"y\"]".to_string(), "a\\b\n\u{1}".to_string()]),
        r#"["[x=\"y\"]","a\\b\n\u0001"]"#
    );
}

#[test]
fn search_script_has_its_selectors() {
    let script = build_search_extraction_script();
    assert!(!script.contains("__SEARCH_"));
    assert!(script.contains(r#"const CARD_NODE_SELECTORS = [".job-card-container"];"#));
    assert!(script.contains(r#"const NEXT_PAGE_SELECTORS = [".jobs-search-pagination__button"];"#));
    let sel = linkedin_search_selectors();
    assert_eq!(sel.title_selectors, vec![".job-card-container__link > span > strong".to_string()]);
}

#[test]
fn job_script_reads_about_the_job() {
    let script = build_job_detail_script();
    assert!(!script.contains("__JOB_"));
    assert!(script.contains(
        r#"const COMPANY_SELECTORS = ["[data-sdui-component=\"com.linkedin.sdui.generated.jobseeker.dsl.impl.aboutTheJob\"]"];"#
    ));
    let sel = linkedin_job_selectors();
    assert_eq!(sel.company_size_selectors, sel.title_selectors);
}
