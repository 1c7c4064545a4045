use jessy::ai::{AiDecision, AiRequirements, WorkMode};
use jessy::job_page::normalize_whitespace;
use jessy::store::{stored_report_row, stored_requirements, StoredJobRow};

fn decision() -> AiDecision {
    AiDecision {
        company_name: Some("  Acme \t Corp ".to_string()),
        location_text: Some("   ".to_string()),
        language: Some(" ENGLISH ".to_string()),
        work_mode: Some(WorkMode::Remote),
        employment_type: None,
        description: Some("Build\n\nthings".to_string()),
        requirements: AiRequirements {
            languages: vec!["Rust".to_string(), " rust ".to_string(), "".to_string(), "Go  lang".to_string()],
            frameworks: vec![],
            tools: vec!["  ".to_string()],
            databases: vec![],
            cloud: vec![],
            other: vec![],
        },
        compensation_text: None,
        visa_policy_text: None,
        company_summary: None,
        company_size_text: None,
    }
}

fn same(a: &AiDecision, b: &AiDecision) -> bool {
    a.company_name == b.company_name
        && a.location_text == b.location_text
        && a.language == b.language
        && a.description == b.description
        && a.requirements.languages == b.requirements.languages
        && a.requirements.tools == b.requirements.tools
}

#[test]
fn sanitizing_twice_changes_nothing() {
    let once = decision().sanitized();
    assert_eq!(once.company_name.as_deref(), Some("Acme Corp"));
    assert_eq!(once.location_text, None);
    assert_eq!(once.language.as_deref(), Some("english"));
    assert_eq!(once.description.as_deref(), Some("Build things"));
    assert_eq!(once.requirements.languages, vec!["Rust".to_string(), "Go lang".to_string()]);
    assert!(once.requirements.tools.is_empty());
    let twice = decision().sanitized().sanitized();
    assert!(same(&once, &twice));
}

#[test]
fn whitespace_normalization_is_stable() {
    let once = normalize_whitespace(" Senior   Engineer \n");
    assert_eq!(once, "Senior Engineer");
    assert_eq!(normalize_whitespace(&once), once);
}

fn stored(requirements_json: &str) -> StoredJobRow {
    StoredJobRow {
        title: "Data Engineer".to_string(),
        source_page_index: 2,
        company: Some("Acme".to_string()),
        canonical_url: "https://www.linkedin.com/jobs/view/9".to_string(),
        status: "opportunity".to_string(),
        status_reason: "Passed hard exclusions".to_string(),
        location: None,
        language: Some("english".to_string()),
        work_mode: None,
        employment_type: None,
        posted_text: None,
        compensation_text: None,
        visa_policy_text: None,
        description: None,
        requirements_json: requirements_json.to_string(),
        company_summary: None,
        company_size: None,
    }
}

#[test]
fn stored_requirements_decode() {
    assert_eq!(stored_requirements(r#"["Rust","SQL"]"#), vec!["Rust".to_string(), "SQL".to_string()]);
    assert!(stored_requirements("not json").is_empty());
    assert!(stored_requirements(r#"{"a":1}"#).is_empty());
}

#[test]
fn stored_rows_become_report_rows() {
    let row = stored_report_row(stored(r#"["Rust"]"#));
    assert_eq!(row.summary, "Passed hard exclusions");
    assert_eq!(row.status, "opportunity");
    assert_eq!(row.source_page_index, 2);
    assert_eq!(row.requirements, vec!["Rust".to_string()]);
    assert!(stored_report_row(stored("")).requirements.is_empty());
}
