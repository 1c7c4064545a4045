use jessy::ai::AiInput;
use jessy::config::OpenAiConfig;
use jessy::enrich::EnrichCandidate;
use jessy::openai::{build_prompt, looks_like_openai_key, ApiKeySource, OpenAiClassifier, RigOpenAiClient};
use jessy::store::{add_column_statement, has_column, migration_statements, sqlite_url, SqliteExtractRepo, SqliteRepo};
use jessy::summary::{clean_html, HeuristicSummaryGenerator};

fn cfg(key: Option<&str>, env: Option<&str>) -> OpenAiConfig {
    OpenAiConfig {
        base_url: "https://api.openai.com/v1".to_string(),
        model: "gpt-4o-mini".to_string(),
        api_key: key.map(|s| s.to_string()),
        api_key_env: env.map(|s| s.to_string()),
    }
}

#[test]
fn api_key_sources() {
    assert!(looks_like_openai_key("sk-abc"));
    assert!(!looks_like_openai_key("OPENAI_API_KEY"));
    let c = RigOpenAiClient::new(&cfg(Some(" sk-1 "), Some("ENV")));
    assert!(matches!(c.api_key_source(), ApiKeySource::Direct(k) if k == "sk-1"));
    let c = RigOpenAiClient::new(&cfg(Some("  "), Some(" sk-raw ")));
    assert!(matches!(c.api_key_source(), ApiKeySource::Direct(k) if k == "sk-raw"));
    let c = RigOpenAiClient::new(&cfg(None, Some(" MY_KEY ")));
    assert!(matches!(c.api_key_source(), ApiKeySource::FromEnv(v) if v == "MY_KEY"));
    let c = RigOpenAiClient::new(&cfg(None, Some("  ")));
    assert!(matches!(c.api_key_source(), ApiKeySource::Missing));
    assert_eq!(c.model_name(), "gpt-4o-mini");
    assert_eq!(OpenAiClassifier::new(&cfg(None, None)).model_name(), "gpt-4o-mini");
    assert_eq!(build_prompt(&AiInput { dom_element: "<div>x</div>".to_string() }), "<div>x</div>");
}

fn candidate(title: &str, company: &str, description: &str) -> EnrichCandidate {
    EnrichCandidate {
        id: 1,
        platform: "p".to_string(),
        canonical_url: "u".to_string(),
        title: title.to_string(),
        company: company.to_string(),
        description: description.to_string(),
    }
}

#[test]
fn heuristic_summaries() {
    let g = HeuristicSummaryGenerator::new();
    assert_eq!(
        g.summarize(&candidate(" Engineer ", "ACME", "desc"), Some("  page text ")),
        "Engineer at ACME. page text"
    );
    assert_eq!(
        g.summarize(&candidate("", " ", " own description "), Some("   ")),
        "Unknown role at Unknown company. own description"
    );
    assert_eq!(
        g.summarize(&candidate("T", "C", ""), None),
        "T at C. Summary unavailable from source content."
    );
    let long = "x".repeat(300);
    let s = g.summarize(&candidate("T", "C", ""), Some(&long));
    assert_eq!(s.len(), "T at C. ".len() + 260);
}

#[test]
fn html_is_cleaned() {
    assert_eq!(clean_html("<p>Hello <b>big</b>\n\n world</p> ").as_deref(), Some("Hello big world"));
    assert_eq!(clean_html("a <> b").as_deref(), Some("a <> b"));
}

#[test]
fn store_helpers() {
    assert_eq!(SqliteRepo::new("data/x.db".to_string()).db_path(), "data/x.db");
    assert_eq!(SqliteExtractRepo::new("y.db".to_string()).db_path(), "y.db");
    assert_eq!(sqlite_url("data/jessy.db"), "sqlite://data/jessy.db");
    assert_eq!(
        migration_statements("CREATE TABLE a (x);\n\n  ;\nCREATE TABLE b (y);\n"),
        vec!["CREATE TABLE a (x)", "CREATE TABLE b (y)"]
    );
    assert!(has_column(&vec!["id".to_string(), "Platform".to_string()], "platform"));
    assert!(!has_column(&vec!["id".to_string()], "language"));
    assert_eq!(add_column_statement("language", "TEXT"), "ALTER TABLE jobs ADD COLUMN language TEXT");
}
