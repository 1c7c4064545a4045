//! OpenAI client settings: the prompt sent for a job, the model, and where
//! the API key comes from.
use vstd::prelude::*;

use crate::ai::AiInput;
use crate::config::{AppConfig, OpenAiConfig};
use crate::stage::{opt_trimmed_nonempty};
use crate::text::{
    chars_of, copy_opt_string, copy_string, opt_view, starts_with, starts_with_str, string_of,
    trim_str,
};

verus! {

/// System instructions sent with every extraction prompt.
pub const SYSTEM_PREAMBLE: &'static str = "
You extract structured job-post data from one DOM element string.
Return strict JSON only.
Use factual extraction from the provided DOM content.
Use null for missing scalar fields and empty arrays for missing requirement groups.
Normalize whitespace and deduplicate requirement items.
Use concise keyword-style values for all free-text fields:
- description: compact role keywords/tags only.
- company_summary: compact company keywords/tags only.
- location_text, compensation_text: short keyword phrases.
For visa_policy_text use one of: visa_sponsored, unknown, visa_not_sponsored.
For company_size_text use one of: 1-10, 11-50, 51-500, above.
Keep phrases terse and scannable.
";

/// The user prompt for a job: the DOM element itself.
pub fn build_prompt(input: &AiInput) -> (r: String)
    ensures
        r@ == input.dom_element@,
{
    copy_string(&input.dom_element)
}

/// Settings of the OpenAI client.
pub struct RigOpenAiClient {
    base_url: String,
    model: String,
    api_key: Option<String>,
    api_key_env: Option<String>,
}

/// Where the API key comes from.
pub enum ApiKeySource {
    /// The key itself.
    Direct(String),
    /// The name of an environment variable that holds it.
    FromEnv(String),
    /// No key configured.
    Missing,
}

/// Mathematical value of an `ApiKeySource`.
pub enum ApiKeySourceView {
    Direct(Seq<char>),
    FromEnv(Seq<char>),
    Missing,
}

impl View for ApiKeySource {
    type V = ApiKeySourceView;

    open spec fn view(&self) -> ApiKeySourceView {
        match self {
            ApiKeySource::Direct(k) => ApiKeySourceView::Direct(k@),
            ApiKeySource::FromEnv(v) => ApiKeySourceView::FromEnv(v@),
            ApiKeySource::Missing => ApiKeySourceView::Missing,
        }
    }
}

/// A text that is an OpenAI key rather than a variable name.
pub open spec fn openai_key_like(s: Seq<char>) -> bool {
    starts_with(s, "sk-"@)
}

/// Key resolution: a non-blank `api_key` (trimmed) first; then a
/// non-blank `api_key_env`, taken as the key itself when it looks like one
/// and as a variable name otherwise; else no key.
pub open spec fn key_source(api_key: Option<Seq<char>>, api_key_env: Option<Seq<char>>) -> ApiKeySourceView {
    match opt_trimmed_nonempty(api_key) {
        Some(k) => ApiKeySourceView::Direct(k),
        None => match opt_trimmed_nonempty(api_key_env) {
            Some(v) => if openai_key_like(v) {
                ApiKeySourceView::Direct(v)
            } else {
                ApiKeySourceView::FromEnv(v)
            },
            None => ApiKeySourceView::Missing,
        },
    }
}

/// Whether a text starts with `sk-`.
pub fn looks_like_openai_key(value: &str) -> (r: bool)
    ensures
        r == openai_key_like(value@),
{
    starts_with_str(&chars_of(value), "sk-")
}

impl RigOpenAiClient {
    pub closed spec fn settings(&self) -> (Seq<char>, Seq<char>, Option<Seq<char>>, Option<Seq<char>>) {
        (self.base_url@, self.model@, opt_view(self.api_key), opt_view(self.api_key_env))
    }

    /// A client with the configured base URL, model and key settings.
    pub fn new(config: &OpenAiConfig) -> (r: Self)
        ensures
            r.settings() == (
                config.base_url@,
                config.model@,
                opt_view(config.api_key),
                opt_view(config.api_key_env),
            ),
    {
        RigOpenAiClient {
            base_url: copy_string(&config.base_url),
            model: copy_string(&config.model),
            api_key: copy_opt_string(&config.api_key),
            api_key_env: copy_opt_string(&config.api_key_env),
        }
    }

    /// The configured model.
    pub fn model_name(&self) -> (r: &str)
        ensures
            r@ == self.settings().1,
    {
        self.model.as_str()
    }

    /// The configured base URL.
    pub fn base_url(&self) -> (r: &str)
        ensures
            r@ == self.settings().0,
    {
        self.base_url.as_str()
    }

    /// Where the API key is to be taken from.
    pub fn api_key_source(&self) -> (r: ApiKeySource)
        ensures
            r@ == key_source(self.settings().2, self.settings().3),
    {
        match &self.api_key {
            Some(raw) => {
                let t = trim_str(raw.as_str());
                if t.len() > 0 {
                    return ApiKeySource::Direct(string_of(&t));
                }
            },
            None => {},
        }
        match &self.api_key_env {
            Some(raw) => {
                let t = trim_str(raw.as_str());
                if t.len() > 0 {
                    let v = string_of(&t);
                    if looks_like_openai_key(v.as_str()) {
                        return ApiKeySource::Direct(v);
                    }
                    return ApiKeySource::FromEnv(v);
                }
            },
            None => {},
        }
        ApiKeySource::Missing
    }
}

/// The OpenAI-backed classifier.
pub struct OpenAiClassifier {
    inner: RigOpenAiClient,
}

impl OpenAiClassifier {
    pub closed spec fn client(&self) -> RigOpenAiClient {
        self.inner
    }

    /// A classifier over a client built from the configuration.
    pub fn new(config: &OpenAiConfig) -> (r: Self)
        ensures
            r.client().settings() == (
                config.base_url@,
                config.model@,
                opt_view(config.api_key),
                opt_view(config.api_key_env),
            ),
    {
        OpenAiClassifier { inner: RigOpenAiClient::new(config) }
    }

    /// The client requests go through.
    pub fn client_ref(&self) -> (r: &RigOpenAiClient)
        ensures
            *r == self.client(),
    {
        &self.inner
    }

    /// The configured model.
    pub fn model_name(&self) -> (r: &str)
        ensures
            r@ == self.client().settings().1,
    {
        self.inner.model_name()
    }
}

/// The classifier a command uses: OpenAI with the configured settings.
pub fn build_ai_classifier(cfg: &AppConfig) -> (r: OpenAiClassifier)
    ensures
        r.client().settings() == (
            cfg.openai.base_url@,
            cfg.openai.model@,
            opt_view(cfg.openai.api_key),
            opt_view(cfg.openai.api_key_env),
        ),
{
    OpenAiClassifier::new(&cfg.openai)
}

} // verus!
