//! Job domain values shared by scanning, persistence and reporting.
use vstd::prelude::*;

use crate::text::{opt_view, strs};

verus! {

/// Supported job-source platforms.
#[derive(Debug, Clone, Copy, PartialEq, Eq, Structural, Hash)]
pub enum PlatformKind {
    LinkedIn,
}

impl PlatformKind {
    /// Stable lowercase identifier used in logs and persistence.
    pub fn as_str(self) -> (r: &'static str)
        ensures
            r@ == platform_name(self),
    {
        match self {
            PlatformKind::LinkedIn => "linkedin",
        }
    }
}

pub open spec fn platform_name(p: PlatformKind) -> Seq<char> {
    match p {
        PlatformKind::LinkedIn => "linkedin"@,
    }
}

/// Lightweight candidate from a search/list page.
pub struct SearchCardData {
    pub title: String,
    pub job_url: String,
    pub footer_items: Vec<String>,
    pub posted_age_text: Option<String>,
}

/// Mathematical value of a `SearchCardData`.
pub struct SearchCardView {
    pub title: Seq<char>,
    pub job_url: Seq<char>,
    pub footer_items: Seq<Seq<char>>,
    pub posted_age_text: Option<Seq<char>>,
}

impl View for SearchCardData {
    type V = SearchCardView;

    open spec fn view(&self) -> SearchCardView {
        SearchCardView {
            title: self.title@,
            job_url: self.job_url@,
            footer_items: strs(self.footer_items@),
            posted_age_text: opt_view(self.posted_age_text),
        }
    }
}

/// Parsed snapshot from a search/list page.
pub struct SearchPageData {
    pub job_cards: Vec<SearchCardData>,
    pub job_links: Vec<String>,
    pub next_page_url: Option<String>,
    pub fingerprint_source: String,
}

/// Parsed snapshot from a job detail page.
pub struct JobDetailData {
    pub url: String,
    pub about_job_dom: String,
    pub title: String,
    pub company: String,
    pub location: Option<String>,
    pub employment_type: Option<String>,
    pub posted_text: Option<String>,
    pub description: String,
    pub requirements: Vec<String>,
    pub company_domain: Option<String>,
    pub company_summary: Option<String>,
    pub company_size: Option<String>,
}

/// Status persisted for each job.
#[derive(Debug, Clone, Copy, PartialEq, Eq, Structural)]
pub enum JobStatus {
    Opportunity,
    NotOpportunity,
}

pub open spec fn status_name(s: JobStatus) -> Seq<char> {
    match s {
        JobStatus::Opportunity => "opportunity"@,
        JobStatus::NotOpportunity => "not_opportunity"@,
    }
}

impl JobStatus {
    /// Stable lowercase identifier used in database rows.
    pub fn as_str(&self) -> (r: &'static str)
        ensures
            r@ == status_name(*self),
    {
        match self {
            JobStatus::Opportunity => "opportunity",
            JobStatus::NotOpportunity => "not_opportunity",
        }
    }
}

/// Canonical job record written to persistence.
pub struct JobRecord {
    pub dedupe_key: String,
    pub canonical_url: String,
    pub company: String,
    pub title: String,
    pub location: Option<String>,
    pub language: Option<String>,
    pub work_mode: Option<String>,
    pub employment_type: Option<String>,
    pub posted_text: Option<String>,
    pub compensation_text: Option<String>,
    pub visa_policy_text: Option<String>,
    pub description: String,
    pub requirements: Vec<String>,
    pub source_tab_url: String,
    pub source_page_index: i64,
    pub status: JobStatus,
    pub status_reason: String,
    pub requirements_summary: String,
    pub company_summary: String,
    pub company_size: Option<String>,
}

/// Minimal projection used by terminal reporting.
pub struct ReportRow {
    pub title: String,
    pub source_page_index: i64,
    pub company: Option<String>,
    pub canonical_url: String,
    pub status: String,
    pub summary: String,
    pub location: Option<String>,
    pub language: Option<String>,
    pub work_mode: Option<String>,
    pub employment_type: Option<String>,
    pub posted_text: Option<String>,
    pub compensation_text: Option<String>,
    pub visa_policy_text: Option<String>,
    pub description: Option<String>,
    pub company_summary: Option<String>,
    pub company_size: Option<String>,
    pub requirements: Vec<String>,
}

/// Mathematical value of a `ReportRow`.
pub struct ReportRowView {
    pub title: Seq<char>,
    pub source_page_index: i64,
    pub company: Option<Seq<char>>,
    pub canonical_url: Seq<char>,
    pub status: Seq<char>,
    pub summary: Seq<char>,
    pub location: Option<Seq<char>>,
    pub language: Option<Seq<char>>,
    pub work_mode: Option<Seq<char>>,
    pub employment_type: Option<Seq<char>>,
    pub posted_text: Option<Seq<char>>,
    pub compensation_text: Option<Seq<char>>,
    pub visa_policy_text: Option<Seq<char>>,
    pub description: Option<Seq<char>>,
    pub company_summary: Option<Seq<char>>,
    pub company_size: Option<Seq<char>>,
    pub requirements: Seq<Seq<char>>,
}

impl View for ReportRow {
    type V = ReportRowView;

    open spec fn view(&self) -> ReportRowView {
        ReportRowView {
            title: self.title@,
            source_page_index: self.source_page_index,
            company: opt_view(self.company),
            canonical_url: self.canonical_url@,
            status: self.status@,
            summary: self.summary@,
            location: opt_view(self.location),
            language: opt_view(self.language),
            work_mode: opt_view(self.work_mode),
            employment_type: opt_view(self.employment_type),
            posted_text: opt_view(self.posted_text),
            compensation_text: opt_view(self.compensation_text),
            visa_policy_text: opt_view(self.visa_policy_text),
            description: opt_view(self.description),
            company_summary: opt_view(self.company_summary),
            company_size: opt_view(self.company_size),
            requirements: strs(self.requirements@),
        }
    }
}

/// Mathematical value of a `JobRecord`.
pub struct JobRecordView {
    pub dedupe_key: Seq<char>,
    pub canonical_url: Seq<char>,
    pub company: Seq<char>,
    pub title: Seq<char>,
    pub location: Option<Seq<char>>,
    pub language: Option<Seq<char>>,
    pub work_mode: Option<Seq<char>>,
    pub employment_type: Option<Seq<char>>,
    pub posted_text: Option<Seq<char>>,
    pub compensation_text: Option<Seq<char>>,
    pub visa_policy_text: Option<Seq<char>>,
    pub description: Seq<char>,
    pub requirements: Seq<Seq<char>>,
    pub source_tab_url: Seq<char>,
    pub source_page_index: i64,
    pub status: JobStatus,
    pub status_reason: Seq<char>,
    pub requirements_summary: Seq<char>,
    pub company_summary: Seq<char>,
    pub company_size: Option<Seq<char>>,
}

impl View for JobRecord {
    type V = JobRecordView;

    open spec fn view(&self) -> JobRecordView {
        JobRecordView {
            dedupe_key: self.dedupe_key@,
            canonical_url: self.canonical_url@,
            company: self.company@,
            title: self.title@,
            location: opt_view(self.location),
            language: opt_view(self.language),
            work_mode: opt_view(self.work_mode),
            employment_type: opt_view(self.employment_type),
            posted_text: opt_view(self.posted_text),
            compensation_text: opt_view(self.compensation_text),
            visa_policy_text: opt_view(self.visa_policy_text),
            description: self.description@,
            requirements: strs(self.requirements@),
            source_tab_url: self.source_tab_url@,
            source_page_index: self.source_page_index,
            status: self.status,
            status_reason: self.status_reason@,
            requirements_summary: self.requirements_summary@,
            company_summary: self.company_summary@,
            company_size: opt_view(self.company_size),
        }
    }
}

/// Mathematical value of a `JobDetailData`.
pub struct JobDetailView {
    pub url: Seq<char>,
    pub about_job_dom: Seq<char>,
    pub title: Seq<char>,
    pub company: Seq<char>,
    pub location: Option<Seq<char>>,
    pub employment_type: Option<Seq<char>>,
    pub posted_text: Option<Seq<char>>,
    pub description: Seq<char>,
    pub requirements: Seq<Seq<char>>,
    pub company_domain: Option<Seq<char>>,
    pub company_summary: Option<Seq<char>>,
    pub company_size: Option<Seq<char>>,
}

impl View for JobDetailData {
    type V = JobDetailView;

    open spec fn view(&self) -> JobDetailView {
        JobDetailView {
            url: self.url@,
            about_job_dom: self.about_job_dom@,
            title: self.title@,
            company: self.company@,
            location: opt_view(self.location),
            employment_type: opt_view(self.employment_type),
            posted_text: opt_view(self.posted_text),
            description: self.description@,
            requirements: strs(self.requirements@),
            company_domain: opt_view(self.company_domain),
            company_summary: opt_view(self.company_summary),
            company_size: opt_view(self.company_size),
        }
    }
}

} // verus!
