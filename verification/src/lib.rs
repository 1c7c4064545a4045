//! Job-scanning domain library: text normalization, title and policy
//! filters, pipeline step planning and report formatting.
pub mod text;
pub mod config;
pub mod external;
pub mod policy;
pub mod job;
pub mod ai;
pub mod job_page;
pub mod scan;
pub mod stage;
pub mod prefilter;
pub mod enrich;
pub mod load;
pub mod extract;
pub mod serve;
pub mod platform;
pub mod browser;
pub mod openai;
pub mod report;
pub mod summary;
pub mod crawler;
pub mod terminal;
pub mod linkedin;
pub mod scripts;
pub mod store;
