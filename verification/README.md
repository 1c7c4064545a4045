# jessy

A local, read-only job search assistant for open Chrome tabs. It crawls
LinkedIn search pages in a dedicated debug Chrome profile, pre-filters job
cards by title, posting age and title language, asks an OpenAI model for
structured fields of each job, applies deterministic hard exclusions
(visa sponsorship, country residency), keeps history in SQLite and prints
terminal cards.

## Layout

- `src/` is the library, verified with Verus. Every decision the program
  takes lives here with a contract: configuration normalization and
  validation, the title and policy filters, URL canonicalization and
  dedupe keys, the search-page crawl decisions (recency pre-filter, repeat
  page stop, page limit, retries), the job record and report rows, the
  pipeline steps (extract, load, prefilter, enrich, serve), and the report
  and card formatting.
  - `external.rs` holds the trusted wrappers around `whatlang`, `sha2`,
    `hex`, `regex`, `url` and `serde_json`; each states what the library
    relies on.
  - Public proof functions state the library's laws (for example
    `scan::hard_exclusion_decides_status`, `config::normalize_idempotent`,
    `report::wrapped_lines_fit`, `terminal::picked_line_gives_row_id`).
- `app/` is the program around it: command line, Chrome DevTools protocol,
  SQLite, the OpenAI client and terminal output. It performs the I/O and
  hands the library plain values.
- `tests/` runs the library on concrete inputs.
