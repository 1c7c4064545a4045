//! The SQLite job store: where it lives, how its schema is brought up to
//! date, and how stored jobs read back as report rows.
use vstd::prelude::*;

use crate::external::{json_string_list, parse_json_strings};
use crate::job::{ReportRow, ReportRowView};
use crate::stage::trimmed_nonempty;
use crate::text::{
    any_eq_ignore_case, append_str, chars_of, ci_member, find_first, first_occ,
    lemma_first_occ_bounds, opt_view, skip_chars, string_of, strs, subrange_chars, trim_chars,
    views,
};

verus! {

/// The pipeline's job store.
pub struct SqliteRepo {
    db_path: String,
}

impl SqliteRepo {
    pub fn new(db_path: String) -> (r: Self)
        ensures
            r.path() == db_path@,
    {
        SqliteRepo { db_path }
    }

    pub closed spec fn path(&self) -> Seq<char> {
        self.db_path@
    }

    /// The database file.
    pub fn db_path(&self) -> (r: &str)
        ensures
            r@ == self.path(),
    {
        self.db_path.as_str()
    }
}

/// The extract step's seed store.
pub struct SqliteExtractRepo {
    db_path: String,
}

impl SqliteExtractRepo {
    pub fn new(db_path: String) -> (r: Self)
        ensures
            r.path() == db_path@,
    {
        SqliteExtractRepo { db_path }
    }

    pub closed spec fn path(&self) -> Seq<char> {
        self.db_path@
    }

    /// The database file.
    pub fn db_path(&self) -> (r: &str)
        ensures
            r@ == self.path(),
    {
        self.db_path.as_str()
    }
}

/// `sqlite://<path>`.
pub fn sqlite_url(db_path: &str) -> (r: String)
    ensures
        r@ == "sqlite://"@ + db_path@,
{
    let mut v = chars_of("sqlite://");
    append_str(&mut v, db_path);
    string_of(&v)
}

/// The pieces of `s` between occurrences of a non-empty separator.
pub open spec fn split_parts(s: Seq<char>, sep: Seq<char>) -> Seq<Seq<char>>
    decreases s.len(),
{
    if sep.len() == 0 {
        seq![s]
    } else {
        match first_occ(s, sep, 0) {
            Some(i) => if 0 <= i && i + sep.len() <= s.len() {
                seq![s.take(i)] + split_parts(s.skip(i + sep.len()), sep)
            } else {
                seq![s]
            },
            None => seq![s],
        }
    }
}

/// The trimmed non-blank pieces, in order.
pub open spec fn nonblank_trimmed(parts: Seq<Seq<char>>) -> Seq<Seq<char>>
    decreases parts.len(),
{
    if parts.len() == 0 {
        seq![]
    } else {
        match trimmed_nonempty(parts.last()) {
            Some(t) => nonblank_trimmed(parts.drop_last()).push(t),
            None => nonblank_trimmed(parts.drop_last()),
        }
    }
}

proof fn lemma_nonblank_append(a: Seq<Seq<char>>, b: Seq<Seq<char>>)
    ensures
        nonblank_trimmed(a + b) == nonblank_trimmed(a) + nonblank_trimmed(b),
    decreases b.len(),
{
    if b.len() == 0 {
        assert(a + b =~= a);
        assert(nonblank_trimmed(a) + nonblank_trimmed(b) =~= nonblank_trimmed(a));
    } else {
        lemma_nonblank_append(a, b.drop_last());
        assert((a + b).drop_last() =~= a + b.drop_last());
        assert((a + b).last() == b.last());
        match trimmed_nonempty(b.last()) {
            Some(t) => {
                assert(nonblank_trimmed(a) + nonblank_trimmed(b.drop_last()).push(t) =~= (
                nonblank_trimmed(a) + nonblank_trimmed(b.drop_last())).push(t));
            },
            None => {},
        }
    }
}

/// The statements of a migration script: split at `;` followed by a line
/// feed, trimmed, blanks dropped.
pub fn migration_statements(sql: &str) -> (r: Vec<String>)
    ensures
        strs(r@) == nonblank_trimmed(split_parts(sql@, ";\n"@)),
{
    let sep = chars_of(";\n");
    proof {
        reveal_strlit(";\n");
    }
    let mut rest = chars_of(sql);
    let mut out: Vec<String> = Vec::new();
    let ghost whole = split_parts(sql@, sep@);
    let ghost mut done: Seq<Seq<char>> = seq![];
    loop
        invariant
            sep@ == ";\n"@,
            sep@.len() == 2,
            whole == split_parts(sql@, sep@),
            whole == done + split_parts(rest@, sep@),
            strs(out@) == nonblank_trimmed(done),
        decreases rest@.len(),
    {
        let found = find_first(&rest, &sep);
        proof {
            lemma_first_occ_bounds(rest@, sep@, 0);
        }
        let (piece, more) = match found {
            Some(i) => {
                if rest.len() >= 2 && i <= rest.len() - 2 {
                    (subrange_chars(&rest, 0, i), true)
                } else {
                    (crate::text::copy_chars(&rest), false)
                }
            },
            None => (crate::text::copy_chars(&rest), false),
        };
        let t = trim_chars(&piece);
        let ghost before = strs(out@);
        if t.len() > 0 {
            out.push(string_of(&t));
            assert(strs(out@) =~= before.push(t@));
        }
        proof {
            let one = seq![piece@];
            assert(one.drop_last() =~= Seq::<Seq<char>>::empty());
            assert(one.last() == piece@);
            assert(nonblank_trimmed(one.drop_last()) =~= Seq::<Seq<char>>::empty());
            if t@.len() > 0 {
                assert(nonblank_trimmed(one) =~= seq![t@]);
                assert(strs(out@) =~= nonblank_trimmed(done) + seq![t@]);
            } else {
                assert(nonblank_trimmed(one) =~= Seq::<Seq<char>>::empty());
                assert(strs(out@) =~= nonblank_trimmed(done) + Seq::<Seq<char>>::empty());
            }
            lemma_nonblank_append(done, one);
            done = done + one;
        }
        if !more {
            proof {
                assert(split_parts(rest@, sep@) =~= seq![rest@]);
                assert(piece@ =~= rest@);
                assert(whole =~= done);
            }
            return out;
        }
        let i = match found {
            Some(i) => i,
            None => 0,
        };
        proof {
            assert(split_parts(rest@, sep@) == seq![rest@.take(i as int)] + split_parts(
                rest@.skip(i + 2),
                sep@,
            ));
            assert(done + split_parts(rest@.skip(i + 2), sep@) =~= (done.drop_last() + seq![
                piece@,
            ]) + split_parts(rest@.skip(i + 2), sep@));
        }
        rest = skip_chars(&rest, i + 2);
    }
}

/// Whether a column name is among the table's, ignoring ASCII case.
pub fn has_column(names: &Vec<String>, column: &str) -> (r: bool)
    ensures
        r == ci_member(strs(names@), column@),
{
    let mut vs: Vec<Vec<char>> = Vec::new();
    let mut i: usize = 0;
    while i < names.len()
        invariant
            i <= names.len(),
            views(vs@) =~= strs(names@).take(i as int),
        decreases names.len() - i,
    {
        let ghost b = views(vs@);
        vs.push(chars_of(names[i].as_str()));
        assert(views(vs@) =~= b.push(strs(names@)[i as int]));
        i = i + 1;
    }
    assert(strs(names@).take(i as int) =~= strs(names@));
    any_eq_ignore_case(&vs, &chars_of(column))
}

/// The statement adding a column to the jobs table.
pub fn add_column_statement(column: &str, sqlite_type: &str) -> (r: String)
    ensures
        r@ == "ALTER TABLE jobs ADD COLUMN "@ + column@ + " "@ + sqlite_type@,
{
    let mut v = chars_of("ALTER TABLE jobs ADD COLUMN ");
    append_str(&mut v, column);
    append_str(&mut v, " ");
    append_str(&mut v, sqlite_type);
    string_of(&v)
}

// ---------------------------------------------------------------------------
// Reading stored jobs back
// ---------------------------------------------------------------------------

/// The requirements kept in a stored `requirements_json` column: the JSON
/// list of strings, or no requirements where the text is not one.
pub open spec fn stored_requirements_of(requirements_json: Seq<char>) -> Seq<Seq<char>> {
    match json_string_list(requirements_json) {
        Some(v) => v,
        None => Seq::<Seq<char>>::empty(),
    }
}

/// Decodes a stored `requirements_json` column; text that is not a JSON
/// list of strings reads as no requirements.
pub fn stored_requirements(requirements_json: &str) -> (r: Vec<String>)
    ensures
        strs(r@) == stored_requirements_of(requirements_json@),
{
    match parse_json_strings(requirements_json) {
        Some(v) => v,
        None => {
            let v: Vec<String> = Vec::new();
            assert(strs(v@) =~= Seq::<Seq<char>>::empty());
            v
        },
    }
}

/// The columns of a stored job that a run report reads.
pub struct StoredJobRow {
    pub title: String,
    pub source_page_index: i64,
    pub company: Option<String>,
    pub canonical_url: String,
    pub status: String,
    pub status_reason: String,
    pub location: Option<String>,
    pub language: Option<String>,
    pub work_mode: Option<String>,
    pub employment_type: Option<String>,
    pub posted_text: Option<String>,
    pub compensation_text: Option<String>,
    pub visa_policy_text: Option<String>,
    pub description: Option<String>,
    pub requirements_json: String,
    pub company_summary: Option<String>,
    pub company_size: Option<String>,
}

/// The report row of a stored job: its columns as they are, the status
/// reason as the row's summary, and the decoded requirements.
pub open spec fn stored_row(row: StoredJobRow) -> ReportRowView {
    ReportRowView {
        title: row.title@,
        source_page_index: row.source_page_index,
        company: opt_view(row.company),
        canonical_url: row.canonical_url@,
        status: row.status@,
        summary: row.status_reason@,
        location: opt_view(row.location),
        language: opt_view(row.language),
        work_mode: opt_view(row.work_mode),
        employment_type: opt_view(row.employment_type),
        posted_text: opt_view(row.posted_text),
        compensation_text: opt_view(row.compensation_text),
        visa_policy_text: opt_view(row.visa_policy_text),
        description: opt_view(row.description),
        company_summary: opt_view(row.company_summary),
        company_size: opt_view(row.company_size),
        requirements: stored_requirements_of(row.requirements_json@),
    }
}

/// Builds the report row of a stored job.
pub fn stored_report_row(row: StoredJobRow) -> (r: ReportRow)
    ensures
        r@ == stored_row(row),
{
    let requirements = stored_requirements(row.requirements_json.as_str());
    ReportRow {
        title: row.title,
        source_page_index: row.source_page_index,
        company: row.company,
        canonical_url: row.canonical_url,
        status: row.status,
        summary: row.status_reason,
        location: row.location,
        language: row.language,
        work_mode: row.work_mode,
        employment_type: row.employment_type,
        posted_text: row.posted_text,
        compensation_text: row.compensation_text,
        visa_policy_text: row.visa_policy_text,
        description: row.description,
        company_summary: row.company_summary,
        company_size: row.company_size,
        requirements,
    }
}

} // verus!
