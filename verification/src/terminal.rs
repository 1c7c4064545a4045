//! Terminal presentation of served rows: table cells, the lines handed to
//! an interactive picker and reading the picked row back.
use vstd::prelude::*;

use crate::report::dots;
use crate::serve::{ServeRow, ServeRowView};
use crate::text::{
    append_chars, append_str, chars_of, decimal, parse_u64, parse_u64_chars, skip_chars,
    string_of, subrange_chars, trim, trim_chars, u64_decimal,
};

verus! {

/// The channel that prints served rows, optionally through `fzf`.
#[derive(Debug, Clone, Copy)]
pub struct TerminalChannel {
    pub use_fzf: bool,
}

impl TerminalChannel {
    pub fn new(use_fzf: bool) -> (r: Self)
        ensures
            r.use_fzf == use_fzf,
    {
        TerminalChannel { use_fzf }
    }
}

/// Tabs and line feeds replaced by spaces, then trimmed.
pub open spec fn scrubbed(s: Seq<char>) -> Seq<char> {
    trim(Seq::new(s.len(), |i: int| if s[i] == '\t' || s[i] == '\n' { ' ' } else { s[i] }))
}

/// A field made safe for one tab-separated line.
pub fn scrub(input: &str) -> (r: String)
    ensures
        r@ == scrubbed(input@),
{
    let v = chars_of(input);
    let ghost mapped = Seq::new(
        v@.len(),
        |i: int| if v@[i] == '\t' || v@[i] == '\n' { ' ' } else { v@[i] },
    );
    let mut out: Vec<char> = Vec::new();
    let mut i: usize = 0;
    while i < v.len()
        invariant
            i <= v.len(),
            mapped == Seq::new(
                v@.len(),
                |i: int| if v@[i] == '\t' || v@[i] == '\n' { ' ' } else { v@[i] },
            ),
            out@ =~= mapped.take(i as int),
        decreases v.len() - i,
    {
        if v[i] == '\t' || v[i] == '\n' {
            out.push(' ');
        } else {
            out.push(v[i]);
        }
        i = i + 1;
    }
    assert(mapped.take(i as int) =~= mapped);
    string_of(&trim_chars(&out))
}

/// A table field of at most `max` characters: scrubbed, cut with `...`
/// when longer, or only dots when `max` is 3 or less.
pub open spec fn field(value: Seq<char>, max: nat) -> Seq<char> {
    let s = scrubbed(value);
    if s.len() <= max {
        s
    } else if max <= 3 {
        dots(max)
    } else {
        s.take(max - 3) + "..."@
    }
}

/// The text of a table field.
pub fn truncate(input: &str, max_chars: usize) -> (r: String)
    ensures
        r@ == field(input@, max_chars as nat),
        r@.len() <= max_chars,
{
    let s = chars_of(scrub(input).as_str());
    if s.len() <= max_chars {
        return string_of(&s);
    }
    if max_chars <= 3 {
        let mut d: Vec<char> = Vec::new();
        let mut k: usize = 0;
        while k < max_chars
            invariant
                k <= max_chars,
                d@ =~= dots(k as nat),
            decreases max_chars - k,
        {
            d.push('.');
            k = k + 1;
        }
        return string_of(&d);
    }
    let mut out = subrange_chars(&s, 0, max_chars - 3);
    proof {
        reveal_strlit("...");
    }
    append_str(&mut out, "...");
    string_of(&out)
}

/// Decimal text of a signed integer.
pub open spec fn signed_decimal(n: i64) -> Seq<char> {
    if n < 0 {
        seq!['-'] + decimal((-(n as int)) as nat)
    } else {
        decimal(n as nat)
    }
}

/// `i64::to_string`.
pub fn i64_decimal(n: i64) -> (r: Vec<char>)
    ensures
        r@ == signed_decimal(n),
{
    if n < 0 {
        let m: i128 = -(n as i128);
        let mut v: Vec<char> = Vec::new();
        v.push('-');
        let d = u64_decimal(m as u64);
        append_chars(&mut v, &d);
        v
    } else {
        u64_decimal(n as u64)
    }
}

/// The line a row is offered on: id, platform, title, company and URL,
/// tab-separated.
pub open spec fn picker_line(row: ServeRowView) -> Seq<char> {
    signed_decimal(row.id) + "\t"@ + scrubbed(row.platform) + "\t"@ + scrubbed(row.title) + "\t"@
        + scrubbed(row.company) + "\t"@ + scrubbed(row.canonical_url) + "\n"@
}

/// The picker line of a row.
pub fn fzf_line(row: &ServeRow) -> (r: String)
    ensures
        r@ == picker_line(row@),
{
    let mut v = i64_decimal(row.id);
    append_str(&mut v, "\t");
    append_str(&mut v, scrub(row.platform.as_str()).as_str());
    append_str(&mut v, "\t");
    append_str(&mut v, scrub(row.title.as_str()).as_str());
    append_str(&mut v, "\t");
    append_str(&mut v, scrub(row.company.as_str()).as_str());
    append_str(&mut v, "\t");
    append_str(&mut v, scrub(row.canonical_url.as_str()).as_str());
    append_str(&mut v, "\n");
    string_of(&v)
}

/// What `str::parse::<i64>` gives: an optional sign, then the digits of a
/// value in range.
pub open spec fn parse_i64(s: Seq<char>) -> Option<i64> {
    if s.len() > 0 && s[0] == '-' {
        match parse_u64(s.skip(1)) {
            Some(v) => if v <= 0x8000_0000_0000_0000 {
                Some((-(v as int)) as i64)
            } else {
                None
            },
            None => None,
        }
    } else {
        let body = if s.len() > 0 && s[0] == '+' {
            s.skip(1)
        } else {
            s
        };
        match parse_u64(body) {
            Some(v) => if v <= i64::MAX {
                Some(v as i64)
            } else {
                None
            },
            None => None,
        }
    }
}

/// `str::parse::<i64>`.
pub fn parse_i64_chars(s: &Vec<char>) -> (r: Option<i64>)
    ensures
        r == parse_i64(s@),
{
    if s.len() > 0 && s[0] == '-' {
        match parse_u64_chars(&skip_chars(s, 1)) {
            Some(v) => if v <= 0x8000_0000_0000_0000u64 {
                let m: i128 = -(v as i128);
                Some(m as i64)
            } else {
                None
            },
            None => None,
        }
    } else {
        let body = if s.len() > 0 && s[0] == '+' {
            skip_chars(s, 1)
        } else {
            crate::text::copy_chars(s)
        };
        match parse_u64_chars(&body) {
            Some(v) => if v <= 9223372036854775807u64 {
                Some(v as i64)
            } else {
                None
            },
            None => None,
        }
    }
}

/// Index of the first occurrence of `c` in `s`, or its length.
pub open spec fn index_or_len(s: Seq<char>, c: char, i: int) -> int
    decreases s.len() - i,
{
    if i < 0 || i >= s.len() {
        s.len() as int
    } else if s[i] == c {
        i
    } else {
        index_or_len(s, c, i + 1)
    }
}

/// No position of `s` holds `c`.
pub open spec fn free_of(s: Seq<char>, c: char) -> bool {
    forall|j: int| 0 <= j < s.len() ==> s[j] != c
}

proof fn lemma_free_concat(a: Seq<char>, b: Seq<char>, c: char)
    requires
        free_of(a, c),
        free_of(b, c),
    ensures
        free_of(a + b, c),
{
    assert forall|j: int| 0 <= j < (a + b).len() implies (a + b)[j] != c by {
        if j < a.len() {
            assert((a + b)[j] == a[j]);
        } else {
            assert((a + b)[j] == b[j - a.len()]);
        }
    }
}

proof fn lemma_index_at(s: Seq<char>, c: char, i: int, k: int)
    requires
        0 <= i <= k < s.len(),
        s[k] == c,
        forall|j: int| i <= j < k ==> s[j] != c,
    ensures
        index_or_len(s, c, i) == k,
    decreases k - i,
{
    if i < k {
        lemma_index_at(s, c, i + 1, k);
    }
}

proof fn lemma_scrubbed_clean(s: Seq<char>)
    ensures
        free_of(scrubbed(s), '\n'),
        free_of(scrubbed(s), '\t'),
        scrubbed(s).len() > 0 ==> scrubbed(s).last() != '\r',
{
    let mapped = Seq::new(s.len(), |i: int| if s[i] == '\t' || s[i] == '\n' { ' ' } else { s[i] });
    crate::text::lemma_trim_from_text(mapped);
    assert forall|j: int| 0 <= j < scrubbed(s).len() implies scrubbed(s)[j] != '\n' && scrubbed(
        s,
    )[j] != '\t' by {
        assert(mapped.contains(scrubbed(s)[j]));
        let k = choose|k: int| 0 <= k < mapped.len() && mapped[k] == scrubbed(s)[j];
    }
}

proof fn lemma_signed_decimal(n: i64)
    ensures
        signed_decimal(n).len() > 0,
        free_of(signed_decimal(n), '\n'),
        free_of(signed_decimal(n), '\t'),
        parse_i64(signed_decimal(n)) == Some(n),
{
    if n < 0 {
        let m: int = -(n as int);
        crate::text::lemma_decimal_digits(m as nat);
        crate::text::lemma_parse_decimal(m as u64);
        let d = decimal(m as nat);
        let s = seq!['-'] + d;
        assert(s.skip(1) =~= d);
        assert forall|j: int| 0 <= j < s.len() implies s[j] != '\n' && s[j] != '\t' by {
            if j > 0 {
                assert(s[j] == d[j - 1]);
            }
        }
    } else {
        crate::text::lemma_decimal_digits(n as nat);
        crate::text::lemma_parse_decimal(n as u64);
        let d = decimal(n as nat);
        assert(crate::text::is_ascii_digit(d[0]));
    }
}

/// Picking a row's line and reading the picker's output back gives the
/// row's id.
pub proof fn picked_line_gives_row_id(row: ServeRowView)
    ensures
        picked_id(picker_line(row)) == Some(row.id),
{
    reveal_strlit("\t");
    reveal_strlit("\n");
    let d = signed_decimal(row.id);
    let p = scrubbed(row.platform);
    let t = scrubbed(row.title);
    let c = scrubbed(row.company);
    let u = scrubbed(row.canonical_url);
    lemma_signed_decimal(row.id);
    lemma_scrubbed_clean(row.platform);
    lemma_scrubbed_clean(row.title);
    lemma_scrubbed_clean(row.company);
    lemma_scrubbed_clean(row.canonical_url);
    let tab = seq!['\t'];
    assert("\t"@ =~= tab);
    assert("\n"@ =~= seq!['\n']);
    assert(free_of(tab, '\n'));
    let rest = tab + p + tab + t + tab + c + tab + u;
    lemma_free_concat(tab, p, '\n');
    lemma_free_concat(tab + p, tab, '\n');
    lemma_free_concat(tab + p + tab, t, '\n');
    lemma_free_concat(tab + p + tab + t, tab, '\n');
    lemma_free_concat(tab + p + tab + t + tab, c, '\n');
    lemma_free_concat(tab + p + tab + t + tab + c, tab, '\n');
    lemma_free_concat(tab + p + tab + t + tab + c + tab, u, '\n');
    lemma_free_concat(d, rest, '\n');
    let body = d + rest;
    let line = picker_line(row);
    assert(line =~= body + seq!['\n']);
    assert(line[body.len() as int] == '\n');
    assert forall|j: int| 0 <= j < body.len() implies line[j] != '\n' by {
        assert(line[j] == body[j]);
    }
    lemma_index_at(line, '\n', 0, body.len() as int);
    assert(before_char(line, '\n') =~= body);
    if u.len() > 0 {
        assert(body.last() == u.last());
    } else {
        assert(rest.last() == '\t');
        assert(body.last() == rest.last());
    }
    assert(body.last() != '\r');
    assert(body[d.len() as int] == '\t');
    assert forall|j: int| 0 <= j < d.len() implies body[j] != '\t' by {
        assert(body[j] == d[j]);
    }
    lemma_index_at(body, '\t', 0, d.len() as int);
    assert(before_char(body, '\t') =~= d);
}

/// The characters before the first `c`.
pub open spec fn before_char(s: Seq<char>, c: char) -> Seq<char> {
    s.take(index_or_len(s, c, 0))
}

/// The id on the first line of the picker's output: the first
/// tab-separated field of the first line (without a trailing `\r`);
/// `None` for empty output or a field that is not a number.
pub open spec fn picked_id(output: Seq<char>) -> Option<i64> {
    if output.len() == 0 {
        None
    } else {
        let line0 = before_char(output, '\n');
        let line = if line0.len() > 0 && line0.last() == '\r' {
            line0.drop_last()
        } else {
            line0
        };
        parse_i64(before_char(line, '\t'))
    }
}

fn prefix_before(s: &Vec<char>, c: char) -> (r: Vec<char>)
    ensures
        r@ == before_char(s@, c),
{
    let mut i: usize = 0;
    while i < s.len() && s[i] != c
        invariant
            i <= s.len(),
            index_or_len(s@, c, 0) == index_or_len(s@, c, i as int),
        decreases s.len() - i,
    {
        i = i + 1;
    }
    subrange_chars(s, 0, i)
}

/// The id of the row picked, read from the picker's output.
pub fn selected_row_id(output: &str) -> (r: Option<i64>)
    ensures
        r == picked_id(output@),
{
    let s = chars_of(output);
    if s.len() == 0 {
        return None;
    }
    let line0 = prefix_before(&s, '\n');
    let line = if line0.len() > 0 && line0[line0.len() - 1] == '\r' {
        subrange_chars(&line0, 0, line0.len() - 1)
    } else {
        line0
    };
    let first = prefix_before(&line, '\t');
    parse_i64_chars(&first)
}

/// Index of the first row with the id.
pub fn find_row(rows: &[ServeRow], id: i64) -> (r: Option<usize>)
    ensures
        match r {
            Some(i) => i < rows@.len() && rows@[i as int].id == id && forall|j: int|
                0 <= j < i ==> rows@[j].id != id,
            None => forall|j: int| 0 <= j < rows@.len() ==> rows@[j].id != id,
        },
{
    let mut i: usize = 0;
    while i < rows.len()
        invariant
            i <= rows@.len(),
            forall|j: int| 0 <= j < i ==> rows@[j].id != id,
        decreases rows@.len() - i,
    {
        if rows[i].id == id {
            return Some(i);
        }
        i = i + 1;
    }
    None
}

} // verus!
