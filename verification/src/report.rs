//! Report formatting: the status and reason shown for each row, cell
//! truncation, card lines and line wrapping.
use vstd::prelude::*;
use vstd::utf8::encode_utf8;

use crate::config::{normalize_urls, urls_norm};
use crate::job::{ReportRow, ReportRowView};
use crate::stage::trimmed_nonempty;
use crate::text::{
    append_chars, append_str, chars_of_strings, char_is_ascii_alnum, char_to_ascii_lower,
    chars_eq_ignore_case, chars_eq_str, chars_of, contains, contains_chars, copy_chars,
    eq_ignore_case, is_ascii_alnum, is_ascii_digit, join, join_chars, lower, lower_char, parse_u64,
    parse_u64_chars, skip_chars, split_whitespace, starts_with, starts_with_str, string_of,
    strings_of, strs, subrange_chars, to_lower, trim, trim_chars, trim_str, utf8_len_exceeds, views,
    words,
};

verus! {

// ---------------------------------------------------------------------------
// Status and reason of a row
// ---------------------------------------------------------------------------

/// A stored status that counts as accepted.
pub open spec fn accepted_status(status: Seq<char>) -> bool {
    status == "opportunity"@ || status == "accepted"@
}

/// A summary recording a failed extraction.
pub open spec fn failed_summary(summary: Seq<char>) -> bool {
    contains(lower(summary), "failed extraction/classification"@)
}

/// The status shown for a row.
pub open spec fn status_label(row: ReportRowView) -> Seq<char> {
    if accepted_status(row.status) {
        "accepted"@
    } else if row.status == "failed"@ || failed_summary(row.summary) {
        "failed"@
    } else {
        "rejected"@
    }
}

/// Whether a stored status counts as accepted.
pub fn is_accepted_status(status: &str) -> (r: bool)
    ensures
        r == accepted_status(status@),
{
    let v = chars_of(status);
    chars_eq_str(&v, "opportunity") || chars_eq_str(&v, "accepted")
}

/// Whether the row's summary records a failed extraction.
pub fn is_failed_row(row: &ReportRow) -> (r: bool)
    ensures
        r == failed_summary(row.summary@),
{
    let s = to_lower(&chars_of(row.summary.as_str()));
    contains_chars(&s, &chars_of("failed extraction/classification"))
}

/// The status shown for a row: `accepted`, `failed` or `rejected`.
pub fn report_status(row: &ReportRow) -> (r: &'static str)
    ensures
        r@ == status_label(row@),
{
    if is_accepted_status(row.status.as_str()) {
        return "accepted";
    }
    if chars_eq_str(&chars_of(row.status.as_str()), "failed") || is_failed_row(row) {
        return "failed";
    }
    "rejected"
}

/// Characters mapped for a reason key: ASCII letters and digits
/// lower-cased, every run of other characters one `_`.
pub open spec fn reason_key_raw(s: Seq<char>) -> Seq<char>
    decreases s.len(),
{
    if s.len() == 0 {
        seq![]
    } else {
        let p = reason_key_raw(s.drop_last());
        let c = s.last();
        if is_ascii_alnum(c) {
            p.push(lower_char(c))
        } else if p.len() > 0 && p.last() == '_' {
            p
        } else {
            p.push('_')
        }
    }
}

/// `s` without leading occurrences of `c`.
pub open spec fn strip_start(s: Seq<char>, c: char) -> Seq<char>
    decreases s.len(),
{
    if s.len() > 0 && s[0] == c {
        strip_start(s.drop_first(), c)
    } else {
        s
    }
}

/// `s` without trailing occurrences of `c`.
pub open spec fn strip_end(s: Seq<char>, c: char) -> Seq<char>
    decreases s.len(),
{
    if s.len() > 0 && s.last() == c {
        strip_end(s.drop_last(), c)
    } else {
        s
    }
}

/// A reason as a key: `reason_key_raw` with `_` trimmed from both ends.
pub open spec fn reason_key(s: Seq<char>) -> Seq<char> {
    strip_end(strip_start(reason_key_raw(s), '_'), '_')
}

/// `str::trim_start_matches` with a character.
pub fn strip_start_chars(s: &Vec<char>, c: char) -> (r: Vec<char>)
    ensures
        r@ == strip_start(s@, c),
{
    let mut i: usize = 0;
    assert(s@.skip(0) =~= s@);
    while i < s.len() && s[i] == c
        invariant
            i <= s.len(),
            strip_start(s@, c) == strip_start(s@.skip(i as int), c),
        decreases s.len() - i,
    {
        assert(s@.skip(i as int).drop_first() =~= s@.skip(i + 1));
        i = i + 1;
    }
    skip_chars(s, i)
}

/// `str::trim_end_matches` with a character.
pub fn strip_end_chars(s: &Vec<char>, c: char) -> (r: Vec<char>)
    ensures
        r@ == strip_end(s@, c),
{
    let mut n: usize = s.len();
    assert(s@.take(n as int) =~= s@);
    while n > 0 && s[n - 1] == c
        invariant
            n <= s.len(),
            strip_end(s@, c) == strip_end(s@.take(n as int), c),
        decreases n,
    {
        assert(s@.take(n as int).drop_last() =~= s@.take(n - 1));
        n = n - 1;
    }
    subrange_chars(s, 0, n)
}

/// A reason as a lower-case key of letters, digits and single `_`.
pub fn normalize_reason_key(input: &str) -> (r: String)
    ensures
        r@ == reason_key(input@),
{
    let s = chars_of(input);
    let mut out: Vec<char> = Vec::new();
    let mut prev_underscore = false;
    let mut i: usize = 0;
    while i < s.len()
        invariant
            i <= s.len(),
            out@ == reason_key_raw(s@.take(i as int)),
            prev_underscore <==> (out@.len() > 0 && out@.last() == '_'),
        decreases s.len() - i,
    {
        let c = s[i];
        proof {
            assert(s@.take(i + 1).drop_last() =~= s@.take(i as int));
            assert(s@.take(i + 1).last() == c);
        }
        if char_is_ascii_alnum(c) {
            out.push(char_to_ascii_lower(c));
            prev_underscore = false;
        } else if !prev_underscore {
            out.push('_');
            prev_underscore = true;
        }
        i = i + 1;
    }
    assert(s@.take(i as int) =~= s@);
    let a = strip_start_chars(&out, '_');
    let b = strip_end_chars(&a, '_');
    string_of(&b)
}

/// A character a reason key may hold: a lower-case ASCII letter, an ASCII
/// digit or `_`.
pub open spec fn key_char(c: char) -> bool {
    ('a' <= c && c <= 'z') || is_ascii_digit(c) || c == '_'
}

/// Key characters only, and no `_` directly after another.
pub open spec fn key_body(k: Seq<char>) -> bool {
    &&& forall|i: int| 0 <= i < k.len() ==> key_char(#[trigger] k[i])
    &&& forall|i: int| 0 < i < k.len() && #[trigger] k[i] == '_' ==> k[i - 1] != '_'
}

/// A well-formed reason key: key characters, single `_` between words,
/// none at either end.
pub open spec fn is_reason_key(k: Seq<char>) -> bool {
    &&& key_body(k)
    &&& k.len() > 0 ==> k[0] != '_' && k.last() != '_'
}

proof fn lemma_key_raw_body(s: Seq<char>)
    ensures
        key_body(reason_key_raw(s)),
    decreases s.len(),
{
    if s.len() > 0 {
        lemma_key_raw_body(s.drop_last());
        let p = reason_key_raw(s.drop_last());
        let c = s.last();
        let r = reason_key_raw(s);
        if is_ascii_alnum(c) {
            assert(r == p.push(lower_char(c)));
            assert(key_char(lower_char(c)));
            assert forall|i: int| 0 <= i < r.len() implies key_char(#[trigger] r[i]) by {
                if i < p.len() {
                    assert(r[i] == p[i]);
                }
            }
            assert forall|i: int| 0 < i < r.len() && #[trigger] r[i] == '_' implies r[i - 1]
                != '_' by {
                assert(r[i] == p[i]);
                assert(r[i - 1] == p[i - 1]);
            }
        } else if !(p.len() > 0 && p.last() == '_') {
            assert(r == p.push('_'));
            assert forall|i: int| 0 <= i < r.len() implies key_char(#[trigger] r[i]) by {
                if i < p.len() {
                    assert(r[i] == p[i]);
                }
            }
            assert forall|i: int| 0 < i < r.len() && #[trigger] r[i] == '_' implies r[i - 1]
                != '_' by {
                assert(r[i - 1] == p[i - 1]);
                if i < p.len() {
                    assert(r[i] == p[i]);
                }
            }
        }
    }
}

proof fn lemma_strip_start_suffix(s: Seq<char>, c: char)
    ensures
        exists|a: int| 0 <= a <= s.len() && strip_start(s, c) == s.skip(a),
        strip_start(s, c).len() > 0 ==> strip_start(s, c)[0] != c,
    decreases s.len(),
{
    if s.len() > 0 && s[0] == c {
        lemma_strip_start_suffix(s.drop_first(), c);
        let a = choose|a: int|
            0 <= a <= s.drop_first().len() && strip_start(s.drop_first(), c)
                == s.drop_first().skip(a);
        assert(s.drop_first().skip(a) =~= s.skip(a + 1));
    } else {
        assert(s.skip(0) =~= s);
    }
}

proof fn lemma_strip_end_prefix(s: Seq<char>, c: char)
    ensures
        exists|b: int| 0 <= b <= s.len() && strip_end(s, c) == s.take(b),
        strip_end(s, c).len() > 0 ==> strip_end(s, c).last() != c,
    decreases s.len(),
{
    if s.len() > 0 && s.last() == c {
        lemma_strip_end_prefix(s.drop_last(), c);
        let b = choose|b: int|
            0 <= b <= s.drop_last().len() && strip_end(s.drop_last(), c) == s.drop_last().take(b);
        assert(s.drop_last().take(b) =~= s.take(b));
    } else {
        assert(s.take(s.len() as int) =~= s);
    }
}

proof fn lemma_key_body_subrange(k: Seq<char>, a: int, b: int)
    requires
        key_body(k),
        0 <= a <= b <= k.len(),
    ensures
        key_body(k.subrange(a, b)),
{
    let t = k.subrange(a, b);
    assert forall|i: int| 0 <= i < t.len() implies key_char(#[trigger] t[i]) by {
        assert(t[i] == k[a + i]);
    }
    assert forall|i: int| 0 < i < t.len() && #[trigger] t[i] == '_' implies t[i - 1] != '_' by {
        assert(t[i] == k[a + i]);
        assert(t[i - 1] == k[a + i - 1]);
    }
}

/// What `normalize_reason_key` makes is always a well-formed key.
pub proof fn reason_keys_are_well_formed(s: Seq<char>)
    ensures
        is_reason_key(reason_key(s)),
{
    let raw = reason_key_raw(s);
    lemma_key_raw_body(s);
    lemma_strip_start_suffix(raw, '_');
    let a = choose|a: int| 0 <= a <= raw.len() && strip_start(raw, '_') == raw.skip(a);
    let st = strip_start(raw, '_');
    assert(st =~= raw.subrange(a, raw.len() as int));
    lemma_key_body_subrange(raw, a, raw.len() as int);
    lemma_strip_end_prefix(st, '_');
    let b = choose|b: int| 0 <= b <= st.len() && strip_end(st, '_') == st.take(b);
    assert(strip_end(st, '_') =~= st.subrange(0, b));
    lemma_key_body_subrange(st, 0, b);
    if reason_key(s).len() > 0 {
        assert(reason_key(s)[0] == st[0]);
    }
}

proof fn lemma_key_raw_fixed(k: Seq<char>)
    requires
        key_body(k),
        k.len() > 0 ==> k[0] != '_',
    ensures
        reason_key_raw(k) == k,
    decreases k.len(),
{
    if k.len() > 0 {
        let init = k.drop_last();
        assert(key_body(init)) by {
            lemma_key_body_subrange(k, 0, k.len() - 1);
            assert(init =~= k.subrange(0, k.len() - 1));
        }
        if init.len() > 0 {
            assert(init[0] == k[0]);
        }
        lemma_key_raw_fixed(init);
        let c = k.last();
        assert(key_char(k[k.len() - 1]));
        if c != '_' {
            assert(is_ascii_alnum(c));
            assert(lower_char(c) == c);
        } else {
            assert(k.len() > 1);
            assert(k[k.len() - 1] == '_');
            assert(init.last() == k[k.len() - 2]);
        }
        assert(init.push(c) =~= k);
    }
}

/// A reason key is its own key: normalizing a key again changes nothing.
pub proof fn reason_key_idempotent(s: Seq<char>)
    ensures
        reason_key(reason_key(s)) == reason_key(s),
{
    let k = reason_key(s);
    reason_keys_are_well_formed(s);
    lemma_key_raw_fixed(k);
    assert(strip_start(k, '_') == k);
    assert(strip_end(k, '_') == k);
}

/// The compact reason shown for a summary.
pub open spec fn compact(summary: Seq<char>) -> Seq<char> {
    let t = trim(summary);
    if t.len() == 0 {
        seq![]
    } else if starts_with(t, "Rejected at prefilter: "@) {
        "prefilter:"@ + reason_key(t.skip(23))
    } else if eq_ignore_case(t, "Rejected: already seen in history"@) {
        "seen_history"@
    } else if eq_ignore_case(t, "Rejected: duplicate in current scan"@) {
        "duplicate_scan"@
    } else if starts_with(t, "Rejected: hard exclusion ("@) {
        "hard_exclusion:"@ + reason_key(trim(strip_end(t.skip(26), ')')))
    } else if starts_with(t, "Hard exclusion: "@) {
        "hard_exclusion:"@ + reason_key(t.skip(16))
    } else if starts_with(lower(t), "failed extraction/classification:"@) {
        "extract_failed"@
    } else {
        reason_key(t)
    }
}

fn keyed(prefix: &str, rest: &Vec<char>) -> (r: String)
    ensures
        r@ == prefix@ + reason_key(rest@),
{
    let key = normalize_reason_key(string_of(rest).as_str());
    let mut v = chars_of(prefix);
    append_str(&mut v, key.as_str());
    string_of(&v)
}

/// A summary reduced to a short reason key, with the known summaries
/// mapped to fixed keys.
pub fn compact_reason(summary: &str) -> (r: String)
    ensures
        r@ == compact(summary@),
{
    proof {
        reveal_strlit("Rejected at prefilter: ");
        reveal_strlit("Rejected: hard exclusion (");
        reveal_strlit("Hard exclusion: ");
    }
    let t = trim_str(summary);
    if t.len() == 0 {
        return string_of(&Vec::new());
    }
    if starts_with_str(&t, "Rejected at prefilter: ") {
        return keyed("prefilter:", &skip_chars(&t, 23));
    }
    if chars_eq_ignore_case(&t, &chars_of("Rejected: already seen in history")) {
        return string_of(&chars_of("seen_history"));
    }
    if chars_eq_ignore_case(&t, &chars_of("Rejected: duplicate in current scan")) {
        return string_of(&chars_of("duplicate_scan"));
    }
    if starts_with_str(&t, "Rejected: hard exclusion (") {
        let rest = strip_end_chars(&skip_chars(&t, 26), ')');
        return keyed("hard_exclusion:", &trim_chars(&rest));
    }
    if starts_with_str(&t, "Hard exclusion: ") {
        return keyed("hard_exclusion:", &skip_chars(&t, 16));
    }
    if starts_with_str(&to_lower(&t), "failed extraction/classification:") {
        return string_of(&chars_of("extract_failed"));
    }
    let r = keyed("", &t);
    proof {
        reveal_strlit("");
        assert(""@ + reason_key(t@) =~= reason_key(t@));
    }
    r
}

/// The reason shown for a row: nothing for accepted rows, the compact
/// reason otherwise.
pub fn report_reason(row: &ReportRow) -> (r: String)
    ensures
        r@ == (if status_label(row@) == "accepted"@ {
            seq![]
        } else {
            compact(row.summary@)
        }),
{
    let status = report_status(row);
    if chars_eq_str(&chars_of(status), "accepted") {
        string_of(&Vec::new())
    } else {
        compact_reason(row.summary.as_str())
    }
}

// ---------------------------------------------------------------------------
// Cells and card lines
// ---------------------------------------------------------------------------

/// Line feeds replaced by spaces.
pub open spec fn one_line(s: Seq<char>) -> Seq<char> {
    Seq::new(s.len(), |i: int| if s[i] == '\n' { ' ' } else { s[i] })
}

/// `n` dots.
pub open spec fn dots(n: nat) -> Seq<char> {
    Seq::new(n, |i: int| '.')
}

/// A cell of at most `max` characters: the text on one line, cut with
/// `...` when longer, or only dots when `max` is 3 or less.
pub open spec fn cell(value: Seq<char>, max: nat) -> Seq<char> {
    let clean = one_line(value);
    if clean.len() <= max {
        clean
    } else if max <= 3 {
        dots(max)
    } else {
        clean.take(max - 3) + "..."@
    }
}

/// The text of a cell no wider than `max_chars` characters.
pub fn truncate_cell(value: &str, max_chars: usize) -> (r: String)
    ensures
        r@ == cell(value@, max_chars as nat),
        r@.len() <= max_chars,
{
    let v = chars_of(value);
    let mut clean: Vec<char> = Vec::new();
    let mut i: usize = 0;
    while i < v.len()
        invariant
            i <= v.len(),
            clean@ =~= one_line(v@).take(i as int),
        decreases v.len() - i,
    {
        if v[i] == '\n' {
            clean.push(' ');
        } else {
            clean.push(v[i]);
        }
        i = i + 1;
    }
    assert(one_line(v@).take(i as int) =~= one_line(v@));
    if clean.len() <= max_chars {
        return string_of(&clean);
    }
    if max_chars <= 3 {
        let mut d: Vec<char> = Vec::new();
        let mut k: usize = 0;
        while k < max_chars
            invariant
                k <= max_chars,
                d@ =~= dots(k as nat),
            decreases max_chars - k,
        {
            d.push('.');
            k = k + 1;
        }
        return string_of(&d);
    }
    let mut out = subrange_chars(&clean, 0, max_chars - 3);
    proof {
        reveal_strlit("...");
    }
    append_str(&mut out, "...");
    string_of(&out)
}

/// `label:` for a blank value, `label: value` otherwise.
pub open spec fn kv(label: Seq<char>, value: Seq<char>) -> Seq<char> {
    if trim(value).len() == 0 {
        label + ":"@
    } else {
        label + ": "@ + value
    }
}

/// The text of a labelled card line.
pub fn kv_text(label: &str, value: &str) -> (r: String)
    ensures
        r@ == kv(label@, value@),
{
    let mut v = chars_of(label);
    if trim_str(value).len() == 0 {
        append_str(&mut v, ":");
    } else {
        append_str(&mut v, ": ");
        append_str(&mut v, value);
    }
    string_of(&v)
}

/// The text of an optional card line: shown, with the value trimmed,
/// only when the value is present and not blank.
pub fn kv_opt_text(label: &str, value: Option<&str>) -> (r: Option<String>)
    ensures
        match value {
            Some(v) => match trimmed_nonempty(v@) {
                Some(t) => r matches Some(s) && s@ == kv(label@, t),
                None => r is None,
            },
            None => r is None,
        },
{
    match value {
        Some(v) => {
            let t = trim_str(v);
            if t.len() == 0 {
                None
            } else {
                Some(kv_text(label, string_of(&t).as_str()))
            }
        },
        None => None,
    }
}

/// The badge opening a card.
pub fn badge(row: &ReportRow) -> (r: &'static str)
    ensures
        r@ == (if status_label(row@) == "accepted"@ {
            "[ACCEPTED]"@
        } else if status_label(row@) == "failed"@ {
            "[FAILED]"@
        } else {
            "[REJECTED]"@
        }),
{
    let s = report_status(row);
    if chars_eq_str(&chars_of(s), "accepted") {
        "[ACCEPTED]"
    } else if chars_eq_str(&chars_of(s), "failed") {
        "[FAILED]"
    } else {
        "[REJECTED]"
    }
}

/// Requirement keywords: trimmed, blanks dropped, the first of those equal
/// ignoring ASCII case kept.
pub fn extract_requirement_keywords(requirements: &[String]) -> (r: Vec<String>)
    ensures
        strs(r@) == urls_norm(strs(requirements@)),
{
    normalize_urls(requirements)
}

/// The requirements line of a card.
pub open spec fn requirements_line(requirements: Seq<Seq<char>>) -> Seq<char> {
    if urls_norm(requirements).len() == 0 {
        "none extracted"@
    } else {
        join(urls_norm(requirements), ", "@)
    }
}

/// The requirement keywords joined by `, `, or `none extracted`.
pub fn requirements_text(requirements: &[String]) -> (r: String)
    ensures
        r@ == requirements_line(strs(requirements@)),
{
    let kws = extract_requirement_keywords(requirements);
    if kws.len() == 0 {
        return string_of(&chars_of("none extracted"));
    }
    let mut parts: Vec<Vec<char>> = Vec::new();
    let mut i: usize = 0;
    while i < kws.len()
        invariant
            i <= kws.len(),
            views(parts@) =~= strs(kws@).take(i as int),
        decreases kws.len() - i,
    {
        let ghost before = parts@;
        parts.push(chars_of(kws[i].as_str()));
        assert(views(parts@) =~= views(before).push(strs(kws@)[i as int]));
        i = i + 1;
    }
    assert(strs(kws@).take(i as int) =~= strs(kws@));
    string_of(&join_chars(&parts, &chars_of(", ")))
}

/// Indices of the rows shown as cards: all rows, or only accepted ones.
pub open spec fn card_indices(rows: Seq<ReportRowView>, show_not_opportunities: bool) -> Seq<int>
    decreases rows.len(),
{
    if rows.len() == 0 {
        seq![]
    } else {
        let prev = card_indices(rows.drop_last(), show_not_opportunities);
        if show_not_opportunities || accepted_status(rows.last().status) {
            prev.push(rows.len() - 1)
        } else {
            prev
        }
    }
}

pub open spec fn report_views(v: Seq<ReportRow>) -> Seq<ReportRowView> {
    Seq::new(v.len(), |i: int| v[i]@)
}

/// Indices of the rows shown as cards.
pub fn card_rows(rows: &[ReportRow], show_not_opportunities: bool) -> (r: Vec<usize>)
    ensures
        r@.len() == card_indices(report_views(rows@), show_not_opportunities).len(),
        forall|i: int|
            0 <= i < r@.len() ==> r@[i] as int == card_indices(
                report_views(rows@),
                show_not_opportunities,
            )[i],
{
    let ghost all = report_views(rows@);
    let mut out: Vec<usize> = Vec::new();
    let mut k: usize = 0;
    while k < rows.len()
        invariant
            k <= rows@.len(),
            all == report_views(rows@),
            out@.len() == card_indices(all.take(k as int), show_not_opportunities).len(),
            forall|i: int|
                0 <= i < out@.len() ==> out@[i] as int == card_indices(
                    all.take(k as int),
                    show_not_opportunities,
                )[i],
        decreases rows@.len() - k,
    {
        proof {
            assert(all.take(k + 1).drop_last() =~= all.take(k as int));
            assert(all.take(k + 1).last() == rows@[k as int]@);
        }
        if show_not_opportunities || is_accepted_status(rows[k].status.as_str()) {
            out.push(k);
        }
        k = k + 1;
    }
    assert(all.take(k as int) =~= all);
    out
}

// ---------------------------------------------------------------------------
// Layout
// ---------------------------------------------------------------------------

/// Card width when the terminal does not say.
pub const DEFAULT_CARD_WIDTH: usize = 140;

/// `x` clamped to `[lo, hi]`.
pub open spec fn clamped(x: int, lo: int, hi: int) -> int {
    if x < lo {
        lo
    } else if x > hi {
        hi
    } else {
        x
    }
}

/// What `str::parse::<usize>` gives: an optional `+`, then the digits of
/// a value that fits.
pub open spec fn parse_usize(s: Seq<char>) -> Option<usize> {
    let body = if s.len() > 0 && s[0] == '+' {
        s.skip(1)
    } else {
        s
    };
    match parse_u64(body) {
        Some(v) => if v <= usize::MAX {
            Some(v as usize)
        } else {
            None
        },
        None => None,
    }
}

/// Card width: the terminal's column count where it parses, 140
/// otherwise, clamped to 110..=180.
pub open spec fn width_of(columns: Option<Seq<char>>) -> int {
    let w = match columns {
        Some(c) => match parse_usize(c) {
            Some(v) => v as int,
            None => DEFAULT_CARD_WIDTH as int,
        },
        None => DEFAULT_CARD_WIDTH as int,
    };
    clamped(w, 110, 180)
}

/// The card width for the `COLUMNS` value of the environment.
pub fn card_width(columns: Option<String>) -> (r: usize)
    ensures
        r as int == width_of(crate::text::opt_view(columns)),
        110 <= r <= 180,
{
    let w: usize = match &columns {
        Some(c) => {
            let v = chars_of(c.as_str());
            let body = if v.len() > 0 && v[0] == '+' {
                skip_chars(&v, 1)
            } else {
                v
            };
            match parse_u64_chars(&body) {
                Some(n) => if n <= usize::MAX as u64 {
                    n as usize
                } else {
                    DEFAULT_CARD_WIDTH
                },
                None => DEFAULT_CARD_WIDTH,
            }
        },
        None => DEFAULT_CARD_WIDTH,
    };
    if w < 110 {
        110
    } else if w > 180 {
        180
    } else {
        w
    }
}

/// Column widths of the summary table.
pub struct TableWidths {
    pub title: usize,
    pub url: usize,
    pub page: usize,
    pub status: usize,
    pub reason: usize,
}

/// `a - b`, or 0 when `b` is larger.
pub open spec fn sat_sub(a: int, b: int) -> int {
    if a >= b {
        a - b
    } else {
        0
    }
}

/// The summary table's columns for a card width: the page and status
/// columns fit their headers, the reason column takes a quarter of the
/// width within 24..=42, and the title and URL columns share the rest one
/// third to two thirds.
pub fn table_widths(width: usize) -> (r: TableWidths)
    ensures
        r.page == 4,
        r.status == 8,
        r.reason as int == clamped(width as int / 4, 24, 42),
        r.title as int == sat_sub(sat_sub(width as int, 2), 4 + 8 + r.reason + 12) / 3,
        r.url as int == sat_sub(sat_sub(width as int, 2), 4 + 8 + r.reason + 12) - r.title,
{
    let page: usize = 4;
    let status: usize = 8;
    let quarter = width / 4;
    let reason: usize = if quarter < 24 {
        24
    } else if quarter > 42 {
        42
    } else {
        quarter
    };
    let total = width.saturating_sub(2);
    let available = total.saturating_sub(page + status + reason + 12);
    let title = available / 3;
    let url = available - title;
    TableWidths { title, url, page, status, reason }
}

// ---------------------------------------------------------------------------
// Wrapping
// ---------------------------------------------------------------------------

/// Consecutive pieces of at most `max` characters.
pub open spec fn chunks(w: Seq<char>, max: nat) -> Seq<Seq<char>>
    decreases w.len(),
{
    if max == 0 || w.len() == 0 {
        seq![]
    } else if w.len() <= max {
        seq![w]
    } else {
        seq![w.take(max as int)] + chunks(w.skip(max as int), max)
    }
}

/// A word cut into pieces of at most `max` characters; one empty piece
/// when `max` is 0.
pub open spec fn split_word(w: Seq<char>, max: nat) -> Seq<Seq<char>> {
    if max == 0 {
        seq![seq![]]
    } else {
        chunks(w, max)
    }
}

/// A word cut into pieces of at most `max_width` characters.
pub fn split_long_word(word: &str, max_width: usize) -> (r: Vec<String>)
    ensures
        strs(r@) == split_word(word@, max_width as nat),
{
    if max_width == 0 {
        let mut v: Vec<String> = Vec::new();
        v.push(string_of(&Vec::new()));
        assert(strs(v@) =~= seq![seq![]]);
        return v;
    }
    let w = chars_of(word);
    let mut out: Vec<Vec<char>> = Vec::new();
    let mut i: usize = 0;
    assert(w@.skip(0) =~= w@);
    while i < w.len()
        invariant
            0 < max_width,
            i <= w.len(),
            chunks(w@, max_width as nat) == views(out@) + chunks(w@.skip(i as int), max_width as nat),
        decreases w.len() - i,
    {
        let ghost rest = w@.skip(i as int);
        let ghost before = views(out@);
        if w.len() - i <= max_width {
            let piece = skip_chars(&w, i);
            out.push(piece);
            proof {
                assert(chunks(rest, max_width as nat) == seq![rest]);
                assert(views(out@) =~= before.push(rest));
                assert(w@.skip(w.len() as int).len() == 0);
                assert(before + seq![rest] =~= before.push(rest));
                assert(views(out@) + chunks(w@.skip(w.len() as int), max_width as nat) =~= views(
                    out@,
                ));
            }
            i = w.len();
        } else {
            let piece = subrange_chars(&w, i, i + max_width);
            out.push(piece);
            proof {
                assert(rest.take(max_width as int) =~= piece@);
                assert(rest.skip(max_width as int) =~= w@.skip(i + max_width));
                assert(views(out@) =~= before.push(piece@));
                assert(before + (seq![piece@] + chunks(w@.skip(i + max_width), max_width as nat))
                    =~= before.push(piece@) + chunks(w@.skip(i + max_width), max_width as nat));
            }
            i = i + max_width;
        }
    }
    proof {
        assert(w@.skip(i as int).len() == 0);
        assert(views(out@) + chunks(w@.skip(i as int), max_width as nat) =~= views(out@));
    }
    strings_of(&out)
}

/// The pieces put back together.
pub open spec fn concat_all(parts: Seq<Seq<char>>) -> Seq<char>
    decreases parts.len(),
{
    if parts.len() == 0 {
        seq![]
    } else {
        parts[0] + concat_all(parts.drop_first())
    }
}

/// Cutting a word loses nothing: the pieces, put back together, are the
/// word, and each piece holds between 1 and `max` characters.
pub proof fn split_word_rebuilds(w: Seq<char>, max: nat)
    requires
        max > 0,
    ensures
        concat_all(chunks(w, max)) == w,
        forall|i: int|
            0 <= i < chunks(w, max).len() ==> 0 < (#[trigger] chunks(w, max)[i]).len() <= max,
    decreases w.len(),
{
    if w.len() == 0 {
        assert(w =~= Seq::<char>::empty());
    } else if w.len() <= max {
        let c = chunks(w, max);
        assert(c =~= seq![w]);
        assert(c.drop_first() =~= Seq::<Seq<char>>::empty());
        assert(concat_all(c.drop_first()) =~= Seq::<char>::empty());
        assert(concat_all(c) == c[0] + concat_all(c.drop_first()));
        assert(w + Seq::<char>::empty() =~= w);
    } else {
        split_word_rebuilds(w.skip(max as int), max);
        let c = chunks(w, max);
        assert(c[0] == w.take(max as int));
        assert(c.drop_first() =~= chunks(w.skip(max as int), max));
        assert(w.take(max as int) + w.skip(max as int) =~= w);
        assert(concat_all(c) == c[0] + concat_all(c.drop_first()));
        assert forall|i: int| 0 <= i < c.len() implies 0 < (#[trigger] c[i]).len() <= max by {
            if i > 0 {
                assert(c[i] == chunks(w.skip(max as int), max)[i - 1]);
            }
        }
    }
}

/// Length in bytes of the UTF-8 encoding.
pub open spec fn blen(s: Seq<char>) -> nat {
    encode_utf8(s).len()
}

/// One word added to the lines so far and the line being filled: a word
/// longer than the width closes the current line and is cut into pieces;
/// a word that fits after a space joins the current line; otherwise it
/// starts a new one.
pub open spec fn wrap_step(st: (Seq<Seq<char>>, Seq<char>), w: Seq<char>, max: nat) -> (
    Seq<Seq<char>>,
    Seq<char>,
) {
    let out = st.0;
    let cur = st.1;
    if blen(w) > max {
        (
            (if cur.len() > 0 {
                out.push(cur)
            } else {
                out
            }) + split_word(w, max),
            seq![],
        )
    } else if cur.len() == 0 {
        (out, w)
    } else if blen(cur + seq![' '] + w) <= max {
        (out, cur + seq![' '] + w)
    } else {
        (out.push(cur), w)
    }
}

/// The words added one by one.
pub open spec fn wrap_fold(ws: Seq<Seq<char>>, max: nat) -> (Seq<Seq<char>>, Seq<char>)
    decreases ws.len(),
{
    if ws.len() == 0 {
        (seq![], seq![])
    } else {
        wrap_step(wrap_fold(ws.drop_last(), max), ws.last(), max)
    }
}

/// The lines of a text wrapped at `max` bytes: its words filled greedily;
/// one empty line when there are none.
pub open spec fn wrapped(text: Seq<char>, max: nat) -> Seq<Seq<char>> {
    let st = wrap_fold(words(text), max);
    let lines = if st.1.len() > 0 {
        st.0.push(st.1)
    } else {
        st.0
    };
    if lines.len() == 0 {
        seq![seq![]]
    } else {
        lines
    }
}

/// Every line fits and is not blank in a fold over words that each fit.
proof fn wrap_fold_fits(ws: Seq<Seq<char>>, max: nat)
    requires
        forall|i: int| 0 <= i < ws.len() ==> blen(#[trigger] ws[i]) <= max,
    ensures
        forall|i: int|
            0 <= i < wrap_fold(ws, max).0.len() ==> blen(#[trigger] wrap_fold(ws, max).0[i])
                <= max,
        blen(wrap_fold(ws, max).1) <= max,
    decreases ws.len(),
{
    if ws.len() > 0 {
        let prev = ws.drop_last();
        assert forall|i: int| 0 <= i < prev.len() implies blen(#[trigger] prev[i]) <= max by {
            assert(prev[i] == ws[i]);
        }
        wrap_fold_fits(prev, max);
        assert(blen(ws.last()) <= max);
        let st = wrap_fold(prev, max);
        let nx = wrap_fold(ws, max);
        assert forall|i: int| 0 <= i < nx.0.len() implies blen(#[trigger] nx.0[i]) <= max by {
            if i < st.0.len() {
                assert(nx.0[i] == st.0[i]);
            }
        }
        if st.1.len() == 0 {
            assert(st.1 =~= seq![]);
        }
    }
}

/// Wrapping keeps within the width: when no word is wider than `max`
/// bytes, no line is either.
pub proof fn wrapped_lines_fit(text: Seq<char>, max: nat)
    requires
        forall|i: int| 0 <= i < words(text).len() ==> blen(#[trigger] words(text)[i]) <= max,
    ensures
        forall|i: int|
            0 <= i < wrapped(text, max).len() ==> blen(#[trigger] wrapped(text, max)[i]) <= max,
{
    wrap_fold_fits(words(text), max);
    let st = wrap_fold(words(text), max);
    let lines = if st.1.len() > 0 {
        st.0.push(st.1)
    } else {
        st.0
    };
    assert forall|i: int| 0 <= i < wrapped(text, max).len() implies blen(
        #[trigger] wrapped(text, max)[i],
    ) <= max by {
        if lines.len() == 0 {
            assert(wrapped(text, max)[i] == Seq::<char>::empty());
            assert(encode_utf8(Seq::<char>::empty()).len() == 0) by {
                crate::text::lemma_encode_utf8_empty_iff(Seq::<char>::empty());
            }
        } else if i < st.0.len() {
            assert(wrapped(text, max)[i] == st.0[i]);
        }
    }
}

/// Every line of a fold holds at most `max` characters, and the line being
/// filled at most `max` bytes, whatever the words.
proof fn wrap_fold_within(ws: Seq<Seq<char>>, max: nat)
    ensures
        forall|i: int|
            0 <= i < wrap_fold(ws, max).0.len() ==> (#[trigger] wrap_fold(ws, max).0[i]).len()
                <= max,
        blen(wrap_fold(ws, max).1) <= max,
    decreases ws.len(),
{
    if ws.len() == 0 {
        crate::text::lemma_encode_utf8_empty_iff(Seq::<char>::empty());
    } else {
        let prev = ws.drop_last();
        wrap_fold_within(prev, max);
        let st = wrap_fold(prev, max);
        let w = ws.last();
        let nx = wrap_fold(ws, max);
        crate::text::lemma_chars_within_bytes(st.1);
        crate::text::lemma_chars_within_bytes(w);
        crate::text::lemma_chars_within_bytes(st.1 + seq![' '] + w);
        if blen(w) > max {
            let head = if st.1.len() > 0 {
                st.0.push(st.1)
            } else {
                st.0
            };
            let pieces = split_word(w, max);
            if max > 0 {
                split_word_rebuilds(w, max);
            } else {
                assert(pieces[0] == Seq::<char>::empty());
            }
            assert(nx.0 == head + pieces);
            assert forall|i: int| 0 <= i < nx.0.len() implies (#[trigger] nx.0[i]).len() <= max by {
                if i < head.len() {
                    assert(nx.0[i] == head[i]);
                    if i < st.0.len() {
                        assert(head[i] == st.0[i]);
                    }
                } else {
                    assert(nx.0[i] == pieces[i - head.len()]);
                }
            }
            crate::text::lemma_encode_utf8_empty_iff(Seq::<char>::empty());
        } else {
            assert forall|i: int| 0 <= i < nx.0.len() implies (#[trigger] nx.0[i]).len() <= max by {
                if i < st.0.len() {
                    assert(nx.0[i] == st.0[i]);
                }
            }
        }
    }
}

/// Wrapping never makes a line longer than the width in characters: a
/// word wider than the width is cut into pieces of at most `max`
/// characters, and every other line holds at most `max` bytes.
pub proof fn wrapped_lines_within_width(text: Seq<char>, max: nat)
    ensures
        forall|i: int|
            0 <= i < wrapped(text, max).len() ==> (#[trigger] wrapped(text, max)[i]).len() <= max,
{
    wrap_fold_within(words(text), max);
    let st = wrap_fold(words(text), max);
    crate::text::lemma_chars_within_bytes(st.1);
    let lines = if st.1.len() > 0 {
        st.0.push(st.1)
    } else {
        st.0
    };
    assert forall|i: int| 0 <= i < wrapped(text, max).len() implies (
    #[trigger] wrapped(text, max)[i]).len() <= max by {
        if lines.len() == 0 {
            assert(wrapped(text, max)[i] == Seq::<char>::empty());
        } else if i < st.0.len() {
            assert(wrapped(text, max)[i] == st.0[i]);
        }
    }
}

/// The text wrapped into lines of at most `max_width` bytes where words
/// allow.
pub fn wrap_text(text: &str, max_width: usize) -> (r: Vec<String>)
    ensures
        strs(r@) == wrapped(text@, max_width as nat),
{
    let ws = split_whitespace(&chars_of(text));
    let ghost all = views(ws@);
    let mut out: Vec<Vec<char>> = Vec::new();
    let mut cur: Vec<char> = Vec::new();
    let mut i: usize = 0;
    while i < ws.len()
        invariant
            i <= ws.len(),
            all == views(ws@),
            (views(out@), cur@) == wrap_fold(all.take(i as int), max_width as nat),
        decreases ws.len() - i,
    {
        proof {
            assert(all.take(i + 1).drop_last() =~= all.take(i as int));
            assert(all.take(i + 1).last() == ws@[i as int]@);
        }
        let w = copy_chars(&ws[i]);
        if utf8_len_exceeds(&w, max_width) {
            if cur.len() > 0 {
                let ghost o = views(out@);
                out.push(cur);
                assert(views(out@) =~= o.push(cur@));
                cur = Vec::new();
            }
            let pieces = chars_of_strings(split_long_word(string_of(&w).as_str(), max_width).as_slice());
            let ghost base = views(out@);
            let mut k: usize = 0;
            while k < pieces.len()
                invariant
                    k <= pieces.len(),
                    views(out@) =~= base + views(pieces@).take(k as int),
                decreases pieces.len() - k,
            {
                let ghost o = views(out@);
                out.push(copy_chars(&pieces[k]));
                assert(views(out@) =~= o.push(views(pieces@)[k as int]));
                assert(views(pieces@).take(k + 1) =~= views(pieces@).take(k as int).push(
                    views(pieces@)[k as int],
                ));
                k = k + 1;
            }
            assert(views(pieces@).take(k as int) =~= views(pieces@));
            cur = Vec::new();
            assert(cur@ =~= Seq::<char>::empty());
        } else if cur.len() == 0 {
            cur = w;
        } else {
            let mut cand = copy_chars(&cur);
            cand.push(' ');
            append_chars(&mut cand, &w);
            assert(cand@ =~= cur@ + seq![' '] + w@);
            if !utf8_len_exceeds(&cand, max_width) {
                cur = cand;
            } else {
                let ghost o = views(out@);
                out.push(cur);
                assert(views(out@) =~= o.push(cur@));
                cur = w;
            }
        }
        i = i + 1;
    }
    assert(all.take(i as int) =~= all);
    if cur.len() > 0 {
        let ghost o = views(out@);
        out.push(cur);
        assert(views(out@) =~= o.push(cur@));
    }
    if out.len() == 0 {
        out.push(Vec::new());
        assert(views(out@) =~= seq![seq![]]);
    }
    strings_of(&out)
}

} // verus!
