//! Character and string primitives with specifications over `Seq<char>`.
//!
//! Strings are handled as `Vec<char>` inside the library; `chars_of` and
//! `string_of` move between `&str`/`String` and that representation.
use vstd::prelude::*;
use vstd::utf8::encode_utf8;

verus! {

// ---------------------------------------------------------------------------
// Characters
// ---------------------------------------------------------------------------

/// ASCII letter or digit.
pub open spec fn is_ascii_alnum(c: char) -> bool {
    ('0' <= c && c <= '9') || ('a' <= c && c <= 'z') || ('A' <= c && c <= 'Z')
}

/// ASCII letter.
pub open spec fn is_ascii_alpha(c: char) -> bool {
    ('a' <= c && c <= 'z') || ('A' <= c && c <= 'Z')
}

/// ASCII decimal digit.
pub open spec fn is_ascii_digit(c: char) -> bool {
    '0' <= c && c <= '9'
}

/// Unicode `White_Space` property (the characters `char::is_whitespace` accepts).
pub open spec fn is_ws(c: char) -> bool {
    let u = c as u32;
    (0x9 <= u && u <= 0xd) || u == 0x20 || u == 0x85 || u == 0xa0 || u == 0x1680 || (0x2000 <= u
        && u <= 0x200a) || u == 0x2028 || u == 0x2029 || u == 0x202f || u == 0x205f || u == 0x3000
}

/// ASCII upper-case letter mapped to lower case; every other character unchanged.
pub open spec fn lower_char(c: char) -> char {
    if 'A' <= c && c <= 'Z' {
        ((c as u32) + 32) as char
    } else {
        c
    }
}

/// ASCII lower-case letter mapped to upper case; every other character unchanged.
pub open spec fn upper_char(c: char) -> char {
    if 'a' <= c && c <= 'z' {
        ((c as u32) - 32) as char
    } else {
        c
    }
}

pub fn char_is_ascii_alnum(c: char) -> (b: bool)
    ensures
        b == is_ascii_alnum(c),
{
    ('0' <= c && c <= '9') || ('a' <= c && c <= 'z') || ('A' <= c && c <= 'Z')
}

pub fn char_is_ascii_alpha(c: char) -> (b: bool)
    ensures
        b == is_ascii_alpha(c),
{
    ('a' <= c && c <= 'z') || ('A' <= c && c <= 'Z')
}

pub fn char_is_ascii_digit(c: char) -> (b: bool)
    ensures
        b == is_ascii_digit(c),
{
    '0' <= c && c <= '9'
}

pub fn char_is_ws(c: char) -> (b: bool)
    ensures
        b == is_ws(c),
{
    let u = c as u32;
    (0x9 <= u && u <= 0xd) || u == 0x20 || u == 0x85 || u == 0xa0 || u == 0x1680 || (0x2000 <= u
        && u <= 0x200a) || u == 0x2028 || u == 0x2029 || u == 0x202f || u == 0x205f || u == 0x3000
}

pub fn char_to_ascii_lower(c: char) -> (r: char)
    ensures
        r == lower_char(c),
{
    if 'A' <= c && c <= 'Z' {
        let b: u8 = c as u8;
        (b + 32) as char
    } else {
        c
    }
}

pub fn char_to_ascii_upper(c: char) -> (r: char)
    ensures
        r == upper_char(c),
{
    if 'a' <= c && c <= 'z' {
        let b: u8 = c as u8;
        (b - 32) as char
    } else {
        c
    }
}

// ---------------------------------------------------------------------------
// Conversions
// ---------------------------------------------------------------------------

/// Collects the characters of a string slice.
pub fn chars_of(s: &str) -> (v: Vec<char>)
    ensures
        v@ == s@,
{
    let mut v: Vec<char> = Vec::new();
    for c in it: s.chars()
        invariant
            v@ == it.seq().take(it.index() as int),
    {
        v.push(c);
    }
    v
}

/// `String::push`: appends one character.
#[verifier::external_body]
fn push_char(s: &mut String, c: char)
    ensures
        final(s)@ == old(s)@.push(c),
{
    s.push(c);
}

/// Builds a `String` holding exactly the given characters.
pub fn string_of(v: &Vec<char>) -> (s: String)
    ensures
        s@ == v@,
{
    let mut s = String::new();
    let mut i: usize = 0;
    while i < v.len()
        invariant
            i <= v.len(),
            s@ == v@.take(i as int),
        decreases v.len() - i,
    {
        push_char(&mut s, v[i]);
        i = i + 1;
        assert(v@.take(i as int) =~= v@.take((i - 1) as int).push(v@[i - 1]));
    }
    assert(v@.take(i as int) =~= v@);
    s
}

/// Copies a character vector.
pub fn copy_chars(v: &Vec<char>) -> (r: Vec<char>)
    ensures
        r@ == v@,
{
    let mut r: Vec<char> = Vec::new();
    let mut i: usize = 0;
    while i < v.len()
        invariant
            i <= v.len(),
            r@ == v@.take(i as int),
        decreases v.len() - i,
    {
        r.push(v[i]);
        i = i + 1;
        assert(v@.take(i as int) =~= v@.take((i - 1) as int).push(v@[i - 1]));
    }
    assert(v@.take(i as int) =~= v@);
    r
}

/// Appends all of `src` to `dst`.
pub fn append_chars(dst: &mut Vec<char>, src: &Vec<char>)
    ensures
        final(dst)@ == old(dst)@ + src@,
{
    let ghost start = dst@;
    let mut i: usize = 0;
    while i < src.len()
        invariant
            i <= src.len(),
            dst@ == start + src@.take(i as int),
        decreases src.len() - i,
    {
        dst.push(src[i]);
        i = i + 1;
        assert(src@.take(i as int) =~= src@.take((i - 1) as int).push(src@[i - 1]));
        assert(start + src@.take(i as int) =~= (start + src@.take((i - 1) as int)).push(
            src@[i - 1],
        ));
    }
    assert(src@.take(i as int) =~= src@);
}

/// Appends the characters of a string slice.
pub fn append_str(dst: &mut Vec<char>, s: &str)
    ensures
        final(dst)@ == old(dst)@ + s@,
{
    let v = chars_of(s);
    append_chars(dst, &v);
}

/// Sequence equality on character vectors.
pub fn chars_eq(a: &Vec<char>, b: &Vec<char>) -> (r: bool)
    ensures
        r == (a@ == b@),
{
    if a.len() != b.len() {
        return false;
    }
    let mut i: usize = 0;
    while i < a.len()
        invariant
            i <= a.len(),
            a.len() == b.len(),
            forall|k: int| 0 <= k < i ==> a@[k] == b@[k],
        decreases a.len() - i,
    {
        if a[i] != b[i] {
            return false;
        }
        i = i + 1;
    }
    assert(a@ =~= b@);
    true
}

/// Equality of a character vector with a string slice.
pub fn chars_eq_str(a: &Vec<char>, s: &str) -> (r: bool)
    ensures
        r == (a@ == s@),
{
    let b = chars_of(s);
    chars_eq(a, &b)
}

/// Equality of two string slices.
pub fn str_eq(a: &str, b: &str) -> (r: bool)
    ensures
        r == (a@ == b@),
{
    let x = chars_of(a);
    let y = chars_of(b);
    chars_eq(&x, &y)
}

// ---------------------------------------------------------------------------
// Case mapping
// ---------------------------------------------------------------------------

/// ASCII lower-casing of every character.
pub open spec fn lower(s: Seq<char>) -> Seq<char> {
    Seq::new(s.len(), |i: int| lower_char(s[i]))
}

/// ASCII case-insensitive equality.
pub open spec fn eq_ignore_case(a: Seq<char>, b: Seq<char>) -> bool {
    lower(a) == lower(b)
}

pub fn to_lower(s: &Vec<char>) -> (r: Vec<char>)
    ensures
        r@ == lower(s@),
{
    let mut r: Vec<char> = Vec::new();
    let mut i: usize = 0;
    while i < s.len()
        invariant
            i <= s.len(),
            r@ =~= lower(s@).take(i as int),
        decreases s.len() - i,
    {
        let c = char_to_ascii_lower(s[i]);
        r.push(c);
        i = i + 1;
    }
    r
}

pub fn chars_eq_ignore_case(a: &Vec<char>, b: &Vec<char>) -> (r: bool)
    ensures
        r == eq_ignore_case(a@, b@),
{
    let la = to_lower(a);
    let lb = to_lower(b);
    chars_eq(&la, &lb)
}

// ---------------------------------------------------------------------------
// Trimming
// ---------------------------------------------------------------------------

/// Drops leading white space.
pub open spec fn trim_start(s: Seq<char>) -> Seq<char>
    decreases s.len(),
{
    if s.len() > 0 && is_ws(s[0]) {
        trim_start(s.drop_first())
    } else {
        s
    }
}

/// Drops trailing white space.
pub open spec fn trim_end(s: Seq<char>) -> Seq<char>
    decreases s.len(),
{
    if s.len() > 0 && is_ws(s.last()) {
        trim_end(s.drop_last())
    } else {
        s
    }
}

/// Drops leading and trailing white space (`str::trim`).
pub open spec fn trim(s: Seq<char>) -> Seq<char> {
    trim_end(trim_start(s))
}

proof fn lemma_trim_start_skip(s: Seq<char>, i: int)
    requires
        0 <= i <= s.len(),
        forall|k: int| 0 <= k < i ==> is_ws(s[k]),
    ensures
        trim_start(s) == trim_start(s.skip(i)),
    decreases i,
{
    if i > 0 {
        assert(s.drop_first().skip(i - 1) =~= s.skip(i));
        lemma_trim_start_skip(s.drop_first(), i - 1);
    } else {
        assert(s.skip(0) =~= s);
    }
}

proof fn lemma_trim_end_take(s: Seq<char>, j: int)
    requires
        0 <= j <= s.len(),
        forall|k: int| j <= k < s.len() ==> is_ws(s[k]),
    ensures
        trim_end(s) == trim_end(s.take(j)),
    decreases s.len() - j,
{
    if j < s.len() {
        assert(s.drop_last().take(j) =~= s.take(j));
        lemma_trim_end_take(s.drop_last(), j);
    } else {
        assert(s.take(j) =~= s);
    }
}

proof fn lemma_trim_start_suffix(s: Seq<char>)
    ensures
        exists|a: int| 0 <= a <= s.len() && trim_start(s) == s.skip(a),
    decreases s.len(),
{
    if s.len() > 0 && is_ws(s[0]) {
        lemma_trim_start_suffix(s.drop_first());
        let a = choose|a: int|
            0 <= a <= s.drop_first().len() && trim_start(s.drop_first()) == s.drop_first().skip(a);
        assert(s.drop_first().skip(a) =~= s.skip(a + 1));
    } else {
        assert(s.skip(0) =~= s);
    }
}

proof fn lemma_trim_end_prefix(s: Seq<char>)
    ensures
        exists|b: int| 0 <= b <= s.len() && trim_end(s) == s.take(b),
        trim_end(s).len() > 0 ==> !is_ws(trim_end(s).last()),
    decreases s.len(),
{
    if s.len() > 0 && is_ws(s.last()) {
        lemma_trim_end_prefix(s.drop_last());
        let b = choose|b: int|
            0 <= b <= s.drop_last().len() && trim_end(s.drop_last()) == s.drop_last().take(b);
        assert(s.drop_last().take(b) =~= s.take(b));
    } else {
        assert(s.take(s.len() as int) =~= s);
    }
}

/// Trimming keeps only characters of the text, and never ends with white
/// space.
pub proof fn lemma_trim_from_text(s: Seq<char>)
    ensures
        forall|i: int| 0 <= i < trim(s).len() ==> s.contains(#[trigger] trim(s)[i]),
        trim(s).len() > 0 ==> !is_ws(trim(s).last()),
{
    lemma_trim_start_suffix(s);
    let a = choose|a: int| 0 <= a <= s.len() && trim_start(s) == s.skip(a);
    lemma_trim_end_prefix(trim_start(s));
    let b = choose|b: int|
        0 <= b <= trim_start(s).len() && trim_end(trim_start(s)) == trim_start(s).take(b);
    assert forall|i: int| 0 <= i < trim(s).len() implies s.contains(#[trigger] trim(s)[i]) by {
        assert(trim(s)[i] == s[a + i]);
    }
}

proof fn lemma_trim_start_first(s: Seq<char>)
    ensures
        trim_start(s).len() > 0 ==> !is_ws(trim_start(s)[0]),
    decreases s.len(),
{
    if s.len() > 0 && is_ws(s[0]) {
        lemma_trim_start_first(s.drop_first());
    }
}

/// A trimmed text neither starts nor ends with white space.
pub proof fn lemma_trim_edges(s: Seq<char>)
    ensures
        trim(s).len() > 0 ==> !is_ws(trim(s)[0]) && !is_ws(trim(s).last()),
{
    lemma_trim_start_first(s);
    lemma_trim_from_text(s);
    lemma_trim_end_prefix(trim_start(s));
    let b = choose|b: int|
        0 <= b <= trim_start(s).len() && trim_end(trim_start(s)) == trim_start(s).take(b);
    if trim(s).len() > 0 {
        assert(trim(s)[0] == trim_start(s)[0]);
    }
}

/// A text without white space at either end is its own trim.
pub proof fn lemma_trim_noop(t: Seq<char>)
    requires
        t.len() > 0 ==> !is_ws(t[0]) && !is_ws(t.last()),
    ensures
        trim(t) == t,
{
    assert(trim_start(t) == t);
    assert(trim_end(t) == t);
}

/// Trimming twice trims no more than once.
pub proof fn lemma_trim_idempotent(s: Seq<char>)
    ensures
        trim(trim(s)) == trim(s),
{
    lemma_trim_edges(s);
    lemma_trim_noop(trim(s));
}

/// Lower-casing a character twice changes it no more than once, and
/// never turns white space into other characters or back.
pub proof fn lemma_lower_char(c: char)
    ensures
        lower_char(lower_char(c)) == lower_char(c),
        is_ws(lower_char(c)) == is_ws(c),
{
    if 'A' <= c && c <= 'Z' {
        let u = (c as u32) + 32;
        assert(97 <= u <= 122);
        assert((u as char) as u32 == u);
    }
}

/// Lower-casing twice lower-cases no more than once.
pub proof fn lemma_lower_idempotent(s: Seq<char>)
    ensures
        lower(lower(s)) == lower(s),
{
    assert forall|i: int| 0 <= i < s.len() implies lower(lower(s))[i] == lower(s)[i] by {
        lemma_lower_char(s[i]);
    }
    assert(lower(lower(s)) =~= lower(s));
}

/// A trimmed, lower-cased text is left as it is by trimming and
/// lower-casing again.
pub proof fn lemma_trim_lower_fixed(s: Seq<char>)
    ensures
        lower(trim(lower(trim(s)))) == lower(trim(s)),
{
    let t = trim(s);
    let x = lower(t);
    lemma_trim_edges(s);
    if t.len() > 0 {
        lemma_lower_char(t[0]);
        lemma_lower_char(t.last());
        assert(x[0] == lower_char(t[0]));
        assert(x.last() == lower_char(t.last()));
    }
    lemma_trim_noop(x);
    lemma_lower_idempotent(t);
}

/// Digits of a decimal representation read back as its value.
pub proof fn lemma_decimal_digits(n: nat)
    ensures
        decimal(n).len() > 0,
        forall|i: int| 0 <= i < decimal(n).len() ==> is_ascii_digit(#[trigger] decimal(n)[i]),
        digits_value(decimal(n)) == n,
    decreases n,
{
    if n < 10 {
        let s = decimal(n);
        assert(s == seq![digit_char(n)]);
        assert(s.drop_last() =~= Seq::<char>::empty());
        assert(digit_value(digit_char(n)) == n);
        assert(digits_value(s) == digits_value(s.drop_last()) * 10 + digit_value(s.last()));
    } else {
        lemma_decimal_digits(n / 10);
        let p = decimal(n / 10);
        let s = p.push(digit_char(n % 10));
        assert(s.drop_last() =~= p);
        assert(digit_value(digit_char(n % 10)) == n % 10);
        assert(n == (n / 10) * 10 + n % 10) by (nonlinear_arith);
        assert(decimal(n) == s);
        assert(s.last() == digit_char(n % 10));
        assert(digits_value(s) == digits_value(s.drop_last()) * 10 + digit_value(s.last()));
        assert forall|i: int| 0 <= i < s.len() implies is_ascii_digit(#[trigger] s[i]) by {
            if i < p.len() {
                assert(s[i] == p[i]);
            }
        }
    }
}

/// Decimal text reads back as its value.
pub proof fn lemma_parse_decimal(n: u64)
    ensures
        parse_u64(decimal(n as nat)) == Some(n),
{
    lemma_decimal_digits(n as nat);
}

/// Trimmed copy of a character vector.
pub fn trim_chars(s: &Vec<char>) -> (r: Vec<char>)
    ensures
        r@ == trim(s@),
{
    let mut i: usize = 0;
    while i < s.len() && char_is_ws(s[i])
        invariant
            i <= s.len(),
            forall|k: int| 0 <= k < i ==> is_ws(s@[k]),
        decreases s.len() - i,
    {
        i = i + 1;
    }
    proof {
        lemma_trim_start_skip(s@, i as int);
    }
    let mut j: usize = s.len();
    while j > i && char_is_ws(s[j - 1])
        invariant
            i <= j <= s.len(),
            forall|k: int| j <= k < s.len() ==> is_ws(s@[k]),
        decreases j,
    {
        j = j - 1;
    }
    let ghost mid = s@.skip(i as int);
    proof {
        assert(!(i < s.len()) || !is_ws(s@[i as int]));
        assert(trim_start(mid) == mid);
        assert forall|k: int| (j - i) <= k < mid.len() implies is_ws(mid[k]) by {
            assert(mid[k] == s@[k + i]);
        }
        lemma_trim_end_take(mid, (j - i) as int);
        assert(mid.take((j - i) as int) =~= s@.subrange(i as int, j as int));
        if j > i {
            assert(!is_ws(s@[j - 1]));
            assert(s@.subrange(i as int, j as int).last() == s@[j - 1]);
        }
    }
    let mut r: Vec<char> = Vec::new();
    let mut k: usize = i;
    while k < j
        invariant
            i <= k <= j,
            j <= s.len(),
            r@ =~= s@.subrange(i as int, k as int),
        decreases j - k,
    {
        r.push(s[k]);
        k = k + 1;
    }
    r
}

/// `str::trim`.
pub fn trim_str(s: &str) -> (r: Vec<char>)
    ensures
        r@ == trim(s@),
{
    let v = chars_of(s);
    trim_chars(&v)
}

/// Trim followed by ASCII lower-casing.
pub fn trim_lower(s: &str) -> (r: Vec<char>)
    ensures
        r@ == lower(trim(s@)),
{
    let t = trim_str(s);
    to_lower(&t)
}

// ---------------------------------------------------------------------------
// Words
// ---------------------------------------------------------------------------

/// The maximal runs of non-white-space characters (`str::split_whitespace`).
pub open spec fn words(s: Seq<char>) -> Seq<Seq<char>>
    decreases s.len(),
{
    if s.len() == 0 {
        seq![]
    } else {
        let prev = words(s.drop_last());
        let c = s.last();
        if is_ws(c) {
            prev
        } else if s.len() >= 2 && !is_ws(s[s.len() - 2]) {
            prev.drop_last().push(prev.last().push(c))
        } else {
            prev.push(seq![c])
        }
    }
}

/// The parts joined by the separator.
pub open spec fn join(parts: Seq<Seq<char>>, sep: Seq<char>) -> Seq<char>
    decreases parts.len(),
{
    if parts.len() == 0 {
        seq![]
    } else if parts.len() == 1 {
        parts[0]
    } else {
        join(parts.drop_last(), sep) + sep + parts.last()
    }
}

/// The views of a vector of character vectors.
pub open spec fn views(v: Seq<Vec<char>>) -> Seq<Seq<char>> {
    Seq::new(v.len(), |i: int| v[i]@)
}

/// The views of a vector of strings.
pub open spec fn strs(v: Seq<String>) -> Seq<Seq<char>> {
    Seq::new(v.len(), |i: int| v[i]@)
}

/// Words joined by single spaces.
pub open spec fn normalize_ws(s: Seq<char>) -> Seq<char> {
    join(words(s), seq![' '])
}

/// A text ending in a non-white-space character has a word.
pub proof fn lemma_words_nonempty(s: Seq<char>)
    requires
        s.len() > 0,
        !is_ws(s.last()),
    ensures
        words(s).len() > 0,
    decreases s.len(),
{
    if s.len() >= 2 && !is_ws(s[s.len() - 2]) {
        assert(s.drop_last().last() == s[s.len() - 2]);
        lemma_words_nonempty(s.drop_last());
    }
}

/// A word: non-empty, without white space.
pub open spec fn is_word(w: Seq<char>) -> bool {
    w.len() > 0 && forall|i: int| 0 <= i < w.len() ==> !is_ws(#[trigger] w[i])
}

/// Every part is a word.
pub open spec fn all_words(ws: Seq<Seq<char>>) -> bool {
    forall|i: int| 0 <= i < ws.len() ==> is_word(#[trigger] ws[i])
}

/// What `words` yields are words.
pub proof fn lemma_words_are_words(s: Seq<char>)
    ensures
        all_words(words(s)),
    decreases s.len(),
{
    if s.len() > 0 {
        let init = s.drop_last();
        lemma_words_are_words(init);
        let prev = words(init);
        let c = s.last();
        if is_ws(c) {
        } else if s.len() >= 2 && !is_ws(s[s.len() - 2]) {
            assert(init.last() == s[s.len() - 2]);
            lemma_words_nonempty(init);
            let w = prev.last().push(c);
            let r = prev.drop_last().push(w);
            assert(is_word(prev[prev.len() - 1]));
            assert forall|k: int| 0 <= k < w.len() implies !is_ws(#[trigger] w[k]) by {
                if k < prev.last().len() {
                    assert(w[k] == prev.last()[k]);
                }
            }
            assert forall|i: int| 0 <= i < r.len() implies is_word(#[trigger] r[i]) by {
                if i < r.len() - 1 {
                    assert(r[i] == prev[i]);
                }
            }
        } else {
            let r = prev.push(seq![c]);
            assert forall|i: int| 0 <= i < r.len() implies is_word(#[trigger] r[i]) by {
                if i < prev.len() {
                    assert(r[i] == prev[i]);
                }
            }
        }
    }
}

/// Appending a word after nothing or after white space adds it as one
/// more word.
proof fn lemma_words_append_word(s: Seq<char>, w: Seq<char>)
    requires
        is_word(w),
        s.len() == 0 || is_ws(s.last()),
    ensures
        words(s + w) == words(s).push(w),
    decreases w.len(),
{
    let sw = s + w;
    if w.len() == 1 {
        assert(sw.drop_last() =~= s);
        assert(sw.last() == w[0]);
        if sw.len() >= 2 {
            assert(sw[sw.len() - 2] == s.last());
        }
        assert(seq![w[0]] =~= w);
    } else {
        let w1 = w.drop_last();
        assert(is_word(w1)) by {
            assert forall|k: int| 0 <= k < w1.len() implies !is_ws(#[trigger] w1[k]) by {
                assert(w1[k] == w[k]);
            }
        }
        lemma_words_append_word(s, w1);
        assert(sw.drop_last() =~= s + w1);
        assert(sw.last() == w[w.len() - 1]);
        assert(sw[sw.len() - 2] == w[w.len() - 2]);
        assert(w1.push(w.last()) =~= w);
    }
}

/// Splitting words joined by single spaces gives the words back.
pub proof fn lemma_words_of_join(ws: Seq<Seq<char>>)
    requires
        all_words(ws),
    ensures
        words(join(ws, seq![' '])) == ws,
    decreases ws.len(),
{
    if ws.len() == 0 {
    } else if ws.len() == 1 {
        assert(is_word(ws[0]));
        lemma_words_append_word(seq![], ws[0]);
        assert(Seq::<char>::empty() + ws[0] =~= ws[0]);
        assert(seq![ws[0]] =~= ws);
    } else {
        let init = ws.drop_last();
        assert(all_words(init)) by {
            assert forall|i: int| 0 <= i < init.len() implies is_word(#[trigger] init[i]) by {
                assert(init[i] == ws[i]);
            }
        }
        lemma_words_of_join(init);
        let j = join(init, seq![' ']);
        let js = j + seq![' '];
        assert(js.drop_last() =~= j);
        assert(words(js) == words(j));
        assert(is_word(ws[ws.len() - 1]));
        lemma_words_append_word(js, ws.last());
        assert(init.push(ws.last()) =~= ws);
    }
}

/// Words joined by single spaces start and end with a character of a word.
pub proof fn lemma_join_edges(ws: Seq<Seq<char>>)
    requires
        all_words(ws),
        ws.len() > 0,
    ensures
        join(ws, seq![' ']).len() > 0,
        join(ws, seq![' '])[0] == ws[0][0],
        join(ws, seq![' ']).last() == ws.last().last(),
    decreases ws.len(),
{
    assert(is_word(ws[0]));
    assert(is_word(ws[ws.len() - 1]));
    if ws.len() > 1 {
        let init = ws.drop_last();
        assert(all_words(init)) by {
            assert forall|i: int| 0 <= i < init.len() implies is_word(#[trigger] init[i]) by {
                assert(init[i] == ws[i]);
            }
        }
        lemma_join_edges(init);
        let j = join(init, seq![' ']);
        assert((j + seq![' '] + ws.last())[0] == j[0]);
    }
}

/// Collapsing white space twice collapses no more than once.
pub proof fn lemma_normalize_ws_idempotent(s: Seq<char>)
    ensures
        normalize_ws(normalize_ws(s)) == normalize_ws(s),
{
    lemma_words_are_words(s);
    lemma_words_of_join(words(s));
}

/// `str::split_whitespace`, collected.
pub fn split_whitespace(s: &Vec<char>) -> (r: Vec<Vec<char>>)
    ensures
        views(r@) == words(s@),
{
    let mut out: Vec<Vec<char>> = Vec::new();
    let mut cur: Vec<char> = Vec::new();
    let mut i: usize = 0;
    while i < s.len()
        invariant
            i <= s.len(),
            words(s@.take(i as int)) == (if cur@.len() > 0 {
                views(out@).push(cur@)
            } else {
                views(out@)
            }),
            cur@.len() > 0 <==> (i > 0 && !is_ws(s@[i - 1])),
        decreases s.len() - i,
    {
        let c = s[i];
        let ghost pre = s@.take(i as int);
        let ghost nxt = s@.take(i + 1);
        proof {
            assert(nxt.drop_last() =~= pre);
            assert(nxt.last() == c);
            if i > 0 {
                assert(nxt[nxt.len() - 2] == s@[i - 1]);
            }
        }
        if char_is_ws(c) {
            if cur.len() > 0 {
                let ghost od = views(out@);
                out.push(cur);
                proof {
                    assert(views(out@) =~= od.push(cur@));
                }
                cur = Vec::new();
            }
        } else {
            if cur.len() > 0 {
                let ghost od = views(out@);
                let ghost oc = cur@;
                cur.push(c);
                proof {
                    let prev = od.push(oc);
                    assert(prev.drop_last() =~= od);
                    assert(words(nxt) =~= od.push(oc.push(c)));
                }
            } else {
                cur.push(c);
                proof {
                    assert(cur@ =~= seq![c]);
                }
            }
        }
        i = i + 1;
    }
    assert(s@.take(i as int) =~= s@);
    if cur.len() > 0 {
        let ghost od = views(out@);
        out.push(cur);
        proof {
            assert(views(out@) =~= od.push(cur@));
        }
    }
    out
}

/// Concatenation of the parts with `sep` between neighbours.
pub fn join_chars(parts: &Vec<Vec<char>>, sep: &Vec<char>) -> (r: Vec<char>)
    ensures
        r@ == join(views(parts@), sep@),
{
    let ghost p = views(parts@);
    let mut r: Vec<char> = Vec::new();
    let mut i: usize = 0;
    while i < parts.len()
        invariant
            i <= parts.len(),
            p == views(parts@),
            r@ == join(p.take(i as int), sep@),
        decreases parts.len() - i,
    {
        proof {
            assert(p.take(i + 1).drop_last() =~= p.take(i as int));
            assert(p.take(i + 1).last() == parts@[i as int]@);
        }
        if i > 0 {
            append_chars(&mut r, sep);
        }
        append_chars(&mut r, &parts[i]);
        proof {
            if i == 0 {
                assert(r@ =~= p.take(1)[0]);
            }
        }
        i = i + 1;
    }
    assert(p.take(i as int) =~= p);
    r
}

/// Collapses every run of white space to one space and drops leading and
/// trailing white space.
pub fn normalize_chars(s: &Vec<char>) -> (r: Vec<char>)
    ensures
        r@ == normalize_ws(s@),
{
    let ws = split_whitespace(s);
    let mut sep: Vec<char> = Vec::new();
    sep.push(' ');
    assert(sep@ =~= seq![' ']);
    join_chars(&ws, &sep)
}

// ---------------------------------------------------------------------------
// Searching
// ---------------------------------------------------------------------------

/// `n` occurs in `h` starting at index `i`.
pub open spec fn occurs_at(h: Seq<char>, n: Seq<char>, i: int) -> bool {
    0 <= i && i + n.len() <= h.len() && h.subrange(i, i + n.len()) == n
}

/// `n` is a substring of `h` (`str::contains`).
pub open spec fn contains(h: Seq<char>, n: Seq<char>) -> bool {
    exists|i: int| #[trigger] occurs_at(h, n, i)
}

/// `p` is a prefix of `s`.
pub open spec fn starts_with(s: Seq<char>, p: Seq<char>) -> bool {
    occurs_at(s, p, 0)
}

/// `p` is a suffix of `s`.
pub open spec fn ends_with(s: Seq<char>, p: Seq<char>) -> bool {
    occurs_at(s, p, s.len() - p.len())
}

/// Whether `n` occurs in `h` at index `i`.
pub fn matches_at(h: &Vec<char>, n: &Vec<char>, i: usize) -> (r: bool)
    ensures
        r == occurs_at(h@, n@, i as int),
{
    if i > h.len() || n.len() > h.len() - i {
        return false;
    }
    let mut k: usize = 0;
    while k < n.len()
        invariant
            k <= n.len(),
            i + n.len() <= h.len(),
            forall|m: int| 0 <= m < k ==> h@[i + m] == n@[m],
        decreases n.len() - k,
    {
        if h[i + k] != n[k] {
            assert(h@.subrange(i as int, i + n.len())[k as int] != n@[k as int]);
            return false;
        }
        k = k + 1;
    }
    assert(h@.subrange(i as int, i + n.len()) =~= n@);
    true
}

/// Index of the first occurrence of `n` in `h` at or after `from`.
pub fn find_from(h: &Vec<char>, n: &Vec<char>, from: usize) -> (r: Option<usize>)
    ensures
        match r {
            Some(i) => from <= i && occurs_at(h@, n@, i as int) && forall|j: int|
                from <= j < i ==> !occurs_at(h@, n@, j),
            None => forall|j: int| from <= j ==> !occurs_at(h@, n@, j),
        },
{
    if n.len() > h.len() || from > h.len() - n.len() {
        return None;
    }
    let last: usize = h.len() - n.len();
    let mut i: usize = from;
    loop
        invariant
            from <= i <= last,
            last == h.len() - n.len(),
            forall|j: int| from <= j < i ==> !occurs_at(h@, n@, j),
        decreases last - i,
    {
        if matches_at(h, n, i) {
            return Some(i);
        }
        if i == last {
            return None;
        }
        i = i + 1;
    }
}

/// Substring test (`str::contains`).
pub fn contains_chars(h: &Vec<char>, n: &Vec<char>) -> (r: bool)
    ensures
        r == contains(h@, n@),
{
    match find_from(h, n, 0) {
        Some(i) => {
            assert(occurs_at(h@, n@, i as int));
            true
        },
        None => false,
    }
}

/// Substring test against a string slice needle.
pub fn contains_str(h: &Vec<char>, n: &str) -> (r: bool)
    ensures
        r == contains(h@, n@),
{
    let nv = chars_of(n);
    contains_chars(h, &nv)
}

/// Prefix test (`str::starts_with`).
pub fn starts_with_chars(s: &Vec<char>, p: &Vec<char>) -> (r: bool)
    ensures
        r == starts_with(s@, p@),
{
    matches_at(s, p, 0)
}

/// Prefix test against a string slice.
pub fn starts_with_str(s: &Vec<char>, p: &str) -> (r: bool)
    ensures
        r == starts_with(s@, p@),
{
    let pv = chars_of(p);
    starts_with_chars(s, &pv)
}

/// Suffix test (`str::ends_with`).
pub fn ends_with_chars(s: &Vec<char>, p: &Vec<char>) -> (r: bool)
    ensures
        r == ends_with(s@, p@),
{
    if p.len() > s.len() {
        return false;
    }
    matches_at(s, p, s.len() - p.len())
}

/// The characters from `start` on.
pub fn skip_chars(s: &Vec<char>, start: usize) -> (r: Vec<char>)
    requires
        start <= s.len(),
    ensures
        r@ == s@.skip(start as int),
{
    subrange_chars(s, start, s.len())
}

/// The characters in `[start, end)`.
pub fn subrange_chars(s: &Vec<char>, start: usize, end: usize) -> (r: Vec<char>)
    requires
        start <= end <= s.len(),
    ensures
        r@ == s@.subrange(start as int, end as int),
{
    let mut r: Vec<char> = Vec::new();
    let mut k: usize = start;
    while k < end
        invariant
            start <= k <= end,
            end <= s.len(),
            r@ =~= s@.subrange(start as int, k as int),
        decreases end - k,
    {
        r.push(s[k]);
        k = k + 1;
    }
    r
}

// ---------------------------------------------------------------------------
// Replacement
// ---------------------------------------------------------------------------

/// Every non-overlapping occurrence of `pat`, scanning left to right,
/// replaced by `rep` (`str::replace` for a non-empty pattern).
pub open spec fn replace_all(s: Seq<char>, pat: Seq<char>, rep: Seq<char>) -> Seq<char>
    decreases s.len(),
{
    if pat.len() == 0 || s.len() == 0 {
        s
    } else if starts_with(s, pat) {
        rep + replace_all(s.skip(pat.len() as int), pat, rep)
    } else {
        seq![s[0]] + replace_all(s.drop_first(), pat, rep)
    }
}

/// `str::replace` with a non-empty pattern.
pub fn replace_chars(s: &Vec<char>, pat: &Vec<char>, rep: &Vec<char>) -> (r: Vec<char>)
    requires
        pat.len() > 0,
    ensures
        r@ == replace_all(s@, pat@, rep@),
{
    let mut out: Vec<char> = Vec::new();
    let mut i: usize = 0;
    assert(s@.skip(0) =~= s@);
    assert(out@ + replace_all(s@, pat@, rep@) =~= replace_all(s@, pat@, rep@));
    while i < s.len()
        invariant
            i <= s.len(),
            pat@.len() > 0,
            out@ + replace_all(s@.skip(i as int), pat@, rep@) == replace_all(s@, pat@, rep@),
        decreases s.len() - i,
    {
        let ghost rest = s@.skip(i as int);
        if matches_at(s, pat, i) {
            proof {
                assert(rest.subrange(0, pat@.len() as int) =~= s@.subrange(
                    i as int,
                    i + pat@.len(),
                ));
                assert(starts_with(rest, pat@));
                assert(rest.skip(pat@.len() as int) =~= s@.skip(i + pat@.len()));
            }
            let ghost o = out@;
            append_chars(&mut out, rep);
            proof {
                assert(out@ + replace_all(s@.skip(i + pat@.len()), pat@, rep@) =~= o + (rep@
                    + replace_all(rest.skip(pat@.len() as int), pat@, rep@)));
            }
            i = i + pat.len();
        } else {
            proof {
                if starts_with(rest, pat@) {
                    assert(rest.subrange(0, pat@.len() as int) =~= s@.subrange(
                        i as int,
                        i + pat@.len(),
                    ));
                }
                assert(rest.drop_first() =~= s@.skip(i + 1));
            }
            let ghost o = out@;
            out.push(s[i]);
            proof {
                assert(out@ + replace_all(s@.skip(i + 1), pat@, rep@) =~= o + (seq![s@[i as int]]
                    + replace_all(rest.drop_first(), pat@, rep@)));
            }
            i = i + 1;
        }
    }
    proof {
        assert(s@.skip(i as int).len() == 0);
        assert(out@ + seq![] =~= out@);
    }
    out
}

/// Character vectors of each string.
pub fn chars_of_strings(v: &[String]) -> (r: Vec<Vec<char>>)
    ensures
        views(r@) == strs(v@),
{
    let mut r: Vec<Vec<char>> = Vec::new();
    let mut i: usize = 0;
    while i < v.len()
        invariant
            i <= v.len(),
            views(r@) =~= strs(v@).take(i as int),
        decreases v.len() - i,
    {
        let c = chars_of(v[i].as_str());
        let ghost before = r@;
        r.push(c);
        proof {
            assert(views(r@) =~= views(before).push(c@));
            assert(strs(v@).take(i + 1) =~= strs(v@).take(i as int).push(v@[i as int]@));
        }
        i = i + 1;
    }
    r
}

/// Strings built from each character vector.
pub fn strings_of(v: &Vec<Vec<char>>) -> (r: Vec<String>)
    ensures
        strs(r@) == views(v@),
{
    let mut r: Vec<String> = Vec::new();
    let mut i: usize = 0;
    while i < v.len()
        invariant
            i <= v.len(),
            strs(r@) =~= views(v@).take(i as int),
        decreases v.len() - i,
    {
        let s = string_of(&v[i]);
        let ghost before = r@;
        r.push(s);
        proof {
            assert(strs(r@) =~= strs(before).push(s@));
            assert(views(v@).take(i + 1) =~= views(v@).take(i as int).push(v@[i as int]@));
        }
        i = i + 1;
    }
    r
}

/// Copies a string.
pub fn copy_string(s: &String) -> (r: String)
    ensures
        r@ == s@,
{
    s.clone()
}

/// Copies a vector of strings.
pub fn copy_strings(v: &[String]) -> (r: Vec<String>)
    ensures
        strs(r@) == strs(v@),
{
    let mut r: Vec<String> = Vec::new();
    let mut i: usize = 0;
    while i < v.len()
        invariant
            i <= v.len(),
            strs(r@) =~= strs(v@).take(i as int),
        decreases v.len() - i,
    {
        let s = v[i].clone();
        let ghost before = r@;
        r.push(s);
        proof {
            assert(strs(r@) =~= strs(before).push(s@));
            assert(strs(v@).take(i + 1) =~= strs(v@).take(i as int).push(v@[i as int]@));
        }
        i = i + 1;
    }
    r
}

/// Copies an optional string.
pub fn copy_opt_string(s: &Option<String>) -> (r: Option<String>)
    ensures
        opt_view(r) == opt_view(*s),
{
    match s {
        Some(x) => Some(x.clone()),
        None => None,
    }
}

/// The view of an optional string.
pub open spec fn opt_view(s: Option<String>) -> Option<Seq<char>> {
    match s {
        Some(x) => Some(x@),
        None => None,
    }
}

// ---------------------------------------------------------------------------
// De-duplication
// ---------------------------------------------------------------------------

/// `c` equals some element of `xs`, ignoring ASCII case.
pub open spec fn ci_member(xs: Seq<Seq<char>>, c: Seq<char>) -> bool {
    exists|i: int| 0 <= i < xs.len() && eq_ignore_case(#[trigger] xs[i], c)
}

/// The present values in order, each kept only if no earlier kept value
/// equals it ignoring ASCII case.
pub open spec fn dedup_ci(xs: Seq<Option<Seq<char>>>) -> Seq<Seq<char>>
    decreases xs.len(),
{
    if xs.len() == 0 {
        seq![]
    } else {
        let prev = dedup_ci(xs.drop_last());
        match xs.last() {
            None => prev,
            Some(c) => if ci_member(prev, c) {
                prev
            } else {
                prev.push(c)
            },
        }
    }
}

/// The present values in order, each kept only if no earlier kept value
/// equals it.
pub open spec fn dedup_exact(xs: Seq<Option<Seq<char>>>) -> Seq<Seq<char>>
    decreases xs.len(),
{
    if xs.len() == 0 {
        seq![]
    } else {
        let prev = dedup_exact(xs.drop_last());
        match xs.last() {
            None => prev,
            Some(c) => if prev.contains(c) {
                prev
            } else {
                prev.push(c)
            },
        }
    }
}

/// Views of a sequence of optional character vectors.
pub open spec fn opt_views(xs: Seq<Option<Vec<char>>>) -> Seq<Option<Seq<char>>> {
    Seq::new(
        xs.len(),
        |i: int|
            match xs[i] {
                Some(v) => Some(v@),
                None => None,
            },
    )
}

/// Whether some element equals `c` ignoring ASCII case.
pub fn any_eq_ignore_case(xs: &Vec<Vec<char>>, c: &Vec<char>) -> (r: bool)
    ensures
        r == ci_member(views(xs@), c@),
{
    let mut i: usize = 0;
    while i < xs.len()
        invariant
            i <= xs.len(),
            forall|k: int| 0 <= k < i ==> !eq_ignore_case(#[trigger] views(xs@)[k], c@),
        decreases xs.len() - i,
    {
        if chars_eq_ignore_case(&xs[i], c) {
            assert(eq_ignore_case(views(xs@)[i as int], c@));
            return true;
        }
        i = i + 1;
    }
    false
}

/// Whether some element equals `c`.
pub fn any_eq(xs: &Vec<Vec<char>>, c: &Vec<char>) -> (r: bool)
    ensures
        r == views(xs@).contains(c@),
{
    let mut i: usize = 0;
    while i < xs.len()
        invariant
            i <= xs.len(),
            forall|k: int| 0 <= k < i ==> views(xs@)[k] != c@,
        decreases xs.len() - i,
    {
        if chars_eq(&xs[i], c) {
            assert(views(xs@)[i as int] == c@);
            return true;
        }
        i = i + 1;
    }
    false
}

/// `dedup_ci` on optional character vectors.
pub fn dedup_ignore_case(xs: &Vec<Option<Vec<char>>>) -> (r: Vec<Vec<char>>)
    ensures
        views(r@) == dedup_ci(opt_views(xs@)),
{
    let ghost all = opt_views(xs@);
    let mut out: Vec<Vec<char>> = Vec::new();
    let mut i: usize = 0;
    while i < xs.len()
        invariant
            i <= xs.len(),
            all == opt_views(xs@),
            views(out@) == dedup_ci(all.take(i as int)),
        decreases xs.len() - i,
    {
        proof {
            assert(all.take(i + 1).drop_last() =~= all.take(i as int));
        }
        match &xs[i] {
            Some(c) => {
                if !any_eq_ignore_case(&out, c) {
                    let ghost before = out@;
                    out.push(copy_chars(c));
                    proof {
                        assert(views(out@) =~= views(before).push(c@));
                    }
                }
            },
            None => {},
        }
        i = i + 1;
    }
    assert(all.take(i as int) =~= all);
    out
}

/// `dedup_exact` on optional character vectors.
pub fn dedup_exactly(xs: &Vec<Option<Vec<char>>>) -> (r: Vec<Vec<char>>)
    ensures
        views(r@) == dedup_exact(opt_views(xs@)),
{
    let ghost all = opt_views(xs@);
    let mut out: Vec<Vec<char>> = Vec::new();
    let mut i: usize = 0;
    while i < xs.len()
        invariant
            i <= xs.len(),
            all == opt_views(xs@),
            views(out@) == dedup_exact(all.take(i as int)),
        decreases xs.len() - i,
    {
        proof {
            assert(all.take(i + 1).drop_last() =~= all.take(i as int));
        }
        match &xs[i] {
            Some(c) => {
                if !any_eq(&out, c) {
                    let ghost before = out@;
                    out.push(copy_chars(c));
                    proof {
                        assert(views(out@) =~= views(before).push(c@));
                    }
                }
            },
            None => {},
        }
        i = i + 1;
    }
    assert(all.take(i as int) =~= all);
    out
}

/// Every pair of kept values differs even ignoring ASCII case.
pub proof fn lemma_dedup_ci_distinct(xs: Seq<Option<Seq<char>>>)
    ensures
        forall|i: int, j: int|
            0 <= i < j < dedup_ci(xs).len() ==> !eq_ignore_case(
                #[trigger] dedup_ci(xs)[i],
                #[trigger] dedup_ci(xs)[j],
            ),
    decreases xs.len(),
{
    if xs.len() > 0 {
        lemma_dedup_ci_distinct(xs.drop_last());
        let prev = dedup_ci(xs.drop_last());
        match xs.last() {
            None => {},
            Some(c) => {
                if !ci_member(prev, c) {
                    let r = prev.push(c);
                    assert forall|i: int, j: int| 0 <= i < j < r.len() implies !eq_ignore_case(
                        r[i],
                        r[j],
                    ) by {
                        if j == r.len() - 1 {
                            assert(r[j] == c);
                            assert(r[i] == prev[i]);
                        } else {
                            assert(r[i] == prev[i] && r[j] == prev[j]);
                        }
                    }
                }
            },
        }
    }
}

/// Every pair of kept values differs.
pub proof fn lemma_dedup_exact_distinct(xs: Seq<Option<Seq<char>>>)
    ensures
        forall|i: int, j: int|
            0 <= i < j < dedup_exact(xs).len() ==> #[trigger] dedup_exact(xs)[i]
                != #[trigger] dedup_exact(xs)[j],
    decreases xs.len(),
{
    if xs.len() > 0 {
        lemma_dedup_exact_distinct(xs.drop_last());
        let prev = dedup_exact(xs.drop_last());
        match xs.last() {
            None => {},
            Some(c) => {
                if !prev.contains(c) {
                    let r = prev.push(c);
                    assert forall|i: int, j: int| 0 <= i < j < r.len() implies r[i] != r[j] by {
                        if j == r.len() - 1 {
                            assert(r[i] == prev[i]);
                        } else {
                            assert(r[i] == prev[i] && r[j] == prev[j]);
                        }
                    }
                }
            },
        }
    }
}

/// Every kept value is one of the present values.
pub proof fn lemma_dedup_exact_from(xs: Seq<Option<Seq<char>>>)
    ensures
        forall|k: int|
            0 <= k < dedup_exact(xs).len() ==> exists|i: int|
                0 <= i < xs.len() && xs[i] == Some(#[trigger] dedup_exact(xs)[k]),
    decreases xs.len(),
{
    if xs.len() > 0 {
        let init = xs.drop_last();
        lemma_dedup_exact_from(init);
        let prev = dedup_exact(init);
        assert forall|k: int| 0 <= k < dedup_exact(xs).len() implies exists|i: int|
            0 <= i < xs.len() && xs[i] == Some(#[trigger] dedup_exact(xs)[k]) by {
            if k < prev.len() {
                assert(dedup_exact(xs)[k] == prev[k]);
                let i = choose|i: int| 0 <= i < init.len() && init[i] == Some(prev[k]);
                assert(xs[i] == init[i]);
            } else {
                assert(xs[xs.len() - 1] == Some(dedup_exact(xs)[k]));
            }
        }
    }
}

/// Every kept value is one of the present values.
pub proof fn lemma_dedup_ci_from(xs: Seq<Option<Seq<char>>>)
    ensures
        forall|k: int|
            0 <= k < dedup_ci(xs).len() ==> exists|i: int|
                0 <= i < xs.len() && xs[i] == Some(#[trigger] dedup_ci(xs)[k]),
    decreases xs.len(),
{
    if xs.len() > 0 {
        let init = xs.drop_last();
        lemma_dedup_ci_from(init);
        let prev = dedup_ci(init);
        assert forall|k: int| 0 <= k < dedup_ci(xs).len() implies exists|i: int|
            0 <= i < xs.len() && xs[i] == Some(#[trigger] dedup_ci(xs)[k]) by {
            if k < prev.len() {
                assert(dedup_ci(xs)[k] == prev[k]);
                let i = choose|i: int| 0 <= i < init.len() && init[i] == Some(prev[k]);
                assert(xs[i] == init[i]);
            } else {
                assert(xs[xs.len() - 1] == Some(dedup_ci(xs)[k]));
            }
        }
    }
}

/// Values that already differ pairwise pass de-duplication unchanged.
pub proof fn lemma_dedup_exact_of_distinct(ys: Seq<Seq<char>>)
    requires
        forall|i: int, j: int| 0 <= i < j < ys.len() ==> #[trigger] ys[i] != #[trigger] ys[j],
    ensures
        dedup_exact(Seq::new(ys.len(), |i: int| Some(ys[i]))) == ys,
    decreases ys.len(),
{
    let xs = Seq::new(ys.len(), |i: int| Some(ys[i]));
    if ys.len() > 0 {
        let zs = ys.drop_last();
        lemma_dedup_exact_of_distinct(zs);
        assert(xs.drop_last() =~= Seq::new(zs.len(), |i: int| Some(zs[i])));
        if zs.contains(ys.last()) {
            let k = choose|k: int| 0 <= k < zs.len() && zs[k] == ys.last();
            assert(ys[k] == ys[ys.len() - 1]);
        }
        assert(zs.push(ys.last()) =~= ys);
    } else {
        assert(dedup_exact(xs) =~= ys);
    }
}

/// Values that already differ pairwise, even ignoring ASCII case, pass
/// case-insensitive de-duplication unchanged.
pub proof fn lemma_dedup_ci_of_distinct(ys: Seq<Seq<char>>)
    requires
        forall|i: int, j: int|
            0 <= i < j < ys.len() ==> !eq_ignore_case(#[trigger] ys[i], #[trigger] ys[j]),
    ensures
        dedup_ci(Seq::new(ys.len(), |i: int| Some(ys[i]))) == ys,
    decreases ys.len(),
{
    let xs = Seq::new(ys.len(), |i: int| Some(ys[i]));
    if ys.len() > 0 {
        let zs = ys.drop_last();
        lemma_dedup_ci_of_distinct(zs);
        assert(xs.drop_last() =~= Seq::new(zs.len(), |i: int| Some(zs[i])));
        if ci_member(zs, ys.last()) {
            let k = choose|k: int| 0 <= k < zs.len() && eq_ignore_case(zs[k], ys.last());
            assert(ys[k] == zs[k]);
            assert(!eq_ignore_case(ys[k], ys[ys.len() - 1]));
        }
        assert(zs.push(ys.last()) =~= ys);
    } else {
        assert(dedup_ci(xs) =~= ys);
    }
}

/// The UTF-8 encoding is empty exactly for the empty text.
pub proof fn lemma_encode_utf8_empty_iff(s: Seq<char>)
    ensures
        encode_utf8(s).len() == 0 <==> s.len() == 0,
{
    if s.len() > 0 {
        assert(encode_utf8(s) == vstd::utf8::encode_scalar(s[0] as u32) + encode_utf8(
            s.drop_first(),
        ));
    }
}

/// A text has no more characters than bytes in UTF-8.
pub proof fn lemma_chars_within_bytes(s: Seq<char>)
    ensures
        s.len() <= encode_utf8(s).len(),
    decreases s.len(),
{
    if s.len() > 0 {
        vstd::utf8::char_is_scalar(s[0]);
        assert(encode_utf8(s) == vstd::utf8::encode_scalar(s[0] as u32) + encode_utf8(
            s.drop_first(),
        ));
        assert(vstd::utf8::encode_scalar(s[0] as u32).len() >= 1);
        lemma_chars_within_bytes(s.drop_first());
    }
}

// ---------------------------------------------------------------------------
// Numbers
// ---------------------------------------------------------------------------

pub open spec fn digit_char(d: nat) -> char {
    ((d + 48) as u8) as char
}

pub open spec fn digit_value(c: char) -> nat {
    ((c as u32) - 48) as nat
}

/// Decimal representation without leading zeros (`0` for zero).
pub open spec fn decimal(n: nat) -> Seq<char>
    decreases n,
{
    if n < 10 {
        seq![digit_char(n)]
    } else {
        decimal(n / 10).push(digit_char(n % 10))
    }
}

/// Decimal digits of a `u64`.
pub fn u64_decimal(n: u64) -> (r: Vec<char>)
    ensures
        r@ == decimal(n as nat),
    decreases n,
{
    let d: u8 = (n % 10) as u8;
    let c: char = (d + 48) as char;
    if n < 10 {
        let mut v: Vec<char> = Vec::new();
        v.push(c);
        assert(v@ =~= seq![digit_char(n as nat)]);
        v
    } else {
        let mut v = u64_decimal(n / 10);
        v.push(c);
        v
    }
}

/// Value of a string of decimal digits.
pub open spec fn digits_value(s: Seq<char>) -> nat
    decreases s.len(),
{
    if s.len() == 0 {
        0
    } else {
        digits_value(s.drop_last()) * 10 + digit_value(s.last())
    }
}

/// What `str::parse::<u64>` gives for a text without sign characters:
/// the value of a non-empty digit string that fits in 64 bits.
pub open spec fn parse_u64(s: Seq<char>) -> Option<u64> {
    if s.len() > 0 && (forall|i: int| 0 <= i < s.len() ==> is_ascii_digit(#[trigger] s[i]))
        && digits_value(s) <= u64::MAX {
        Some(digits_value(s) as u64)
    } else {
        None
    }
}

proof fn lemma_digits_value_monotone(s: Seq<char>, i: int)
    requires
        0 <= i <= s.len(),
        forall|k: int| 0 <= k < s.len() ==> is_ascii_digit(#[trigger] s[k]),
    ensures
        digits_value(s.take(i)) <= digits_value(s),
    decreases s.len() - i,
{
    if i < s.len() {
        assert(s.drop_last().take(i) =~= s.take(i));
        lemma_digits_value_monotone(s.drop_last(), i);
    } else {
        assert(s.take(i) =~= s);
    }
}

/// `str::parse::<u64>` on a text of ASCII letters and digits.
pub fn parse_u64_chars(s: &Vec<char>) -> (r: Option<u64>)
    ensures
        r == parse_u64(s@),
{
    if s.len() == 0 {
        return None;
    }
    let mut i: usize = 0;
    while i < s.len()
        invariant
            i <= s.len(),
            forall|k: int| 0 <= k < i ==> is_ascii_digit(#[trigger] s@[k]),
        decreases s.len() - i,
    {
        if !char_is_ascii_digit(s[i]) {
            return None;
        }
        i = i + 1;
    }
    let mut v: u64 = 0;
    let mut j: usize = 0;
    while j < s.len()
        invariant
            j <= s.len(),
            forall|k: int| 0 <= k < s.len() ==> is_ascii_digit(#[trigger] s@[k]),
            v == digits_value(s@.take(j as int)),
        decreases s.len() - j,
    {
        let c = s[j];
        let d: u64 = ((c as u32) - 48) as u64;
        proof {
            assert(s@.take(j + 1).drop_last() =~= s@.take(j as int));
            assert(s@.take(j + 1).last() == c);
            assert(is_ascii_digit(c));
        }
        match v.checked_mul(10) {
            Some(m) => match m.checked_add(d) {
                Some(nv) => {
                    v = nv;
                },
                None => {
                    proof {
                        lemma_digits_value_monotone(s@, j + 1);
                    }
                    return None;
                },
            },
            None => {
                proof {
                    assert(digits_value(s@.take(j + 1)) >= v * 10);
                    lemma_digits_value_monotone(s@, j + 1);
                }
                return None;
            },
        }
        j = j + 1;
    }
    assert(s@.take(j as int) =~= s@);
    Some(v)
}

/// Number of bytes in the UTF-8 encoding of one character.
pub fn char_utf8_width(c: char) -> (r: usize)
    ensures
        r == vstd::utf8::encode_scalar(c as u32).len(),
        1 <= r <= 4,
{
    let u = c as u32;
    proof {
        vstd::utf8::char_is_scalar(c);
    }
    if u <= 0x7f {
        1
    } else if u <= 0x7ff {
        2
    } else if u <= 0xffff && !(0xd800 <= u && u <= 0xdfff) {
        3
    } else {
        4
    }
}

/// Whether the UTF-8 encoding of the text is longer than `n` bytes.
pub fn utf8_len_exceeds(s: &Vec<char>, n: usize) -> (r: bool)
    ensures
        r == (encode_utf8(s@).len() > n),
{
    let mut count: usize = 0;
    let mut i: usize = 0;
    assert(s@.skip(0) =~= s@);
    while i < s.len()
        invariant
            i <= s.len(),
            count <= n,
            count + encode_utf8(s@.skip(i as int)).len() == encode_utf8(s@).len(),
        decreases s.len() - i,
    {
        proof {
            let rest = s@.skip(i as int);
            assert(rest[0] == s@[i as int]);
            assert(rest.drop_first() =~= s@.skip(i + 1));
        }
        let w = char_utf8_width(s[i]);
        if w > n - count {
            return true;
        }
        count = count + w;
        i = i + 1;
    }
    assert(s@.skip(i as int).len() == 0);
    false
}

// ---------------------------------------------------------------------------
// First occurrence
// ---------------------------------------------------------------------------

/// Smallest index at or after `i` where `n` occurs in `h`.
pub open spec fn first_occ(h: Seq<char>, n: Seq<char>, i: int) -> Option<int>
    decreases h.len() + 1 - i,
{
    if i < 0 || i > h.len() {
        None
    } else if occurs_at(h, n, i) {
        Some(i)
    } else {
        first_occ(h, n, i + 1)
    }
}

proof fn lemma_first_occ_found(h: Seq<char>, n: Seq<char>, from: int, i: int)
    requires
        0 <= from <= i,
        occurs_at(h, n, i),
        forall|j: int| from <= j < i ==> !occurs_at(h, n, j),
    ensures
        first_occ(h, n, from) == Some(i),
    decreases i - from,
{
    if from < i {
        lemma_first_occ_found(h, n, from + 1, i);
    }
}

proof fn lemma_first_occ_none(h: Seq<char>, n: Seq<char>, from: int)
    requires
        0 <= from,
        forall|j: int| from <= j ==> !occurs_at(h, n, j),
    ensures
        first_occ(h, n, from) is None,
    decreases h.len() + 1 - from,
{
    if from <= h.len() {
        lemma_first_occ_none(h, n, from + 1);
    }
}

/// `str::find`, counted in characters.
pub fn find_first(h: &Vec<char>, n: &Vec<char>) -> (r: Option<usize>)
    ensures
        match r {
            Some(i) => first_occ(h@, n@, 0) == Some(i as int),
            None => first_occ(h@, n@, 0) is None,
        },
{
    let r = find_from(h, n, 0);
    proof {
        match r {
            Some(i) => lemma_first_occ_found(h@, n@, 0, i as int),
            None => lemma_first_occ_none(h@, n@, 0),
        }
    }
    r
}

/// A first occurrence lies within the text.
pub proof fn lemma_first_occ_bounds(h: Seq<char>, n: Seq<char>, i: int)
    ensures
        first_occ(h, n, i) matches Some(k) ==> i <= k <= h.len() && occurs_at(h, n, k),
    decreases h.len() + 1 - i,
{
    if 0 <= i <= h.len() && !occurs_at(h, n, i) {
        lemma_first_occ_bounds(h, n, i + 1);
    }
}

} // verus!
