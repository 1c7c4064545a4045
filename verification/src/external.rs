//! Calls into outside crates. Each item here is trusted: its contract is
//! taken as given and not proved.
use vstd::prelude::*;

use crate::text::{join, strs};

verus! {

// ---------------------------------------------------------------------------
// Errors (anyhow)
// ---------------------------------------------------------------------------

/// `anyhow::Error`, carried through unopened.
#[verifier::external_type_specification]
#[verifier::external_body]
pub struct ExAnyhowError(anyhow::Error);

/// Language that `whatlang::detect_lang` reports for a text, as the `Debug`
/// name of the `whatlang::Lang` variant (for example `Eng`); `None` where
/// whatlang detects no language.
pub uninterp spec fn detected_language(text: Seq<char>) -> Option<Seq<char>>;

/// Calls `whatlang::detect_lang` and renders the detected language with its
/// `Debug` name. The contract only ties the result to the text through
/// `detected_language`: whatlang's statistical model is not restated.
#[verifier::external_body]
pub(crate) fn detect_language(text: &str) -> (r: Option<String>)
    ensures
        match r {
            Some(name) => detected_language(text@) == Some(name@),
            None => detected_language(text@) is None,
        },
{
    match whatlang::detect_lang(text) {
        Some(lang) => Some(format!("{:?}", lang)),
        None => None,
    }
}

// ---------------------------------------------------------------------------
// Hashing (sha2, hex)
// ---------------------------------------------------------------------------

/// SHA-256 digest of a byte string, as computed by the `sha2` crate.
pub uninterp spec fn sha256(data: Seq<u8>) -> Seq<u8>;

/// `sha2::Sha256::digest`: the 32-byte SHA-256 digest of the data. The
/// digest itself is only named, not restated.
#[verifier::external_body]
pub(crate) fn sha256_digest(data: &[u8]) -> (r: Vec<u8>)
    ensures
        r@ == sha256(data@),
        r@.len() == 32,
{
    <sha2::Sha256 as sha2::Digest>::digest(data).to_vec()
}

/// Lower-case hexadecimal digit for a value below 16.
pub open spec fn hex_digit(v: u8) -> char {
    if v < 10 {
        (('0' as u8) + v) as char
    } else {
        (('a' as u8) + v - 10) as char
    }
}

/// Two lower-case hexadecimal digits per byte, high nibble first.
pub open spec fn hex_lower(data: Seq<u8>) -> Seq<char>
    decreases data.len(),
{
    if data.len() == 0 {
        seq![]
    } else {
        seq![hex_digit(data[0] / 16), hex_digit(data[0] % 16)] + hex_lower(data.drop_first())
    }
}

/// `hex::encode`: each byte as two lower-case hexadecimal digits.
#[verifier::external_body]
pub(crate) fn hex_encode(data: &[u8]) -> (r: String)
    ensures
        r@ == hex_lower(data@),
{
    hex::encode(data)
}

// ---------------------------------------------------------------------------
// JSON (serde_json)
// ---------------------------------------------------------------------------

/// How `serde_json` writes one character inside a string: `"` and `\\`
/// behind a backslash, the control characters with a short escape where
/// JSON has one and as `\u00XX` (lower-case hexadecimal) otherwise, every
/// other character as it is.
pub open spec fn json_char(c: char) -> Seq<char> {
    let u = c as u32;
    if c == '"' {
        seq!['\\', '"']
    } else if c == '\\' {
        seq!['\\', '\\']
    } else if u == 0x08 {
        seq!['\\', 'b']
    } else if u == 0x09 {
        seq!['\\', 't']
    } else if u == 0x0a {
        seq!['\\', 'n']
    } else if u == 0x0c {
        seq!['\\', 'f']
    } else if u == 0x0d {
        seq!['\\', 'r']
    } else if u < 0x20 {
        seq!['\\', 'u', '0', '0', hex_digit((u / 16) as u8), hex_digit((u % 16) as u8)]
    } else {
        seq![c]
    }
}

/// A JSON string literal of a text.
pub open spec fn json_quoted(s: Seq<char>) -> Seq<char> {
    seq!['"'] + s.map_values(|c: char| json_char(c)).flatten() + seq!['"']
}

/// The compact JSON array of strings: `[`, the quoted items separated by
/// `,`, `]`.
pub open spec fn json_string_array(items: Seq<Seq<char>>) -> Seq<char> {
    seq!['['] + join(items.map_values(|s: Seq<char>| json_quoted(s)), seq![',']) + seq![']']
}

/// `serde_json::to_string` on a list of strings: the compact JSON array of
/// the strings. Writing strings into memory has no failing case in
/// `serde_json`, so the result is always present.
#[verifier::external_body]
pub(crate) fn json_strings(items: &[String]) -> (r: Option<String>)
    ensures
        opt_string_view(&r) == Some(json_string_array(strs(items@))),
{
    serde_json::to_string(items).ok()
}

/// The list of strings that `serde_json::from_str::<Vec<String>>` reads
/// from a text; `None` where the text is not a JSON array of strings.
pub uninterp spec fn json_string_list(text: Seq<char>) -> Option<Seq<Seq<char>>>;

/// `serde_json::from_str::<Vec<String>>`: the strings of a JSON array, or
/// `None` where the text does not parse as one. What the parser accepts is
/// only named.
#[verifier::external_body]
pub(crate) fn parse_json_strings(text: &str) -> (r: Option<Vec<String>>)
    ensures
        match r {
            Some(v) => json_string_list(text@) == Some(strs(v@)),
            None => json_string_list(text@) is None,
        },
{
    serde_json::from_str::<Vec<String>>(text).ok()
}

// ---------------------------------------------------------------------------
// Regular expressions (regex)
// ---------------------------------------------------------------------------

/// What `regex::Regex::new(pattern)` followed by `replace_all(text, rep)`
/// gives; `None` where the pattern does not compile.
pub uninterp spec fn regex_replaced(pattern: Seq<char>, text: Seq<char>, rep: Seq<char>) -> Option<
    Seq<char>,
>;

/// Compiles `pattern` with `regex::Regex::new` and replaces every match in
/// `text` by `rep` (`Regex::replace_all`). The matching is only named.
#[verifier::external_body]
pub(crate) fn regex_replace_all(pattern: &str, text: &str, rep: &str) -> (r: Option<String>)
    ensures
        opt_string_view(&r) == regex_replaced(pattern@, text@, rep@),
{
    match regex::Regex::new(pattern) {
        Ok(re) => Some(re.replace_all(text, rep).into_owned()),
        Err(_) => None,
    }
}

/// For each successive match of `pattern` in `text`
/// (`Regex::captures_iter`), the text of capture group `group`, empty
/// where the group took no part; `None` where the pattern does not
/// compile.
pub uninterp spec fn regex_group_texts(pattern: Seq<char>, text: Seq<char>, group: usize) -> Option<
    Seq<Seq<char>>,
>;

/// Compiles `pattern` with `regex::Regex::new` and collects, over
/// `captures_iter(text)`, the text of capture group `group` of each match
/// (an empty text where the group did not participate). The matching is
/// only named.
#[verifier::external_body]
pub(crate) fn regex_captures(pattern: &str, text: &str, group: usize) -> (r: Option<Vec<String>>)
    ensures
        match r {
            Some(v) => regex_group_texts(pattern@, text@, group) == Some(
                Seq::new(v@.len(), |i: int| v@[i]@),
            ),
            None => regex_group_texts(pattern@, text@, group) is None,
        },
{
    match regex::Regex::new(pattern) {
        Ok(re) => Some(
            re.captures_iter(text).map(
                |c| c.get(group).map(|m| m.as_str().to_string()).unwrap_or_default(),
            ).collect(),
        ),
        Err(_) => None,
    }
}

// ---------------------------------------------------------------------------
// URLs (url)
// ---------------------------------------------------------------------------

/// The parts of a parsed URL that the library reads.
pub struct UrlParts {
    /// `Url::host_str`.
    pub host: Option<String>,
    /// `Url::path_segments`, collected.
    pub path_segments: Option<Vec<String>>,
    /// `Url::query_pairs`, decoded and collected.
    pub query_pairs: Vec<(String, String)>,
    /// `Url::domain`.
    pub domain: Option<String>,
}

/// Mathematical value of `UrlParts`.
pub struct UrlPartsView {
    pub host: Option<Seq<char>>,
    pub path_segments: Option<Seq<Seq<char>>>,
    pub query_pairs: Seq<(Seq<char>, Seq<char>)>,
    pub domain: Option<Seq<char>>,
}

pub open spec fn opt_string_view(s: &Option<String>) -> Option<Seq<char>> {
    match s {
        Some(x) => Some(x@),
        None => None,
    }
}

pub open spec fn pair_views(v: Seq<(String, String)>) -> Seq<(Seq<char>, Seq<char>)> {
    Seq::new(v.len(), |i: int| (v[i].0@, v[i].1@))
}

impl View for UrlParts {
    type V = UrlPartsView;

    open spec fn view(&self) -> UrlPartsView {
        UrlPartsView {
            host: match self.host {
                Some(h) => Some(h@),
                None => None,
            },
            path_segments: match self.path_segments {
                Some(v) => Some(Seq::new(v@.len(), |i: int| v@[i]@)),
                None => None,
            },
            query_pairs: pair_views(self.query_pairs@),
            domain: match self.domain {
                Some(d) => Some(d@),
                None => None,
            },
        }
    }
}

/// What `url::Url::parse` yields for a string: `None` where it fails.
pub uninterp spec fn parsed_url(raw: Seq<char>) -> Option<UrlPartsView>;

/// Parses with `url::Url::parse` and reads the host, path segments, decoded
/// query pairs and domain of the result. What parsing accepts and how it
/// normalizes is only named.
#[verifier::external_body]
pub(crate) fn parse_url(raw: &str) -> (r: Option<UrlParts>)
    ensures
        match r {
            Some(p) => parsed_url(raw@) == Some(p@),
            None => parsed_url(raw@) is None,
        },
{
    match url::Url::parse(raw) {
        Ok(u) => Some(UrlParts {
            host: u.host_str().map(|h| h.to_string()),
            path_segments: u.path_segments().map(|s| s.map(|x| x.to_string()).collect()),
            query_pairs: u.query_pairs().into_owned().collect(),
            domain: u.domain().map(|d| d.to_string()),
        }),
        Err(_) => None,
    }
}

/// Serialization (`Url::to_string`) of `raw` parsed by `url::Url::parse`;
/// `None` where parsing fails.
pub uninterp spec fn serialized_url(raw: Seq<char>) -> Option<Seq<char>>;

/// Parses with `url::Url::parse` and serializes the result. The
/// serialization is only named; it succeeds exactly where parsing does.
#[verifier::external_body]
pub(crate) fn serialize_url(raw: &str) -> (r: Option<String>)
    ensures
        opt_string_view(&r) == serialized_url(raw@),
        r is Some <==> parsed_url(raw@) is Some,
{
    match url::Url::parse(raw) {
        Ok(u) => Some(u.to_string()),
        Err(_) => None,
    }
}

/// `raw` parsed by `url::Url::parse`, then `rel` resolved against it with
/// `Url::join`, serialized; `None` where either step fails.
pub uninterp spec fn url_joined(base: Seq<char>, rel: Seq<char>) -> Option<Seq<char>>;

/// Resolves `rel` against `base` with `url::Url::parse` and `Url::join`
/// and serializes the result. The resolution is only named; it fails
/// where `base` does not parse.
#[verifier::external_body]
pub(crate) fn join_url(base: &str, rel: &str) -> (r: Option<String>)
    ensures
        opt_string_view(&r) == url_joined(base@, rel@),
        parsed_url(base@) is None ==> r is None,
{
    match url::Url::parse(base) {
        Ok(b) => match b.join(rel) {
            Ok(u) => Some(u.to_string()),
            Err(_) => None,
        },
        Err(_) => None,
    }
}

/// `raw` parsed by `url::Url`, its query cleared and replaced by the pairs
/// (`query_pairs_mut().clear().extend_pairs(..)`), serialized.
pub uninterp spec fn url_query_replaced(raw: Seq<char>, pairs: Seq<(Seq<char>, Seq<char>)>) -> Option<
    Seq<char>,
>;

/// Parses `raw` with `url::Url::parse`, replaces its query by the pairs and
/// serializes. The serialization is only named; it succeeds exactly where
/// parsing does.
#[verifier::external_body]
pub(crate) fn replace_url_query(raw: &str, pairs: &Vec<(String, String)>) -> (r: Option<String>)
    ensures
        opt_string_view(&r) == url_query_replaced(raw@, pair_views(pairs@)),
        r is Some <==> parsed_url(raw@) is Some,
{
    match url::Url::parse(raw) {
        Ok(mut u) => {
            u.query_pairs_mut().clear().extend_pairs(pairs.iter());
            Some(u.to_string())
        },
        Err(_) => None,
    }
}

/// Serialization of `raw`, parsed by `url::Url`, with its fragment removed
/// and its query replaced by the given pairs.
pub uninterp spec fn url_rebuilt(raw: Seq<char>, pairs: Seq<(Seq<char>, Seq<char>)>) -> Option<
    Seq<char>,
>;

/// Parses `raw` with `url::Url::parse`, clears the fragment
/// (`set_fragment(None)`), clears the query and appends the pairs in order
/// (`query_pairs_mut().clear().extend_pairs(..)`), and serializes. The
/// serialization is only named; the contract states that it succeeds
/// exactly where parsing does.
#[verifier::external_body]
pub(crate) fn rebuild_url(raw: &str, pairs: &Vec<(String, String)>) -> (r: Option<String>)
    ensures
        match r {
            Some(s) => url_rebuilt(raw@, pair_views(pairs@)) == Some(s@),
            None => url_rebuilt(raw@, pair_views(pairs@)) is None,
        },
        r is Some <==> parsed_url(raw@) is Some,
{
    match url::Url::parse(raw) {
        Ok(mut u) => {
            u.set_fragment(None);
            u.query_pairs_mut().clear().extend_pairs(pairs.iter());
            Some(u.to_string())
        },
        Err(_) => None,
    }
}

} // verus!
