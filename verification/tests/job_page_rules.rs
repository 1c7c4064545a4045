use jessy::job_page::{canonicalize_url, dedupe_key, hash_text, normalize_whitespace};

#[test]
fn canonicalizes_url() {
    let url = "https://www.linkedin.com/jobs/view/123/?utm_source=x&currentJobId=123#section";
    let got = canonicalize_url(url);
    assert_eq!(got, "https://www.linkedin.com/jobs/view/123");
}

#[test]
fn canonicalizes_linkedin_host_and_query_noise() {
    let url = "https://nl.linkedin.com/jobs/view/4375809535/?eBP=NON_CHARGEABLE_CHANNEL&trackingId=abc";
    let got = canonicalize_url(url);
    assert_eq!(got, "https://www.linkedin.com/jobs/view/4375809535");
}

#[test]
fn stable_dedupe() {
    let a = dedupe_key("https://a.com/jobs/1", "Acme", "Senior Engineer");
    let b = dedupe_key("https://a.com/jobs/1", " acme ", "Senior   Engineer");
    assert_eq!(a, b);
}

#[test]
fn dedupe_key_is_hash_of_normalized_fields() {
    assert_eq!(
        dedupe_key("https://a.com/jobs/1", "Acme", "Senior Engineer"),
        "630df0cb863ba60192a19f3babc164163a8a3461bfe5c4307c9e9b5fe4496c11"
    );
    assert_eq!(hash_text("a:b"), "6783a31eabf68ccc0660f935c0826282bdd2241f3a80a9f2d10d59aea9ebb5d8");
}

#[test]
fn canonicalize_keeps_job_query_keys_and_drops_others() {
    assert_eq!(
        canonicalize_url("https://jobs.example.com/view/?jk=42&utm=1#top"),
        "https://jobs.example.com/view/?jk=42"
    );
    assert_eq!(canonicalize_url("not a url"), "not a url");
}

#[test]
fn whitespace_is_collapsed() {
    assert_eq!(normalize_whitespace("  a \t b\n\nc  "), "a b c");
    assert_eq!(normalize_whitespace("   "), "");
}
