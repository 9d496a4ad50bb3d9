use compression::encoding::Encoding;
use compression::media::{default_exclusions, MediaType};
use compression::negotiate::{accepts_encoding, decide, header_lists_encoding};

fn headers(values: &[&str]) -> Vec<String> {
    values.iter().map(|v| v.to_string()).collect()
}

#[test]
fn header_tokens_are_trimmed_and_split() {
    assert!(header_lists_encoding("gzip", "gzip"));
    assert!(header_lists_encoding("deflate, gzip", "gzip"));
    assert!(header_lists_encoding("br,  gzip  ,deflate", "gzip"));
    assert!(header_lists_encoding("\tgzip\t", "gzip"));
    assert!(!header_lists_encoding("gzip;q=1.0", "gzip"));
    assert!(!header_lists_encoding("GZIP", "gzip"));
    assert!(!header_lists_encoding("", "gzip"));
    assert!(!header_lists_encoding("x-gzip", "gzip"));
}

#[test]
fn empty_token_between_commas() {
    assert!(header_lists_encoding("gzip,,br", ""));
    assert!(!header_lists_encoding("gzip,br", ""));
}

#[test]
fn any_header_value_may_list_the_encoding() {
    assert!(accepts_encoding(&headers(&["br", "deflate, gzip"]), "gzip"));
    assert!(!accepts_encoding(&headers(&["br", "deflate"]), "gzip"));
    assert!(!accepts_encoding(&[], "gzip"));
}

#[test]
fn decide_picks_gzip_for_text() {
    let ct = Some(MediaType::new("text", "html"));
    let r = decide(&headers(&["gzip"]), false, &ct, &default_exclusions(), true);
    assert!(matches!(r, Some(Encoding::Gzip)));
}

#[test]
fn decide_skips_already_encoded() {
    let ct = Some(MediaType::new("text", "html"));
    assert!(decide(&headers(&["gzip"]), true, &ct, &default_exclusions(), true).is_none());
}

#[test]
fn decide_skips_excluded_type() {
    let ct = Some(MediaType::new("image", "png"));
    assert!(decide(&headers(&["gzip"]), false, &ct, &default_exclusions(), true).is_none());
}

#[test]
fn decide_skips_when_gzip_disabled_or_not_accepted() {
    let ct = Some(MediaType::new("text", "html"));
    assert!(decide(&headers(&["gzip"]), false, &ct, &default_exclusions(), false).is_none());
    assert!(decide(&headers(&["br"]), false, &ct, &default_exclusions(), true).is_none());
}

#[test]
fn decide_compresses_without_content_type() {
    let r = decide(&headers(&["gzip"]), false, &None, &default_exclusions(), true);
    assert!(matches!(r, Some(Encoding::Gzip)));
}

#[test]
fn gzip_chosen_when_brotli_also_requested() {
    let ct = Some(MediaType::new("text", "html"));
    let r = decide(&headers(&["gzip, br"]), false, &ct, &default_exclusions(), true);
    assert!(matches!(r, Some(Encoding::Gzip)));
}
