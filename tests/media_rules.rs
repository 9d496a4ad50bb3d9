use compression::media::{default_exclusions, is_excluded, parse_exclusions, MediaType};

fn mt(top: &str, sub: &str) -> MediaType {
    MediaType::new(top, sub)
}

#[test]
fn wildcard_rule_matches_any_subtype_of_its_top() {
    let rule = mt("image", "*");
    assert!(compression::media::matches(&mt("image", "png"), &rule));
    assert!(compression::media::matches(&mt("image", "svg+xml"), &rule));
    assert!(!compression::media::matches(&mt("text", "png"), &rule));
}

#[test]
fn exact_rule_matches_only_equal_type() {
    let rule = mt("application", "zip");
    assert!(compression::media::matches(&mt("application", "zip"), &rule));
    assert!(!compression::media::matches(&mt("application", "gzip"), &rule));
    assert!(!compression::media::matches(&mt("text", "zip"), &rule));
}

#[test]
fn matching_is_case_sensitive() {
    assert!(!compression::media::matches(&mt("Image", "png"), &mt("image", "*")));
    assert!(!compression::media::matches(&mt("application", "ZIP"), &mt("application", "zip")));
}

#[test]
fn star_subtype_in_candidate_is_not_a_wildcard() {
    assert!(!compression::media::matches(&mt("image", "*"), &mt("image", "png")));
}

#[test]
fn no_content_type_is_never_excluded() {
    assert!(!is_excluded(&None, &default_exclusions()));
    assert!(!is_excluded(&None, &[]));
    assert!(!is_excluded(&None, &[mt("text", "*")]));
}

#[test]
fn empty_exclusions_exclude_nothing() {
    assert!(!is_excluded(&Some(mt("image", "png")), &[]));
}

#[test]
fn default_exclusions_are_the_six_rules() {
    let d = default_exclusions();
    let pairs: Vec<(String, String)> = d.iter().map(|m| (m.top.clone(), m.sub.clone())).collect();
    let expected = [
        ("application", "gzip"),
        ("application", "zip"),
        ("image", "*"),
        ("video", "*"),
        ("application", "wasm"),
        ("application", "octet-stream"),
    ];
    assert_eq!(pairs.len(), expected.len());
    for (p, e) in pairs.iter().zip(expected.iter()) {
        assert_eq!(p.0, e.0);
        assert_eq!(p.1, e.1);
    }
}

#[test]
fn default_exclusions_cover_images_video_and_archives() {
    let d = default_exclusions();
    assert!(is_excluded(&Some(mt("image", "png")), &d));
    assert!(is_excluded(&Some(mt("video", "mp4")), &d));
    assert!(is_excluded(&Some(mt("application", "gzip")), &d));
    assert!(is_excluded(&Some(mt("application", "octet-stream")), &d));
    assert!(!is_excluded(&Some(mt("text", "html")), &d));
    assert!(!is_excluded(&Some(mt("application", "json")), &d));
}

#[test]
fn patterns_are_read_in_order() {
    let pats = vec!["video/*".to_string(), "application/x-xz".to_string()];
    let v = parse_exclusions(&pats).expect("both patterns are media types");
    assert_eq!(v.len(), 2);
    assert_eq!(v[0].top, "video");
    assert_eq!(v[0].sub, "*");
    assert_eq!(v[1].top, "application");
    assert_eq!(v[1].sub, "x-xz");
}

#[test]
fn malformed_pattern_rejects_the_list() {
    let pats = vec!["text/html".to_string(), "not a media type".to_string()];
    assert!(parse_exclusions(&pats).is_none());
}

#[test]
fn empty_pattern_list_reads_as_empty() {
    let v = parse_exclusions(&[]).expect("an empty list is valid");
    assert!(v.is_empty());
}
