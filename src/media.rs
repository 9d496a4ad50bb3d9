//! Media types and the exclusion rules that keep some of them uncompressed.
use vstd::prelude::*;

verus! {

/// A `top/sub` media type such as `text/html` or `image/*`.
pub struct MediaType {
    pub top: String,
    pub sub: String,
}

impl View for MediaType {
    type V = (Seq<char>, Seq<char>);

    open spec fn view(&self) -> (Seq<char>, Seq<char>) {
        (self.top@, self.sub@)
    }
}

/// A subtype of `*` matches every subtype of the same top type.
pub open spec fn is_wildcard(m: (Seq<char>, Seq<char>)) -> bool {
    m.1 == seq!['*']
}

/// Whether `candidate` falls under the exclusion rule `exclusion`.
pub open spec fn media_matches(candidate: (Seq<char>, Seq<char>), exclusion: (Seq<char>, Seq<char>)) -> bool {
    if is_wildcard(exclusion) {
        candidate.0 == exclusion.0
    } else {
        candidate == exclusion
    }
}

/// Whether a response of content type `content_type` is kept uncompressed.
pub open spec fn excluded(content_type: Option<(Seq<char>, Seq<char>)>, exclusions: Seq<(Seq<char>, Seq<char>)>) -> bool {
    match content_type {
        None => false,
        Some(c) => exists|i: int| 0 <= i < exclusions.len() && media_matches(c, #[trigger] exclusions[i]),
    }
}

pub open spec fn views(ms: Seq<MediaType>) -> Seq<(Seq<char>, Seq<char>)> {
    ms.map_values(|m: MediaType| m@)
}

pub open spec fn opt_view(m: Option<MediaType>) -> Option<(Seq<char>, Seq<char>)> {
    match m {
        None => None,
        Some(m) => Some(m@),
    }
}

impl MediaType {
    pub fn new(top: &str, sub: &str) -> (r: MediaType)
        ensures
            r@ == (top@, sub@),
    {
        MediaType { top: top.to_owned(), sub: sub.to_owned() }
    }
}

fn is_star(s: &String) -> (r: bool)
    ensures
        r == (s@ == seq!['*']),
{
    let t = s.as_str();
    if t.unicode_len() != 1 {
        return false;
    }
    let c = t.get_char(0);
    if c == '*' {
        assert(t@ =~= seq!['*']);
        true
    } else {
        false
    }
}

/// Whether `candidate` falls under the exclusion rule `exclusion`: a wildcard
/// rule matches on the top type alone, any other rule only an equal type.
pub fn matches(candidate: &MediaType, exclusion: &MediaType) -> (r: bool)
    ensures
        r == media_matches(candidate@, exclusion@),
{
    if is_star(&exclusion.sub) {
        candidate.top == exclusion.top
    } else {
        candidate.top == exclusion.top && candidate.sub == exclusion.sub
    }
}

/// Whether a response with the given content type must not be compressed.
/// A response without a content type is never excluded.
pub fn is_excluded(content_type: &Option<MediaType>, exclusions: &[MediaType]) -> (r: bool)
    ensures
        r == excluded(opt_view(*content_type), views(exclusions@)),
{
    match content_type.as_ref() {
        None => false,
        Some(c) => {
            let mut i: usize = 0;
            while i < exclusions.len()
                invariant
                    i <= exclusions.len(),
                    views(exclusions@).len() == exclusions@.len(),
                    opt_view(*content_type) == Some(c@),
                    forall|j: int| 0 <= j < i ==> !media_matches(c@, #[trigger] views(exclusions@)[j]),
                decreases exclusions.len() - i,
            {
                if matches(c, &exclusions[i]) {
                    assert(views(exclusions@).len() == exclusions@.len());
                    assert(media_matches(c@, views(exclusions@)[i as int]));
                    return true;
                }
                i = i + 1;
            }
            false
        },
    }
}

/// The media type that rocket reads from `s`, if it reads one.
pub uninterp spec fn rocket_media_type(s: Seq<char>) -> Option<(Seq<char>, Seq<char>)>;

/// Relies on `rocket::http::MediaType::parse_flexible`: it reads `top/sub`
/// (with optional parameters, which are dropped here) or one of rocket's
/// short names such as `json`, and its result depends on the text alone.
#[verifier::external_body]
fn parse_flexible(s: &str) -> (r: Option<MediaType>)
    ensures
        opt_view(r) == rocket_media_type(s@),
{
    match rocket::http::MediaType::parse_flexible(s) {
        Some(m) => Some(MediaType { top: m.top().as_str().to_owned(), sub: m.sub().as_str().to_owned() }),
        None => None,
    }
}

/// Every pattern of `patterns` is a media type.
pub open spec fn all_patterns_read(patterns: Seq<String>) -> bool {
    forall|i: int| 0 <= i < patterns.len() ==> (#[trigger] rocket_media_type(patterns[i]@)) is Some
}

/// The media types that `patterns` read as, in order.
pub open spec fn patterns_read(patterns: Seq<String>) -> Seq<(Seq<char>, Seq<char>)> {
    patterns.map_values(|p: String| rocket_media_type(p@)->0)
}

/// Reads a list of exclusion patterns, each `type/subtype`, `type/*` or one
/// of rocket's short names. A single pattern that is no media type makes the
/// whole list unusable.
pub fn parse_exclusions(patterns: &[String]) -> (r: Option<Vec<MediaType>>)
    ensures
        r is Some <==> all_patterns_read(patterns@),
        r matches Some(v) ==> views(v@) == patterns_read(patterns@),
{
    let mut out: Vec<MediaType> = Vec::new();
    let mut i: usize = 0;
    while i < patterns.len()
        invariant
            i <= patterns.len(),
            views(out@) == patterns_read(patterns@.subrange(0, i as int)),
            forall|j: int| 0 <= j < i ==> (#[trigger] rocket_media_type(patterns@[j]@)) is Some,
        decreases patterns.len() - i,
    {
        match parse_flexible(patterns[i].as_str()) {
            Some(m) => {
                let ghost before = out@;
                let ghost mv = m@;
                out.push(m);
                assert(out@ == before.push(m));
                assert(views(out@) =~= views(before).push(mv));
                assert(patterns@.subrange(0, i + 1) =~= patterns@.subrange(0, i as int).push(patterns@[i as int]));
                assert(patterns_read(patterns@.subrange(0, i + 1)) =~= views(out@));
            },
            None => {
                assert(rocket_media_type(patterns@[i as int]@) is None);
                return None;
            },
        }
        i = i + 1;
    }
    assert(patterns@.subrange(0, i as int) =~= patterns@);
    Some(out)
}

/// The types left uncompressed unless a custom list replaces them: already
/// compressed archives, images, video, WebAssembly and opaque binaries.
pub open spec fn default_exclusion_views() -> Seq<(Seq<char>, Seq<char>)> {
    seq![
        ("application"@, "gzip"@),
        ("application"@, "zip"@),
        ("image"@, "*"@),
        ("video"@, "*"@),
        ("application"@, "wasm"@),
        ("application"@, "octet-stream"@),
    ]
}

pub fn default_exclusions() -> (r: Vec<MediaType>)
    ensures
        views(r@) == default_exclusion_views(),
{
    let r = vec![
        MediaType::new("application", "gzip"),
        MediaType::new("application", "zip"),
        MediaType::new("image", "*"),
        MediaType::new("video", "*"),
        MediaType::new("application", "wasm"),
        MediaType::new("application", "octet-stream"),
    ];
    assert(views(r@) =~= default_exclusion_views());
    r
}

/// Against a wildcard rule `top/*`, a media type matches exactly when its
/// top type is that top type, whatever its subtype.
pub proof fn lemma_wildcard_matches_top(m: (Seq<char>, Seq<char>), e: (Seq<char>, Seq<char>))
    requires
        is_wildcard(e),
    ensures
        media_matches(m, e) == (m.0 == e.0),
        forall|sub: Seq<char>| media_matches(m, e) == #[trigger] media_matches((m.0, sub), e),
{
}

/// Against a rule that is no wildcard, a media type matches exactly when it
/// equals the rule.
pub proof fn lemma_exact_matches_equal(m: (Seq<char>, Seq<char>), e: (Seq<char>, Seq<char>))
    requires
        !is_wildcard(e),
    ensures
        media_matches(m, e) == (m == e),
{
}

/// A response without a content type is excluded by no list of rules.
pub proof fn lemma_no_content_type_never_excluded(exclusions: Seq<(Seq<char>, Seq<char>)>)
    ensures
        !excluded(None, exclusions),
{
}

} // verus!
