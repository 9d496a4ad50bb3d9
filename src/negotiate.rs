//! Deciding whether a response is compressed, and with which encoding.
use vstd::prelude::*;
use crate::encoding::Encoding;
use crate::media::{MediaType, excluded, is_excluded, opt_view, views};
use crate::text::{split_commas, str_eq, trim, trimmed_range};

verus! {

/// One `Accept-Encoding` value lists `enc` among its comma-separated,
/// trimmed tokens.
pub open spec fn header_lists(h: Seq<char>, enc: Seq<char>) -> bool {
    exists|k: int| 0 <= k < split_commas(h).len() && trim(#[trigger] split_commas(h)[k]) == enc
}

/// Some `Accept-Encoding` value of the request lists `enc`.
pub open spec fn request_accepts(headers: Seq<String>, enc: Seq<char>) -> bool {
    exists|i: int| 0 <= i < headers.len() && header_lists(#[trigger] headers[i]@, enc)
}

fn piece_is(h: &str, lo: usize, hi: usize, enc: &str) -> (r: bool)
    requires
        lo <= hi <= h@.len(),
    ensures
        r == (trim(h@.subrange(lo as int, hi as int)) == enc@),
{
    let (a, b) = trimmed_range(h, lo, hi);
    str_eq(h.substring_char(a, b), enc)
}

/// Whether the `Accept-Encoding` value `h` lists `enc`, matched exactly after
/// trimming each comma-separated token.
pub fn header_lists_encoding(h: &str, enc: &str) -> (r: bool)
    ensures
        r == header_lists(h@, enc@),
{
    let n = h.unicode_len();
    let mut start: usize = 0;
    let mut i: usize = 0;
    let mut found = false;
    let ghost mut done: Seq<Seq<char>> = Seq::empty();
    assert(h@.subrange(0, 0) =~= Seq::<char>::empty());
    while i < n
        invariant
            n == h@.len(),
            start <= i <= n,
            split_commas(h@.subrange(0, i as int)) == done.push(h@.subrange(start as int, i as int)),
            found == exists|k: int| 0 <= k < done.len() && trim(#[trigger] done[k]) == enc@,
        decreases n - i,
    {
        let c = h.get_char(i);
        let ghost prev = h@.subrange(0, i as int);
        assert(h@.subrange(0, i + 1).drop_last() =~= prev);
        assert(h@.subrange(0, i + 1).last() == c);
        if c == ',' {
            let hit = piece_is(h, start, i, enc);
            proof {
                let piece = h@.subrange(start as int, i as int);
                let old_done = done;
                done = done.push(piece);
                assert(h@.subrange((i + 1) as int, (i + 1) as int) =~= Seq::<char>::empty());
                assert(done[old_done.len() as int] == piece);
                assert forall|k: int| 0 <= k < old_done.len() implies done[k] == old_done[k] by {}
            }
            found = found || hit;
            start = i + 1;
        } else {
            assert(h@.subrange(start as int, i as int).push(c) =~= h@.subrange(start as int, i + 1));
            assert(done.push(h@.subrange(start as int, i as int)).update(
                done.len() as int,
                h@.subrange(start as int, i + 1),
            ) =~= done.push(h@.subrange(start as int, i + 1)));
        }
        i = i + 1;
    }
    let hit = piece_is(h, start, n, enc);
    proof {
        assert(h@.subrange(0, n as int) =~= h@);
        let all = done.push(h@.subrange(start as int, n as int));
        assert(all[done.len() as int] == h@.subrange(start as int, n as int));
        assert forall|k: int| 0 <= k < done.len() implies all[k] == done[k] by {}
    }
    found || hit
}

/// Whether any of the request's `Accept-Encoding` values lists `enc`.
pub fn accepts_encoding(accept: &[String], enc: &str) -> (r: bool)
    ensures
        r == request_accepts(accept@, enc@),
{
    let mut i: usize = 0;
    while i < accept.len()
        invariant
            i <= accept.len(),
            forall|j: int| 0 <= j < i ==> !header_lists(#[trigger] accept@[j]@, enc@),
        decreases accept.len() - i,
    {
        if header_lists_encoding(accept[i].as_str(), enc) {
            assert(header_lists(accept@[i as int]@, enc@));
            return true;
        }
        i = i + 1;
    }
    false
}

/// The encoding to apply to a response, if any: none when the response is
/// already encoded or its content type is excluded; gzip when it is enabled
/// and the request accepts it; none otherwise.
pub open spec fn chosen_encoding(
    accept: Seq<String>,
    already_encoded: bool,
    content_type: Option<(Seq<char>, Seq<char>)>,
    exclusions: Seq<(Seq<char>, Seq<char>)>,
    gzip_enabled: bool,
) -> Option<Encoding> {
    if already_encoded {
        None
    } else if excluded(content_type, exclusions) {
        None
    } else if gzip_enabled && request_accepts(accept, "gzip"@) {
        Some(Encoding::Gzip)
    } else {
        None
    }
}

/// Decides which encoding, if any, a response gets. At most one encoding is
/// chosen: encodings are never layered.
pub fn decide(
    accept: &[String],
    already_encoded: bool,
    content_type: &Option<MediaType>,
    exclusions: &[MediaType],
    gzip_enabled: bool,
) -> (r: Option<Encoding>)
    ensures
        r == chosen_encoding(accept@, already_encoded, opt_view(*content_type), views(exclusions@), gzip_enabled),
{
    if already_encoded {
        return None;
    }
    if is_excluded(content_type, exclusions) {
        return None;
    }
    if gzip_enabled && accepts_encoding(accept, "gzip") {
        Some(Encoding::Gzip)
    } else {
        None
    }
}

} // verus!
