//! The response as this library sees it, and the step that swaps its plain
//! body for a compressed one.
use vstd::prelude::*;
use crate::encoding::Encoding;
use crate::media::{MediaType, opt_view, views};
use crate::negotiate::{chosen_encoding, decide};

verus! {

/// The body of a response, a lazy producer of bytes of type `B`.
pub enum Body<B> {
    /// The bytes of `B` as they are.
    Plain(B),
    /// The bytes of `B`, gzip-compressed as they are read.
    Gzip(B),
}

/// What the compression step reads and changes of an outgoing response.
pub struct Response<B> {
    pub content_type: Option<MediaType>,
    pub content_encoding: Option<String>,
    pub body: Option<Body<B>>,
}

impl<B> Response<B> {
    /// A compressed body always goes with the header that names its encoding.
    pub open spec fn wf(&self) -> bool {
        (self.body matches Some(Body::Gzip(_))) ==> (self.content_encoding matches Some(h) && h@ == "gzip"@)
    }

    /// The encoding that the response gets.
    pub open spec fn chosen(&self, accept: Seq<String>, exclusions: Seq<MediaType>, gzip_enabled: bool) -> Option<Encoding> {
        chosen_encoding(accept, self.content_encoding is Some, opt_view(self.content_type), views(exclusions), gzip_enabled)
    }

    /// The response with its plain body `b` wrapped for gzip and the header
    /// set to match.
    pub open spec fn gzipped(self, b: B, header: String) -> bool {
        &&& self.body == Some(Body::Gzip(b))
        &&& self.content_encoding == Some(header)
        &&& header@ == "gzip"@
    }
}

/// Compresses the response's body when the request and the response allow
/// it. The body is wrapped and the `Content-Encoding` header set together,
/// or the response is left exactly as it was; a response without a body is
/// left as it was.
pub fn compress_response<B>(accept: &[String], response: &mut Response<B>, exclusions: &[MediaType], gzip_enabled: bool)
    requires
        old(response).wf(),
    ensures
        final(response).wf(),
        final(response).content_type == old(response).content_type,
        (old(response).chosen(accept@, exclusions@, gzip_enabled) is Some && old(response).body is Some)
            ==> exists|b: B, h: String|
            old(response).body == Some(Body::Plain(b)) && final(response).gzipped(b, h),
        !(old(response).chosen(accept@, exclusions@, gzip_enabled) is Some && old(response).body is Some)
            ==> *final(response) == *old(response),
{
    let encoding = decide(accept, response.content_encoding.is_some(), &response.content_type, exclusions, gzip_enabled);
    match encoding {
        Some(enc) => {
            let body = response.body.take();
            match body {
                Some(Body::Plain(b)) => {
                    let ghost plain = b;
                    let header = enc.to_string();
                    response.body = Some(Body::Gzip(b));
                    response.content_encoding = Some(header);
                    assert(response.gzipped(plain, header));
                },
                other => {
                    response.body = other;
                },
            }
        },
        None => {},
    }
}

} // verus!
