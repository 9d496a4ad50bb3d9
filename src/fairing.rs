//! The compression configuration that the host server consults once per
//! outgoing response.
use vstd::prelude::*;
use crate::media::{MediaType, default_exclusion_views, default_exclusions, views};
use crate::response::{Body, Response, compress_response};

verus! {

/// Compresses responses with gzip when the client accepts it, except those
/// whose content type is excluded.
pub struct Compression {
    /// The content types never compressed, fixed at startup.
    pub exclusions: Vec<MediaType>,
    /// Whether gzip may be used.
    pub gzip_enabled: bool,
}

impl Compression {
    /// Compression with gzip enabled and the default exclusions: archives,
    /// images, video, WebAssembly and opaque binaries.
    pub fn fairing() -> (r: Compression)
        ensures
            views(r.exclusions@) == default_exclusion_views(),
            r.gzip_enabled,
    {
        Compression { exclusions: default_exclusions(), gzip_enabled: true }
    }

    /// Compression with gzip enabled and `exclusions` in place of the
    /// defaults, which then no longer apply.
    pub fn with_exclusions(exclusions: Vec<MediaType>) -> (r: Compression)
        ensures
            r.exclusions@ == exclusions@,
            r.gzip_enabled,
    {
        Compression { exclusions, gzip_enabled: true }
    }

    /// Handles one outgoing response of a request whose `Accept-Encoding`
    /// values are `accept`: see [`compress_response`].
    pub fn on_response<B>(&self, accept: &[String], response: &mut Response<B>)
        requires
            old(response).wf(),
        ensures
            final(response).wf(),
            final(response).content_type == old(response).content_type,
            (old(response).chosen(accept@, self.exclusions@, self.gzip_enabled) is Some && old(response).body is Some)
                ==> exists|b: B, h: String|
                old(response).body == Some(Body::Plain(b)) && final(response).gzipped(b, h),
            !(old(response).chosen(accept@, self.exclusions@, self.gzip_enabled) is Some && old(response).body is Some)
                ==> *final(response) == *old(response),
    {
        compress_response(accept, response, self.exclusions.as_slice(), self.gzip_enabled);
    }
}

} // verus!
