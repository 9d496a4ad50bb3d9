//! The encoding tokens of HTTP's `Content-Encoding` and `Accept-Encoding`.
use vstd::prelude::*;
use crate::text::str_eq;

verus! {

/// An HTTP content coding: one of the seven standard tokens, or any other
/// token kept verbatim.
pub enum Encoding {
    /// The `chunked` encoding.
    Chunked,
    /// The `br` encoding.
    Brotli,
    /// The `gzip` encoding.
    Gzip,
    /// The `deflate` encoding.
    Deflate,
    /// The `compress` encoding.
    Compress,
    /// The `identity` encoding.
    Identity,
    /// The `trailers` encoding.
    Trailers,
    /// Some other encoding that is less common, can be any String.
    EncodingExt(String),
}

/// The textual token of an encoding.
pub open spec fn token_of(e: Encoding) -> Seq<char> {
    match e {
        Encoding::Chunked => "chunked"@,
        Encoding::Brotli => "br"@,
        Encoding::Gzip => "gzip"@,
        Encoding::Deflate => "deflate"@,
        Encoding::Compress => "compress"@,
        Encoding::Identity => "identity"@,
        Encoding::Trailers => "trailers"@,
        Encoding::EncodingExt(s) => s@,
    }
}

/// The standard encoding whose token is exactly `s`, if there is one.
pub open spec fn standard_encoding(s: Seq<char>) -> Option<Encoding> {
    if s == "chunked"@ {
        Some(Encoding::Chunked)
    } else if s == "br"@ {
        Some(Encoding::Brotli)
    } else if s == "gzip"@ {
        Some(Encoding::Gzip)
    } else if s == "deflate"@ {
        Some(Encoding::Deflate)
    } else if s == "compress"@ {
        Some(Encoding::Compress)
    } else if s == "identity"@ {
        Some(Encoding::Identity)
    } else if s == "trailers"@ {
        Some(Encoding::Trailers)
    } else {
        None
    }
}

/// `e` is what the token `s` parses to: its standard encoding, or else the
/// extension carrying `s` unchanged.
pub open spec fn parses_to(s: Seq<char>, e: Encoding) -> bool {
    match standard_encoding(s) {
        Some(f) => e == f,
        None => e is EncodingExt && e->EncodingExt_0@ == s,
    }
}

impl Encoding {
    /// Reads an encoding token. Matching is exact and case-sensitive; an
    /// unknown token becomes an extension value and is never an error.
    pub fn parse(s: &str) -> (r: Encoding)
        ensures
            parses_to(s@, r),
    {
        if str_eq(s, "chunked") {
            Encoding::Chunked
        } else if str_eq(s, "br") {
            Encoding::Brotli
        } else if str_eq(s, "gzip") {
            Encoding::Gzip
        } else if str_eq(s, "deflate") {
            Encoding::Deflate
        } else if str_eq(s, "compress") {
            Encoding::Compress
        } else if str_eq(s, "identity") {
            Encoding::Identity
        } else if str_eq(s, "trailers") {
            Encoding::Trailers
        } else {
            Encoding::EncodingExt(s.to_owned())
        }
    }

    /// The token of this encoding; an extension gives back its own text.
    pub fn to_string(&self) -> (r: String)
        ensures
            r@ == token_of(*self),
    {
        match self {
            Encoding::Chunked => String::from_str("chunked"),
            Encoding::Brotli => String::from_str("br"),
            Encoding::Gzip => String::from_str("gzip"),
            Encoding::Deflate => String::from_str("deflate"),
            Encoding::Compress => String::from_str("compress"),
            Encoding::Identity => String::from_str("identity"),
            Encoding::Trailers => String::from_str("trailers"),
            Encoding::EncodingExt(s) => s.clone(),
        }
    }
}

impl std::str::FromStr for Encoding {
    type Err = std::convert::Infallible;

    fn from_str(s: &str) -> Result<Encoding, std::convert::Infallible> {
        Ok(Encoding::parse(s))
    }
}

/// Formatting what a token parses to gives the token back, for every text:
/// the standard ones map to their own token, and any other is kept as is.
pub proof fn lemma_format_parse(s: Seq<char>, e: Encoding)
    requires
        parses_to(s, e),
    ensures
        token_of(e) == s,
        standard_encoding(s) is None ==> e is EncodingExt && e->EncodingExt_0@ == s,
{
}

/// Parsing the token of a standard encoding gives that encoding back.
pub proof fn lemma_parse_format(e: Encoding)
    requires
        !(e is EncodingExt),
    ensures
        parses_to(token_of(e), e),
{
    reveal_strlit("chunked");
    reveal_strlit("br");
    reveal_strlit("gzip");
    reveal_strlit("deflate");
    reveal_strlit("compress");
    reveal_strlit("identity");
    reveal_strlit("trailers");
    assert("chunked"@[0] == 'c' && "chunked"@[1] == 'h');
    assert("br"@[0] == 'b');
    assert("gzip"@[0] == 'g');
    assert("deflate"@[0] == 'd');
    assert("compress"@[0] == 'c' && "compress"@[1] == 'o');
    assert("identity"@[0] == 'i');
    assert("trailers"@[0] == 't');
}

} // verus!
