//! Producing the compressed body: the plain bytes are run through gzip, and
//! the outcome becomes a sequence of units, each a chunk of bytes or a failure.
use std::io::Read;
use vstd::prelude::*;

verus! {

#[verifier::external_type_specification]
#[verifier::external_body]
pub struct ExIoError(std::io::Error);

/// The gzip stream that flate2 produces for `data` at its default level.
pub uninterp spec fn gzip_of(data: Seq<u8>) -> Seq<u8>;

/// Relies on `flate2::read::GzEncoder` at `flate2::Compression::default()`,
/// read to the end: its header carries no time stamp, file name or comment,
/// so the bytes depend on `data` alone. Reading never fails here: a slice
/// reader cannot fail, and the encoder reports an error only for a corrupt
/// or incomplete stream on the decoding side, or for misuse of the backend
/// that `GzEncoder` itself never makes.
#[verifier::external_body]
fn gzip(data: &[u8]) -> (r: Result<Vec<u8>, std::io::Error>)
    ensures
        r is Ok,
        r is Ok ==> r->Ok_0@ == gzip_of(data@),
{
    let mut encoder = flate2::read::GzEncoder::new(data, flate2::Compression::default());
    let mut buf = Vec::new();
    encoder.read_to_end(&mut buf).map(|_| buf)
}

/// A failure met while producing a compressed body.
pub struct CompressError {
    pub error: std::io::Error,
}

/// The body that the outcome of one compression pass gives: a single unit,
/// the compressed bytes or the failure.
pub open spec fn units_of(result: Result<Vec<u8>, std::io::Error>) -> Seq<Result<Vec<u8>, CompressError>> {
    match result {
        Ok(v) => seq![Ok(v)],
        Err(e) => seq![Err(CompressError { error: e })],
    }
}

/// Turns the outcome of a compression pass into body units; a failure is
/// surfaced as the one unit, to be seen by whoever reads the body.
pub fn into_units(result: Result<Vec<u8>, std::io::Error>) -> (r: Vec<Result<Vec<u8>, CompressError>>)
    ensures
        r@ == units_of(result),
{
    let unit = match result {
        Ok(v) => Ok(v),
        Err(e) => Err(CompressError { error: e }),
    };
    let r = vec![unit];
    assert(r@ =~= units_of(result));
    r
}

/// Gzip-compresses the whole plain body, given the outcome of reading it.
/// The result is exactly one unit: the gzip stream of the bytes read, or,
/// when reading failed, that failure.
pub fn gzip_body(plain: Result<Vec<u8>, std::io::Error>) -> (r: Vec<Result<Vec<u8>, CompressError>>)
    ensures
        plain is Ok ==> r@.len() == 1 && r@[0] is Ok && r@[0]->Ok_0@ == gzip_of(plain->Ok_0@),
        plain is Err ==> r@ == units_of(plain),
{
    match plain {
        Ok(bytes) => {
            let result = gzip(bytes.as_slice());
            into_units(result)
        },
        Err(e) => into_units(Err(e)),
    }
}

} // verus!
