use compression::encoding::Encoding;

#[test]
fn standard_tokens_round_trip() {
    for t in ["chunked", "br", "gzip", "deflate", "compress", "identity", "trailers"] {
        assert_eq!(Encoding::parse(t).to_string(), t);
    }
}

#[test]
fn standard_tokens_parse_to_their_variants() {
    assert!(matches!(Encoding::parse("chunked"), Encoding::Chunked));
    assert!(matches!(Encoding::parse("br"), Encoding::Brotli));
    assert!(matches!(Encoding::parse("gzip"), Encoding::Gzip));
    assert!(matches!(Encoding::parse("deflate"), Encoding::Deflate));
    assert!(matches!(Encoding::parse("compress"), Encoding::Compress));
    assert!(matches!(Encoding::parse("identity"), Encoding::Identity));
    assert!(matches!(Encoding::parse("trailers"), Encoding::Trailers));
}

#[test]
fn unknown_token_is_kept_verbatim() {
    for t in ["zstd", "GZIP", " gzip", "", "x-custom, br"] {
        match Encoding::parse(t) {
            Encoding::EncodingExt(s) => assert_eq!(s, t),
            _ => panic!("{:?} should be an extension", t),
        }
        assert_eq!(Encoding::parse(t).to_string(), t);
    }
}

#[test]
fn formats_each_variant() {
    assert_eq!(Encoding::Brotli.to_string(), "br");
    assert_eq!(Encoding::Gzip.to_string(), "gzip");
    assert_eq!(Encoding::EncodingExt("zstd".to_string()).to_string(), "zstd");
}

#[test]
fn from_str_never_fails() {
    let e: Encoding = "deflate".parse().unwrap();
    assert!(matches!(e, Encoding::Deflate));
    let e: Encoding = "whatever".parse().unwrap();
    assert!(matches!(e, Encoding::EncodingExt(ref s) if s == "whatever"));
}
