use edge_router::codec::decode;
use edge_router::codec::encode;
use edge_router::codec::DecodeError;
use edge_router::codec::RoutingValue;

fn rv(permanent: bool, append_path: bool, fetch: bool, url: &str) -> RoutingValue {
    RoutingValue { permanent, append_path, fetch, url: url.to_string() }
}

#[test]
fn decode_v0_reads_literal_fields() {
    assert_eq!(
        decode("000:t:f:https://dest.example/x"),
        Ok(rv(true, false, false, "https://dest.example/x"))
    );
    assert_eq!(decode("000:f:t:u"), Ok(rv(false, true, false, "u")));
}

#[test]
fn decode_v0_never_sets_fetch() {
    let v = decode("000:t:t:https://dest.example").unwrap();
    assert!(!v.fetch);
}

#[test]
fn decode_v1_reads_all_four_fields() {
    assert_eq!(
        decode("001:f:t:t:https://origin.example/api"),
        Ok(rv(false, true, true, "https://origin.example/api"))
    );
    assert_eq!(decode("001:t:f:f:u"), Ok(rv(true, false, false, "u")));
}

#[test]
fn decode_url_keeps_colons_and_slashes() {
    assert_eq!(decode("001:t:f:f:https://h:8080/a:b").unwrap().url, "https://h:8080/a:b");
    assert_eq!(decode("000:t:f:a:b/c").unwrap().url, "a:b/c");
}

#[test]
fn decode_rejects_unsupported_versions() {
    assert_eq!(decode("002:t:f:u"), Err(DecodeError::UnsupportedVersion));
    assert_eq!(decode("010:t:f:u"), Err(DecodeError::UnsupportedVersion));
    assert_eq!(decode("100:t:f:u"), Err(DecodeError::UnsupportedVersion));
    assert_eq!(decode("999:t:f:u"), Err(DecodeError::UnsupportedVersion));
}

#[test]
fn decode_rejects_bad_version_field() {
    assert_eq!(decode(""), Err(DecodeError::InvalidVersion));
    assert_eq!(decode("00"), Err(DecodeError::InvalidVersion));
    assert_eq!(decode("0a0:t:f:u"), Err(DecodeError::InvalidVersion));
    assert_eq!(decode("-01:t:f:u"), Err(DecodeError::InvalidVersion));
}

#[test]
fn decode_rejects_truncated_entries() {
    assert_eq!(decode("000"), Err(DecodeError::TruncatedEntry));
    assert_eq!(decode("000:t"), Err(DecodeError::TruncatedEntry));
    assert_eq!(decode("001:t:f"), Err(DecodeError::TruncatedEntry));
}

#[test]
fn decode_rejects_invalid_flags() {
    assert_eq!(decode("000:x:f:u"), Err(DecodeError::InvalidFlag));
    assert_eq!(decode("000:t:1:u"), Err(DecodeError::InvalidFlag));
    assert_eq!(decode("001:t:f:q:u"), Err(DecodeError::InvalidFlag));
}

#[test]
fn decode_rejects_missing_url() {
    assert_eq!(decode("000:t:f"), Err(DecodeError::MissingUrl));
    assert_eq!(decode("000:t:f:"), Err(DecodeError::MissingUrl));
    assert_eq!(decode("001:t:f:t"), Err(DecodeError::MissingUrl));
    assert_eq!(decode("001:t:f:t:"), Err(DecodeError::MissingUrl));
}

#[test]
fn encode_writes_version_one_entries() {
    assert_eq!(encode(&rv(true, false, true, "https://o/x")), "001:t:f:t:https://o/x");
    assert_eq!(encode(&rv(false, true, false, "u")), "001:f:t:f:u");
}

#[test]
fn encode_decode_round_trip() {
    let values = vec![
        rv(false, false, false, "https://dest.example"),
        rv(true, false, false, "u"),
        rv(false, true, false, "https://h:8080/a:b"),
        rv(true, true, true, "https://origin.example/api"),
    ];
    for v in values {
        assert_eq!(decode(&encode(&v)), Ok(v.clone()));
    }
}
