use base64::Engine;
use fixclient::HmacSHA256Base64Utils::{
    hex_hmac_sha256, hex_hmac_sha256_base64, hex_hmac_sha384, hex_hmac_sha512, hex_sha512,
    map_to_query_string, map_to_query_string_bian, map_to_query_string_huobi,
    map_to_query_string_new, sign, sign_cb, sign_cb_checked,
};

const KEY: &str = "Jefe";
const DATA: &str = "what do ya want for nothing?";

#[test]
fn hmac_sha256_matches_known_vector() {
    assert_eq!(
        hex_hmac_sha256(KEY, DATA),
        "5bdcc146bf60754e6a042426089575c75a003f089d2739839dec58b964ec3843"
    );
}

#[test]
fn hmac_sha384_matches_known_vector() {
    assert_eq!(
        hex_hmac_sha384(KEY, DATA),
        "af45d2e376484031617f78d2b58a6b1b9c7ef464f5a01b47e42ec3736322445e8e2240ca5e69e2c78b3239ecfab21649"
    );
}

#[test]
fn hmac_sha512_matches_known_vector() {
    assert_eq!(
        hex_hmac_sha512(KEY, DATA),
        "164b7a7bfcf819e2e395fbe73b56e0a387bd64222e831fd610270cd7ea2505549758bf75c05a994a6d034f65f8f0e6fdcaeab1a34d4a6b4b636e070a38bce737"
    );
}

#[test]
fn sha512_matches_known_vector() {
    assert_eq!(
        hex_sha512("abc"),
        "ddaf35a193617abacc417349ae20413112e6fa4e89a97ea20a9eeee64b55d39a2192992a274fc1a836ba3c23a3feebbd454d4423643ce80e2a9ac94fa54ca49f"
    );
}

#[test]
fn base64_signature_carries_the_same_digest_as_hex() {
    let b64 = hex_hmac_sha256_base64(KEY, DATA);
    let from_b64 = base64::engine::general_purpose::STANDARD
        .decode(&b64)
        .unwrap();
    let from_hex = hex::decode(hex_hmac_sha256(KEY, DATA)).unwrap();
    assert_eq!(from_b64, from_hex);
}

#[test]
fn sign_builds_the_documented_pre_hash() {
    let sig = sign("1618", "get", "/orders", "a=1&b=2", "{}", "secret7");
    let expected = hex_hmac_sha256_base64("secret7", "1618GET/orders?a=1&b=2{}");
    assert_eq!(sig, expected);
}

#[test]
fn sign_omits_separator_for_empty_query_and_body() {
    let sig = sign("1618", "post", "/orders", "", "", "secret7");
    let expected = hex_hmac_sha256_base64("secret7", "1618POST/orders");
    assert_eq!(sig, expected);
}

#[test]
fn sign_cb_decodes_the_secret_first() {
    // "SmVmZQ==" is the standard base64 encoding of "Jefe": signing with the
    // encoded secret must agree with signing with the raw one.
    let a = sign_cb("1618", "get", "/v2/accounts", "", "", "SmVmZQ==");
    let b = sign("1618", "get", "/v2/accounts", "", "", "Jefe");
    assert_eq!(a, b);
}

#[test]
fn sign_cb_checked_rejects_invalid_base64() {
    assert!(sign_cb_checked("1618", "get", "/x", "", "", "!!!not-base64!!!").is_none());
    let some = sign_cb_checked("1618", "get", "/x", "", "", "SmVmZQ==").unwrap();
    assert_eq!(some, sign_cb("1618", "get", "/x", "", "", "SmVmZQ=="));
}

fn pairs(items: &[(&str, &str)]) -> Vec<(String, String)> {
    items
        .iter()
        .map(|(k, v)| (k.to_string(), v.to_string()))
        .collect()
}

#[test]
fn query_string_appends_amp_key_value() {
    let map = pairs(&[("a", "1"), ("b", "2")]);
    assert_eq!(map_to_query_string("x".to_string(), &map), "x&a=1&b=2");
    assert_eq!(map_to_query_string("x".to_string(), &pairs(&[])), "x");
}

#[test]
fn query_string_new_joins_without_trailing_separator() {
    let map = pairs(&[("a", "1"), ("b", "2")]);
    assert_eq!(map_to_query_string_new(&map), "a=1&b=2");
    assert_eq!(map_to_query_string_new(&pairs(&[])), "");
}

#[test]
fn query_string_bian_puts_timestamp_and_recv_window_first() {
    let map = pairs(&[("symbol", "BTCUSDT")]);
    assert_eq!(
        map_to_query_string_bian(&map, "5000", "1618"),
        "timestamp=1618&recvWindow=5000&symbol=BTCUSDT"
    );
}

#[test]
fn query_string_huobi_appends_in_place() {
    let mut temp = String::new();
    map_to_query_string_huobi(&mut temp, &pairs(&[("a", "1"), ("b", "2")]));
    assert_eq!(temp, "a=1&b=2");
}

#[test]
fn query_string_huobi_pops_even_with_no_pairs() {
    // With no pairs the final separator removal shortens the caller's
    // buffer itself by one character.
    let mut temp = "ab".to_string();
    map_to_query_string_huobi(&mut temp, &pairs(&[]));
    assert_eq!(temp, "a");
}
