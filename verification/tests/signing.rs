use coinex_client::signer::sign_with;
use coinex_client::text::{decimal_string, integer_string};
use coinex_client::{CoinexHttpClient, Error};

const BASE: &str = "https://api.coinex.com";
const NOW: u128 = 1_700_000_000_000;

fn client() -> CoinexHttpClient {
    CoinexHttpClient::new(BASE, "key", "secret").unwrap()
}

#[test]
fn sign_matches_a_known_tag() {
    let s = client().sign("GET", "/v2/assets/spot/balance", "", NOW).unwrap();
    assert_eq!(s, "0f1709ca92631a187d2ff47b83a1264bcbc051b9d7f6c4a28a4f9800447b257c");
}

#[test]
fn sign_with_takes_secret_and_text_as_utf8() {
    let s = sign_with("kéy", "POST", "/p", "{\"a\":\"ü\"}", 0);
    assert_eq!(s, "85ec7a460c09cd528923a4752bae46009a3491b402d13ba2f6dd70ebcf79c638");
}

#[test]
fn sign_is_deterministic_and_lowercase_hex() {
    let c = client();
    let a = c.sign("POST", "/v2/spot/order", "{\"market\":\"BTCUSDT\"}", NOW).unwrap();
    let b = c.sign("POST", "/v2/spot/order", "{\"market\":\"BTCUSDT\"}", NOW).unwrap();
    assert_eq!(a, b);
    assert_eq!(a.len(), 64);
    assert!(a.chars().all(|ch| matches!(ch, '0'..='9' | 'a'..='f')));
}

#[test]
fn sign_depends_on_the_secret() {
    let a = CoinexHttpClient::new(BASE, "key", "secret").unwrap();
    let b = CoinexHttpClient::new(BASE, "key", "secreu").unwrap();
    assert_ne!(a.sign("GET", "/p", "", NOW).unwrap(), b.sign("GET", "/p", "", NOW).unwrap());
}

#[test]
fn sign_changes_with_one_bit_of_the_method() {
    let c = client();
    // 'G' (0x47) and 'F' (0x46) differ in one bit.
    assert_ne!(c.sign("GET", "/p", "b", NOW).unwrap(), c.sign("FET", "/p", "b", NOW).unwrap());
}

#[test]
fn sign_changes_with_one_bit_of_the_path() {
    let c = client();
    // 'p' (0x70) and 'q' (0x71) differ in one bit.
    assert_ne!(c.sign("GET", "/p", "b", NOW).unwrap(), c.sign("GET", "/q", "b", NOW).unwrap());
}

#[test]
fn sign_changes_with_one_bit_of_the_body() {
    let c = client();
    // 'b' (0x62) and 'c' (0x63) differ in one bit.
    assert_ne!(c.sign("GET", "/p", "b", NOW).unwrap(), c.sign("GET", "/p", "c", NOW).unwrap());
}

#[test]
fn sign_changes_with_one_bit_of_the_timestamp() {
    let c = client();
    assert_ne!(c.sign("GET", "/p", "b", NOW).unwrap(), c.sign("GET", "/p", "b", NOW ^ 1).unwrap());
}

#[test]
fn sign_of_an_empty_body_is_not_that_of_null() {
    let c = client();
    let empty = c.sign("GET", "/v2/assets/spot/balance", "", NOW).unwrap();
    let null = c.sign("GET", "/v2/assets/spot/balance", "null", NOW).unwrap();
    let braces = c.sign("GET", "/v2/assets/spot/balance", "{}", NOW).unwrap();
    assert_ne!(empty, null);
    assert_ne!(empty, braces);
}

#[test]
fn empty_secret_is_refused_at_construction() {
    assert_eq!(CoinexHttpClient::new(BASE, "key", ""), Err(Error::Signing));
}

#[test]
fn bad_base_url_is_refused_at_construction() {
    assert_eq!(CoinexHttpClient::new("", "key", "secret"), Err(Error::InvalidUrl));
    assert_eq!(CoinexHttpClient::new("not a url", "key", "secret"), Err(Error::InvalidUrl));
    // The URL is looked at before the secret.
    assert_eq!(CoinexHttpClient::new("", "key", ""), Err(Error::InvalidUrl));
}

#[test]
fn base_url_is_kept_as_parsed() {
    let c = CoinexHttpClient::new("HTTPS://API.CoinEx.com", "key", "secret").unwrap();
    assert_eq!(c.base_url(), "https://api.coinex.com/");
    assert_eq!(c.key(), "key");
    assert_eq!(c.clone(), c);
}

#[test]
fn decimal_string_of_edge_values() {
    assert_eq!(decimal_string(0), "0");
    assert_eq!(decimal_string(9), "9");
    assert_eq!(decimal_string(10), "10");
    assert_eq!(decimal_string(1_700_000_000_000), "1700000000000");
    assert_eq!(decimal_string(u128::MAX), "340282366920938463463374607431768211455");
}

#[test]
fn integer_string_of_edge_values() {
    assert_eq!(integer_string(0), "0");
    assert_eq!(integer_string(-1), "-1");
    assert_eq!(integer_string(10), "10");
    assert_eq!(integer_string(i32::MAX), "2147483647");
    assert_eq!(integer_string(i32::MIN), "-2147483648");
}
