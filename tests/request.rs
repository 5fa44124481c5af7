use bitvavo_api::auth::{prepare_request, signature};
use bitvavo_api::endpoint;
use bitvavo_api::types::CandleInterval;
use bitvavo_api::Credentials;

#[test]
fn paths_without_optional_parameters_have_no_query() {
    assert_eq!(endpoint::order_book("BTC-EUR", None), "BTC-EUR/book");
    assert_eq!(endpoint::trades("BTC-EUR", None, None, None, None, None), "BTC-EUR/trades");
    assert_eq!(
        endpoint::candles("BTC-EUR", CandleInterval::OneDay, None, None, None),
        "BTC-EUR/candles?interval=1d"
    );
}

#[test]
fn optional_parameters_follow_in_order() {
    assert_eq!(endpoint::order_book("BTC-EUR", Some(2)), "BTC-EUR/book?depth=2");
    assert_eq!(
        endpoint::trades("BTC-EUR", Some(10), Some(5), None, Some("a".to_string()), None),
        "BTC-EUR/trades?limit=10&start=5&tradeIdFrom=a"
    );
    assert_eq!(
        endpoint::trades("BTC-EUR", None, Some(1700000000000), Some(1700000000999), None, Some("z".to_string())),
        "BTC-EUR/trades?start=1700000000000&end=1700000000999&tradeIdTo=z"
    );
    assert_eq!(
        endpoint::candles("BTC-EUR", CandleInterval::FifteenMinutes, Some(1), None, Some(0)),
        "BTC-EUR/candles?interval=15m&limit=1&end=0"
    );
    assert_eq!(
        endpoint::candles("ETH-EUR", CandleInterval::TwelveHours, Some(u16::MAX), Some(u64::MAX), None),
        "ETH-EUR/candles?interval=12h&limit=65535&start=18446744073709551615"
    );
}

#[test]
fn fixed_paths() {
    assert_eq!(endpoint::time(), "time");
    assert_eq!(endpoint::assets(), "assets");
    assert_eq!(endpoint::asset("BTC"), "assets?symbol=BTC");
    assert_eq!(endpoint::markets(), "markets");
    assert_eq!(endpoint::market("BTC-EUR"), "markets?market=BTC-EUR");
    assert_eq!(endpoint::ticker_prices(), "ticker/price");
    assert_eq!(endpoint::ticker_price("BTC-EUR"), "ticker/price?market=BTC-EUR");
    assert_eq!(endpoint::ticker_books(), "ticker/book");
    assert_eq!(endpoint::ticker_book("BTC-EUR"), "ticker/book?market=BTC-EUR");
    assert_eq!(endpoint::tickers_24h(), "ticker/24h");
    assert_eq!(endpoint::ticker_24h("BTC-EUR"), "ticker/24h?market=BTC-EUR");
    assert_eq!(endpoint::account(), "account");
    assert_eq!(endpoint::balances(), "balance");
    assert_eq!(endpoint::balance("BTC"), "balance?symbol=BTC");
}

#[test]
fn signature_is_hmac_sha256_in_lower_hex() {
    assert_eq!(
        signature("bitvavo-secret", 1700000000000, "time").unwrap(),
        "06c188a4bf2d5af6643c0b4d1f18cdaa7b7647654121dd599b02c29f5957fc6e"
    );
    assert_eq!(
        signature("bitvavo-secret", 1548172481125, "markets?market=BTC-EUR").unwrap(),
        "0f3601d073e2e0ad26af95fce27c53125db8b1f6d659a1db7a09427e54eb88d4"
    );
}

#[test]
fn signed_request_carries_three_headers() {
    let c = Credentials::new("my-key".to_string(), "bitvavo-secret".to_string());
    let r = prepare_request(Some(&c), "time", 1700000000000).unwrap();
    assert_eq!(r.url, "https://api.bitvavo.com/v2/time");
    assert_eq!(
        r.headers,
        vec![
            ("Bitvavo-Access-Key".to_string(), "my-key".to_string()),
            ("Bitvavo-Access-Timestamp".to_string(), "1700000000000".to_string()),
            (
                "Bitvavo-Access-Signature".to_string(),
                "06c188a4bf2d5af6643c0b4d1f18cdaa7b7647654121dd599b02c29f5957fc6e".to_string()
            ),
        ]
    );
}

#[test]
fn signing_is_deterministic() {
    let c = Credentials::new("k".to_string(), "s".to_string());
    let a = prepare_request(Some(&c), "balance?symbol=BTC", 42).unwrap();
    let b = prepare_request(Some(&c), "balance?symbol=BTC", 42).unwrap();
    assert_eq!(a.url, b.url);
    assert_eq!(a.headers, b.headers);
    let later = prepare_request(Some(&c), "balance?symbol=BTC", 43).unwrap();
    assert_ne!(a.headers[2], later.headers[2]);
}

#[test]
fn unsigned_request_has_no_headers() {
    let r = prepare_request(None, "account", 1).unwrap();
    assert_eq!(r.url, "https://api.bitvavo.com/v2/account");
    assert!(r.headers.is_empty());
}

#[test]
fn wiped_credentials_are_empty() {
    let mut c = Credentials::new("my-key".to_string(), "bitvavo-secret".to_string());
    c.wipe();
    let r = prepare_request(Some(&c), "time", 1700000000000).unwrap();
    assert_eq!(r.headers[0].1, "");
    assert_eq!(r.headers[2].1, signature("", 1700000000000, "time").unwrap());
}
