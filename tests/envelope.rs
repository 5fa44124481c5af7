use bitvavo_api::response::response_from_request;
use bitvavo_api::text::{dec_text, parse_u64};
use bitvavo_api::types::{
    Order, OrderType, SelfTradePrevention, TickerPrice, TimeInForce, TradeSide, WithdrawOrder,
};
use bitvavo_api::{CodecError, Error, Json};

#[test]
fn error_status_yields_the_exchange_error() {
    let e = response_from_request::<TickerPrice>(
        404,
        br#"{"errorCode":205,"error":"Invalid market"}"#,
    )
    .unwrap_err();
    match e {
        Error::Bitvavo { code, message } => {
            assert_eq!(code, 205);
            assert_eq!(message, "Invalid market");
        },
        other => panic!("{:?}", other),
    }
}

#[test]
fn error_body_with_success_status_is_a_codec_error() {
    let e = response_from_request::<TickerPrice>(
        200,
        br#"{"errorCode":205,"error":"Invalid market"}"#,
    )
    .unwrap_err();
    match e {
        Error::Codec(CodecError::MissingField { field }) => assert_eq!(field, "market"),
        other => panic!("{:?}", other),
    }
}

#[test]
fn malformed_error_body_is_a_codec_error() {
    let e = response_from_request::<TickerPrice>(500, br#"{"error":"boom"}"#).unwrap_err();
    match e {
        Error::Codec(CodecError::MissingField { field }) => assert_eq!(field, "errorCode"),
        other => panic!("{:?}", other),
    }
    let e = response_from_request::<TickerPrice>(502, b"<html>bad gateway</html>").unwrap_err();
    assert!(matches!(e, Error::Codec(CodecError::Syntax { .. })));
}

#[test]
fn body_that_is_not_json_is_a_syntax_error() {
    let e = response_from_request::<TickerPrice>(200, b"{\"market\":").unwrap_err();
    match e {
        Error::Codec(CodecError::Syntax { message }) => assert!(!message.is_empty()),
        other => panic!("{:?}", other),
    }
}

#[test]
fn success_range_is_two_hundreds() {
    let ok = response_from_request::<TickerPrice>(299, br#"{"market":"A","price":"1"}"#).unwrap();
    assert_eq!(ok.price, Some("1".to_string()));
    let e = response_from_request::<TickerPrice>(300, br#"{"market":"A","price":"1"}"#)
        .unwrap_err();
    assert!(matches!(e, Error::Codec(CodecError::MissingField { .. })));
}

#[test]
fn error_messages() {
    let e = Error::Bitvavo { code: 205, message: "Invalid market".to_string() };
    assert_eq!(e.message(), "bitvavo: 205: Invalid market");
    let e = Error::Codec(CodecError::MissingField { field: "amount".to_string() });
    assert_eq!(e.message(), "codec: missing field `amount`");
    let e = Error::Codec(CodecError::InvalidValue {
        value: "bogus".to_string(),
        expected: "[trading, halted, auction]".to_string(),
    });
    assert_eq!(
        e.message(),
        "codec: invalid value: string \"bogus\", expected [trading, halted, auction]"
    );
    let e = Error::Codec(CodecError::InvalidType {
        what: "time".to_string(),
        expected: "an unsigned integer".to_string(),
    });
    assert_eq!(e.message(), "codec: invalid type for `time`: expected an unsigned integer");
    let e = Error::InvalidSecret(bitvavo_api::BadSecret::InvalidLength);
    assert_eq!(e.message(), "invalid secret: invalid length");
    let e = Error::Transport { message: "timed out".to_string() };
    assert_eq!(e.message(), "transport: timed out");
    let e = Error::UnknownAsset { symbol: "XXX".to_string() };
    assert_eq!(e.message(), "unknown asset: XXX");
}

#[test]
fn decimal_text() {
    assert_eq!(dec_text(0), "0");
    assert_eq!(dec_text(7), "7");
    assert_eq!(dec_text(1700000000000), "1700000000000");
    assert_eq!(dec_text(u64::MAX), "18446744073709551615");
    assert_eq!(parse_u64("0"), Some(0));
    assert_eq!(parse_u64("18446744073709551615"), Some(u64::MAX));
    assert_eq!(parse_u64("18446744073709551616"), None);
    assert_eq!(parse_u64("99999999999999999999x"), None);
    assert_eq!(parse_u64(""), None);
    assert_eq!(parse_u64("-1"), None);
    assert_eq!(parse_u64("1.5"), None);
}

fn member<'a>(j: &'a Json, k: usize) -> (&'a str, &'a Json) {
    match j {
        Json::Object(m) => (m[k].0.as_str(), &m[k].1),
        other => panic!("{:?}", other),
    }
}

fn text(j: &Json) -> &str {
    match j {
        Json::Str(s) => s.as_str(),
        other => panic!("{:?}", other),
    }
}

#[test]
fn order_wire_form() {
    let o = Order {
        market: "BTC-EUR".to_string(),
        side: TradeSide::Buy,
        order_type: OrderType::StopLossLimit,
        client_order_id: Some(0xa1a2a3a4b1b2c1c2d1d2d3d4d5d6d7d8),
        amount: Some("0.1".to_string()),
        amount_quote: None,
        price: Some("30000".to_string()),
        trigger_amount: None,
        trigger_type: None,
        trigger_reference: None,
        time_in_force: Some(TimeInForce::GoodTillCancelled),
        post_only: Some(true),
        self_trade_prevention: Some(SelfTradePrevention::DecrementAndCancel),
        disable_market_protection: false,
        response_required: true,
    };
    let j = o.to_json();
    assert_eq!(member(&j, 0).0, "market");
    assert_eq!(text(member(&j, 1).1), "buy");
    assert_eq!(text(member(&j, 2).1), "stopLossLimit");
    assert_eq!(member(&j, 3).0, "clientOrderId");
    assert_eq!(text(member(&j, 3).1), "a1a2a3a4-b1b2-c1c2-d1d2-d3d4d5d6d7d8");
    assert!(matches!(member(&j, 5).1, Json::Null));
    assert_eq!(text(member(&j, 10).1), "GTC");
    assert!(matches!(member(&j, 11).1, Json::Bool(true)));
    assert_eq!(text(member(&j, 12).1), "decrementAndCancel");
    assert_eq!(member(&j, 14).0, "responseRequired");
    assert!(matches!(member(&j, 14).1, Json::Bool(true)));
}

#[test]
fn withdraw_order_wire_form() {
    let w = WithdrawOrder {
        symbol: "BTC".to_string(),
        amount: "1".to_string(),
        address: "addr".to_string(),
        payment_id: None,
        internal: false,
        add_withdrawal_fee: true,
    };
    let j = w.to_json();
    assert_eq!(member(&j, 3).0, "paymentId");
    assert!(matches!(member(&j, 3).1, Json::Null));
    assert_eq!(member(&j, 5).0, "addWithdrawalFee");
    assert!(matches!(member(&j, 5).1, Json::Bool(true)));
}
