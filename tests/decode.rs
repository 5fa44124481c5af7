use bitvavo_api::json::Json;
use bitvavo_api::response::{first_balance, response_from_request};
use bitvavo_api::types::{
    Account, Asset, AssetStatus, Balance, Market, MarketStatus, OrderBook, OrderResponse,
    ServerTime, Ticker24h, TickerBook, TickerPrice, Trade, TradeSide, OHLCV, Quote,
};
use bitvavo_api::{CodecError, Error, FromJson};

fn quote(body: &str) -> Result<Quote, Error> {
    response_from_request::<Quote>(200, body.as_bytes())
}

fn codec(e: Error) -> CodecError {
    match e {
        Error::Codec(c) => c,
        other => panic!("expected a codec error, got {:?}", other),
    }
}

#[test]
fn time_response_yields_the_integer() {
    let t: ServerTime = response_from_request(200, br#"{"time": 1700000000000}"#).unwrap();
    assert_eq!(t.time, 1700000000000);
}

#[test]
fn time_that_is_not_an_integer_is_a_codec_error() {
    let e = response_from_request::<ServerTime>(200, br#"{"time": 1.5}"#).unwrap_err();
    match codec(e) {
        CodecError::InvalidType { what, .. } => assert_eq!(what, "time"),
        other => panic!("{:?}", other),
    }
}

fn market_json(status: &str) -> String {
    format!(
        r#"[{{"market":"BTC-EUR","status":"{status}","base":"BTC","quote":"EUR","pricePrecision":5,
        "minOrderInBaseAsset":"0.0001","minOrderInQuoteAsset":"5","maxOrderInBaseAsset":"1000",
        "maxOrderInQuoteAsset":"1000000","orderTypes":["market","limit"]}}]"#
    )
}

#[test]
fn market_status_trading_is_decoded() {
    let ms: Vec<Market> = response_from_request(200, market_json("trading").as_bytes()).unwrap();
    assert_eq!(ms.len(), 1);
    assert_eq!(ms[0].status, MarketStatus::Trading);
    assert_eq!(ms[0].pair, "BTC-EUR");
    assert_eq!(ms[0].price_precision, 5);
    assert_eq!(ms[0].order_types, vec!["market".to_string(), "limit".to_string()]);
}

#[test]
fn market_status_bogus_is_an_invalid_value() {
    let e = response_from_request::<Vec<Market>>(200, market_json("bogus").as_bytes()).unwrap_err();
    match codec(e) {
        CodecError::InvalidValue { value, expected } => {
            assert_eq!(value, "bogus");
            assert_eq!(expected, "[trading, halted, auction]");
        },
        other => panic!("{:?}", other),
    }
}

#[test]
fn quote_is_read_by_position() {
    let q = quote(r#"["21000.5","0.01"]"#).unwrap();
    assert_eq!(q.price, "21000.5");
    assert_eq!(q.amount, "0.01");
}

#[test]
fn quote_with_one_item_misses_the_amount() {
    match codec(quote(r#"["21000.5"]"#).unwrap_err()) {
        CodecError::MissingField { field } => assert_eq!(field, "amount"),
        other => panic!("{:?}", other),
    }
}

#[test]
fn quote_with_extra_items_is_accepted() {
    let q = quote(r#"["1","2","3"]"#).unwrap();
    assert_eq!(q.price, "1");
    assert_eq!(q.amount, "2");
}

#[test]
fn quote_that_is_an_object_is_refused() {
    match codec(quote(r#"{"price":"1"}"#).unwrap_err()) {
        CodecError::InvalidType { what, expected } => {
            assert_eq!(what, "Quote");
            assert_eq!(expected, "an array");
        },
        other => panic!("{:?}", other),
    }
}

#[test]
fn empty_array_misses_the_price() {
    match codec(quote("[]").unwrap_err()) {
        CodecError::MissingField { field } => assert_eq!(field, "price"),
        other => panic!("{:?}", other),
    }
}

#[test]
fn candle_is_read_by_position() {
    let cs: Vec<OHLCV> = response_from_request(
        200,
        br#"[[1700000000000,"37000","37500","36900","37200","12.5"]]"#,
    )
    .unwrap();
    assert_eq!(cs.len(), 1);
    assert_eq!(cs[0].time, 1700000000000);
    assert_eq!(cs[0].open, "37000");
    assert_eq!(cs[0].high, "37500");
    assert_eq!(cs[0].low, "36900");
    assert_eq!(cs[0].close, "37200");
    assert_eq!(cs[0].volume, "12.5");
}

#[test]
fn candle_with_five_items_misses_the_volume() {
    let e = response_from_request::<Vec<OHLCV>>(200, br#"[[1,"a","b","c","d"]]"#).unwrap_err();
    match codec(e) {
        CodecError::MissingField { field } => assert_eq!(field, "volume"),
        other => panic!("{:?}", other),
    }
}

#[test]
fn quote_round_trip() {
    let q = Quote { price: "21000.5".to_string(), amount: "0.01".to_string() };
    let back = Quote::from_json(&q.to_json()).unwrap();
    assert_eq!(back.price, q.price);
    assert_eq!(back.amount, q.amount);
}

#[test]
fn candle_round_trip() {
    let c = OHLCV {
        time: u64::MAX,
        open: "1".to_string(),
        high: "2".to_string(),
        low: "0.5".to_string(),
        close: "1.5".to_string(),
        volume: "100".to_string(),
    };
    let j = c.to_json();
    match &j {
        Json::Array(items) => match &items[0] {
            Json::Number(t) => assert_eq!(t, "18446744073709551615"),
            other => panic!("{:?}", other),
        },
        other => panic!("{:?}", other),
    }
    let back = OHLCV::from_json(&j).unwrap();
    assert_eq!(back.time, c.time);
    assert_eq!(back.open, c.open);
    assert_eq!(back.high, c.high);
    assert_eq!(back.low, c.low);
    assert_eq!(back.close, c.close);
    assert_eq!(back.volume, c.volume);
}

#[test]
fn order_book_holds_quotes() {
    let ob: OrderBook = response_from_request(
        200,
        br#"{"market":"BTC-EUR","nonce":42,"bids":[["100","1"],["99","2"]],"asks":[["101","3"]]}"#,
    )
    .unwrap();
    assert_eq!(ob.market, "BTC-EUR");
    assert_eq!(ob.nonce, 42);
    assert_eq!(ob.bids.len(), 2);
    assert_eq!(ob.bids[1].price, "99");
    assert_eq!(ob.asks[0].amount, "3");
}

#[test]
fn asset_is_decoded() {
    let a: Asset = response_from_request(
        200,
        br#"{"symbol":"BTC","name":"Bitcoin","decimals":8,"depositFee":"0","depositConfirmations":10,
        "depositStatus":"OK","withdrawalFee":"0.2","withdrawalMinAmount":"0.2",
        "withdrawalStatus":"MAINTENANCE","networks":["Mainnet"],"message":""}"#,
    )
    .unwrap();
    assert_eq!(a.symbol, "BTC");
    assert_eq!(a.decimals, 8);
    assert_eq!(a.deposit_status, AssetStatus::Okay);
    assert_eq!(a.withdrawal_status, AssetStatus::Maintenance);
    assert_eq!(a.networks, vec!["Mainnet".to_string()]);
    assert_eq!(a.message, Some(String::new()));
}

#[test]
fn asset_without_message_reads_none() {
    let a: Asset = response_from_request(
        200,
        br#"{"symbol":"BTC","name":"Bitcoin","decimals":8,"depositFee":"0","depositConfirmations":10,
        "depositStatus":"DELISTED","withdrawalFee":"0.2","withdrawalMinAmount":"0.2",
        "withdrawalStatus":"OK","networks":[],"message":null}"#,
    )
    .unwrap();
    assert_eq!(a.message, None);
    assert_eq!(a.deposit_status, AssetStatus::Delisted);
}

#[test]
fn trade_is_decoded() {
    let ts: Vec<Trade> = response_from_request(
        200,
        br#"[{"id":"t1","timestamp":1700000000001,"amount":"0.1","price":"37000","side":"sell"}]"#,
    )
    .unwrap();
    assert_eq!(ts[0].id, "t1");
    assert_eq!(ts[0].timestamp, 1700000000001);
    assert_eq!(ts[0].side, TradeSide::Sell);
}

#[test]
fn tickers_with_absent_fields_are_none() {
    let p: TickerPrice = response_from_request(200, br#"{"market":"BTC-EUR"}"#).unwrap();
    assert_eq!(p.market, "BTC-EUR");
    assert_eq!(p.price, None);
    let b: TickerBook = response_from_request(200, br#"{"bid":"1","askSize":"2"}"#).unwrap();
    assert_eq!(b.market, None);
    assert_eq!(b.bid, Some("1".to_string()));
    assert_eq!(b.ask_size, Some("2".to_string()));
    let t: Ticker24h =
        response_from_request(200, br#"{"market":"BTC-EUR","timestamp":5,"last":"3"}"#).unwrap();
    assert_eq!(t.timestamp, Some(5));
    assert_eq!(t.last, Some("3".to_string()));
    assert_eq!(t.open_timestamp, None);
}

#[test]
fn account_fees_are_nested() {
    let a: Account = response_from_request(
        200,
        br#"{"fees":{"taker":"0.0025","maker":"0.0015","volume":"100.00"}}"#,
    )
    .unwrap();
    assert_eq!(a.fees.taker, "0.0025");
    assert_eq!(a.fees.maker, "0.0015");
    assert_eq!(a.fees.volume, "100.00");
}

#[test]
fn missing_field_is_named() {
    let e = response_from_request::<Balance>(200, br#"{"symbol":"BTC","available":"1"}"#)
        .unwrap_err();
    match codec(e) {
        CodecError::MissingField { field } => assert_eq!(field, "inOrder"),
        other => panic!("{:?}", other),
    }
}

#[test]
fn order_response_reads_the_uuid() {
    let r: OrderResponse = response_from_request(
        200,
        br#"{"market":"BTC-EUR","orderId":"a1a2a3a4-b1b2-c1c2-d1d2-d3d4d5d6d7d8","created":1,"updated":2}"#,
    )
    .unwrap();
    assert_eq!(r.order_id, 0xa1a2a3a4b1b2c1c2d1d2d3d4d5d6d7d8);
    assert_eq!(r.client_order_id, None);
    assert_eq!(r.created, 1);
    assert_eq!(r.updated, 2);
}

#[test]
fn order_response_with_a_bad_uuid_is_an_invalid_value() {
    let e = response_from_request::<OrderResponse>(
        200,
        br#"{"market":"BTC-EUR","orderId":"not-a-uuid","created":1,"updated":2}"#,
    )
    .unwrap_err();
    match codec(e) {
        CodecError::InvalidValue { value, expected } => {
            assert_eq!(value, "not-a-uuid");
            assert_eq!(expected, "a UUID");
        },
        other => panic!("{:?}", other),
    }
}

#[test]
fn unknown_asset_balance_is_an_error() {
    let list: Vec<Balance> = response_from_request(200, b"[]").unwrap();
    match first_balance(list, "XXX") {
        Err(Error::UnknownAsset { symbol }) => assert_eq!(symbol, "XXX"),
        other => panic!("{:?}", other),
    }
}

#[test]
fn balance_is_the_first_entry() {
    let list: Vec<Balance> = response_from_request(
        200,
        br#"[{"symbol":"BTC","available":"1.5","inOrder":"0.5"}]"#,
    )
    .unwrap();
    let b = first_balance(list, "BTC").unwrap();
    assert_eq!(b.symbol, "BTC");
    assert_eq!(b.available, "1.5");
    assert_eq!(b.in_order, "0.5");
}
