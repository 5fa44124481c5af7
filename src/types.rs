//! The records that the exchange's responses hold, and how each is read from
//! JSON. Quotes and candles are positional: a JSON array whose items are the
//! fields in a fixed order.
use vstd::prelude::*;

use crate::json::{
    bool_member, fault_of, item_str, item_u64, member, name_text, object_check, object_fault,
    opt_str, opt_str_member, opt_u64, opt_u64_member, opt_view, record_fault, record_member,
    req_bool, req_record, req_str, req_str_list, req_u64, str_at, str_list_member, str_member,
    u64_at, u64_member, CodecError, CodecFault, FromJson, Json,
};
use crate::text::{dec_str, dec_text, lemma_u64_of_dec_str, uuid_text};
pub use crate::wire::{
    AssetStatus, CandleInterval, DepositStatus, MarketStatus, OrderType, SelfTradePrevention,
    TimeInForce, TradeSide, TriggerReference, TriggerType, WithdrawalStatus,
};
use crate::wire::{enum_member, req_enum, WireEnum};

verus! {

/// The 128 bits of the UUID that uuid's parser reads from `s`, or `None` where
/// it refuses `s`.
pub uninterp spec fn uuid_of_text(s: Seq<char>) -> Option<u128>;

/// Relies on uuid::Uuid::parse_str, which reads a UUID in its hyphenated,
/// simple, braced or URN form or refuses the text, depending on the text
/// alone; the UUID is kept as its 128 bits (Uuid::as_u128).
#[verifier::external_body]
fn parse_uuid(s: &str) -> (r: Option<u128>)
    ensures
        r == uuid_of_text(s@),
{
    match uuid::Uuid::parse_str(s) {
        Ok(u) => Some(u.as_u128()),
        Err(_) => None,
    }
}

/// A UUID held in a JSON string.
pub open spec fn uuid_value(v: Json, what: Seq<char>) -> Result<u128, CodecFault> {
    match v {
        Json::Str(s) => match uuid_of_text(s@) {
            Some(u) => Ok(u),
            None => Err(CodecFault::InvalidValue(s@, "a UUID"@)),
        },
        _ => Err(CodecFault::InvalidType(what, "a string"@)),
    }
}

/// A required UUID member.
pub open spec fn uuid_member(j: Json, key: Seq<char>) -> Result<u128, CodecFault> {
    match member(j, key) {
        None => Err(CodecFault::MissingField(key)),
        Some(v) => uuid_value(v, key),
    }
}

/// An optional UUID member: absent and `null` both read as `None`.
pub open spec fn opt_uuid_member(j: Json, key: Seq<char>) -> Result<Option<u128>, CodecFault> {
    match member(j, key) {
        None => Ok(None),
        Some(Json::Null) => Ok(None),
        Some(v) => match uuid_value(v, key) {
            Ok(u) => Ok(Some(u)),
            Err(f) => Err(f),
        },
    }
}

fn read_uuid(v: &Json, what: &str) -> (r: Result<u128, CodecError>)
    ensures
        match r {
            Ok(u) => uuid_value(*v, what@) == Ok::<u128, CodecFault>(u),
            Err(e) => uuid_value(*v, what@) == Err::<u128, CodecFault>(e@),
        },
{
    match v {
        Json::Str(s) => match parse_uuid(s.as_str()) {
            Some(u) => Ok(u),
            None => Err(CodecError::InvalidValue { value: s.clone(), expected: name_text("a UUID") }),
        },
        _ => Err(CodecError::InvalidType { what: name_text(what), expected: name_text("a string") }),
    }
}

fn req_uuid(j: &Json, key: &str) -> (r: Result<u128, CodecError>)
    ensures
        match r {
            Ok(u) => uuid_member(*j, key@) == Ok::<u128, CodecFault>(u),
            Err(e) => uuid_member(*j, key@) == Err::<u128, CodecFault>(e@),
        },
{
    match j.member(key) {
        None => Err(CodecError::MissingField { field: name_text(key) }),
        Some(v) => read_uuid(v, key),
    }
}

fn opt_uuid(j: &Json, key: &str) -> (r: Result<Option<u128>, CodecError>)
    ensures
        match r {
            Ok(u) => opt_uuid_member(*j, key@) == Ok::<Option<u128>, CodecFault>(u),
            Err(e) => opt_uuid_member(*j, key@) == Err::<Option<u128>, CodecFault>(e@),
        },
{
    match j.member(key) {
        None => Ok(None),
        Some(Json::Null) => Ok(None),
        Some(v) => match read_uuid(v, key) {
            Ok(u) => Ok(Some(u)),
            Err(e) => Err(e),
        },
    }
}

/// Relies on uuid's Uuid::from_u128 and the Display of its hyphenated form:
/// the 128 bits as 32 lower-case hexadecimal digits, most significant first,
/// grouped 8-4-4-4-12 by hyphens.
#[verifier::external_body]
fn uuid_string(x: u128) -> (r: String)
    ensures
        r@ == uuid_text(x),
{
    uuid::Uuid::from_u128(x).hyphenated().to_string()
}

/// The current time of the exchange, in epoch milliseconds.
#[derive(Debug)]
pub struct ServerTime {
    pub time: u64,
}

/// Read from the JSON object `{"time": <number>}`.
impl FromJson for ServerTime {
    open spec fn json_fault(j: Json) -> Option<CodecFault> {
        if object_fault(j, "ServerTime"@) is Some {
            object_fault(j, "ServerTime"@)
        } else {
            fault_of(u64_member(j, "time"@))
        }
    }

    open spec fn decodes(j: Json, v: Self) -> bool {
        u64_member(j, "time"@) == Ok::<u64, CodecFault>(v.time)
    }

    fn from_json(j: &Json) -> (r: Result<Self, CodecError>) {
        object_check(j, "ServerTime")?;
        let time = req_u64(j, "time")?;
        Ok(ServerTime { time })
    }
}

/// A quote in the order book. Its wire form is the array `[price, amount]`.
#[derive(Debug)]
pub struct Quote {
    pub price: String,
    pub amount: String,
}

/// Read from a JSON array whose first two items are the price and the amount;
/// further items are ignored.
impl FromJson for Quote {
    open spec fn json_fault(j: Json) -> Option<CodecFault> {
        match j {
            Json::Array(items) => if fault_of(str_at(items@, 0, "price"@)) is Some {
                fault_of(str_at(items@, 0, "price"@))
            } else {
                fault_of(str_at(items@, 1, "amount"@))
            },
            _ => Some(CodecFault::InvalidType("Quote"@, "an array"@)),
        }
    }

    open spec fn decodes(j: Json, v: Self) -> bool {
        &&& j is Array
        &&& str_at(j->Array_0@, 0, "price"@) == Ok::<Seq<char>, CodecFault>(v.price@)
        &&& str_at(j->Array_0@, 1, "amount"@) == Ok::<Seq<char>, CodecFault>(v.amount@)
    }

    fn from_json(j: &Json) -> (r: Result<Self, CodecError>) {
        match j {
            Json::Array(items) => {
                let price = item_str(items, 0, "price")?;
                let amount = item_str(items, 1, "amount")?;
                Ok(Quote { price, amount })
            },
            _ => Err(CodecError::InvalidType { what: name_text("Quote"), expected: name_text("an array") }),
        }
    }
}

impl Quote {
    /// `j` is the wire form of `self`: the array of its price and its amount.
    pub open spec fn encoded_as(self, j: Json) -> bool {
        &&& j is Array
        &&& j->Array_0@ == seq![Json::Str(self.price), Json::Str(self.amount)]
    }

    /// The wire form of this quote.
    pub fn to_json(&self) -> (r: Json)
        ensures
            self.encoded_as(r),
    {
        let mut items: Vec<Json> = Vec::new();
        items.push(Json::Str(self.price.clone()));
        items.push(Json::Str(self.amount.clone()));
        proof {
            assert(items@ =~= seq![Json::Str(self.price), Json::Str(self.amount)]);
        }
        Json::Array(items)
    }
}

/// Decoding the wire form of a quote gives the quote back.
pub proof fn lemma_quote_round_trip(q: Quote, j: Json)
    requires
        q.encoded_as(j),
    ensures
        Quote::json_fault(j) is None,
        Quote::decodes(j, q),
{
}

/// A candlestick of a market over one interval. Its wire form is the array
/// `[time, open, high, low, close, volume]`.
#[derive(Debug)]
pub struct OHLCV {
    pub time: u64,
    pub open: String,
    pub high: String,
    pub low: String,
    pub close: String,
    pub volume: String,
}

/// Read from a JSON array whose first six items are the fields in order;
/// further items are ignored.
impl FromJson for OHLCV {
    open spec fn json_fault(j: Json) -> Option<CodecFault> {
        match j {
            Json::Array(items) => if fault_of(u64_at(items@, 0, "time"@)) is Some {
                fault_of(u64_at(items@, 0, "time"@))
            } else if fault_of(str_at(items@, 1, "open"@)) is Some {
                fault_of(str_at(items@, 1, "open"@))
            } else if fault_of(str_at(items@, 2, "high"@)) is Some {
                fault_of(str_at(items@, 2, "high"@))
            } else if fault_of(str_at(items@, 3, "low"@)) is Some {
                fault_of(str_at(items@, 3, "low"@))
            } else if fault_of(str_at(items@, 4, "close"@)) is Some {
                fault_of(str_at(items@, 4, "close"@))
            } else {
                fault_of(str_at(items@, 5, "volume"@))
            },
            _ => Some(CodecFault::InvalidType("OHLCV"@, "an array"@)),
        }
    }

    open spec fn decodes(j: Json, v: Self) -> bool {
        &&& j is Array
        &&& u64_at(j->Array_0@, 0, "time"@) == Ok::<u64, CodecFault>(v.time)
        &&& str_at(j->Array_0@, 1, "open"@) == Ok::<Seq<char>, CodecFault>(v.open@)
        &&& str_at(j->Array_0@, 2, "high"@) == Ok::<Seq<char>, CodecFault>(v.high@)
        &&& str_at(j->Array_0@, 3, "low"@) == Ok::<Seq<char>, CodecFault>(v.low@)
        &&& str_at(j->Array_0@, 4, "close"@) == Ok::<Seq<char>, CodecFault>(v.close@)
        &&& str_at(j->Array_0@, 5, "volume"@) == Ok::<Seq<char>, CodecFault>(v.volume@)
    }

    fn from_json(j: &Json) -> (r: Result<Self, CodecError>) {
        match j {
            Json::Array(items) => {
                let time = item_u64(items, 0, "time")?;
                let open = item_str(items, 1, "open")?;
                let high = item_str(items, 2, "high")?;
                let low = item_str(items, 3, "low")?;
                let close = item_str(items, 4, "close")?;
                let volume = item_str(items, 5, "volume")?;
                Ok(OHLCV { time, open, high, low, close, volume })
            },
            _ => Err(CodecError::InvalidType { what: name_text("OHLCV"), expected: name_text("an array") }),
        }
    }
}

impl OHLCV {
    /// `j` is the wire form of `self`: the time as a JSON number in decimal,
    /// then the five strings.
    pub open spec fn encoded_as(self, j: Json) -> bool {
        &&& j is Array
        &&& j->Array_0@.len() == 6
        &&& j->Array_0@[0] is Number
        &&& j->Array_0@[0]->Number_0@ == dec_str(self.time as nat)
        &&& j->Array_0@.subrange(1, 6) == seq![
            Json::Str(self.open),
            Json::Str(self.high),
            Json::Str(self.low),
            Json::Str(self.close),
            Json::Str(self.volume),
        ]
    }

    /// The wire form of this candle.
    pub fn to_json(&self) -> (r: Json)
        ensures
            self.encoded_as(r),
    {
        let mut items: Vec<Json> = Vec::new();
        items.push(Json::Number(dec_text(self.time)));
        items.push(Json::Str(self.open.clone()));
        items.push(Json::Str(self.high.clone()));
        items.push(Json::Str(self.low.clone()));
        items.push(Json::Str(self.close.clone()));
        items.push(Json::Str(self.volume.clone()));
        proof {
            assert(items@.subrange(1, 6) =~= seq![
                Json::Str(self.open),
                Json::Str(self.high),
                Json::Str(self.low),
                Json::Str(self.close),
                Json::Str(self.volume),
            ]);
        }
        Json::Array(items)
    }
}

/// Decoding the wire form of a candle gives the candle back.
pub proof fn lemma_ohlcv_round_trip(c: OHLCV, j: Json)
    requires
        c.encoded_as(j),
    ensures
        OHLCV::json_fault(j) is None,
        OHLCV::decodes(j, c),
{
    lemma_u64_of_dec_str(c.time);
    let items = j->Array_0@;
    assert(items[1] == items.subrange(1, 6)[0]);
    assert(items[2] == items.subrange(1, 6)[1]);
    assert(items[3] == items.subrange(1, 6)[2]);
    assert(items[4] == items.subrange(1, 6)[3]);
    assert(items[5] == items.subrange(1, 6)[4]);
}

/// An asset supported by the exchange.
#[derive(Debug)]
pub struct Asset {
    pub symbol: String,
    pub name: String,
    pub decimals: u64,
    pub deposit_fee: String,
    pub deposit_confirmations: u64,
    pub deposit_status: AssetStatus,
    pub withdrawal_fee: String,
    pub withdrawal_min_amount: String,
    pub withdrawal_status: AssetStatus,
    pub networks: Vec<String>,
    pub message: Option<String>,
}

/// Read from a JSON object; the fields are read in the order above, and the
/// first one refused decides the error.
impl FromJson for Asset {
    open spec fn json_fault(j: Json) -> Option<CodecFault> {
        if object_fault(j, "Asset"@) is Some {
            object_fault(j, "Asset"@)
        } else if fault_of(str_member(j, "symbol"@)) is Some {
            fault_of(str_member(j, "symbol"@))
        } else if fault_of(str_member(j, "name"@)) is Some {
            fault_of(str_member(j, "name"@))
        } else if fault_of(u64_member(j, "decimals"@)) is Some {
            fault_of(u64_member(j, "decimals"@))
        } else if fault_of(str_member(j, "depositFee"@)) is Some {
            fault_of(str_member(j, "depositFee"@))
        } else if fault_of(u64_member(j, "depositConfirmations"@)) is Some {
            fault_of(u64_member(j, "depositConfirmations"@))
        } else if fault_of(enum_member::<AssetStatus>(j, "depositStatus"@)) is Some {
            fault_of(enum_member::<AssetStatus>(j, "depositStatus"@))
        } else if fault_of(str_member(j, "withdrawalFee"@)) is Some {
            fault_of(str_member(j, "withdrawalFee"@))
        } else if fault_of(str_member(j, "withdrawalMinAmount"@)) is Some {
            fault_of(str_member(j, "withdrawalMinAmount"@))
        } else if fault_of(enum_member::<AssetStatus>(j, "withdrawalStatus"@)) is Some {
            fault_of(enum_member::<AssetStatus>(j, "withdrawalStatus"@))
        } else if fault_of(str_list_member(j, "networks"@)) is Some {
            fault_of(str_list_member(j, "networks"@))
        } else if fault_of(opt_str_member(j, "message"@)) is Some {
            fault_of(opt_str_member(j, "message"@))
        } else {
            None
        }
    }

    open spec fn decodes(j: Json, v: Self) -> bool {
        &&& str_member(j, "symbol"@) == Ok::<Seq<char>, CodecFault>(v.symbol@)
        &&& str_member(j, "name"@) == Ok::<Seq<char>, CodecFault>(v.name@)
        &&& u64_member(j, "decimals"@) == Ok::<u64, CodecFault>(v.decimals)
        &&& str_member(j, "depositFee"@) == Ok::<Seq<char>, CodecFault>(v.deposit_fee@)
        &&& u64_member(j, "depositConfirmations"@) == Ok::<u64, CodecFault>(v.deposit_confirmations)
        &&& enum_member::<AssetStatus>(j, "depositStatus"@) == Ok::<AssetStatus, CodecFault>(v.deposit_status)
        &&& str_member(j, "withdrawalFee"@) == Ok::<Seq<char>, CodecFault>(v.withdrawal_fee@)
        &&& str_member(j, "withdrawalMinAmount"@) == Ok::<Seq<char>, CodecFault>(v.withdrawal_min_amount@)
        &&& enum_member::<AssetStatus>(j, "withdrawalStatus"@) == Ok::<AssetStatus, CodecFault>(v.withdrawal_status)
        &&& str_list_member(j, "networks"@) == Ok::<Seq<Seq<char>>, CodecFault>(v.networks@.map_values(|s: String| s@))
        &&& opt_str_member(j, "message"@) == Ok::<Option<Seq<char>>, CodecFault>(opt_view(v.message))
    }

    fn from_json(j: &Json) -> (r: Result<Self, CodecError>) {
        object_check(j, "Asset")?;
        let symbol = req_str(j, "symbol")?;
        let name = req_str(j, "name")?;
        let decimals = req_u64(j, "decimals")?;
        let deposit_fee = req_str(j, "depositFee")?;
        let deposit_confirmations = req_u64(j, "depositConfirmations")?;
        let deposit_status = req_enum::<AssetStatus>(j, "depositStatus")?;
        let withdrawal_fee = req_str(j, "withdrawalFee")?;
        let withdrawal_min_amount = req_str(j, "withdrawalMinAmount")?;
        let withdrawal_status = req_enum::<AssetStatus>(j, "withdrawalStatus")?;
        let networks = req_str_list(j, "networks")?;
        let message = opt_str(j, "message")?;
        Ok(Asset { symbol, name, decimals, deposit_fee, deposit_confirmations, deposit_status, withdrawal_fee, withdrawal_min_amount, withdrawal_status, networks, message })
    }
}

/// Information about a market.
#[derive(Debug)]
pub struct Market {
    pub pair: String,
    pub status: MarketStatus,
    pub base: String,
    pub quote: String,
    pub price_precision: u64,
    pub min_order_in_base_asset: String,
    pub min_order_in_quote_asset: String,
    pub max_order_in_base_asset: String,
    pub max_order_in_quote_asset: String,
    pub order_types: Vec<String>,
}

/// Read from a JSON object; the fields are read in the order above, and the
/// first one refused decides the error.
impl FromJson for Market {
    open spec fn json_fault(j: Json) -> Option<CodecFault> {
        if object_fault(j, "Market"@) is Some {
            object_fault(j, "Market"@)
        } else if fault_of(str_member(j, "market"@)) is Some {
            fault_of(str_member(j, "market"@))
        } else if fault_of(enum_member::<MarketStatus>(j, "status"@)) is Some {
            fault_of(enum_member::<MarketStatus>(j, "status"@))
        } else if fault_of(str_member(j, "base"@)) is Some {
            fault_of(str_member(j, "base"@))
        } else if fault_of(str_member(j, "quote"@)) is Some {
            fault_of(str_member(j, "quote"@))
        } else if fault_of(u64_member(j, "pricePrecision"@)) is Some {
            fault_of(u64_member(j, "pricePrecision"@))
        } else if fault_of(str_member(j, "minOrderInBaseAsset"@)) is Some {
            fault_of(str_member(j, "minOrderInBaseAsset"@))
        } else if fault_of(str_member(j, "minOrderInQuoteAsset"@)) is Some {
            fault_of(str_member(j, "minOrderInQuoteAsset"@))
        } else if fault_of(str_member(j, "maxOrderInBaseAsset"@)) is Some {
            fault_of(str_member(j, "maxOrderInBaseAsset"@))
        } else if fault_of(str_member(j, "maxOrderInQuoteAsset"@)) is Some {
            fault_of(str_member(j, "maxOrderInQuoteAsset"@))
        } else if fault_of(str_list_member(j, "orderTypes"@)) is Some {
            fault_of(str_list_member(j, "orderTypes"@))
        } else {
            None
        }
    }

    open spec fn decodes(j: Json, v: Self) -> bool {
        &&& str_member(j, "market"@) == Ok::<Seq<char>, CodecFault>(v.pair@)
        &&& enum_member::<MarketStatus>(j, "status"@) == Ok::<MarketStatus, CodecFault>(v.status)
        &&& str_member(j, "base"@) == Ok::<Seq<char>, CodecFault>(v.base@)
        &&& str_member(j, "quote"@) == Ok::<Seq<char>, CodecFault>(v.quote@)
        &&& u64_member(j, "pricePrecision"@) == Ok::<u64, CodecFault>(v.price_precision)
        &&& str_member(j, "minOrderInBaseAsset"@) == Ok::<Seq<char>, CodecFault>(v.min_order_in_base_asset@)
        &&& str_member(j, "minOrderInQuoteAsset"@) == Ok::<Seq<char>, CodecFault>(v.min_order_in_quote_asset@)
        &&& str_member(j, "maxOrderInBaseAsset"@) == Ok::<Seq<char>, CodecFault>(v.max_order_in_base_asset@)
        &&& str_member(j, "maxOrderInQuoteAsset"@) == Ok::<Seq<char>, CodecFault>(v.max_order_in_quote_asset@)
        &&& str_list_member(j, "orderTypes"@) == Ok::<Seq<Seq<char>>, CodecFault>(v.order_types@.map_values(|s: String| s@))
    }

    fn from_json(j: &Json) -> (r: Result<Self, CodecError>) {
        object_check(j, "Market")?;
        let pair = req_str(j, "market")?;
        let status = req_enum::<MarketStatus>(j, "status")?;
        let base = req_str(j, "base")?;
        let quote = req_str(j, "quote")?;
        let price_precision = req_u64(j, "pricePrecision")?;
        let min_order_in_base_asset = req_str(j, "minOrderInBaseAsset")?;
        let min_order_in_quote_asset = req_str(j, "minOrderInQuoteAsset")?;
        let max_order_in_base_asset = req_str(j, "maxOrderInBaseAsset")?;
        let max_order_in_quote_asset = req_str(j, "maxOrderInQuoteAsset")?;
        let order_types = req_str_list(j, "orderTypes")?;
        Ok(Market { pair, status, base, quote, price_precision, min_order_in_base_asset, min_order_in_quote_asset, max_order_in_base_asset, max_order_in_quote_asset, order_types })
    }
}

/// The order book of a market: bids and asks, best first.
#[derive(Debug)]
pub struct OrderBook {
    pub market: String,
    pub nonce: u64,
    pub bids: Vec<Quote>,
    pub asks: Vec<Quote>,
}

/// Read from a JSON object; the fields are read in the order above, and the
/// first one refused decides the error.
impl FromJson for OrderBook {
    open spec fn json_fault(j: Json) -> Option<CodecFault> {
        if object_fault(j, "OrderBook"@) is Some {
            object_fault(j, "OrderBook"@)
        } else if fault_of(str_member(j, "market"@)) is Some {
            fault_of(str_member(j, "market"@))
        } else if fault_of(u64_member(j, "nonce"@)) is Some {
            fault_of(u64_member(j, "nonce"@))
        } else if record_fault::<Vec<Quote>>(j, "bids"@) is Some {
            record_fault::<Vec<Quote>>(j, "bids"@)
        } else if record_fault::<Vec<Quote>>(j, "asks"@) is Some {
            record_fault::<Vec<Quote>>(j, "asks"@)
        } else {
            None
        }
    }

    open spec fn decodes(j: Json, v: Self) -> bool {
        &&& str_member(j, "market"@) == Ok::<Seq<char>, CodecFault>(v.market@)
        &&& u64_member(j, "nonce"@) == Ok::<u64, CodecFault>(v.nonce)
        &&& record_member::<Vec<Quote>>(j, "bids"@, v.bids)
        &&& record_member::<Vec<Quote>>(j, "asks"@, v.asks)
    }

    fn from_json(j: &Json) -> (r: Result<Self, CodecError>) {
        object_check(j, "OrderBook")?;
        let market = req_str(j, "market")?;
        let nonce = req_u64(j, "nonce")?;
        let bids = req_record::<Vec<Quote>>(j, "bids")?;
        let asks = req_record::<Vec<Quote>>(j, "asks")?;
        Ok(OrderBook { market, nonce, bids, asks })
    }
}

/// A trade performed on the exchange for a market.
#[derive(Debug)]
pub struct Trade {
    pub id: String,
    pub timestamp: u64,
    pub amount: String,
    pub price: String,
    pub side: TradeSide,
}

/// Read from a JSON object; the fields are read in the order above, and the
/// first one refused decides the error.
impl FromJson for Trade {
    open spec fn json_fault(j: Json) -> Option<CodecFault> {
        if object_fault(j, "Trade"@) is Some {
            object_fault(j, "Trade"@)
        } else if fault_of(str_member(j, "id"@)) is Some {
            fault_of(str_member(j, "id"@))
        } else if fault_of(u64_member(j, "timestamp"@)) is Some {
            fault_of(u64_member(j, "timestamp"@))
        } else if fault_of(str_member(j, "amount"@)) is Some {
            fault_of(str_member(j, "amount"@))
        } else if fault_of(str_member(j, "price"@)) is Some {
            fault_of(str_member(j, "price"@))
        } else if fault_of(enum_member::<TradeSide>(j, "side"@)) is Some {
            fault_of(enum_member::<TradeSide>(j, "side"@))
        } else {
            None
        }
    }

    open spec fn decodes(j: Json, v: Self) -> bool {
        &&& str_member(j, "id"@) == Ok::<Seq<char>, CodecFault>(v.id@)
        &&& u64_member(j, "timestamp"@) == Ok::<u64, CodecFault>(v.timestamp)
        &&& str_member(j, "amount"@) == Ok::<Seq<char>, CodecFault>(v.amount@)
        &&& str_member(j, "price"@) == Ok::<Seq<char>, CodecFault>(v.price@)
        &&& enum_member::<TradeSide>(j, "side"@) == Ok::<TradeSide, CodecFault>(v.side)
    }

    fn from_json(j: &Json) -> (r: Result<Self, CodecError>) {
        object_check(j, "Trade")?;
        let id = req_str(j, "id")?;
        let timestamp = req_u64(j, "timestamp")?;
        let amount = req_str(j, "amount")?;
        let price = req_str(j, "price")?;
        let side = req_enum::<TradeSide>(j, "side")?;
        Ok(Trade { id, timestamp, amount, price, side })
    }
}

/// The last price of a market.
#[derive(Debug)]
pub struct TickerPrice {
    pub market: String,
    pub price: Option<String>,
}

/// Read from a JSON object; the fields are read in the order above, and the
/// first one refused decides the error.
impl FromJson for TickerPrice {
    open spec fn json_fault(j: Json) -> Option<CodecFault> {
        if object_fault(j, "TickerPrice"@) is Some {
            object_fault(j, "TickerPrice"@)
        } else if fault_of(str_member(j, "market"@)) is Some {
            fault_of(str_member(j, "market"@))
        } else if fault_of(opt_str_member(j, "price"@)) is Some {
            fault_of(opt_str_member(j, "price"@))
        } else {
            None
        }
    }

    open spec fn decodes(j: Json, v: Self) -> bool {
        &&& str_member(j, "market"@) == Ok::<Seq<char>, CodecFault>(v.market@)
        &&& opt_str_member(j, "price"@) == Ok::<Option<Seq<char>>, CodecFault>(opt_view(v.price))
    }

    fn from_json(j: &Json) -> (r: Result<Self, CodecError>) {
        object_check(j, "TickerPrice")?;
        let market = req_str(j, "market")?;
        let price = opt_str(j, "price")?;
        Ok(TickerPrice { market, price })
    }
}

/// The highest buy and lowest sell prices currently available for a market.
#[derive(Debug)]
pub struct TickerBook {
    pub market: Option<String>,
    pub bid: Option<String>,
    pub bid_size: Option<String>,
    pub ask: Option<String>,
    pub ask_size: Option<String>,
}

/// Read from a JSON object; the fields are read in the order above, and the
/// first one refused decides the error.
impl FromJson for TickerBook {
    open spec fn json_fault(j: Json) -> Option<CodecFault> {
        if object_fault(j, "TickerBook"@) is Some {
            object_fault(j, "TickerBook"@)
        } else if fault_of(opt_str_member(j, "market"@)) is Some {
            fault_of(opt_str_member(j, "market"@))
        } else if fault_of(opt_str_member(j, "bid"@)) is Some {
            fault_of(opt_str_member(j, "bid"@))
        } else if fault_of(opt_str_member(j, "bidSize"@)) is Some {
            fault_of(opt_str_member(j, "bidSize"@))
        } else if fault_of(opt_str_member(j, "ask"@)) is Some {
            fault_of(opt_str_member(j, "ask"@))
        } else if fault_of(opt_str_member(j, "askSize"@)) is Some {
            fault_of(opt_str_member(j, "askSize"@))
        } else {
            None
        }
    }

    open spec fn decodes(j: Json, v: Self) -> bool {
        &&& opt_str_member(j, "market"@) == Ok::<Option<Seq<char>>, CodecFault>(opt_view(v.market))
        &&& opt_str_member(j, "bid"@) == Ok::<Option<Seq<char>>, CodecFault>(opt_view(v.bid))
        &&& opt_str_member(j, "bidSize"@) == Ok::<Option<Seq<char>>, CodecFault>(opt_view(v.bid_size))
        &&& opt_str_member(j, "ask"@) == Ok::<Option<Seq<char>>, CodecFault>(opt_view(v.ask))
        &&& opt_str_member(j, "askSize"@) == Ok::<Option<Seq<char>>, CodecFault>(opt_view(v.ask_size))
    }

    fn from_json(j: &Json) -> (r: Result<Self, CodecError>) {
        object_check(j, "TickerBook")?;
        let market = opt_str(j, "market")?;
        let bid = opt_str(j, "bid")?;
        let bid_size = opt_str(j, "bidSize")?;
        let ask = opt_str(j, "ask")?;
        let ask_size = opt_str(j, "askSize")?;
        Ok(TickerBook { market, bid, bid_size, ask, ask_size })
    }
}

/// High, low, open, last and volume of the trades of a market over the previous 24 hours.
#[derive(Debug)]
pub struct Ticker24h {
    pub market: String,
    pub start_timestamp: Option<u64>,
    pub timestamp: Option<u64>,
    pub open: Option<String>,
    pub open_timestamp: Option<u64>,
    pub high: Option<String>,
    pub low: Option<String>,
    pub last: Option<String>,
    pub close_timestamp: Option<u64>,
    pub bid: Option<String>,
    pub bid_size: Option<String>,
    pub ask: Option<String>,
    pub ask_size: Option<String>,
    pub volume: Option<String>,
    pub volume_quote: Option<String>,
}

/// Read from a JSON object; the fields are read in the order above, and the
/// first one refused decides the error.
impl FromJson for Ticker24h {
    open spec fn json_fault(j: Json) -> Option<CodecFault> {
        if object_fault(j, "Ticker24h"@) is Some {
            object_fault(j, "Ticker24h"@)
        } else if fault_of(str_member(j, "market"@)) is Some {
            fault_of(str_member(j, "market"@))
        } else if fault_of(opt_u64_member(j, "startTimestamp"@)) is Some {
            fault_of(opt_u64_member(j, "startTimestamp"@))
        } else if fault_of(opt_u64_member(j, "timestamp"@)) is Some {
            fault_of(opt_u64_member(j, "timestamp"@))
        } else if fault_of(opt_str_member(j, "open"@)) is Some {
            fault_of(opt_str_member(j, "open"@))
        } else if fault_of(opt_u64_member(j, "openTimestamp"@)) is Some {
            fault_of(opt_u64_member(j, "openTimestamp"@))
        } else if fault_of(opt_str_member(j, "high"@)) is Some {
            fault_of(opt_str_member(j, "high"@))
        } else if fault_of(opt_str_member(j, "low"@)) is Some {
            fault_of(opt_str_member(j, "low"@))
        } else if fault_of(opt_str_member(j, "last"@)) is Some {
            fault_of(opt_str_member(j, "last"@))
        } else if fault_of(opt_u64_member(j, "closeTimestamp"@)) is Some {
            fault_of(opt_u64_member(j, "closeTimestamp"@))
        } else if fault_of(opt_str_member(j, "bid"@)) is Some {
            fault_of(opt_str_member(j, "bid"@))
        } else if fault_of(opt_str_member(j, "bidSize"@)) is Some {
            fault_of(opt_str_member(j, "bidSize"@))
        } else if fault_of(opt_str_member(j, "ask"@)) is Some {
            fault_of(opt_str_member(j, "ask"@))
        } else if fault_of(opt_str_member(j, "askSize"@)) is Some {
            fault_of(opt_str_member(j, "askSize"@))
        } else if fault_of(opt_str_member(j, "volume"@)) is Some {
            fault_of(opt_str_member(j, "volume"@))
        } else if fault_of(opt_str_member(j, "volumeQuote"@)) is Some {
            fault_of(opt_str_member(j, "volumeQuote"@))
        } else {
            None
        }
    }

    open spec fn decodes(j: Json, v: Self) -> bool {
        &&& str_member(j, "market"@) == Ok::<Seq<char>, CodecFault>(v.market@)
        &&& opt_u64_member(j, "startTimestamp"@) == Ok::<Option<u64>, CodecFault>(v.start_timestamp)
        &&& opt_u64_member(j, "timestamp"@) == Ok::<Option<u64>, CodecFault>(v.timestamp)
        &&& opt_str_member(j, "open"@) == Ok::<Option<Seq<char>>, CodecFault>(opt_view(v.open))
        &&& opt_u64_member(j, "openTimestamp"@) == Ok::<Option<u64>, CodecFault>(v.open_timestamp)
        &&& opt_str_member(j, "high"@) == Ok::<Option<Seq<char>>, CodecFault>(opt_view(v.high))
        &&& opt_str_member(j, "low"@) == Ok::<Option<Seq<char>>, CodecFault>(opt_view(v.low))
        &&& opt_str_member(j, "last"@) == Ok::<Option<Seq<char>>, CodecFault>(opt_view(v.last))
        &&& opt_u64_member(j, "closeTimestamp"@) == Ok::<Option<u64>, CodecFault>(v.close_timestamp)
        &&& opt_str_member(j, "bid"@) == Ok::<Option<Seq<char>>, CodecFault>(opt_view(v.bid))
        &&& opt_str_member(j, "bidSize"@) == Ok::<Option<Seq<char>>, CodecFault>(opt_view(v.bid_size))
        &&& opt_str_member(j, "ask"@) == Ok::<Option<Seq<char>>, CodecFault>(opt_view(v.ask))
        &&& opt_str_member(j, "askSize"@) == Ok::<Option<Seq<char>>, CodecFault>(opt_view(v.ask_size))
        &&& opt_str_member(j, "volume"@) == Ok::<Option<Seq<char>>, CodecFault>(opt_view(v.volume))
        &&& opt_str_member(j, "volumeQuote"@) == Ok::<Option<Seq<char>>, CodecFault>(opt_view(v.volume_quote))
    }

    fn from_json(j: &Json) -> (r: Result<Self, CodecError>) {
        object_check(j, "Ticker24h")?;
        let market = req_str(j, "market")?;
        let start_timestamp = opt_u64(j, "startTimestamp")?;
        let timestamp = opt_u64(j, "timestamp")?;
        let open = opt_str(j, "open")?;
        let open_timestamp = opt_u64(j, "openTimestamp")?;
        let high = opt_str(j, "high")?;
        let low = opt_str(j, "low")?;
        let last = opt_str(j, "last")?;
        let close_timestamp = opt_u64(j, "closeTimestamp")?;
        let bid = opt_str(j, "bid")?;
        let bid_size = opt_str(j, "bidSize")?;
        let ask = opt_str(j, "ask")?;
        let ask_size = opt_str(j, "askSize")?;
        let volume = opt_str(j, "volume")?;
        let volume_quote = opt_str(j, "volumeQuote")?;
        Ok(Ticker24h { market, start_timestamp, timestamp, open, open_timestamp, high, low, last, close_timestamp, bid, bid_size, ask, ask_size, volume, volume_quote })
    }
}

/// The fees in use for an account.
#[derive(Debug)]
pub struct AccountFees {
    pub taker: String,
    pub maker: String,
    pub volume: String,
}

/// Read from a JSON object; the fields are read in the order above, and the
/// first one refused decides the error.
impl FromJson for AccountFees {
    open spec fn json_fault(j: Json) -> Option<CodecFault> {
        if object_fault(j, "AccountFees"@) is Some {
            object_fault(j, "AccountFees"@)
        } else if fault_of(str_member(j, "taker"@)) is Some {
            fault_of(str_member(j, "taker"@))
        } else if fault_of(str_member(j, "maker"@)) is Some {
            fault_of(str_member(j, "maker"@))
        } else if fault_of(str_member(j, "volume"@)) is Some {
            fault_of(str_member(j, "volume"@))
        } else {
            None
        }
    }

    open spec fn decodes(j: Json, v: Self) -> bool {
        &&& str_member(j, "taker"@) == Ok::<Seq<char>, CodecFault>(v.taker@)
        &&& str_member(j, "maker"@) == Ok::<Seq<char>, CodecFault>(v.maker@)
        &&& str_member(j, "volume"@) == Ok::<Seq<char>, CodecFault>(v.volume@)
    }

    fn from_json(j: &Json) -> (r: Result<Self, CodecError>) {
        object_check(j, "AccountFees")?;
        let taker = req_str(j, "taker")?;
        let maker = req_str(j, "maker")?;
        let volume = req_str(j, "volume")?;
        Ok(AccountFees { taker, maker, volume })
    }
}

/// Information about an account.
#[derive(Debug)]
pub struct Account {
    pub fees: AccountFees,
}

/// Read from a JSON object; the fields are read in the order above, and the
/// first one refused decides the error.
impl FromJson for Account {
    open spec fn json_fault(j: Json) -> Option<CodecFault> {
        if object_fault(j, "Account"@) is Some {
            object_fault(j, "Account"@)
        } else if record_fault::<AccountFees>(j, "fees"@) is Some {
            record_fault::<AccountFees>(j, "fees"@)
        } else {
            None
        }
    }

    open spec fn decodes(j: Json, v: Self) -> bool {
        &&& record_member::<AccountFees>(j, "fees"@, v.fees)
    }

    fn from_json(j: &Json) -> (r: Result<Self, CodecError>) {
        object_check(j, "Account")?;
        let fees = req_record::<AccountFees>(j, "fees")?;
        Ok(Account { fees })
    }
}

/// The balance of an account in one asset.
#[derive(Debug)]
pub struct Balance {
    pub symbol: String,
    pub available: String,
    pub in_order: String,
}

/// Read from a JSON object; the fields are read in the order above, and the
/// first one refused decides the error.
impl FromJson for Balance {
    open spec fn json_fault(j: Json) -> Option<CodecFault> {
        if object_fault(j, "Balance"@) is Some {
            object_fault(j, "Balance"@)
        } else if fault_of(str_member(j, "symbol"@)) is Some {
            fault_of(str_member(j, "symbol"@))
        } else if fault_of(str_member(j, "available"@)) is Some {
            fault_of(str_member(j, "available"@))
        } else if fault_of(str_member(j, "inOrder"@)) is Some {
            fault_of(str_member(j, "inOrder"@))
        } else {
            None
        }
    }

    open spec fn decodes(j: Json, v: Self) -> bool {
        &&& str_member(j, "symbol"@) == Ok::<Seq<char>, CodecFault>(v.symbol@)
        &&& str_member(j, "available"@) == Ok::<Seq<char>, CodecFault>(v.available@)
        &&& str_member(j, "inOrder"@) == Ok::<Seq<char>, CodecFault>(v.in_order@)
    }

    fn from_json(j: &Json) -> (r: Result<Self, CodecError>) {
        object_check(j, "Balance")?;
        let symbol = req_str(j, "symbol")?;
        let available = req_str(j, "available")?;
        let in_order = req_str(j, "inOrder")?;
        Ok(Balance { symbol, available, in_order })
    }
}

/// Fees charged for a market on an account.
#[derive(Debug)]
pub struct Fees {
    pub tier: u64,
    pub volume: String,
    pub taker: String,
    pub maker: String,
}

/// Read from a JSON object; the fields are read in the order above, and the
/// first one refused decides the error.
impl FromJson for Fees {
    open spec fn json_fault(j: Json) -> Option<CodecFault> {
        if object_fault(j, "Fees"@) is Some {
            object_fault(j, "Fees"@)
        } else if fault_of(u64_member(j, "tier"@)) is Some {
            fault_of(u64_member(j, "tier"@))
        } else if fault_of(str_member(j, "volume"@)) is Some {
            fault_of(str_member(j, "volume"@))
        } else if fault_of(str_member(j, "taker"@)) is Some {
            fault_of(str_member(j, "taker"@))
        } else if fault_of(str_member(j, "maker"@)) is Some {
            fault_of(str_member(j, "maker"@))
        } else {
            None
        }
    }

    open spec fn decodes(j: Json, v: Self) -> bool {
        &&& u64_member(j, "tier"@) == Ok::<u64, CodecFault>(v.tier)
        &&& str_member(j, "volume"@) == Ok::<Seq<char>, CodecFault>(v.volume@)
        &&& str_member(j, "taker"@) == Ok::<Seq<char>, CodecFault>(v.taker@)
        &&& str_member(j, "maker"@) == Ok::<Seq<char>, CodecFault>(v.maker@)
    }

    fn from_json(j: &Json) -> (r: Result<Self, CodecError>) {
        object_check(j, "Fees")?;
        let tier = req_u64(j, "tier")?;
        let volume = req_str(j, "volume")?;
        let taker = req_str(j, "taker")?;
        let maker = req_str(j, "maker")?;
        Ok(Fees { tier, volume, taker, maker })
    }
}

/// Where to deposit an asset.
#[derive(Debug)]
pub struct DepositInfo {
    pub address: String,
    pub payment_id: Option<String>,
}

/// Read from a JSON object; the fields are read in the order above, and the
/// first one refused decides the error.
impl FromJson for DepositInfo {
    open spec fn json_fault(j: Json) -> Option<CodecFault> {
        if object_fault(j, "DepositInfo"@) is Some {
            object_fault(j, "DepositInfo"@)
        } else if fault_of(str_member(j, "address"@)) is Some {
            fault_of(str_member(j, "address"@))
        } else if fault_of(opt_str_member(j, "payment_id"@)) is Some {
            fault_of(opt_str_member(j, "payment_id"@))
        } else {
            None
        }
    }

    open spec fn decodes(j: Json, v: Self) -> bool {
        &&& str_member(j, "address"@) == Ok::<Seq<char>, CodecFault>(v.address@)
        &&& opt_str_member(j, "payment_id"@) == Ok::<Option<Seq<char>>, CodecFault>(opt_view(v.payment_id))
    }

    fn from_json(j: &Json) -> (r: Result<Self, CodecError>) {
        object_check(j, "DepositInfo")?;
        let address = req_str(j, "address")?;
        let payment_id = opt_str(j, "payment_id")?;
        Ok(DepositInfo { address, payment_id })
    }
}

/// A deposit into the account.
#[derive(Debug)]
pub struct Deposit {
    pub timestamp: u64,
    pub symbol: String,
    pub amount: String,
    pub fee: String,
    pub status: DepositStatus,
    pub tx_id: Option<String>,
    pub address: Option<String>,
    pub payment_id: Option<String>,
}

/// Read from a JSON object; the fields are read in the order above, and the
/// first one refused decides the error.
impl FromJson for Deposit {
    open spec fn json_fault(j: Json) -> Option<CodecFault> {
        if object_fault(j, "Deposit"@) is Some {
            object_fault(j, "Deposit"@)
        } else if fault_of(u64_member(j, "timestamp"@)) is Some {
            fault_of(u64_member(j, "timestamp"@))
        } else if fault_of(str_member(j, "symbol"@)) is Some {
            fault_of(str_member(j, "symbol"@))
        } else if fault_of(str_member(j, "amount"@)) is Some {
            fault_of(str_member(j, "amount"@))
        } else if fault_of(str_member(j, "fee"@)) is Some {
            fault_of(str_member(j, "fee"@))
        } else if fault_of(enum_member::<DepositStatus>(j, "status"@)) is Some {
            fault_of(enum_member::<DepositStatus>(j, "status"@))
        } else if fault_of(opt_str_member(j, "txId"@)) is Some {
            fault_of(opt_str_member(j, "txId"@))
        } else if fault_of(opt_str_member(j, "address"@)) is Some {
            fault_of(opt_str_member(j, "address"@))
        } else if fault_of(opt_str_member(j, "paymentId"@)) is Some {
            fault_of(opt_str_member(j, "paymentId"@))
        } else {
            None
        }
    }

    open spec fn decodes(j: Json, v: Self) -> bool {
        &&& u64_member(j, "timestamp"@) == Ok::<u64, CodecFault>(v.timestamp)
        &&& str_member(j, "symbol"@) == Ok::<Seq<char>, CodecFault>(v.symbol@)
        &&& str_member(j, "amount"@) == Ok::<Seq<char>, CodecFault>(v.amount@)
        &&& str_member(j, "fee"@) == Ok::<Seq<char>, CodecFault>(v.fee@)
        &&& enum_member::<DepositStatus>(j, "status"@) == Ok::<DepositStatus, CodecFault>(v.status)
        &&& opt_str_member(j, "txId"@) == Ok::<Option<Seq<char>>, CodecFault>(opt_view(v.tx_id))
        &&& opt_str_member(j, "address"@) == Ok::<Option<Seq<char>>, CodecFault>(opt_view(v.address))
        &&& opt_str_member(j, "paymentId"@) == Ok::<Option<Seq<char>>, CodecFault>(opt_view(v.payment_id))
    }

    fn from_json(j: &Json) -> (r: Result<Self, CodecError>) {
        object_check(j, "Deposit")?;
        let timestamp = req_u64(j, "timestamp")?;
        let symbol = req_str(j, "symbol")?;
        let amount = req_str(j, "amount")?;
        let fee = req_str(j, "fee")?;
        let status = req_enum::<DepositStatus>(j, "status")?;
        let tx_id = opt_str(j, "txId")?;
        let address = opt_str(j, "address")?;
        let payment_id = opt_str(j, "paymentId")?;
        Ok(Deposit { timestamp, symbol, amount, fee, status, tx_id, address, payment_id })
    }
}

/// A withdrawal from the account.
#[derive(Debug)]
pub struct Withdrawal {
    pub timestamp: u64,
    pub symbol: String,
    pub amount: String,
    pub address: Option<String>,
    pub payment_id: Option<String>,
    pub tx_id: Option<String>,
    pub fee: String,
    pub status: WithdrawalStatus,
}

/// Read from a JSON object; the fields are read in the order above, and the
/// first one refused decides the error.
impl FromJson for Withdrawal {
    open spec fn json_fault(j: Json) -> Option<CodecFault> {
        if object_fault(j, "Withdrawal"@) is Some {
            object_fault(j, "Withdrawal"@)
        } else if fault_of(u64_member(j, "timestamp"@)) is Some {
            fault_of(u64_member(j, "timestamp"@))
        } else if fault_of(str_member(j, "symbol"@)) is Some {
            fault_of(str_member(j, "symbol"@))
        } else if fault_of(str_member(j, "amount"@)) is Some {
            fault_of(str_member(j, "amount"@))
        } else if fault_of(opt_str_member(j, "address"@)) is Some {
            fault_of(opt_str_member(j, "address"@))
        } else if fault_of(opt_str_member(j, "paymentId"@)) is Some {
            fault_of(opt_str_member(j, "paymentId"@))
        } else if fault_of(opt_str_member(j, "txId"@)) is Some {
            fault_of(opt_str_member(j, "txId"@))
        } else if fault_of(str_member(j, "fee"@)) is Some {
            fault_of(str_member(j, "fee"@))
        } else if fault_of(enum_member::<WithdrawalStatus>(j, "status"@)) is Some {
            fault_of(enum_member::<WithdrawalStatus>(j, "status"@))
        } else {
            None
        }
    }

    open spec fn decodes(j: Json, v: Self) -> bool {
        &&& u64_member(j, "timestamp"@) == Ok::<u64, CodecFault>(v.timestamp)
        &&& str_member(j, "symbol"@) == Ok::<Seq<char>, CodecFault>(v.symbol@)
        &&& str_member(j, "amount"@) == Ok::<Seq<char>, CodecFault>(v.amount@)
        &&& opt_str_member(j, "address"@) == Ok::<Option<Seq<char>>, CodecFault>(opt_view(v.address))
        &&& opt_str_member(j, "paymentId"@) == Ok::<Option<Seq<char>>, CodecFault>(opt_view(v.payment_id))
        &&& opt_str_member(j, "txId"@) == Ok::<Option<Seq<char>>, CodecFault>(opt_view(v.tx_id))
        &&& str_member(j, "fee"@) == Ok::<Seq<char>, CodecFault>(v.fee@)
        &&& enum_member::<WithdrawalStatus>(j, "status"@) == Ok::<WithdrawalStatus, CodecFault>(v.status)
    }

    fn from_json(j: &Json) -> (r: Result<Self, CodecError>) {
        object_check(j, "Withdrawal")?;
        let timestamp = req_u64(j, "timestamp")?;
        let symbol = req_str(j, "symbol")?;
        let amount = req_str(j, "amount")?;
        let address = opt_str(j, "address")?;
        let payment_id = opt_str(j, "paymentId")?;
        let tx_id = opt_str(j, "txId")?;
        let fee = req_str(j, "fee")?;
        let status = req_enum::<WithdrawalStatus>(j, "status")?;
        Ok(Withdrawal { timestamp, symbol, amount, address, payment_id, tx_id, fee, status })
    }
}

/// The exchange's answer to a withdrawal order.
#[derive(Debug)]
pub struct WithdrawalOrderResponse {
    pub success: bool,
    pub symbol: String,
    pub amount: String,
}

/// Read from a JSON object; the fields are read in the order above, and the
/// first one refused decides the error.
impl FromJson for WithdrawalOrderResponse {
    open spec fn json_fault(j: Json) -> Option<CodecFault> {
        if object_fault(j, "WithdrawalOrderResponse"@) is Some {
            object_fault(j, "WithdrawalOrderResponse"@)
        } else if fault_of(bool_member(j, "success"@)) is Some {
            fault_of(bool_member(j, "success"@))
        } else if fault_of(str_member(j, "symbol"@)) is Some {
            fault_of(str_member(j, "symbol"@))
        } else if fault_of(str_member(j, "amount"@)) is Some {
            fault_of(str_member(j, "amount"@))
        } else {
            None
        }
    }

    open spec fn decodes(j: Json, v: Self) -> bool {
        &&& bool_member(j, "success"@) == Ok::<bool, CodecFault>(v.success)
        &&& str_member(j, "symbol"@) == Ok::<Seq<char>, CodecFault>(v.symbol@)
        &&& str_member(j, "amount"@) == Ok::<Seq<char>, CodecFault>(v.amount@)
    }

    fn from_json(j: &Json) -> (r: Result<Self, CodecError>) {
        object_check(j, "WithdrawalOrderResponse")?;
        let success = req_bool(j, "success")?;
        let symbol = req_str(j, "symbol")?;
        let amount = req_str(j, "amount")?;
        Ok(WithdrawalOrderResponse { success, symbol, amount })
    }
}

/// The exchange's answer to an order.
#[derive(Debug)]
pub struct OrderResponse {
    pub market: String,
    pub order_id: u128,
    pub client_order_id: Option<u128>,
    pub created: u64,
    pub updated: u64,
}

/// Read from a JSON object; the fields are read in the order above, and the
/// first one refused decides the error.
impl FromJson for OrderResponse {
    open spec fn json_fault(j: Json) -> Option<CodecFault> {
        if object_fault(j, "OrderResponse"@) is Some {
            object_fault(j, "OrderResponse"@)
        } else if fault_of(str_member(j, "market"@)) is Some {
            fault_of(str_member(j, "market"@))
        } else if fault_of(uuid_member(j, "orderId"@)) is Some {
            fault_of(uuid_member(j, "orderId"@))
        } else if fault_of(opt_uuid_member(j, "clientOrderId"@)) is Some {
            fault_of(opt_uuid_member(j, "clientOrderId"@))
        } else if fault_of(u64_member(j, "created"@)) is Some {
            fault_of(u64_member(j, "created"@))
        } else if fault_of(u64_member(j, "updated"@)) is Some {
            fault_of(u64_member(j, "updated"@))
        } else {
            None
        }
    }

    open spec fn decodes(j: Json, v: Self) -> bool {
        &&& str_member(j, "market"@) == Ok::<Seq<char>, CodecFault>(v.market@)
        &&& uuid_member(j, "orderId"@) == Ok::<u128, CodecFault>(v.order_id)
        &&& opt_uuid_member(j, "clientOrderId"@) == Ok::<Option<u128>, CodecFault>(v.client_order_id)
        &&& u64_member(j, "created"@) == Ok::<u64, CodecFault>(v.created)
        &&& u64_member(j, "updated"@) == Ok::<u64, CodecFault>(v.updated)
    }

    fn from_json(j: &Json) -> (r: Result<Self, CodecError>) {
        object_check(j, "OrderResponse")?;
        let market = req_str(j, "market")?;
        let order_id = req_uuid(j, "orderId")?;
        let client_order_id = opt_uuid(j, "clientOrderId")?;
        let created = req_u64(j, "created")?;
        let updated = req_u64(j, "updated")?;
        Ok(OrderResponse { market, order_id, client_order_id, created, updated })
    }
}
/// `j` is the JSON string `s`.
pub open spec fn str_json(j: Json, s: Seq<char>) -> bool {
    j is Str && j->Str_0@ == s
}

/// `j` is the JSON string `s` where `o` is `Some(s)`, and `null` otherwise.
pub open spec fn opt_str_json(j: Json, o: Option<Seq<char>>) -> bool {
    match o {
        Some(s) => str_json(j, s),
        None => j is Null,
    }
}

pub open spec fn opt_token_json<E: WireEnum>(j: Json, o: Option<E>) -> bool {
    match o {
        Some(e) => str_json(j, e.token()),
        None => j is Null,
    }
}

pub open spec fn opt_bool_json(j: Json, o: Option<bool>) -> bool {
    match o {
        Some(b) => j == Json::Bool(b),
        None => j is Null,
    }
}

pub open spec fn opt_uuid_json(j: Json, o: Option<u128>) -> bool {
    match o {
        Some(u) => str_json(j, uuid_text(u)),
        None => j is Null,
    }
}

/// The member names of the object `j`, in order.
pub open spec fn member_names(j: Json) -> Seq<Seq<char>> {
    j->Object_0@.map_values(|e: (String, Json)| e.0@)
}

/// The value of member `k` of the object `j`.
pub open spec fn member_at(j: Json, k: int) -> Json {
    j->Object_0@[k].1
}

fn str_value(s: &str) -> (r: Json)
    ensures
        str_json(r, s@),
{
    Json::Str(String::from_str(s))
}

fn opt_str_value(o: &Option<String>) -> (r: Json)
    ensures
        opt_str_json(r, opt_view(*o)),
{
    match o {
        Some(s) => Json::Str(s.clone()),
        None => Json::Null,
    }
}

fn opt_token_value<E: WireEnum>(o: &Option<E>) -> (r: Json)
    ensures
        opt_token_json(r, *o),
{
    match o {
        Some(e) => str_value(e.as_str()),
        None => Json::Null,
    }
}

fn opt_bool_value(o: Option<bool>) -> (r: Json)
    ensures
        opt_bool_json(r, o),
{
    match o {
        Some(b) => Json::Bool(b),
        None => Json::Null,
    }
}

fn opt_uuid_value(o: Option<u128>) -> (r: Json)
    ensures
        opt_uuid_json(r, o),
{
    match o {
        Some(u) => Json::Str(uuid_string(u)),
        None => Json::Null,
    }
}

/// An order to withdraw an asset.
#[derive(Debug)]
pub struct WithdrawOrder {
    pub symbol: String,
    pub amount: String,
    pub address: String,
    pub payment_id: Option<String>,
    pub internal: bool,
    pub add_withdrawal_fee: bool,
}

impl WithdrawOrder {
    /// `j` is the wire form of `self`: an object with one member per field, in
    /// order, an absent payment id as `null`.
    pub open spec fn encoded_as(self, j: Json) -> bool {
        &&& j is Object
        &&& member_names(j) == seq![
            "symbol"@,
            "amount"@,
            "address"@,
            "paymentId"@,
            "internal"@,
            "addWithdrawalFee"@,
        ]
        &&& str_json(member_at(j, 0), self.symbol@)
        &&& str_json(member_at(j, 1), self.amount@)
        &&& str_json(member_at(j, 2), self.address@)
        &&& opt_str_json(member_at(j, 3), opt_view(self.payment_id))
        &&& member_at(j, 4) == Json::Bool(self.internal)
        &&& member_at(j, 5) == Json::Bool(self.add_withdrawal_fee)
    }

    /// The wire form of this order.
    pub fn to_json(&self) -> (r: Json)
        ensures
            self.encoded_as(r),
    {
        let mut e: Vec<(String, Json)> = Vec::new();
        e.push((name_text("symbol"), str_value(self.symbol.as_str())));
        e.push((name_text("amount"), str_value(self.amount.as_str())));
        e.push((name_text("address"), str_value(self.address.as_str())));
        e.push((name_text("paymentId"), opt_str_value(&self.payment_id)));
        e.push((name_text("internal"), Json::Bool(self.internal)));
        e.push((name_text("addWithdrawalFee"), Json::Bool(self.add_withdrawal_fee)));
        let r = Json::Object(e);
        assert(member_names(r) =~= seq![
            "symbol"@,
            "amount"@,
            "address"@,
            "paymentId"@,
            "internal"@,
            "addWithdrawalFee"@,
        ]);
        r
    }
}

/// An order to buy or sell on a market. `client_order_id` holds the 128 bits
/// of a UUID.
#[derive(Debug)]
pub struct Order {
    pub market: String,
    pub side: TradeSide,
    pub order_type: OrderType,
    pub client_order_id: Option<u128>,
    pub amount: Option<String>,
    pub amount_quote: Option<String>,
    pub price: Option<String>,
    pub trigger_amount: Option<String>,
    pub trigger_type: Option<TriggerType>,
    pub trigger_reference: Option<TriggerReference>,
    pub time_in_force: Option<TimeInForce>,
    pub post_only: Option<bool>,
    pub self_trade_prevention: Option<SelfTradePrevention>,
    pub disable_market_protection: bool,
    pub response_required: bool,
}

impl Order {
    /// `j` is the wire form of `self`: an object with one member per field, in
    /// order; an absent value is `null`, an enumeration its token and the client
    /// order id the hyphenated text of the UUID.
    pub open spec fn encoded_as(self, j: Json) -> bool {
        &&& j is Object
        &&& member_names(j) == seq![
            "market"@,
            "side"@,
            "orderType"@,
            "clientOrderId"@,
            "amount"@,
            "amountQuote"@,
            "price"@,
            "triggerAmount"@,
            "triggerType"@,
            "triggerReference"@,
            "timeInForce"@,
            "postOnly"@,
            "selfTradePrevention"@,
            "disableMarketProtection"@,
            "responseRequired"@,
        ]
        &&& str_json(member_at(j, 0), self.market@)
        &&& str_json(member_at(j, 1), self.side.token())
        &&& str_json(member_at(j, 2), self.order_type.token())
        &&& opt_uuid_json(member_at(j, 3), self.client_order_id)
        &&& opt_str_json(member_at(j, 4), opt_view(self.amount))
        &&& opt_str_json(member_at(j, 5), opt_view(self.amount_quote))
        &&& opt_str_json(member_at(j, 6), opt_view(self.price))
        &&& opt_str_json(member_at(j, 7), opt_view(self.trigger_amount))
        &&& opt_token_json(member_at(j, 8), self.trigger_type)
        &&& opt_token_json(member_at(j, 9), self.trigger_reference)
        &&& opt_token_json(member_at(j, 10), self.time_in_force)
        &&& opt_bool_json(member_at(j, 11), self.post_only)
        &&& opt_token_json(member_at(j, 12), self.self_trade_prevention)
        &&& member_at(j, 13) == Json::Bool(self.disable_market_protection)
        &&& member_at(j, 14) == Json::Bool(self.response_required)
    }

    /// The wire form of this order.
    pub fn to_json(&self) -> (r: Json)
        ensures
            self.encoded_as(r),
    {
        let mut e: Vec<(String, Json)> = Vec::new();
        e.push((name_text("market"), str_value(self.market.as_str())));
        e.push((name_text("side"), str_value(self.side.as_str())));
        e.push((name_text("orderType"), str_value(self.order_type.as_str())));
        e.push((name_text("clientOrderId"), opt_uuid_value(self.client_order_id)));
        e.push((name_text("amount"), opt_str_value(&self.amount)));
        e.push((name_text("amountQuote"), opt_str_value(&self.amount_quote)));
        e.push((name_text("price"), opt_str_value(&self.price)));
        e.push((name_text("triggerAmount"), opt_str_value(&self.trigger_amount)));
        e.push((name_text("triggerType"), opt_token_value(&self.trigger_type)));
        e.push((name_text("triggerReference"), opt_token_value(&self.trigger_reference)));
        e.push((name_text("timeInForce"), opt_token_value(&self.time_in_force)));
        e.push((name_text("postOnly"), opt_bool_value(self.post_only)));
        e.push((name_text("selfTradePrevention"), opt_token_value(&self.self_trade_prevention)));
        e.push((name_text("disableMarketProtection"), Json::Bool(self.disable_market_protection)));
        e.push((name_text("responseRequired"), Json::Bool(self.response_required)));
        let r = Json::Object(e);
        assert(member_names(r) =~= seq![
            "market"@,
            "side"@,
            "orderType"@,
            "clientOrderId"@,
            "amount"@,
            "amountQuote"@,
            "price"@,
            "triggerAmount"@,
            "triggerType"@,
            "triggerReference"@,
            "timeInForce"@,
            "postOnly"@,
            "selfTradePrevention"@,
            "disableMarketProtection"@,
            "responseRequired"@,
        ]);
        r
    }
}

} // verus!
