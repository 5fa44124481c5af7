//! The closed enumerations of the exchange and their wire tokens: each value
//! has one fixed, case-sensitive token, and any other text is refused.
use vstd::prelude::*;

use crate::json::{member, name_text, CodecError, CodecFault, Json};

verus! {

/// Whether two strings hold the same characters.
pub fn same_text(a: &str, b: &str) -> (r: bool)
    ensures
        r == (a@ == b@),
{
    String::from_str(a) == String::from_str(b)
}

/// A closed enumeration with one wire token per value.
pub trait WireEnum: Sized {
    /// The token of `self`.
    spec fn token(self) -> Seq<char>;

    /// The accepted tokens, as an error message lists them.
    spec fn expected() -> Seq<char>;

    /// Distinct values have distinct tokens.
    proof fn lemma_token_injective(a: Self, b: Self)
        ensures
            a.token() == b.token() ==> a == b,
    ;

    /// The token of `self`.
    fn as_str(&self) -> (r: &'static str)
        ensures
            r@ == self.token(),
    ;

    /// The value whose token is `s`; any other text is an `InvalidValue`
    /// error that names `s` and lists the accepted tokens.
    fn from_wire(s: &str) -> (r: Result<Self, CodecError>)
        ensures
            match r {
                Ok(v) => v.token() == s@,
                Err(e) => {
                    &&& forall|v: Self| #[trigger] v.token() != s@
                    &&& e@ == CodecFault::InvalidValue(s@, Self::expected())
                },
            },
    ;
}

/// Decoding the token of a value gives that value back: a value whose token
/// is that of `v` is `v`. (That encoding what a token decodes to gives the
/// token back, and that any other text is refused, is what `from_wire` ensures.)
pub proof fn lemma_wire_round_trip<E: WireEnum>(v: E, w: E)
    requires
        w.token() == v.token(),
    ensures
        w == v,
{
    E::lemma_token_injective(v, w);
}

/// Time interval between each candlestick.
#[derive(Clone, Copy, Debug, PartialEq, Eq, Structural)]
pub enum CandleInterval {
    OneMinute,
    FiveMinutes,
    FifteenMinutes,
    ThirtyMinutes,
    OneHour,
    TwoHours,
    FourHours,
    SixHours,
    EightHours,
    TwelveHours,
    OneDay,
}

impl WireEnum for CandleInterval {
    open spec fn token(self) -> Seq<char> {
        match self {
            CandleInterval::OneMinute => "1m"@,
            CandleInterval::FiveMinutes => "5m"@,
            CandleInterval::FifteenMinutes => "15m"@,
            CandleInterval::ThirtyMinutes => "30m"@,
            CandleInterval::OneHour => "1h"@,
            CandleInterval::TwoHours => "2h"@,
            CandleInterval::FourHours => "4h"@,
            CandleInterval::SixHours => "6h"@,
            CandleInterval::EightHours => "8h"@,
            CandleInterval::TwelveHours => "12h"@,
            CandleInterval::OneDay => "1d"@,
        }
    }

    open spec fn expected() -> Seq<char> {
        "[1m, 5m, 15m, 30m, 1h, 2h, 4h, 6h, 8h, 12h, 1d]"@
    }

    proof fn lemma_token_injective(a: Self, b: Self) {
        reveal_strlit("1m");
        reveal_strlit("5m");
        reveal_strlit("15m");
        reveal_strlit("30m");
        reveal_strlit("1h");
        reveal_strlit("2h");
        reveal_strlit("4h");
        reveal_strlit("6h");
        reveal_strlit("8h");
        reveal_strlit("12h");
        reveal_strlit("1d");
        if a.token() == b.token() {
            assert(a.token().len() == b.token().len());
            assert(a.token()[0] == b.token()[0]);
            assert(a.token()[1] == b.token()[1]);
        }
    }

    fn as_str(&self) -> (r: &'static str) {
        match self {
            CandleInterval::OneMinute => "1m",
            CandleInterval::FiveMinutes => "5m",
            CandleInterval::FifteenMinutes => "15m",
            CandleInterval::ThirtyMinutes => "30m",
            CandleInterval::OneHour => "1h",
            CandleInterval::TwoHours => "2h",
            CandleInterval::FourHours => "4h",
            CandleInterval::SixHours => "6h",
            CandleInterval::EightHours => "8h",
            CandleInterval::TwelveHours => "12h",
            CandleInterval::OneDay => "1d",
        }
    }

    fn from_wire(s: &str) -> (r: Result<Self, CodecError>) {
        if same_text(s, "1m") {
            Ok(CandleInterval::OneMinute)
        } else if same_text(s, "5m") {
            Ok(CandleInterval::FiveMinutes)
        } else if same_text(s, "15m") {
            Ok(CandleInterval::FifteenMinutes)
        } else if same_text(s, "30m") {
            Ok(CandleInterval::ThirtyMinutes)
        } else if same_text(s, "1h") {
            Ok(CandleInterval::OneHour)
        } else if same_text(s, "2h") {
            Ok(CandleInterval::TwoHours)
        } else if same_text(s, "4h") {
            Ok(CandleInterval::FourHours)
        } else if same_text(s, "6h") {
            Ok(CandleInterval::SixHours)
        } else if same_text(s, "8h") {
            Ok(CandleInterval::EightHours)
        } else if same_text(s, "12h") {
            Ok(CandleInterval::TwelveHours)
        } else if same_text(s, "1d") {
            Ok(CandleInterval::OneDay)
        } else {
            Err(CodecError::InvalidValue {
                value: String::from_str(s),
                expected: String::from_str("[1m, 5m, 15m, 30m, 1h, 2h, 4h, 6h, 8h, 12h, 1d]"),
            })
        }
    }
}

/// The deposit or withdrawal status of an asset.
#[derive(Clone, Copy, Debug, PartialEq, Eq, Structural)]
pub enum AssetStatus {
    Okay,
    Maintenance,
    Delisted,
}

impl WireEnum for AssetStatus {
    open spec fn token(self) -> Seq<char> {
        match self {
            AssetStatus::Okay => "OK"@,
            AssetStatus::Maintenance => "MAINTENANCE"@,
            AssetStatus::Delisted => "DELISTED"@,
        }
    }

    open spec fn expected() -> Seq<char> {
        "[OK, MAINTENANCE, DELISTED]"@
    }

    proof fn lemma_token_injective(a: Self, b: Self) {
        reveal_strlit("OK");
        reveal_strlit("MAINTENANCE");
        reveal_strlit("DELISTED");
        if a.token() == b.token() {
            assert(a.token().len() == b.token().len());
        }
    }

    fn as_str(&self) -> (r: &'static str) {
        match self {
            AssetStatus::Okay => "OK",
            AssetStatus::Maintenance => "MAINTENANCE",
            AssetStatus::Delisted => "DELISTED",
        }
    }

    fn from_wire(s: &str) -> (r: Result<Self, CodecError>) {
        if same_text(s, "OK") {
            Ok(AssetStatus::Okay)
        } else if same_text(s, "MAINTENANCE") {
            Ok(AssetStatus::Maintenance)
        } else if same_text(s, "DELISTED") {
            Ok(AssetStatus::Delisted)
        } else {
            Err(CodecError::InvalidValue {
                value: String::from_str(s),
                expected: String::from_str("[OK, MAINTENANCE, DELISTED]"),
            })
        }
    }
}

/// The status of a market.
#[derive(Clone, Copy, Debug, PartialEq, Eq, Structural)]
pub enum MarketStatus {
    Trading,
    Halted,
    Auction,
}

impl WireEnum for MarketStatus {
    open spec fn token(self) -> Seq<char> {
        match self {
            MarketStatus::Trading => "trading"@,
            MarketStatus::Halted => "halted"@,
            MarketStatus::Auction => "auction"@,
        }
    }

    open spec fn expected() -> Seq<char> {
        "[trading, halted, auction]"@
    }

    proof fn lemma_token_injective(a: Self, b: Self) {
        reveal_strlit("trading");
        reveal_strlit("halted");
        reveal_strlit("auction");
        if a.token() == b.token() {
            assert(a.token().len() == b.token().len());
            assert(a.token()[0] == b.token()[0]);
        }
    }

    fn as_str(&self) -> (r: &'static str) {
        match self {
            MarketStatus::Trading => "trading",
            MarketStatus::Halted => "halted",
            MarketStatus::Auction => "auction",
        }
    }

    fn from_wire(s: &str) -> (r: Result<Self, CodecError>) {
        if same_text(s, "trading") {
            Ok(MarketStatus::Trading)
        } else if same_text(s, "halted") {
            Ok(MarketStatus::Halted)
        } else if same_text(s, "auction") {
            Ok(MarketStatus::Auction)
        } else {
            Err(CodecError::InvalidValue {
                value: String::from_str(s),
                expected: String::from_str("[trading, halted, auction]"),
            })
        }
    }
}

/// The side of a trade.
#[derive(Clone, Copy, Debug, PartialEq, Eq, Structural)]
pub enum TradeSide {
    Buy,
    Sell,
}

impl WireEnum for TradeSide {
    open spec fn token(self) -> Seq<char> {
        match self {
            TradeSide::Buy => "buy"@,
            TradeSide::Sell => "sell"@,
        }
    }

    open spec fn expected() -> Seq<char> {
        "[buy, sell]"@
    }

    proof fn lemma_token_injective(a: Self, b: Self) {
        reveal_strlit("buy");
        reveal_strlit("sell");
        if a.token() == b.token() {
            assert(a.token().len() == b.token().len());
        }
    }

    fn as_str(&self) -> (r: &'static str) {
        match self {
            TradeSide::Buy => "buy",
            TradeSide::Sell => "sell",
        }
    }

    fn from_wire(s: &str) -> (r: Result<Self, CodecError>) {
        if same_text(s, "buy") {
            Ok(TradeSide::Buy)
        } else if same_text(s, "sell") {
            Ok(TradeSide::Sell)
        } else {
            Err(CodecError::InvalidValue {
                value: String::from_str(s),
                expected: String::from_str("[buy, sell]"),
            })
        }
    }
}

/// The status of a deposit.
#[derive(Clone, Copy, Debug, PartialEq, Eq, Structural)]
pub enum DepositStatus {
    Completed,
    Canceled,
}

impl WireEnum for DepositStatus {
    open spec fn token(self) -> Seq<char> {
        match self {
            DepositStatus::Completed => "completed"@,
            DepositStatus::Canceled => "canceled"@,
        }
    }

    open spec fn expected() -> Seq<char> {
        "[completed, canceled]"@
    }

    proof fn lemma_token_injective(a: Self, b: Self) {
        reveal_strlit("completed");
        reveal_strlit("canceled");
        if a.token() == b.token() {
            assert(a.token().len() == b.token().len());
        }
    }

    fn as_str(&self) -> (r: &'static str) {
        match self {
            DepositStatus::Completed => "completed",
            DepositStatus::Canceled => "canceled",
        }
    }

    fn from_wire(s: &str) -> (r: Result<Self, CodecError>) {
        if same_text(s, "completed") {
            Ok(DepositStatus::Completed)
        } else if same_text(s, "canceled") {
            Ok(DepositStatus::Canceled)
        } else {
            Err(CodecError::InvalidValue {
                value: String::from_str(s),
                expected: String::from_str("[completed, canceled]"),
            })
        }
    }
}

/// The status of a withdrawal.
#[derive(Clone, Copy, Debug, PartialEq, Eq, Structural)]
pub enum WithdrawalStatus {
    AwaitingProcessing,
    AwaitingEmailConfirmation,
    AwaitingBitvavoInspection,
    Approved,
    Sending,
    InMempool,
    Processed,
    Completed,
    Canceled,
}

impl WireEnum for WithdrawalStatus {
    open spec fn token(self) -> Seq<char> {
        match self {
            WithdrawalStatus::AwaitingProcessing => "awaiting_processing"@,
            WithdrawalStatus::AwaitingEmailConfirmation => "awaiting_email_confirmation"@,
            WithdrawalStatus::AwaitingBitvavoInspection => "awaiting_bitvavo_inspection"@,
            WithdrawalStatus::Approved => "approved"@,
            WithdrawalStatus::Sending => "sending"@,
            WithdrawalStatus::InMempool => "in_mempool"@,
            WithdrawalStatus::Processed => "processed"@,
            WithdrawalStatus::Completed => "completed"@,
            WithdrawalStatus::Canceled => "canceled"@,
        }
    }

    open spec fn expected() -> Seq<char> {
        "[awaiting_processing, awaiting_email_confirmation, awaiting_bitvavo_inspection, approved, sending, in_mempool, processed, completed, canceled]"@
    }

    proof fn lemma_token_injective(a: Self, b: Self) {
        reveal_strlit("awaiting_processing");
        reveal_strlit("awaiting_email_confirmation");
        reveal_strlit("awaiting_bitvavo_inspection");
        reveal_strlit("approved");
        reveal_strlit("sending");
        reveal_strlit("in_mempool");
        reveal_strlit("processed");
        reveal_strlit("completed");
        reveal_strlit("canceled");
        if a.token() == b.token() {
            assert(a.token().len() == b.token().len());
            assert(a.token()[0] == b.token()[0]);
            assert(a.token()[9] == b.token()[9]);
        }
    }

    fn as_str(&self) -> (r: &'static str) {
        match self {
            WithdrawalStatus::AwaitingProcessing => "awaiting_processing",
            WithdrawalStatus::AwaitingEmailConfirmation => "awaiting_email_confirmation",
            WithdrawalStatus::AwaitingBitvavoInspection => "awaiting_bitvavo_inspection",
            WithdrawalStatus::Approved => "approved",
            WithdrawalStatus::Sending => "sending",
            WithdrawalStatus::InMempool => "in_mempool",
            WithdrawalStatus::Processed => "processed",
            WithdrawalStatus::Completed => "completed",
            WithdrawalStatus::Canceled => "canceled",
        }
    }

    fn from_wire(s: &str) -> (r: Result<Self, CodecError>) {
        if same_text(s, "awaiting_processing") {
            Ok(WithdrawalStatus::AwaitingProcessing)
        } else if same_text(s, "awaiting_email_confirmation") {
            Ok(WithdrawalStatus::AwaitingEmailConfirmation)
        } else if same_text(s, "awaiting_bitvavo_inspection") {
            Ok(WithdrawalStatus::AwaitingBitvavoInspection)
        } else if same_text(s, "approved") {
            Ok(WithdrawalStatus::Approved)
        } else if same_text(s, "sending") {
            Ok(WithdrawalStatus::Sending)
        } else if same_text(s, "in_mempool") {
            Ok(WithdrawalStatus::InMempool)
        } else if same_text(s, "processed") {
            Ok(WithdrawalStatus::Processed)
        } else if same_text(s, "completed") {
            Ok(WithdrawalStatus::Completed)
        } else if same_text(s, "canceled") {
            Ok(WithdrawalStatus::Canceled)
        } else {
            Err(CodecError::InvalidValue {
                value: String::from_str(s),
                expected: String::from_str("[awaiting_processing, awaiting_email_confirmation, awaiting_bitvavo_inspection, approved, sending, in_mempool, processed, completed, canceled]"),
            })
        }
    }
}

/// The type of an order.
#[derive(Clone, Copy, Debug, PartialEq, Eq, Structural)]
pub enum OrderType {
    Market,
    Limit,
    StopLoss,
    StopLossLimit,
    TakeProfit,
    TakeProfitLimit,
}

impl WireEnum for OrderType {
    open spec fn token(self) -> Seq<char> {
        match self {
            OrderType::Market => "market"@,
            OrderType::Limit => "limit"@,
            OrderType::StopLoss => "stopLoss"@,
            OrderType::StopLossLimit => "stopLossLimit"@,
            OrderType::TakeProfit => "takeProfit"@,
            OrderType::TakeProfitLimit => "takeProfitLimit"@,
        }
    }

    open spec fn expected() -> Seq<char> {
        "[market, limit, stopLoss, stopLossLimit, takeProfit, takeProfitLimit]"@
    }

    proof fn lemma_token_injective(a: Self, b: Self) {
        reveal_strlit("market");
        reveal_strlit("limit");
        reveal_strlit("stopLoss");
        reveal_strlit("stopLossLimit");
        reveal_strlit("takeProfit");
        reveal_strlit("takeProfitLimit");
        if a.token() == b.token() {
            assert(a.token().len() == b.token().len());
        }
    }

    fn as_str(&self) -> (r: &'static str) {
        match self {
            OrderType::Market => "market",
            OrderType::Limit => "limit",
            OrderType::StopLoss => "stopLoss",
            OrderType::StopLossLimit => "stopLossLimit",
            OrderType::TakeProfit => "takeProfit",
            OrderType::TakeProfitLimit => "takeProfitLimit",
        }
    }

    fn from_wire(s: &str) -> (r: Result<Self, CodecError>) {
        if same_text(s, "market") {
            Ok(OrderType::Market)
        } else if same_text(s, "limit") {
            Ok(OrderType::Limit)
        } else if same_text(s, "stopLoss") {
            Ok(OrderType::StopLoss)
        } else if same_text(s, "stopLossLimit") {
            Ok(OrderType::StopLossLimit)
        } else if same_text(s, "takeProfit") {
            Ok(OrderType::TakeProfit)
        } else if same_text(s, "takeProfitLimit") {
            Ok(OrderType::TakeProfitLimit)
        } else {
            Err(CodecError::InvalidValue {
                value: String::from_str(s),
                expected: String::from_str("[market, limit, stopLoss, stopLossLimit, takeProfit, takeProfitLimit]"),
            })
        }
    }
}

/// The type of trigger that causes an order to be filled.
#[derive(Clone, Copy, Debug, PartialEq, Eq, Structural)]
pub enum TriggerType {
    Price,
}

impl WireEnum for TriggerType {
    open spec fn token(self) -> Seq<char> {
        match self {
            TriggerType::Price => "price"@,
        }
    }

    open spec fn expected() -> Seq<char> {
        "[price]"@
    }

    proof fn lemma_token_injective(a: Self, b: Self) {
        reveal_strlit("price");
        if a.token() == b.token() {
            assert(a.token().len() == b.token().len());
        }
    }

    fn as_str(&self) -> (r: &'static str) {
        match self {
            TriggerType::Price => "price",
        }
    }

    fn from_wire(s: &str) -> (r: Result<Self, CodecError>) {
        if same_text(s, "price") {
            Ok(TriggerType::Price)
        } else {
            Err(CodecError::InvalidValue {
                value: String::from_str(s),
                expected: String::from_str("[price]"),
            })
        }
    }
}

/// The price that triggers an order to be filled.
#[derive(Clone, Copy, Debug, PartialEq, Eq, Structural)]
pub enum TriggerReference {
    LastTrade,
    BestBid,
    BestAsk,
    MidPrice,
}

impl WireEnum for TriggerReference {
    open spec fn token(self) -> Seq<char> {
        match self {
            TriggerReference::LastTrade => "lastTrade"@,
            TriggerReference::BestBid => "bestBid"@,
            TriggerReference::BestAsk => "bestAsk"@,
            TriggerReference::MidPrice => "midPrice"@,
        }
    }

    open spec fn expected() -> Seq<char> {
        "[lastTrade, bestBid, bestAsk, midPrice]"@
    }

    proof fn lemma_token_injective(a: Self, b: Self) {
        reveal_strlit("lastTrade");
        reveal_strlit("bestBid");
        reveal_strlit("bestAsk");
        reveal_strlit("midPrice");
        if a.token() == b.token() {
            assert(a.token().len() == b.token().len());
            assert(a.token()[4] == b.token()[4]);
        }
    }

    fn as_str(&self) -> (r: &'static str) {
        match self {
            TriggerReference::LastTrade => "lastTrade",
            TriggerReference::BestBid => "bestBid",
            TriggerReference::BestAsk => "bestAsk",
            TriggerReference::MidPrice => "midPrice",
        }
    }

    fn from_wire(s: &str) -> (r: Result<Self, CodecError>) {
        if same_text(s, "lastTrade") {
            Ok(TriggerReference::LastTrade)
        } else if same_text(s, "bestBid") {
            Ok(TriggerReference::BestBid)
        } else if same_text(s, "bestAsk") {
            Ok(TriggerReference::BestAsk)
        } else if same_text(s, "midPrice") {
            Ok(TriggerReference::MidPrice)
        } else {
            Err(CodecError::InvalidValue {
                value: String::from_str(s),
                expected: String::from_str("[lastTrade, bestBid, bestAsk, midPrice]"),
            })
        }
    }
}

/// How long an order remains active.
#[derive(Clone, Copy, Debug, PartialEq, Eq, Structural)]
pub enum TimeInForce {
    GoodTillCancelled,
    FillOrKill,
    ImmediateOrCancel,
}

impl WireEnum for TimeInForce {
    open spec fn token(self) -> Seq<char> {
        match self {
            TimeInForce::GoodTillCancelled => "GTC"@,
            TimeInForce::FillOrKill => "FOK"@,
            TimeInForce::ImmediateOrCancel => "IOC"@,
        }
    }

    open spec fn expected() -> Seq<char> {
        "[GTC, FOK, IOC]"@
    }

    proof fn lemma_token_injective(a: Self, b: Self) {
        reveal_strlit("GTC");
        reveal_strlit("FOK");
        reveal_strlit("IOC");
        if a.token() == b.token() {
            assert(a.token().len() == b.token().len());
            assert(a.token()[0] == b.token()[0]);
        }
    }

    fn as_str(&self) -> (r: &'static str) {
        match self {
            TimeInForce::GoodTillCancelled => "GTC",
            TimeInForce::FillOrKill => "FOK",
            TimeInForce::ImmediateOrCancel => "IOC",
        }
    }

    fn from_wire(s: &str) -> (r: Result<Self, CodecError>) {
        if same_text(s, "GTC") {
            Ok(TimeInForce::GoodTillCancelled)
        } else if same_text(s, "FOK") {
            Ok(TimeInForce::FillOrKill)
        } else if same_text(s, "IOC") {
            Ok(TimeInForce::ImmediateOrCancel)
        } else {
            Err(CodecError::InvalidValue {
                value: String::from_str(s),
                expected: String::from_str("[GTC, FOK, IOC]"),
            })
        }
    }
}

/// How self trades are handled.
#[derive(Clone, Copy, Debug, PartialEq, Eq, Structural)]
pub enum SelfTradePrevention {
    DecrementAndCancel,
    CancelBoth,
    CancelNewest,
    CancelOldest,
}

impl WireEnum for SelfTradePrevention {
    open spec fn token(self) -> Seq<char> {
        match self {
            SelfTradePrevention::DecrementAndCancel => "decrementAndCancel"@,
            SelfTradePrevention::CancelBoth => "cancelBoth"@,
            SelfTradePrevention::CancelNewest => "cancelNewest"@,
            SelfTradePrevention::CancelOldest => "cancelOldest"@,
        }
    }

    open spec fn expected() -> Seq<char> {
        "[decrementAndCancel, cancelBoth, cancelNewest, cancelOldest]"@
    }

    proof fn lemma_token_injective(a: Self, b: Self) {
        reveal_strlit("decrementAndCancel");
        reveal_strlit("cancelBoth");
        reveal_strlit("cancelNewest");
        reveal_strlit("cancelOldest");
        if a.token() == b.token() {
            assert(a.token().len() == b.token().len());
            assert(a.token()[6] == b.token()[6]);
        }
    }

    fn as_str(&self) -> (r: &'static str) {
        match self {
            SelfTradePrevention::DecrementAndCancel => "decrementAndCancel",
            SelfTradePrevention::CancelBoth => "cancelBoth",
            SelfTradePrevention::CancelNewest => "cancelNewest",
            SelfTradePrevention::CancelOldest => "cancelOldest",
        }
    }

    fn from_wire(s: &str) -> (r: Result<Self, CodecError>) {
        if same_text(s, "decrementAndCancel") {
            Ok(SelfTradePrevention::DecrementAndCancel)
        } else if same_text(s, "cancelBoth") {
            Ok(SelfTradePrevention::CancelBoth)
        } else if same_text(s, "cancelNewest") {
            Ok(SelfTradePrevention::CancelNewest)
        } else if same_text(s, "cancelOldest") {
            Ok(SelfTradePrevention::CancelOldest)
        } else {
            Err(CodecError::InvalidValue {
                value: String::from_str(s),
                expected: String::from_str("[decrementAndCancel, cancelBoth, cancelNewest, cancelOldest]"),
            })
        }
    }
}

/// A required member that holds the token of an `E`.
pub open spec fn enum_member<E: WireEnum>(j: Json, key: Seq<char>) -> Result<E, CodecFault> {
    match member(j, key) {
        None => Err(CodecFault::MissingField(key)),
        Some(Json::Str(s)) => if exists|v: E| #[trigger] v.token() == s@ {
            Ok(choose|v: E| #[trigger] v.token() == s@)
        } else {
            Err(CodecFault::InvalidValue(s@, E::expected()))
        },
        Some(_) => Err(CodecFault::InvalidType(key, "a string"@)),
    }
}

/// Reads the required member `key`, the token of an `E`.
pub fn req_enum<E: WireEnum>(j: &Json, key: &str) -> (r: Result<E, CodecError>)
    ensures
        match r {
            Ok(v) => enum_member::<E>(*j, key@) == Ok::<E, CodecFault>(v),
            Err(e) => enum_member::<E>(*j, key@) == Err::<E, CodecFault>(e@),
        },
{
    match j.member(key) {
        None => Err(CodecError::MissingField { field: name_text(key) }),
        Some(Json::Str(s)) => {
            let r = E::from_wire(s.as_str());
            proof {
                if r is Ok {
                    let c = choose|v: E| #[trigger] v.token() == s@;
                    E::lemma_token_injective(r->Ok_0, c);
                }
            }
            r
        },
        Some(_) => Err(CodecError::InvalidType { what: name_text(key), expected: name_text("a string") }),
    }
}

} // verus!
