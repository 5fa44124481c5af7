use bitvavo_api::types::{
    AssetStatus, CandleInterval, DepositStatus, MarketStatus, OrderType, SelfTradePrevention,
    TimeInForce, TradeSide, TriggerReference, TriggerType, WithdrawalStatus,
};
use bitvavo_api::wire::WireEnum;
use bitvavo_api::CodecError;

fn round_trips<E: WireEnum + PartialEq + std::fmt::Debug + Copy>(values: &[E], tokens: &[&str]) {
    assert_eq!(values.len(), tokens.len());
    for (v, t) in values.iter().zip(tokens) {
        assert_eq!(v.as_str(), *t);
        assert_eq!(E::from_wire(t).unwrap(), *v);
        assert_eq!(E::from_wire(v.as_str()).unwrap().as_str(), *t);
    }
}

fn refused<E: WireEnum + std::fmt::Debug>(s: &str, list: &str) {
    match E::from_wire(s) {
        Err(CodecError::InvalidValue { value, expected }) => {
            assert_eq!(value, s);
            assert_eq!(expected, list);
        },
        other => panic!("{:?}", other.map(|_| ())),
    }
}

#[test]
fn candle_interval_tokens() {
    round_trips(
        &[CandleInterval::OneMinute, CandleInterval::FiveMinutes, CandleInterval::FifteenMinutes, CandleInterval::ThirtyMinutes, CandleInterval::OneHour, CandleInterval::TwoHours, CandleInterval::FourHours,
            CandleInterval::SixHours, CandleInterval::EightHours, CandleInterval::TwelveHours, CandleInterval::OneDay],
        &["1m", "5m", "15m", "30m", "1h", "2h", "4h", "6h", "8h", "12h", "1d"],
    );
    refused::<CandleInterval>("1w", "[1m, 5m, 15m, 30m, 1h, 2h, 4h, 6h, 8h, 12h, 1d]");
}

#[test]
fn asset_status_tokens() {
    round_trips(
        &[AssetStatus::Okay, AssetStatus::Maintenance, AssetStatus::Delisted],
        &["OK", "MAINTENANCE", "DELISTED"],
    );
    refused::<AssetStatus>("ok", "[OK, MAINTENANCE, DELISTED]");
}

#[test]
fn market_status_tokens() {
    round_trips(
        &[MarketStatus::Trading, MarketStatus::Halted, MarketStatus::Auction],
        &["trading", "halted", "auction"],
    );
    refused::<MarketStatus>("bogus", "[trading, halted, auction]");
    refused::<MarketStatus>("", "[trading, halted, auction]");
}

#[test]
fn trade_side_tokens() {
    round_trips(&[TradeSide::Buy, TradeSide::Sell], &["buy", "sell"]);
    refused::<TradeSide>("BUY", "[buy, sell]");
}

#[test]
fn deposit_status_tokens() {
    round_trips(&[DepositStatus::Completed, DepositStatus::Canceled], &["completed", "canceled"]);
    refused::<DepositStatus>("cancelled", "[completed, canceled]");
}

#[test]
fn withdrawal_status_tokens() {
    round_trips(
        &[WithdrawalStatus::AwaitingProcessing, WithdrawalStatus::AwaitingEmailConfirmation, WithdrawalStatus::AwaitingBitvavoInspection, WithdrawalStatus::Approved,
            WithdrawalStatus::Sending, WithdrawalStatus::InMempool, WithdrawalStatus::Processed, WithdrawalStatus::Completed, WithdrawalStatus::Canceled],
        &["awaiting_processing", "awaiting_email_confirmation", "awaiting_bitvavo_inspection",
            "approved", "sending", "in_mempool", "processed", "completed", "canceled"],
    );
    refused::<WithdrawalStatus>(
        "pending",
        "[awaiting_processing, awaiting_email_confirmation, awaiting_bitvavo_inspection, approved, sending, in_mempool, processed, completed, canceled]",
    );
}

#[test]
fn order_type_tokens() {
    round_trips(
        &[OrderType::Market, OrderType::Limit, OrderType::StopLoss, OrderType::StopLossLimit, OrderType::TakeProfit, OrderType::TakeProfitLimit],
        &["market", "limit", "stopLoss", "stopLossLimit", "takeProfit", "takeProfitLimit"],
    );
    refused::<OrderType>(
        "stoploss",
        "[market, limit, stopLoss, stopLossLimit, takeProfit, takeProfitLimit]",
    );
}

#[test]
fn trigger_tokens() {
    round_trips(&[TriggerType::Price], &["price"]);
    refused::<TriggerType>("volume", "[price]");
    round_trips(
        &[TriggerReference::LastTrade, TriggerReference::BestBid, TriggerReference::BestAsk, TriggerReference::MidPrice],
        &["lastTrade", "bestBid", "bestAsk", "midPrice"],
    );
    refused::<TriggerReference>("mid", "[lastTrade, bestBid, bestAsk, midPrice]");
}

#[test]
fn time_in_force_tokens() {
    round_trips(&[TimeInForce::GoodTillCancelled, TimeInForce::FillOrKill, TimeInForce::ImmediateOrCancel], &["GTC", "FOK", "IOC"]);
    refused::<TimeInForce>("gtc", "[GTC, FOK, IOC]");
}

#[test]
fn self_trade_prevention_tokens() {
    round_trips(
        &[SelfTradePrevention::DecrementAndCancel, SelfTradePrevention::CancelBoth, SelfTradePrevention::CancelNewest, SelfTradePrevention::CancelOldest],
        &["decrementAndCancel", "cancelBoth", "cancelNewest", "cancelOldest"],
    );
    refused::<SelfTradePrevention>(
        "cancel",
        "[decrementAndCancel, cancelBoth, cancelNewest, cancelOldest]",
    );
}
