use bitvavo_api::response::response_from_request;
use bitvavo_api::types::{
    Deposit, DepositInfo, DepositStatus, Fees, Withdrawal, WithdrawalOrderResponse,
    WithdrawalStatus,
};
use bitvavo_api::{CodecError, Error};

#[test]
fn deposit_is_decoded() {
    let d: Deposit = response_from_request(
        200,
        br#"{"timestamp":1542967486256,"symbol":"BTC","amount":"0.99994","fee":"0",
        "status":"completed","txId":"abc","address":"addr"}"#,
    )
    .unwrap();
    assert_eq!(d.timestamp, 1542967486256);
    assert_eq!(d.status, DepositStatus::Completed);
    assert_eq!(d.tx_id, Some("abc".to_string()));
    assert_eq!(d.payment_id, None);
}

#[test]
fn withdrawal_is_decoded() {
    let w: Withdrawal = response_from_request(
        200,
        br#"{"timestamp":1542967486256,"symbol":"BTC","amount":"1","fee":"0.0001",
        "status":"awaiting_email_confirmation","paymentId":"p"}"#,
    )
    .unwrap();
    assert_eq!(w.status, WithdrawalStatus::AwaitingEmailConfirmation);
    assert_eq!(w.payment_id, Some("p".to_string()));
    assert_eq!(w.address, None);
    assert_eq!(w.fee, "0.0001");
}

#[test]
fn withdrawal_with_unknown_status_is_refused() {
    let e = response_from_request::<Withdrawal>(
        200,
        br#"{"timestamp":1,"symbol":"BTC","amount":"1","fee":"0","status":"lost"}"#,
    )
    .unwrap_err();
    match e {
        Error::Codec(CodecError::InvalidValue { value, .. }) => assert_eq!(value, "lost"),
        other => panic!("{:?}", other),
    }
}

#[test]
fn fees_and_deposit_info_are_decoded() {
    let f: Fees =
        response_from_request(200, br#"{"tier":2,"volume":"10","taker":"0.2","maker":"0.1"}"#)
            .unwrap();
    assert_eq!(f.tier, 2);
    assert_eq!(f.maker, "0.1");
    let d: DepositInfo =
        response_from_request(200, br#"{"address":"addr","payment_id":"memo"}"#).unwrap();
    assert_eq!(d.address, "addr");
    assert_eq!(d.payment_id, Some("memo".to_string()));
}

#[test]
fn withdrawal_order_response_is_decoded() {
    let r: WithdrawalOrderResponse =
        response_from_request(200, br#"{"success":true,"symbol":"BTC","amount":"1.5"}"#).unwrap();
    assert!(r.success);
    assert_eq!(r.symbol, "BTC");
    let e = response_from_request::<WithdrawalOrderResponse>(
        200,
        br#"{"success":"yes","symbol":"BTC","amount":"1.5"}"#,
    )
    .unwrap_err();
    match e {
        Error::Codec(CodecError::InvalidType { what, expected }) => {
            assert_eq!(what, "success");
            assert_eq!(expected, "a boolean");
        },
        other => panic!("{:?}", other),
    }
}

#[test]
fn record_that_is_not_an_object_is_refused() {
    let e = response_from_request::<Fees>(200, b"[1,2]").unwrap_err();
    match e {
        Error::Codec(CodecError::InvalidType { what, expected }) => {
            assert_eq!(what, "Fees");
            assert_eq!(expected, "an object");
        },
        other => panic!("{:?}", other),
    }
}

