//! Decoding: the string-or-number numeric fields, the response
//! envelopes, and the entity records.
use mexc::futures::structures::{
    decode_fair_price, decode_futures_balance, decode_futures_balances, decode_futures_receipt,
    decode_futures_response, resolve_futures,
};
use mexc::json::{decode_number, parse_json, JsonValue};
use mexc::market::{decode_level, decode_orderbook};
use mexc::numeric::Decimal;
use mexc::orders::{
    decode_cancelled_orders_str, decode_order_receipt_str, OrderSide, OrderType,
};
use mexc::{decode_server_time, resolve_spot, ApiError, DecodeError};

fn obj(entries: Vec<(&str, JsonValue)>) -> JsonValue {
    JsonValue::Obj(entries.into_iter().map(|(k, v)| (k.to_string(), v)).collect())
}

fn num(t: &str) -> JsonValue {
    JsonValue::Num(t.to_string())
}

fn s(t: &str) -> JsonValue {
    JsonValue::Str(t.to_string())
}

#[test]
fn test_decode_number_string_round_trip() {
    for text in ["0.25", "599971.13", "0.00009512", "-1", "1e30", "2.5E-10", "5.", ".5", "inf",
        "NaN", "+3"] {
        let d = decode_number(&s(text)).unwrap();
        assert_eq!(d.as_str(), text);
    }
}

#[test]
fn test_decode_number_number_round_trip() {
    for text in ["1717363075282", "-1", "0.25", "1e30"] {
        let d = decode_number(&num(text)).unwrap();
        assert_eq!(d.as_str(), text);
    }
}

#[test]
fn test_decode_number_null_is_zero() {
    let d = decode_number(&JsonValue::Null).unwrap();
    assert_eq!(d.as_str(), "0");
}

#[test]
fn test_decode_number_rejects_other_types() {
    assert!(matches!(decode_number(&JsonValue::Bool(true)), Err(DecodeError::InvalidType)));
    assert!(matches!(decode_number(&JsonValue::Arr(vec![])), Err(DecodeError::InvalidType)));
    assert!(matches!(decode_number(&JsonValue::Obj(vec![])), Err(DecodeError::InvalidType)));
}

#[test]
fn test_decode_number_bad_text() {
    for text in ["", "abc", "1.2.3", ".", "1e", "1e+", "--1", "5f", "in", "infinit"] {
        assert!(matches!(decode_number(&s(text)), Err(DecodeError::InvalidNumber)));
    }
}

#[test]
fn test_decimal_validation() {
    assert!(Decimal::from_str("3650.13").is_ok());
    assert!(matches!(Decimal::from_str("oops"), Err(DecodeError::InvalidNumber)));
    assert_eq!(Decimal::zero().as_str(), "0");
}

#[test]
fn test_decode_order_receipe() {
    let or = r#"{"symbol":"PLSUSDT","orderId":"C02__426060921085927424065","orderListId":-1,"price":"0.00009512","origQty":"599971.13","type":"MARKET","side":"BUY","transactTime":1717363075282}"#;
    let receipe = decode_order_receipt_str(or).unwrap();
    assert_eq!(receipe.symbol, "PLSUSDT");
    assert_eq!(receipe.order_id, "C02__426060921085927424065");
    assert_eq!(receipe.order_list_id, -1);
    assert_eq!(receipe.price.as_str(), "0.00009512");
    assert_eq!(receipe.orig_qty.as_str(), "599971.13");
    assert_eq!(receipe.order_type, OrderType::MARKET);
    assert_eq!(receipe.side, OrderSide::BUY);
    assert_eq!(receipe.transact_time, 1717363075282);
}

#[test]
fn test_decode_cancelled_orders() {
    let co = r#"[{"symbol":"PLSUSDT","orderId":"C02__426199983784497153065","price":"0.00009712","origQty":"299985.56","type":"LIMIT","side":"SELL","executedQty":"0","cummulativeQuoteQty":"0","status":"NEW"},{"symbol":"PLSUSDT","orderId":"C02__426199982572318720065","price":"0.00009512","origQty":"299985.56","type":"LIMIT","side":"SELL","executedQty":"0","cummulativeQuoteQty":"0","status":"NEW"}]"#;
    let cancelled_orders = decode_cancelled_orders_str(co).unwrap();
    assert_eq!(cancelled_orders.len(), 2);
    assert_eq!(cancelled_orders[0].order_id, "C02__426199983784497153065");
    assert_eq!(cancelled_orders[0].price.as_str(), "0.00009712");
    assert_eq!(cancelled_orders[0].exec_qty.as_str(), "0");
    assert_eq!(cancelled_orders[0].cum_quote_qty.as_str(), "0");
    assert_eq!(cancelled_orders[0].order_type, OrderType::LIMIT);
    assert_eq!(cancelled_orders[0].side, OrderSide::SELL);
    assert_eq!(cancelled_orders[1].order_id, "C02__426199982572318720065");
    assert_eq!(cancelled_orders[1].price.as_str(), "0.00009512");
}

#[test]
fn test_decode_order_receipt_missing_field() {
    let or = r#"{"symbol":"PLSUSDT"}"#;
    assert_eq!(decode_order_receipt_str(or).unwrap_err(), DecodeError::MissingField);
}

#[test]
fn test_decode_order_receipt_bad_json() {
    assert_eq!(decode_order_receipt_str("not json").unwrap_err(), DecodeError::InvalidJson);
}

#[test]
fn test_futures_envelope_rejection() {
    let v = parse_json(r#"{"success": false, "code": 1, "message": "insufficient balance"}"#)
        .unwrap();
    let resp = decode_futures_response(&v).unwrap();
    assert!(!resp.success);
    assert_eq!(resp.code, 1);
    match resolve_futures(resp) {
        Err(ApiError::Rejected(m)) => assert_eq!(m, "insufficient balance"),
        other => panic!("expected a rejection, got {:?}", other),
    }
}

#[test]
fn test_futures_envelope_rejection_without_message() {
    let v = parse_json(r#"{"success": false, "code": 7}"#).unwrap();
    let resp = decode_futures_response(&v).unwrap();
    match resolve_futures(resp) {
        Err(ApiError::Rejected(m)) => assert_eq!(m, ""),
        other => panic!("expected a rejection, got {:?}", other),
    }
}

#[test]
fn test_futures_envelope_missing_payload() {
    let v = parse_json(r#"{"success": true, "code": 0}"#).unwrap();
    let resp = decode_futures_response(&v).unwrap();
    assert!(resp.success);
    assert!(resp.data.is_none());
    assert!(matches!(resolve_futures(resp), Err(ApiError::MissingPayload)));
}

#[test]
fn test_futures_envelope_null_data_is_missing() {
    let v = parse_json(r#"{"success": true, "code": 0, "data": null}"#).unwrap();
    let resp = decode_futures_response(&v).unwrap();
    assert!(matches!(resolve_futures(resp), Err(ApiError::MissingPayload)));
}

#[test]
fn test_futures_envelope_success_payload() {
    let v = parse_json(r#"{"success": true, "code": 0, "data": {"orderId": "42", "ts": 1700000000000}}"#).unwrap();
    let resp = decode_futures_response(&v).unwrap();
    let data = resolve_futures(resp).unwrap();
    let receipt = decode_futures_receipt(data).unwrap();
    assert_eq!(receipt.order_id, "42");
    assert_eq!(receipt.timestamp, 1700000000000);
}

#[test]
fn test_spot_resolution() {
    let body = r#"{"symbol":"X","orderId":"1","orderListId":-1,"price":"2","origQty":"3","type":"LIMIT","side":"SELL","transactTime":5}"#;
    let payload = resolve_spot(200, body.to_string()).unwrap();
    let receipt = decode_order_receipt_str(&payload).unwrap();
    assert_eq!(receipt.symbol, "X");
    assert_eq!(receipt.order_id, "1");
    match resolve_spot(400, "bad request".to_string()) {
        Err(ApiError::Rejected(m)) => assert_eq!(m, "bad request"),
        other => panic!("expected a rejection, got {:?}", other),
    }
}

#[test]
fn test_decode_futures_balance() {
    let v = parse_json(
        r#"{"currency":"USDT","positionMargin":"1.5","availableBalance":10,"cashBalance":"11.5","frozenBalance":null,"equity":"11.5","unrealized":"0","bonus":"0"}"#,
    )
    .unwrap();
    let b = decode_futures_balance(&v).unwrap();
    assert_eq!(b.currency, "USDT");
    assert_eq!(b.position_margin.as_str(), "1.5");
    assert_eq!(b.available_balance.as_str(), "10");
    assert_eq!(b.frozen_balance.as_str(), "0");
}

#[test]
fn test_decode_futures_balances_list() {
    let v = parse_json(
        r#"[{"currency":"USDT","positionMargin":"1","availableBalance":"2","cashBalance":"3","frozenBalance":"4","equity":"5","unrealized":"6","bonus":"7"}]"#,
    )
    .unwrap();
    let bs = decode_futures_balances(&v).unwrap();
    assert_eq!(bs.len(), 1);
    assert_eq!(bs[0].bonus.as_str(), "7");
    let bad = parse_json(r#"[{"currency":"USDT"}]"#).unwrap();
    assert_eq!(decode_futures_balances(&bad).unwrap_err(), DecodeError::MissingField);
}

#[test]
fn test_decode_fair_price() {
    let v = parse_json(r#"{"indexPrice": 3650.13}"#).unwrap();
    assert_eq!(decode_fair_price(&v).unwrap().as_str(), "3650.13");
    let string_price = parse_json(r#"{"indexPrice": "3650.13"}"#).unwrap();
    assert_eq!(decode_fair_price(&string_price).unwrap_err(), DecodeError::InvalidType);
    let missing = parse_json(r#"{}"#).unwrap();
    assert_eq!(decode_fair_price(&missing).unwrap_err(), DecodeError::MissingField);
}

#[test]
fn test_decode_level_and_orderbook() {
    let level = decode_level(&parse_json(r#"["0.00009512","599971.13"]"#).unwrap()).unwrap();
    assert_eq!(level.px.as_str(), "0.00009512");
    assert_eq!(level.sz.as_str(), "599971.13");
    assert_eq!(
        decode_level(&parse_json(r#"["1","2","3"]"#).unwrap()).unwrap_err(),
        DecodeError::InvalidType
    );
    assert_eq!(
        decode_level(&parse_json(r#"["x","2"]"#).unwrap()).unwrap_err(),
        DecodeError::InvalidNumber
    );
    let book = decode_orderbook(
        &parse_json(r#"{"timestamp":1700000000000,"bids":[["1","2"]],"asks":[["3","4"],["5","6"]]}"#)
            .unwrap(),
    )
    .unwrap();
    assert_eq!(book.timestamp, 1700000000000);
    assert_eq!(book.bids.len(), 1);
    assert_eq!(book.asks.len(), 2);
    assert_eq!(book.asks[1].px.as_str(), "5");
}

#[test]
fn test_decode_account() {
    let v = parse_json(
        r#"{"accountType":"SPOT","canDeposit":true,"canTrade":true,"canWithdraw":false,"permissions":["SPOT"],"balances":[{"asset":"USDT","free":"5","locked":"0"}]}"#,
    )
    .unwrap();
    let a = mexc::account::decode_account(&v).unwrap();
    assert_eq!(a.account_type, "SPOT");
    assert!(a.can_deposit && a.can_trade && !a.can_withdraw);
    assert_eq!(a.permissions, vec!["SPOT".to_string()]);
    assert_eq!(a.balances.len(), 1);
    assert_eq!(a.balances[0].asset, "USDT");
    assert_eq!(a.balances[0].free.as_str(), "5");
}

#[test]
fn test_decode_listen_key() {
    let v = parse_json(r#"{"listenKey":"abc123"}"#).unwrap();
    assert_eq!(mexc::account::decode_listen_key(&v).unwrap().listen_key, "abc123");
}

#[test]
fn test_decode_server_time() {
    let v = parse_json(r#"{"serverTime": 1700000000123}"#).unwrap();
    assert_eq!(decode_server_time(&v).unwrap().timestamp, 1700000000123);
    let huge = obj(vec![("serverTime", num("340282366920938463463374607431768211456"))]);
    assert_eq!(decode_server_time(&huge).unwrap_err(), DecodeError::InvalidNumber);
}

#[test]
fn test_integer_field_bounds() {
    let v = obj(vec![("code", num("-1"))]);
    let resp = obj(vec![
        ("success", JsonValue::Bool(true)),
        ("code", num("9223372036854775808")),
    ]);
    assert_eq!(mexc::json::get_i64_field(&v, "code").unwrap(), -1);
    assert_eq!(
        decode_futures_response(&resp).unwrap_err(),
        DecodeError::InvalidNumber
    );
}
