//! The larger entity records: positions, contract metadata, exchange
//! info, and the open-orders records with their optional fields.
use mexc::futures::structures::{decode_contract_info, decode_futures_positions};
use mexc::json::parse_json;
use mexc::market::decode_exchange_info;
use mexc::orders::{decode_order_querys, OrderSide, OrderType};
use mexc::DecodeError;

#[test]
fn test_decode_futures_positions() {
    let text = r#"[{"autoAddIm":false,"closeAvgPrice":"0","closeProfitLoss":"0","closeVol":"0","createTime":1700000000001,"fee":"0.01","frozenVol":"0","holdAvgPrice":"3650.13","holdAvgPriceFullyScale":"3650.131","holdFee":"0","holdVol":"10","im":"9.1","leverage":"4","liquidatePrice":"4100.5","marginRatio":"0.02","newCloseAvgPrice":"0","newOpenAvgPrice":"3650.13","oim":"9.1","openAvgPrice":"3650.13","openAvgPriceFullyScale":"3650.131","openType":2,"positionId":987654321,"positionType":2,"profitRatio":"-0.01","realised":"-0.5","state":1,"symbol":"ETH_USDT","updateTime":1700000000002,"version":3}]"#;
    let v = parse_json(text).unwrap();
    let positions = decode_futures_positions(&v).unwrap();
    assert_eq!(positions.len(), 1);
    let p = &positions[0];
    assert!(!p.auto_add_im);
    assert_eq!(p.create_time, 1700000000001);
    assert_eq!(p.fee.as_str(), "0.01");
    assert_eq!(p.hold_avg_price.as_str(), "3650.13");
    assert_eq!(p.leverage.as_str(), "4");
    assert_eq!(p.open_type, 2);
    assert_eq!(p.position_id, 987654321);
    assert_eq!(p.profit_ratio.as_str(), "-0.01");
    assert_eq!(p.realised.as_str(), "-0.5");
    assert_eq!(p.state, 1);
    assert_eq!(p.symbol, "ETH_USDT");
    assert_eq!(p.update_time, 1700000000002);
    assert_eq!(p.version, 3);
}

#[test]
fn test_decode_contract_info() {
    let text = r#"{"amountScale":4,"apiAllowed":true,"appraisal":"0","askLimitPriceRate":"0.2","automaticDelivery":0,"baseCoin":"ETH","baseCoinIconUrl":"https://x/e.png","baseCoinId":"id1","baseCoinName":"Ethereum","bidLimitPriceRate":"0.2","conceptPlate":["mc-trade-zone"],"contractSize":"0.001","depthStepList":["0.01","0.1"],"displayName":"ETH_USDT PERP","displayNameEn":"ETH_USDT PERP","futureType":1,"id":11,"indexOrigin":["BINANCE","MEXC"],"initialMarginRate":"0.005","isHidden":false,"isHot":true,"isNew":false,"limitMaxVol":"5000000","maintenanceMarginRate":"0.003","makerFeeRate":"0.0001","marketOrderMaxLevel":20,"marketOrderPriceLimitRate1":"0.2","marketOrderPriceLimitRate2":"0.005","maxLeverage":200,"maxNumOrders":[200,50],"maxVol":"5000000","minLeverage":1,"minVol":"1","positionOpenType":3,"priceCoefficientVariation":"0.002","priceScale":2,"priceUnit":"0.01","quoteCoin":"USDT","quoteCoinName":"Tether","riskBaseVol":"500000","riskIncrImr":"0.002","riskIncrMmr":"0.001","riskIncrVol":"500000","riskLevelLimit":5,"riskLimitType":"BY_VOLUME","riskLongShortSwitch":0,"settleCoin":"USDT","showAppraisalCountdown":0,"state":0,"symbol":"ETH_USDT","takerFeeRate":"0.0003","threshold":"0","triggerProtect":"0.1","vid":"v1","volScale":0,"volUnit":"1"}"#;
    let v = parse_json(text).unwrap();
    let c = decode_contract_info(&v).unwrap();
    assert_eq!(c.amount_scale, 4);
    assert!(c.api_allowed);
    assert_eq!(c.base_coin, "ETH");
    assert_eq!(c.concept_plate, vec!["mc-trade-zone".to_string()]);
    assert_eq!(c.contract_size.as_str(), "0.001");
    assert_eq!(c.depth_step_list, vec!["0.01".to_string(), "0.1".to_string()]);
    assert_eq!(c.id, 11);
    assert_eq!(c.index_origin, vec!["BINANCE".to_string(), "MEXC".to_string()]);
    assert_eq!(c.max_leverage, 200);
    assert_eq!(c.max_num_orders, vec![200, 50]);
    assert_eq!(c.maker_fee_rate.as_str(), "0.0001");
    assert_eq!(c.symbol, "ETH_USDT");
    assert_eq!(c.vol_unit.as_str(), "1");
    // a wrong-typed array element is a decode failure, not a partial record
    let bad = parse_json(&text.replace(r#"[200,50]"#, r#"[200,"50"]"#)).unwrap();
    assert_eq!(decode_contract_info(&bad).unwrap_err(), DecodeError::InvalidNumber);
}

#[test]
fn test_decode_exchange_info() {
    let text = r#"{"serverTime":1700000000123,"symbols":[{"baseAsset":"PLS","baseAssetPrecision":2,"baseCommissionPrecision":2,"baseSizePrecision":"0","filters":[],"fullName":"Pulse","isMarginTradingAllowed":false,"isSpotTradingAllowed":true,"makerCommission":"0","maxQuoteAmount":"2000000","maxQuoteAmountMarket":"100000","orderTypes":["LIMIT","MARKET"],"permissions":["SPOT"],"quoteAmountPrecision":"1","quoteAmountPrecisionMarket":"1","quoteAsset":"USDT","quoteAssetPrecision":8,"quoteCommissionPrecision":8,"quotePrecision":8,"status":"1","symbol":"PLSUSDT","takerCommission":"0.0005"}]}"#;
    let v = parse_json(text).unwrap();
    let info = decode_exchange_info(&v).unwrap();
    assert_eq!(info.timestamp, 1700000000123);
    assert_eq!(info.symbols.len(), 1);
    let s = &info.symbols[0];
    assert_eq!(s.base_asset, "PLS");
    assert_eq!(s.base_asset_precision, 2);
    assert_eq!(s.base_size_precision.as_str(), "0");
    assert!(s.filters.is_empty());
    assert!(!s.is_margin_trading_allowed);
    assert!(s.is_spot_trading_allowed);
    assert_eq!(s.order_types, vec!["LIMIT".to_string(), "MARKET".to_string()]);
    assert_eq!(s.quote_precision, 8);
    assert_eq!(s.symbol, "PLSUSDT");
    assert_eq!(s.taker_commission.as_str(), "0.0005");
}

#[test]
fn test_decode_open_orders() {
    let with_update = r#"[{"symbol":"PLSUSDT","orderId":"A1","price":"0.00009512","origQty":"100","executedQty":"50","type":"LIMIT","side":"SELL","time":1700000000005,"updateTime":1700000000006}]"#;
    let v = parse_json(with_update).unwrap();
    let orders = decode_order_querys(&v).unwrap();
    assert_eq!(orders.len(), 1);
    assert_eq!(orders[0].order_id, "A1");
    assert_eq!(orders[0].exec_qty.as_str(), "50");
    assert_eq!(orders[0].order_type, OrderType::LIMIT);
    assert_eq!(orders[0].side, OrderSide::SELL);
    assert_eq!(orders[0].created_time, 1700000000005);
    assert_eq!(orders[0].last_update, Some(1700000000006));

    let without_update = r#"[{"symbol":"PLSUSDT","orderId":"A2","price":"1","origQty":"2","executedQty":"0","type":"MARKET","side":"BUY","time":7}]"#;
    let v2 = parse_json(without_update).unwrap();
    let orders2 = decode_order_querys(&v2).unwrap();
    assert_eq!(orders2[0].last_update, None);

    let unknown_type = r#"[{"symbol":"PLSUSDT","orderId":"A3","price":"1","origQty":"2","executedQty":"0","type":"STOP","side":"BUY","time":7}]"#;
    let v3 = parse_json(unknown_type).unwrap();
    assert_eq!(decode_order_querys(&v3).unwrap_err(), DecodeError::InvalidType);
}
