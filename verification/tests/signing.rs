//! The three signing schemes against known vectors, and the request
//! builders' exact output.
use mexc::futures::{
    get_md5, MexcFutures, OpenType, OrderDirection, OrderType as FuturesOrderType,
};
use mexc::numeric::Decimal;
use mexc::orders::{Order, OrderSide, OrderType};
use mexc::utils::get_timestamp;
use mexc::{AuthError, Mexc};

fn spot_client() -> Mexc {
    Mexc::new(Some("key".to_string()), Some("secret".to_string()))
}

fn futures_client() -> MexcFutures {
    MexcFutures::new(Some("key".to_string()), Some("secret".to_string()), Some("token".to_string()))
}

#[test]
fn test_spot_signature_vector() {
    let q = "symbol=BTCUSDT&side=BUY&type=LIMIT&quantity=1&price=30000&recvWindow=5000&timestamp=1700000000000";
    let signed = spot_client().sign_request(q.to_string()).unwrap();
    assert_eq!(
        signed,
        format!(
            "{}&signature=aa5fa8612f218cbd0ccd25f2d780ff19c361eea689e978ad9b206337a5254b46",
            q
        )
    );
    // the same inputs always give the same signature
    let again = spot_client().sign_request(q.to_string()).unwrap();
    assert_eq!(signed, again);
}

#[test]
fn test_spot_signature_missing_secret() {
    let client = Mexc::new(Some("key".to_string()), None);
    assert_eq!(client.sign_request("q=1".to_string()).unwrap_err(), AuthError::MissingSecret);
    assert_eq!(AuthError::MissingSecret.message(), "Missing secret key");
}

#[test]
fn test_api_key_header() {
    let client = spot_client();
    let (name, value) = client.api_key_header().unwrap();
    assert_eq!(name, "X-MEXC-APIKEY");
    assert_eq!(value, "key");
    let keyless = Mexc::new(None, Some("secret".to_string()));
    assert_eq!(keyless.api_key_header().unwrap_err(), AuthError::MissingKey);
    assert_eq!(AuthError::MissingKey.message(), "Missing api key");
}

#[test]
fn test_spot_submit_order_request() {
    let url = spot_client()
        .submit_order_request(
            "PLSUSDT",
            &OrderSide::SELL,
            &OrderType::LIMIT,
            &Decimal::from_str("0.00009512").unwrap(),
            &Decimal::from_str("599971.13").unwrap(),
            None,
            1717363075282,
        )
        .unwrap();
    assert_eq!(
        url,
        "https://api.mexc.com/api/v3/order?symbol=PLSUSDT&side=SELL&type=LIMIT&quantity=599971.13&price=0.00009512&recvWindow=5000&timestamp=1717363075282&signature=db7e4b96832964f2759d6b03b4707e92f6ecc05a7a52dd32196ba118c6682903"
    );
}

#[test]
fn test_spot_cancel_and_open_orders_requests() {
    let client = spot_client();
    let cancel_all = client.cancel_all_orders_request("PLSUSDT", Some(7000), 1).unwrap();
    assert!(cancel_all.starts_with(
        "https://api.mexc.com/api/v3/openOrders?symbol=PLSUSDT&recvWindow=7000&timestamp=1&signature="
    ));
    let cancel_one = client.cancel_order_request("PLSUSDT", "42", None, 1).unwrap();
    assert!(cancel_one.starts_with(
        "https://api.mexc.com/api/v3/order?symbol=PLSUSDT&orderId=42&recvWindow=5000&timestamp=1&signature="
    ));
    let open = client.open_orders_request("PLSUSDT", Some(7000), 1).unwrap();
    assert_eq!(open, cancel_all);
}

#[test]
fn test_batch_orders_request() {
    let orders = vec![Order {
        symbol: "X".to_string(),
        price: Decimal::from_str("1").unwrap(),
        quantity: Decimal::from_str("2").unwrap(),
        side: OrderSide::SELL,
        order_type: OrderType::LIMIT,
    }];
    let json = mexc::orders::orders_to_json(&orders);
    assert_eq!(json, r#"[{"symbol":"X","price":"1","quantity":"2","side":"SELL","type":"LIMIT"}]"#);
    let url = spot_client().batch_orders_request(&orders, None, 1700000000000).unwrap();
    assert_eq!(
        url,
        "https://api.mexc.com/api/v3/batchOrders?batchOrders=%5B%7B%22symbol%22%3A%22X%22%2C%22price%22%3A%221%22%2C%22quantity%22%3A%222%22%2C%22side%22%3A%22SELL%22%2C%22type%22%3A%22LIMIT%22%7D%5D&recvWindow=5000&timestamp=1700000000000&signature=9a4a9751cfd17430ce224c01717485c5336688549133d6169c4707b7baf2ca22"
    );
}

#[test]
fn test_orders_to_json_two_orders() {
    let orders = vec![
        Order {
            symbol: "PLSUSDT".to_string(),
            price: Decimal::from_str("0.00009512").unwrap(),
            quantity: Decimal::from_str("299985.56").unwrap(),
            side: OrderSide::SELL,
            order_type: OrderType::LIMIT,
        },
        Order {
            symbol: "PLSUSDT".to_string(),
            price: Decimal::from_str("0.00009712").unwrap(),
            quantity: Decimal::from_str("299985.56").unwrap(),
            side: OrderSide::SELL,
            order_type: OrderType::LIMIT,
        },
    ];
    assert_eq!(
        mexc::orders::orders_to_json(&orders),
        r#"[{"symbol":"PLSUSDT","price":"0.00009512","quantity":"299985.56","side":"SELL","type":"LIMIT"},{"symbol":"PLSUSDT","price":"0.00009712","quantity":"299985.56","side":"SELL","type":"LIMIT"}]"#
    );
}

#[test]
fn test_futures_v1_signature_vector() {
    let client = futures_client();
    assert_eq!(
        client.sign_v1(1700000000000, None).unwrap(),
        "0eb15ed09c26d51b65c3de4a2c219450f5835924b266e2fe34bb0249b2be2309"
    );
    assert_eq!(
        client.sign_v1(1700000000000, Some("param=1")).unwrap(),
        "88db6b7771b43958ba59c10d98f6d14c4785c5a5eb9e1a0c5baedef017282c20"
    );
}

#[test]
fn test_futures_v1_signature_missing_credentials() {
    let keyless = MexcFutures::new(None, Some("secret".to_string()), None);
    assert_eq!(keyless.sign_v1(1, None).unwrap_err(), AuthError::MissingKey);
    let secretless = MexcFutures::new(Some("key".to_string()), None, None);
    assert_eq!(secretless.sign_v1(1, None).unwrap_err(), AuthError::MissingSecret);
}

#[test]
fn test_futures_signed_header() {
    let headers = futures_client().generate_signed_header(1700000000000).unwrap();
    assert_eq!(headers.len(), 4);
    assert_eq!(headers[0], ("ApiKey".to_string(), "key".to_string()));
    assert_eq!(headers[1], ("Request-Time".to_string(), "1700000000000".to_string()));
    assert_eq!(
        headers[2],
        (
            "Signature".to_string(),
            "0eb15ed09c26d51b65c3de4a2c219450f5835924b266e2fe34bb0249b2be2309".to_string()
        )
    );
    assert_eq!(headers[3], ("Content-Type".to_string(), "application/json".to_string()));
}

#[test]
fn test_get_md5_vector() {
    assert_eq!(get_md5("hello"), "5d41402abc4b2a76b9719d911017c592");
    assert_eq!(get_md5("token1700000000000"), "d6716a5b4e5284c4d8b429df200ac8fc");
}

#[test]
fn test_futures_order_body() {
    let body = MexcFutures::futures_order_body(
        "ETH_USDT",
        10,
        Some(&Decimal::from_str("3650.13").unwrap()),
        4,
        &OrderDirection::OpenShort,
        &OpenType::Cross,
        &FuturesOrderType::Limit,
    );
    assert_eq!(
        body,
        r#"{"leverage":4,"marketCeiling":false,"openType":2,"price":"3650.13","priceProtect":"0","reduceOnly":false,"side":3,"symbol":"ETH_USDT","type":1,"vol":10}"#
    );
    let market_body = MexcFutures::futures_order_body(
        "ETH_USDT",
        10,
        None,
        4,
        &OrderDirection::OpenLong,
        &OpenType::Isolated,
        &FuturesOrderType::Market,
    );
    assert_eq!(
        market_body,
        r#"{"leverage":4,"marketCeiling":false,"openType":1,"priceProtect":"0","reduceOnly":false,"side":1,"symbol":"ETH_USDT","type":5,"vol":10}"#
    );
}

#[test]
fn test_futures_order_body_escapes_symbol() {
    let body = MexcFutures::futures_order_body(
        "A\"B\\C",
        1,
        None,
        1,
        &OrderDirection::OpenLong,
        &OpenType::Isolated,
        &FuturesOrderType::Limit,
    );
    assert!(body.contains(r#""symbol":"A\"B\\C""#));
    let control = MexcFutures::futures_order_body(
        "A\tB\nC\u{1}D",
        1,
        None,
        1,
        &OrderDirection::OpenLong,
        &OpenType::Isolated,
        &FuturesOrderType::Limit,
    );
    assert!(control.contains(r#""symbol":"A\tB\nC\u0001D""#));
}

#[test]
fn test_futures_session_signature_vector() {
    let req = futures_client()
        .submit_order_request(
            "ETH_USDT",
            10,
            Some(&Decimal::from_str("3650.13").unwrap()),
            4,
            &OrderDirection::OpenShort,
            &OpenType::Cross,
            &FuturesOrderType::Limit,
            1700000000000,
        )
        .unwrap();
    assert_eq!(req.url, "https://futures.mexc.com/api/v1/private/order/create");
    assert_eq!(
        req.body,
        r#"{"leverage":4,"marketCeiling":false,"openType":2,"price":"3650.13","priceProtect":"0","reduceOnly":false,"side":3,"symbol":"ETH_USDT","type":1,"vol":10}"#
    );
    assert_eq!(req.headers.len(), 7);
    assert_eq!(req.headers[0], ("x-mxc-nonce".to_string(), "1700000000000".to_string()));
    // two-stage MD5: md5("token" ++ ts) is d6716a5b4e5284c4d8b429df200ac8fc,
    // its tail from character seven is b4e5284c4d8b429df200ac8fc, and the
    // final digest is over ts ++ body ++ that tail
    assert_eq!(
        req.headers[1],
        ("x-mxc-sign".to_string(), "bdb83ee8e3d08dbe68e0ed7d9609f4ac".to_string())
    );
    assert_eq!(req.headers[2], ("authorization".to_string(), "token".to_string()));
    assert_eq!(
        req.headers[3],
        ("user-agent".to_string(), "MEXC/7 CFNetwork/1474 Darwin/23.0.0".to_string())
    );
    assert_eq!(req.headers[4], ("content-type".to_string(), "application/json".to_string()));
    assert_eq!(req.headers[5], ("origin".to_string(), "https://futures.mexc.com".to_string()));
    assert_eq!(
        req.headers[6],
        ("referer".to_string(), "https://futures.mexc.com/exchange".to_string())
    );
}

#[test]
fn test_futures_session_signature_missing_token() {
    let client = MexcFutures::new(None, None, None);
    let r = client.submit_order_request(
        "ETH_USDT",
        1,
        None,
        1,
        &OrderDirection::OpenLong,
        &OpenType::Isolated,
        &FuturesOrderType::Limit,
        1,
    );
    assert_eq!(r.unwrap_err(), AuthError::MissingSessionToken);
    assert_eq!(AuthError::MissingSessionToken.message(), "Missing web user token");
}

#[test]
fn test_futures_enum_codes() {
    assert_eq!(OrderDirection::OpenLong.as_u64(), 1);
    assert_eq!(OrderDirection::CloseShort.as_u64(), 2);
    assert_eq!(OrderDirection::OpenShort.as_u64(), 3);
    assert_eq!(OrderDirection::CloseLong.as_u64(), 4);
    assert_eq!(OpenType::Isolated.as_u64(), 1);
    assert_eq!(OpenType::Cross.as_u64(), 2);
    assert_eq!(FuturesOrderType::Limit.as_u64(), 1);
    assert_eq!(FuturesOrderType::PostOnly.as_u64(), 2);
    assert_eq!(FuturesOrderType::TransactOrCancelInstantly.as_u64(), 3);
    assert_eq!(FuturesOrderType::TransactCompletelyOrCancelCompletely.as_u64(), 4);
    assert_eq!(FuturesOrderType::Market.as_u64(), 5);
    assert_eq!(FuturesOrderType::ConvertMarketToCurrentPrice.as_u64(), 6);
}

#[test]
fn test_spot_enum_names() {
    assert_eq!(OrderType::LIMIT.as_str(), "LIMIT");
    assert_eq!(OrderType::MARKET.as_str(), "MARKET");
    assert_eq!(OrderType::LIMIT_MAKER.as_str(), "LIMIT_MAKER");
    assert_eq!(OrderType::IMMEDIATE_OR_CANCEL.as_str(), "IMMEDIATE_OR_CANCEL");
    assert_eq!(OrderType::FILL_OR_KILL.as_str(), "FILL_OR_KILL");
    assert_eq!(OrderSide::BUY.as_str(), "BUY");
    assert_eq!(OrderSide::SELL.as_str(), "SELL");
}

#[test]
fn test_account_and_listen_key_requests() {
    let client = spot_client();
    let account = client.account_request(5).unwrap();
    assert!(account.starts_with("https://api.mexc.com/api/v3/account?timestamp=5&signature="));
    let create = client.listen_key_create_request(5).unwrap();
    assert!(create.starts_with(
        "https://api.mexc.com/api/v3/userDataStream?timestamp=5&signature="
    ));
    let touch = client.listen_key_touch_request("lk", 5).unwrap();
    assert!(touch.starts_with(
        "https://api.mexc.com/api/v3/userDataStream?listenKey=lk&timestamp=5&signature="
    ));
}

#[test]
fn test_market_urls() {
    assert_eq!(
        mexc::market::symbol_info_url("PLSUSDT"),
        "https://api.mexc.com/api/v3/exchangeInfo?symbol=PLSUSDT"
    );
    assert_eq!(
        mexc::market::depth_url("PLSUSDT", Some(5)),
        "https://api.mexc.com/api/v3/depth?symbol=PLSUSDT&limit=5"
    );
    assert_eq!(
        mexc::market::depth_url("PLSUSDT", None),
        "https://api.mexc.com/api/v3/depth?symbol=PLSUSDT"
    );
    assert_eq!(
        MexcFutures::account_asset_url("USDT"),
        "https://contract.mexc.com/api/v1/private/account/asset/USDT"
    );
    assert_eq!(
        MexcFutures::fair_price_url("BTC_USDT"),
        "https://contract.mexc.com/api/v1/contract/index_price/BTC_USDT"
    );
    assert_eq!(
        MexcFutures::contract_detail_url("ETH_USDT"),
        "https://contract.mexc.com/api/v1/contract/detail?symbol=ETH_USDT"
    );
}

#[test]
fn test_clock_is_plausible() {
    let t = get_timestamp();
    // well after 2020, as any live wall clock is
    assert!(t > 1_600_000_000_000);
}
