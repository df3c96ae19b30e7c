//! Spot trading: the query-string signer and the signed request URLs for
//! order submission, cancellation and queries, plus the order records the
//! spot API returns.
//!
//! A spot request is authenticated by signing the full query string with
//! HMAC-SHA256 under the API secret and appending the hex tag as a final
//! `signature` parameter; the API key itself travels in a header. The
//! query string that is hashed is exactly the one sent.
use crate::crypto::{hex_encode, hex_of, hmac_sha256, hmac_sha256_of};
use crate::json::{
    spec_i64_field, spec_num_field, spec_opt_u128_field, spec_str_field, spec_u128_field,
    JsonValue,
};
use crate::numeric::Decimal;
use crate::utils::{dec_str, u128_to_string, u64_to_string};
use crate::{AuthError, DecodeError, Mexc};
use vstd::prelude::*;
use vstd::string::StringExecFns;

verus! {

pub const DEFAULT_RECV_WINDOW: u64 = 5000;

#[allow(non_camel_case_types)]
#[derive(Debug, Clone, Copy, PartialEq, Eq, Structural)]
pub enum OrderType {
    LIMIT,
    MARKET,
    LIMIT_MAKER,
    IMMEDIATE_OR_CANCEL,
    FILL_OR_KILL,
}

/// The wire name of an order type.
pub open spec fn order_type_text(t: OrderType) -> Seq<char> {
    match t {
        OrderType::LIMIT => "LIMIT"@,
        OrderType::MARKET => "MARKET"@,
        OrderType::LIMIT_MAKER => "LIMIT_MAKER"@,
        OrderType::IMMEDIATE_OR_CANCEL => "IMMEDIATE_OR_CANCEL"@,
        OrderType::FILL_OR_KILL => "FILL_OR_KILL"@,
    }
}

impl OrderType {
    pub fn as_str(&self) -> (r: &'static str)
        ensures
            r@ == order_type_text(*self),
    {
        match self {
            OrderType::LIMIT => "LIMIT",
            OrderType::MARKET => "MARKET",
            OrderType::LIMIT_MAKER => "LIMIT_MAKER",
            OrderType::IMMEDIATE_OR_CANCEL => "IMMEDIATE_OR_CANCEL",
            OrderType::FILL_OR_KILL => "FILL_OR_KILL",
        }
    }
}

#[derive(Debug, Clone, Copy, PartialEq, Eq, Structural)]
pub enum OrderSide {
    BUY,
    SELL,
}

/// The wire name of an order side.
pub open spec fn order_side_text(s: OrderSide) -> Seq<char> {
    match s {
        OrderSide::BUY => "BUY"@,
        OrderSide::SELL => "SELL"@,
    }
}

impl OrderSide {
    pub fn as_str(&self) -> (r: &'static str)
        ensures
            r@ == order_side_text(*self),
    {
        match self {
            OrderSide::BUY => "BUY",
            OrderSide::SELL => "SELL",
        }
    }
}

#[allow(non_camel_case_types)]
#[derive(Debug, Clone, Copy, PartialEq, Eq, Structural)]
pub enum OrderStatus {
    NEW,
    FILLED,
    PARTIALLY_FILLED,
    CANCELED,
    PARTIALLY_CANCELED,
}

/// A query string signed under a secret: the string itself, then its
/// HMAC-SHA256 tag as a final `signature` parameter.
pub open spec fn signed_query(secret: Seq<char>, q: Seq<char>) -> Seq<char> {
    q + "&signature="@ + hex_of(hmac_sha256_of(secret, q))
}

/// The recvWindow that is sent: the caller's, or the default.
pub open spec fn spec_recv_window(rw: Option<u64>) -> u64 {
    match rw {
        Some(w) => w,
        None => DEFAULT_RECV_WINDOW,
    }
}

/// The unsigned query string of a spot order submission.
pub open spec fn submit_order_query_text(
    symbol: Seq<char>,
    side: OrderSide,
    order_type: OrderType,
    price: Seq<char>,
    quantity: Seq<char>,
    rw: u64,
    timestamp: u128,
) -> Seq<char> {
    "symbol="@ + symbol + "&side="@ + order_side_text(side) + "&type="@ + order_type_text(
        order_type,
    ) + "&quantity="@ + quantity + "&price="@ + price + "&recvWindow="@ + dec_str(rw as nat)
        + "&timestamp="@ + dec_str(timestamp as nat)
}

impl Mexc {
    /// Signs an assembled parameter string: appends
    /// `&signature=<hex HMAC-SHA256 tag>` computed under the API secret
    /// over exactly the given bytes.
    pub fn sign_request(&self, order_details: String) -> (r: Result<String, AuthError>)
        ensures
            match r {
                Ok(signed) => self.api_secret matches Some(sec) && signed@ == signed_query(
                    sec@,
                    order_details@,
                ),
                Err(e) => self.api_secret is None && e == AuthError::MissingSecret,
            },
    {
        let secret = match &self.api_secret {
            Some(s) => s,
            None => {
                return Err(AuthError::MissingSecret);
            },
        };
        let tag = hmac_sha256(secret.as_str(), order_details.as_str());
        let signature = hex_encode(tag.as_slice());
        let mut signed = order_details;
        signed.append("&signature=");
        signed.append(signature.as_str());
        Ok(signed)
    }

    /// The spot API key header every signed spot call carries.
    pub fn api_key_header(&self) -> (r: Result<(&'static str, &str), AuthError>)
        ensures
            match r {
                Ok(h) => self.api_key matches Some(key) && h.0@ == "X-MEXC-APIKEY"@ && h.1@
                    == key@,
                Err(e) => self.api_key is None && e == AuthError::MissingKey,
            },
    {
        match &self.api_key {
            Some(key) => Ok(("X-MEXC-APIKEY", key.as_str())),
            None => Err(AuthError::MissingKey),
        }
    }

    /// The signed URL that submits a spot order. The signature covers the
    /// exact query string sent, with the timestamp embedded in it.
    pub fn submit_order_request(
        &self,
        symbol: &str,
        side: &OrderSide,
        order_type: &OrderType,
        price: &Decimal,
        quantity: &Decimal,
        recv_window: Option<u64>,
        timestamp: u128,
    ) -> (r: Result<String, AuthError>)
        ensures
            match r {
                Ok(url) => self.api_secret matches Some(sec) && url@
                    == "https://api.mexc.com/api/v3/order?"@ + signed_query(
                    sec@,
                    submit_order_query_text(
                        symbol@,
                        *side,
                        *order_type,
                        price@,
                        quantity@,
                        spec_recv_window(recv_window),
                        timestamp,
                    ),
                ),
                Err(e) => self.api_secret is None && e == AuthError::MissingSecret,
            },
    {
        let rw: u64 = match recv_window {
            Some(w) => w,
            None => DEFAULT_RECV_WINDOW,
        };
        let mut q = String::new();
        q.append("symbol=");
        q.append(symbol);
        q.append("&side=");
        q.append(side.as_str());
        q.append("&type=");
        q.append(order_type.as_str());
        q.append("&quantity=");
        q.append(quantity.as_str());
        q.append("&price=");
        q.append(price.as_str());
        q.append("&recvWindow=");
        q.append(u64_to_string(rw).as_str());
        q.append("&timestamp=");
        q.append(u128_to_string(timestamp).as_str());
        let signed = self.sign_request(q)?;
        let mut url = String::new();
        url.append("https://api.mexc.com/api/v3/order?");
        url.append(signed.as_str());
        Ok(url)
    }

    /// The signed URL that cancels every open order on a symbol.
    pub fn cancel_all_orders_request(
        &self,
        symbol: &str,
        recv_window: Option<u64>,
        timestamp: u128,
    ) -> (r: Result<String, AuthError>)
        ensures
            match r {
                Ok(url) => self.api_secret matches Some(sec) && url@
                    == "https://api.mexc.com/api/v3/openOrders?"@ + signed_query(
                    sec@,
                    "symbol="@ + symbol@ + "&recvWindow="@ + dec_str(
                        spec_recv_window(recv_window) as nat,
                    ) + "&timestamp="@ + dec_str(timestamp as nat),
                ),
                Err(e) => self.api_secret is None && e == AuthError::MissingSecret,
            },
    {
        let rw: u64 = match recv_window {
            Some(w) => w,
            None => DEFAULT_RECV_WINDOW,
        };
        let mut q = String::new();
        q.append("symbol=");
        q.append(symbol);
        q.append("&recvWindow=");
        q.append(u64_to_string(rw).as_str());
        q.append("&timestamp=");
        q.append(u128_to_string(timestamp).as_str());
        let signed = self.sign_request(q)?;
        let mut url = String::new();
        url.append("https://api.mexc.com/api/v3/openOrders?");
        url.append(signed.as_str());
        Ok(url)
    }

    /// The signed URL that cancels one order by its id.
    pub fn cancel_order_request(
        &self,
        symbol: &str,
        order_id: &str,
        recv_window: Option<u64>,
        timestamp: u128,
    ) -> (r: Result<String, AuthError>)
        ensures
            match r {
                Ok(url) => self.api_secret matches Some(sec) && url@
                    == "https://api.mexc.com/api/v3/order?"@ + signed_query(
                    sec@,
                    "symbol="@ + symbol@ + "&orderId="@ + order_id@ + "&recvWindow="@ + dec_str(
                        spec_recv_window(recv_window) as nat,
                    ) + "&timestamp="@ + dec_str(timestamp as nat),
                ),
                Err(e) => self.api_secret is None && e == AuthError::MissingSecret,
            },
    {
        let rw: u64 = match recv_window {
            Some(w) => w,
            None => DEFAULT_RECV_WINDOW,
        };
        let mut q = String::new();
        q.append("symbol=");
        q.append(symbol);
        q.append("&orderId=");
        q.append(order_id);
        q.append("&recvWindow=");
        q.append(u64_to_string(rw).as_str());
        q.append("&timestamp=");
        q.append(u128_to_string(timestamp).as_str());
        let signed = self.sign_request(q)?;
        let mut url = String::new();
        url.append("https://api.mexc.com/api/v3/order?");
        url.append(signed.as_str());
        Ok(url)
    }

    /// The signed URL that lists the open orders on a symbol.
    pub fn open_orders_request(
        &self,
        symbol: &str,
        recv_window: Option<u64>,
        timestamp: u128,
    ) -> (r: Result<String, AuthError>)
        ensures
            match r {
                Ok(url) => self.api_secret matches Some(sec) && url@
                    == "https://api.mexc.com/api/v3/openOrders?"@ + signed_query(
                    sec@,
                    "symbol="@ + symbol@ + "&recvWindow="@ + dec_str(
                        spec_recv_window(recv_window) as nat,
                    ) + "&timestamp="@ + dec_str(timestamp as nat),
                ),
                Err(e) => self.api_secret is None && e == AuthError::MissingSecret,
            },
    {
        self.cancel_all_orders_request(symbol, recv_window, timestamp)
    }
}


/// The order type a wire name denotes, if any.
pub open spec fn order_type_of_text(s: Seq<char>) -> Option<OrderType> {
    if s == "LIMIT"@ {
        Some(OrderType::LIMIT)
    } else if s == "MARKET"@ {
        Some(OrderType::MARKET)
    } else if s == "LIMIT_MAKER"@ {
        Some(OrderType::LIMIT_MAKER)
    } else if s == "IMMEDIATE_OR_CANCEL"@ {
        Some(OrderType::IMMEDIATE_OR_CANCEL)
    } else if s == "FILL_OR_KILL"@ {
        Some(OrderType::FILL_OR_KILL)
    } else {
        None
    }
}

/// A required field holding an order type's wire name.
pub open spec fn spec_order_type_field(v: JsonValue, key: Seq<char>) -> Result<
    OrderType,
    DecodeError,
> {
    match crate::json::spec_str_field(v, key) {
        Err(e) => Err(e),
        Ok(s) => match order_type_of_text(s) {
            Some(t) => Ok(t),
            None => Err(crate::DecodeError::InvalidType),
        },
    }
}

pub fn get_order_type_field(v: &JsonValue, key: &str) -> (r: Result<
    OrderType,
    crate::DecodeError,
>)
    ensures
        match r {
            Ok(t) => spec_order_type_field(*v, key@) == Ok::<OrderType, crate::DecodeError>(t),
            Err(e) => spec_order_type_field(*v, key@) == Err::<OrderType, crate::DecodeError>(e),
        },
{
    let s = crate::json::get_str_field(v, key)?;
    if s.as_str().eq("LIMIT") {
        Ok(OrderType::LIMIT)
    } else if s.as_str().eq("MARKET") {
        Ok(OrderType::MARKET)
    } else if s.as_str().eq("LIMIT_MAKER") {
        Ok(OrderType::LIMIT_MAKER)
    } else if s.as_str().eq("IMMEDIATE_OR_CANCEL") {
        Ok(OrderType::IMMEDIATE_OR_CANCEL)
    } else if s.as_str().eq("FILL_OR_KILL") {
        Ok(OrderType::FILL_OR_KILL)
    } else {
        Err(crate::DecodeError::InvalidType)
    }
}

/// The order side a wire name denotes, if any.
pub open spec fn order_side_of_text(s: Seq<char>) -> Option<OrderSide> {
    if s == "BUY"@ {
        Some(OrderSide::BUY)
    } else if s == "SELL"@ {
        Some(OrderSide::SELL)
    } else {
        None
    }
}

/// A required field holding an order side's wire name.
pub open spec fn spec_order_side_field(v: JsonValue, key: Seq<char>) -> Result<
    OrderSide,
    DecodeError,
> {
    match crate::json::spec_str_field(v, key) {
        Err(e) => Err(e),
        Ok(s) => match order_side_of_text(s) {
            Some(t) => Ok(t),
            None => Err(crate::DecodeError::InvalidType),
        },
    }
}

pub fn get_order_side_field(v: &JsonValue, key: &str) -> (r: Result<
    OrderSide,
    crate::DecodeError,
>)
    ensures
        match r {
            Ok(t) => spec_order_side_field(*v, key@) == Ok::<OrderSide, crate::DecodeError>(t),
            Err(e) => spec_order_side_field(*v, key@) == Err::<OrderSide, crate::DecodeError>(e),
        },
{
    let s = crate::json::get_str_field(v, key)?;
    if s.as_str().eq("BUY") {
        Ok(OrderSide::BUY)
    } else if s.as_str().eq("SELL") {
        Ok(OrderSide::SELL)
    } else {
        Err(crate::DecodeError::InvalidType)
    }
}

/// A spot order to submit; prices and quantities serialize as strings.
#[derive(Debug, Clone)]
pub struct Order {
    pub symbol: String,
    pub price: Decimal,
    pub quantity: Decimal,
    pub side: OrderSide,
    pub order_type: OrderType,
}

/// One order's JSON form, fields in declaration order, price and
/// quantity as strings.
pub open spec fn order_json_text(o: Order) -> Seq<char> {
    "{\"symbol\":\""@ + crate::json::json_escaped(o.symbol@) + "\",\"price\":\""@
        + crate::json::json_escaped(o.price@) + "\",\"quantity\":\""@
        + crate::json::json_escaped(o.quantity@) + "\",\"side\":\""@ + order_side_text(o.side)
        + "\",\"type\":\""@ + order_type_text(o.order_type) + "\"}"@
}

/// The JSON array of a batch, in order, comma-separated.
pub open spec fn orders_json_items(os: Seq<Order>) -> Seq<char>
    decreases os.len(),
{
    if os.len() == 0 {
        Seq::empty()
    } else if os.len() == 1 {
        order_json_text(os[0])
    } else {
        orders_json_items(os.drop_last()) + ","@ + order_json_text(os.last())
    }
}

pub open spec fn orders_json_text(os: Seq<Order>) -> Seq<char> {
    "["@ + orders_json_items(os) + "]"@
}

/// Serializes a batch of orders to the JSON array the batch endpoint
/// takes.
pub fn orders_to_json(orders: &Vec<Order>) -> (r: String)
    ensures
        r@ == orders_json_text(orders@),
{
    let n = orders.len();
    let mut items = String::new();
    let mut i: usize = 0;
    while i < n
        invariant
            0 <= i <= n,
            n == orders@.len(),
            items@ == orders_json_items(orders@.take(i as int)),
        decreases n - i,
    {
        if i > 0 {
            items.append(",");
        }
        let o = &orders[i];
        items.append("{\"symbol\":\"");
        items.append(crate::json::json_escape(o.symbol.as_str()).as_str());
        items.append("\",\"price\":\"");
        items.append(crate::json::json_escape(o.price.as_str()).as_str());
        items.append("\",\"quantity\":\"");
        items.append(crate::json::json_escape(o.quantity.as_str()).as_str());
        items.append("\",\"side\":\"");
        items.append(o.side.as_str());
        items.append("\",\"type\":\"");
        items.append(o.order_type.as_str());
        items.append("\"}");
        proof {
            assert(orders@.take(i + 1).drop_last() =~= orders@.take(i as int));
            assert(orders@.take(i + 1).last() == orders@[i as int]);
            if i == 0 {
                assert(orders@.take(1).len() == 1);
            }
        }
        i += 1;
    }
    proof {
        assert(orders@.take(n as int) =~= orders@);
    }
    let mut r = String::new();
    r.append("[");
    r.append(items.as_str());
    r.append("]");
    r
}

/// Decodes an order receipt straight from response text.
pub fn decode_order_receipt_str(text: &str) -> (r: Result<OrderReceipt, DecodeError>)
    ensures
        match crate::json::json_of(text@) {
            None => r == Err::<OrderReceipt, DecodeError>(DecodeError::InvalidJson),
            Some(v) => match r {
                Ok(b) => order_receipt_matches(v, b) && order_receipt_err(v) is None,
                Err(e) => order_receipt_err(v) == Some(e),
            },
        },
{
    match crate::json::parse_json(text) {
        None => Err(DecodeError::InvalidJson),
        Some(v) => decode_order_receipt(&v),
    }
}

/// Decodes a cancel-all response straight from response text.
pub fn decode_cancelled_orders_str(text: &str) -> (r: Result<Vec<CancelledOrder>, DecodeError>)
    ensures
        match crate::json::json_of(text@) {
            None => r == Err::<Vec<CancelledOrder>, DecodeError>(DecodeError::InvalidJson),
            Some(v) => match r {
                Ok(bs) => v matches JsonValue::Arr(elems) && bs@.len() == elems@.len() && (
                forall|k: int|
                    0 <= k < elems@.len() ==> cancelled_order_matches(elems@[k], bs@[k]))
                    && cancelled_orders_err(elems@) is None,
                Err(e) => match v {
                    JsonValue::Arr(elems) => cancelled_orders_err(elems@) == Some(e),
                    _ => e == DecodeError::InvalidType,
                },
            },
        },
{
    match crate::json::parse_json(text) {
        None => Err(DecodeError::InvalidJson),
        Some(v) => decode_cancelled_orders(&v),
    }
}

/// What url's form serializer makes of the one batchOrders pair: the
/// key, an equals sign, and the percent-encoded JSON.
pub uninterp spec fn form_encoded_pair_of(json: Seq<char>) -> Seq<char>;

/// Relies on url::form_urlencoded::Serializer: one appended pair
/// `batchOrders=<json>`, with the value encoded as
/// application/x-www-form-urlencoded. A pure function of the JSON text.
#[verifier::external_body]
fn encode_batch_pair(json: &str) -> (r: String)
    ensures
        r@ == form_encoded_pair_of(json@),
{
    url::form_urlencoded::Serializer::new(String::new()).append_pair("batchOrders", json).finish()
}

impl Mexc {
    /// The signed URL that submits a batch of orders: the orders travel
    /// as one urlencoded JSON array inside the signed query string. The
    /// caller must have at least one order; the surrounding code rejects
    /// an empty batch before calling.
    pub fn batch_orders_request(
        &self,
        orders: &Vec<Order>,
        recv_window: Option<u64>,
        timestamp: u128,
    ) -> (r: Result<String, AuthError>)
        requires
            orders@.len() > 0,
        ensures
            match r {
                Ok(url) => self.api_secret matches Some(sec) && url@
                    == "https://api.mexc.com/api/v3/batchOrders?"@ + signed_query(
                    sec@,
                    form_encoded_pair_of(orders_json_text(orders@)) + "&recvWindow="@ + dec_str(
                        spec_recv_window(recv_window) as nat,
                    ) + "&timestamp="@ + dec_str(timestamp as nat),
                ),
                Err(e) => self.api_secret is None && e == AuthError::MissingSecret,
            },
    {
        let rw: u64 = match recv_window {
            Some(w) => w,
            None => DEFAULT_RECV_WINDOW,
        };
        let json = orders_to_json(orders);
        let mut q = encode_batch_pair(json.as_str());
        q.append("&recvWindow=");
        q.append(u64_to_string(rw).as_str());
        q.append("&timestamp=");
        q.append(u128_to_string(timestamp).as_str());
        let signed = self.sign_request(q)?;
        let mut url = String::new();
        url.append("https://api.mexc.com/api/v3/batchOrders?");
        url.append(signed.as_str());
        Ok(url)
    }
}


/// The receipt a spot order submission returns.
#[derive(Debug, Clone)]
pub struct OrderReceipt {
    pub symbol: String,
    pub order_id: String,
    pub order_list_id: i64,
    pub price: Decimal,
    pub orig_qty: Decimal,
    pub order_type: OrderType,
    pub side: OrderSide,
    pub transact_time: u128,
}

pub open spec fn order_receipt_matches(v: JsonValue, b: OrderReceipt) -> bool {
    &&& spec_str_field(v, "symbol"@) == Ok::<Seq<char>, DecodeError>(b.symbol@)
    &&& spec_str_field(v, "orderId"@) == Ok::<Seq<char>, DecodeError>(b.order_id@)
    &&& spec_i64_field(v, "orderListId"@) == Ok::<i64, DecodeError>(b.order_list_id)
    &&& spec_num_field(v, "price"@) == Ok::<Seq<char>, DecodeError>(b.price@)
    &&& spec_num_field(v, "origQty"@) == Ok::<Seq<char>, DecodeError>(b.orig_qty@)
    &&& spec_order_type_field(v, "type"@) == Ok::<OrderType, DecodeError>(b.order_type)
    &&& spec_order_side_field(v, "side"@) == Ok::<OrderSide, DecodeError>(b.side)
    &&& spec_u128_field(v, "transactTime"@) == Ok::<u128, DecodeError>(b.transact_time)
}

pub open spec fn order_receipt_err(v: JsonValue) -> Option<DecodeError> {
    let symbol = spec_str_field(v, "symbol"@);
    let order_id = spec_str_field(v, "orderId"@);
    let order_list_id = spec_i64_field(v, "orderListId"@);
    let price = spec_num_field(v, "price"@);
    let orig_qty = spec_num_field(v, "origQty"@);
    let order_type = spec_order_type_field(v, "type"@);
    let side = spec_order_side_field(v, "side"@);
    let transact_time = spec_u128_field(v, "transactTime"@);
    if symbol is Err {
        Some(symbol->Err_0)
    } else if order_id is Err {
        Some(order_id->Err_0)
    } else if order_list_id is Err {
        Some(order_list_id->Err_0)
    } else if price is Err {
        Some(price->Err_0)
    } else if orig_qty is Err {
        Some(orig_qty->Err_0)
    } else if order_type is Err {
        Some(order_type->Err_0)
    } else if side is Err {
        Some(side->Err_0)
    } else if transact_time is Err {
        Some(transact_time->Err_0)
    } else {
        None
    }
}

/// Decodes one record, ignoring unknown fields; a missing or
/// ill-shaped field is the failure of the first such field.
pub fn decode_order_receipt(v: &JsonValue) -> (r: Result<OrderReceipt, DecodeError>)
    ensures
        match r {
            Ok(b) => order_receipt_matches(*v, b) && order_receipt_err(*v) is None,
            Err(e) => order_receipt_err(*v) == Some(e),
        },
{
    let symbol = crate::json::get_str_field(v, "symbol")?;
    let order_id = crate::json::get_str_field(v, "orderId")?;
    let order_list_id = crate::json::get_i64_field(v, "orderListId")?;
    let price = crate::json::get_num_field(v, "price")?;
    let orig_qty = crate::json::get_num_field(v, "origQty")?;
    let order_type = get_order_type_field(v, "type")?;
    let side = get_order_side_field(v, "side")?;
    let transact_time = crate::json::get_u128_field(v, "transactTime")?;
    Ok(
        OrderReceipt {
            symbol,
            order_id,
            order_list_id,
            price,
            orig_qty,
            order_type,
            side,
            transact_time,
        },
    )
}

/// The first failure among an array of these records, if any.
pub open spec fn order_receipts_err(elems: Seq<JsonValue>) -> Option<DecodeError>
    decreases elems.len(),
{
    if elems.len() == 0 {
        None
    } else if order_receipt_err(elems.first()) is Some {
        order_receipt_err(elems.first())
    } else {
        order_receipts_err(elems.drop_first())
    }
}

/// Decodes a batch-submission response: an array of receipts.
pub fn decode_order_receipts(v: &JsonValue) -> (r: Result<Vec<OrderReceipt>, DecodeError>)
    ensures
        match r {
            Ok(bs) => *v matches JsonValue::Arr(elems) && bs@.len() == elems@.len() && (forall|
                k: int,
            |
                0 <= k < elems@.len() ==> order_receipt_matches(elems@[k], bs@[k]))
                && order_receipts_err(elems@) is None,
            Err(e) => match *v {
                JsonValue::Arr(elems) => order_receipts_err(elems@) == Some(e),
                _ => e == DecodeError::InvalidType,
            },
        },
{
    match v {
        JsonValue::Arr(elems) => {
            let n = elems.len();
            let mut out: Vec<OrderReceipt> = Vec::new();
            let mut i: usize = 0;
            proof {
                assert(elems@.skip(0) =~= elems@);
            }
            while i < n
                invariant
                    0 <= i <= n,
                    n == elems@.len(),
                    out@.len() == i,
                    *v matches JsonValue::Arr(es) && es@ == elems@,
                    forall|k: int| 0 <= k < i ==> order_receipt_matches(elems@[k], out@[k]),
                    forall|k: int| 0 <= k < i ==> order_receipt_err(elems@[k]) is None,
                    order_receipts_err(elems@) == order_receipts_err(elems@.skip(i as int)),
                decreases n - i,
            {
                proof {
                    assert(elems@.skip(i as int).first() == elems@[i as int]);
                    assert(elems@.skip(i as int).drop_first() =~= elems@.skip(i + 1));
                }
                match decode_order_receipt(&elems[i]) {
                    Ok(b) => out.push(b),
                    Err(e) => {
                        return Err(e);
                    },
                }
                i += 1;
            }
            proof {
                assert(elems@.skip(n as int).len() == 0);
            }
            Ok(out)
        },
        _ => Err(DecodeError::InvalidType),
    }
}

/// A cancelled spot order.
#[derive(Debug, Clone)]
pub struct CancelledOrder {
    pub symbol: String,
    pub order_id: String,
    pub price: Decimal,
    pub orig_qty: Decimal,
    pub exec_qty: Decimal,
    pub cum_quote_qty: Decimal,
    pub order_type: OrderType,
    pub side: OrderSide,
}

pub open spec fn cancelled_order_matches(v: JsonValue, b: CancelledOrder) -> bool {
    &&& spec_str_field(v, "symbol"@) == Ok::<Seq<char>, DecodeError>(b.symbol@)
    &&& spec_str_field(v, "orderId"@) == Ok::<Seq<char>, DecodeError>(b.order_id@)
    &&& spec_num_field(v, "price"@) == Ok::<Seq<char>, DecodeError>(b.price@)
    &&& spec_num_field(v, "origQty"@) == Ok::<Seq<char>, DecodeError>(b.orig_qty@)
    &&& spec_num_field(v, "executedQty"@) == Ok::<Seq<char>, DecodeError>(b.exec_qty@)
    &&& spec_num_field(v, "cummulativeQuoteQty"@) == Ok::<Seq<char>, DecodeError>(b.cum_quote_qty@)
    &&& spec_order_type_field(v, "type"@) == Ok::<OrderType, DecodeError>(b.order_type)
    &&& spec_order_side_field(v, "side"@) == Ok::<OrderSide, DecodeError>(b.side)
}

pub open spec fn cancelled_order_err(v: JsonValue) -> Option<DecodeError> {
    let symbol = spec_str_field(v, "symbol"@);
    let order_id = spec_str_field(v, "orderId"@);
    let price = spec_num_field(v, "price"@);
    let orig_qty = spec_num_field(v, "origQty"@);
    let exec_qty = spec_num_field(v, "executedQty"@);
    let cum_quote_qty = spec_num_field(v, "cummulativeQuoteQty"@);
    let order_type = spec_order_type_field(v, "type"@);
    let side = spec_order_side_field(v, "side"@);
    if symbol is Err {
        Some(symbol->Err_0)
    } else if order_id is Err {
        Some(order_id->Err_0)
    } else if price is Err {
        Some(price->Err_0)
    } else if orig_qty is Err {
        Some(orig_qty->Err_0)
    } else if exec_qty is Err {
        Some(exec_qty->Err_0)
    } else if cum_quote_qty is Err {
        Some(cum_quote_qty->Err_0)
    } else if order_type is Err {
        Some(order_type->Err_0)
    } else if side is Err {
        Some(side->Err_0)
    } else {
        None
    }
}

/// Decodes one record, ignoring unknown fields; a missing or
/// ill-shaped field is the failure of the first such field.
pub fn decode_cancelled_order(v: &JsonValue) -> (r: Result<CancelledOrder, DecodeError>)
    ensures
        match r {
            Ok(b) => cancelled_order_matches(*v, b) && cancelled_order_err(*v) is None,
            Err(e) => cancelled_order_err(*v) == Some(e),
        },
{
    let symbol = crate::json::get_str_field(v, "symbol")?;
    let order_id = crate::json::get_str_field(v, "orderId")?;
    let price = crate::json::get_num_field(v, "price")?;
    let orig_qty = crate::json::get_num_field(v, "origQty")?;
    let exec_qty = crate::json::get_num_field(v, "executedQty")?;
    let cum_quote_qty = crate::json::get_num_field(v, "cummulativeQuoteQty")?;
    let order_type = get_order_type_field(v, "type")?;
    let side = get_order_side_field(v, "side")?;
    Ok(
        CancelledOrder {
            symbol,
            order_id,
            price,
            orig_qty,
            exec_qty,
            cum_quote_qty,
            order_type,
            side,
        },
    )
}

/// The first failure among an array of these records, if any.
pub open spec fn cancelled_orders_err(elems: Seq<JsonValue>) -> Option<DecodeError>
    decreases elems.len(),
{
    if elems.len() == 0 {
        None
    } else if cancelled_order_err(elems.first()) is Some {
        cancelled_order_err(elems.first())
    } else {
        cancelled_orders_err(elems.drop_first())
    }
}

/// Decodes a cancel-all response: an array of cancelled orders.
pub fn decode_cancelled_orders(v: &JsonValue) -> (r: Result<Vec<CancelledOrder>, DecodeError>)
    ensures
        match r {
            Ok(bs) => *v matches JsonValue::Arr(elems) && bs@.len() == elems@.len() && (forall|
                k: int,
            |
                0 <= k < elems@.len() ==> cancelled_order_matches(elems@[k], bs@[k]))
                && cancelled_orders_err(elems@) is None,
            Err(e) => match *v {
                JsonValue::Arr(elems) => cancelled_orders_err(elems@) == Some(e),
                _ => e == DecodeError::InvalidType,
            },
        },
{
    match v {
        JsonValue::Arr(elems) => {
            let n = elems.len();
            let mut out: Vec<CancelledOrder> = Vec::new();
            let mut i: usize = 0;
            proof {
                assert(elems@.skip(0) =~= elems@);
            }
            while i < n
                invariant
                    0 <= i <= n,
                    n == elems@.len(),
                    out@.len() == i,
                    *v matches JsonValue::Arr(es) && es@ == elems@,
                    forall|k: int| 0 <= k < i ==> cancelled_order_matches(elems@[k], out@[k]),
                    forall|k: int| 0 <= k < i ==> cancelled_order_err(elems@[k]) is None,
                    cancelled_orders_err(elems@) == cancelled_orders_err(elems@.skip(i as int)),
                decreases n - i,
            {
                proof {
                    assert(elems@.skip(i as int).first() == elems@[i as int]);
                    assert(elems@.skip(i as int).drop_first() =~= elems@.skip(i + 1));
                }
                match decode_cancelled_order(&elems[i]) {
                    Ok(b) => out.push(b),
                    Err(e) => {
                        return Err(e);
                    },
                }
                i += 1;
            }
            proof {
                assert(elems@.skip(n as int).len() == 0);
            }
            Ok(out)
        },
        _ => Err(DecodeError::InvalidType),
    }
}

/// An open spot order, as the open-orders query reports it.
#[derive(Debug, Clone)]
pub struct OrderQuery {
    pub symbol: String,
    pub order_id: String,
    pub price: Decimal,
    pub orig_qty: Decimal,
    pub exec_qty: Decimal,
    pub order_type: OrderType,
    pub side: OrderSide,
    pub created_time: u128,
    pub last_update: Option<u128>,
}

pub open spec fn order_query_matches(v: JsonValue, b: OrderQuery) -> bool {
    &&& spec_str_field(v, "symbol"@) == Ok::<Seq<char>, DecodeError>(b.symbol@)
    &&& spec_str_field(v, "orderId"@) == Ok::<Seq<char>, DecodeError>(b.order_id@)
    &&& spec_num_field(v, "price"@) == Ok::<Seq<char>, DecodeError>(b.price@)
    &&& spec_num_field(v, "origQty"@) == Ok::<Seq<char>, DecodeError>(b.orig_qty@)
    &&& spec_num_field(v, "executedQty"@) == Ok::<Seq<char>, DecodeError>(b.exec_qty@)
    &&& spec_order_type_field(v, "type"@) == Ok::<OrderType, DecodeError>(b.order_type)
    &&& spec_order_side_field(v, "side"@) == Ok::<OrderSide, DecodeError>(b.side)
    &&& spec_u128_field(v, "time"@) == Ok::<u128, DecodeError>(b.created_time)
    &&& spec_opt_u128_field(v, "updateTime"@) == Ok::<Option<u128>, DecodeError>(b.last_update)
}

pub open spec fn order_query_err(v: JsonValue) -> Option<DecodeError> {
    let symbol = spec_str_field(v, "symbol"@);
    let order_id = spec_str_field(v, "orderId"@);
    let price = spec_num_field(v, "price"@);
    let orig_qty = spec_num_field(v, "origQty"@);
    let exec_qty = spec_num_field(v, "executedQty"@);
    let order_type = spec_order_type_field(v, "type"@);
    let side = spec_order_side_field(v, "side"@);
    let created_time = spec_u128_field(v, "time"@);
    let last_update = spec_opt_u128_field(v, "updateTime"@);
    if symbol is Err {
        Some(symbol->Err_0)
    } else if order_id is Err {
        Some(order_id->Err_0)
    } else if price is Err {
        Some(price->Err_0)
    } else if orig_qty is Err {
        Some(orig_qty->Err_0)
    } else if exec_qty is Err {
        Some(exec_qty->Err_0)
    } else if order_type is Err {
        Some(order_type->Err_0)
    } else if side is Err {
        Some(side->Err_0)
    } else if created_time is Err {
        Some(created_time->Err_0)
    } else if last_update is Err {
        Some(last_update->Err_0)
    } else {
        None
    }
}

/// Decodes one record, ignoring unknown fields; a missing or
/// ill-shaped field is the failure of the first such field.
pub fn decode_order_query(v: &JsonValue) -> (r: Result<OrderQuery, DecodeError>)
    ensures
        match r {
            Ok(b) => order_query_matches(*v, b) && order_query_err(*v) is None,
            Err(e) => order_query_err(*v) == Some(e),
        },
{
    let symbol = crate::json::get_str_field(v, "symbol")?;
    let order_id = crate::json::get_str_field(v, "orderId")?;
    let price = crate::json::get_num_field(v, "price")?;
    let orig_qty = crate::json::get_num_field(v, "origQty")?;
    let exec_qty = crate::json::get_num_field(v, "executedQty")?;
    let order_type = get_order_type_field(v, "type")?;
    let side = get_order_side_field(v, "side")?;
    let created_time = crate::json::get_u128_field(v, "time")?;
    let last_update = crate::json::get_opt_u128_field(v, "updateTime")?;
    Ok(
        OrderQuery {
            symbol,
            order_id,
            price,
            orig_qty,
            exec_qty,
            order_type,
            side,
            created_time,
            last_update,
        },
    )
}

/// The first failure among an array of these records, if any.
pub open spec fn order_querys_err(elems: Seq<JsonValue>) -> Option<DecodeError>
    decreases elems.len(),
{
    if elems.len() == 0 {
        None
    } else if order_query_err(elems.first()) is Some {
        order_query_err(elems.first())
    } else {
        order_querys_err(elems.drop_first())
    }
}

/// Decodes an open-orders response: an array of order records.
pub fn decode_order_querys(v: &JsonValue) -> (r: Result<Vec<OrderQuery>, DecodeError>)
    ensures
        match r {
            Ok(bs) => *v matches JsonValue::Arr(elems) && bs@.len() == elems@.len() && (forall|
                k: int,
            |
                0 <= k < elems@.len() ==> order_query_matches(elems@[k], bs@[k]))
                && order_querys_err(elems@) is None,
            Err(e) => match *v {
                JsonValue::Arr(elems) => order_querys_err(elems@) == Some(e),
                _ => e == DecodeError::InvalidType,
            },
        },
{
    match v {
        JsonValue::Arr(elems) => {
            let n = elems.len();
            let mut out: Vec<OrderQuery> = Vec::new();
            let mut i: usize = 0;
            proof {
                assert(elems@.skip(0) =~= elems@);
            }
            while i < n
                invariant
                    0 <= i <= n,
                    n == elems@.len(),
                    out@.len() == i,
                    *v matches JsonValue::Arr(es) && es@ == elems@,
                    forall|k: int| 0 <= k < i ==> order_query_matches(elems@[k], out@[k]),
                    forall|k: int| 0 <= k < i ==> order_query_err(elems@[k]) is None,
                    order_querys_err(elems@) == order_querys_err(elems@.skip(i as int)),
                decreases n - i,
            {
                proof {
                    assert(elems@.skip(i as int).first() == elems@[i as int]);
                    assert(elems@.skip(i as int).drop_first() =~= elems@.skip(i + 1));
                }
                match decode_order_query(&elems[i]) {
                    Ok(b) => out.push(b),
                    Err(e) => {
                        return Err(e);
                    },
                }
                i += 1;
            }
            proof {
                assert(elems@.skip(n as int).len() == 0);
            }
            Ok(out)
        },
        _ => Err(DecodeError::InvalidType),
    }
}

} // verus!
