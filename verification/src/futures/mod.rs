//! Futures trading. Two authentication schemes coexist here:
//!
//! * the documented "v1" scheme signs `api_key ++ timestamp ++ params`
//!   with HMAC-SHA256 under the API secret and sends the tag in headers;
//! * order submission goes through the exchange's own web endpoint, which
//!   authenticates a browser-style session token with a two-stage MD5
//!   scheme over the exact JSON body sent. That scheme (the fixed
//!   offset-7 substring and the browser-mimicking header values) is
//!   reverse-engineered behaviour, preserved byte for byte; it can break
//!   silently if the exchange changes its web client.
use crate::crypto::{hex_of, hmac_sha256, hmac_sha256_of, md5_of};
use crate::json::{json_escape, json_escaped};
use crate::numeric::Decimal;
use crate::utils::{dec_str, u128_to_string};
use crate::AuthError;
use vstd::prelude::*;
use vstd::string::StrSliceExecFns;
use vstd::string::StringExecFns;

pub mod structures;

verus! {

/// Credentials for the futures API. The key and secret serve the v1
/// header-signed endpoints; the web session token serves order submission.
pub struct MexcFutures {
    pub api_key: Option<String>,
    pub api_secret: Option<String>,
    pub web_user_token: Option<String>,
}

#[derive(Debug, Clone, Copy, PartialEq, Eq, Structural)]
pub enum OrderDirection {
    OpenLong,
    CloseShort,
    OpenShort,
    CloseLong,
}

/// The wire code of a direction.
pub open spec fn order_direction_code(d: OrderDirection) -> u64 {
    match d {
        OrderDirection::OpenLong => 1,
        OrderDirection::CloseShort => 2,
        OrderDirection::OpenShort => 3,
        OrderDirection::CloseLong => 4,
    }
}

impl OrderDirection {
    pub fn as_u64(&self) -> (r: u64)
        ensures
            r == order_direction_code(*self),
    {
        match self {
            OrderDirection::OpenLong => 1,
            OrderDirection::CloseShort => 2,
            OrderDirection::OpenShort => 3,
            OrderDirection::CloseLong => 4,
        }
    }
}

#[derive(Debug, Clone, Copy, PartialEq, Eq, Structural)]
pub enum OpenType {
    Isolated,
    Cross,
}

/// The wire code of a margin open type.
pub open spec fn open_type_code(t: OpenType) -> u64 {
    match t {
        OpenType::Isolated => 1,
        OpenType::Cross => 2,
    }
}

impl OpenType {
    pub fn as_u64(&self) -> (r: u64)
        ensures
            r == open_type_code(*self),
    {
        match self {
            OpenType::Isolated => 1,
            OpenType::Cross => 2,
        }
    }
}

#[derive(Debug, Clone, Copy, PartialEq, Eq, Structural)]
pub enum OrderType {
    Limit,
    PostOnly,
    TransactOrCancelInstantly,
    TransactCompletelyOrCancelCompletely,
    Market,
    ConvertMarketToCurrentPrice,
}

/// The wire code of a futures order type.
pub open spec fn futures_order_type_code(t: OrderType) -> u64 {
    match t {
        OrderType::Limit => 1,
        OrderType::PostOnly => 2,
        OrderType::TransactOrCancelInstantly => 3,
        OrderType::TransactCompletelyOrCancelCompletely => 4,
        OrderType::Market => 5,
        OrderType::ConvertMarketToCurrentPrice => 6,
    }
}

impl OrderType {
    pub fn as_u64(&self) -> (r: u64)
        ensures
            r == futures_order_type_code(*self),
    {
        match self {
            OrderType::Limit => 1,
            OrderType::PostOnly => 2,
            OrderType::TransactOrCancelInstantly => 3,
            OrderType::TransactCompletelyOrCancelCompletely => 4,
            OrderType::Market => 5,
            OrderType::ConvertMarketToCurrentPrice => 6,
        }
    }
}

/// The lowercase hex MD5 digest of a piece of text.
pub fn get_md5(string: &str) -> (r: String)
    ensures
        r@ == hex_of(md5_of(string@)),
        r@.len() == 32,
{
    let digest = crate::crypto::md5_digest(string);
    proof {
        crate::crypto::lemma_hex_of_len(digest@);
    }
    crate::crypto::hex_encode(digest.as_slice())
}

/// What the v1 scheme signs: the key, the decimal timestamp, then the
/// flattened parameters if there are any.
pub open spec fn v1_sign_input(
    key: Seq<char>,
    timestamp: u128,
    params: Option<Seq<char>>,
) -> Seq<char> {
    match params {
        Some(p) => key + dec_str(timestamp as nat) + p,
        None => key + dec_str(timestamp as nat),
    }
}

/// The JSON body of a futures order, exactly as it is sent: keys in
/// sorted order, the price (when present) as a string, and the fixed
/// flags the exchange's web client sends.
pub open spec fn futures_order_body_text(
    symbol: Seq<char>,
    contract_units: u64,
    price: Option<Seq<char>>,
    leverage: u64,
    side: OrderDirection,
    open_type: OpenType,
    order_type: OrderType,
) -> Seq<char> {
    "{\"leverage\":"@ + dec_str(leverage as nat) + ",\"marketCeiling\":false,\"openType\":"@
        + dec_str(open_type_code(open_type) as nat) + (match price {
        Some(p) => ",\"price\":\""@ + json_escaped(p) + "\""@,
        None => Seq::empty(),
    }) + ",\"priceProtect\":\"0\",\"reduceOnly\":false,\"side\":"@ + dec_str(
        order_direction_code(side) as nat,
    ) + ",\"symbol\":\""@ + json_escaped(symbol) + "\",\"type\":"@ + dec_str(
        futures_order_type_code(order_type) as nat,
    ) + ",\"vol\":"@ + dec_str(contract_units as nat) + "}"@
}

/// The partial hash of the session scheme: the hex MD5 of
/// `token ++ timestamp`, from its eighth character on.
pub open spec fn session_partial_hash(token: Seq<char>, ts_text: Seq<char>) -> Seq<char> {
    hex_of(md5_of(token + ts_text)).skip(7)
}

/// The session signature: the hex MD5 of
/// `timestamp ++ body ++ partial_hash`.
pub open spec fn session_signature(
    token: Seq<char>,
    ts_text: Seq<char>,
    body: Seq<char>,
) -> Seq<char> {
    hex_of(md5_of(ts_text + body + session_partial_hash(token, ts_text)))
}

/// A ready-to-send futures order submission: the fixed web endpoint, the
/// session headers, and the JSON body the signature covers.
#[derive(Debug)]
pub struct FuturesOrderRequest {
    pub url: String,
    pub headers: Vec<(String, String)>,
    pub body: String,
}

impl MexcFutures {
    pub fn new(
        api_key: Option<String>,
        api_secret: Option<String>,
        web_user_token: Option<String>,
    ) -> (r: MexcFutures)
        ensures
            r.api_key == api_key,
            r.api_secret == api_secret,
            r.web_user_token == web_user_token,
    {
        MexcFutures { api_key, api_secret, web_user_token }
    }

    /// The v1 signature: HMAC-SHA256 under the secret over
    /// `api_key ++ timestamp ++ params`, hex-encoded.
    pub fn sign_v1(&self, timestamp: u128, sign_params: Option<&str>) -> (r: Result<
        String,
        AuthError,
    >)
        ensures
            match r {
                Ok(sig) => self.api_key matches Some(key) && self.api_secret matches Some(sec)
                    && sig@ == hex_of(
                    hmac_sha256_of(
                        sec@,
                        v1_sign_input(
                            key@,
                            timestamp,
                            match sign_params {
                                Some(p) => Some(p@),
                                None => None,
                            },
                        ),
                    ),
                ),
                Err(e) => (e == AuthError::MissingKey && self.api_key is None) || (e
                    == AuthError::MissingSecret && self.api_key is Some
                    && self.api_secret is None),
            },
    {
        let api_key = match &self.api_key {
            Some(k) => k,
            None => {
                return Err(AuthError::MissingKey);
            },
        };
        let secret_key = match &self.api_secret {
            Some(s) => s,
            None => {
                return Err(AuthError::MissingSecret);
            },
        };
        let mut sign = String::new();
        sign.append(api_key.as_str());
        sign.append(u128_to_string(timestamp).as_str());
        if let Some(params) = sign_params {
            sign.append(params);
        }
        let tag = hmac_sha256(secret_key.as_str(), sign.as_str());
        Ok(crate::crypto::hex_encode(tag.as_slice()))
    }

    /// The four headers of a v1-signed call: the key, the timestamp the
    /// signature embeds, the signature itself, and the content type.
    pub fn generate_signed_header(&self, timestamp: u128) -> (r: Result<
        Vec<(String, String)>,
        AuthError,
    >)
        ensures
            match r {
                Ok(h) => self.api_key matches Some(key) && self.api_secret matches Some(sec)
                    && h@.len() == 4 && h@[0].0@ == "ApiKey"@ && h@[0].1@ == key@ && h@[1].0@
                    == "Request-Time"@ && h@[1].1@ == dec_str(timestamp as nat) && h@[2].0@
                    == "Signature"@ && h@[2].1@ == hex_of(
                    hmac_sha256_of(sec@, v1_sign_input(key@, timestamp, None)),
                ) && h@[3].0@ == "Content-Type"@ && h@[3].1@ == "application/json"@,
                Err(e) => (e == AuthError::MissingKey && self.api_key is None) || (e
                    == AuthError::MissingSecret && self.api_key is Some
                    && self.api_secret is None),
            },
    {
        let api_key = match &self.api_key {
            Some(k) => k.clone(),
            None => {
                return Err(AuthError::MissingKey);
            },
        };
        let signature = self.sign_v1(timestamp, None)?;
        let request_time = u128_to_string(timestamp);
        let mut headers: Vec<(String, String)> = Vec::new();
        headers.push(("ApiKey".to_owned(), api_key));
        headers.push(("Request-Time".to_owned(), request_time));
        headers.push(("Signature".to_owned(), signature));
        headers.push(("Content-Type".to_owned(), "application/json".to_owned()));
        Ok(headers)
    }

    /// The JSON body of an order for the web endpoint.
    pub fn futures_order_body(
        symbol: &str,
        contract_units: u64,
        price: Option<&Decimal>,
        leverage: u64,
        side: &OrderDirection,
        open_type: &OpenType,
        order_type: &OrderType,
    ) -> (r: String)
        ensures
            r@ == futures_order_body_text(
                symbol@,
                contract_units,
                match price {
                    Some(p) => Some(p@),
                    None => None,
                },
                leverage,
                *side,
                *open_type,
                *order_type,
            ),
    {
        let mut b = String::new();
        b.append("{\"leverage\":");
        b.append(crate::utils::u64_to_string(leverage).as_str());
        b.append(",\"marketCeiling\":false,\"openType\":");
        b.append(crate::utils::u64_to_string(open_type.as_u64()).as_str());
        if let Some(p) = price {
            b.append(",\"price\":\"");
            b.append(json_escape(p.as_str()).as_str());
            b.append("\"");
        }
        b.append(",\"priceProtect\":\"0\",\"reduceOnly\":false,\"side\":");
        b.append(crate::utils::u64_to_string(side.as_u64()).as_str());
        b.append(",\"symbol\":\"");
        b.append(json_escape(symbol).as_str());
        b.append("\",\"type\":");
        b.append(crate::utils::u64_to_string(order_type.as_u64()).as_str());
        b.append(",\"vol\":");
        b.append(crate::utils::u64_to_string(contract_units).as_str());
        b.append("}");
        b
    }

    /// The complete session-signed order submission: URL, headers and
    /// body. The signature covers exactly the body and timestamp placed
    /// in the headers.
    pub fn submit_order_request(
        &self,
        symbol: &str,
        contract_units: u64,
        price: Option<&Decimal>,
        leverage: u64,
        side: &OrderDirection,
        open_type: &OpenType,
        order_type: &OrderType,
        timestamp: u128,
    ) -> (r: Result<FuturesOrderRequest, AuthError>)
        ensures
            match r {
                Ok(req) => self.web_user_token matches Some(token) && req.url@
                    == "https://futures.mexc.com/api/v1/private/order/create"@ && req.body@
                    == futures_order_body_text(
                    symbol@,
                    contract_units,
                    match price {
                        Some(p) => Some(p@),
                        None => None,
                    },
                    leverage,
                    *side,
                    *open_type,
                    *order_type,
                ) && req.headers@.len() == 7 && req.headers@[0].0@ == "x-mxc-nonce"@
                    && req.headers@[0].1@ == dec_str(timestamp as nat) && req.headers@[1].0@
                    == "x-mxc-sign"@ && req.headers@[1].1@ == session_signature(
                    token@,
                    dec_str(timestamp as nat),
                    req.body@,
                ) && req.headers@[2].0@ == "authorization"@ && req.headers@[2].1@ == token@
                    && req.headers@[3].0@ == "user-agent"@ && req.headers@[3].1@
                    == "MEXC/7 CFNetwork/1474 Darwin/23.0.0"@ && req.headers@[4].0@
                    == "content-type"@ && req.headers@[4].1@ == "application/json"@
                    && req.headers@[5].0@ == "origin"@ && req.headers@[5].1@
                    == "https://futures.mexc.com"@ && req.headers@[6].0@ == "referer"@
                    && req.headers@[6].1@ == "https://futures.mexc.com/exchange"@,
                Err(e) => e == AuthError::MissingSessionToken && self.web_user_token is None,
            },
    {
        let web_user_token = match &self.web_user_token {
            Some(t) => t,
            None => {
                return Err(AuthError::MissingSessionToken);
            },
        };
        let body = Self::futures_order_body(
            symbol,
            contract_units,
            price,
            leverage,
            side,
            open_type,
            order_type,
        );
        let timestamp_text = u128_to_string(timestamp);

        // stage one: hash the token and timestamp, keep the tail from
        // character seven on
        let mut concat = String::new();
        concat.append(web_user_token.as_str());
        concat.append(timestamp_text.as_str());
        let full_hash = get_md5(concat.as_str());
        let partial_hash = full_hash.as_str().substring_char(7, 32).to_owned();
        proof {
            assert(partial_hash@ =~= hex_of(md5_of(web_user_token@ + timestamp_text@)).skip(7));
        }

        // stage two: hash the timestamp, the body bytes, and the partial
        // hash
        let mut to_sign = String::new();
        to_sign.append(timestamp_text.as_str());
        to_sign.append(body.as_str());
        to_sign.append(partial_hash.as_str());
        let signature = get_md5(to_sign.as_str());

        let mut headers: Vec<(String, String)> = Vec::new();
        headers.push(("x-mxc-nonce".to_owned(), timestamp_text));
        headers.push(("x-mxc-sign".to_owned(), signature));
        headers.push(("authorization".to_owned(), web_user_token.clone()));
        headers.push(("user-agent".to_owned(), "MEXC/7 CFNetwork/1474 Darwin/23.0.0".to_owned()));
        headers.push(("content-type".to_owned(), "application/json".to_owned()));
        headers.push(("origin".to_owned(), "https://futures.mexc.com".to_owned()));
        headers.push(("referer".to_owned(), "https://futures.mexc.com/exchange".to_owned()));

        Ok(
            FuturesOrderRequest {
                url: "https://futures.mexc.com/api/v1/private/order/create".to_owned(),
                headers,
                body,
            },
        )
    }

    /// The URL of one asset's balance.
    pub fn account_asset_url(asset: &str) -> (r: String)
        ensures
            r@ == "https://contract.mexc.com/api/v1/private/account/asset/"@ + asset@,
    {
        let mut url = String::new();
        url.append("https://contract.mexc.com/api/v1/private/account/asset/");
        url.append(asset);
        url
    }

    /// The URL of a contract's fair (index) price.
    pub fn fair_price_url(symbol: &str) -> (r: String)
        ensures
            r@ == "https://contract.mexc.com/api/v1/contract/index_price/"@ + symbol@,
    {
        let mut url = String::new();
        url.append("https://contract.mexc.com/api/v1/contract/index_price/");
        url.append(symbol);
        url
    }

    /// The URL of a contract's metadata.
    pub fn contract_detail_url(symbol: &str) -> (r: String)
        ensures
            r@ == "https://contract.mexc.com/api/v1/contract/detail?symbol="@ + symbol@,
    {
        let mut url = String::new();
        url.append("https://contract.mexc.com/api/v1/contract/detail?symbol=");
        url.append(symbol);
        url
    }
}

} // verus!
