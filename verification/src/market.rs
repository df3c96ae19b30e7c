//! Spot market data: exchange and symbol metadata and the order book,
//! with their decoders and the (unsigned) URLs that fetch them. An order
//! book level arrives as a two-element array of price and size strings.
use crate::json::{
    jfield, obj_get, spec_bool_field, spec_num_field, spec_str_arr_field, spec_str_field,
    spec_u128_field, spec_u32_field, JsonValue,
};
use crate::numeric::{is_float_text, Decimal};
use crate::DecodeError;
use vstd::prelude::*;
use vstd::string::StringExecFns;

verus! {

/// One order book level: a price and a size.
#[derive(Debug, Clone)]
pub struct Level {
    pub px: Decimal,
    pub sz: Decimal,
}

pub open spec fn level_matches(v: JsonValue, l: Level) -> bool {
    &&& v matches JsonValue::Arr(es) && es@.len() == 2 && es@[0] is Str && es@[1] is Str
        && is_float_text(es@[0]->Str_0@) && is_float_text(es@[1]->Str_0@) && l.px@
        == es@[0]->Str_0@ && l.sz@ == es@[1]->Str_0@
}

pub open spec fn level_err(v: JsonValue) -> Option<DecodeError> {
    match v {
        JsonValue::Arr(es) => if es@.len() != 2 || !(es@[0] is Str) || !(es@[1] is Str) {
            Some(DecodeError::InvalidType)
        } else if !is_float_text(es@[0]->Str_0@) || !is_float_text(es@[1]->Str_0@) {
            Some(DecodeError::InvalidNumber)
        } else {
            None
        },
        _ => Some(DecodeError::InvalidType),
    }
}

/// Decodes one level: exactly two strings, each a decimal number.
pub fn decode_level(v: &JsonValue) -> (r: Result<Level, DecodeError>)
    ensures
        match r {
            Ok(l) => level_matches(*v, l) && level_err(*v) is None,
            Err(e) => level_err(*v) == Some(e),
        },
{
    match v {
        JsonValue::Arr(es) => {
            if es.len() != 2 {
                return Err(DecodeError::InvalidType);
            }
            let px_text = match &es[0] {
                JsonValue::Str(s) => s,
                _ => {
                    return Err(DecodeError::InvalidType);
                },
            };
            let sz_text = match &es[1] {
                JsonValue::Str(s) => s,
                _ => {
                    return Err(DecodeError::InvalidType);
                },
            };
            let px = match Decimal::from_str(px_text.as_str()) {
                Ok(d) => d,
                Err(e) => {
                    return Err(e);
                },
            };
            let sz = match Decimal::from_str(sz_text.as_str()) {
                Ok(d) => d,
                Err(e) => {
                    return Err(e);
                },
            };
            Ok(Level { px, sz })
        },
        _ => Err(DecodeError::InvalidType),
    }
}

/// The first failure among an array of levels, if any.
pub open spec fn levels_err(elems: Seq<JsonValue>) -> Option<DecodeError>
    decreases elems.len(),
{
    if elems.len() == 0 {
        None
    } else if level_err(elems.first()) is Some {
        level_err(elems.first())
    } else {
        levels_err(elems.drop_first())
    }
}

/// Decodes one side of the book: an array of levels.
pub fn decode_levels(v: &JsonValue) -> (r: Result<Vec<Level>, DecodeError>)
    ensures
        match r {
            Ok(ls) => *v matches JsonValue::Arr(elems) && ls@.len() == elems@.len() && (forall|
                k: int,
            |
                0 <= k < elems@.len() ==> level_matches(elems@[k], ls@[k])) && levels_err(elems@)
                is None,
            Err(e) => match *v {
                JsonValue::Arr(elems) => levels_err(elems@) == Some(e),
                _ => e == DecodeError::InvalidType,
            },
        },
{
    match v {
        JsonValue::Arr(elems) => {
            let n = elems.len();
            let mut out: Vec<Level> = Vec::new();
            let mut i: usize = 0;
            proof {
                assert(elems@.skip(0) =~= elems@);
            }
            while i < n
                invariant
                    0 <= i <= n,
                    n == elems@.len(),
                    out@.len() == i,
                    *v matches JsonValue::Arr(es) && es@ == elems@,
                    forall|k: int| 0 <= k < i ==> level_matches(elems@[k], out@[k]),
                    forall|k: int| 0 <= k < i ==> level_err(elems@[k]) is None,
                    levels_err(elems@) == levels_err(elems@.skip(i as int)),
                decreases n - i,
            {
                proof {
                    assert(elems@.skip(i as int).first() == elems@[i as int]);
                    assert(elems@.skip(i as int).drop_first() =~= elems@.skip(i + 1));
                }
                match decode_level(&elems[i]) {
                    Ok(l) => out.push(l),
                    Err(e) => {
                        return Err(e);
                    },
                }
                i += 1;
            }
            proof {
                assert(elems@.skip(n as int).len() == 0);
            }
            Ok(out)
        },
        _ => Err(DecodeError::InvalidType),
    }
}

/// A depth snapshot of the spot order book.
#[derive(Debug, Clone)]
pub struct Orderbook {
    pub timestamp: u128,
    pub bids: Vec<Level>,
    pub asks: Vec<Level>,
}

pub open spec fn orderbook_matches(v: JsonValue, b: Orderbook) -> bool {
    &&& spec_u128_field(v, "timestamp"@) == Ok::<u128, DecodeError>(b.timestamp)
    &&& jfield(v, "bids"@) matches Some(bv) && (bv matches JsonValue::Arr(es) && b.bids@.len()
        == es@.len() && (forall|k: int| 0 <= k < es@.len() ==> level_matches(es@[k], b.bids@[k])))
    &&& jfield(v, "asks"@) matches Some(av) && (av matches JsonValue::Arr(es) && b.asks@.len()
        == es@.len() && (forall|k: int| 0 <= k < es@.len() ==> level_matches(es@[k], b.asks@[k])))
}

pub open spec fn side_field_err(v: JsonValue, key: Seq<char>) -> Option<DecodeError> {
    match jfield(v, key) {
        None => Some(DecodeError::MissingField),
        Some(x) => match x {
            JsonValue::Arr(es) => levels_err(es@),
            _ => Some(DecodeError::InvalidType),
        },
    }
}

pub open spec fn orderbook_err(v: JsonValue) -> Option<DecodeError> {
    let ts = spec_u128_field(v, "timestamp"@);
    if ts is Err {
        Some(ts->Err_0)
    } else if side_field_err(v, "bids"@) is Some {
        side_field_err(v, "bids"@)
    } else {
        side_field_err(v, "asks"@)
    }
}

/// Decodes a depth snapshot.
pub fn decode_orderbook(v: &JsonValue) -> (r: Result<Orderbook, DecodeError>)
    ensures
        match r {
            Ok(b) => orderbook_matches(*v, b) && orderbook_err(*v) is None,
            Err(e) => orderbook_err(*v) == Some(e),
        },
{
    let timestamp = crate::json::get_u128_field(v, "timestamp")?;
    let bids_value = match obj_get(v, "bids") {
        None => {
            return Err(DecodeError::MissingField);
        },
        Some(x) => x,
    };
    let bids = match bids_value {
        JsonValue::Arr(_) => decode_levels(bids_value)?,
        _ => {
            return Err(DecodeError::InvalidType);
        },
    };
    let asks_value = match obj_get(v, "asks") {
        None => {
            return Err(DecodeError::MissingField);
        },
        Some(x) => x,
    };
    let asks = match asks_value {
        JsonValue::Arr(_) => decode_levels(asks_value)?,
        _ => {
            return Err(DecodeError::InvalidType);
        },
    };
    Ok(Orderbook { timestamp, bids, asks })
}

/// One symbol's trading rules and metadata.
#[derive(Debug, Clone)]
pub struct SymbolInfo {
    pub base_asset: String,
    pub base_asset_precision: u32,
    pub base_commission_precision: u32,
    pub base_size_precision: Decimal,
    pub filters: Vec<String>,
    pub full_name: String,
    pub is_margin_trading_allowed: bool,
    pub is_spot_trading_allowed: bool,
    pub maker_commission: Decimal,
    pub max_quote_amount: Decimal,
    pub max_quote_amount_market: Decimal,
    pub order_types: Vec<String>,
    pub permissions: Vec<String>,
    pub quote_amount_precision: Decimal,
    pub quote_amount_precision_market: Decimal,
    pub quote_asset: String,
    pub quote_asset_precision: u32,
    pub quote_commission_precision: u32,
    pub quote_precision: u32,
    pub status: String,
    pub symbol: String,
    pub taker_commission: Decimal,
}

pub open spec fn symbol_info_record_matches(v: JsonValue, b: SymbolInfo) -> bool {
    &&& spec_str_field(v, "baseAsset"@) == Ok::<Seq<char>, DecodeError>(b.base_asset@)
    &&& spec_u32_field(v, "baseAssetPrecision"@) == Ok::<u32, DecodeError>(b.base_asset_precision)
    &&& spec_u32_field(v, "baseCommissionPrecision"@) == Ok::<u32, DecodeError>(b.base_commission_precision)
    &&& spec_num_field(v, "baseSizePrecision"@) == Ok::<Seq<char>, DecodeError>(b.base_size_precision@)
    &&& spec_str_arr_field(v, "filters"@) == Ok::<Seq<Seq<char>>, DecodeError>(b.filters@.map_values(|s: String| s@))
    &&& spec_str_field(v, "fullName"@) == Ok::<Seq<char>, DecodeError>(b.full_name@)
    &&& spec_bool_field(v, "isMarginTradingAllowed"@) == Ok::<bool, DecodeError>(b.is_margin_trading_allowed)
    &&& spec_bool_field(v, "isSpotTradingAllowed"@) == Ok::<bool, DecodeError>(b.is_spot_trading_allowed)
    &&& spec_num_field(v, "makerCommission"@) == Ok::<Seq<char>, DecodeError>(b.maker_commission@)
    &&& spec_num_field(v, "maxQuoteAmount"@) == Ok::<Seq<char>, DecodeError>(b.max_quote_amount@)
    &&& spec_num_field(v, "maxQuoteAmountMarket"@) == Ok::<Seq<char>, DecodeError>(b.max_quote_amount_market@)
    &&& spec_str_arr_field(v, "orderTypes"@) == Ok::<Seq<Seq<char>>, DecodeError>(b.order_types@.map_values(|s: String| s@))
    &&& spec_str_arr_field(v, "permissions"@) == Ok::<Seq<Seq<char>>, DecodeError>(b.permissions@.map_values(|s: String| s@))
    &&& spec_num_field(v, "quoteAmountPrecision"@) == Ok::<Seq<char>, DecodeError>(b.quote_amount_precision@)
    &&& spec_num_field(v, "quoteAmountPrecisionMarket"@) == Ok::<Seq<char>, DecodeError>(b.quote_amount_precision_market@)
    &&& spec_str_field(v, "quoteAsset"@) == Ok::<Seq<char>, DecodeError>(b.quote_asset@)
    &&& spec_u32_field(v, "quoteAssetPrecision"@) == Ok::<u32, DecodeError>(b.quote_asset_precision)
    &&& spec_u32_field(v, "quoteCommissionPrecision"@) == Ok::<u32, DecodeError>(b.quote_commission_precision)
    &&& spec_u32_field(v, "quotePrecision"@) == Ok::<u32, DecodeError>(b.quote_precision)
    &&& spec_str_field(v, "status"@) == Ok::<Seq<char>, DecodeError>(b.status@)
    &&& spec_str_field(v, "symbol"@) == Ok::<Seq<char>, DecodeError>(b.symbol@)
    &&& spec_num_field(v, "takerCommission"@) == Ok::<Seq<char>, DecodeError>(b.taker_commission@)
}

pub open spec fn symbol_info_record_err(v: JsonValue) -> Option<DecodeError> {
    let base_asset = spec_str_field(v, "baseAsset"@);
    let base_asset_precision = spec_u32_field(v, "baseAssetPrecision"@);
    let base_commission_precision = spec_u32_field(v, "baseCommissionPrecision"@);
    let base_size_precision = spec_num_field(v, "baseSizePrecision"@);
    let filters = spec_str_arr_field(v, "filters"@);
    let full_name = spec_str_field(v, "fullName"@);
    let is_margin_trading_allowed = spec_bool_field(v, "isMarginTradingAllowed"@);
    let is_spot_trading_allowed = spec_bool_field(v, "isSpotTradingAllowed"@);
    let maker_commission = spec_num_field(v, "makerCommission"@);
    let max_quote_amount = spec_num_field(v, "maxQuoteAmount"@);
    let max_quote_amount_market = spec_num_field(v, "maxQuoteAmountMarket"@);
    let order_types = spec_str_arr_field(v, "orderTypes"@);
    let permissions = spec_str_arr_field(v, "permissions"@);
    let quote_amount_precision = spec_num_field(v, "quoteAmountPrecision"@);
    let quote_amount_precision_market = spec_num_field(v, "quoteAmountPrecisionMarket"@);
    let quote_asset = spec_str_field(v, "quoteAsset"@);
    let quote_asset_precision = spec_u32_field(v, "quoteAssetPrecision"@);
    let quote_commission_precision = spec_u32_field(v, "quoteCommissionPrecision"@);
    let quote_precision = spec_u32_field(v, "quotePrecision"@);
    let status = spec_str_field(v, "status"@);
    let symbol = spec_str_field(v, "symbol"@);
    let taker_commission = spec_num_field(v, "takerCommission"@);
    if base_asset is Err {
        Some(base_asset->Err_0)
    } else if base_asset_precision is Err {
        Some(base_asset_precision->Err_0)
    } else if base_commission_precision is Err {
        Some(base_commission_precision->Err_0)
    } else if base_size_precision is Err {
        Some(base_size_precision->Err_0)
    } else if filters is Err {
        Some(filters->Err_0)
    } else if full_name is Err {
        Some(full_name->Err_0)
    } else if is_margin_trading_allowed is Err {
        Some(is_margin_trading_allowed->Err_0)
    } else if is_spot_trading_allowed is Err {
        Some(is_spot_trading_allowed->Err_0)
    } else if maker_commission is Err {
        Some(maker_commission->Err_0)
    } else if max_quote_amount is Err {
        Some(max_quote_amount->Err_0)
    } else if max_quote_amount_market is Err {
        Some(max_quote_amount_market->Err_0)
    } else if order_types is Err {
        Some(order_types->Err_0)
    } else if permissions is Err {
        Some(permissions->Err_0)
    } else if quote_amount_precision is Err {
        Some(quote_amount_precision->Err_0)
    } else if quote_amount_precision_market is Err {
        Some(quote_amount_precision_market->Err_0)
    } else if quote_asset is Err {
        Some(quote_asset->Err_0)
    } else if quote_asset_precision is Err {
        Some(quote_asset_precision->Err_0)
    } else if quote_commission_precision is Err {
        Some(quote_commission_precision->Err_0)
    } else if quote_precision is Err {
        Some(quote_precision->Err_0)
    } else if status is Err {
        Some(status->Err_0)
    } else if symbol is Err {
        Some(symbol->Err_0)
    } else if taker_commission is Err {
        Some(taker_commission->Err_0)
    } else {
        None
    }
}

/// Decodes one record, ignoring unknown fields; a missing or
/// ill-shaped field is the failure of the first such field.
pub fn decode_symbol_info_record(v: &JsonValue) -> (r: Result<SymbolInfo, DecodeError>)
    ensures
        match r {
            Ok(b) => symbol_info_record_matches(*v, b) && symbol_info_record_err(*v) is None,
            Err(e) => symbol_info_record_err(*v) == Some(e),
        },
{
    let base_asset = crate::json::get_str_field(v, "baseAsset")?;
    let base_asset_precision = crate::json::get_u32_field(v, "baseAssetPrecision")?;
    let base_commission_precision = crate::json::get_u32_field(v, "baseCommissionPrecision")?;
    let base_size_precision = crate::json::get_num_field(v, "baseSizePrecision")?;
    let filters = crate::json::get_str_arr_field(v, "filters")?;
    let full_name = crate::json::get_str_field(v, "fullName")?;
    let is_margin_trading_allowed = crate::json::get_bool_field(v, "isMarginTradingAllowed")?;
    let is_spot_trading_allowed = crate::json::get_bool_field(v, "isSpotTradingAllowed")?;
    let maker_commission = crate::json::get_num_field(v, "makerCommission")?;
    let max_quote_amount = crate::json::get_num_field(v, "maxQuoteAmount")?;
    let max_quote_amount_market = crate::json::get_num_field(v, "maxQuoteAmountMarket")?;
    let order_types = crate::json::get_str_arr_field(v, "orderTypes")?;
    let permissions = crate::json::get_str_arr_field(v, "permissions")?;
    let quote_amount_precision = crate::json::get_num_field(v, "quoteAmountPrecision")?;
    let quote_amount_precision_market = crate::json::get_num_field(v, "quoteAmountPrecisionMarket")?;
    let quote_asset = crate::json::get_str_field(v, "quoteAsset")?;
    let quote_asset_precision = crate::json::get_u32_field(v, "quoteAssetPrecision")?;
    let quote_commission_precision = crate::json::get_u32_field(v, "quoteCommissionPrecision")?;
    let quote_precision = crate::json::get_u32_field(v, "quotePrecision")?;
    let status = crate::json::get_str_field(v, "status")?;
    let symbol = crate::json::get_str_field(v, "symbol")?;
    let taker_commission = crate::json::get_num_field(v, "takerCommission")?;
    Ok(
        SymbolInfo {
            base_asset,
            base_asset_precision,
            base_commission_precision,
            base_size_precision,
            filters,
            full_name,
            is_margin_trading_allowed,
            is_spot_trading_allowed,
            maker_commission,
            max_quote_amount,
            max_quote_amount_market,
            order_types,
            permissions,
            quote_amount_precision,
            quote_amount_precision_market,
            quote_asset,
            quote_asset_precision,
            quote_commission_precision,
            quote_precision,
            status,
            symbol,
            taker_commission,
        },
    )
}

/// The first failure among an array of these records, if any.
pub open spec fn symbol_info_records_err(elems: Seq<JsonValue>) -> Option<DecodeError>
    decreases elems.len(),
{
    if elems.len() == 0 {
        None
    } else if symbol_info_record_err(elems.first()) is Some {
        symbol_info_record_err(elems.first())
    } else {
        symbol_info_records_err(elems.drop_first())
    }
}

/// Decodes an array of symbol records.
pub fn decode_symbol_info_records(v: &JsonValue) -> (r: Result<Vec<SymbolInfo>, DecodeError>)
    ensures
        match r {
            Ok(bs) => *v matches JsonValue::Arr(elems) && bs@.len() == elems@.len() && (forall|
                k: int,
            |
                0 <= k < elems@.len() ==> symbol_info_record_matches(elems@[k], bs@[k]))
                && symbol_info_records_err(elems@) is None,
            Err(e) => match *v {
                JsonValue::Arr(elems) => symbol_info_records_err(elems@) == Some(e),
                _ => e == DecodeError::InvalidType,
            },
        },
{
    match v {
        JsonValue::Arr(elems) => {
            let n = elems.len();
            let mut out: Vec<SymbolInfo> = Vec::new();
            let mut i: usize = 0;
            proof {
                assert(elems@.skip(0) =~= elems@);
            }
            while i < n
                invariant
                    0 <= i <= n,
                    n == elems@.len(),
                    out@.len() == i,
                    *v matches JsonValue::Arr(es) && es@ == elems@,
                    forall|k: int| 0 <= k < i ==> symbol_info_record_matches(elems@[k], out@[k]),
                    forall|k: int| 0 <= k < i ==> symbol_info_record_err(elems@[k]) is None,
                    symbol_info_records_err(elems@) == symbol_info_records_err(elems@.skip(i as int)),
                decreases n - i,
            {
                proof {
                    assert(elems@.skip(i as int).first() == elems@[i as int]);
                    assert(elems@.skip(i as int).drop_first() =~= elems@.skip(i + 1));
                }
                match decode_symbol_info_record(&elems[i]) {
                    Ok(b) => out.push(b),
                    Err(e) => {
                        return Err(e);
                    },
                }
                i += 1;
            }
            proof {
                assert(elems@.skip(n as int).len() == 0);
            }
            Ok(out)
        },
        _ => Err(DecodeError::InvalidType),
    }
}

/// The exchange-info response: the server time and the symbol records.
#[derive(Debug, Clone)]
pub struct ExchangeInfo {
    pub timestamp: u128,
    pub symbols: Vec<SymbolInfo>,
}

pub open spec fn exchange_info_matches(v: JsonValue, b: ExchangeInfo) -> bool {
    &&& spec_u128_field(v, "serverTime"@) == Ok::<u128, DecodeError>(b.timestamp)
    &&& jfield(v, "symbols"@) matches Some(sv) && (sv matches JsonValue::Arr(es)
        && b.symbols@.len() == es@.len() && (forall|k: int|
        0 <= k < es@.len() ==> symbol_info_record_matches(es@[k], b.symbols@[k])))
}

pub open spec fn exchange_info_err(v: JsonValue) -> Option<DecodeError> {
    let ts = spec_u128_field(v, "serverTime"@);
    if ts is Err {
        Some(ts->Err_0)
    } else {
        match jfield(v, "symbols"@) {
            None => Some(DecodeError::MissingField),
            Some(x) => match x {
                JsonValue::Arr(es) => symbol_info_records_err(es@),
                _ => Some(DecodeError::InvalidType),
            },
        }
    }
}

/// Decodes an exchange-info response.
pub fn decode_exchange_info(v: &JsonValue) -> (r: Result<ExchangeInfo, DecodeError>)
    ensures
        match r {
            Ok(b) => exchange_info_matches(*v, b) && exchange_info_err(*v) is None,
            Err(e) => exchange_info_err(*v) == Some(e),
        },
{
    let timestamp = crate::json::get_u128_field(v, "serverTime")?;
    let symbols_value = match obj_get(v, "symbols") {
        None => {
            return Err(DecodeError::MissingField);
        },
        Some(x) => x,
    };
    let symbols = match symbols_value {
        JsonValue::Arr(_) => decode_symbol_info_records(symbols_value)?,
        _ => {
            return Err(DecodeError::InvalidType);
        },
    };
    Ok(ExchangeInfo { timestamp, symbols })
}

/// The URL that fetches one symbol's exchange info.
pub fn symbol_info_url(symbol: &str) -> (r: String)
    ensures
        r@ == "https://api.mexc.com/api/v3/exchangeInfo?symbol="@ + symbol@,
{
    let mut url = String::new();
    url.append("https://api.mexc.com/api/v3/exchangeInfo?symbol=");
    url.append(symbol);
    url
}

/// The URL that fetches a depth snapshot, with an optional level limit.
pub fn depth_url(symbol: &str, depth: Option<u32>) -> (r: String)
    ensures
        match depth {
            Some(limit) => r@ == "https://api.mexc.com/api/v3/depth?symbol="@ + symbol@
                + "&limit="@ + crate::utils::dec_str(limit as nat),
            None => r@ == "https://api.mexc.com/api/v3/depth?symbol="@ + symbol@,
        },
{
    let mut url = String::new();
    url.append("https://api.mexc.com/api/v3/depth?symbol=");
    url.append(symbol);
    if let Some(limit) = depth {
        url.append("&limit=");
        url.append(crate::utils::u64_to_string(limit as u64).as_str());
    }
    url
}

} // verus!
