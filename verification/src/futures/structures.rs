//! The futures API's response envelope and the records its payloads
//! decode into. Every numeric field goes through the string-or-number
//! decoder; unknown fields are ignored; a missing required field is a
//! decode failure.
use crate::json::{
    jfield, obj_get, spec_bool_field, spec_i32_arr_field, spec_i32_field, spec_i64_field,
    spec_num_field, spec_opt_str_field, spec_str_arr_field, spec_str_field,
    spec_strict_num_field, spec_u128_field, JsonValue,
};
use crate::numeric::Decimal;
use crate::{ApiError, DecodeError};
use vstd::prelude::*;

verus! {

/// The futures response envelope: a success flag, a code, and optional
/// payload and message. For futures, this flag is authoritative; the
/// HTTP status is not.
#[derive(Debug)]
pub struct FuturesResponse<'a> {
    pub success: bool,
    pub code: i64,
    pub data: Option<&'a JsonValue>,
    pub message: Option<String>,
}

/// The payload the envelope carries: a present, non-null `data` field.
pub open spec fn spec_data_field(v: JsonValue) -> Option<JsonValue> {
    match jfield(v, "data"@) {
        None => None,
        Some(x) => match x {
            JsonValue::Null => None,
            _ => Some(x),
        },
    }
}

/// The first decode failure of the envelope's required fields, if any.
pub open spec fn futures_response_err(v: JsonValue) -> Option<DecodeError> {
    let s = spec_bool_field(v, "success"@);
    let c = spec_i64_field(v, "code"@);
    let m = spec_opt_str_field(v, "message"@);
    if s is Err {
        Some(s->Err_0)
    } else if c is Err {
        Some(c->Err_0)
    } else if m is Err {
        Some(m->Err_0)
    } else {
        None
    }
}

/// What a decoded envelope holds of the value it came from.
pub open spec fn futures_response_matches(v: JsonValue, r: FuturesResponse) -> bool {
    &&& spec_bool_field(v, "success"@) == Ok::<bool, DecodeError>(r.success)
    &&& spec_i64_field(v, "code"@) == Ok::<i64, DecodeError>(r.code)
    &&& match r.data {
        Some(d) => spec_data_field(v) == Some(*d),
        None => spec_data_field(v) is None,
    }
    &&& spec_opt_str_field(v, "message"@) == Ok::<Option<Seq<char>>, DecodeError>(
        match r.message {
            Some(m) => Some(m@),
            None => None,
        },
    )
}

/// Decodes the envelope `{success, code, data?, message?}`.
pub fn decode_futures_response<'a>(v: &'a JsonValue) -> (r: Result<
    FuturesResponse<'a>,
    DecodeError,
>)
    ensures
        match r {
            Ok(resp) => futures_response_matches(*v, resp) && futures_response_err(*v) is None,
            Err(e) => futures_response_err(*v) == Some(e),
        },
{
    let success = crate::json::get_bool_field(v, "success")?;
    let code = crate::json::get_i64_field(v, "code")?;
    let message = crate::json::get_opt_str_field(v, "message")?;
    let data = match obj_get(v, "data") {
        None => None,
        Some(x) => match x {
            JsonValue::Null => None,
            _ => Some(x),
        },
    };
    Ok(FuturesResponse { success, code, data, message })
}

/// Resolves a futures envelope: a failed envelope is the exchange's own
/// rejection, carrying its message verbatim (or an empty one); a
/// successful envelope must carry its payload.
pub fn resolve_futures<'a>(resp: FuturesResponse<'a>) -> (r: Result<&'a JsonValue, ApiError>)
    ensures
        !resp.success ==> (r matches Err(ApiError::Rejected(m)) && m@ == (match resp.message {
            Some(s) => s@,
            None => Seq::<char>::empty(),
        })),
        resp.success && resp.data is Some ==> (r matches Ok(d) && d == resp.data->0),
        resp.success && resp.data is None ==> r == Err::<&'a JsonValue, ApiError>(
            ApiError::MissingPayload,
        ),
{
    if !resp.success {
        let msg = match resp.message {
            Some(m) => m,
            None => String::new(),
        };
        Err(ApiError::Rejected(msg))
    } else {
        match resp.data {
            Some(d) => Ok(d),
            None => Err(ApiError::MissingPayload),
        }
    }
}

/// One currency's futures account balance.
#[derive(Debug, Clone)]
pub struct FuturesBalance {
    pub currency: String,
    pub position_margin: Decimal,
    pub available_balance: Decimal,
    pub cash_balance: Decimal,
    pub frozen_balance: Decimal,
    pub equity: Decimal,
    pub unrealized: Decimal,
    pub bonus: Decimal,
}

pub open spec fn futures_balance_matches(v: JsonValue, b: FuturesBalance) -> bool {
    &&& spec_str_field(v, "currency"@) == Ok::<Seq<char>, DecodeError>(b.currency@)
    &&& spec_num_field(v, "positionMargin"@) == Ok::<Seq<char>, DecodeError>(b.position_margin@)
    &&& spec_num_field(v, "availableBalance"@) == Ok::<Seq<char>, DecodeError>(
        b.available_balance@,
    )
    &&& spec_num_field(v, "cashBalance"@) == Ok::<Seq<char>, DecodeError>(b.cash_balance@)
    &&& spec_num_field(v, "frozenBalance"@) == Ok::<Seq<char>, DecodeError>(b.frozen_balance@)
    &&& spec_num_field(v, "equity"@) == Ok::<Seq<char>, DecodeError>(b.equity@)
    &&& spec_num_field(v, "unrealized"@) == Ok::<Seq<char>, DecodeError>(b.unrealized@)
    &&& spec_num_field(v, "bonus"@) == Ok::<Seq<char>, DecodeError>(b.bonus@)
}

pub open spec fn futures_balance_err(v: JsonValue) -> Option<DecodeError> {
    let currency = spec_str_field(v, "currency"@);
    let position_margin = spec_num_field(v, "positionMargin"@);
    let available_balance = spec_num_field(v, "availableBalance"@);
    let cash_balance = spec_num_field(v, "cashBalance"@);
    let frozen_balance = spec_num_field(v, "frozenBalance"@);
    let equity = spec_num_field(v, "equity"@);
    let unrealized = spec_num_field(v, "unrealized"@);
    let bonus = spec_num_field(v, "bonus"@);
    if currency is Err {
        Some(currency->Err_0)
    } else if position_margin is Err {
        Some(position_margin->Err_0)
    } else if available_balance is Err {
        Some(available_balance->Err_0)
    } else if cash_balance is Err {
        Some(cash_balance->Err_0)
    } else if frozen_balance is Err {
        Some(frozen_balance->Err_0)
    } else if equity is Err {
        Some(equity->Err_0)
    } else if unrealized is Err {
        Some(unrealized->Err_0)
    } else if bonus is Err {
        Some(bonus->Err_0)
    } else {
        None
    }
}

/// Decodes one balance record.
pub fn decode_futures_balance(v: &JsonValue) -> (r: Result<FuturesBalance, DecodeError>)
    ensures
        match r {
            Ok(b) => futures_balance_matches(*v, b) && futures_balance_err(*v) is None,
            Err(e) => futures_balance_err(*v) == Some(e),
        },
{
    let currency = crate::json::get_str_field(v, "currency")?;
    let position_margin = crate::json::get_num_field(v, "positionMargin")?;
    let available_balance = crate::json::get_num_field(v, "availableBalance")?;
    let cash_balance = crate::json::get_num_field(v, "cashBalance")?;
    let frozen_balance = crate::json::get_num_field(v, "frozenBalance")?;
    let equity = crate::json::get_num_field(v, "equity")?;
    let unrealized = crate::json::get_num_field(v, "unrealized")?;
    let bonus = crate::json::get_num_field(v, "bonus")?;
    Ok(
        FuturesBalance {
            currency,
            position_margin,
            available_balance,
            cash_balance,
            frozen_balance,
            equity,
            unrealized,
            bonus,
        },
    )
}

/// The first failure among a payload of balance records, if any.
pub open spec fn futures_balances_err(elems: Seq<JsonValue>) -> Option<DecodeError>
    decreases elems.len(),
{
    if elems.len() == 0 {
        None
    } else if futures_balance_err(elems.first()) is Some {
        futures_balance_err(elems.first())
    } else {
        futures_balances_err(elems.drop_first())
    }
}

/// Decodes a whole-account payload: an array of balance records.
pub fn decode_futures_balances(v: &JsonValue) -> (r: Result<Vec<FuturesBalance>, DecodeError>)
    ensures
        match r {
            Ok(bs) => *v matches JsonValue::Arr(elems) && bs@.len() == elems@.len() && (forall|
                k: int,
            |
                0 <= k < elems@.len() ==> futures_balance_matches(elems@[k], bs@[k]))
                && futures_balances_err(elems@) is None,
            Err(e) => match *v {
                JsonValue::Arr(elems) => futures_balances_err(elems@) == Some(e),
                _ => e == DecodeError::InvalidType,
            },
        },
{
    match v {
        JsonValue::Arr(elems) => {
            let n = elems.len();
            let mut out: Vec<FuturesBalance> = Vec::new();
            let mut i: usize = 0;
            proof {
                assert(elems@.skip(0) =~= elems@);
            }
            while i < n
                invariant
                    0 <= i <= n,
                    n == elems@.len(),
                    out@.len() == i,
                    *v matches JsonValue::Arr(es) && es@ == elems@,
                    forall|k: int| 0 <= k < i ==> futures_balance_matches(elems@[k], out@[k]),
                    forall|k: int| 0 <= k < i ==> futures_balance_err(elems@[k]) is None,
                    futures_balances_err(elems@) == futures_balances_err(elems@.skip(i as int)),
                decreases n - i,
            {
                proof {
                    assert(elems@.skip(i as int).first() == elems@[i as int]);
                    assert(elems@.skip(i as int).drop_first() =~= elems@.skip(i + 1));
                }
                match decode_futures_balance(&elems[i]) {
                    Ok(b) => out.push(b),
                    Err(e) => {
                        return Err(e);
                    },
                }
                i += 1;
            }
            proof {
                assert(elems@.skip(n as int).len() == 0);
            }
            Ok(out)
        },
        _ => Err(DecodeError::InvalidType),
    }
}

/// The receipt the web order endpoint returns.
#[derive(Debug, Clone)]
pub struct OrderReceipt {
    pub order_id: String,
    pub timestamp: u128,
}

pub open spec fn futures_receipt_matches(v: JsonValue, b: OrderReceipt) -> bool {
    &&& spec_str_field(v, "orderId"@) == Ok::<Seq<char>, DecodeError>(b.order_id@)
    &&& spec_u128_field(v, "ts"@) == Ok::<u128, DecodeError>(b.timestamp)
}

pub open spec fn futures_receipt_err(v: JsonValue) -> Option<DecodeError> {
    let order_id = spec_str_field(v, "orderId"@);
    let ts = spec_u128_field(v, "ts"@);
    if order_id is Err {
        Some(order_id->Err_0)
    } else if ts is Err {
        Some(ts->Err_0)
    } else {
        None
    }
}

/// Decodes an order receipt payload.
pub fn decode_futures_receipt(v: &JsonValue) -> (r: Result<OrderReceipt, DecodeError>)
    ensures
        match r {
            Ok(b) => futures_receipt_matches(*v, b) && futures_receipt_err(*v) is None,
            Err(e) => futures_receipt_err(*v) == Some(e),
        },
{
    let order_id = crate::json::get_str_field(v, "orderId")?;
    let timestamp = crate::json::get_u128_field(v, "ts")?;
    Ok(OrderReceipt { order_id, timestamp })
}

/// Extracts the index price from a fair-price payload. The exchange
/// sends it as a JSON number.
pub fn decode_fair_price(v: &JsonValue) -> (r: Result<Decimal, DecodeError>)
    ensures
        match r {
            Ok(d) => spec_strict_num_field(*v, "indexPrice"@) == Ok::<Seq<char>, DecodeError>(d@)
                && d.wf(),
            Err(e) => spec_strict_num_field(*v, "indexPrice"@) == Err::<Seq<char>, DecodeError>(
                e,
            ),
        },
{
    crate::json::get_strict_num_field(v, "indexPrice")
}

/// An open futures position.
#[derive(Debug, Clone)]
pub struct FuturesPosition {
    pub auto_add_im: bool,
    pub close_avg_price: Decimal,
    pub close_profit_loss: Decimal,
    pub close_vol: Decimal,
    pub create_time: u128,
    pub fee: Decimal,
    pub frozen_vol: Decimal,
    pub hold_avg_price: Decimal,
    pub hold_avg_price_fully_scale: Decimal,
    pub hold_fee: Decimal,
    pub hold_vol: Decimal,
    pub im: Decimal,
    pub leverage: Decimal,
    pub liquidate_price: Decimal,
    pub margin_ratio: Decimal,
    pub new_close_avg_price: Decimal,
    pub new_open_avg_price: Decimal,
    pub oim: Decimal,
    pub open_avg_price: Decimal,
    pub open_avg_price_fully_scale: Decimal,
    pub open_type: i32,
    pub position_id: i64,
    pub position_type: i32,
    pub profit_ratio: Decimal,
    pub realised: Decimal,
    pub state: i32,
    pub symbol: String,
    pub update_time: u128,
    pub version: i32,
}

pub open spec fn futures_position_matches(v: JsonValue, b: FuturesPosition) -> bool {
    &&& spec_bool_field(v, "autoAddIm"@) == Ok::<bool, DecodeError>(b.auto_add_im)
    &&& spec_num_field(v, "closeAvgPrice"@) == Ok::<Seq<char>, DecodeError>(b.close_avg_price@)
    &&& spec_num_field(v, "closeProfitLoss"@) == Ok::<Seq<char>, DecodeError>(b.close_profit_loss@)
    &&& spec_num_field(v, "closeVol"@) == Ok::<Seq<char>, DecodeError>(b.close_vol@)
    &&& spec_u128_field(v, "createTime"@) == Ok::<u128, DecodeError>(b.create_time)
    &&& spec_num_field(v, "fee"@) == Ok::<Seq<char>, DecodeError>(b.fee@)
    &&& spec_num_field(v, "frozenVol"@) == Ok::<Seq<char>, DecodeError>(b.frozen_vol@)
    &&& spec_num_field(v, "holdAvgPrice"@) == Ok::<Seq<char>, DecodeError>(b.hold_avg_price@)
    &&& spec_num_field(v, "holdAvgPriceFullyScale"@) == Ok::<Seq<char>, DecodeError>(b.hold_avg_price_fully_scale@)
    &&& spec_num_field(v, "holdFee"@) == Ok::<Seq<char>, DecodeError>(b.hold_fee@)
    &&& spec_num_field(v, "holdVol"@) == Ok::<Seq<char>, DecodeError>(b.hold_vol@)
    &&& spec_num_field(v, "im"@) == Ok::<Seq<char>, DecodeError>(b.im@)
    &&& spec_num_field(v, "leverage"@) == Ok::<Seq<char>, DecodeError>(b.leverage@)
    &&& spec_num_field(v, "liquidatePrice"@) == Ok::<Seq<char>, DecodeError>(b.liquidate_price@)
    &&& spec_num_field(v, "marginRatio"@) == Ok::<Seq<char>, DecodeError>(b.margin_ratio@)
    &&& spec_num_field(v, "newCloseAvgPrice"@) == Ok::<Seq<char>, DecodeError>(b.new_close_avg_price@)
    &&& spec_num_field(v, "newOpenAvgPrice"@) == Ok::<Seq<char>, DecodeError>(b.new_open_avg_price@)
    &&& spec_num_field(v, "oim"@) == Ok::<Seq<char>, DecodeError>(b.oim@)
    &&& spec_num_field(v, "openAvgPrice"@) == Ok::<Seq<char>, DecodeError>(b.open_avg_price@)
    &&& spec_num_field(v, "openAvgPriceFullyScale"@) == Ok::<Seq<char>, DecodeError>(b.open_avg_price_fully_scale@)
    &&& spec_i32_field(v, "openType"@) == Ok::<i32, DecodeError>(b.open_type)
    &&& spec_i64_field(v, "positionId"@) == Ok::<i64, DecodeError>(b.position_id)
    &&& spec_i32_field(v, "positionType"@) == Ok::<i32, DecodeError>(b.position_type)
    &&& spec_num_field(v, "profitRatio"@) == Ok::<Seq<char>, DecodeError>(b.profit_ratio@)
    &&& spec_num_field(v, "realised"@) == Ok::<Seq<char>, DecodeError>(b.realised@)
    &&& spec_i32_field(v, "state"@) == Ok::<i32, DecodeError>(b.state)
    &&& spec_str_field(v, "symbol"@) == Ok::<Seq<char>, DecodeError>(b.symbol@)
    &&& spec_u128_field(v, "updateTime"@) == Ok::<u128, DecodeError>(b.update_time)
    &&& spec_i32_field(v, "version"@) == Ok::<i32, DecodeError>(b.version)
}

pub open spec fn futures_position_err(v: JsonValue) -> Option<DecodeError> {
    let auto_add_im = spec_bool_field(v, "autoAddIm"@);
    let close_avg_price = spec_num_field(v, "closeAvgPrice"@);
    let close_profit_loss = spec_num_field(v, "closeProfitLoss"@);
    let close_vol = spec_num_field(v, "closeVol"@);
    let create_time = spec_u128_field(v, "createTime"@);
    let fee = spec_num_field(v, "fee"@);
    let frozen_vol = spec_num_field(v, "frozenVol"@);
    let hold_avg_price = spec_num_field(v, "holdAvgPrice"@);
    let hold_avg_price_fully_scale = spec_num_field(v, "holdAvgPriceFullyScale"@);
    let hold_fee = spec_num_field(v, "holdFee"@);
    let hold_vol = spec_num_field(v, "holdVol"@);
    let im = spec_num_field(v, "im"@);
    let leverage = spec_num_field(v, "leverage"@);
    let liquidate_price = spec_num_field(v, "liquidatePrice"@);
    let margin_ratio = spec_num_field(v, "marginRatio"@);
    let new_close_avg_price = spec_num_field(v, "newCloseAvgPrice"@);
    let new_open_avg_price = spec_num_field(v, "newOpenAvgPrice"@);
    let oim = spec_num_field(v, "oim"@);
    let open_avg_price = spec_num_field(v, "openAvgPrice"@);
    let open_avg_price_fully_scale = spec_num_field(v, "openAvgPriceFullyScale"@);
    let open_type = spec_i32_field(v, "openType"@);
    let position_id = spec_i64_field(v, "positionId"@);
    let position_type = spec_i32_field(v, "positionType"@);
    let profit_ratio = spec_num_field(v, "profitRatio"@);
    let realised = spec_num_field(v, "realised"@);
    let state = spec_i32_field(v, "state"@);
    let symbol = spec_str_field(v, "symbol"@);
    let update_time = spec_u128_field(v, "updateTime"@);
    let version = spec_i32_field(v, "version"@);
    if auto_add_im is Err {
        Some(auto_add_im->Err_0)
    } else if close_avg_price is Err {
        Some(close_avg_price->Err_0)
    } else if close_profit_loss is Err {
        Some(close_profit_loss->Err_0)
    } else if close_vol is Err {
        Some(close_vol->Err_0)
    } else if create_time is Err {
        Some(create_time->Err_0)
    } else if fee is Err {
        Some(fee->Err_0)
    } else if frozen_vol is Err {
        Some(frozen_vol->Err_0)
    } else if hold_avg_price is Err {
        Some(hold_avg_price->Err_0)
    } else if hold_avg_price_fully_scale is Err {
        Some(hold_avg_price_fully_scale->Err_0)
    } else if hold_fee is Err {
        Some(hold_fee->Err_0)
    } else if hold_vol is Err {
        Some(hold_vol->Err_0)
    } else if im is Err {
        Some(im->Err_0)
    } else if leverage is Err {
        Some(leverage->Err_0)
    } else if liquidate_price is Err {
        Some(liquidate_price->Err_0)
    } else if margin_ratio is Err {
        Some(margin_ratio->Err_0)
    } else if new_close_avg_price is Err {
        Some(new_close_avg_price->Err_0)
    } else if new_open_avg_price is Err {
        Some(new_open_avg_price->Err_0)
    } else if oim is Err {
        Some(oim->Err_0)
    } else if open_avg_price is Err {
        Some(open_avg_price->Err_0)
    } else if open_avg_price_fully_scale is Err {
        Some(open_avg_price_fully_scale->Err_0)
    } else if open_type is Err {
        Some(open_type->Err_0)
    } else if position_id is Err {
        Some(position_id->Err_0)
    } else if position_type is Err {
        Some(position_type->Err_0)
    } else if profit_ratio is Err {
        Some(profit_ratio->Err_0)
    } else if realised is Err {
        Some(realised->Err_0)
    } else if state is Err {
        Some(state->Err_0)
    } else if symbol is Err {
        Some(symbol->Err_0)
    } else if update_time is Err {
        Some(update_time->Err_0)
    } else if version is Err {
        Some(version->Err_0)
    } else {
        None
    }
}

/// Decodes one record, ignoring unknown fields; a missing or
/// ill-shaped field is the failure of the first such field.
pub fn decode_futures_position(v: &JsonValue) -> (r: Result<FuturesPosition, DecodeError>)
    ensures
        match r {
            Ok(b) => futures_position_matches(*v, b) && futures_position_err(*v) is None,
            Err(e) => futures_position_err(*v) == Some(e),
        },
{
    let auto_add_im = crate::json::get_bool_field(v, "autoAddIm")?;
    let close_avg_price = crate::json::get_num_field(v, "closeAvgPrice")?;
    let close_profit_loss = crate::json::get_num_field(v, "closeProfitLoss")?;
    let close_vol = crate::json::get_num_field(v, "closeVol")?;
    let create_time = crate::json::get_u128_field(v, "createTime")?;
    let fee = crate::json::get_num_field(v, "fee")?;
    let frozen_vol = crate::json::get_num_field(v, "frozenVol")?;
    let hold_avg_price = crate::json::get_num_field(v, "holdAvgPrice")?;
    let hold_avg_price_fully_scale = crate::json::get_num_field(v, "holdAvgPriceFullyScale")?;
    let hold_fee = crate::json::get_num_field(v, "holdFee")?;
    let hold_vol = crate::json::get_num_field(v, "holdVol")?;
    let im = crate::json::get_num_field(v, "im")?;
    let leverage = crate::json::get_num_field(v, "leverage")?;
    let liquidate_price = crate::json::get_num_field(v, "liquidatePrice")?;
    let margin_ratio = crate::json::get_num_field(v, "marginRatio")?;
    let new_close_avg_price = crate::json::get_num_field(v, "newCloseAvgPrice")?;
    let new_open_avg_price = crate::json::get_num_field(v, "newOpenAvgPrice")?;
    let oim = crate::json::get_num_field(v, "oim")?;
    let open_avg_price = crate::json::get_num_field(v, "openAvgPrice")?;
    let open_avg_price_fully_scale = crate::json::get_num_field(v, "openAvgPriceFullyScale")?;
    let open_type = crate::json::get_i32_field(v, "openType")?;
    let position_id = crate::json::get_i64_field(v, "positionId")?;
    let position_type = crate::json::get_i32_field(v, "positionType")?;
    let profit_ratio = crate::json::get_num_field(v, "profitRatio")?;
    let realised = crate::json::get_num_field(v, "realised")?;
    let state = crate::json::get_i32_field(v, "state")?;
    let symbol = crate::json::get_str_field(v, "symbol")?;
    let update_time = crate::json::get_u128_field(v, "updateTime")?;
    let version = crate::json::get_i32_field(v, "version")?;
    Ok(
        FuturesPosition {
            auto_add_im,
            close_avg_price,
            close_profit_loss,
            close_vol,
            create_time,
            fee,
            frozen_vol,
            hold_avg_price,
            hold_avg_price_fully_scale,
            hold_fee,
            hold_vol,
            im,
            leverage,
            liquidate_price,
            margin_ratio,
            new_close_avg_price,
            new_open_avg_price,
            oim,
            open_avg_price,
            open_avg_price_fully_scale,
            open_type,
            position_id,
            position_type,
            profit_ratio,
            realised,
            state,
            symbol,
            update_time,
            version,
        },
    )
}

/// The first failure among an array of these records, if any.
pub open spec fn futures_positions_err(elems: Seq<JsonValue>) -> Option<DecodeError>
    decreases elems.len(),
{
    if elems.len() == 0 {
        None
    } else if futures_position_err(elems.first()) is Some {
        futures_position_err(elems.first())
    } else {
        futures_positions_err(elems.drop_first())
    }
}

/// Decodes an open-positions payload: an array of positions.
pub fn decode_futures_positions(v: &JsonValue) -> (r: Result<Vec<FuturesPosition>, DecodeError>)
    ensures
        match r {
            Ok(bs) => *v matches JsonValue::Arr(elems) && bs@.len() == elems@.len() && (forall|
                k: int,
            |
                0 <= k < elems@.len() ==> futures_position_matches(elems@[k], bs@[k]))
                && futures_positions_err(elems@) is None,
            Err(e) => match *v {
                JsonValue::Arr(elems) => futures_positions_err(elems@) == Some(e),
                _ => e == DecodeError::InvalidType,
            },
        },
{
    match v {
        JsonValue::Arr(elems) => {
            let n = elems.len();
            let mut out: Vec<FuturesPosition> = Vec::new();
            let mut i: usize = 0;
            proof {
                assert(elems@.skip(0) =~= elems@);
            }
            while i < n
                invariant
                    0 <= i <= n,
                    n == elems@.len(),
                    out@.len() == i,
                    *v matches JsonValue::Arr(es) && es@ == elems@,
                    forall|k: int| 0 <= k < i ==> futures_position_matches(elems@[k], out@[k]),
                    forall|k: int| 0 <= k < i ==> futures_position_err(elems@[k]) is None,
                    futures_positions_err(elems@) == futures_positions_err(elems@.skip(i as int)),
                decreases n - i,
            {
                proof {
                    assert(elems@.skip(i as int).first() == elems@[i as int]);
                    assert(elems@.skip(i as int).drop_first() =~= elems@.skip(i + 1));
                }
                match decode_futures_position(&elems[i]) {
                    Ok(b) => out.push(b),
                    Err(e) => {
                        return Err(e);
                    },
                }
                i += 1;
            }
            proof {
                assert(elems@.skip(n as int).len() == 0);
            }
            Ok(out)
        },
        _ => Err(DecodeError::InvalidType),
    }
}

/// A contract's metadata record.
#[derive(Debug, Clone)]
pub struct ContractInfo {
    pub amount_scale: i32,
    pub api_allowed: bool,
    pub appraisal: Decimal,
    pub ask_limit_price_rate: Decimal,
    pub automatic_delivery: i32,
    pub base_coin: String,
    pub base_coin_icon_url: String,
    pub base_coin_id: String,
    pub base_coin_name: String,
    pub bid_limit_price_rate: Decimal,
    pub concept_plate: Vec<String>,
    pub contract_size: Decimal,
    pub depth_step_list: Vec<String>,
    pub display_name: String,
    pub display_name_en: String,
    pub future_type: i32,
    pub id: i64,
    pub index_origin: Vec<String>,
    pub initial_margin_rate: Decimal,
    pub is_hidden: bool,
    pub is_hot: bool,
    pub is_new: bool,
    pub limit_max_vol: Decimal,
    pub maintenance_margin_rate: Decimal,
    pub maker_fee_rate: Decimal,
    pub market_order_max_level: i32,
    pub market_order_price_limit_rate1: Decimal,
    pub market_order_price_limit_rate2: Decimal,
    pub max_leverage: i32,
    pub max_num_orders: Vec<i32>,
    pub max_vol: Decimal,
    pub min_leverage: i32,
    pub min_vol: Decimal,
    pub position_open_type: i32,
    pub price_coefficient_variation: Decimal,
    pub price_scale: i32,
    pub price_unit: Decimal,
    pub quote_coin: String,
    pub quote_coin_name: String,
    pub risk_base_vol: Decimal,
    pub risk_incr_imr: Decimal,
    pub risk_incr_mmr: Decimal,
    pub risk_incr_vol: Decimal,
    pub risk_level_limit: i32,
    pub risk_limit_type: String,
    pub risk_long_short_switch: i32,
    pub settle_coin: String,
    pub show_appraisal_countdown: i32,
    pub state: i32,
    pub symbol: String,
    pub taker_fee_rate: Decimal,
    pub threshold: Decimal,
    pub trigger_protect: Decimal,
    pub vid: String,
    pub vol_scale: i32,
    pub vol_unit: Decimal,
}

pub open spec fn contract_info_matches(v: JsonValue, b: ContractInfo) -> bool {
    &&& spec_i32_field(v, "amountScale"@) == Ok::<i32, DecodeError>(b.amount_scale)
    &&& spec_bool_field(v, "apiAllowed"@) == Ok::<bool, DecodeError>(b.api_allowed)
    &&& spec_num_field(v, "appraisal"@) == Ok::<Seq<char>, DecodeError>(b.appraisal@)
    &&& spec_num_field(v, "askLimitPriceRate"@) == Ok::<Seq<char>, DecodeError>(b.ask_limit_price_rate@)
    &&& spec_i32_field(v, "automaticDelivery"@) == Ok::<i32, DecodeError>(b.automatic_delivery)
    &&& spec_str_field(v, "baseCoin"@) == Ok::<Seq<char>, DecodeError>(b.base_coin@)
    &&& spec_str_field(v, "baseCoinIconUrl"@) == Ok::<Seq<char>, DecodeError>(b.base_coin_icon_url@)
    &&& spec_str_field(v, "baseCoinId"@) == Ok::<Seq<char>, DecodeError>(b.base_coin_id@)
    &&& spec_str_field(v, "baseCoinName"@) == Ok::<Seq<char>, DecodeError>(b.base_coin_name@)
    &&& spec_num_field(v, "bidLimitPriceRate"@) == Ok::<Seq<char>, DecodeError>(b.bid_limit_price_rate@)
    &&& spec_str_arr_field(v, "conceptPlate"@) == Ok::<Seq<Seq<char>>, DecodeError>(b.concept_plate@.map_values(|s: String| s@))
    &&& spec_num_field(v, "contractSize"@) == Ok::<Seq<char>, DecodeError>(b.contract_size@)
    &&& spec_str_arr_field(v, "depthStepList"@) == Ok::<Seq<Seq<char>>, DecodeError>(b.depth_step_list@.map_values(|s: String| s@))
    &&& spec_str_field(v, "displayName"@) == Ok::<Seq<char>, DecodeError>(b.display_name@)
    &&& spec_str_field(v, "displayNameEn"@) == Ok::<Seq<char>, DecodeError>(b.display_name_en@)
    &&& spec_i32_field(v, "futureType"@) == Ok::<i32, DecodeError>(b.future_type)
    &&& spec_i64_field(v, "id"@) == Ok::<i64, DecodeError>(b.id)
    &&& spec_str_arr_field(v, "indexOrigin"@) == Ok::<Seq<Seq<char>>, DecodeError>(b.index_origin@.map_values(|s: String| s@))
    &&& spec_num_field(v, "initialMarginRate"@) == Ok::<Seq<char>, DecodeError>(b.initial_margin_rate@)
    &&& spec_bool_field(v, "isHidden"@) == Ok::<bool, DecodeError>(b.is_hidden)
    &&& spec_bool_field(v, "isHot"@) == Ok::<bool, DecodeError>(b.is_hot)
    &&& spec_bool_field(v, "isNew"@) == Ok::<bool, DecodeError>(b.is_new)
    &&& spec_num_field(v, "limitMaxVol"@) == Ok::<Seq<char>, DecodeError>(b.limit_max_vol@)
    &&& spec_num_field(v, "maintenanceMarginRate"@) == Ok::<Seq<char>, DecodeError>(b.maintenance_margin_rate@)
    &&& spec_num_field(v, "makerFeeRate"@) == Ok::<Seq<char>, DecodeError>(b.maker_fee_rate@)
    &&& spec_i32_field(v, "marketOrderMaxLevel"@) == Ok::<i32, DecodeError>(b.market_order_max_level)
    &&& spec_num_field(v, "marketOrderPriceLimitRate1"@) == Ok::<Seq<char>, DecodeError>(b.market_order_price_limit_rate1@)
    &&& spec_num_field(v, "marketOrderPriceLimitRate2"@) == Ok::<Seq<char>, DecodeError>(b.market_order_price_limit_rate2@)
    &&& spec_i32_field(v, "maxLeverage"@) == Ok::<i32, DecodeError>(b.max_leverage)
    &&& spec_i32_arr_field(v, "maxNumOrders"@) == Ok::<Seq<int>, DecodeError>(b.max_num_orders@.map_values(|x: i32| x as int))
    &&& spec_num_field(v, "maxVol"@) == Ok::<Seq<char>, DecodeError>(b.max_vol@)
    &&& spec_i32_field(v, "minLeverage"@) == Ok::<i32, DecodeError>(b.min_leverage)
    &&& spec_num_field(v, "minVol"@) == Ok::<Seq<char>, DecodeError>(b.min_vol@)
    &&& spec_i32_field(v, "positionOpenType"@) == Ok::<i32, DecodeError>(b.position_open_type)
    &&& spec_num_field(v, "priceCoefficientVariation"@) == Ok::<Seq<char>, DecodeError>(b.price_coefficient_variation@)
    &&& spec_i32_field(v, "priceScale"@) == Ok::<i32, DecodeError>(b.price_scale)
    &&& spec_num_field(v, "priceUnit"@) == Ok::<Seq<char>, DecodeError>(b.price_unit@)
    &&& spec_str_field(v, "quoteCoin"@) == Ok::<Seq<char>, DecodeError>(b.quote_coin@)
    &&& spec_str_field(v, "quoteCoinName"@) == Ok::<Seq<char>, DecodeError>(b.quote_coin_name@)
    &&& spec_num_field(v, "riskBaseVol"@) == Ok::<Seq<char>, DecodeError>(b.risk_base_vol@)
    &&& spec_num_field(v, "riskIncrImr"@) == Ok::<Seq<char>, DecodeError>(b.risk_incr_imr@)
    &&& spec_num_field(v, "riskIncrMmr"@) == Ok::<Seq<char>, DecodeError>(b.risk_incr_mmr@)
    &&& spec_num_field(v, "riskIncrVol"@) == Ok::<Seq<char>, DecodeError>(b.risk_incr_vol@)
    &&& spec_i32_field(v, "riskLevelLimit"@) == Ok::<i32, DecodeError>(b.risk_level_limit)
    &&& spec_str_field(v, "riskLimitType"@) == Ok::<Seq<char>, DecodeError>(b.risk_limit_type@)
    &&& spec_i32_field(v, "riskLongShortSwitch"@) == Ok::<i32, DecodeError>(b.risk_long_short_switch)
    &&& spec_str_field(v, "settleCoin"@) == Ok::<Seq<char>, DecodeError>(b.settle_coin@)
    &&& spec_i32_field(v, "showAppraisalCountdown"@) == Ok::<i32, DecodeError>(b.show_appraisal_countdown)
    &&& spec_i32_field(v, "state"@) == Ok::<i32, DecodeError>(b.state)
    &&& spec_str_field(v, "symbol"@) == Ok::<Seq<char>, DecodeError>(b.symbol@)
    &&& spec_num_field(v, "takerFeeRate"@) == Ok::<Seq<char>, DecodeError>(b.taker_fee_rate@)
    &&& spec_num_field(v, "threshold"@) == Ok::<Seq<char>, DecodeError>(b.threshold@)
    &&& spec_num_field(v, "triggerProtect"@) == Ok::<Seq<char>, DecodeError>(b.trigger_protect@)
    &&& spec_str_field(v, "vid"@) == Ok::<Seq<char>, DecodeError>(b.vid@)
    &&& spec_i32_field(v, "volScale"@) == Ok::<i32, DecodeError>(b.vol_scale)
    &&& spec_num_field(v, "volUnit"@) == Ok::<Seq<char>, DecodeError>(b.vol_unit@)
}

pub open spec fn contract_info_err(v: JsonValue) -> Option<DecodeError> {
    let amount_scale = spec_i32_field(v, "amountScale"@);
    let api_allowed = spec_bool_field(v, "apiAllowed"@);
    let appraisal = spec_num_field(v, "appraisal"@);
    let ask_limit_price_rate = spec_num_field(v, "askLimitPriceRate"@);
    let automatic_delivery = spec_i32_field(v, "automaticDelivery"@);
    let base_coin = spec_str_field(v, "baseCoin"@);
    let base_coin_icon_url = spec_str_field(v, "baseCoinIconUrl"@);
    let base_coin_id = spec_str_field(v, "baseCoinId"@);
    let base_coin_name = spec_str_field(v, "baseCoinName"@);
    let bid_limit_price_rate = spec_num_field(v, "bidLimitPriceRate"@);
    let concept_plate = spec_str_arr_field(v, "conceptPlate"@);
    let contract_size = spec_num_field(v, "contractSize"@);
    let depth_step_list = spec_str_arr_field(v, "depthStepList"@);
    let display_name = spec_str_field(v, "displayName"@);
    let display_name_en = spec_str_field(v, "displayNameEn"@);
    let future_type = spec_i32_field(v, "futureType"@);
    let id = spec_i64_field(v, "id"@);
    let index_origin = spec_str_arr_field(v, "indexOrigin"@);
    let initial_margin_rate = spec_num_field(v, "initialMarginRate"@);
    let is_hidden = spec_bool_field(v, "isHidden"@);
    let is_hot = spec_bool_field(v, "isHot"@);
    let is_new = spec_bool_field(v, "isNew"@);
    let limit_max_vol = spec_num_field(v, "limitMaxVol"@);
    let maintenance_margin_rate = spec_num_field(v, "maintenanceMarginRate"@);
    let maker_fee_rate = spec_num_field(v, "makerFeeRate"@);
    let market_order_max_level = spec_i32_field(v, "marketOrderMaxLevel"@);
    let market_order_price_limit_rate1 = spec_num_field(v, "marketOrderPriceLimitRate1"@);
    let market_order_price_limit_rate2 = spec_num_field(v, "marketOrderPriceLimitRate2"@);
    let max_leverage = spec_i32_field(v, "maxLeverage"@);
    let max_num_orders = spec_i32_arr_field(v, "maxNumOrders"@);
    let max_vol = spec_num_field(v, "maxVol"@);
    let min_leverage = spec_i32_field(v, "minLeverage"@);
    let min_vol = spec_num_field(v, "minVol"@);
    let position_open_type = spec_i32_field(v, "positionOpenType"@);
    let price_coefficient_variation = spec_num_field(v, "priceCoefficientVariation"@);
    let price_scale = spec_i32_field(v, "priceScale"@);
    let price_unit = spec_num_field(v, "priceUnit"@);
    let quote_coin = spec_str_field(v, "quoteCoin"@);
    let quote_coin_name = spec_str_field(v, "quoteCoinName"@);
    let risk_base_vol = spec_num_field(v, "riskBaseVol"@);
    let risk_incr_imr = spec_num_field(v, "riskIncrImr"@);
    let risk_incr_mmr = spec_num_field(v, "riskIncrMmr"@);
    let risk_incr_vol = spec_num_field(v, "riskIncrVol"@);
    let risk_level_limit = spec_i32_field(v, "riskLevelLimit"@);
    let risk_limit_type = spec_str_field(v, "riskLimitType"@);
    let risk_long_short_switch = spec_i32_field(v, "riskLongShortSwitch"@);
    let settle_coin = spec_str_field(v, "settleCoin"@);
    let show_appraisal_countdown = spec_i32_field(v, "showAppraisalCountdown"@);
    let state = spec_i32_field(v, "state"@);
    let symbol = spec_str_field(v, "symbol"@);
    let taker_fee_rate = spec_num_field(v, "takerFeeRate"@);
    let threshold = spec_num_field(v, "threshold"@);
    let trigger_protect = spec_num_field(v, "triggerProtect"@);
    let vid = spec_str_field(v, "vid"@);
    let vol_scale = spec_i32_field(v, "volScale"@);
    let vol_unit = spec_num_field(v, "volUnit"@);
    if amount_scale is Err {
        Some(amount_scale->Err_0)
    } else if api_allowed is Err {
        Some(api_allowed->Err_0)
    } else if appraisal is Err {
        Some(appraisal->Err_0)
    } else if ask_limit_price_rate is Err {
        Some(ask_limit_price_rate->Err_0)
    } else if automatic_delivery is Err {
        Some(automatic_delivery->Err_0)
    } else if base_coin is Err {
        Some(base_coin->Err_0)
    } else if base_coin_icon_url is Err {
        Some(base_coin_icon_url->Err_0)
    } else if base_coin_id is Err {
        Some(base_coin_id->Err_0)
    } else if base_coin_name is Err {
        Some(base_coin_name->Err_0)
    } else if bid_limit_price_rate is Err {
        Some(bid_limit_price_rate->Err_0)
    } else if concept_plate is Err {
        Some(concept_plate->Err_0)
    } else if contract_size is Err {
        Some(contract_size->Err_0)
    } else if depth_step_list is Err {
        Some(depth_step_list->Err_0)
    } else if display_name is Err {
        Some(display_name->Err_0)
    } else if display_name_en is Err {
        Some(display_name_en->Err_0)
    } else if future_type is Err {
        Some(future_type->Err_0)
    } else if id is Err {
        Some(id->Err_0)
    } else if index_origin is Err {
        Some(index_origin->Err_0)
    } else if initial_margin_rate is Err {
        Some(initial_margin_rate->Err_0)
    } else if is_hidden is Err {
        Some(is_hidden->Err_0)
    } else if is_hot is Err {
        Some(is_hot->Err_0)
    } else if is_new is Err {
        Some(is_new->Err_0)
    } else if limit_max_vol is Err {
        Some(limit_max_vol->Err_0)
    } else if maintenance_margin_rate is Err {
        Some(maintenance_margin_rate->Err_0)
    } else if maker_fee_rate is Err {
        Some(maker_fee_rate->Err_0)
    } else if market_order_max_level is Err {
        Some(market_order_max_level->Err_0)
    } else if market_order_price_limit_rate1 is Err {
        Some(market_order_price_limit_rate1->Err_0)
    } else if market_order_price_limit_rate2 is Err {
        Some(market_order_price_limit_rate2->Err_0)
    } else if max_leverage is Err {
        Some(max_leverage->Err_0)
    } else if max_num_orders is Err {
        Some(max_num_orders->Err_0)
    } else if max_vol is Err {
        Some(max_vol->Err_0)
    } else if min_leverage is Err {
        Some(min_leverage->Err_0)
    } else if min_vol is Err {
        Some(min_vol->Err_0)
    } else if position_open_type is Err {
        Some(position_open_type->Err_0)
    } else if price_coefficient_variation is Err {
        Some(price_coefficient_variation->Err_0)
    } else if price_scale is Err {
        Some(price_scale->Err_0)
    } else if price_unit is Err {
        Some(price_unit->Err_0)
    } else if quote_coin is Err {
        Some(quote_coin->Err_0)
    } else if quote_coin_name is Err {
        Some(quote_coin_name->Err_0)
    } else if risk_base_vol is Err {
        Some(risk_base_vol->Err_0)
    } else if risk_incr_imr is Err {
        Some(risk_incr_imr->Err_0)
    } else if risk_incr_mmr is Err {
        Some(risk_incr_mmr->Err_0)
    } else if risk_incr_vol is Err {
        Some(risk_incr_vol->Err_0)
    } else if risk_level_limit is Err {
        Some(risk_level_limit->Err_0)
    } else if risk_limit_type is Err {
        Some(risk_limit_type->Err_0)
    } else if risk_long_short_switch is Err {
        Some(risk_long_short_switch->Err_0)
    } else if settle_coin is Err {
        Some(settle_coin->Err_0)
    } else if show_appraisal_countdown is Err {
        Some(show_appraisal_countdown->Err_0)
    } else if state is Err {
        Some(state->Err_0)
    } else if symbol is Err {
        Some(symbol->Err_0)
    } else if taker_fee_rate is Err {
        Some(taker_fee_rate->Err_0)
    } else if threshold is Err {
        Some(threshold->Err_0)
    } else if trigger_protect is Err {
        Some(trigger_protect->Err_0)
    } else if vid is Err {
        Some(vid->Err_0)
    } else if vol_scale is Err {
        Some(vol_scale->Err_0)
    } else if vol_unit is Err {
        Some(vol_unit->Err_0)
    } else {
        None
    }
}

/// Decodes one record, ignoring unknown fields; a missing or
/// ill-shaped field is the failure of the first such field.
pub fn decode_contract_info(v: &JsonValue) -> (r: Result<ContractInfo, DecodeError>)
    ensures
        match r {
            Ok(b) => contract_info_matches(*v, b) && contract_info_err(*v) is None,
            Err(e) => contract_info_err(*v) == Some(e),
        },
{
    let amount_scale = crate::json::get_i32_field(v, "amountScale")?;
    let api_allowed = crate::json::get_bool_field(v, "apiAllowed")?;
    let appraisal = crate::json::get_num_field(v, "appraisal")?;
    let ask_limit_price_rate = crate::json::get_num_field(v, "askLimitPriceRate")?;
    let automatic_delivery = crate::json::get_i32_field(v, "automaticDelivery")?;
    let base_coin = crate::json::get_str_field(v, "baseCoin")?;
    let base_coin_icon_url = crate::json::get_str_field(v, "baseCoinIconUrl")?;
    let base_coin_id = crate::json::get_str_field(v, "baseCoinId")?;
    let base_coin_name = crate::json::get_str_field(v, "baseCoinName")?;
    let bid_limit_price_rate = crate::json::get_num_field(v, "bidLimitPriceRate")?;
    let concept_plate = crate::json::get_str_arr_field(v, "conceptPlate")?;
    let contract_size = crate::json::get_num_field(v, "contractSize")?;
    let depth_step_list = crate::json::get_str_arr_field(v, "depthStepList")?;
    let display_name = crate::json::get_str_field(v, "displayName")?;
    let display_name_en = crate::json::get_str_field(v, "displayNameEn")?;
    let future_type = crate::json::get_i32_field(v, "futureType")?;
    let id = crate::json::get_i64_field(v, "id")?;
    let index_origin = crate::json::get_str_arr_field(v, "indexOrigin")?;
    let initial_margin_rate = crate::json::get_num_field(v, "initialMarginRate")?;
    let is_hidden = crate::json::get_bool_field(v, "isHidden")?;
    let is_hot = crate::json::get_bool_field(v, "isHot")?;
    let is_new = crate::json::get_bool_field(v, "isNew")?;
    let limit_max_vol = crate::json::get_num_field(v, "limitMaxVol")?;
    let maintenance_margin_rate = crate::json::get_num_field(v, "maintenanceMarginRate")?;
    let maker_fee_rate = crate::json::get_num_field(v, "makerFeeRate")?;
    let market_order_max_level = crate::json::get_i32_field(v, "marketOrderMaxLevel")?;
    let market_order_price_limit_rate1 = crate::json::get_num_field(v, "marketOrderPriceLimitRate1")?;
    let market_order_price_limit_rate2 = crate::json::get_num_field(v, "marketOrderPriceLimitRate2")?;
    let max_leverage = crate::json::get_i32_field(v, "maxLeverage")?;
    let max_num_orders = crate::json::get_i32_arr_field(v, "maxNumOrders")?;
    let max_vol = crate::json::get_num_field(v, "maxVol")?;
    let min_leverage = crate::json::get_i32_field(v, "minLeverage")?;
    let min_vol = crate::json::get_num_field(v, "minVol")?;
    let position_open_type = crate::json::get_i32_field(v, "positionOpenType")?;
    let price_coefficient_variation = crate::json::get_num_field(v, "priceCoefficientVariation")?;
    let price_scale = crate::json::get_i32_field(v, "priceScale")?;
    let price_unit = crate::json::get_num_field(v, "priceUnit")?;
    let quote_coin = crate::json::get_str_field(v, "quoteCoin")?;
    let quote_coin_name = crate::json::get_str_field(v, "quoteCoinName")?;
    let risk_base_vol = crate::json::get_num_field(v, "riskBaseVol")?;
    let risk_incr_imr = crate::json::get_num_field(v, "riskIncrImr")?;
    let risk_incr_mmr = crate::json::get_num_field(v, "riskIncrMmr")?;
    let risk_incr_vol = crate::json::get_num_field(v, "riskIncrVol")?;
    let risk_level_limit = crate::json::get_i32_field(v, "riskLevelLimit")?;
    let risk_limit_type = crate::json::get_str_field(v, "riskLimitType")?;
    let risk_long_short_switch = crate::json::get_i32_field(v, "riskLongShortSwitch")?;
    let settle_coin = crate::json::get_str_field(v, "settleCoin")?;
    let show_appraisal_countdown = crate::json::get_i32_field(v, "showAppraisalCountdown")?;
    let state = crate::json::get_i32_field(v, "state")?;
    let symbol = crate::json::get_str_field(v, "symbol")?;
    let taker_fee_rate = crate::json::get_num_field(v, "takerFeeRate")?;
    let threshold = crate::json::get_num_field(v, "threshold")?;
    let trigger_protect = crate::json::get_num_field(v, "triggerProtect")?;
    let vid = crate::json::get_str_field(v, "vid")?;
    let vol_scale = crate::json::get_i32_field(v, "volScale")?;
    let vol_unit = crate::json::get_num_field(v, "volUnit")?;
    Ok(
        ContractInfo {
            amount_scale,
            api_allowed,
            appraisal,
            ask_limit_price_rate,
            automatic_delivery,
            base_coin,
            base_coin_icon_url,
            base_coin_id,
            base_coin_name,
            bid_limit_price_rate,
            concept_plate,
            contract_size,
            depth_step_list,
            display_name,
            display_name_en,
            future_type,
            id,
            index_origin,
            initial_margin_rate,
            is_hidden,
            is_hot,
            is_new,
            limit_max_vol,
            maintenance_margin_rate,
            maker_fee_rate,
            market_order_max_level,
            market_order_price_limit_rate1,
            market_order_price_limit_rate2,
            max_leverage,
            max_num_orders,
            max_vol,
            min_leverage,
            min_vol,
            position_open_type,
            price_coefficient_variation,
            price_scale,
            price_unit,
            quote_coin,
            quote_coin_name,
            risk_base_vol,
            risk_incr_imr,
            risk_incr_mmr,
            risk_incr_vol,
            risk_level_limit,
            risk_limit_type,
            risk_long_short_switch,
            settle_coin,
            show_appraisal_countdown,
            state,
            symbol,
            taker_fee_rate,
            threshold,
            trigger_protect,
            vid,
            vol_scale,
            vol_unit,
        },
    )
}

} // verus!
