//! The spot account: balances, the account record, and the signed
//! request URLs for the account and listen-key endpoints. A listen key
//! identifies a private streaming session; it is created, kept alive and
//! deleted here, while the stream itself is outside this crate.
use crate::json::{
    jfield, obj_get, spec_bool_field, spec_num_field, spec_str_arr_field, spec_str_field,
    JsonValue,
};
use crate::numeric::Decimal;
use crate::orders::signed_query;
use crate::utils::{dec_str, u128_to_string};
use crate::{AuthError, DecodeError, Mexc};
use vstd::prelude::*;
use vstd::string::StringExecFns;

verus! {

/// One asset's spot balance.
#[derive(Debug, Clone)]
pub struct AccountBalance {
    pub asset: String,
    pub free: Decimal,
    pub locked: Decimal,
}

pub open spec fn account_balance_matches(v: JsonValue, b: AccountBalance) -> bool {
    &&& spec_str_field(v, "asset"@) == Ok::<Seq<char>, DecodeError>(b.asset@)
    &&& spec_num_field(v, "free"@) == Ok::<Seq<char>, DecodeError>(b.free@)
    &&& spec_num_field(v, "locked"@) == Ok::<Seq<char>, DecodeError>(b.locked@)
}

pub open spec fn account_balance_err(v: JsonValue) -> Option<DecodeError> {
    let asset = spec_str_field(v, "asset"@);
    let free = spec_num_field(v, "free"@);
    let locked = spec_num_field(v, "locked"@);
    if asset is Err {
        Some(asset->Err_0)
    } else if free is Err {
        Some(free->Err_0)
    } else if locked is Err {
        Some(locked->Err_0)
    } else {
        None
    }
}

/// Decodes one record, ignoring unknown fields; a missing or
/// ill-shaped field is the failure of the first such field.
pub fn decode_account_balance(v: &JsonValue) -> (r: Result<AccountBalance, DecodeError>)
    ensures
        match r {
            Ok(b) => account_balance_matches(*v, b) && account_balance_err(*v) is None,
            Err(e) => account_balance_err(*v) == Some(e),
        },
{
    let asset = crate::json::get_str_field(v, "asset")?;
    let free = crate::json::get_num_field(v, "free")?;
    let locked = crate::json::get_num_field(v, "locked")?;
    Ok(
        AccountBalance {
            asset,
            free,
            locked,
        },
    )
}

/// The first failure among an array of these records, if any.
pub open spec fn account_balances_err(elems: Seq<JsonValue>) -> Option<DecodeError>
    decreases elems.len(),
{
    if elems.len() == 0 {
        None
    } else if account_balance_err(elems.first()) is Some {
        account_balance_err(elems.first())
    } else {
        account_balances_err(elems.drop_first())
    }
}

/// Decodes an array of spot balances.
pub fn decode_account_balances(v: &JsonValue) -> (r: Result<Vec<AccountBalance>, DecodeError>)
    ensures
        match r {
            Ok(bs) => *v matches JsonValue::Arr(elems) && bs@.len() == elems@.len() && (forall|
                k: int,
            |
                0 <= k < elems@.len() ==> account_balance_matches(elems@[k], bs@[k]))
                && account_balances_err(elems@) is None,
            Err(e) => match *v {
                JsonValue::Arr(elems) => account_balances_err(elems@) == Some(e),
                _ => e == DecodeError::InvalidType,
            },
        },
{
    match v {
        JsonValue::Arr(elems) => {
            let n = elems.len();
            let mut out: Vec<AccountBalance> = Vec::new();
            let mut i: usize = 0;
            proof {
                assert(elems@.skip(0) =~= elems@);
            }
            while i < n
                invariant
                    0 <= i <= n,
                    n == elems@.len(),
                    out@.len() == i,
                    *v matches JsonValue::Arr(es) && es@ == elems@,
                    forall|k: int| 0 <= k < i ==> account_balance_matches(elems@[k], out@[k]),
                    forall|k: int| 0 <= k < i ==> account_balance_err(elems@[k]) is None,
                    account_balances_err(elems@) == account_balances_err(elems@.skip(i as int)),
                decreases n - i,
            {
                proof {
                    assert(elems@.skip(i as int).first() == elems@[i as int]);
                    assert(elems@.skip(i as int).drop_first() =~= elems@.skip(i + 1));
                }
                match decode_account_balance(&elems[i]) {
                    Ok(b) => out.push(b),
                    Err(e) => {
                        return Err(e);
                    },
                }
                i += 1;
            }
            proof {
                assert(elems@.skip(n as int).len() == 0);
            }
            Ok(out)
        },
        _ => Err(DecodeError::InvalidType),
    }
}

/// The spot account record.
#[derive(Debug, Clone)]
pub struct Account {
    pub account_type: String,
    pub can_deposit: bool,
    pub can_trade: bool,
    pub can_withdraw: bool,
    pub permissions: Vec<String>,
    pub balances: Vec<AccountBalance>,
}

pub open spec fn account_matches(v: JsonValue, b: Account) -> bool {
    &&& spec_str_field(v, "accountType"@) == Ok::<Seq<char>, DecodeError>(b.account_type@)
    &&& spec_bool_field(v, "canDeposit"@) == Ok::<bool, DecodeError>(b.can_deposit)
    &&& spec_bool_field(v, "canTrade"@) == Ok::<bool, DecodeError>(b.can_trade)
    &&& spec_bool_field(v, "canWithdraw"@) == Ok::<bool, DecodeError>(b.can_withdraw)
    &&& spec_str_arr_field(v, "permissions"@) == Ok::<Seq<Seq<char>>, DecodeError>(
        b.permissions@.map_values(|s: String| s@),
    )
    &&& jfield(v, "balances"@) matches Some(arr) && (arr matches JsonValue::Arr(elems)
        && b.balances@.len() == elems@.len() && (forall|k: int|
        0 <= k < elems@.len() ==> account_balance_matches(elems@[k], b.balances@[k])))
}

pub open spec fn account_err(v: JsonValue) -> Option<DecodeError> {
    let account_type = spec_str_field(v, "accountType"@);
    let can_deposit = spec_bool_field(v, "canDeposit"@);
    let can_trade = spec_bool_field(v, "canTrade"@);
    let can_withdraw = spec_bool_field(v, "canWithdraw"@);
    let permissions = spec_str_arr_field(v, "permissions"@);
    if account_type is Err {
        Some(account_type->Err_0)
    } else if can_deposit is Err {
        Some(can_deposit->Err_0)
    } else if can_trade is Err {
        Some(can_trade->Err_0)
    } else if can_withdraw is Err {
        Some(can_withdraw->Err_0)
    } else if permissions is Err {
        Some(permissions->Err_0)
    } else {
        match jfield(v, "balances"@) {
            None => Some(DecodeError::MissingField),
            Some(arr) => match arr {
                JsonValue::Arr(elems) => account_balances_err(elems@),
                _ => Some(DecodeError::InvalidType),
            },
        }
    }
}

/// Decodes the account record, its balances included.
pub fn decode_account(v: &JsonValue) -> (r: Result<Account, DecodeError>)
    ensures
        match r {
            Ok(b) => account_matches(*v, b) && account_err(*v) is None,
            Err(e) => account_err(*v) == Some(e),
        },
{
    let account_type = crate::json::get_str_field(v, "accountType")?;
    let can_deposit = crate::json::get_bool_field(v, "canDeposit")?;
    let can_trade = crate::json::get_bool_field(v, "canTrade")?;
    let can_withdraw = crate::json::get_bool_field(v, "canWithdraw")?;
    let permissions = crate::json::get_str_arr_field(v, "permissions")?;
    let balances_value = match obj_get(v, "balances") {
        None => {
            return Err(DecodeError::MissingField);
        },
        Some(x) => x,
    };
    let balances = match balances_value {
        JsonValue::Arr(_) => decode_account_balances(balances_value)?,
        _ => {
            return Err(DecodeError::InvalidType);
        },
    };
    Ok(Account { account_type, can_deposit, can_trade, can_withdraw, permissions, balances })
}

/// The listen-key response of the user-data-stream endpoints.
#[derive(Debug, Clone)]
pub struct ListenKeyReponse {
    pub listen_key: String,
}

pub open spec fn listen_key_matches(v: JsonValue, b: ListenKeyReponse) -> bool {
    spec_str_field(v, "listenKey"@) == Ok::<Seq<char>, DecodeError>(b.listen_key@)
}

pub open spec fn listen_key_err(v: JsonValue) -> Option<DecodeError> {
    let k = spec_str_field(v, "listenKey"@);
    if k is Err {
        Some(k->Err_0)
    } else {
        None
    }
}

/// Decodes a listen-key response.
pub fn decode_listen_key(v: &JsonValue) -> (r: Result<ListenKeyReponse, DecodeError>)
    ensures
        match r {
            Ok(b) => listen_key_matches(*v, b) && listen_key_err(*v) is None,
            Err(e) => listen_key_err(*v) == Some(e),
        },
{
    let listen_key = crate::json::get_str_field(v, "listenKey")?;
    Ok(ListenKeyReponse { listen_key })
}

impl Mexc {
    /// The signed URL that reads the account.
    pub fn account_request(&self, timestamp: u128) -> (r: Result<String, AuthError>)
        ensures
            match r {
                Ok(url) => self.api_secret matches Some(sec) && url@
                    == "https://api.mexc.com/api/v3/account?"@ + signed_query(
                    sec@,
                    "timestamp="@ + dec_str(timestamp as nat),
                ),
                Err(e) => self.api_secret is None && e == AuthError::MissingSecret,
            },
    {
        let mut q = String::new();
        q.append("timestamp=");
        q.append(u128_to_string(timestamp).as_str());
        let signed = self.sign_request(q)?;
        let mut url = String::new();
        url.append("https://api.mexc.com/api/v3/account?");
        url.append(signed.as_str());
        Ok(url)
    }

    /// The signed URL that creates a listen key.
    pub fn listen_key_create_request(&self, timestamp: u128) -> (r: Result<String, AuthError>)
        ensures
            match r {
                Ok(url) => self.api_secret matches Some(sec) && url@
                    == "https://api.mexc.com/api/v3/userDataStream?"@ + signed_query(
                    sec@,
                    "timestamp="@ + dec_str(timestamp as nat),
                ),
                Err(e) => self.api_secret is None && e == AuthError::MissingSecret,
            },
    {
        let mut q = String::new();
        q.append("timestamp=");
        q.append(u128_to_string(timestamp).as_str());
        let signed = self.sign_request(q)?;
        let mut url = String::new();
        url.append("https://api.mexc.com/api/v3/userDataStream?");
        url.append(signed.as_str());
        Ok(url)
    }

    /// The signed URL that keeps a listen key alive, or deletes it: both
    /// sign `listenKey=<key>&timestamp=<ms>`, and only the HTTP verb
    /// differs.
    pub fn listen_key_touch_request(&self, listen_key: &str, timestamp: u128) -> (r: Result<
        String,
        AuthError,
    >)
        ensures
            match r {
                Ok(url) => self.api_secret matches Some(sec) && url@
                    == "https://api.mexc.com/api/v3/userDataStream?"@ + signed_query(
                    sec@,
                    "listenKey="@ + listen_key@ + "&timestamp="@ + dec_str(timestamp as nat),
                ),
                Err(e) => self.api_secret is None && e == AuthError::MissingSecret,
            },
    {
        let mut q = String::new();
        q.append("listenKey=");
        q.append(listen_key);
        q.append("&timestamp=");
        q.append(u128_to_string(timestamp).as_str());
        let signed = self.sign_request(q)?;
        let mut url = String::new();
        url.append("https://api.mexc.com/api/v3/userDataStream?");
        url.append(signed.as_str());
        Ok(url)
    }
}

} // verus!
