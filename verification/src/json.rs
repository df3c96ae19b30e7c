//! The JSON values this crate decodes. The exchange's responses are parsed
//! by serde_json and handed over as a plain value tree; every field lookup
//! and every shape check after that point is this crate's own, verified
//! logic. A number is carried as its token text, so nothing is rounded
//! before the caller chooses a representation.
use crate::numeric::{is_float_text, Decimal};
use crate::DecodeError;
use vstd::prelude::*;

verus! {

/// A parsed JSON value. An object keeps its entries as a list of pairs in
/// the order the parser handed them over; lookups take the first match.
#[derive(Debug)]
pub enum JsonValue {
    Null,
    Bool(bool),
    /// A number, as its token text (e.g. `-1`, `0.25`, `1e30`).
    Num(String),
    Str(String),
    Arr(Vec<JsonValue>),
    Obj(Vec<(String, JsonValue)>),
}

#[verifier::external_type_specification]
#[verifier::external_body]
pub struct ExValue(serde_json::Value);

/// What parsing a piece of text yields: serde_json's parse is a pure
/// function of the text, so its result can be named.
pub uninterp spec fn json_of(text: Seq<char>) -> Option<JsonValue>;

/// Relies on serde_json::from_str::<serde_json::Value>: parses the text as
/// JSON, returning its value tree, or nothing if the text is not JSON.
#[verifier::external_body]
pub fn parse_json(text: &str) -> (r: Option<JsonValue>)
    ensures
        r == json_of(text@),
{
    match serde_json::from_str::<serde_json::Value>(text) {
        Ok(v) => Some(from_value(v)),
        Err(_) => None,
    }
}

/// Relies on serde_json::Value: tells its six variants apart, one arm each;
/// a number becomes its canonical token text (serde_json's Display form).
/// Serves `parse_json` above.
#[verifier::external_body]
fn from_value(v: serde_json::Value) -> JsonValue {
    match v {
        serde_json::Value::Null => JsonValue::Null,
        serde_json::Value::Bool(b) => JsonValue::Bool(b),
        serde_json::Value::Number(n) => JsonValue::Num(n.to_string()),
        serde_json::Value::String(s) => JsonValue::Str(s),
        serde_json::Value::Array(a) => JsonValue::Arr(a.into_iter().map(from_value).collect()),
        serde_json::Value::Object(m) => JsonValue::Obj(
            m.into_iter().map(|(k, x)| (k, from_value(x))).collect(),
        ),
    }
}

/// How one character appears inside a JSON string literal: quote and
/// backslash escaped, the named control escapes, `\u00XX` for the other
/// control characters, and everything else as itself. This is exactly
/// serde_json's escaping, so a body built here matches one it would write.
pub open spec fn json_escaped_char(c: char) -> Seq<char> {
    if c == '"' {
        seq!['\\', '"']
    } else if c == '\\' {
        seq!['\\', '\\']
    } else if c as int == 8 {
        seq!['\\', 'b']
    } else if c == '\t' {
        seq!['\\', 't']
    } else if c == '\n' {
        seq!['\\', 'n']
    } else if c as int == 12 {
        seq!['\\', 'f']
    } else if c == '\r' {
        seq!['\\', 'r']
    } else if (c as int) < 32 {
        seq!['\\', 'u', '0', '0'] + seq![
            crate::crypto::hex_char(((c as int) / 16) as nat),
            crate::crypto::hex_char(((c as int) % 16) as nat),
        ]
    } else {
        seq![c]
    }
}

/// A whole string, escaped for a JSON string literal.
pub open spec fn json_escaped(s: Seq<char>) -> Seq<char>
    decreases s.len(),
{
    if s.len() == 0 {
        Seq::empty()
    } else {
        json_escaped(s.drop_last()) + json_escaped_char(s.last())
    }
}

/// Escapes a string for inclusion in a JSON string literal.
pub fn json_escape(s: &str) -> (r: String)
    ensures
        r@ == json_escaped(s@),
{
    let n = s.unicode_len();
    let mut res = String::new();
    let mut i: usize = 0;
    proof {
        assert(s@.take(0) =~= Seq::<char>::empty());
    }
    while i < n
        invariant
            0 <= i <= n,
            n == s@.len(),
            res@ == json_escaped(s@.take(i as int)),
        decreases n - i,
    {
        let c = s.get_char(i);
        if c == '"' {
            crate::utils::push_char(&mut res, '\\');
            crate::utils::push_char(&mut res, '"');
        } else if c == '\\' {
            crate::utils::push_char(&mut res, '\\');
            crate::utils::push_char(&mut res, '\\');
        } else if c as u32 == 8 {
            crate::utils::push_char(&mut res, '\\');
            crate::utils::push_char(&mut res, 'b');
        } else if c == '\t' {
            crate::utils::push_char(&mut res, '\\');
            crate::utils::push_char(&mut res, 't');
        } else if c == '\n' {
            crate::utils::push_char(&mut res, '\\');
            crate::utils::push_char(&mut res, 'n');
        } else if c as u32 == 12 {
            crate::utils::push_char(&mut res, '\\');
            crate::utils::push_char(&mut res, 'f');
        } else if c == '\r' {
            crate::utils::push_char(&mut res, '\\');
            crate::utils::push_char(&mut res, 'r');
        } else if (c as u32) < 32 {
            let code = c as u32;
            crate::utils::push_char(&mut res, '\\');
            crate::utils::push_char(&mut res, 'u');
            crate::utils::push_char(&mut res, '0');
            crate::utils::push_char(&mut res, '0');
            crate::utils::push_char(&mut res, crate::crypto::hex_digit((code / 16) as u8));
            crate::utils::push_char(&mut res, crate::crypto::hex_digit((code % 16) as u8));
        } else {
            crate::utils::push_char(&mut res, c);
        }
        proof {
            assert(s@.take(i + 1).drop_last() =~= s@.take(i as int));
            assert(s@.take(i + 1).last() == s@[i as int]);
        }
        i += 1;
    }
    proof {
        assert(s@.take(n as int) =~= s@);
    }
    res
}

/// The first entry with the given key, if any.
pub open spec fn lookup_entries(entries: Seq<(String, JsonValue)>, key: Seq<char>) -> Option<
    JsonValue,
>
    decreases entries.len(),
{
    if entries.len() == 0 {
        None
    } else if entries[0].0@ == key {
        Some(entries[0].1)
    } else {
        lookup_entries(entries.drop_first(), key)
    }
}

/// The field of an object, if the value is an object and has it.
pub open spec fn jfield(v: JsonValue, key: Seq<char>) -> Option<JsonValue> {
    match v {
        JsonValue::Obj(entries) => lookup_entries(entries@, key),
        _ => None,
    }
}

/// Looks a field up in an object.
pub fn obj_get<'a>(v: &'a JsonValue, key: &str) -> (r: Option<&'a JsonValue>)
    ensures
        match r {
            Some(x) => jfield(*v, key@) == Some(*x),
            None => jfield(*v, key@) is None,
        },
{
    match v {
        JsonValue::Obj(entries) => {
            let n = entries.len();
            let mut i: usize = 0;
            proof {
                assert(entries@.skip(0) =~= entries@);
            }
            while i < n
                invariant
                    0 <= i <= n,
                    n == entries@.len(),
                    jfield(*v, key@) == lookup_entries(entries@, key@),
                    lookup_entries(entries@, key@) == lookup_entries(
                        entries@.skip(i as int),
                        key@,
                    ),
                decreases n - i,
            {
                if entries[i].0.as_str().eq(key) {
                    proof {
                        assert(entries@.skip(i as int)[0] == entries@[i as int]);
                        assert(entries@[i as int].0@ == key@);
                        assert(lookup_entries(entries@.skip(i as int), key@) == Some(
                            entries@[i as int].1,
                        ));
                    }
                    return Some(&entries[i].1);
                }
                proof {
                    assert(entries@.skip(i as int)[0] == entries@[i as int]);
                    assert(entries@.skip(i as int).drop_first() =~= entries@.skip(i + 1));
                }
                i += 1;
            }
            proof {
                assert(entries@.skip(n as int).len() == 0);
            }
            None
        },
        _ => None,
    }
}

/// A required field holding a JSON string.
pub open spec fn spec_str_field(v: JsonValue, key: Seq<char>) -> Result<Seq<char>, DecodeError> {
    match jfield(v, key) {
        None => Err(DecodeError::MissingField),
        Some(x) => match x {
            JsonValue::Str(s) => Ok(s@),
            _ => Err(DecodeError::InvalidType),
        },
    }
}

pub fn get_str_field(v: &JsonValue, key: &str) -> (r: Result<String, DecodeError>)
    ensures
        match r {
            Ok(s) => spec_str_field(*v, key@) == Ok::<Seq<char>, DecodeError>(s@),
            Err(e) => spec_str_field(*v, key@) == Err::<Seq<char>, DecodeError>(e),
        },
{
    match obj_get(v, key) {
        None => Err(DecodeError::MissingField),
        Some(x) => match x {
            JsonValue::Str(s) => Ok(s.clone()),
            _ => Err(DecodeError::InvalidType),
        },
    }
}

/// A required field holding a JSON boolean.
pub open spec fn spec_bool_field(v: JsonValue, key: Seq<char>) -> Result<bool, DecodeError> {
    match jfield(v, key) {
        None => Err(DecodeError::MissingField),
        Some(x) => match x {
            JsonValue::Bool(b) => Ok(b),
            _ => Err(DecodeError::InvalidType),
        },
    }
}

pub fn get_bool_field(v: &JsonValue, key: &str) -> (r: Result<bool, DecodeError>)
    ensures
        match r {
            Ok(b) => spec_bool_field(*v, key@) == Ok::<bool, DecodeError>(b),
            Err(e) => spec_bool_field(*v, key@) == Err::<bool, DecodeError>(e),
        },
{
    match obj_get(v, key) {
        None => Err(DecodeError::MissingField),
        Some(x) => match x {
            JsonValue::Bool(b) => Ok(*b),
            _ => Err(DecodeError::InvalidType),
        },
    }
}

/// A required field holding an unsigned integer number.
pub open spec fn spec_u128_field(v: JsonValue, key: Seq<char>) -> Result<u128, DecodeError> {
    match jfield(v, key) {
        None => Err(DecodeError::MissingField),
        Some(x) => match x {
            JsonValue::Num(t) => if crate::numeric::is_count(t@) && crate::numeric::uint_val(t@)
                <= u128::MAX {
                Ok(crate::numeric::uint_val(t@) as u128)
            } else {
                Err(DecodeError::InvalidNumber)
            },
            _ => Err(DecodeError::InvalidType),
        },
    }
}

pub fn get_u128_field(v: &JsonValue, key: &str) -> (r: Result<u128, DecodeError>)
    ensures
        match r {
            Ok(n) => spec_u128_field(*v, key@) == Ok::<u128, DecodeError>(n),
            Err(e) => spec_u128_field(*v, key@) == Err::<u128, DecodeError>(e),
        },
{
    match obj_get(v, key) {
        None => Err(DecodeError::MissingField),
        Some(x) => match x {
            JsonValue::Num(t) => match crate::numeric::parse_u128_text(t.as_str()) {
                Some(n) => Ok(n),
                None => Err(DecodeError::InvalidNumber),
            },
            _ => Err(DecodeError::InvalidType),
        },
    }
}

/// An optional field holding an unsigned integer number; absence and
/// null both mean no value.
pub open spec fn spec_opt_u128_field(v: JsonValue, key: Seq<char>) -> Result<
    Option<u128>,
    DecodeError,
> {
    match jfield(v, key) {
        None => Ok(None),
        Some(x) => match x {
            JsonValue::Null => Ok(None),
            JsonValue::Num(t) => if crate::numeric::is_count(t@) && crate::numeric::uint_val(t@)
                <= u128::MAX {
                Ok(Some(crate::numeric::uint_val(t@) as u128))
            } else {
                Err(DecodeError::InvalidNumber)
            },
            _ => Err(DecodeError::InvalidType),
        },
    }
}

pub fn get_opt_u128_field(v: &JsonValue, key: &str) -> (r: Result<Option<u128>, DecodeError>)
    ensures
        match r {
            Ok(n) => spec_opt_u128_field(*v, key@) == Ok::<Option<u128>, DecodeError>(n),
            Err(e) => spec_opt_u128_field(*v, key@) == Err::<Option<u128>, DecodeError>(e),
        },
{
    match obj_get(v, key) {
        None => Ok(None),
        Some(x) => match x {
            JsonValue::Null => Ok(None),
            JsonValue::Num(t) => match crate::numeric::parse_u128_text(t.as_str()) {
                Some(n) => Ok(Some(n)),
                None => Err(DecodeError::InvalidNumber),
            },
            _ => Err(DecodeError::InvalidType),
        },
    }
}

/// A required field holding an unsigned number that fits in 32 bits.
pub open spec fn spec_u32_field(v: JsonValue, key: Seq<char>) -> Result<u32, DecodeError> {
    match jfield(v, key) {
        None => Err(DecodeError::MissingField),
        Some(x) => match x {
            JsonValue::Num(t) => if crate::numeric::is_count(t@) && crate::numeric::uint_val(t@)
                <= u32::MAX {
                Ok(crate::numeric::uint_val(t@) as u32)
            } else {
                Err(DecodeError::InvalidNumber)
            },
            _ => Err(DecodeError::InvalidType),
        },
    }
}

pub fn get_u32_field(v: &JsonValue, key: &str) -> (r: Result<u32, DecodeError>)
    ensures
        match r {
            Ok(n) => spec_u32_field(*v, key@) == Ok::<u32, DecodeError>(n),
            Err(e) => spec_u32_field(*v, key@) == Err::<u32, DecodeError>(e),
        },
{
    match obj_get(v, key) {
        None => Err(DecodeError::MissingField),
        Some(x) => match x {
            JsonValue::Num(t) => match crate::numeric::parse_u128_text(t.as_str()) {
                Some(n) => if n <= 0xffff_ffffu128 {
                    Ok(n as u32)
                } else {
                    Err(DecodeError::InvalidNumber)
                },
                None => Err(DecodeError::InvalidNumber),
            },
            _ => Err(DecodeError::InvalidType),
        },
    }
}

/// A required field holding a signed integer that fits in 64 bits.
pub open spec fn spec_i64_field(v: JsonValue, key: Seq<char>) -> Result<i64, DecodeError> {
    match jfield(v, key) {
        None => Err(DecodeError::MissingField),
        Some(x) => match x {
            JsonValue::Num(t) => if crate::numeric::is_int_text(t@) && i64::MIN
                <= crate::numeric::int_val(t@) && crate::numeric::int_val(t@) <= i64::MAX {
                Ok(crate::numeric::int_val(t@) as i64)
            } else {
                Err(DecodeError::InvalidNumber)
            },
            _ => Err(DecodeError::InvalidType),
        },
    }
}

pub fn get_i64_field(v: &JsonValue, key: &str) -> (r: Result<i64, DecodeError>)
    ensures
        match r {
            Ok(n) => spec_i64_field(*v, key@) == Ok::<i64, DecodeError>(n),
            Err(e) => spec_i64_field(*v, key@) == Err::<i64, DecodeError>(e),
        },
{
    match obj_get(v, key) {
        None => Err(DecodeError::MissingField),
        Some(x) => match x {
            JsonValue::Num(t) => match crate::numeric::parse_i64_text(t.as_str()) {
                Some(n) => Ok(n),
                None => Err(DecodeError::InvalidNumber),
            },
            _ => Err(DecodeError::InvalidType),
        },
    }
}

/// A required field holding a signed integer that fits in 32 bits.
pub open spec fn spec_i32_field(v: JsonValue, key: Seq<char>) -> Result<i32, DecodeError> {
    match jfield(v, key) {
        None => Err(DecodeError::MissingField),
        Some(x) => match x {
            JsonValue::Num(t) => if crate::numeric::is_int_text(t@) && i32::MIN
                <= crate::numeric::int_val(t@) && crate::numeric::int_val(t@) <= i32::MAX {
                Ok(crate::numeric::int_val(t@) as i32)
            } else {
                Err(DecodeError::InvalidNumber)
            },
            _ => Err(DecodeError::InvalidType),
        },
    }
}

pub fn get_i32_field(v: &JsonValue, key: &str) -> (r: Result<i32, DecodeError>)
    ensures
        match r {
            Ok(n) => spec_i32_field(*v, key@) == Ok::<i32, DecodeError>(n),
            Err(e) => spec_i32_field(*v, key@) == Err::<i32, DecodeError>(e),
        },
{
    match obj_get(v, key) {
        None => Err(DecodeError::MissingField),
        Some(x) => match x {
            JsonValue::Num(t) => match crate::numeric::parse_i64_text(t.as_str()) {
                Some(n) => if -2147483648i64 <= n && n <= 2147483647i64 {
                    Ok(n as i32)
                } else {
                    Err(DecodeError::InvalidNumber)
                },
                None => Err(DecodeError::InvalidNumber),
            },
            _ => Err(DecodeError::InvalidType),
        },
    }
}

/// A required field holding an array of JSON strings.
pub open spec fn spec_str_arr_field(v: JsonValue, key: Seq<char>) -> Result<
    Seq<Seq<char>>,
    DecodeError,
> {
    match jfield(v, key) {
        None => Err(DecodeError::MissingField),
        Some(x) => match x {
            JsonValue::Arr(elems) => if forall|j: int|
                0 <= j < elems@.len() ==> elems@[j] is Str {
                Ok(elems@.map_values(|e: JsonValue| e->Str_0@))
            } else {
                Err(DecodeError::InvalidType)
            },
            _ => Err(DecodeError::InvalidType),
        },
    }
}

pub fn get_str_arr_field(v: &JsonValue, key: &str) -> (r: Result<Vec<String>, DecodeError>)
    ensures
        match r {
            Ok(ss) => spec_str_arr_field(*v, key@) == Ok::<Seq<Seq<char>>, DecodeError>(
                ss@.map_values(|s: String| s@),
            ),
            Err(e) => spec_str_arr_field(*v, key@) == Err::<Seq<Seq<char>>, DecodeError>(e),
        },
{
    match obj_get(v, key) {
        None => Err(DecodeError::MissingField),
        Some(x) => match x {
            JsonValue::Arr(elems) => {
                let n = elems.len();
                let mut out: Vec<String> = Vec::new();
                let mut i: usize = 0;
                while i < n
                    invariant
                        0 <= i <= n,
                        n == elems@.len(),
                        out@.len() == i,
                        jfield(*v, key@) == Some(JsonValue::Arr(*elems)),
                        forall|j: int| 0 <= j < i ==> elems@[j] is Str,
                        forall|j: int| 0 <= j < i ==> out@[j]@ == elems@[j]->Str_0@,
                    decreases n - i,
                {
                    match &elems[i] {
                        JsonValue::Str(s) => {
                            out.push(s.clone());
                        },
                        _ => {
                            proof {
                                assert(!(elems@[i as int] is Str));
                            }
                            return Err(DecodeError::InvalidType);
                        },
                    }
                    i += 1;
                }
                proof {
                    assert(out@.map_values(|s: String| s@) =~= elems@.map_values(
                        |e: JsonValue| e->Str_0@,
                    ));
                }
                Ok(out)
            },
            _ => Err(DecodeError::InvalidType),
        },
    }
}

/// A required field holding an array of signed 32-bit numbers.
pub open spec fn spec_i32_arr_field(v: JsonValue, key: Seq<char>) -> Result<
    Seq<int>,
    DecodeError,
> {
    match jfield(v, key) {
        None => Err(DecodeError::MissingField),
        Some(x) => match x {
            JsonValue::Arr(elems) => if forall|j: int|
                0 <= j < elems@.len() ==> elems@[j] is Num && crate::numeric::is_int_text(
                    elems@[j]->Num_0@,
                ) && i32::MIN <= crate::numeric::int_val(elems@[j]->Num_0@)
                    && crate::numeric::int_val(elems@[j]->Num_0@) <= i32::MAX {
                Ok(elems@.map_values(|e: JsonValue| crate::numeric::int_val(e->Num_0@)))
            } else {
                Err(DecodeError::InvalidNumber)
            },
            _ => Err(DecodeError::InvalidType),
        },
    }
}

pub fn get_i32_arr_field(v: &JsonValue, key: &str) -> (r: Result<Vec<i32>, DecodeError>)
    ensures
        match r {
            Ok(ns) => spec_i32_arr_field(*v, key@) == Ok::<Seq<int>, DecodeError>(
                ns@.map_values(|x: i32| x as int),
            ),
            Err(e) => spec_i32_arr_field(*v, key@) == Err::<Seq<int>, DecodeError>(e),
        },
{
    match obj_get(v, key) {
        None => Err(DecodeError::MissingField),
        Some(x) => match x {
            JsonValue::Arr(elems) => {
                let n = elems.len();
                let mut out: Vec<i32> = Vec::new();
                let mut i: usize = 0;
                while i < n
                    invariant
                        0 <= i <= n,
                        n == elems@.len(),
                        out@.len() == i,
                        jfield(*v, key@) == Some(JsonValue::Arr(*elems)),
                        forall|j: int|
                            0 <= j < i ==> elems@[j] is Num && crate::numeric::is_int_text(
                                elems@[j]->Num_0@,
                            ) && i32::MIN <= crate::numeric::int_val(elems@[j]->Num_0@)
                                && crate::numeric::int_val(elems@[j]->Num_0@) <= i32::MAX,
                        forall|j: int|
                            0 <= j < i ==> out@[j] as int == crate::numeric::int_val(
                                elems@[j]->Num_0@,
                            ),
                    decreases n - i,
                {
                    match &elems[i] {
                        JsonValue::Num(t) => {
                            proof {
                                assert(elems@[i as int]->Num_0@ == t@);
                            }
                            match crate::numeric::parse_i64_text(t.as_str()) {
                                Some(m) => {
                                    if -2147483648i64 <= m && m <= 2147483647i64 {
                                        out.push(m as i32);
                                    } else {
                                        return Err(DecodeError::InvalidNumber);
                                    }
                                },
                                None => {
                                    return Err(DecodeError::InvalidNumber);
                                },
                            }
                        },
                        _ => {
                            proof {
                                assert(!(elems@[i as int] is Num));
                            }
                            return Err(DecodeError::InvalidNumber);
                        },
                    }
                    i += 1;
                }
                proof {
                    assert(out@.map_values(|x: i32| x as int) =~= elems@.map_values(
                        |e: JsonValue| crate::numeric::int_val(e->Num_0@),
                    ));
                }
                Ok(out)
            },
            _ => Err(DecodeError::InvalidType),
        },
    }
}

/// An optional field holding a JSON string; absence and null both mean
/// no value.
pub open spec fn spec_opt_str_field(v: JsonValue, key: Seq<char>) -> Result<
    Option<Seq<char>>,
    DecodeError,
> {
    match jfield(v, key) {
        None => Ok(None),
        Some(x) => match x {
            JsonValue::Null => Ok(None),
            JsonValue::Str(s) => Ok(Some(s@)),
            _ => Err(DecodeError::InvalidType),
        },
    }
}

pub fn get_opt_str_field(v: &JsonValue, key: &str) -> (r: Result<Option<String>, DecodeError>)
    ensures
        match r {
            Ok(s) => spec_opt_str_field(*v, key@) == Ok::<Option<Seq<char>>, DecodeError>(
                match s {
                    Some(t) => Some(t@),
                    None => None,
                },
            ),
            Err(e) => spec_opt_str_field(*v, key@) == Err::<Option<Seq<char>>, DecodeError>(e),
        },
{
    match obj_get(v, key) {
        None => Ok(None),
        Some(x) => match x {
            JsonValue::Null => Ok(None),
            JsonValue::Str(s) => Ok(Some(s.clone())),
            _ => Err(DecodeError::InvalidType),
        },
    }
}

/// A required field that must be a JSON number proper (a string is not
/// accepted here).
pub open spec fn spec_strict_num_field(v: JsonValue, key: Seq<char>) -> Result<
    Seq<char>,
    DecodeError,
> {
    match jfield(v, key) {
        None => Err(DecodeError::MissingField),
        Some(x) => match x {
            JsonValue::Num(t) => if is_float_text(t@) {
                Ok(t@)
            } else {
                Err(DecodeError::InvalidNumber)
            },
            _ => Err(DecodeError::InvalidType),
        },
    }
}

pub fn get_strict_num_field(v: &JsonValue, key: &str) -> (r: Result<Decimal, DecodeError>)
    ensures
        match r {
            Ok(d) => spec_strict_num_field(*v, key@) == Ok::<Seq<char>, DecodeError>(d@)
                && d.wf(),
            Err(e) => spec_strict_num_field(*v, key@) == Err::<Seq<char>, DecodeError>(e),
        },
{
    match obj_get(v, key) {
        None => Err(DecodeError::MissingField),
        Some(x) => match x {
            JsonValue::Num(t) => Decimal::from_str(t.as_str()),
            _ => Err(DecodeError::InvalidType),
        },
    }
}

/// A required numeric field, decoded with the string-or-number-or-null
/// rules.
pub open spec fn spec_num_field(v: JsonValue, key: Seq<char>) -> Result<Seq<char>, DecodeError> {
    match jfield(v, key) {
        None => Err(DecodeError::MissingField),
        Some(x) => spec_decode_number(x),
    }
}

pub fn get_num_field(v: &JsonValue, key: &str) -> (r: Result<Decimal, DecodeError>)
    ensures
        match r {
            Ok(d) => spec_num_field(*v, key@) == Ok::<Seq<char>, DecodeError>(d@) && d.wf(),
            Err(e) => spec_num_field(*v, key@) == Err::<Seq<char>, DecodeError>(e),
        },
{
    match obj_get(v, key) {
        None => Err(DecodeError::MissingField),
        Some(x) => decode_number(x),
    }
}

/// How a JSON value in a numeric position decodes: the text of a string or
/// number in the float grammar, zero for null, and a failure for anything
/// else.
pub open spec fn spec_decode_number(v: JsonValue) -> Result<Seq<char>, DecodeError> {
    match v {
        JsonValue::Str(s) => if is_float_text(s@) {
            Ok(s@)
        } else {
            Err(DecodeError::InvalidNumber)
        },
        JsonValue::Num(t) => if is_float_text(t@) {
            Ok(t@)
        } else {
            Err(DecodeError::InvalidNumber)
        },
        JsonValue::Null => Ok(seq!['0']),
        _ => Err(DecodeError::InvalidType),
    }
}

/// Decoding a well-formed string or number in a numeric position keeps
/// the value exactly: what was decoded re-serializes to the original
/// text, character for character.
pub proof fn lemma_decode_number_round_trip(v: JsonValue)
    requires
        (v matches JsonValue::Str(s) && is_float_text(s@)) || (v matches JsonValue::Num(t)
            && is_float_text(t@)),
    ensures
        spec_decode_number(v) == Ok::<Seq<char>, DecodeError>(
            match v {
                JsonValue::Str(s) => s@,
                JsonValue::Num(t) => t@,
                _ => Seq::empty(),
            },
        ),
{
}

/// Null in a numeric position always decodes to zero.
pub proof fn lemma_decode_number_null()
    ensures
        spec_decode_number(JsonValue::Null) == Ok::<Seq<char>, DecodeError>(seq!['0']),
{
}

/// A boolean, array or object in a numeric position always fails.
pub proof fn lemma_decode_number_rejects(v: JsonValue)
    requires
        v is Bool || v is Arr || v is Obj,
    ensures
        spec_decode_number(v) == Err::<Seq<char>, DecodeError>(DecodeError::InvalidType),
{
}

/// Decodes a numeric field: the exchange sends such fields as strings, as
/// numbers, or as null, which stands for zero. A boolean, array or object
/// in that position fails.
pub fn decode_number(v: &JsonValue) -> (r: Result<Decimal, DecodeError>)
    ensures
        match r {
            Ok(d) => spec_decode_number(*v) == Ok::<Seq<char>, DecodeError>(d@) && d.wf(),
            Err(e) => spec_decode_number(*v) == Err::<Seq<char>, DecodeError>(e),
        },
{
    match v {
        JsonValue::Str(s) => Decimal::from_str(s.as_str()),
        JsonValue::Num(t) => Decimal::from_str(t.as_str()),
        JsonValue::Null => Ok(Decimal::zero()),
        _ => Err(DecodeError::InvalidType),
    }
}

} // verus!
