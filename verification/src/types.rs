//! The data types of the API: the content tree a page body is made of, the
//! response payloads, and the `{ok, result, error}` envelope every response
//! arrives in.

pub mod account;
pub mod media;
pub mod node;
pub mod node_element;
pub mod page;
pub mod page_list;
pub mod page_views;

pub use self::account::Account;
pub use self::account::AccountField;
pub use self::account::AccountV;
pub use self::media::Media;
pub use self::media::MediaV;
pub use self::media::UploadResult;
pub use self::node::Node;
pub use self::node::NodeV;
pub use self::node_element::NodeElement;
pub use self::node_element::NodeElementAttr;
pub use self::node_element::NodeElementV;
pub use self::node_element::NodeTag;
pub use self::node_element::AttrV;
pub use self::page::Page;
pub use self::page::PageV;
pub use self::page_list::PageList;
pub use self::page_list::PageListV;
pub use self::page_views::PageViews;
pub use self::page_views::PageViewsV;

use crate::chars::chars_to_string;
use crate::error::ErrV;
use crate::error::TelegraphError;
use crate::json::jsonv_of_members;
use crate::json::json_obj_get;
use crate::json::obj_lookup;
use crate::json::parse_json;
use crate::json::JsonV;
use crate::json::JsonValue;
use vstd::prelude::*;

verus! {

/// Marker for the payload types an API response can carry.
pub trait TelegraphType {

}

/// The envelope every API response is decoded into: `result` is the payload
/// when `ok` is true, `error` the server's message when it is false.
pub struct TelegraphResult<T: TelegraphType> {
    /// Whether the request succeeded.
    pub ok: bool,
    /// The payload, present when `ok` is true.
    pub result: Option<T>,
    /// The server's error, present when `ok` is false.
    pub error: Option<TelegraphError>,
}

/// Detail text used when a response body cannot be decoded.
pub open spec fn bad_body_note() -> Seq<char> {
    "unexpected response body"@
}

/// Turns a decoded envelope into the caller's single result: the payload when
/// `ok` is true and present; the server's error when `ok` is false and
/// present; a decode error when the envelope breaks its own invariant.
pub fn unwrap_result<T: TelegraphType>(r: TelegraphResult<T>) -> (out: Result<T, TelegraphError>)
    ensures
        r.ok && r.result is Some ==> out == Ok::<T, TelegraphError>(r.result->0),
        r.ok && r.result is None ==> (out matches Err(e) && e@ == ErrV::ParseError(
            bad_body_note(),
        )),
        !r.ok && r.error is Some ==> out == Err::<T, TelegraphError>(r.error->0),
        !r.ok && r.error is None ==> (out matches Err(e) && e@ == ErrV::ParseError(
            bad_body_note(),
        )),
{
    if r.ok {
        match r.result {
            Some(v) => Ok(v),
            None => Err(
                TelegraphError::ParseError(String::from_str("unexpected response body")),
            ),
        }
    } else {
        match r.error {
            Some(e) => Err(e),
            None => Err(
                TelegraphError::ParseError(String::from_str("unexpected response body")),
            ),
        }
    }
}

/// Detail text used when a response body is not valid JSON.
pub open spec fn bad_json_note() -> Seq<char> {
    "invalid json"@
}

/// An optional string field: absent or null is `None`; any other non-string
/// value is a decode failure.
pub open spec fn str_opt_field(ms: Seq<(Seq<char>, JsonV)>, key: Seq<char>) -> Option<
    Option<Seq<char>>,
> {
    match obj_lookup(ms, key) {
        None => Some(None),
        Some(JsonV::Null) => Some(None),
        Some(JsonV::Str(s)) => Some(Some(s)),
        Some(_) => None,
    }
}

/// An optional integer field within a range; out-of-range or non-integer
/// values are a decode failure.
pub open spec fn int_opt_field(ms: Seq<(Seq<char>, JsonV)>, key: Seq<char>, lo: int, hi: int)
    -> Option<Option<int>> {
    match obj_lookup(ms, key) {
        None => Some(None),
        Some(JsonV::Null) => Some(None),
        Some(JsonV::Int(i)) => if lo <= i <= hi {
            Some(Some(i))
        } else {
            None
        },
        Some(_) => None,
    }
}

/// An optional boolean field.
pub open spec fn bool_opt_field(ms: Seq<(Seq<char>, JsonV)>, key: Seq<char>) -> Option<
    Option<bool>,
> {
    match obj_lookup(ms, key) {
        None => Some(None),
        Some(JsonV::Null) => Some(None),
        Some(JsonV::Bool(b)) => Some(Some(b)),
        Some(_) => None,
    }
}

/// A required string field.
pub open spec fn str_req_field(ms: Seq<(Seq<char>, JsonV)>, key: Seq<char>) -> Option<Seq<char>> {
    match obj_lookup(ms, key) {
        Some(JsonV::Str(s)) => Some(s),
        _ => None,
    }
}

/// A required integer field within a range.
pub open spec fn int_req_field(ms: Seq<(Seq<char>, JsonV)>, key: Seq<char>, lo: int, hi: int)
    -> Option<int> {
    match obj_lookup(ms, key) {
        Some(JsonV::Int(i)) => if lo <= i <= hi {
            Some(i)
        } else {
            None
        },
        _ => None,
    }
}

/// Reads an optional string field from wire members.
pub fn get_str_opt(ms: &Vec<(Vec<char>, JsonValue)>, key: &str) -> (r: Option<Option<String>>)
    ensures
        match r {
            Some(Some(s)) => str_opt_field(jsonv_of_members(ms@), key@) == Some(Some(s@)),
            Some(None) => str_opt_field(jsonv_of_members(ms@), key@) == Some(
                None::<Seq<char>>,
            ),
            None => str_opt_field(jsonv_of_members(ms@), key@) is None,
        },
{
    match json_obj_get(ms, key) {
        None => Some(None),
        Some(JsonValue::Null) => Some(None),
        Some(JsonValue::Str(s)) => Some(Some(chars_to_string(s))),
        Some(_) => None,
    }
}

/// Reads an optional ranged integer field from wire members.
pub fn get_int_opt(ms: &Vec<(Vec<char>, JsonValue)>, key: &str, lo: i64, hi: i64) -> (r: Option<
    Option<i64>,
>)
    ensures
        match r {
            Some(Some(i)) => int_opt_field(jsonv_of_members(ms@), key@, lo as int, hi as int)
                == Some(Some(i as int)) && lo <= i <= hi,
            Some(None) => int_opt_field(jsonv_of_members(ms@), key@, lo as int, hi as int) == Some(
                None::<int>,
            ),
            None => int_opt_field(jsonv_of_members(ms@), key@, lo as int, hi as int) is None,
        },
{
    match json_obj_get(ms, key) {
        None => Some(None),
        Some(JsonValue::Null) => Some(None),
        Some(JsonValue::Int(i)) => if lo <= *i && *i <= hi {
            Some(Some(*i))
        } else {
            None
        },
        Some(_) => None,
    }
}

/// Reads an optional boolean field from wire members.
pub fn get_bool_opt(ms: &Vec<(Vec<char>, JsonValue)>, key: &str) -> (r: Option<Option<bool>>)
    ensures
        match r {
            Some(b) => bool_opt_field(jsonv_of_members(ms@), key@) == Some(b),
            None => bool_opt_field(jsonv_of_members(ms@), key@) is None,
        },
{
    match json_obj_get(ms, key) {
        None => Some(None),
        Some(JsonValue::Null) => Some(None),
        Some(JsonValue::Bool(b)) => Some(Some(*b)),
        Some(_) => None,
    }
}

/// Reads a required string field from wire members.
pub fn get_str_req(ms: &Vec<(Vec<char>, JsonValue)>, key: &str) -> (r: Option<String>)
    ensures
        match r {
            Some(s) => str_req_field(jsonv_of_members(ms@), key@) == Some(s@),
            None => str_req_field(jsonv_of_members(ms@), key@) is None,
        },
{
    match json_obj_get(ms, key) {
        Some(JsonValue::Str(s)) => Some(chars_to_string(s)),
        _ => None,
    }
}

/// Reads a required ranged integer field from wire members.
pub fn get_int_req(ms: &Vec<(Vec<char>, JsonValue)>, key: &str, lo: i64, hi: i64) -> (r: Option<
    i64,
>)
    ensures
        match r {
            Some(i) => int_req_field(jsonv_of_members(ms@), key@, lo as int, hi as int) == Some(
                i as int,
            ) && lo <= i <= hi,
            None => int_req_field(jsonv_of_members(ms@), key@, lo as int, hi as int) is None,
        },
{
    match json_obj_get(ms, key) {
        Some(JsonValue::Int(i)) => if lo <= *i && *i <= hi {
            Some(*i)
        } else {
            None
        },
        _ => None,
    }
}

/// The envelope parts a parsed response holds: the `ok` flag, the raw
/// `result` payload, and the `error` message. Fails when `ok` is missing or
/// not a boolean, or when `error` is neither absent nor a string.
pub open spec fn envelope_fields(j: JsonV) -> Option<(bool, Option<JsonV>, Option<Seq<char>>)> {
    match j {
        JsonV::Obj(ms) => match obj_lookup(ms, "ok"@) {
            Some(JsonV::Bool(b)) => match str_opt_field(ms, "error"@) {
                Some(err) => {
                    let result = match obj_lookup(ms, "result"@) {
                        None => None,
                        Some(JsonV::Null) => None,
                        Some(v) => Some(v),
                    };
                    Some((b, result, err))
                },
                None => None,
            },
            _ => None,
        },
        _ => None,
    }
}

/// Splits a parsed response into its envelope parts.
pub fn envelope_parts<'a>(j: &'a JsonValue) -> (r: Option<
    (bool, Option<&'a JsonValue>, Option<String>),
>)
    ensures
        match r {
            Some(p) => ({
                &&& envelope_fields(j@) matches Some(q)
                &&& q.0 == p.0
                &&& (match p.1 {
                    Some(v) => q.1 == Some(v@),
                    None => q.1 is None,
                })
                &&& (match p.2 {
                    Some(m) => q.2 == Some(m@),
                    None => q.2 is None,
                })
            }),
            None => envelope_fields(j@) is None,
        },
{
    match j {
        JsonValue::Obj(ms) => {
            let okv = match json_obj_get(ms, "ok") {
                Some(JsonValue::Bool(b)) => *b,
                _ => {
                    return None;
                },
            };
            let err = match get_str_opt(ms, "error") {
                Some(e) => e,
                None => {
                    return None;
                },
            };
            let result = match json_obj_get(ms, "result") {
                None => None,
                Some(JsonValue::Null) => None,
                Some(v) => Some(v),
            };
            Some((okv, result, err))
        },
        _ => None,
    }
}

} // verus!
