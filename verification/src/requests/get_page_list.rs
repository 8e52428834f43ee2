//! The `getPageList` builder.

use crate::chars::chars_to_string;
use crate::form::append_str;
use crate::form::append_urlenc;
use crate::form::urlenc;
use crate::json::print_int;
use crate::json::write_int;
use super::AccessToken;
use super::ApiRequest;
use super::NoAccessToken;
use vstd::prelude::*;

verus! {

/// Builder of `getPageList`: `access_token` is required; `offset` and
/// `limit` default to 0 and 50 when unset.
pub struct GetPageList<T> {
    /// The operation's endpoint URL.
    pub method_name: String,
    /// Required. Access token of the account.
    pub access_token: T,
    /// Sequential number of the first page to be returned.
    pub offset: i32,
    /// Limits the number of pages to be retrieved.
    pub limit: i32,
}

/// The form body of a `getPageList` request.
pub open spec fn get_page_list_body(access_token: Seq<char>, offset: i32, limit: i32) -> Seq<
    char,
> {
    "access_token="@ + urlenc(access_token) + "&offset="@ + print_int(offset as int) + "&limit="@
        + print_int(limit as int)
}

impl GetPageList<NoAccessToken> {
    /// A fresh builder bound to its endpoint; `offset` defaults to 0 and
    /// `limit` to 50.
    pub(crate) fn new(method_name: String) -> (r: GetPageList<NoAccessToken>)
        ensures
            r.method_name@ == method_name@,
            r.offset == 0,
            r.limit == 50,
    {
        GetPageList { method_name, access_token: NoAccessToken, offset: 0, limit: 50 }
    }
}

impl<T> GetPageList<T> {
    /// Required. Access token of the Telegraph account.
    pub fn access_token(self, access_token: &str) -> (r: GetPageList<AccessToken>)
        ensures
            r.method_name@ == self.method_name@,
            r.access_token.0@ == access_token@,
            r.offset == self.offset,
            r.limit == self.limit,
    {
        GetPageList {
            method_name: self.method_name,
            access_token: AccessToken(String::from_str(access_token)),
            offset: self.offset,
            limit: self.limit,
        }
    }

    /// Sequential number of the first page to be returned.
    pub fn offset(self, offset: i32) -> (r: GetPageList<T>)
        ensures
            r.method_name@ == self.method_name@,
            r.access_token == self.access_token,
            r.offset == offset,
            r.limit == self.limit,
    {
        GetPageList {
            method_name: self.method_name,
            access_token: self.access_token,
            offset,
            limit: self.limit,
        }
    }

    /// Limits the number of pages to be retrieved.
    pub fn limit(self, limit: i32) -> (r: GetPageList<T>)
        ensures
            r.method_name@ == self.method_name@,
            r.access_token == self.access_token,
            r.offset == self.offset,
            r.limit == limit,
    {
        GetPageList {
            method_name: self.method_name,
            access_token: self.access_token,
            offset: self.offset,
            limit,
        }
    }
}

impl GetPageList<AccessToken> {
    /// The ready-to-send request; only this fully-filled state has it.
    pub fn into_request(self) -> (r: ApiRequest)
        ensures
            r.url@ == self.method_name@,
            r.body@ == get_page_list_body(self.access_token.0@, self.offset, self.limit),
    {
        let mut out: Vec<char> = Vec::new();
        append_str("access_token=", &mut out);
        append_urlenc(self.access_token.0.as_str(), &mut out);
        append_str("&offset=", &mut out);
        write_int(self.offset as i64, &mut out);
        append_str("&limit=", &mut out);
        write_int(self.limit as i64, &mut out);
        let body = chars_to_string(&out);
        ApiRequest { url: self.method_name, body }
    }
}

} // verus!
