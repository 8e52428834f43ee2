//! The `revokeAccessToken` builder.

use crate::chars::chars_to_string;
use crate::form::append_str;
use crate::form::append_urlenc;
use crate::form::urlenc;
use super::AccessToken;
use super::ApiRequest;
use super::NoAccessToken;
use vstd::prelude::*;

verus! {

/// Builder of `revokeAccessToken`: `access_token` is required.
pub struct RevokeAccessToken<T> {
    /// The operation's endpoint URL.
    pub method_name: String,
    /// Required. Access token of the account.
    pub access_token: T,
}

/// The form body of a `revokeAccessToken` request.
pub open spec fn revoke_access_token_body(access_token: Seq<char>) -> Seq<char> {
    "access_token="@ + urlenc(access_token)
}

impl RevokeAccessToken<NoAccessToken> {
    /// A fresh builder with nothing filled, bound to its endpoint.
    pub(crate) fn new(method_name: String) -> (r: RevokeAccessToken<NoAccessToken>)
        ensures
            r.method_name@ == method_name@,
    {
        RevokeAccessToken { method_name, access_token: NoAccessToken }
    }
}

impl<T> RevokeAccessToken<T> {
    /// Required. Access token of the Telegraph account.
    pub fn access_token(self, access_token: &str) -> (r: RevokeAccessToken<AccessToken>)
        ensures
            r.method_name@ == self.method_name@,
            r.access_token.0@ == access_token@,
    {
        RevokeAccessToken {
            method_name: self.method_name,
            access_token: AccessToken(String::from_str(access_token)),
        }
    }
}

impl RevokeAccessToken<AccessToken> {
    /// The ready-to-send request; only this fully-filled state has it.
    pub fn into_request(self) -> (r: ApiRequest)
        ensures
            r.url@ == self.method_name@,
            r.body@ == revoke_access_token_body(self.access_token.0@),
    {
        let mut out: Vec<char> = Vec::new();
        append_str("access_token=", &mut out);
        append_urlenc(self.access_token.0.as_str(), &mut out);
        let body = chars_to_string(&out);
        ApiRequest { url: self.method_name, body }
    }
}

} // verus!
