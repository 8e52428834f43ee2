//! The `editAccountInfo` builder.

use crate::chars::chars_to_string;
use crate::form::append_str;
use crate::form::append_urlenc;
use crate::form::urlenc;
use super::append_opt;
use super::field_opt;
use super::opt_str_v;
use super::AccessToken;
use super::ApiRequest;
use super::NoAccessToken;
use vstd::prelude::*;

verus! {

/// Builder of `editAccountInfo`: `access_token` is required.
pub struct EditAccountInfo<T> {
    /// The operation's endpoint URL.
    pub method_name: String,
    /// Required. Access token of the account.
    pub access_token: T,
    /// New account name.
    pub short_name: Option<String>,
    /// New default author name.
    pub author_name: Option<String>,
    /// New default profile link.
    pub author_url: Option<String>,
}

/// The form body of an `editAccountInfo` request.
pub open spec fn edit_account_info_body(
    access_token: Seq<char>,
    short_name: Option<Seq<char>>,
    author_name: Option<Seq<char>>,
    author_url: Option<Seq<char>>,
) -> Seq<char> {
    "access_token="@ + urlenc(access_token) + field_opt("&short_name="@, short_name) + field_opt(
        "&author_name="@,
        author_name,
    ) + field_opt("&author_url="@, author_url)
}

impl EditAccountInfo<NoAccessToken> {
    /// A fresh builder with nothing filled, bound to its endpoint.
    pub(crate) fn new(method_name: String) -> (r: EditAccountInfo<NoAccessToken>)
        ensures
            r.method_name@ == method_name@,
            r.short_name is None,
            r.author_name is None,
            r.author_url is None,
    {
        EditAccountInfo {
            method_name,
            access_token: NoAccessToken,
            short_name: None,
            author_name: None,
            author_url: None,
        }
    }
}

impl<T> EditAccountInfo<T> {
    /// Required. Access token of the Telegraph account.
    pub fn access_token(self, access_token: &str) -> (r: EditAccountInfo<AccessToken>)
        ensures
            r.method_name@ == self.method_name@,
            r.access_token.0@ == access_token@,
            r.short_name == self.short_name,
            r.author_name == self.author_name,
            r.author_url == self.author_url,
    {
        EditAccountInfo {
            method_name: self.method_name,
            access_token: AccessToken(String::from_str(access_token)),
            short_name: self.short_name,
            author_name: self.author_name,
            author_url: self.author_url,
        }
    }

    /// New account name.
    pub fn short_name(self, short_name: &str) -> (r: EditAccountInfo<T>)
        ensures
            r.method_name@ == self.method_name@,
            r.access_token == self.access_token,
            r.short_name matches Some(s) && s@ == short_name@,
            r.author_name == self.author_name,
            r.author_url == self.author_url,
    {
        EditAccountInfo {
            method_name: self.method_name,
            access_token: self.access_token,
            short_name: Some(String::from_str(short_name)),
            author_name: self.author_name,
            author_url: self.author_url,
        }
    }

    /// New default author name used when creating new articles.
    pub fn author_name(self, author_name: &str) -> (r: EditAccountInfo<T>)
        ensures
            r.method_name@ == self.method_name@,
            r.access_token == self.access_token,
            r.short_name == self.short_name,
            r.author_name matches Some(s) && s@ == author_name@,
            r.author_url == self.author_url,
    {
        EditAccountInfo {
            method_name: self.method_name,
            access_token: self.access_token,
            short_name: self.short_name,
            author_name: Some(String::from_str(author_name)),
            author_url: self.author_url,
        }
    }

    /// New default profile link, opened when users click on the author's
    /// name.
    pub fn author_url(self, author_url: &str) -> (r: EditAccountInfo<T>)
        ensures
            r.method_name@ == self.method_name@,
            r.access_token == self.access_token,
            r.short_name == self.short_name,
            r.author_name == self.author_name,
            r.author_url matches Some(s) && s@ == author_url@,
    {
        EditAccountInfo {
            method_name: self.method_name,
            access_token: self.access_token,
            short_name: self.short_name,
            author_name: self.author_name,
            author_url: Some(String::from_str(author_url)),
        }
    }
}

impl EditAccountInfo<AccessToken> {
    /// The ready-to-send request; only this fully-filled state has it.
    pub fn into_request(self) -> (r: ApiRequest)
        ensures
            r.url@ == self.method_name@,
            r.body@ == edit_account_info_body(
                self.access_token.0@,
                opt_str_v(self.short_name),
                opt_str_v(self.author_name),
                opt_str_v(self.author_url),
            ),
    {
        let mut out: Vec<char> = Vec::new();
        append_str("access_token=", &mut out);
        append_urlenc(self.access_token.0.as_str(), &mut out);
        append_opt("&short_name=", &self.short_name, &mut out);
        append_opt("&author_name=", &self.author_name, &mut out);
        append_opt("&author_url=", &self.author_url, &mut out);
        let body = chars_to_string(&out);
        ApiRequest { url: self.method_name, body }
    }
}

} // verus!
