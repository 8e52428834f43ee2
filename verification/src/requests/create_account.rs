//! The `createAccount` builder.

use crate::chars::chars_to_string;
use crate::form::append_str;
use crate::form::append_urlenc;
use crate::form::urlenc;
use super::append_opt;
use super::field_opt;
use super::opt_str_v;
use super::ApiRequest;
use vstd::prelude::*;

verus! {

/// Short name of the empty state type.
pub struct NoShortName;

/// Short name of the filled state type.
pub struct ShortName(pub String);

/// Builder of `createAccount`: `short_name` is required; `send` material is
/// reachable only once it is filled.
pub struct CreateAccount<N> {
    /// The operation's endpoint URL.
    pub method_name: String,
    /// Required. Account name.
    pub short_name: N,
    /// Default author name.
    pub author_name: Option<String>,
    /// Default profile link.
    pub author_url: Option<String>,
}

/// The form body of a `createAccount` request.
pub open spec fn create_account_body(
    short_name: Seq<char>,
    author_name: Option<Seq<char>>,
    author_url: Option<Seq<char>>,
) -> Seq<char> {
    "short_name="@ + urlenc(short_name) + field_opt("&author_name="@, author_name) + field_opt(
        "&author_url="@,
        author_url,
    )
}

impl CreateAccount<NoShortName> {
    /// A fresh builder with nothing filled, bound to its endpoint.
    pub(crate) fn new(method_name: String) -> (r: CreateAccount<NoShortName>)
        ensures
            r.method_name@ == method_name@,
            r.author_name is None,
            r.author_url is None,
    {
        CreateAccount { method_name, short_name: NoShortName, author_name: None, author_url: None }
    }
}

impl<N> CreateAccount<N> {
    /// Required. Account name, helps users with several accounts remember
    /// which they are currently using.
    pub fn short_name(self, short_name: &str) -> (r: CreateAccount<ShortName>)
        ensures
            r.method_name@ == self.method_name@,
            r.short_name.0@ == short_name@,
            r.author_name == self.author_name,
            r.author_url == self.author_url,
    {
        CreateAccount {
            method_name: self.method_name,
            short_name: ShortName(String::from_str(short_name)),
            author_name: self.author_name,
            author_url: self.author_url,
        }
    }

    /// Default author name used when creating new articles.
    pub fn author_name(self, author_name: &str) -> (r: CreateAccount<N>)
        ensures
            r.method_name@ == self.method_name@,
            r.short_name == self.short_name,
            r.author_name matches Some(s) && s@ == author_name@,
            r.author_url == self.author_url,
    {
        CreateAccount {
            method_name: self.method_name,
            short_name: self.short_name,
            author_name: Some(String::from_str(author_name)),
            author_url: self.author_url,
        }
    }

    /// Default profile link, opened when users click on the author's name.
    pub fn author_url(self, author_url: &str) -> (r: CreateAccount<N>)
        ensures
            r.method_name@ == self.method_name@,
            r.short_name == self.short_name,
            r.author_name == self.author_name,
            r.author_url matches Some(s) && s@ == author_url@,
    {
        CreateAccount {
            method_name: self.method_name,
            short_name: self.short_name,
            author_name: self.author_name,
            author_url: Some(String::from_str(author_url)),
        }
    }
}

impl CreateAccount<ShortName> {
    /// The ready-to-send request; only this fully-filled state has it.
    pub fn into_request(self) -> (r: ApiRequest)
        ensures
            r.url@ == self.method_name@,
            r.body@ == create_account_body(
                self.short_name.0@,
                opt_str_v(self.author_name),
                opt_str_v(self.author_url),
            ),
    {
        let mut out: Vec<char> = Vec::new();
        append_str("short_name=", &mut out);
        append_urlenc(self.short_name.0.as_str(), &mut out);
        append_opt("&author_name=", &self.author_name, &mut out);
        append_opt("&author_url=", &self.author_url, &mut out);
        let body = chars_to_string(&out);
        ApiRequest { url: self.method_name, body }
    }
}

} // verus!
