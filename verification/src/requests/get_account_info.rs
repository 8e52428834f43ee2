//! The `getAccountInfo` builder.

use crate::chars::chars_to_string;
use crate::form::append_str;
use crate::form::append_urlenc;
use crate::form::urlenc;
use crate::json::print_jsonv;
use crate::types::account::fields_jsonv;
use crate::types::AccountField;
use super::AccessToken;
use super::ApiFieldSerializer;
use super::ApiRequest;
use super::NoAccessToken;
use vstd::prelude::*;

verus! {

/// Builder of `getAccountInfo`: `access_token` is required; absent an
/// explicit `fields` call, the `{short_name, author_name, author_url}`
/// subset is requested.
pub struct GetAccountInfo<T> {
    /// The operation's endpoint URL.
    pub method_name: String,
    /// Required. Access token of the account.
    pub access_token: T,
    /// List of account fields to return.
    pub fields: Option<Vec<AccountField>>,
}

/// The JSON text the `fields` form value carries.
pub open spec fn fields_text(fs: Option<Seq<AccountField>>) -> Seq<char> {
    match fs {
        Some(l) => print_jsonv(fields_jsonv(l)),
        None => "null"@,
    }
}

/// The field list a builder's state holds.
pub open spec fn fields_v(fs: Option<Vec<AccountField>>) -> Option<Seq<AccountField>> {
    match fs {
        Some(l) => Some(l@),
        None => None,
    }
}

/// The form body of a `getAccountInfo` request.
pub open spec fn get_account_info_body(
    access_token: Seq<char>,
    fields: Option<Seq<AccountField>>,
) -> Seq<char> {
    "access_token="@ + urlenc(access_token) + "&fields="@ + urlenc(fields_text(fields))
}

impl GetAccountInfo<NoAccessToken> {
    /// A fresh builder bound to its endpoint; the field list defaults to
    /// `{short_name, author_name, author_url}`.
    pub(crate) fn new(method_name: String) -> (r: GetAccountInfo<NoAccessToken>)
        ensures
            r.method_name@ == method_name@,
            r.fields matches Some(fs) && fs@ =~= seq![
                AccountField::ShortName,
                AccountField::AuthorName,
                AccountField::AuthorUrl,
            ],
    {
        let mut fs: Vec<AccountField> = Vec::new();
        fs.push(AccountField::ShortName);
        fs.push(AccountField::AuthorName);
        fs.push(AccountField::AuthorUrl);
        GetAccountInfo { method_name, access_token: NoAccessToken, fields: Some(fs) }
    }
}

impl<T> GetAccountInfo<T> {
    /// Required. Access token of the Telegraph account.
    pub fn access_token(self, access_token: &str) -> (r: GetAccountInfo<AccessToken>)
        ensures
            r.method_name@ == self.method_name@,
            r.access_token.0@ == access_token@,
            r.fields == self.fields,
    {
        GetAccountInfo {
            method_name: self.method_name,
            access_token: AccessToken(String::from_str(access_token)),
            fields: self.fields,
        }
    }

    /// List of account fields to return.
    pub fn fields(self, fields: Vec<AccountField>) -> (r: GetAccountInfo<T>)
        ensures
            r.method_name@ == self.method_name@,
            r.access_token == self.access_token,
            r.fields matches Some(fs) && fs@ == fields@,
    {
        GetAccountInfo {
            method_name: self.method_name,
            access_token: self.access_token,
            fields: Some(fields),
        }
    }
}

impl GetAccountInfo<AccessToken> {
    /// The ready-to-send request; only this fully-filled state has it.
    pub fn into_request(self) -> (r: ApiRequest)
        ensures
            r.url@ == self.method_name@,
            r.body@ == get_account_info_body(self.access_token.0@, fields_v(self.fields)),
    {
        let mut out: Vec<char> = Vec::new();
        append_str("access_token=", &mut out);
        append_urlenc(self.access_token.0.as_str(), &mut out);
        append_str("&fields=", &mut out);
        match &self.fields {
            Some(fs) => {
                let text = ApiFieldSerializer::serialize_fields(fs);
                append_urlenc(text.as_str(), &mut out);
            },
            None => {
                append_urlenc("null", &mut out);
            },
        }
        let body = chars_to_string(&out);
        ApiRequest { url: self.method_name, body }
    }
}

} // verus!
