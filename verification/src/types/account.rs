//! The account payload and the account-field vocabulary.

use crate::chars::str_to_chars;
use crate::error::ErrV;
use crate::error::TelegraphError;
use crate::json::parse_json;
use crate::json::parse_json_chars;
use crate::json::JsonV;
use crate::json::JsonValue;
use super::bad_json_note;
use super::bad_body_note;
use super::envelope_fields;
use super::envelope_parts;
use super::get_int_opt;
use super::get_str_opt;
use super::int_opt_field;
use super::str_opt_field;
use vstd::prelude::*;

verus! {

broadcast use vstd::seq::group_seq_axioms;

/// The account fields a `getAccountInfo` request may ask for.
#[derive(Clone, Copy, Debug, PartialEq, Eq, Structural)]
#[allow(missing_docs)]
pub enum AccountField {
    ShortName,
    AuthorName,
    AuthorUrl,
    AuthUrl,
    PageCount,
}

/// The wire name of an account field.
pub open spec fn account_field_name(f: AccountField) -> Seq<char> {
    match f {
        AccountField::ShortName => "short_name"@,
        AccountField::AuthorName => "author_name"@,
        AccountField::AuthorUrl => "author_url"@,
        AccountField::AuthUrl => "auth_url"@,
        AccountField::PageCount => "page_count"@,
    }
}

/// The wire name of an account field, as characters.
pub fn account_field_chars(f: &AccountField) -> (v: Vec<char>)
    ensures
        v@ == account_field_name(*f),
{
    match f {
        AccountField::ShortName => str_to_chars("short_name"),
        AccountField::AuthorName => str_to_chars("author_name"),
        AccountField::AuthorUrl => str_to_chars("author_url"),
        AccountField::AuthUrl => str_to_chars("auth_url"),
        AccountField::PageCount => str_to_chars("page_count"),
    }
}

/// The wire form of a field list: a JSON array of field names.
pub open spec fn fields_jsonv(fs: Seq<AccountField>) -> JsonV {
    JsonV::Arr(field_names_jsonv(fs))
}

/// The wire forms of the field names.
pub open spec fn field_names_jsonv(fs: Seq<AccountField>) -> Seq<JsonV>
    decreases fs,
{
    if fs.len() == 0 {
        Seq::empty()
    } else {
        seq![JsonV::Str(account_field_name(fs[0]))] + field_names_jsonv(fs.drop_first())
    }
}

/// The wire forms of the field names distribute over appending one field.
pub proof fn lemma_field_names_jsonv_snoc(fs: Seq<AccountField>, f: AccountField)
    ensures
        field_names_jsonv(fs.push(f)) == field_names_jsonv(fs).push(
            JsonV::Str(account_field_name(f)),
        ),
    decreases fs.len(),
{
    if fs.len() == 0 {
        assert(fs.push(f)[0] == f);
        assert(fs.push(f).drop_first() =~= Seq::<AccountField>::empty());
        assert(field_names_jsonv(fs.push(f)) == seq![JsonV::Str(account_field_name(f))]
            + field_names_jsonv(Seq::<AccountField>::empty()));
        assert(seq![JsonV::Str(account_field_name(f))] + Seq::<JsonV>::empty() =~= Seq::<
            JsonV,
        >::empty().push(JsonV::Str(account_field_name(f))));
    } else {
        assert(fs.push(f)[0] == fs[0]);
        assert(fs.push(f).drop_first() =~= fs.drop_first().push(f));
        lemma_field_names_jsonv_snoc(fs.drop_first(), f);
        lemma_field_names_jsonv_len(fs.drop_first());
        assert(field_names_jsonv(fs.push(f)) == seq![JsonV::Str(account_field_name(fs[0]))]
            + field_names_jsonv(fs.drop_first()).push(JsonV::Str(account_field_name(f))));
        assert(seq![JsonV::Str(account_field_name(fs[0]))] + field_names_jsonv(
            fs.drop_first(),
        ).push(JsonV::Str(account_field_name(f))) =~= (seq![
            JsonV::Str(account_field_name(fs[0])),
        ] + field_names_jsonv(fs.drop_first())).push(JsonV::Str(account_field_name(f))));
        assert(field_names_jsonv(fs) == seq![JsonV::Str(account_field_name(fs[0]))]
            + field_names_jsonv(fs.drop_first()));
    }
}

/// The wire forms of the field names keep the list's length.
pub proof fn lemma_field_names_jsonv_len(fs: Seq<AccountField>)
    ensures
        field_names_jsonv(fs).len() == fs.len(),
    decreases fs.len(),
{
    if fs.len() > 0 {
        lemma_field_names_jsonv_len(fs.drop_first());
    }
}

/// Mathematical model of an [`Account`].
pub struct AccountV {
    /// Account name.
    pub short_name: Option<Seq<char>>,
    /// Default author name.
    pub author_name: Option<Seq<char>>,
    /// Profile link.
    pub author_url: Option<Seq<char>>,
    /// Access token, returned by account creation and revocation.
    pub access_token: Option<Seq<char>>,
    /// Browser authorization link, returned by revocation.
    pub auth_url: Option<Seq<char>>,
    /// Number of pages belonging to the account.
    pub page_count: Option<int>,
}

/// A Telegraph account, as the API reports it.
#[derive(Debug, Default, PartialEq)]
pub struct Account {
    /// Account name, shown to the account's owner.
    pub short_name: Option<String>,
    /// Default author name used when creating new articles.
    pub author_name: Option<String>,
    /// Profile link, opened when readers click the author's name.
    pub author_url: Option<String>,
    /// Access token; only returned by `createAccount` and
    /// `revokeAccessToken`.
    pub access_token: Option<String>,
    /// One-use URL to authorize a browser; only returned by
    /// `revokeAccessToken`.
    pub auth_url: Option<String>,
    /// Number of pages belonging to the account.
    pub page_count: Option<i32>,
}

impl super::TelegraphType for Account {

}

impl View for Account {
    type V = AccountV;

    open spec fn view(&self) -> AccountV {
        AccountV {
            short_name: match self.short_name {
                Some(s) => Some(s@),
                None => None,
            },
            author_name: match self.author_name {
                Some(s) => Some(s@),
                None => None,
            },
            author_url: match self.author_url {
                Some(s) => Some(s@),
                None => None,
            },
            access_token: match self.access_token {
                Some(s) => Some(s@),
                None => None,
            },
            auth_url: match self.auth_url {
                Some(s) => Some(s@),
                None => None,
            },
            page_count: match self.page_count {
                Some(i) => Some(i as int),
                None => None,
            },
        }
    }
}

/// The account a wire value stands for, if well formed.
pub open spec fn account_of_jsonv(j: JsonV) -> Option<AccountV> {
    match j {
        JsonV::Obj(ms) => match str_opt_field(ms, "short_name"@) {
            None => None,
            Some(short_name) => match str_opt_field(ms, "author_name"@) {
                None => None,
                Some(author_name) => match str_opt_field(ms, "author_url"@) {
                    None => None,
                    Some(author_url) => match str_opt_field(ms, "access_token"@) {
                        None => None,
                        Some(access_token) => match str_opt_field(ms, "auth_url"@) {
                            None => None,
                            Some(auth_url) => match int_opt_field(
                                ms,
                                "page_count"@,
                                -0x8000_0000,
                                0x7fff_ffff,
                            ) {
                                None => None,
                                Some(page_count) => Some(
                                    AccountV {
                                        short_name,
                                        author_name,
                                        author_url,
                                        access_token,
                                        auth_url,
                                        page_count,
                                    },
                                ),
                            },
                        },
                    },
                },
            },
        },
        _ => None,
    }
}

/// What decoding a `createAccount`-style response body yields: the account
/// on `ok: true`, the server's message as an API error on `ok: false`, and a
/// parse error on anything malformed.
pub open spec fn account_response(s: Seq<char>) -> Result<AccountV, ErrV> {
    match parse_json(s) {
        None => Err(ErrV::ParseError(bad_json_note())),
        Some(j) => match envelope_fields(j) {
            None => Err(ErrV::ParseError(bad_body_note())),
            Some((ok, result, error)) => if ok {
                match result {
                    Some(r) => match account_of_jsonv(r) {
                        Some(a) => Ok(a),
                        None => Err(ErrV::ParseError(bad_body_note())),
                    },
                    None => Err(ErrV::ParseError(bad_body_note())),
                }
            } else {
                match error {
                    Some(m) => Err(ErrV::ApiError(m)),
                    None => Err(ErrV::ParseError(bad_body_note())),
                }
            },
        },
    }
}

impl Account {
    /// Decodes an account from a parsed wire value.
    pub fn from_json(j: &JsonValue) -> (r: Option<Account>)
        ensures
            match r {
                Some(a) => account_of_jsonv(j@) == Some(a@),
                None => account_of_jsonv(j@) is None,
            },
    {
        match j {
            JsonValue::Obj(ms) => {
                let short_name = match get_str_opt(ms, "short_name") {
                    Some(v) => v,
                    None => {
                        return None;
                    },
                };
                let author_name = match get_str_opt(ms, "author_name") {
                    Some(v) => v,
                    None => {
                        return None;
                    },
                };
                let author_url = match get_str_opt(ms, "author_url") {
                    Some(v) => v,
                    None => {
                        return None;
                    },
                };
                let access_token = match get_str_opt(ms, "access_token") {
                    Some(v) => v,
                    None => {
                        return None;
                    },
                };
                let auth_url = match get_str_opt(ms, "auth_url") {
                    Some(v) => v,
                    None => {
                        return None;
                    },
                };
                let page_count = match get_int_opt(ms, "page_count", -0x8000_0000, 0x7fff_ffff) {
                    Some(Some(i)) => Some(i as i32),
                    Some(None) => None,
                    None => {
                        return None;
                    },
                };
                Some(
                    Account {
                        short_name,
                        author_name,
                        author_url,
                        access_token,
                        auth_url,
                        page_count,
                    },
                )
            },
            _ => None,
        }
    }

    /// Decodes a response body whose payload is an account.
    pub fn from_response(body: &str) -> (r: Result<Account, TelegraphError>)
        ensures
            match r {
                Ok(a) => account_response(body@) == Ok::<AccountV, ErrV>(a@),
                Err(e) => account_response(body@) == Err::<AccountV, ErrV>(e@),
            },
    {
        let cs = str_to_chars(body);
        match parse_json_chars(&cs) {
            None => Err(TelegraphError::ParseError(String::from_str("invalid json"))),
            Some(j) => match envelope_parts(&j) {
                None => Err(
                    TelegraphError::ParseError(String::from_str("unexpected response body")),
                ),
                Some((ok, result, error)) => if ok {
                    match result {
                        Some(rv) => match Account::from_json(rv) {
                            Some(a) => Ok(a),
                            None => Err(
                                TelegraphError::ParseError(
                                    String::from_str("unexpected response body"),
                                ),
                            ),
                        },
                        None => Err(
                            TelegraphError::ParseError(
                                String::from_str("unexpected response body"),
                            ),
                        ),
                    }
                } else {
                    match error {
                        Some(m) => Err(TelegraphError::ApiError(m)),
                        None => Err(
                            TelegraphError::ParseError(
                                String::from_str("unexpected response body"),
                            ),
                        ),
                    }
                },
            },
        }
    }
}

} // verus!
