//! Client library for the Telegraph publishing API.
//!
//! The library models the API's wire formats — the JSON content tree that a
//! page body is made of, the `{ok, result, error}` response envelope, and the
//! form-encoded request bodies — and verifies the logic that builds requests
//! and decodes responses. Each API operation is driven by a typestate request
//! builder: `send` material is only reachable once every required field has
//! been supplied, so a partial request cannot be submitted.

pub mod chars;
pub mod error;
pub mod form;
pub mod json;
pub mod requests;
pub mod types;


use vstd::prelude::*;

use crate::chars::str_to_chars;
use crate::error::ErrV;
pub use crate::error::TelegraphError;
use crate::json::parse_json;
use crate::json::parse_json_chars;
use crate::requests::CreateAccount;
use crate::requests::CreatePage;
use crate::requests::EditAccountInfo;
use crate::requests::EditPage;
use crate::requests::GetAccountInfo;
use crate::requests::GetPage;
use crate::requests::GetPageList;
use crate::requests::GetViews;
use crate::requests::NoAccessToken;
use crate::requests::NoContent;
use crate::requests::NoPath;
use crate::requests::NoShortName;
use crate::requests::NoTitle;
use crate::requests::RevokeAccessToken;
use crate::types::bad_json_note;
use crate::types::node::content_parsed;
use crate::types::node::content_from_json;
use crate::types::node::nodes_v_of;
use crate::types::AccountField;
use crate::types::Node;

verus! {

/// The nine fixed endpoint URLs, one per API operation.
struct MethodName {
    create_account: String,
    edit_account_info: String,
    get_account_info: String,
    revoke_access_token: String,
    create_page: String,
    edit_page: String,
    get_page: String,
    get_page_list: String,
    get_views: String,
}

impl MethodName {
    /// The URLs a facade hands its builders.
    #[verifier::type_invariant]
    spec fn urls_fixed(self) -> bool {
        &&& self.create_account@ == "https://api.telegra.ph/createAccount"@
        &&& self.edit_account_info@ == "https://api.telegra.ph/editAccountInfo"@
        &&& self.get_account_info@ == "https://api.telegra.ph/getAccountInfo"@
        &&& self.revoke_access_token@ == "https://api.telegra.ph/revokeAccessToken"@
        &&& self.create_page@ == "https://api.telegra.ph/createPage"@
        &&& self.edit_page@ == "https://api.telegra.ph/editPage"@
        &&& self.get_page@ == "https://api.telegra.ph/getPage"@
        &&& self.get_page_list@ == "https://api.telegra.ph/getPageList"@
        &&& self.get_views@ == "https://api.telegra.ph/getViews"@
    }
}

impl Default for MethodName {
    fn default() -> (r: MethodName) {
        MethodName {
            create_account: String::from_str("https://api.telegra.ph/createAccount"),
            edit_account_info: String::from_str("https://api.telegra.ph/editAccountInfo"),
            get_account_info: String::from_str("https://api.telegra.ph/getAccountInfo"),
            revoke_access_token: String::from_str("https://api.telegra.ph/revokeAccessToken"),
            create_page: String::from_str("https://api.telegra.ph/createPage"),
            edit_page: String::from_str("https://api.telegra.ph/editPage"),
            get_page: String::from_str("https://api.telegra.ph/getPage"),
            get_page_list: String::from_str("https://api.telegra.ph/getPageList"),
            get_views: String::from_str("https://api.telegra.ph/getViews"),
        }
    }
}

/// The client facade: it knows the nine endpoint URLs and hands out a fresh
/// builder, in its initial nothing-filled state, per call. The transport that
/// carries a built request is the caller's.
pub struct Telegraph {
    method_name: MethodName,
}

impl Default for Telegraph {
    fn default() -> (r: Telegraph) {
        Telegraph { method_name: MethodName::default() }
    }
}

impl Telegraph {
    /// Constructs a new `Telegraph`.
    pub fn new() -> (r: Telegraph) {
        Telegraph::default()
    }

    /// A fresh `createAccount` builder: nothing filled, bound to its
    /// endpoint.
    pub fn create_account(&self) -> (r: CreateAccount<NoShortName>)
        ensures
            r.method_name@ == "https://api.telegra.ph/createAccount"@,
            r.author_name is None,
            r.author_url is None,
    {
        proof {
            use_type_invariant(&self.method_name);
        }
        CreateAccount::new(self.method_name.create_account.clone())
    }

    /// A fresh `editAccountInfo` builder: nothing filled, bound to its
    /// endpoint.
    pub fn edit_account_info(&self) -> (r: EditAccountInfo<NoAccessToken>)
        ensures
            r.method_name@ == "https://api.telegra.ph/editAccountInfo"@,
            r.short_name is None,
            r.author_name is None,
            r.author_url is None,
    {
        proof {
            use_type_invariant(&self.method_name);
        }
        EditAccountInfo::new(self.method_name.edit_account_info.clone())
    }

    /// A fresh `getAccountInfo` builder, bound to its endpoint; absent an
    /// explicit `fields` call it requests the `{short_name, author_name,
    /// author_url}` subset.
    pub fn get_account_info(&self) -> (r: GetAccountInfo<NoAccessToken>)
        ensures
            r.method_name@ == "https://api.telegra.ph/getAccountInfo"@,
            r.fields matches Some(fs) && fs@ =~= seq![
                AccountField::ShortName,
                AccountField::AuthorName,
                AccountField::AuthorUrl,
            ],
    {
        proof {
            use_type_invariant(&self.method_name);
        }
        GetAccountInfo::new(self.method_name.get_account_info.clone())
    }

    /// A fresh `revokeAccessToken` builder: nothing filled, bound to its
    /// endpoint.
    pub fn revoke_access_token(&self) -> (r: RevokeAccessToken<NoAccessToken>)
        ensures
            r.method_name@ == "https://api.telegra.ph/revokeAccessToken"@,
    {
        proof {
            use_type_invariant(&self.method_name);
        }
        RevokeAccessToken::new(self.method_name.revoke_access_token.clone())
    }

    /// A fresh `createPage` builder: nothing filled, bound to its endpoint.
    pub fn create_page(&self) -> (r: CreatePage<
        NoAccessToken,
        crate::requests::create_page::NoTitle,
        crate::requests::create_page::NoContent,
    >)
        ensures
            r.method_name@ == "https://api.telegra.ph/createPage"@,
            r.author_name is None,
            r.author_url is None,
            r.return_content == false,
    {
        proof {
            use_type_invariant(&self.method_name);
        }
        CreatePage::new(self.method_name.create_page.clone())
    }

    /// A fresh `editPage` builder: nothing filled, bound to its endpoint.
    pub fn edit_page(&self) -> (r: EditPage<NoAccessToken, NoPath, NoTitle, NoContent>)
        ensures
            r.method_name@ == "https://api.telegra.ph/editPage"@,
            r.author_name is None,
            r.author_url is None,
            r.return_content == false,
    {
        proof {
            use_type_invariant(&self.method_name);
        }
        EditPage::new(self.method_name.edit_page.clone())
    }

    /// A fresh `getPage` builder: nothing filled, bound to its endpoint.
    pub fn get_page(&self) -> (r: GetPage<NoPath>)
        ensures
            r.method_name@ == "https://api.telegra.ph/getPage"@,
            r.return_content == false,
    {
        proof {
            use_type_invariant(&self.method_name);
        }
        GetPage::new(self.method_name.get_page.clone())
    }

    /// A fresh `getPageList` builder, bound to its endpoint; absent explicit
    /// `offset` and `limit` calls it asks from the start, fifty pages.
    pub fn get_page_list(&self) -> (r: GetPageList<NoAccessToken>)
        ensures
            r.method_name@ == "https://api.telegra.ph/getPageList"@,
            r.offset == 0,
            r.limit == 50,
    {
        proof {
            use_type_invariant(&self.method_name);
        }
        GetPageList::new(self.method_name.get_page_list.clone())
    }

    /// A fresh `getViews` builder: nothing filled, bound to its endpoint.
    pub fn get_views(&self) -> (r: GetViews<NoPath>)
        ensures
            r.method_name@ == "https://api.telegra.ph/getViews"@,
            r.year is None,
            r.month is None,
            r.day is None,
            r.hour is None,
    {
        proof {
            use_type_invariant(&self.method_name);
        }
        GetViews::new(self.method_name.get_views.clone())
    }

    /// The MIME type for a file name: the first guess from its extension, or
    /// a generic image type when nothing is known.
    pub fn get_mime(path: &str) -> (r: String)
        ensures
            r@ == mime_or_default(path@),
    {
        match guess_mime(path) {
            Some(m) => m,
            None => String::from_str("image/jpeg"),
        }
    }
}

/// The first MIME type guessed from a file name's extension; the guess
/// depends on the name alone.
pub uninterp spec fn mime_of(path: Seq<char>) -> Option<Seq<char>>;

/// The MIME type for a file name, with the generic image default.
pub open spec fn mime_or_default(path: Seq<char>) -> Seq<char> {
    match mime_of(path) {
        Some(m) => m,
        None => "image/jpeg"@,
    }
}

/// Relies on `mime_guess::from_path` and `MimeGuess::first`: the first
/// guess for a path, from its extension alone; `Mime::essence_str` is its
/// `type/subtype` text.
#[verifier::external_body]
fn guess_mime(path: &str) -> (r: Option<String>)
    ensures
        match r {
            Some(s) => mime_of(path@) == Some(s@),
            None => mime_of(path@) is None,
        },
{
    mime_guess::from_path(path).first().map(|m| m.essence_str().to_string())
}

/// Detail text used when a content string is valid JSON but not a content
/// tree.
pub open spec fn bad_content_note() -> Seq<char> {
    "unsupported content"@
}

/// Builds page content from its JSON string form; a string outside the
/// content grammar — an unknown tag among them — is rejected.
pub fn build_content(content: &str) -> (r: Result<Vec<Node>, TelegraphError>)
    ensures
        match r {
            Ok(ns) => content_parsed(content@) == Some(nodes_v_of(ns@)),
            Err(e) => content_parsed(content@) is None && e@ == (if parse_json(content@) is None {
                ErrV::ParseError(bad_json_note())
            } else {
                ErrV::ParseError(bad_content_note())
            }),
        },
{
    let cs = str_to_chars(content);
    match parse_json_chars(&cs) {
        None => Err(TelegraphError::ParseError(String::from_str("invalid json"))),
        Some(j) => match content_from_json(&j) {
            Some(v) => Ok(v),
            None => Err(TelegraphError::ParseError(String::from_str("unsupported content"))),
        },
    }
}

} // verus!
