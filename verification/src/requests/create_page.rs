//! The `createPage` builder.

use crate::chars::chars_to_string;
use crate::form::append_str;
use crate::form::append_urlenc;
use crate::form::urlenc;
use crate::types::node::content_string;
use crate::types::node::nodes_v_of;
use crate::types::Node;
use super::append_bool;
use super::append_opt;
use super::bool_text;
use super::field_opt;
use super::opt_str_v;
use super::AccessToken;
use super::ApiFieldSerializer;
use super::ApiRequest;
use super::NoAccessToken;
use vstd::prelude::*;

verus! {

/// Title of the empty state type.
pub struct NoTitle;

/// Title of the filled state type.
pub struct Title(pub String);

/// Content of the empty state type.
pub struct NoContent;

/// Content of the filled state type.
pub struct Content(pub Vec<Node>);

/// Builder of `createPage`: `access_token`, `title` and `content` are all
/// required; `send` material is reachable only once every one is filled.
pub struct CreatePage<A, T, C> {
    /// The operation's endpoint URL.
    pub method_name: String,
    /// Required. Access token of the account.
    pub access_token: A,
    /// Required. Page title.
    pub title: T,
    /// Required. Content of the page.
    pub content: C,
    /// Author name, displayed below the title.
    pub author_name: Option<String>,
    /// Profile link, opened when readers click the author's name.
    pub author_url: Option<String>,
    /// Whether the response should carry the page content.
    pub return_content: bool,
}

/// The form body of a `createPage` request; the content travels as JSON
/// text inside the single `content` form value.
pub open spec fn create_page_body(
    access_token: Seq<char>,
    title: Seq<char>,
    content: Seq<crate::types::NodeV>,
    author_name: Option<Seq<char>>,
    author_url: Option<Seq<char>>,
    return_content: bool,
) -> Seq<char> {
    "access_token="@ + urlenc(access_token) + "&title="@ + urlenc(title) + "&content="@ + urlenc(
        content_string(content),
    ) + field_opt("&author_name="@, author_name) + field_opt("&author_url="@, author_url)
        + "&return_content="@ + bool_text(return_content)
}

impl CreatePage<NoAccessToken, NoTitle, NoContent> {
    /// A fresh builder with nothing filled, bound to its endpoint.
    pub(crate) fn new(method_name: String) -> (r: CreatePage<NoAccessToken, NoTitle, NoContent>)
        ensures
            r.method_name@ == method_name@,
            r.author_name is None,
            r.author_url is None,
            r.return_content == false,
    {
        CreatePage {
            method_name,
            access_token: NoAccessToken,
            title: NoTitle,
            content: NoContent,
            author_name: None,
            author_url: None,
            return_content: false,
        }
    }
}

impl<A, T, C> CreatePage<A, T, C> {
    /// Required. Access token of the Telegraph account.
    pub fn access_token(self, access_token: &str) -> (r: CreatePage<AccessToken, T, C>)
        ensures
            r.method_name@ == self.method_name@,
            r.access_token.0@ == access_token@,
            r.title == self.title,
            r.content == self.content,
            r.author_name == self.author_name,
            r.author_url == self.author_url,
            r.return_content == self.return_content,
    {
        CreatePage {
            method_name: self.method_name,
            access_token: AccessToken(String::from_str(access_token)),
            title: self.title,
            content: self.content,
            author_name: self.author_name,
            author_url: self.author_url,
            return_content: self.return_content,
        }
    }

    /// Required. Page title.
    pub fn title(self, title: &str) -> (r: CreatePage<A, Title, C>)
        ensures
            r.method_name@ == self.method_name@,
            r.access_token == self.access_token,
            r.title.0@ == title@,
            r.content == self.content,
            r.author_name == self.author_name,
            r.author_url == self.author_url,
            r.return_content == self.return_content,
    {
        CreatePage {
            method_name: self.method_name,
            access_token: self.access_token,
            title: Title(String::from_str(title)),
            content: self.content,
            author_name: self.author_name,
            author_url: self.author_url,
            return_content: self.return_content,
        }
    }

    /// Required. Content of the page.
    pub fn content(self, content: Vec<Node>) -> (r: CreatePage<A, T, Content>)
        ensures
            r.method_name@ == self.method_name@,
            r.access_token == self.access_token,
            r.title == self.title,
            r.content.0 == content,
            r.author_name == self.author_name,
            r.author_url == self.author_url,
            r.return_content == self.return_content,
    {
        CreatePage {
            method_name: self.method_name,
            access_token: self.access_token,
            title: self.title,
            content: Content(content),
            author_name: self.author_name,
            author_url: self.author_url,
            return_content: self.return_content,
        }
    }

    /// Author name, displayed below the article's title.
    pub fn author_name(self, author_name: &str) -> (r: CreatePage<A, T, C>)
        ensures
            r.method_name@ == self.method_name@,
            r.access_token == self.access_token,
            r.title == self.title,
            r.content == self.content,
            r.author_name matches Some(s) && s@ == author_name@,
            r.author_url == self.author_url,
            r.return_content == self.return_content,
    {
        CreatePage {
            method_name: self.method_name,
            access_token: self.access_token,
            title: self.title,
            content: self.content,
            author_name: Some(String::from_str(author_name)),
            author_url: self.author_url,
            return_content: self.return_content,
        }
    }

    /// Profile link, opened when readers click the author's name.
    pub fn author_url(self, author_url: &str) -> (r: CreatePage<A, T, C>)
        ensures
            r.method_name@ == self.method_name@,
            r.access_token == self.access_token,
            r.title == self.title,
            r.content == self.content,
            r.author_name == self.author_name,
            r.author_url matches Some(s) && s@ == author_url@,
            r.return_content == self.return_content,
    {
        CreatePage {
            method_name: self.method_name,
            access_token: self.access_token,
            title: self.title,
            content: self.content,
            author_name: self.author_name,
            author_url: Some(String::from_str(author_url)),
            return_content: self.return_content,
        }
    }

    /// If true, a content field will be returned in the page.
    pub fn return_content(self, return_content: bool) -> (r: CreatePage<A, T, C>)
        ensures
            r.method_name@ == self.method_name@,
            r.access_token == self.access_token,
            r.title == self.title,
            r.content == self.content,
            r.author_name == self.author_name,
            r.author_url == self.author_url,
            r.return_content == return_content,
    {
        CreatePage {
            method_name: self.method_name,
            access_token: self.access_token,
            title: self.title,
            content: self.content,
            author_name: self.author_name,
            author_url: self.author_url,
            return_content,
        }
    }
}

impl CreatePage<AccessToken, Title, Content> {
    /// The ready-to-send request; only this fully-filled state has it.
    pub fn into_request(self) -> (r: ApiRequest)
        ensures
            r.url@ == self.method_name@,
            r.body@ == create_page_body(
                self.access_token.0@,
                self.title.0@,
                nodes_v_of(self.content.0@),
                opt_str_v(self.author_name),
                opt_str_v(self.author_url),
                self.return_content,
            ),
    {
        let mut out: Vec<char> = Vec::new();
        append_str("access_token=", &mut out);
        append_urlenc(self.access_token.0.as_str(), &mut out);
        append_str("&title=", &mut out);
        append_urlenc(self.title.0.as_str(), &mut out);
        append_str("&content=", &mut out);
        let content_text = ApiFieldSerializer::serialize_content(&self.content.0);
        append_urlenc(content_text.as_str(), &mut out);
        append_opt("&author_name=", &self.author_name, &mut out);
        append_opt("&author_url=", &self.author_url, &mut out);
        append_str("&return_content=", &mut out);
        append_bool(self.return_content, &mut out);
        let body = chars_to_string(&out);
        ApiRequest { url: self.method_name, body }
    }
}

} // verus!
