//! The `getPage` builder.

use crate::chars::chars_to_string;
use crate::form::append_str;
use crate::form::append_urlenc;
use crate::form::urlenc;
use super::append_bool;
use super::bool_text;
use super::ApiRequest;
use super::NoPath;
use super::Path;
use vstd::prelude::*;

verus! {

/// Builder of `getPage`: `path` is required.
pub struct GetPage<P> {
    /// The operation's endpoint URL.
    pub method_name: String,
    /// Required. Path to the page.
    pub path: P,
    /// Whether the response should carry the page content.
    pub return_content: bool,
}

/// The form body of a `getPage` request.
pub open spec fn get_page_body(path: Seq<char>, return_content: bool) -> Seq<char> {
    "path="@ + urlenc(path) + "&return_content="@ + bool_text(return_content)
}

impl GetPage<NoPath> {
    /// A fresh builder with nothing filled, bound to its endpoint.
    pub(crate) fn new(method_name: String) -> (r: GetPage<NoPath>)
        ensures
            r.method_name@ == method_name@,
            r.return_content == false,
    {
        GetPage { method_name, path: NoPath, return_content: false }
    }
}

impl<P> GetPage<P> {
    /// Required. Path to the Telegraph page.
    pub fn path(self, path: &str) -> (r: GetPage<Path>)
        ensures
            r.method_name@ == self.method_name@,
            r.path.0@ == path@,
            r.return_content == self.return_content,
    {
        GetPage {
            method_name: self.method_name,
            path: Path(String::from_str(path)),
            return_content: self.return_content,
        }
    }

    /// If true, a content field will be returned in the page.
    pub fn return_content(self, return_content: bool) -> (r: GetPage<P>)
        ensures
            r.method_name@ == self.method_name@,
            r.path == self.path,
            r.return_content == return_content,
    {
        GetPage { method_name: self.method_name, path: self.path, return_content }
    }
}

impl GetPage<Path> {
    /// The ready-to-send request; only this fully-filled state has it.
    pub fn into_request(self) -> (r: ApiRequest)
        ensures
            r.url@ == self.method_name@,
            r.body@ == get_page_body(self.path.0@, self.return_content),
    {
        let mut out: Vec<char> = Vec::new();
        append_str("path=", &mut out);
        append_urlenc(self.path.0.as_str(), &mut out);
        append_str("&return_content=", &mut out);
        append_bool(self.return_content, &mut out);
        let body = chars_to_string(&out);
        ApiRequest { url: self.method_name, body }
    }
}

} // verus!
