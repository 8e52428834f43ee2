//! The page payload.

use crate::chars::str_to_chars;
use crate::error::ErrV;
use crate::error::TelegraphError;
use crate::json::jsonv_of_members;
use crate::json::json_obj_get;
use crate::json::parse_json;
use crate::json::parse_json_chars;
use crate::json::JsonV;
use crate::json::JsonValue;
use super::bad_json_note;
use super::bad_body_note;
use super::envelope_fields;
use super::envelope_parts;
use super::get_bool_opt;
use super::get_int_req;
use super::get_str_opt;
use super::get_str_req;
use super::bool_opt_field;
use super::int_req_field;
use super::str_opt_field;
use super::str_req_field;
use super::node::lemma_nodes_field_lookup;
use super::node::nodes_field;
use super::node::nodes_from_json_at;
use super::node::nodes_v_of;
use super::node::Node;
use super::node::NodeV;
use vstd::prelude::*;

verus! {

broadcast use vstd::seq::group_seq_axioms, vstd::std_specs::vec::group_vec_axioms;

/// Mathematical model of a [`Page`].
pub struct PageV {
    /// Path to the page.
    pub path: Seq<char>,
    /// URL of the page.
    pub url: Seq<char>,
    /// Title of the page.
    pub title: Seq<char>,
    /// Description of the page.
    pub description: Seq<char>,
    /// Name of the author.
    pub author_name: Option<Seq<char>>,
    /// Profile link of the author.
    pub author_url: Option<Seq<char>>,
    /// Image of the page.
    pub image_url: Option<Seq<char>>,
    /// Content of the page.
    pub content: Option<Seq<NodeV>>,
    /// Number of page views.
    pub views: int,
    /// Whether the requesting account can edit the page.
    pub can_edit: Option<bool>,
}

/// A page on Telegraph.
#[derive(Debug, Default, PartialEq)]
pub struct Page {
    /// Path to the page.
    pub path: String,
    /// URL of the page.
    pub url: String,
    /// Title of the page.
    pub title: String,
    /// Description of the page.
    pub description: String,
    /// Name of the author, displayed below the title.
    pub author_name: Option<String>,
    /// Profile link, opened when readers click the author's name.
    pub author_url: Option<String>,
    /// Image URL of the page.
    pub image_url: Option<String>,
    /// Content of the page.
    pub content: Option<Vec<Node>>,
    /// Number of page views for the page.
    pub views: u32,
    /// Only returned if an access token was passed: whether the account can
    /// edit the page.
    pub can_edit: Option<bool>,
}

impl super::TelegraphType for Page {

}

impl View for Page {
    type V = PageV;

    open spec fn view(&self) -> PageV {
        PageV {
            path: self.path@,
            url: self.url@,
            title: self.title@,
            description: self.description@,
            author_name: match self.author_name {
                Some(s) => Some(s@),
                None => None,
            },
            author_url: match self.author_url {
                Some(s) => Some(s@),
                None => None,
            },
            image_url: match self.image_url {
                Some(s) => Some(s@),
                None => None,
            },
            content: match self.content {
                Some(cs) => Some(nodes_v_of(cs@)),
                None => None,
            },
            views: self.views as int,
            can_edit: self.can_edit,
        }
    }
}

/// The page a wire value stands for, if well formed.
pub open spec fn page_of_jsonv(j: JsonV) -> Option<PageV>
    decreases j, 2int,
{
    match j {
        JsonV::Obj(ms) => match str_req_field(ms, "path"@) {
            None => None,
            Some(path) => match str_req_field(ms, "url"@) {
                None => None,
                Some(url) => match str_req_field(ms, "title"@) {
                    None => None,
                    Some(title) => match str_req_field(ms, "description"@) {
                        None => None,
                        Some(description) => match str_opt_field(ms, "author_name"@) {
                            None => None,
                            Some(author_name) => match str_opt_field(ms, "author_url"@) {
                                None => None,
                                Some(author_url) => match str_opt_field(ms, "image_url"@) {
                                    None => None,
                                    Some(image_url) => match nodes_field(ms, "content"@) {
                                        None => None,
                                        Some(content) => match int_req_field(
                                            ms,
                                            "views"@,
                                            0,
                                            0xffff_ffff,
                                        ) {
                                            None => None,
                                            Some(views) => match bool_opt_field(ms, "can_edit"@) {
                                                None => None,
                                                Some(can_edit) => Some(
                                                    PageV {
                                                        path,
                                                        url,
                                                        title,
                                                        description,
                                                        author_name,
                                                        author_url,
                                                        image_url,
                                                        content,
                                                        views,
                                                        can_edit,
                                                    },
                                                ),
                                            },
                                        },
                                    },
                                },
                            },
                        },
                    },
                },
            },
        },
        _ => None,
    }
}

/// What decoding a page response body yields.
pub open spec fn page_response(s: Seq<char>) -> Result<PageV, ErrV> {
    match parse_json(s) {
        None => Err(ErrV::ParseError(bad_json_note())),
        Some(j) => match envelope_fields(j) {
            None => Err(ErrV::ParseError(bad_body_note())),
            Some((ok, result, error)) => if ok {
                match result {
                    Some(r) => match page_of_jsonv(r) {
                        Some(p) => Ok(p),
                        None => Err(ErrV::ParseError(bad_body_note())),
                    },
                    None => Err(ErrV::ParseError(bad_body_note())),
                }
            } else {
                match error {
                    Some(m) => Err(ErrV::ApiError(m)),
                    None => Err(ErrV::ParseError(bad_body_note())),
                }
            },
        },
    }
}

impl Page {
    /// Decodes a page from a parsed wire value.
    pub fn from_json(j: &JsonValue) -> (r: Option<Page>)
        ensures
            match r {
                Some(p) => page_of_jsonv(j@) == Some(p@),
                None => page_of_jsonv(j@) is None,
            },
    {
        match j {
            JsonValue::Obj(ms) => {
                let path = match get_str_req(ms, "path") {
                    Some(v) => v,
                    None => {
                        return None;
                    },
                };
                let url = match get_str_req(ms, "url") {
                    Some(v) => v,
                    None => {
                        return None;
                    },
                };
                let title = match get_str_req(ms, "title") {
                    Some(v) => v,
                    None => {
                        return None;
                    },
                };
                let description = match get_str_req(ms, "description") {
                    Some(v) => v,
                    None => {
                        return None;
                    },
                };
                let author_name = match get_str_opt(ms, "author_name") {
                    Some(v) => v,
                    None => {
                        return None;
                    },
                };
                let author_url = match get_str_opt(ms, "author_url") {
                    Some(v) => v,
                    None => {
                        return None;
                    },
                };
                let image_url = match get_str_opt(ms, "image_url") {
                    Some(v) => v,
                    None => {
                        return None;
                    },
                };
                proof {
                    lemma_nodes_field_lookup(jsonv_of_members(ms@), "content"@);
                }
                let content: Option<Vec<Node>> = match json_obj_get(ms, "content") {
                    None => None,
                    Some(JsonValue::Null) => None,
                    Some(chv) => match chv {
                        JsonValue::Arr(cs) => {
                            proof {
                                assert(cs@.skip(0) =~= cs@);
                            }
                            match nodes_from_json_at(cs, 0) {
                                Some(v) => Some(v),
                                None => {
                                    return None;
                                },
                            }
                        },
                        _ => {
                            return None;
                        },
                    },
                };
                let views = match get_int_req(ms, "views", 0, 0xffff_ffff) {
                    Some(v) => v as u32,
                    None => {
                        return None;
                    },
                };
                let can_edit = match get_bool_opt(ms, "can_edit") {
                    Some(v) => v,
                    None => {
                        return None;
                    },
                };
                Some(
                    Page {
                        path,
                        url,
                        title,
                        description,
                        author_name,
                        author_url,
                        image_url,
                        content,
                        views,
                        can_edit,
                    },
                )
            },
            _ => None,
        }
    }

    /// Decodes a response body whose payload is a page.
    pub fn from_response(body: &str) -> (r: Result<Page, TelegraphError>)
        ensures
            match r {
                Ok(p) => page_response(body@) == Ok::<PageV, ErrV>(p@),
                Err(e) => page_response(body@) == Err::<PageV, ErrV>(e@),
            },
    {
        let cs = str_to_chars(body);
        match parse_json_chars(&cs) {
            None => Err(TelegraphError::ParseError(String::from_str("invalid json"))),
            Some(j) => match envelope_parts(&j) {
                None => Err(
                    TelegraphError::ParseError(String::from_str("unexpected response body")),
                ),
                Some((ok, result, error)) => if ok {
                    match result {
                        Some(rv) => match Page::from_json(rv) {
                            Some(p) => Ok(p),
                            None => Err(
                                TelegraphError::ParseError(
                                    String::from_str("unexpected response body"),
                                ),
                            ),
                        },
                        None => Err(
                            TelegraphError::ParseError(
                                String::from_str("unexpected response body"),
                            ),
                        ),
                    }
                } else {
                    match error {
                        Some(m) => Err(TelegraphError::ApiError(m)),
                        None => Err(
                            TelegraphError::ParseError(
                                String::from_str("unexpected response body"),
                            ),
                        ),
                    }
                },
            },
        }
    }
}

} // verus!
