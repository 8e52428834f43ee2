//! The page-view-count payload.

use crate::chars::str_to_chars;
use crate::error::ErrV;
use crate::error::TelegraphError;
use crate::json::parse_json;
use crate::json::parse_json_chars;
use crate::json::JsonV;
use crate::json::JsonValue;
use super::bad_json_note;
use super::bad_body_note;
use super::envelope_fields;
use super::envelope_parts;
use super::get_int_req;
use super::int_req_field;
use vstd::prelude::*;

verus! {

/// Mathematical model of a [`PageViews`].
pub struct PageViewsV {
    /// Number of page views.
    pub views: int,
}

/// The number of views of a Telegraph article.
#[derive(Debug, Default, PartialEq, Eq)]
pub struct PageViews {
    /// Number of page views for the target page.
    pub views: u32,
}

impl super::TelegraphType for PageViews {

}

impl View for PageViews {
    type V = PageViewsV;

    open spec fn view(&self) -> PageViewsV {
        PageViewsV { views: self.views as int }
    }
}

/// The view count a wire value stands for, if well formed.
pub open spec fn page_views_of_jsonv(j: JsonV) -> Option<PageViewsV> {
    match j {
        JsonV::Obj(ms) => match int_req_field(ms, "views"@, 0, 0xffff_ffff) {
            Some(views) => Some(PageViewsV { views }),
            None => None,
        },
        _ => None,
    }
}

/// What decoding a `getViews` response body yields.
pub open spec fn page_views_response(s: Seq<char>) -> Result<PageViewsV, ErrV> {
    match parse_json(s) {
        None => Err(ErrV::ParseError(bad_json_note())),
        Some(j) => match envelope_fields(j) {
            None => Err(ErrV::ParseError(bad_body_note())),
            Some((ok, result, error)) => if ok {
                match result {
                    Some(r) => match page_views_of_jsonv(r) {
                        Some(v) => Ok(v),
                        None => Err(ErrV::ParseError(bad_body_note())),
                    },
                    None => Err(ErrV::ParseError(bad_body_note())),
                }
            } else {
                match error {
                    Some(m) => Err(ErrV::ApiError(m)),
                    None => Err(ErrV::ParseError(bad_body_note())),
                }
            },
        },
    }
}

impl PageViews {
    /// Decodes a view count from a parsed wire value.
    pub fn from_json(j: &JsonValue) -> (r: Option<PageViews>)
        ensures
            match r {
                Some(v) => page_views_of_jsonv(j@) == Some(v@),
                None => page_views_of_jsonv(j@) is None,
            },
    {
        match j {
            JsonValue::Obj(ms) => match get_int_req(ms, "views", 0, 0xffff_ffff) {
                Some(views) => Some(PageViews { views: views as u32 }),
                None => None,
            },
            _ => None,
        }
    }

    /// Decodes a response body whose payload is a view count.
    pub fn from_response(body: &str) -> (r: Result<PageViews, TelegraphError>)
        ensures
            match r {
                Ok(v) => page_views_response(body@) == Ok::<PageViewsV, ErrV>(v@),
                Err(e) => page_views_response(body@) == Err::<PageViewsV, ErrV>(e@),
            },
    {
        let cs = str_to_chars(body);
        match parse_json_chars(&cs) {
            None => Err(TelegraphError::ParseError(String::from_str("invalid json"))),
            Some(j) => match envelope_parts(&j) {
                None => Err(
                    TelegraphError::ParseError(String::from_str("unexpected response body")),
                ),
                Some((ok, result, error)) => if ok {
                    match result {
                        Some(rv) => match PageViews::from_json(rv) {
                            Some(v) => Ok(v),
                            None => Err(
                                TelegraphError::ParseError(
                                    String::from_str("unexpected response body"),
                                ),
                            ),
                        },
                        None => Err(
                            TelegraphError::ParseError(
                                String::from_str("unexpected response body"),
                            ),
                        ),
                    }
                } else {
                    match error {
                        Some(m) => Err(TelegraphError::ApiError(m)),
                        None => Err(
                            TelegraphError::ParseError(
                                String::from_str("unexpected response body"),
                            ),
                        ),
                    }
                },
            },
        }
    }
}

} // verus!
