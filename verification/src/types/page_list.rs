//! The page-list payload.

use crate::chars::str_to_chars;
use crate::error::ErrV;
use crate::error::TelegraphError;
use crate::json::jsonv_of_members;
use crate::json::jsonv_of_seq;
use crate::json::lemma_jsonv_of_seq_len;
use crate::json::json_obj_get;
use crate::json::obj_lookup;
use crate::json::parse_json;
use crate::json::parse_json_chars;
use crate::json::JsonV;
use crate::json::JsonValue;
use super::bad_json_note;
use super::bad_body_note;
use super::envelope_fields;
use super::envelope_parts;
use super::get_int_req;
use super::int_req_field;
use super::page::page_of_jsonv;
use super::page::Page;
use super::page::PageV;
use vstd::prelude::*;

verus! {

broadcast use vstd::seq::group_seq_axioms, vstd::std_specs::vec::group_vec_axioms;

/// Mathematical model of a [`PageList`].
pub struct PageListV {
    /// Total number of pages belonging to the account.
    pub total_count: int,
    /// The requested pages, most recently created first.
    pub pages: Seq<PageV>,
}

/// A list of Telegraph articles belonging to an account, most recently
/// created first.
#[derive(Debug, Default, PartialEq)]
pub struct PageList {
    /// Total number of pages belonging to the target Telegraph account.
    pub total_count: u32,
    /// Requested pages of the target Telegraph account.
    pub pages: Vec<Page>,
}

impl super::TelegraphType for PageList {

}

/// Models of a sequence of pages.
pub open spec fn pages_v_of(s: Seq<Page>) -> Seq<PageV>
    decreases s,
{
    if s.len() == 0 {
        Seq::empty()
    } else {
        seq![s[0]@] + pages_v_of(s.drop_first())
    }
}

impl View for PageList {
    type V = PageListV;

    open spec fn view(&self) -> PageListV {
        PageListV { total_count: self.total_count as int, pages: pages_v_of(self.pages@) }
    }
}

/// The pages a sequence of wire values stands for, if all are well formed.
pub open spec fn pages_of_jsonvs(js: Seq<JsonV>) -> Option<Seq<PageV>>
    decreases js, 3int,
{
    if js.len() == 0 {
        Some(Seq::empty())
    } else {
        match page_of_jsonv(js[0]) {
            Some(p) => match pages_of_jsonvs(js.drop_first()) {
                Some(ps) => Some(seq![p] + ps),
                None => None,
            },
            None => None,
        }
    }
}

/// The page list held by the first member with the given key; the member is
/// required and must be an array of well-formed pages.
pub open spec fn pages_field(ms: Seq<(Seq<char>, JsonV)>, key: Seq<char>) -> Option<Seq<PageV>>
    decreases ms, 0int,
{
    if ms.len() == 0 {
        None
    } else if ms[0].0 == key {
        match ms[0].1 {
            JsonV::Arr(js) => pages_of_jsonvs(js),
            _ => None,
        }
    } else {
        pages_field(ms.drop_first(), key)
    }
}

/// How the page list held by a member relates to a plain lookup of its key.
pub proof fn lemma_pages_field_lookup(ms: Seq<(Seq<char>, JsonV)>, key: Seq<char>)
    ensures
        pages_field(ms, key) == (match obj_lookup(ms, key) {
            Some(JsonV::Arr(js)) => pages_of_jsonvs(js),
            _ => None,
        }),
    decreases ms.len(),
{
    if ms.len() > 0 && ms[0].0 != key {
        lemma_pages_field_lookup(ms.drop_first(), key);
    }
}

/// The page list a wire value stands for, if well formed.
pub open spec fn page_list_of_jsonv(j: JsonV) -> Option<PageListV>
    decreases j, 4int,
{
    match j {
        JsonV::Obj(ms) => match int_req_field(ms, "total_count"@, 0, 0xffff_ffff) {
            None => None,
            Some(total_count) => match pages_field(ms, "pages"@) {
                None => None,
                Some(pages) => Some(PageListV { total_count, pages }),
            },
        },
        _ => None,
    }
}

/// What decoding a `getPageList` response body yields.
pub open spec fn page_list_response(s: Seq<char>) -> Result<PageListV, ErrV> {
    match parse_json(s) {
        None => Err(ErrV::ParseError(bad_json_note())),
        Some(j) => match envelope_fields(j) {
            None => Err(ErrV::ParseError(bad_body_note())),
            Some((ok, result, error)) => if ok {
                match result {
                    Some(r) => match page_list_of_jsonv(r) {
                        Some(pl) => Ok(pl),
                        None => Err(ErrV::ParseError(bad_body_note())),
                    },
                    None => Err(ErrV::ParseError(bad_body_note())),
                }
            } else {
                match error {
                    Some(m) => Err(ErrV::ApiError(m)),
                    None => Err(ErrV::ParseError(bad_body_note())),
                }
            },
        },
    }
}

/// Decodes the pages at or after position `k` of a wire array.
fn pages_from(js: &Vec<JsonValue>, k: usize) -> (r: Option<Vec<Page>>)
    requires
        k <= js@.len(),
    ensures
        match r {
            Some(v) => pages_of_jsonvs(jsonv_of_seq(js@.skip(k as int))) == Some(pages_v_of(v@)),
            None => pages_of_jsonvs(jsonv_of_seq(js@.skip(k as int))) is None,
        },
    decreases js@.len() - k,
{
    if k >= js.len() {
        proof {
            assert(js@.skip(k as int) =~= Seq::<JsonValue>::empty());
        }
        Some(Vec::new())
    } else {
        proof {
            assert(js@.skip(k as int)[0] == js@[k as int]);
            assert(js@.skip(k as int).drop_first() =~= js@.skip(k as int + 1));
            lemma_jsonv_of_seq_len(js@.skip(k as int));
            assert(jsonv_of_seq(js@.skip(k as int)) == seq![crate::json::jsonv_of(js@[k as int])]
                + jsonv_of_seq(js@.skip(k as int + 1)));
            assert((seq![crate::json::jsonv_of(js@[k as int])] + jsonv_of_seq(
                js@.skip(k as int + 1),
            ))[0] == crate::json::jsonv_of(js@[k as int]));
            assert((seq![crate::json::jsonv_of(js@[k as int])] + jsonv_of_seq(
                js@.skip(k as int + 1),
            )).drop_first() =~= jsonv_of_seq(js@.skip(k as int + 1)));
        }
        let p = match Page::from_json(&js[k]) {
            Some(p) => p,
            None => {
                return None;
            },
        };
        match pages_from(js, k + 1) {
            Some(mut v) => {
                let ghost p0 = p@;
                let ghost v0 = v@;
                v.insert(0, p);
                proof {
                    assert(v@ =~= seq![v@[0]] + v0);
                    assert(v@[0]@ == p0);
                    assert(v@.drop_first() =~= v0);
                    assert(pages_v_of(v@) == seq![v@[0]@] + pages_v_of(v@.drop_first()));
                }
                Some(v)
            },
            None => None,
        }
    }
}

impl PageList {
    /// Decodes a page list from a parsed wire value.
    pub fn from_json(j: &JsonValue) -> (r: Option<PageList>)
        ensures
            match r {
                Some(pl) => page_list_of_jsonv(j@) == Some(pl@),
                None => page_list_of_jsonv(j@) is None,
            },
    {
        match j {
            JsonValue::Obj(ms) => {
                let total_count = match get_int_req(ms, "total_count", 0, 0xffff_ffff) {
                    Some(v) => v as u32,
                    None => {
                        return None;
                    },
                };
                proof {
                    lemma_pages_field_lookup(jsonv_of_members(ms@), "pages"@);
                }
                let pages: Vec<Page> = match json_obj_get(ms, "pages") {
                    Some(pv) => match pv {
                        JsonValue::Arr(js) => {
                            proof {
                                assert(js@.skip(0) =~= js@);
                            }
                            match pages_from(js, 0) {
                                Some(v) => v,
                                None => {
                                    return None;
                                },
                            }
                        },
                        _ => {
                            return None;
                        },
                    },
                    None => {
                        return None;
                    },
                };
                Some(PageList { total_count, pages })
            },
            _ => None,
        }
    }

    /// Decodes a response body whose payload is a page list.
    pub fn from_response(body: &str) -> (r: Result<PageList, TelegraphError>)
        ensures
            match r {
                Ok(pl) => page_list_response(body@) == Ok::<PageListV, ErrV>(pl@),
                Err(e) => page_list_response(body@) == Err::<PageListV, ErrV>(e@),
            },
    {
        let cs = str_to_chars(body);
        match parse_json_chars(&cs) {
            None => Err(TelegraphError::ParseError(String::from_str("invalid json"))),
            Some(j) => match envelope_parts(&j) {
                None => Err(
                    TelegraphError::ParseError(String::from_str("unexpected response body")),
                ),
                Some((ok, result, error)) => if ok {
                    match result {
                        Some(rv) => match PageList::from_json(rv) {
                            Some(pl) => Ok(pl),
                            None => Err(
                                TelegraphError::ParseError(
                                    String::from_str("unexpected response body"),
                                ),
                            ),
                        },
                        None => Err(
                            TelegraphError::ParseError(
                                String::from_str("unexpected response body"),
                            ),
                        ),
                    }
                } else {
                    match error {
                        Some(m) => Err(TelegraphError::ApiError(m)),
                        None => Err(
                            TelegraphError::ParseError(
                                String::from_str("unexpected response body"),
                            ),
                        ),
                    }
                },
            },
        }
    }
}

} // verus!
