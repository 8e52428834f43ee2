//! The media-upload payload: uploaded file records and the upload outcome.

use crate::chars::str_to_chars;
use crate::error::ErrV;
use crate::error::TelegraphError;
use crate::json::jsonv_of_seq;
use crate::json::lemma_jsonv_of_seq_len;
use crate::json::obj_lookup;
use crate::json::parse_json;
use crate::json::parse_json_chars;
use crate::json::JsonV;
use crate::json::JsonValue;
use super::bad_json_note;
use super::get_str_req;
use super::str_req_field;
use vstd::prelude::*;

verus! {

broadcast use vstd::seq::group_seq_axioms, vstd::std_specs::vec::group_vec_axioms;

/// Mathematical model of a [`Media`].
pub struct MediaV {
    /// Path of the uploaded file.
    pub src: Seq<char>,
}

/// One uploaded media file.
#[derive(Debug, PartialEq, Eq)]
pub struct Media {
    /// Path of the file uploaded.
    pub src: String,
}

impl View for Media {
    type V = MediaV;

    open spec fn view(&self) -> MediaV {
        MediaV { src: self.src@ }
    }
}

/// What an upload response body holds: the uploaded records, or the server's
/// error message.
#[derive(Debug, PartialEq, Eq)]
#[allow(missing_docs)]
pub enum UploadResult {
    Error { error: String },
    Uploaded(Vec<Media>),
}

/// The media record a wire value stands for, if well formed.
pub open spec fn media_of_jsonv(j: JsonV) -> Option<MediaV> {
    match j {
        JsonV::Obj(ms) => match str_req_field(ms, "src"@) {
            Some(src) => Some(MediaV { src }),
            None => None,
        },
        _ => None,
    }
}

/// The media records a sequence of wire values stands for.
pub open spec fn medias_of_jsonvs(js: Seq<JsonV>) -> Option<Seq<MediaV>>
    decreases js,
{
    if js.len() == 0 {
        Some(Seq::empty())
    } else {
        match media_of_jsonv(js[0]) {
            Some(m) => match medias_of_jsonvs(js.drop_first()) {
                Some(ms) => Some(seq![m] + ms),
                None => None,
            },
            None => None,
        }
    }
}

/// Models of a sequence of media records.
pub open spec fn medias_v_of(s: Seq<Media>) -> Seq<MediaV>
    decreases s,
{
    if s.len() == 0 {
        Seq::empty()
    } else {
        seq![s[0]@] + medias_v_of(s.drop_first())
    }
}

/// What decoding an upload response body yields: the records on an array
/// body, the server's message on an error object, and a parse error on
/// anything else.
pub open spec fn upload_response(s: Seq<char>) -> Result<Seq<MediaV>, ErrV> {
    match parse_json(s) {
        None => Err(ErrV::ParseError(bad_json_note())),
        Some(j) => match j {
            JsonV::Obj(ms) => match obj_lookup(ms, "error"@) {
                Some(JsonV::Str(m)) => Err(ErrV::ApiError(m)),
                _ => Err(ErrV::ParseError(super::bad_body_note())),
            },
            JsonV::Arr(js) => match medias_of_jsonvs(js) {
                Some(msv) => Ok(msv),
                None => Err(ErrV::ParseError(super::bad_body_note())),
            },
            _ => Err(ErrV::ParseError(super::bad_body_note())),
        },
    }
}

/// Decodes the media records at or after position `k`.
fn medias_from(js: &Vec<JsonValue>, k: usize) -> (r: Option<Vec<Media>>)
    requires
        k <= js@.len(),
    ensures
        match r {
            Some(v) => medias_of_jsonvs(jsonv_of_seq(js@.skip(k as int))) == Some(medias_v_of(v@)),
            None => medias_of_jsonvs(jsonv_of_seq(js@.skip(k as int))) is None,
        },
    decreases js@.len() - k,
{
    if k >= js.len() {
        proof {
            assert(js@.skip(k as int) =~= Seq::<JsonValue>::empty());
        }
        Some(Vec::new())
    } else {
        proof {
            assert(js@.skip(k as int)[0] == js@[k as int]);
            assert(js@.skip(k as int).drop_first() =~= js@.skip(k as int + 1));
            lemma_jsonv_of_seq_len(js@.skip(k as int));
            assert(jsonv_of_seq(js@.skip(k as int)) == seq![crate::json::jsonv_of(js@[k as int])]
                + jsonv_of_seq(js@.skip(k as int + 1)));
            assert((seq![crate::json::jsonv_of(js@[k as int])] + jsonv_of_seq(
                js@.skip(k as int + 1),
            ))[0] == crate::json::jsonv_of(js@[k as int]));
            assert((seq![crate::json::jsonv_of(js@[k as int])] + jsonv_of_seq(
                js@.skip(k as int + 1),
            )).drop_first() =~= jsonv_of_seq(js@.skip(k as int + 1)));
        }
        let m = match &js[k] {
            JsonValue::Obj(ms) => match get_str_req(ms, "src") {
                Some(src) => Media { src },
                None => {
                    return None;
                },
            },
            _ => {
                return None;
            },
        };
        match medias_from(js, k + 1) {
            Some(mut v) => {
                let ghost m0 = m@;
                let ghost v0 = v@;
                v.insert(0, m);
                proof {
                    assert(v@ =~= seq![v@[0]] + v0);
                    assert(v@[0]@ == m0);
                    assert(v@.drop_first() =~= v0);
                    assert(medias_v_of(v@) == seq![v@[0]@] + medias_v_of(v@.drop_first()));
                }
                Some(v)
            },
            None => None,
        }
    }
}

/// Decodes an upload response body.
pub fn upload_from_response(body: &str) -> (r: Result<Vec<Media>, TelegraphError>)
    ensures
        match r {
            Ok(v) => upload_response(body@) == Ok::<Seq<MediaV>, ErrV>(medias_v_of(v@)),
            Err(e) => upload_response(body@) == Err::<Seq<MediaV>, ErrV>(e@),
        },
{
    let cs = str_to_chars(body);
    match parse_json_chars(&cs) {
        None => Err(TelegraphError::ParseError(String::from_str("invalid json"))),
        Some(j) => match &j {
            JsonValue::Obj(ms) => match crate::json::json_obj_get(ms, "error") {
                Some(JsonValue::Str(m)) => Err(
                    TelegraphError::ApiError(crate::chars::chars_to_string(m)),
                ),
                _ => Err(
                    TelegraphError::ParseError(String::from_str("unexpected response body")),
                ),
            },
            JsonValue::Arr(js) => {
                proof {
                    assert(js@.skip(0) =~= js@);
                }
                match medias_from(js, 0) {
                    Some(v) => Ok(v),
                    None => Err(
                        TelegraphError::ParseError(String::from_str("unexpected response body")),
                    ),
                }
            },
            _ => Err(TelegraphError::ParseError(String::from_str("unexpected response body"))),
        },
    }
}

impl UploadResult {
    /// Turns a decoded upload body into the caller's single result, as the
    /// upload path does: the records on success, the server's message as an
    /// API error otherwise.
    pub fn into_result(self) -> (r: Result<Vec<Media>, TelegraphError>)
        ensures
            match self {
                UploadResult::Error { error } => (r matches Err(e) && e@ == ErrV::ApiError(
                    error@,
                )),
                UploadResult::Uploaded(v) => r == Ok::<Vec<Media>, TelegraphError>(v),
            },
    {
        match self {
            UploadResult::Error { error } => Err(TelegraphError::ApiError(error)),
            UploadResult::Uploaded(v) => Ok(v),
        }
    }
}

} // verus!
